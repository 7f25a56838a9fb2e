use os_gaming::gui::renderer::{Color, Rect, Renderer};
use os_gaming::gui::window_manager::{Dispatch, DrawCommand, WindowEvent, WindowManager};

fn manager() -> WindowManager {
    let renderer = Renderer::new(800, 600).unwrap();
    WindowManager::new(renderer).unwrap()
}

#[test]
fn create_window_centres_and_counts_ids() {
    let mut wm = manager();
    let a = wm.create_window("Main", 400, 200, true).unwrap();
    let b = wm.create_window("Side", 100, 100, false).unwrap();
    assert_eq!(a, 1);
    assert_eq!(b, 2);
    let w = wm.get_window(a).unwrap();
    assert_eq!(w.rect(), Rect::new(200, 200, 400, 200));
    assert!(!w.is_visible());
    assert_eq!(w.title(), "Main");
    assert_eq!(wm.get_window(b).unwrap().rect(), Rect::new(20, 20, 100, 100));
    assert!(wm.has_window(2));
    assert!(!wm.has_window(3));
}

#[test]
fn show_focuses_and_brings_to_front() {
    let mut wm = manager();
    let a = wm.create_window("A", 100, 100, false).unwrap();
    let b = wm.create_window("B", 100, 100, false).unwrap();
    wm.show_window(a);
    wm.show_window(b);
    assert_eq!(wm.focused_window, b);
    assert!(wm.get_window(b).unwrap().is_focused());
    assert!(!wm.get_window(a).unwrap().is_focused());
    wm.focus_window(a);
    let layout = wm.save_layout();
    assert_eq!(layout.last().unwrap().0, a);
    assert_eq!(wm.focused_window, a);
}

#[test]
fn focus_routes_blur_and_focus_to_handlers() {
    let mut wm = manager();
    let a = wm.create_window("A", 100, 100, false).unwrap();
    let b = wm.create_window("B", 100, 100, false).unwrap();
    wm.windows[0].set_event_callback(7);
    wm.windows[1].set_event_callback(9);
    wm.show_window(a);
    let routed = wm.show_window(b);
    assert_eq!(
        routed,
        vec![
            Dispatch { window: a, handler: 7, event: WindowEvent::Blur },
            Dispatch { window: b, handler: 9, event: WindowEvent::Focus },
        ]
    );
}

#[test]
fn hiding_the_focused_window_passes_focus_on() {
    let mut wm = manager();
    let a = wm.create_window("A", 100, 100, false).unwrap();
    let b = wm.create_window("B", 100, 100, false).unwrap();
    wm.show_window(a);
    wm.show_window(b);
    wm.hide_window(b);
    assert_eq!(wm.focused_window, a);
    assert!(!wm.get_window(b).unwrap().is_visible());
    wm.hide_window(a);
    assert_eq!(wm.focused_window, 0);
}

#[test]
fn close_removes_the_window() {
    let mut wm = manager();
    let a = wm.create_window("A", 100, 100, false).unwrap();
    let b = wm.create_window("B", 100, 100, false).unwrap();
    wm.show_window(a);
    wm.close_window(a);
    assert!(!wm.has_window(a));
    assert!(wm.has_window(b));
    assert_eq!(wm.save_layout().len(), 1);
    wm.shutdown();
    assert_eq!(wm.save_layout().len(), 0);
    assert_eq!(wm.focused_window, 0);
}

#[test]
fn title_bar_press_starts_a_drag_that_moves_the_window() {
    let mut wm = manager();
    let a = wm.create_window("A", 200, 100, false).unwrap();
    wm.show_window(a);
    wm.windows[0].set_event_callback(3);
    // press in the title bar at (30, 25): grab point (10, 5)
    let routed = wm.handle_mouse_press(1, 30, 25);
    assert!(routed.is_empty());
    assert_eq!(wm.dragging_window, a);
    assert_eq!((wm.drag_offset_x, wm.drag_offset_y), (10, 5));
    let routed = wm.handle_mouse_event(100, 70, 1, 0);
    assert_eq!(wm.get_window(a).unwrap().rect(), Rect::new(90, 65, 200, 100));
    assert_eq!(routed, vec![Dispatch { window: a, handler: 3, event: WindowEvent::Move { x: 90, y: 65 } }]);
    // releasing stops the drag
    wm.handle_mouse_release(1, 100, 70);
    assert_eq!(wm.dragging_window, 0);
}

#[test]
fn clicks_below_the_title_bar_reach_the_top_window() {
    let mut wm = manager();
    let a = wm.create_window("A", 200, 200, false).unwrap();
    let b = wm.create_window("B", 200, 200, false).unwrap();
    wm.windows[0].set_event_callback(1);
    wm.windows[1].set_event_callback(2);
    wm.show_window(a);
    wm.show_window(b);
    // both cover (50, 100); B is on top
    let routed = wm.handle_mouse_move(50, 100);
    assert_eq!(routed, vec![Dispatch { window: b, handler: 2, event: WindowEvent::MouseMove { x: 30, y: 80 } }]);
    let routed = wm.handle_mouse_event(50, 100, 1, 0);
    assert_eq!(
        routed,
        vec![Dispatch { window: b, handler: 2, event: WindowEvent::MouseDown { x: 30, y: 80, button: 1 } }]
    );
    // a miss routes nothing
    assert!(wm.handle_mouse_move(700, 500).is_empty());
}

#[test]
fn keys_go_to_the_focused_window() {
    let mut wm = manager();
    assert!(wm.handle_key_event(65, true, 0).is_empty());
    let a = wm.create_window("A", 100, 100, false).unwrap();
    wm.windows[0].set_event_callback(5);
    wm.show_window(a);
    let routed = wm.handle_key_event(65, true, 2);
    assert_eq!(
        routed,
        vec![Dispatch { window: a, handler: 5, event: WindowEvent::KeyDown { key: 65, scancode: 65, modifiers: 2 } }]
    );
    let routed = wm.handle_key_event(65, false, 0);
    assert_eq!(routed[0].event, WindowEvent::KeyUp { key: 65, scancode: 65, modifiers: 0 });
}

#[test]
fn escape_requests_exit_until_released() {
    let mut wm = manager();
    wm.handle_key_press(13);
    assert!(!wm.exit_requested());
    wm.handle_key_press(27);
    assert!(wm.exit_requested());
    wm.handle_key_release(27);
    assert!(!wm.exit_requested());
}

#[test]
fn render_draws_visible_windows_with_content_clip() {
    let mut wm = manager();
    let a = wm.create_window("A", 100, 80, false).unwrap();
    let _b = wm.create_window("B", 100, 80, false).unwrap();
    wm.windows[0].set_render_callback(11);
    wm.show_window(a);
    let plan = wm.render().unwrap();
    let theme = wm.theme;
    let rect = Rect::new(20, 20, 100, 80);
    assert_eq!(
        plan,
        vec![
            DrawCommand::FillRect { rect, color: Color::new(45, 45, 48, 255) },
            DrawCommand::DrawRect { rect, color: theme.window_border_active },
            DrawCommand::FillRect { rect: Rect::new(20, 20, 100, 25), color: theme.title_bar_active },
            DrawCommand::SetClip { clip: Some(Rect::new(20, 45, 100, 55)) },
            DrawCommand::RenderContent { window: a, handler: 11 },
            DrawCommand::SetClip { clip: None },
        ]
    );
}

#[test]
fn touch_acts_as_the_mouse() {
    let mut wm = manager();
    let a = wm.create_window("A", 100, 100, false).unwrap();
    wm.show_window(a);
    wm.handle_touch_event(0, 30, 25, 9);
    assert_eq!(wm.dragging_window, a);
}
