use os_gaming::gui::font::{FontFamily, FontManager};
use os_gaming::gui::input::{Event, Key, MouseButton};
use os_gaming::gui::renderer::Rect;
use os_gaming::gui::windows_layout::{WindowConfig, WindowLayoutConfig};
use os_gaming::gui::{handle_app_event, init_fonts, init_gui, init_renderer, init_window_manager, start_app};

#[test]
fn layout_defaults() {
    let l = WindowLayoutConfig::new();
    assert_eq!(l.default_size, (800, 600));
    assert_eq!(l.default_position, (100, 100));
    assert_eq!(l.margin, 5);
    assert!(l.snap_to_edges);
    assert_eq!(l.grid_size, (10, 10));
}

#[test]
fn layout_window_config_falls_back_to_default() {
    let mut l = WindowLayoutConfig::new();
    let c = l.get_window_config("console");
    assert_eq!(c.size, (800, 600));
    assert_eq!(c.position, (100, 100));
    assert!(c.resizable && c.movable);
    assert_eq!(c.min_size, None);
    l.add_window_config("console", WindowConfig::new((300, 200), (5, 6)));
    let c = l.get_window_config("console");
    assert_eq!(c.size, (300, 200));
    assert_eq!(c.position, (5, 6));
    l.add_window_config("console", WindowConfig::new((1, 2), (3, 4)));
    assert_eq!(l.get_window_config("console").size, (1, 2));
    assert_eq!(l.get_window_config("other").size, (800, 600));
}

#[test]
fn layout_bytes_round() {
    let l = WindowLayoutConfig::from_bytes(&[1, 2, 3]).unwrap();
    assert_eq!(l.margin, 5);
    assert!(l.to_bytes().unwrap().is_empty());
}

#[test]
fn font_family_needs_loaded_font() {
    let mut fm = FontManager::new();
    let e = fm.set_font_family(FontFamily::Monospace, "mono").unwrap_err();
    assert_eq!(e, "Font 'mono' not loaded");
    fm.load_font("mono", &[1, 2, 3]).unwrap();
    assert!(fm.set_font_family(FontFamily::Monospace, "mono").is_ok());
    assert!(fm.load_font_from_memory("other", &[]).is_ok());
    assert!(fm.set_font_family(FontFamily::Proportional, "other").is_ok());
    assert!(fm.setup_default_fonts().is_ok());
}

#[test]
fn fonts_initialise() {
    assert_eq!(init_fonts(), Ok(()));
}

#[test]
fn renderer_and_manager_initialisation() {
    assert_eq!(init_renderer(0, 10).err(), Some("Failed to initialize renderer"));
    let r = init_renderer(64, 48).unwrap();
    assert_eq!(r.width, 64);
    let wm = init_window_manager(r).unwrap();
    assert_eq!(wm.next_window_id, 1);
    assert!(wm.windows.is_empty());
}

#[test]
fn gui_starts_with_one_window() {
    let wm = init_gui().unwrap();
    assert_eq!(wm.windows.len(), 1);
    let w = wm.get_window(1).unwrap();
    assert_eq!(w.title(), "OS Gaming");
    assert_eq!(w.rect(), Rect::new(0, 0, 10, 10));
    assert_eq!(wm.next_window_id, 2);
}

#[test]
fn app_starts_with_main_window_and_theme() {
    assert!(start_app(0, 600, "dark").is_none());
    let (wm, input) = start_app(800, 600, "light").unwrap();
    assert_eq!(wm.get_window(1).unwrap().title(), "MainSystem");
    assert_eq!(wm.get_window(1).unwrap().rect(), Rect::new(0, 0, 800, 600));
    assert!(!input.has_events());
}

#[test]
fn app_events_stop_or_continue() {
    let (mut wm, _input) = start_app(800, 600, "dark").unwrap();
    let (go, out) = handle_app_event(&mut wm, (0, 0), Event::Quit, false);
    assert!(!go && out.is_empty());
    let (go, _) = handle_app_event(&mut wm, (0, 0), Event::WindowClose, false);
    assert!(!go);
    let (go, _) = handle_app_event(&mut wm, (0, 0), Event::KeyPress(Key::Escape), true);
    assert!(!go);
    assert!(!wm.exit_requested());
    let (go, _) = handle_app_event(&mut wm, (0, 0), Event::KeyPress(Key::Escape), false);
    assert!(go);
    let (go, _) = handle_app_event(&mut wm, (0, 0), Event::KeyRelease(Key::Escape), false);
    assert!(go);
}

#[test]
fn app_mouse_press_focuses_window() {
    let (mut wm, _input) = start_app(800, 600, "dark").unwrap();
    wm.windows[0].set_visible(true);
    wm.windows[0].set_event_callback(7);
    assert!(wm.mouse_event_ok(100, 300, 1));
    let (go, out) = handle_app_event(&mut wm, (100, 300), Event::MousePress(MouseButton::Middle), false);
    assert!(go);
    assert_eq!(wm.focused_window, 1);
    assert!(!out.is_empty());
    assert!(out.iter().all(|d| d.handler == 7));
}

#[test]
fn mouse_check_refuses_overflowing_window() {
    let (mut wm, _input) = start_app(800, 600, "dark").unwrap();
    wm.windows[0].set_visible(true);
    wm.windows[0].set_rect(Rect::new(i32::MAX - 5, 0, 100, 100));
    assert!(!wm.mouse_event_ok(0, 0, 0));
}
