use os_gaming::gui::input::{Event, InputManager, Key, MouseButton};

#[test]
fn key_press_then_update_holds_and_reports() {
    let mut im = InputManager::new();
    im.process_key_press(Key::A);
    assert!(im.is_key_pressed(Key::A));
    assert!(!im.is_key_held(Key::A));
    im.update();
    assert!(!im.is_key_pressed(Key::A));
    assert!(im.is_key_held(Key::A));
    assert_eq!(im.next_event(), Some(Event::KeyPress(Key::A)));
    assert_eq!(im.next_event(), None);
}

#[test]
fn key_press_then_release_is_released() {
    let mut im = InputManager::new();
    im.process_key_press(Key::Space);
    im.process_key_release(Key::Space);
    assert!(!im.is_key_pressed(Key::Space));
    assert!(im.is_key_released(Key::Space));
    im.update();
    assert!(!im.is_key_released(Key::Space));
    assert!(!im.is_key_held(Key::Space));
    assert_eq!(im.next_event(), Some(Event::KeyRelease(Key::Space)));
}

#[test]
fn release_of_key_never_pressed_changes_nothing() {
    let mut im = InputManager::new();
    im.process_key_release(Key::B);
    assert!(!im.is_key_released(Key::B));
}

#[test]
fn mouse_moves_and_buttons() {
    let mut im = InputManager::new();
    im.process_mouse_move(120, -4);
    assert_eq!(im.get_mouse_position(), (120, -4));
    im.process_mouse_button_press(MouseButton::Right);
    assert!(im.is_mouse_button_pressed(MouseButton::Right));
    im.update();
    assert!(im.is_mouse_button_held(MouseButton::Right));
    assert_eq!(im.next_event(), Some(Event::MousePress(MouseButton::Right)));
    im.process_mouse_button_release(MouseButton::Right);
    assert!(im.is_mouse_button_released(MouseButton::Right));
}

#[test]
fn scancodes_and_button_ids() {
    let im = InputManager::new();
    assert_eq!(im.scancode_to_key(0x01), Some(Key::Escape));
    assert_eq!(im.scancode_to_key(0x1E), Some(Key::A));
    assert_eq!(im.scancode_to_key(0xFF), None);
    assert_eq!(im.button_id_to_mouse_button(0), Some(MouseButton::Left));
    assert_eq!(im.button_id_to_mouse_button(9), None);
}

#[test]
fn key_codes_round_trip() {
    assert_eq!(Key::Escape.code(), 26);
    assert_eq!(Key::from_code(26), Some(Key::Escape));
    assert_eq!(Key::from_code(Key::A.code()), Some(Key::A));
    assert_eq!(MouseButton::from_code(MouseButton::Middle.code()), Some(MouseButton::Middle));
}

#[test]
fn event_queue_in_order() {
    let mut im = InputManager::new();
    assert!(!im.has_events());
    im.push_event(Event::Quit);
    im.push_event(Event::WindowClose);
    assert!(im.has_events());
    assert_eq!(im.next_event(), Some(Event::Quit));
    im.clear_events();
    assert!(!im.has_events());
}

#[test]
fn window_events_are_queued() {
    let mut im = InputManager::new();
    im.process_window_resize(640, 480);
    im.process_window_close();
    assert_eq!(im.next_event(), Some(Event::WindowResize(640, 480)));
    assert_eq!(im.next_event(), Some(Event::WindowClose));
}
