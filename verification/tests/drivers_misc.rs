use os_gaming::kernel::drivers::displayport::DisplayPortDriver;
use os_gaming::kernel::drivers::hdmi::HdmiDriver;
use os_gaming::kernel::drivers::display::{self, Color as DColor, ColorDepth, DisplayInfo, DisplayMode};
use os_gaming::kernel::drivers::inputs::{
    self, create_key_press_event, create_key_release_event, create_mouse_move_event, is_key_down,
    is_key_just_pressed, process_input_event,
};
use os_gaming::kernel::drivers::keyboard;
use os_gaming::scan::{decimal_chars, parse_hex_u8, parse_u32, split_chars, trim_chars};
use os_gaming::text::chars_of;

#[test]
fn display_colour_packing() {
    let c = DColor::with_alpha(0x12, 0x34, 0x56, 0x78);
    assert_eq!(c.to_rgba32(), 0x12345678);
    assert_eq!(DColor::new(0xFF, 0x80, 0x10).to_rgb24(), 0xFF8010);
    assert_eq!(DColor::new(0xFF, 0xFF, 0xFF).to_rgb16(), 0xFFFF);
    assert_eq!(DColor::new(0x08, 0x04, 0x08).to_rgb16(), 0x0821);
}

#[test]
fn display_init_sets_vesa_mode_once() {
    let mut d = DisplayInfo::new();
    display::init(&mut d).unwrap();
    assert_eq!((d.width, d.height, d.pitch), (800, 600, 3200));
    assert!(d.initialized);
    display::init(&mut d).unwrap();
    assert_eq!(d.width, 800);
    display::set_mode(&mut d, DisplayMode::Vesa1024x768, ColorDepth::Bpp16).unwrap();
    assert_eq!((d.width, d.height, d.pitch), (1024, 768, 2048));
}

#[test]
fn input_press_is_just_pressed_for_one_frame() {
    let mut sys = inputs::initialize();
    process_input_event(&mut sys, create_key_press_event(65));
    assert!(is_key_down(&sys, 65));
    assert!(!is_key_just_pressed(&sys, 65));
    inputs::update(&mut sys);
    assert!(is_key_down(&sys, 65));
    assert!(is_key_just_pressed(&sys, 65));
    inputs::update(&mut sys);
    assert!(is_key_down(&sys, 65));
    assert!(!is_key_just_pressed(&sys, 65));
    process_input_event(&mut sys, create_key_release_event(65));
    assert!(!is_key_down(&sys, 65));
    inputs::update(&mut sys);
    assert!(inputs::is_key_just_released(&sys, 65));
    process_input_event(&mut sys, create_mouse_move_event(10, -4));
    assert_eq!(inputs::get_mouse_position(&sys), (10, -4));
}

#[test]
fn input_tracks_named_key_codes() {
    let mut sys = inputs::initialize();
    process_input_event(&mut sys, create_key_press_event(inputs::keys::KEY_ENTER));
    assert!(is_key_down(&sys, inputs::keys::KEY_ENTER));
    process_input_event(&mut sys, create_key_press_event(inputs::keys::KEY_RIGHT_ALT));
    assert!(is_key_down(&sys, inputs::keys::KEY_RIGHT_ALT));
}

#[test]
fn display_highest_vesa_mode_is_5k() {
    let mut d = DisplayInfo::new();
    display::init(&mut d).unwrap();
    display::set_mode(&mut d, DisplayMode::Vesa5120x2880, ColorDepth::Bpp32).unwrap();
    assert_eq!((d.width, d.height, d.pitch), (5120, 2880, 20480));
}

#[test]
fn keyboard_decodes_letters_with_shift() {
    let mut k = keyboard::new();
    let e = keyboard::handle_scancode(&mut k, 0x1E).unwrap();
    assert_eq!(e.character, 'a');
    assert!(keyboard::is_key_pressed(&k, 0x1E));
    keyboard::handle_scancode(&mut k, 0x2A);
    let e = keyboard::handle_scancode(&mut k, 0x1E).unwrap();
    assert_eq!(e.character, 'A');
    assert!(e.shift_pressed);
    assert_eq!(keyboard::get_modifiers(&k), (true, false, false));
    keyboard::handle_scancode(&mut k, 0xAA);
    assert_eq!(keyboard::get_modifiers(&k), (false, false, false));
    assert_eq!(keyboard::last_scancode(&k), 0xAA);
}

#[test]
fn scanning_helpers() {
    assert_eq!(parse_u32(&chars_of("1920")), Some(1920));
    assert_eq!(parse_u32(&chars_of("19x")), None);
    assert_eq!(parse_hex_u8(&chars_of("ff")), Some(255));
    assert_eq!(trim_chars(&chars_of("  ab \t")), chars_of("ab"));
    assert_eq!(split_chars(&chars_of("a,b,,c"), ','), vec![chars_of("a"), chars_of("b"), chars_of(""), chars_of("c")]);
    assert_eq!(decimal_chars(4096), chars_of("4096"));
}

#[test]
fn mouse_packets_keep_pointer_on_screen_and_three_buttons() {
    let mut m = os_gaming::kernel::drivers::mouse::Mouse::new();
    for &b in &[0x0Fu8, 0xFF, 0x00] {
        os_gaming::kernel::drivers::mouse::handle_interrupt(&mut m, 0x20, b);
    }
    let s = os_gaming::kernel::drivers::mouse::get_state(&m);
    assert_eq!(s.buttons, 7);
    assert_eq!((s.x, s.y), (255, 0));
    for &b in &[0x28u8, 0x10, 0x80] {
        os_gaming::kernel::drivers::mouse::handle_interrupt(&mut m, 0x20, b);
    }
    let s = os_gaming::kernel::drivers::mouse::get_state(&m);
    assert_eq!(s.buttons, 0);
    assert_eq!((s.x, s.y), (271, 128));
}

#[test]
fn display_pixels_go_to_an_output_once_checked() {
    let mut d = DisplayInfo::new();
    let mut hdmi = HdmiDriver::new();
    let mut dp = DisplayPortDriver::new();
    let red = DColor::new(255, 0, 0);
    assert_eq!(display::draw_pixel(&d, &mut hdmi, &mut dp, 1, 1, red), Err("Display not initialized"));
    display::init(&mut d).unwrap();
    assert_eq!(display::draw_pixel(&d, &mut hdmi, &mut dp, 800, 0, red), Err("Coordinates out of bounds"));
    assert_eq!(display::draw_pixel(&d, &mut hdmi, &mut dp, 10, 10, red), Ok(()));
    hdmi.init().unwrap();
    assert_eq!(display::draw_pixel(&d, &mut hdmi, &mut dp, 10, 10, red), Ok(()));
    display::set_mode(&mut d, DisplayMode::Text80x25, ColorDepth::Bpp32).unwrap();
    assert_eq!(display::draw_pixel(&d, &mut hdmi, &mut dp, 1, 1, red), Err("Cannot draw pixels in text mode"));
}
