//! The desktop user interface: rendering, themes, window layout and
//! management, input, fonts, the console, and the set-up and event step of
//! the main loop.

pub mod line;
pub mod renderer;
pub mod theme;
pub mod windows_layout;
pub mod window_manager;
pub mod console;
pub mod input;
pub mod font;

use vstd::prelude::*;
use crate::gui::font::FontManager;
use crate::gui::renderer::{Rect, Renderer};
use crate::gui::window_manager::{Dispatch, WindowManager, WindowView, fresh_window, mouse_step};
use crate::gui::input::{Event, InputManager, Key, button_code, codes_ok, key_code};
use crate::gui::theme::{Theme, theme_named};
use crate::gui::windows_layout::WindowLayoutConfig;

verus! {

/// Initialize the renderer at specified resolution: refused, as the
/// renderer refuses, for a zero size.
pub fn init_renderer(width: u32, height: u32) -> (r: Result<Renderer, &'static str>)
    requires
        width != 0 && height != 0 ==> width * height * 4 <= u32::MAX,
    ensures
        (width == 0 || height == 0) <==> r is Err,
        r matches Err(m) ==> m@ == "Failed to initialize renderer"@,
        r matches Ok(re) ==> re.width == width && re.height == height,
{
    match Renderer::new(width, height) {
        Ok(renderer) => Ok(renderer),
        Err(_) => Err("Failed to initialize renderer"),
    }
}

/// Initialize the window manager over a renderer: no window yet.
pub fn init_window_manager(renderer: Renderer) -> (r: Result<WindowManager, &'static str>)
    ensures
        r matches Ok(m) && m.renderer == renderer && m.views() == Seq::<WindowView>::empty() && m.next_window_id
            == 1 && m.focused_window == 0,
{
    match WindowManager::new(renderer) {
        Ok(wm) => Ok(wm),
        Err(_) => Err("Failed to initialize window manager"),
    }
}

/// The system font files, tried in turn.
fn system_font_paths() -> (v: Vec<&'static str>)
    ensures
        v@.len() == 5,
{
    vec![
        "/usr/share/fonts/fluxGridOs/system_regular.ttf",
        "/usr/share/fonts/fluxGridOs/system_bold.ttf",
        "/usr/share/fonts/fluxGridOs/system_italic.ttf",
        "/usr/share/fonts/fluxGridOs/monospace.ttf",
        "/usr/share/fonts/fluxGridOs/gaming.ttf",
    ]
}

/// Initialize the font system: each system font is loaded under the name
/// "AssetFont", and the first one loaded sets up the default families.
/// Loading never fails, so the fallback font is never needed. The sizes of
/// interface elements are set where fractional sizes can be held.
pub fn init_fonts() -> (r: Result<(), &'static str>)
    ensures
        r is Ok,
{
    let mut font_manager = FontManager::new();
    let paths = system_font_paths();
    let mut default_font_loaded = false;
    let mut i: usize = 0;
    while i < paths.len()
        invariant
            i <= paths@.len(),
            i > 0 ==> default_font_loaded,
        decreases paths@.len() - i,
    {
        match font_manager.load_font("AssetFont", paths[i].as_bytes()) {
            Ok(()) => {
                if !default_font_loaded {
                    let _ = font_manager.setup_default_fonts();
                    default_font_loaded = true;
                }
            },
            Err(_) => {},
        }
        i += 1;
    }
    assert(default_font_loaded);
    Ok(())
}

/// The title of the first window.
pub open spec fn main_window_title() -> Seq<char> {
    "OS Gaming"@
}

/// Initialize the GUI: a renderer the size of the layout grid, a window
/// manager over it with one window, "OS Gaming", filling the screen, and
/// the fonts. The manager is handed back for the main loop to run.
pub fn init_gui() -> (r: Result<WindowManager, &'static str>)
    ensures
        r matches Ok(wm) && {
            &&& wm.renderer.width == 10 && wm.renderer.height == 10
            &&& wm.views() == seq![fresh_window(1, main_window_title(), Rect { x: 0, y: 0, width: 10, height: 10 })]
            &&& wm.next_window_id == 2
            &&& wm.focused_window == 0
        },
{
    let w_config = WindowLayoutConfig::new();
    let renderer = init_renderer(w_config.grid_size.0, w_config.grid_size.1)?;
    let mut window_manager = init_window_manager(renderer)?;
    window_manager.close_all_windows();
    window_manager.create_window("OS Gaming", w_config.grid_size.0, w_config.grid_size.1, true)?;
    init_fonts()?;
    Ok(window_manager)
}

/// The title of the main system window of the main loop.
pub open spec fn main_system_title() -> Seq<char> {
    "MainSystem"@
}

/// Set up the main loop: a renderer and a window manager of the configured
/// size, the main system window (id 1, filling the screen), the configured
/// theme, and a fresh input manager. None where the renderer cannot be
/// made: a zero size.
pub fn start_app(width: u32, height: u32, theme: &str) -> (r: Option<(WindowManager, InputManager)>)
    requires
        width != 0 && height != 0 ==> width * height * 4 <= u32::MAX,
    ensures
        (width == 0 || height == 0) <==> r is None,
        r matches Some((wm, input)) ==> {
            &&& wm.renderer.width == width && wm.renderer.height == height
            &&& wm.views() == seq![fresh_window(1, main_system_title(), Rect { x: 0, y: 0, width, height })]
            &&& wm.next_window_id == 2
            &&& wm.focused_window == 0
            &&& !wm.exit_requested
            &&& wm.theme == theme_named(theme@)
            &&& codes_ok(input@)
            &&& input@.events.len() == 0
        },
{
    let renderer = match Renderer::new(width, height) {
        Ok(r) => r,
        Err(_) => {
            return None;
        },
    };
    let mut window_manager = match WindowManager::new(renderer) {
        Ok(wm) => wm,
        Err(_) => {
            return None;
        },
    };
    let input_handler = InputManager::new();
    if !window_manager.has_window(1) {
        let _ = window_manager.create_window("MainSystem", width, height, true);
    }
    window_manager.set_theme(Theme::load(theme));
    Some((window_manager, input_handler))
}

/// The events that end the main loop: a quit or window-close request, and
/// Escape where Escape exits.
pub open spec fn stops_loop(event: Event, exit_on_escape: bool) -> bool {
    match event {
        Event::Quit => true,
        Event::WindowClose => true,
        Event::KeyPress(k) => k == Key::Escape && exit_on_escape,
        _ => false,
    }
}

/// The events whose window-manager handlers return: a resize, focus or
/// blur of the display has a handler that calls itself without end.
pub open spec fn app_event_defined(wm: WindowManager, mouse: (i32, i32), event: Event) -> bool {
    match event {
        Event::MouseMove(x, y) => wm.mouse_event_defined(x, y, 0),
        Event::MousePress(b) => wm.mouse_event_defined(mouse.0, mouse.1, button_code(b)),
        Event::MouseRelease(_) => wm.mouse_event_defined(mouse.0, mouse.1, 0),
        Event::MouseScroll(_) => wm.mouse_event_defined(mouse.0, mouse.1, 0),
        Event::WindowResize(_, _) => false,
        Event::WindowFocus => false,
        Event::WindowBlur => false,
        _ => true,
    }
}

/// The pointer event at (x, y) with `buttons` down took the manager from
/// `old` to `new` and routed `out` to window handlers.
pub open spec fn routed(old: WindowManager, new: WindowManager, out: Seq<Dispatch>, x: i32, y: i32, buttons: u8) -> bool {
    let (ws, f, d, ox, oy, o) = mouse_step(old.pointer_state(), x, y, buttons);
    &&& new.pointer_state() == (ws, f, d, ox, oy)
    &&& out == o
    &&& new.same_settings(&old)
}

/// A key event of code `code` took the manager from `old` to `new`: only
/// the exit request may change.
pub open spec fn key_handled(old: WindowManager, new: WindowManager, exit_requested: bool) -> bool {
    &&& new.exit_requested == exit_requested
    &&& new.views() == old.views()
    &&& new.renderer == old.renderer
    &&& new.next_window_id == old.next_window_id
    &&& new.theme == old.theme
    &&& new.focused_window == old.focused_window
    &&& new.same_drag(&old)
}

/// One input event of the main loop: whether the loop goes on, and the
/// events routed to window handlers. Key events go to the manager by the
/// key's code; button and wheel events happen at the mouse position
/// `mouse`.
pub fn handle_app_event(window_manager: &mut WindowManager, mouse: (i32, i32), event: Event, exit_on_escape: bool) -> (r: (
    bool,
    Vec<Dispatch>,
))
    requires
        app_event_defined(*old(window_manager), mouse, event),
    ensures
        r.0 == !stops_loop(event, exit_on_escape),
        stops_loop(event, exit_on_escape) ==> r.1@.len() == 0 && *final(window_manager) == *old(window_manager),
        !stops_loop(event, exit_on_escape) ==> match event {
            Event::KeyPress(k) => r.1@.len() == 0 && key_handled(
                *old(window_manager),
                *final(window_manager),
                old(window_manager).exit_requested || key_code(k) == 27,
            ),
            Event::KeyRelease(k) => r.1@.len() == 0 && key_handled(
                *old(window_manager),
                *final(window_manager),
                old(window_manager).exit_requested && key_code(k) != 27,
            ),
            Event::MouseMove(x, y) => routed(*old(window_manager), *final(window_manager), r.1@, x, y, 0),
            Event::MousePress(b) => routed(
                *old(window_manager),
                *final(window_manager),
                r.1@,
                mouse.0,
                mouse.1,
                button_code(b),
            ),
            Event::MouseRelease(_) => routed(*old(window_manager), *final(window_manager), r.1@, mouse.0, mouse.1, 0),
            Event::MouseScroll(_) => routed(*old(window_manager), *final(window_manager), r.1@, mouse.0, mouse.1, 0),
            _ => false,
        },
{
    let (x, y) = mouse;
    match event {
        Event::Quit => (false, Vec::new()),
        Event::WindowClose => (false, Vec::new()),
        Event::KeyPress(key) => {
            if key == Key::Escape && exit_on_escape {
                return (false, Vec::new());
            }
            window_manager.handle_key_press(key.code() as u16);
            (true, Vec::new())
        },
        Event::KeyRelease(key) => {
            window_manager.handle_key_release(key.code() as u16);
            (true, Vec::new())
        },
        Event::MouseMove(mx, my) => (true, window_manager.handle_mouse_move(mx, my)),
        Event::MousePress(button) => (true, window_manager.handle_mouse_press(button.code(), x, y)),
        Event::MouseRelease(button) => (true, window_manager.handle_mouse_release(button.code(), x, y)),
        Event::MouseScroll(delta) => (true, window_manager.handle_mouse_scroll(delta, x, y)),
        Event::WindowResize(_, _) => (true, Vec::new()),
        Event::WindowFocus => (true, Vec::new()),
        Event::WindowBlur => (true, Vec::new()),
    }
}

/// A quit or window-close request always ends the main loop, whatever the
/// state of the windows, and changes nothing.
pub proof fn lemma_quit_stops(exit_on_escape: bool)
    ensures
        stops_loop(Event::Quit, exit_on_escape),
        stops_loop(Event::WindowClose, exit_on_escape),
        !stops_loop(Event::KeyPress(Key::Escape), false),
{
}

} // verus!
