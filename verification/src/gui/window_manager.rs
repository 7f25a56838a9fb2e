//! Window management: creation, focus, stacking order, dragging and the
//! routing of input to windows.
//!
//! A window's callbacks belong to whoever drives the manager: a window holds
//! the handle of its event handler and of its content renderer, and each
//! operation returns the events it routed (`Dispatch`) or the drawing it
//! asks for (`DrawCommand`), for the caller to carry out.

use vstd::prelude::*;
use crate::gui::renderer::{Color, Rect, Renderer, RendererError, edges_fit, in_rect};
use crate::gui::theme::{Theme, dark_theme};
use crate::text::{copy_string, string_from_str};

verus! {

/// Unique identifier for windows
pub type WindowId = u32;

/// The height of a window's title bar, in pixels.
pub const TITLE_BAR_HEIGHT: u32 = 25;

/// Input and window-system events
#[derive(Debug, Clone, Copy)]
pub enum Event {
    MouseMove { x: i32, y: i32 },
    MousePress { button: u8, x: i32, y: i32 },
    MouseRelease { button: u8, x: i32, y: i32 },
    KeyPress { key: u16 },
    KeyRelease { key: u16 },
    WindowResize { width: u32, height: u32 },
    WindowClose,
    WindowFocus,
    WindowBlur,
}

/// Window events
#[derive(Debug, Clone, Copy, PartialEq, Eq, Structural)]
pub enum WindowEvent {
    MouseMove { x: i32, y: i32 },
    MouseDown { x: i32, y: i32, button: u8 },
    MouseUp { x: i32, y: i32, button: u8 },
    KeyDown { key: u16, scancode: u16, modifiers: u8 },
    KeyUp { key: u16, scancode: u16, modifiers: u8 },
    Focus,
    Blur,
    Close,
    Resize { width: u32, height: u32 },
    Move { x: i32, y: i32 },
}

/// An event handed to a window's event handler.
#[derive(Debug, Clone, Copy, PartialEq, Eq, Structural)]
pub struct Dispatch {
    pub window: WindowId,
    pub handler: u64,
    pub event: WindowEvent,
}

/// One step of drawing the desktop.
#[derive(Debug, Clone, Copy, PartialEq, Eq, Structural)]
pub enum DrawCommand {
    FillRect { rect: Rect, color: Color },
    DrawRect { rect: Rect, color: Color },
    SetClip { clip: Option<Rect> },
    /// Call the window's content renderer.
    RenderContent { window: WindowId, handler: u64 },
}

/// What a window is.
pub struct WindowView {
    pub id: WindowId,
    pub title: Seq<char>,
    pub rect: Rect,
    pub visible: bool,
    pub focused: bool,
    pub render_handler: Option<u64>,
    pub event_handler: Option<u64>,
    pub background_color: Color,
    pub border_color: Color,
    pub user_data: Option<usize>,
}

/// Window properties
pub struct Window {
    id: WindowId,
    title: String,
    rect: Rect,
    visible: bool,
    focused: bool,
    render_callback: Option<u64>,
    event_callback: Option<u64>,
    background_color: Color,
    border_color: Color,
    user_data: Option<usize>,
}

impl View for Window {
    type V = WindowView;

    closed spec fn view(&self) -> WindowView {
        WindowView {
            id: self.id,
            title: self.title@,
            rect: self.rect,
            visible: self.visible,
            focused: self.focused,
            render_handler: self.render_callback,
            event_handler: self.event_callback,
            background_color: self.background_color,
            border_color: self.border_color,
            user_data: self.user_data,
        }
    }
}

impl Clone for Window {
    fn clone(&self) -> (c: Self)
        ensures
            c@ == self@,
    {
        Self {
            id: self.id,
            title: copy_string(&self.title),
            rect: self.rect,
            visible: self.visible,
            focused: self.focused,
            render_callback: self.render_callback,
            event_callback: self.event_callback,
            background_color: self.background_color,
            border_color: self.border_color,
            user_data: self.user_data,
        }
    }
}

/// A new window: hidden, unfocused, without handlers, in the UI colours.
pub open spec fn fresh_window(id: WindowId, title: Seq<char>, rect: Rect) -> WindowView {
    WindowView {
        id,
        title,
        rect,
        visible: false,
        focused: false,
        render_handler: None,
        event_handler: None,
        background_color: Color { r: 45, g: 45, b: 48, a: 255 },
        border_color: Color { r: 0, g: 120, b: 215, a: 255 },
        user_data: None,
    }
}

impl Window {
    /// Create a new window with the given properties
    pub fn new(id: WindowId, title: &str, rect: Rect) -> (w: Self)
        ensures
            w@ == fresh_window(id, title@, rect),
    {
        Self {
            id,
            title: string_from_str(title),
            rect,
            visible: false,
            focused: false,
            render_callback: None,
            event_callback: None,
            background_color: Color::ui_background(),
            border_color: Color::ui_accent(),
            user_data: None,
        }
    }

    /// Get the window ID
    pub fn id(&self) -> (id: WindowId)
        ensures
            id == self@.id,
    {
        self.id
    }

    /// The window's title.
    pub fn title(&self) -> (t: &str)
        ensures
            t@ == self@.title,
    {
        self.title.as_str()
    }

    /// Get the window rectangle
    pub fn rect(&self) -> (r: Rect)
        ensures
            r == self@.rect,
    {
        self.rect
    }

    /// Set the window rectangle
    pub fn set_rect(&mut self, rect: Rect)
        ensures
            final(self)@ == (WindowView { rect, ..old(self)@ }),
    {
        self.rect = rect;
    }

    /// Check if the window is visible
    pub fn is_visible(&self) -> (b: bool)
        ensures
            b == self@.visible,
    {
        self.visible
    }

    /// Set window visibility
    pub fn set_visible(&mut self, visible: bool)
        ensures
            final(self)@ == (WindowView { visible, ..old(self)@ }),
    {
        self.visible = visible;
    }

    /// Check if the window is focused
    pub fn is_focused(&self) -> (b: bool)
        ensures
            b == self@.focused,
    {
        self.focused
    }

    /// Set window focus state
    pub fn set_focused(&mut self, focused: bool)
        ensures
            final(self)@ == (WindowView { focused, ..old(self)@ }),
    {
        self.focused = focused;
    }

    /// Set the handle of the window's content renderer
    pub fn set_render_callback(&mut self, callback: u64)
        ensures
            final(self)@ == (WindowView { render_handler: Some(callback), ..old(self)@ }),
    {
        self.render_callback = Some(callback);
    }

    /// Set the handle of the window's event handler
    pub fn set_event_callback(&mut self, callback: u64)
        ensures
            final(self)@ == (WindowView { event_handler: Some(callback), ..old(self)@ }),
    {
        self.event_callback = Some(callback);
    }

    /// The handle of the window's content renderer, if it has one.
    pub fn render_callback(&self) -> (h: Option<u64>)
        ensures
            h == self@.render_handler,
    {
        self.render_callback
    }

    /// The handle of the window's event handler, if it has one.
    pub fn event_callback(&self) -> (h: Option<u64>)
        ensures
            h == self@.event_handler,
    {
        self.event_callback
    }

    /// Set window background color
    pub fn set_background_color(&mut self, color: Color)
        ensures
            final(self)@ == (WindowView { background_color: color, ..old(self)@ }),
    {
        self.background_color = color;
    }

    /// Set window border color
    pub fn set_border_color(&mut self, color: Color)
        ensures
            final(self)@ == (WindowView { border_color: color, ..old(self)@ }),
    {
        self.border_color = color;
    }

    /// The window's background colour.
    pub fn background_color(&self) -> (c: Color)
        ensures
            c == self@.background_color,
    {
        self.background_color
    }

    /// Set the user data handle
    pub fn set_user_data(&mut self, data: usize)
        ensures
            final(self)@ == (WindowView { user_data: Some(data), ..old(self)@ }),
    {
        self.user_data = Some(data);
    }

    /// The user data handle, if one was set.
    pub fn user_data(&self) -> (d: Option<usize>)
        ensures
            d == self@.user_data,
    {
        self.user_data
    }
}

// ---------------------------------------------------------------------------
// Searching the window list

/// `i` is the first position in `ws` whose window satisfies `p`.
pub open spec fn is_first_where(ws: Seq<WindowView>, p: spec_fn(WindowView) -> bool, i: int) -> bool {
    &&& 0 <= i < ws.len()
    &&& p(ws[i])
    &&& forall|k: int| 0 <= k < i ==> !p(#[trigger] ws[k])
}

/// The first position in `ws` whose window satisfies `p`.
pub open spec fn first_where(ws: Seq<WindowView>, p: spec_fn(WindowView) -> bool) -> Option<int> {
    if exists|i: int| is_first_where(ws, p, i) {
        Some(choose|i: int| is_first_where(ws, p, i))
    } else {
        None
    }
}

/// `i` is the last position in `ws` whose window satisfies `p`.
pub open spec fn is_last_where(ws: Seq<WindowView>, p: spec_fn(WindowView) -> bool, i: int) -> bool {
    &&& 0 <= i < ws.len()
    &&& p(ws[i])
    &&& forall|k: int| i < k < ws.len() ==> !p(#[trigger] ws[k])
}

/// The last position in `ws` whose window satisfies `p`.
pub open spec fn last_where(ws: Seq<WindowView>, p: spec_fn(WindowView) -> bool) -> Option<int> {
    if exists|i: int| is_last_where(ws, p, i) {
        Some(choose|i: int| is_last_where(ws, p, i))
    } else {
        None
    }
}

pub proof fn lemma_first_where_is(ws: Seq<WindowView>, p: spec_fn(WindowView) -> bool, i: int)
    requires
        is_first_where(ws, p, i),
    ensures
        first_where(ws, p) == Some(i),
{
    let j = choose|j: int| is_first_where(ws, p, j);
    assert(is_first_where(ws, p, j));
    if j < i {
        assert(!p(ws[j]));
    } else if j > i {
        assert(!p(ws[i]));
    }
}

pub proof fn lemma_first_where_none(ws: Seq<WindowView>, p: spec_fn(WindowView) -> bool)
    requires
        forall|k: int| 0 <= k < ws.len() ==> !p(#[trigger] ws[k]),
    ensures
        first_where(ws, p) is None,
{
    if exists|i: int| is_first_where(ws, p, i) {
        let j = choose|j: int| is_first_where(ws, p, j);
        assert(!p(ws[j]));
    }
}

pub proof fn lemma_last_where_is(ws: Seq<WindowView>, p: spec_fn(WindowView) -> bool, i: int)
    requires
        is_last_where(ws, p, i),
    ensures
        last_where(ws, p) == Some(i),
{
    let j = choose|j: int| is_last_where(ws, p, j);
    assert(is_last_where(ws, p, j));
    if j < i {
        assert(!p(ws[i]));
    } else if j > i {
        assert(!p(ws[j]));
    }
}

pub proof fn lemma_last_where_none(ws: Seq<WindowView>, p: spec_fn(WindowView) -> bool)
    requires
        forall|k: int| 0 <= k < ws.len() ==> !p(#[trigger] ws[k]),
    ensures
        last_where(ws, p) is None,
{
    if exists|i: int| is_last_where(ws, p, i) {
        let j = choose|j: int| is_last_where(ws, p, j);
        assert(!p(ws[j]));
    }
}

/// Two window lists that agree on `p` at every position agree on where `p`
/// first holds.
pub proof fn lemma_first_where_same(a: Seq<WindowView>, b: Seq<WindowView>, p: spec_fn(WindowView) -> bool)
    requires
        a.len() == b.len(),
        forall|k: int| 0 <= k < a.len() ==> p(#[trigger] a[k]) == p(b[k]),
    ensures
        first_where(a, p) == first_where(b, p),
{
    match first_where(a, p) {
        Some(i) => {
            assert(is_first_where(a, p, i));
            assert forall|k: int| 0 <= k < i implies !p(#[trigger] b[k]) by {
                assert(!p(a[k]));
            }
            assert(p(b[i]) == p(a[i]));
            lemma_first_where_is(b, p, i);
        },
        None => {
            if exists|i: int| is_first_where(b, p, i) {
                let j = choose|j: int| is_first_where(b, p, j);
                assert forall|k: int| 0 <= k < j implies !p(#[trigger] a[k]) by {
                    assert(!p(b[k]));
                }
                assert(p(a[j]) == p(b[j]));
                lemma_first_where_is(a, p, j);
            }
        },
    }
}

/// The window has this id.
pub open spec fn id_is(id: WindowId) -> spec_fn(WindowView) -> bool {
    |w: WindowView| w.id == id
}

/// The window is visible and its id is not this one.
pub open spec fn visible_other(id: WindowId) -> spec_fn(WindowView) -> bool {
    |w: WindowView| w.visible && w.id != id
}

/// The window is visible and the point lies in it.
pub open spec fn hit_at(x: i32, y: i32) -> spec_fn(WindowView) -> bool {
    |w: WindowView| w.visible && in_rect(w.rect, x as int, y as int)
}

/// The position of the first window with this id.
pub open spec fn find_window(ws: Seq<WindowView>, id: WindowId) -> Option<int> {
    first_where(ws, id_is(id))
}

/// The event `e` for the window's handler, if it has one.
pub open spec fn handler_event(w: WindowView, e: WindowEvent) -> Seq<Dispatch> {
    match w.event_handler {
        Some(h) => seq![Dispatch { window: w.id, handler: h, event: e }],
        None => Seq::empty(),
    }
}

/// Focusing window `id`: the focused window (if any) loses focus and is told
/// so; then the first window with this id gains focus, is told so and moves
/// to the end of the list (the top of the stacking order). Gives the new
/// list, the new focused id and the events routed.
pub open spec fn focus_step(ws: Seq<WindowView>, focused: WindowId, id: WindowId) -> (
    Seq<WindowView>,
    WindowId,
    Seq<Dispatch>,
) {
    let (ws1, d1) = if focused != 0 && find_window(ws, focused) is Some {
        let k = find_window(ws, focused)->0;
        (ws.update(k, WindowView { focused: false, ..ws[k] }), handler_event(ws[k], WindowEvent::Blur))
    } else {
        (ws, Seq::empty())
    };
    match find_window(ws1, id) {
        Some(i) => {
            let w = WindowView { focused: true, ..ws1[i] };
            (ws1.remove(i).push(w), id, d1 + handler_event(w, WindowEvent::Focus))
        },
        None => (ws1, focused, d1),
    }
}

/// Hiding window `id`: the first window with this id becomes invisible; if
/// it held the focus, the focus passes to the first other visible window,
/// or to none.
pub open spec fn hide_step(ws: Seq<WindowView>, focused: WindowId, id: WindowId) -> (Seq<WindowView>, WindowId) {
    match find_window(ws, id) {
        None => (ws, focused),
        Some(i) => {
            let ws1 = ws.update(i, WindowView { visible: false, ..ws[i] });
            if focused == id {
                match first_where(ws1, visible_other(id)) {
                    Some(j) => (ws1.update(j, WindowView { focused: true, ..ws1[j] }), ws1[j].id),
                    None => (ws1, 0),
                }
            } else {
                (ws1, focused)
            }
        },
    }
}

/// Showing window `id`: the first window with this id becomes visible and is
/// focused.
pub open spec fn show_step(ws: Seq<WindowView>, focused: WindowId, id: WindowId) -> (
    Seq<WindowView>,
    WindowId,
    Seq<Dispatch>,
) {
    match find_window(ws, id) {
        None => (ws, focused, Seq::empty()),
        Some(i) => focus_step(ws.update(i, WindowView { visible: true, ..ws[i] }), focused, id),
    }
}

/// Closing window `id`: it is hidden, then the first window with this id
/// leaves the list.
pub open spec fn close_step(ws: Seq<WindowView>, focused: WindowId, id: WindowId) -> (Seq<WindowView>, WindowId) {
    let (ws1, f1) = hide_step(ws, focused, id);
    match find_window(ws1, id) {
        Some(i) => (ws1.remove(i), f1),
        None => (ws1, f1),
    }
}

/// Window manager that handles window creation, events, and rendering
pub struct WindowManager {
    pub renderer: Renderer,
    /// The windows, from the bottom of the stacking order to the top.
    pub windows: Vec<Window>,
    pub next_window_id: u32,
    /// The focused window's id, 0 for none.
    pub focused_window: u32,
    /// The id of the window being dragged, 0 for none.
    pub dragging_window: u32,
    pub drag_offset_x: i32,
    pub drag_offset_y: i32,
    pub theme: Theme,
    pub exit_requested: bool,
}

impl WindowManager {
    /// The windows, from the bottom of the stacking order to the top.
    pub open spec fn views(&self) -> Seq<WindowView> {
        self.windows@.map_values(|w: Window| w@)
    }

    /// The two managers share renderer, id counter, theme and exit flag.
    pub open spec fn same_settings(&self, other: &WindowManager) -> bool {
        &&& self.renderer == other.renderer
        &&& self.next_window_id == other.next_window_id
        &&& self.theme == other.theme
        &&& self.exit_requested == other.exit_requested
    }

    /// The two managers are in the same dragging state.
    pub open spec fn same_drag(&self, other: &WindowManager) -> bool {
        &&& self.dragging_window == other.dragging_window
        &&& self.drag_offset_x == other.drag_offset_x
        &&& self.drag_offset_y == other.drag_offset_y
    }

    /// Create a new window manager, with no windows, over `renderer`.
    pub fn new(renderer: Renderer) -> (r: Result<Self, &'static str>)
        ensures
            r matches Ok(m) && {
                &&& m.renderer == renderer
                &&& m.views() == Seq::<WindowView>::empty()
                &&& m.next_window_id == 1
                &&& m.focused_window == 0
                &&& m.dragging_window == 0
                &&& m.drag_offset_x == 0 && m.drag_offset_y == 0
                &&& m.theme == dark_theme()
                &&& !m.exit_requested
            },
    {
        let m = Self {
            renderer,
            windows: Vec::new(),
            next_window_id: 1,
            focused_window: 0,
            dragging_window: 0,
            drag_offset_x: 0,
            drag_offset_y: 0,
            theme: Theme::default(),
            exit_requested: false,
        };
        assert(m.views() =~= Seq::<WindowView>::empty());
        Ok(m)
    }

    /// The position of the first window with this id.
    fn position_of(&self, id: WindowId) -> (r: Option<usize>)
        ensures
            match r {
                Some(i) => find_window(self.views(), id) == Some(i as int),
                None => find_window(self.views(), id) is None,
            },
    {
        let mut i: usize = 0;
        while i < self.windows.len()
            invariant
                0 <= i <= self.windows@.len(),
                forall|k: int| 0 <= k < i ==> !id_is(id)(#[trigger] self.views()[k]),
            decreases self.windows@.len() - i,
        {
            if self.windows[i].id() == id {
                proof {
                    lemma_first_where_is(self.views(), id_is(id), i as int);
                }
                return Some(i);
            }
            assert(!id_is(id)(self.views()[i as int]));
            i += 1;
        }
        proof {
            lemma_first_where_none(self.views(), id_is(id));
        }
        None
    }

    /// Create a new window (hidden), centred on the screen or at (20, 20),
    /// and give it the next id.
    pub fn create_window(&mut self, title: &str, width: u32, height: u32, centered: bool) -> (r: Result<
        WindowId,
        &'static str,
    >)
        requires
            centered ==> width <= old(self).renderer.width && height <= old(self).renderer.height,
        ensures
            r == Ok::<WindowId, &'static str>(old(self).next_window_id),
            final(self).next_window_id == old(self).next_window_id.wrapping_add(1),
            final(self).views() == old(self).views().push(
                fresh_window(
                    old(self).next_window_id,
                    title@,
                    Rect {
                        x: if centered { ((old(self).renderer.width - width) / 2) as i32 } else { 20 },
                        y: if centered { ((old(self).renderer.height - height) / 2) as i32 } else { 20 },
                        width,
                        height,
                    },
                ),
            ),
            final(self).renderer == old(self).renderer,
            final(self).theme == old(self).theme,
            final(self).exit_requested == old(self).exit_requested,
            final(self).focused_window == old(self).focused_window,
            final(self).same_drag(old(self)),
    {
        let id = self.next_window_id;
        self.next_window_id = self.next_window_id.wrapping_add(1);
        let (screen_width, screen_height) = self.renderer.dimensions();
        let x: i32 = if centered { ((screen_width - width) / 2) as i32 } else { 20 };
        let y: i32 = if centered { ((screen_height - height) / 2) as i32 } else { 20 };
        let rect = Rect::new(x, y, width, height);
        let window = Window::new(id, title, rect);
        self.windows.push(window);
        assert(self.views() =~= old(self).views().push(window@));
        Ok(id)
    }

    /// Whether a window with this id exists.
    pub fn has_window(&self, id: WindowId) -> (b: bool)
        ensures
            b == (find_window(self.views(), id) is Some),
    {
        self.position_of(id).is_some()
    }

    /// Get a copy of the first window with this id.
    pub fn get_window(&self, id: WindowId) -> (r: Option<Window>)
        ensures
            match find_window(self.views(), id) {
                Some(i) => r matches Some(w) && w@ == self.views()[i],
                None => r is None,
            },
    {
        match self.position_of(id) {
            Some(i) => Some(self.windows[i].clone()),
            None => None,
        }
    }

    /// Replace the theme.
    pub fn set_theme(&mut self, theme: Theme)
        ensures
            final(self).theme == theme,
            final(self).views() == old(self).views(),
            final(self).renderer == old(self).renderer,
            final(self).next_window_id == old(self).next_window_id,
            final(self).focused_window == old(self).focused_window,
            final(self).exit_requested == old(self).exit_requested,
            final(self).same_drag(old(self)),
    {
        self.theme = theme;
    }

    /// Update window manager state: events are fed in by the caller, so
    /// there is nothing to do.
    pub fn update(&mut self)
        ensures
            *final(self) == *old(self),
    {
    }

    /// The id, title and rectangle of every window, in stacking order.
    pub fn save_layout(&self) -> (r: Vec<(WindowId, String, Rect)>)
        ensures
            r@.len() == self.views().len(),
            forall|i: int|
                0 <= i < r@.len() ==> {
                    &&& (#[trigger] r@[i]).0 == self.views()[i].id
                    &&& r@[i].1@ == self.views()[i].title
                    &&& r@[i].2 == self.views()[i].rect
                },
    {
        let mut out: Vec<(WindowId, String, Rect)> = Vec::new();
        let mut i: usize = 0;
        while i < self.windows.len()
            invariant
                0 <= i <= self.windows@.len(),
                out@.len() == i,
                forall|k: int|
                    0 <= k < i ==> {
                        &&& (#[trigger] out@[k]).0 == self.views()[k].id
                        &&& out@[k].1@ == self.views()[k].title
                        &&& out@[k].2 == self.views()[k].rect
                    },
            decreases self.windows@.len() - i,
        {
            let w = &self.windows[i];
            let title = copy_string(&w.title);
            out.push((w.id, title, w.rect));
            i += 1;
        }
        out
    }

    /// Remove every window; no window holds the focus.
    pub fn close_all_windows(&mut self)
        ensures
            final(self).views() == Seq::<WindowView>::empty(),
            final(self).focused_window == 0,
            final(self).same_settings(old(self)),
            final(self).same_drag(old(self)),
    {
        self.windows.clear();
        assert(self.views() =~= Seq::<WindowView>::empty());
        self.focused_window = 0;
    }

    /// Shut down: close every window.
    pub fn shutdown(&mut self)
        ensures
            final(self).views() == Seq::<WindowView>::empty(),
            final(self).focused_window == 0,
            final(self).same_settings(old(self)),
            final(self).same_drag(old(self)),
    {
        self.close_all_windows();
    }

    /// Escape asks the desktop to exit; other keys change nothing.
    pub fn handle_key_press(&mut self, key: u16)
        ensures
            final(self).exit_requested == (old(self).exit_requested || key == 27),
            final(self).views() == old(self).views(),
            final(self).renderer == old(self).renderer,
            final(self).next_window_id == old(self).next_window_id,
            final(self).theme == old(self).theme,
            final(self).focused_window == old(self).focused_window,
            final(self).same_drag(old(self)),
    {
        if key == 27 {
            self.exit_requested = true;
        }
    }

    /// Releasing Escape withdraws the exit request; other keys change
    /// nothing.
    pub fn handle_key_release(&mut self, key: u16)
        ensures
            final(self).exit_requested == (old(self).exit_requested && key != 27),
            final(self).views() == old(self).views(),
            final(self).renderer == old(self).renderer,
            final(self).next_window_id == old(self).next_window_id,
            final(self).theme == old(self).theme,
            final(self).focused_window == old(self).focused_window,
            final(self).same_drag(old(self)),
    {
        if key == 27 {
            self.exit_requested = false;
        }
    }

    /// Whether an exit was requested.
    pub fn exit_requested(&self) -> (b: bool)
        ensures
            b == self.exit_requested,
    {
        self.exit_requested
    }

    /// Focus a specific window (see `focus_step`), returning the Blur and
    /// Focus events routed to handlers.
    pub fn focus_window(&mut self, id: WindowId) -> (r: Vec<Dispatch>)
        ensures
            (final(self).views(), final(self).focused_window, r@) == focus_step(
                old(self).views(),
                old(self).focused_window,
                id,
            ),
            final(self).same_settings(old(self)),
            final(self).same_drag(old(self)),
    {
        let ghost ws0 = self.views();
        let mut out: Vec<Dispatch> = Vec::new();
        let old_focused = self.focused_window;
        if old_focused != 0 {
            match self.position_of(old_focused) {
                Some(k) => {
                    let handler = self.windows[k].event_callback;
                    self.windows[k].set_focused(false);
                    assert(self.views() =~= ws0.update(k as int, WindowView { focused: false, ..ws0[k as int] }));
                    if let Some(h) = handler {
                        out.push(Dispatch { window: old_focused, handler: h, event: WindowEvent::Blur });
                    }
                    assert(out@ =~= handler_event(ws0[k as int], WindowEvent::Blur));
                },
                None => {
                    assert(out@ =~= Seq::<Dispatch>::empty());
                },
            }
        }
        let ghost ws1 = self.views();
        let ghost d1 = out@;
        match self.position_of(id) {
            Some(i) => {
                self.windows[i].set_focused(true);
                self.focused_window = id;
                let handler = self.windows[i].event_callback;
                let w = self.windows.remove(i);
                self.windows.push(w);
                assert(self.views() =~= ws1.remove(i as int).push(WindowView { focused: true, ..ws1[i as int] }));
                if let Some(h) = handler {
                    out.push(Dispatch { window: id, handler: h, event: WindowEvent::Focus });
                }
                assert(out@ =~= d1 + handler_event(WindowView { focused: true, ..ws1[i as int] }, WindowEvent::Focus));
            },
            None => {},
        }
        out
    }

    /// The position of the first visible window whose id is not `id`.
    fn position_visible_other(&self, id: WindowId) -> (r: Option<usize>)
        ensures
            match r {
                Some(j) => first_where(self.views(), visible_other(id)) == Some(j as int),
                None => first_where(self.views(), visible_other(id)) is None,
            },
    {
        let mut i: usize = 0;
        while i < self.windows.len()
            invariant
                0 <= i <= self.windows@.len(),
                forall|k: int| 0 <= k < i ==> !visible_other(id)(#[trigger] self.views()[k]),
            decreases self.windows@.len() - i,
        {
            if self.windows[i].is_visible() && self.windows[i].id() != id {
                proof {
                    lemma_first_where_is(self.views(), visible_other(id), i as int);
                }
                return Some(i);
            }
            assert(!visible_other(id)(self.views()[i as int]));
            i += 1;
        }
        proof {
            lemma_first_where_none(self.views(), visible_other(id));
        }
        None
    }

    /// Hide a window (see `hide_step`).
    pub fn hide_window(&mut self, id: WindowId)
        ensures
            (final(self).views(), final(self).focused_window) == hide_step(
                old(self).views(),
                old(self).focused_window,
                id,
            ),
            final(self).same_settings(old(self)),
            final(self).same_drag(old(self)),
    {
        let ghost ws0 = self.views();
        if let Some(i) = self.position_of(id) {
            self.windows[i].set_visible(false);
            assert(self.views() =~= ws0.update(i as int, WindowView { visible: false, ..ws0[i as int] }));
            if self.focused_window == id {
                self.focused_window = 0;
                let ghost ws1 = self.views();
                if let Some(j) = self.position_visible_other(id) {
                    self.focused_window = self.windows[j].id();
                    self.windows[j].set_focused(true);
                    assert(self.views() =~= ws1.update(j as int, WindowView { focused: true, ..ws1[j as int] }));
                }
            }
        }
    }

    /// Show a window and focus it (see `show_step`), returning the events
    /// routed to handlers.
    pub fn show_window(&mut self, id: WindowId) -> (r: Vec<Dispatch>)
        ensures
            (final(self).views(), final(self).focused_window, r@) == show_step(
                old(self).views(),
                old(self).focused_window,
                id,
            ),
            final(self).same_settings(old(self)),
            final(self).same_drag(old(self)),
    {
        let ghost ws0 = self.views();
        match self.position_of(id) {
            Some(i) => {
                self.windows[i].set_visible(true);
                assert(self.views() =~= ws0.update(i as int, WindowView { visible: true, ..ws0[i as int] }));
                self.focus_window(id)
            },
            None => {
                let out: Vec<Dispatch> = Vec::new();
                assert(out@ =~= Seq::<Dispatch>::empty());
                out
            },
        }
    }

    /// Close a window: hide it, then remove it (see `close_step`).
    pub fn close_window(&mut self, id: WindowId)
        ensures
            (final(self).views(), final(self).focused_window) == close_step(
                old(self).views(),
                old(self).focused_window,
                id,
            ),
            final(self).same_settings(old(self)),
            final(self).same_drag(old(self)),
    {
        self.hide_window(id);
        let ghost ws1 = self.views();
        if let Some(i) = self.position_of(id) {
            self.windows.remove(i);
            assert(self.views() =~= ws1.remove(i as int));
        }
    }

    /// The state mouse input acts on, as one tuple: windows, focused id,
    /// dragged id and drag offsets.
    pub open spec fn pointer_state(&self) -> (Seq<WindowView>, WindowId, WindowId, i32, i32) {
        (self.views(), self.focused_window, self.dragging_window, self.drag_offset_x, self.drag_offset_y)
    }

    /// The arithmetic of `handle_mouse_event` on this input stays in 32
    /// bits (see `mouse_defined`).
    pub open spec fn mouse_event_defined(&self, x: i32, y: i32, buttons: u8) -> bool {
        mouse_defined(self.pointer_state(), x, y, buttons)
    }

    /// Whether the arithmetic of a mouse event stays in 32 bits (see
    /// `mouse_defined`): the test to make before routing one.
    pub fn mouse_event_ok(&self, x: i32, y: i32, buttons: u8) -> (b: bool)
        ensures
            b == self.mouse_event_defined(x, y, buttons),
    {
        let ghost ws0 = self.views();
        if self.dragging_window != 0 && buttons & 1u8 != 0 {
            match self.position_of(self.dragging_window) {
                None => true,
                Some(_) => {
                    let nx = x as i64 - self.drag_offset_x as i64;
                    let ny = y as i64 - self.drag_offset_y as i64;
                    i32::MIN as i64 <= nx && nx <= i32::MAX as i64 && i32::MIN as i64 <= ny && ny <= i32::MAX as i64
                },
            }
        } else {
            let ghost p = hit_at(x, y);
            let mut i: usize = self.windows.len();
            while i > 0
                invariant
                    0 <= i <= self.windows@.len(),
                    self.views() == ws0,
                    !(self.dragging_window != 0 && buttons & 1u8 != 0),
                    p == hit_at(x, y),
                    forall|k: int| i <= k < ws0.len() ==> !p(#[trigger] ws0[k]),
                    forall|k: int| i <= k < ws0.len() && (#[trigger] ws0[k]).visible ==> edges_fit(ws0[k].rect),
                decreases i,
            {
                i -= 1;
                assert(ws0[i as int] == self.windows@[i as int]@);
                if self.windows[i].is_visible() {
                    let r = self.windows[i].rect();
                    let w32 = r.width as i32;
                    let h32 = r.height as i32;
                    let right = r.x as i64 + w32 as i64;
                    let bottom = r.y as i64 + h32 as i64;
                    if right > i32::MAX as i64 || bottom > i32::MAX as i64 || right < i32::MIN as i64 || bottom
                        < i32::MIN as i64 {
                        proof {
                            assert(ws0[i as int].visible && !edges_fit(ws0[i as int].rect));
                            let low: int = match last_where(ws0, p) {
                                Some(h) => h,
                                None => 0,
                            };
                            if let Some(h) = last_where(ws0, p) {
                                if h > i {
                                    assert(!p(ws0[h]));
                                }
                            }
                            assert(low <= i);
                            assert(!(forall|k: int|
                                low <= k < ws0.len() && (#[trigger] ws0[k]).visible ==> edges_fit(ws0[k].rect)));
                            assert(!mouse_defined(self.pointer_state(), x, y, buttons));
                        }
                        return false;
                    }
                    if x as i64 >= r.x as i64 && (x as i64) < right && y as i64 >= r.y as i64 && (y as i64) < bottom {
                        proof {
                            assert(in_rect(ws0[i as int].rect, x as int, y as int));
                            assert(p(ws0[i as int]));
                            lemma_last_where_is(ws0, p, i as int);
                            assert(edges_fit(ws0[i as int].rect));
                            assert(forall|k: int|
                                i <= k < ws0.len() && (#[trigger] ws0[k]).visible ==> edges_fit(ws0[k].rect));
                        }
                        let ok = r.y as i64 + 25 <= i32::MAX as i64 && x as i64 - r.x as i64 <= i32::MAX as i64 && y as i64
                            - r.y as i64 <= i32::MAX as i64;
                        assert(ok == mouse_defined(self.pointer_state(), x, y, buttons));
                        return ok;
                    }
                }
                assert(!p(ws0[i as int]));
            }
            proof {
                lemma_last_where_none(ws0, p);
            }
            true
        }
    }

    /// Route a mouse event (see `mouse_step`), returning the events routed
    /// to handlers.
    pub fn handle_mouse_event(&mut self, x: i32, y: i32, buttons: u8, scroll_delta: i8) -> (r: Vec<Dispatch>)
        requires
            old(self).mouse_event_defined(x, y, buttons),
        ensures
            ({
                let (ws, f, d, ox, oy, out) = mouse_step(old(self).pointer_state(), x, y, buttons);
                &&& final(self).pointer_state() == (ws, f, d, ox, oy)
                &&& r@ == out
            }),
            final(self).same_settings(old(self)),
    {
        let ghost ws0 = self.views();
        let pressed = buttons & 1u8 != 0;
        let dragging_id = self.dragging_window;
        if dragging_id != 0 && pressed {
            let mut out: Vec<Dispatch> = Vec::new();
            if let Some(i) = self.position_of(dragging_id) {
                let mut rect = self.windows[i].rect();
                rect.x = x - self.drag_offset_x;
                rect.y = y - self.drag_offset_y;
                let handler = self.windows[i].event_callback;
                self.windows[i].set_rect(rect);
                assert(self.views() =~= ws0.update(i as int, WindowView { rect, ..ws0[i as int] }));
                if let Some(h) = handler {
                    out.push(Dispatch { window: dragging_id, handler: h, event: WindowEvent::Move { x: rect.x, y: rect.y } });
                }
                assert(out@ =~= handler_event(WindowView { rect, ..ws0[i as int] }, WindowEvent::Move { x: rect.x, y: rect.y }));
            } else {
                assert(out@ =~= Seq::<Dispatch>::empty());
            }
            return out;
        } else if dragging_id != 0 {
            self.dragging_window = 0;
        }
        // Hit test from the top of the stacking order down.

        let ghost p = hit_at(x, y);
        let ghost low: int = match last_where(ws0, p) {
            Some(h) => h,
            None => 0,
        };
        let mut i: usize = self.windows.len();
        let mut hit: Option<usize> = None;
        while i > 0
            invariant_except_break
                0 <= i <= self.windows@.len(),
                hit is None,
                self.views() == ws0,
                forall|k: int| i <= k < ws0.len() ==> !p(#[trigger] ws0[k]),
                forall|k: int| low <= k < ws0.len() && (#[trigger] ws0[k]).visible ==> edges_fit(ws0[k].rect),
                low == match last_where(ws0, p) {
                    Some(h) => h,
                    None => 0,
                },
                last_where(ws0, p) matches Some(h) ==> is_last_where(ws0, p, h),
                p == hit_at(x, y),
            ensures
                self.views() == ws0,
                match hit {
                    Some(h) => is_last_where(ws0, p, h as int),
                    None => forall|k: int| 0 <= k < ws0.len() ==> !p(#[trigger] ws0[k]),
                },
            decreases i,
        {
            i -= 1;
            assert(ws0[i as int] == self.windows@[i as int]@);
            if self.windows[i].is_visible() {
                let rect = self.windows[i].rect();
                proof {
                    if let Some(h) = last_where(ws0, p) {
                        if h > i {
                            assert(!p(ws0[h]));
                        }
                    }
                }
                if rect.contains(x, y) {
                    hit = Some(i);
                    break;
                }
            }
            assert(!p(ws0[i as int]));
        }
        let mut out: Vec<Dispatch> = Vec::new();
        match hit {
            None => {
                proof {
                    lemma_last_where_none(ws0, p);
                }
                assert(out@ =~= Seq::<Dispatch>::empty());
                out
            },
            Some(h) => {
                proof {
                    lemma_last_where_is(ws0, p, h as int);
                }
                let wid = self.windows[h].id();
                let rect = self.windows[h].rect();
                let was_focused = self.windows[h].is_focused();
                let handler = self.windows[h].event_callback;
                if pressed && !was_focused {
                    out = self.focus_window(wid);
                } else {
                    assert(out@ =~= Seq::<Dispatch>::empty());
                }
                let in_title_bar = y >= rect.y && y < rect.y + TITLE_BAR_HEIGHT as i32;
                if pressed && in_title_bar {
                    self.dragging_window = wid;
                    self.drag_offset_x = x - rect.x;
                    self.drag_offset_y = y - rect.y;
                } else {
                    let window_x = x - rect.x;
                    let window_y = y - rect.y;
                    let ghost d1 = out@;
                    let event = if pressed {
                        WindowEvent::MouseDown { x: window_x, y: window_y, button: 1 }
                    } else {
                        WindowEvent::MouseMove { x: window_x, y: window_y }
                    };
                    if let Some(hd) = handler {
                        out.push(Dispatch { window: wid, handler: hd, event });
                    }
                    assert(out@ =~= d1 + handler_event(ws0[h as int], event));
                }
                out
            },
        }
    }

    /// Route a key event to the focused window's handler.
    pub fn handle_key_event(&mut self, key: u16, pressed: bool, modifiers: u8) -> (r: Vec<Dispatch>)
        ensures
            r@ == key_step(old(self).views(), old(self).focused_window, key, pressed, modifiers),
            *final(self) == *old(self),
    {
        let mut out: Vec<Dispatch> = Vec::new();
        let focused_id = self.focused_window;
        if focused_id == 0 {
            assert(out@ =~= Seq::<Dispatch>::empty());
            return out;
        }
        match self.position_of(focused_id) {
            Some(i) => {
                let event = if pressed {
                    WindowEvent::KeyDown { key, scancode: key, modifiers }
                } else {
                    WindowEvent::KeyUp { key, scancode: key, modifiers }
                };
                if let Some(h) = self.windows[i].event_callback {
                    out.push(Dispatch { window: focused_id, handler: h, event });
                }
                assert(out@ =~= handler_event(self.views()[i as int], event));
            },
            None => {
                assert(out@ =~= Seq::<Dispatch>::empty());
            },
        }
        out
    }

    /// A touch acts as the mouse: pressure presses the first button.
    pub fn handle_touch_event(&mut self, id: u8, x: i32, y: i32, pressure: u8) -> (r: Vec<Dispatch>)
        requires
            old(self).mouse_event_defined(x, y, if pressure > 0 { 1u8 } else { 0u8 }),
        ensures
            ({
                let (ws, f, d, ox, oy, out) = mouse_step(
                    old(self).pointer_state(),
                    x,
                    y,
                    if pressure > 0 { 1u8 } else { 0u8 },
                );
                &&& final(self).pointer_state() == (ws, f, d, ox, oy)
                &&& r@ == out
            }),
            final(self).same_settings(old(self)),
    {
        let buttons: u8 = if pressure > 0 { 1 } else { 0 };
        self.handle_mouse_event(x, y, buttons, 0)
    }

    /// The pointer moved, with no button down.
    pub fn handle_mouse_move(&mut self, x: i32, y: i32) -> (r: Vec<Dispatch>)
        requires
            old(self).mouse_event_defined(x, y, 0),
        ensures
            ({
                let (ws, f, d, ox, oy, out) = mouse_step(old(self).pointer_state(), x, y, 0);
                &&& final(self).pointer_state() == (ws, f, d, ox, oy)
                &&& r@ == out
            }),
            final(self).same_settings(old(self)),
    {
        self.handle_mouse_event(x, y, 0, 0)
    }

    /// A button went down: `button` is taken as the button mask.
    pub fn handle_mouse_press(&mut self, button: u8, x: i32, y: i32) -> (r: Vec<Dispatch>)
        requires
            old(self).mouse_event_defined(x, y, button),
        ensures
            ({
                let (ws, f, d, ox, oy, out) = mouse_step(old(self).pointer_state(), x, y, button);
                &&& final(self).pointer_state() == (ws, f, d, ox, oy)
                &&& r@ == out
            }),
            final(self).same_settings(old(self)),
    {
        self.handle_mouse_event(x, y, button, 0)
    }

    /// A button went up: routed as a move with no button down.
    pub fn handle_mouse_release(&mut self, button: u8, x: i32, y: i32) -> (r: Vec<Dispatch>)
        requires
            old(self).mouse_event_defined(x, y, 0),
        ensures
            ({
                let (ws, f, d, ox, oy, out) = mouse_step(old(self).pointer_state(), x, y, 0);
                &&& final(self).pointer_state() == (ws, f, d, ox, oy)
                &&& r@ == out
            }),
            final(self).same_settings(old(self)),
    {
        self.handle_mouse_event(x, y, 0, 0)
    }

    /// The wheel turned: routed as a move with no button down.
    pub fn handle_mouse_scroll(&mut self, delta: i32, x: i32, y: i32) -> (r: Vec<Dispatch>)
        requires
            old(self).mouse_event_defined(x, y, 0),
        ensures
            ({
                let (ws, f, d, ox, oy, out) = mouse_step(old(self).pointer_state(), x, y, 0);
                &&& final(self).pointer_state() == (ws, f, d, ox, oy)
                &&& r@ == out
            }),
            final(self).same_settings(old(self)),
    {
        self.handle_mouse_event(x, y, 0, delta as i8)
    }
}

/// The key event for the focused window's handler, if a window is focused
/// and has one.
pub open spec fn key_step(ws: Seq<WindowView>, focused: WindowId, key: u16, pressed: bool, modifiers: u8) -> Seq<
    Dispatch,
> {
    if focused == 0 {
        Seq::empty()
    } else {
        match find_window(ws, focused) {
            Some(i) => handler_event(
                ws[i],
                if pressed {
                    WindowEvent::KeyDown { key, scancode: key, modifiers }
                } else {
                    WindowEvent::KeyUp { key, scancode: key, modifiers }
                },
            ),
            None => Seq::empty(),
        }
    }
}

/// The 32-bit arithmetic of a mouse event stays in range: while dragging
/// with the first button down, the new position of the dragged window;
/// otherwise the edges of every visible window the hit test passes over,
/// and the title bar and window-relative position of the window hit.
pub open spec fn mouse_defined(
    st: (Seq<WindowView>, WindowId, WindowId, i32, i32),
    x: i32,
    y: i32,
    buttons: u8,
) -> bool {
    let (ws, focused, dragging, off_x, off_y) = st;
    if dragging != 0 && buttons & 1u8 != 0 {
        find_window(ws, dragging) is Some ==> {
            &&& i32::MIN <= x - off_x <= i32::MAX
            &&& i32::MIN <= y - off_y <= i32::MAX
        }
    } else {
        let low: int = match last_where(ws, hit_at(x, y)) {
            Some(h) => h,
            None => 0,
        };
        &&& forall|k: int| low <= k < ws.len() && (#[trigger] ws[k]).visible ==> edges_fit(ws[k].rect)
        &&& last_where(ws, hit_at(x, y)) matches Some(h) ==> {
            &&& ws[h].rect.y + 25 <= i32::MAX
            &&& x - ws[h].rect.x <= i32::MAX
            &&& y - ws[h].rect.y <= i32::MAX
        }
    }
}

/// A mouse event at (`x`, `y`) with button mask `buttons`:
/// - while a window is being dragged and the first button is down, the
///   window moves so the grab point follows the pointer, and is told so;
/// - otherwise dragging stops, and the topmost visible window under the
///   pointer (if any) is hit: with the first button down it is focused if it
///   was not, and a press in its title bar starts dragging it; anything
///   else reaches its handler as a button-down or a move, in window
///   coordinates.
pub open spec fn mouse_step(
    st: (Seq<WindowView>, WindowId, WindowId, i32, i32),
    x: i32,
    y: i32,
    buttons: u8,
) -> (Seq<WindowView>, WindowId, WindowId, i32, i32, Seq<Dispatch>) {
    let (ws, focused, dragging, off_x, off_y) = st;
    let pressed = buttons & 1u8 != 0;
    if dragging != 0 && pressed {
        match find_window(ws, dragging) {
            Some(i) => {
                let r = Rect { x: (x - off_x) as i32, y: (y - off_y) as i32, ..ws[i].rect };
                let w = WindowView { rect: r, ..ws[i] };
                (ws.update(i, w), focused, dragging, off_x, off_y, handler_event(w, WindowEvent::Move { x: r.x, y: r.y }))
            },
            None => (ws, focused, dragging, off_x, off_y, Seq::empty()),
        }
    } else {
        match last_where(ws, hit_at(x, y)) {
            None => (ws, focused, 0, off_x, off_y, Seq::empty()),
            Some(i) => {
                let w = ws[i];
                let (ws1, f1, d1) = if pressed && !w.focused {
                    focus_step(ws, focused, w.id)
                } else {
                    (ws, focused, Seq::empty())
                };
                let in_title_bar = y >= w.rect.y && y < w.rect.y + 25;
                let wx = (x - w.rect.x) as i32;
                let wy = (y - w.rect.y) as i32;
                if pressed && in_title_bar {
                    (ws1, f1, w.id, wx, wy, d1)
                } else {
                    let e = if pressed {
                        WindowEvent::MouseDown { x: wx, y: wy, button: 1 }
                    } else {
                        WindowEvent::MouseMove { x: wx, y: wy }
                    };
                    (ws1, f1, 0, off_x, off_y, d1 + handler_event(w, e))
                }
            },
        }
    }
}

/// A window's content area lies in 32-bit coordinates below its title bar
/// (asked only of windows that draw content).
pub open spec fn content_defined(w: WindowView) -> bool {
    w.render_handler is Some ==> w.rect.y + 25 <= i32::MAX && w.rect.height >= 25
}

/// Drawing one window: its background, its border and its title bar, in the
/// theme's active colours when it holds the focus; then, where it has a
/// content renderer, the renderer's call clipped to the area below the
/// title bar.
pub open spec fn window_drawing(theme: Theme, w: WindowView) -> Seq<DrawCommand> {
    let border = if w.focused { theme.window_border_active } else { theme.window_border_inactive };
    let title_color = if w.focused { theme.title_bar_active } else { theme.title_bar_inactive };
    let frame = seq![
        DrawCommand::FillRect { rect: w.rect, color: w.background_color },
        DrawCommand::DrawRect { rect: w.rect, color: border },
        DrawCommand::FillRect { rect: Rect { height: 25, ..w.rect }, color: title_color },
    ];
    match w.render_handler {
        Some(h) => frame + seq![
            DrawCommand::SetClip {
                clip: Some(Rect { x: w.rect.x, y: (w.rect.y + 25) as i32, width: w.rect.width, height: (w.rect.height - 25) as u32 }),
            },
            DrawCommand::RenderContent { window: w.id, handler: h },
            DrawCommand::SetClip { clip: None },
        ],
        None => frame,
    }
}

/// Drawing the desktop: every visible window, from the bottom of the
/// stacking order to the top.
pub open spec fn desktop_drawing(theme: Theme, ws: Seq<WindowView>) -> Seq<DrawCommand>
    decreases ws.len(),
{
    if ws.len() == 0 {
        Seq::empty()
    } else {
        desktop_drawing(theme, ws.drop_last()) + if ws.last().visible {
            window_drawing(theme, ws.last())
        } else {
            Seq::empty()
        }
    }
}

impl WindowManager {
    /// Every visible window that draws content has room for it.
    pub open spec fn render_defined(&self) -> bool {
        forall|k: int| 0 <= k < self.views().len() && (#[trigger] self.views()[k]).visible ==> content_defined(self.views()[k])
    }

    /// The drawing of a single window (see `window_drawing`).
    pub fn render_window(&self, window: &Window) -> (r: Result<Vec<DrawCommand>, RendererError>)
        requires
            content_defined(window@),
        ensures
            r matches Ok(v) && v@ == window_drawing(self.theme, window@),
    {
        let rect = window.rect();
        let mut out: Vec<DrawCommand> = Vec::new();
        out.push(DrawCommand::FillRect { rect, color: window.background_color });
        let border_color = if window.is_focused() {
            self.theme.window_border_active
        } else {
            self.theme.window_border_inactive
        };
        out.push(DrawCommand::DrawRect { rect, color: border_color });
        let title_bar_rect = Rect::new(rect.x, rect.y, rect.width, TITLE_BAR_HEIGHT);
        let title_bar_color = if window.is_focused() {
            self.theme.title_bar_active
        } else {
            self.theme.title_bar_inactive
        };
        out.push(DrawCommand::FillRect { rect: title_bar_rect, color: title_bar_color });
        if let Some(render_fn) = window.render_callback {
            let content_rect = Rect::new(
                rect.x,
                rect.y + TITLE_BAR_HEIGHT as i32,
                rect.width,
                rect.height - TITLE_BAR_HEIGHT,
            );
            out.push(DrawCommand::SetClip { clip: Some(content_rect) });
            out.push(DrawCommand::RenderContent { window: window.id, handler: render_fn });
            out.push(DrawCommand::SetClip { clip: None });
        }
        assert(out@ =~= window_drawing(self.theme, window@));
        Ok(out)
    }

    /// The drawing of every visible window, bottom to top (see
    /// `desktop_drawing`).
    pub fn render(&self) -> (r: Result<Vec<DrawCommand>, RendererError>)
        requires
            self.render_defined(),
        ensures
            r matches Ok(v) && v@ == desktop_drawing(self.theme, self.views()),
    {
        let mut out: Vec<DrawCommand> = Vec::new();
        let mut i: usize = 0;
        while i < self.windows.len()
            invariant
                0 <= i <= self.windows@.len(),
                self.render_defined(),
                out@ == desktop_drawing(self.theme, self.views().take(i as int)),
            decreases self.windows@.len() - i,
        {
            let ghost before = out@;
            assert(self.views().take(i as int + 1).drop_last() =~= self.views().take(i as int));
            assert(self.views()[i as int] == self.windows@[i as int]@);
            if self.windows[i].is_visible() {
                let drawn = self.render_window(&self.windows[i]);
                if let Ok(mut v) = drawn {
                    out.append(&mut v);
                }
            }
            assert(out@ =~= desktop_drawing(self.theme, self.views().take(i as int + 1)));
            i += 1;
        }
        assert(self.views().take(self.windows@.len() as int) =~= self.views());
        Ok(out)
    }
}

/// No two windows share an id.
pub open spec fn unique_ids(ws: Seq<WindowView>) -> bool {
    forall|i: int, j: int| 0 <= i < ws.len() && 0 <= j < ws.len() && i != j ==> #[trigger] ws[i].id != #[trigger] ws[j].id
}

/// Focusing an existing window gives it the focus and brings it to the top
/// of the stacking order, keeping every window.
pub proof fn lemma_focus_brings_to_front(ws: Seq<WindowView>, focused: WindowId, id: WindowId)
    requires
        find_window(ws, id) is Some,
    ensures
        ({
            let (ws2, f2, _d) = focus_step(ws, focused, id);
            &&& f2 == id
            &&& ws2.len() == ws.len()
            &&& ws2.last().id == id
            &&& ws2.last().focused
        }),
{
    let i = find_window(ws, id)->0;
    assert(is_first_where(ws, id_is(id), i));
    if focused != 0 && find_window(ws, focused) is Some {
        let k = find_window(ws, focused)->0;
        assert(is_first_where(ws, id_is(focused), k));
        let ws1 = ws.update(k, WindowView { focused: false, ..ws[k] });
        lemma_first_where_same(ws1, ws, id_is(id));
    }
}

/// Where no two windows share an id, a closed window is gone and every
/// other window stays.
pub proof fn lemma_close_removes(ws: Seq<WindowView>, focused: WindowId, id: WindowId)
    requires
        unique_ids(ws),
        find_window(ws, id) is Some,
    ensures
        ({
            let (ws2, _f) = close_step(ws, focused, id);
            &&& find_window(ws2, id) is None
            &&& ws2.len() == ws.len() - 1
        }),
{
    let i = find_window(ws, id)->0;
    assert(is_first_where(ws, id_is(id), i));
    let ws1 = ws.update(i, WindowView { visible: false, ..ws[i] });
    let (wsh, fh) = hide_step(ws, focused, id);
    assert(wsh.len() == ws.len());
    assert forall|k: int| 0 <= k < ws.len() implies (#[trigger] wsh[k]).id == ws[k].id by {
        if focused == id {
            match first_where(ws1, visible_other(id)) {
                Some(j) => {
                    assert(is_first_where(ws1, visible_other(id), j));
                },
                None => {},
            }
        }
    }
    lemma_first_where_same(wsh, ws, id_is(id));
    let ws2 = wsh.remove(i);
    assert forall|k: int| 0 <= k < ws2.len() implies !id_is(id)(#[trigger] ws2[k]) by {
        if k < i {
            assert(ws2[k].id == ws[k].id);
        } else {
            assert(ws2[k].id == ws[k + 1].id);
            assert(ws[k + 1].id != ws[i].id);
        }
    }
    lemma_first_where_none(ws2, id_is(id));
}

} // verus!
