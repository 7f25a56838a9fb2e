//! Input state tracking: keys, mouse buttons and gamepads, each pressed or
//! released and settled once per frame, with a queue of raw input events.

pub mod keys;

use vstd::prelude::*;
use std::collections::VecDeque;

verus! {

/// Number of key codes tracked: every code of [`keys`] (Enter is 257, the
/// highest, right Alt, is 346) has an entry.
pub const MAX_KEYS: usize = 512;
/// Maximum number of mouse buttons that can be tracked
pub const MAX_MOUSE_BUTTONS: usize = 8;
/// Maximum number of gamepads supported
pub const MAX_GAMEPADS: usize = 4;
/// Maximum number of buttons per gamepad
pub const MAX_GAMEPAD_BUTTONS: usize = 16;
/// Maximum number of axes per gamepad
pub const MAX_GAMEPAD_AXES: usize = 8;

/// Represents a key state
#[derive(Clone, Copy, Debug, PartialEq, Eq, Structural)]
pub enum KeyState {
    /// Key is currently pressed
    Pressed,
    /// Key is currently released
    Released,
    /// Key was just pressed this frame
    JustPressed,
    /// Key was just released this frame
    JustReleased,
}

/// The kinds of raw input event.
#[derive(Clone, Copy, Debug, PartialEq, Eq, Structural)]
pub enum InputEventType {
    KeyPress,
    KeyRelease,
    MouseMove,
    MouseButton,
    GamepadButton,
    GamepadAxis,
}

/// A raw input event: its kind, the device it came from, and up to four
/// words of data.
#[derive(Clone, Copy, Debug)]
pub struct InputEvent {
    pub event_type: InputEventType,
    pub device_id: u8,
    pub data: [u32; 4],
}

/// Represents a mouse state
#[derive(Clone, Copy, Debug)]
pub struct MouseState {
    /// Current X position
    pub x: i32,
    /// Current Y position
    pub y: i32,
    /// X movement since last frame
    pub dx: i32,
    /// Y movement since last frame
    pub dy: i32,
    /// Wheel scrolling (vertical)
    pub wheel: i32,
    /// Wheel scrolling (horizontal)
    pub wheel_h: i32,
    /// Button states
    pub buttons: [KeyState; 8],
}

/// Everything the input system tracks. Gamepad buttons are kept in one
/// list, sixteen to a gamepad; axis readings likewise, eight to a gamepad.
pub struct InputSystem {
    keyboard: Vec<KeyState>,
    prev_keyboard: Vec<KeyState>,
    mouse: MouseState,
    prev_mouse: Vec<KeyState>,
    gamepad_connected: Vec<bool>,
    gamepad_buttons: Vec<KeyState>,
    prev_gamepad_buttons: Vec<KeyState>,
    gamepad_axes: Vec<i32>,
    queue: VecDeque<InputEvent>,
    callbacks: Vec<u64>,
}

/// The input system as the contracts see it.
pub struct InputView {
    pub keyboard: Seq<KeyState>,
    pub prev_keyboard: Seq<KeyState>,
    pub mouse_x: i32,
    pub mouse_y: i32,
    pub mouse_dx: i32,
    pub mouse_dy: i32,
    pub wheel: i32,
    pub wheel_h: i32,
    pub mouse_buttons: Seq<KeyState>,
    pub prev_mouse: Seq<KeyState>,
    pub gamepad_connected: Seq<bool>,
    pub gamepad_buttons: Seq<KeyState>,
    pub prev_gamepad_buttons: Seq<KeyState>,
    pub gamepad_axes: Seq<i32>,
    pub queue: Seq<InputEvent>,
    /// The handles of the callbacks that raw events are handed to, in the
    /// order they were registered.
    pub callbacks: Seq<u64>,
}

impl View for InputSystem {
    type V = InputView;

    closed spec fn view(&self) -> InputView {
        InputView {
            keyboard: self.keyboard@,
            prev_keyboard: self.prev_keyboard@,
            mouse_x: self.mouse.x,
            mouse_y: self.mouse.y,
            mouse_dx: self.mouse.dx,
            mouse_dy: self.mouse.dy,
            wheel: self.mouse.wheel,
            wheel_h: self.mouse.wheel_h,
            mouse_buttons: self.mouse.buttons@,
            prev_mouse: self.prev_mouse@,
            gamepad_connected: self.gamepad_connected@,
            gamepad_buttons: self.gamepad_buttons@,
            prev_gamepad_buttons: self.prev_gamepad_buttons@,
            gamepad_axes: self.gamepad_axes@,
            queue: self.queue@,
            callbacks: self.callbacks@,
        }
    }
}

/// The sizes of the tables.
pub open spec fn input_wf(v: InputView) -> bool {
    &&& v.keyboard.len() == MAX_KEYS
    &&& v.prev_keyboard.len() == MAX_KEYS
    &&& v.mouse_buttons.len() == MAX_MOUSE_BUTTONS
    &&& v.prev_mouse.len() == MAX_MOUSE_BUTTONS
    &&& v.gamepad_connected.len() == MAX_GAMEPADS
    &&& v.gamepad_buttons.len() == MAX_GAMEPADS * MAX_GAMEPAD_BUTTONS
    &&& v.prev_gamepad_buttons.len() == MAX_GAMEPADS * MAX_GAMEPAD_BUTTONS
    &&& v.gamepad_axes.len() == MAX_GAMEPADS * MAX_GAMEPAD_AXES
}

/// What `update` makes of one entry: the state it leaves, and the state it
/// remembers for the next frame. Last frame's transient state settles
/// first (just pressed to pressed, just released to released); then an
/// entry that went down since the last frame is marked just pressed, one
/// that went up just released, and the mark stays until the next update.
pub open spec fn frame_step(cur: KeyState, prev: KeyState) -> (KeyState, KeyState) {
    let settled = if cur == KeyState::JustPressed {
        KeyState::Pressed
    } else if cur == KeyState::JustReleased {
        KeyState::Released
    } else {
        cur
    };
    let marked = if settled == KeyState::Pressed && (prev == KeyState::Released || prev == KeyState::JustReleased) {
        KeyState::JustPressed
    } else if settled == KeyState::Released && (prev == KeyState::Pressed || prev == KeyState::JustPressed) {
        KeyState::JustReleased
    } else {
        settled
    };
    (marked, marked)
}

/// A key state that counts as down.
pub open spec fn is_down(s: KeyState) -> bool {
    s == KeyState::Pressed || s == KeyState::JustPressed
}

/// The input system at power-on: everything released and disconnected.
pub open spec fn initial_input() -> InputView {
    InputView {
        keyboard: Seq::new(MAX_KEYS as nat, |i: int| KeyState::Released),
        prev_keyboard: Seq::new(MAX_KEYS as nat, |i: int| KeyState::Released),
        mouse_x: 0,
        mouse_y: 0,
        mouse_dx: 0,
        mouse_dy: 0,
        wheel: 0,
        wheel_h: 0,
        mouse_buttons: Seq::new(MAX_MOUSE_BUTTONS as nat, |i: int| KeyState::Released),
        prev_mouse: Seq::new(MAX_MOUSE_BUTTONS as nat, |i: int| KeyState::Released),
        gamepad_connected: Seq::new(MAX_GAMEPADS as nat, |i: int| false),
        gamepad_buttons: Seq::new((MAX_GAMEPADS * MAX_GAMEPAD_BUTTONS) as nat, |i: int| KeyState::Released),
        prev_gamepad_buttons: Seq::new((MAX_GAMEPADS * MAX_GAMEPAD_BUTTONS) as nat, |i: int| KeyState::Released),
        gamepad_axes: Seq::new((MAX_GAMEPADS * MAX_GAMEPAD_AXES) as nat, |i: int| 0i32),
        queue: Seq::empty(),
        callbacks: Seq::empty(),
    }
}

/// A table of `n` entries, all `s`.
fn filled_states(n: usize, s: KeyState) -> (v: Vec<KeyState>)
    ensures
        v@ == Seq::new(n as nat, |i: int| s),
{
    let mut v: Vec<KeyState> = Vec::new();
    let mut i: usize = 0;
    while i < n
        invariant
            i <= n,
            v@ == Seq::new(i as nat, |k: int| s),
        decreases n - i,
    {
        v.push(s);
        i += 1;
        assert(v@ =~= Seq::new(i as nat, |k: int| s));
    }
    v
}

/// The input system at power-on. Handing raw events to
/// [`process_input_event`] is up to whoever receives them.
pub fn initialize() -> (s: InputSystem)
    ensures
        input_wf(s@),
        s@ == initial_input(),
{
    let mut connected: Vec<bool> = Vec::new();
    let mut axes: Vec<i32> = Vec::new();
    let mut i: usize = 0;
    while i < MAX_GAMEPADS
        invariant
            i <= MAX_GAMEPADS,
            connected@ == Seq::new(i as nat, |k: int| false),
        decreases MAX_GAMEPADS - i,
    {
        connected.push(false);
        i += 1;
        assert(connected@ =~= Seq::new(i as nat, |k: int| false));
    }
    let mut j: usize = 0;
    while j < MAX_GAMEPADS * MAX_GAMEPAD_AXES
        invariant
            j <= MAX_GAMEPADS * MAX_GAMEPAD_AXES,
            axes@ == Seq::new(j as nat, |k: int| 0i32),
        decreases MAX_GAMEPADS * MAX_GAMEPAD_AXES - j,
    {
        axes.push(0);
        j += 1;
        assert(axes@ =~= Seq::new(j as nat, |k: int| 0i32));
    }
    let s = InputSystem {
        keyboard: filled_states(MAX_KEYS, KeyState::Released),
        prev_keyboard: filled_states(MAX_KEYS, KeyState::Released),
        mouse: MouseState { x: 0, y: 0, dx: 0, dy: 0, wheel: 0, wheel_h: 0, buttons: [KeyState::Released; 8] },
        prev_mouse: filled_states(MAX_MOUSE_BUTTONS, KeyState::Released),
        gamepad_connected: connected,
        gamepad_buttons: filled_states(MAX_GAMEPADS * MAX_GAMEPAD_BUTTONS, KeyState::Released),
        prev_gamepad_buttons: filled_states(MAX_GAMEPADS * MAX_GAMEPAD_BUTTONS, KeyState::Released),
        gamepad_axes: axes,
        queue: VecDeque::new(),
        callbacks: Vec::new(),
    };
    assert(s.mouse.buttons@ =~= Seq::new(MAX_MOUSE_BUTTONS as nat, |i: int| KeyState::Released));
    s
}

/// A mouse movement to the event's position keeps the movement within
/// 32-bit coordinates.
pub open spec fn event_fits(v: InputView, e: InputEvent) -> bool {
    e.event_type == InputEventType::MouseMove ==> {
        &&& i32::MIN <= (e.data[0] as i32) - v.mouse_x <= i32::MAX
        &&& i32::MIN <= (e.data[1] as i32) - v.mouse_y <= i32::MAX
    }
}

/// The input system after one raw event.
pub open spec fn event_applied(v: InputView, e: InputEvent) -> InputView {
    let d0 = e.data[0] as int;
    let d1 = e.data[1] as int;
    let d2 = e.data[2];
    if e.event_type == InputEventType::KeyPress {
        if d0 < MAX_KEYS { InputView { keyboard: v.keyboard.update(d0, KeyState::Pressed), ..v } } else { v }
    } else if e.event_type == InputEventType::KeyRelease {
        if d0 < MAX_KEYS { InputView { keyboard: v.keyboard.update(d0, KeyState::Released), ..v } } else { v }
    } else if e.event_type == InputEventType::MouseMove {
        let nx = e.data[0] as i32;
        let ny = e.data[1] as i32;
        InputView { mouse_dx: (nx - v.mouse_x) as i32, mouse_dy: (ny - v.mouse_y) as i32, mouse_x: nx, mouse_y: ny, ..v }
    } else if e.event_type == InputEventType::MouseButton {
        if d0 < MAX_MOUSE_BUTTONS {
            InputView {
                mouse_buttons: v.mouse_buttons.update(d0, if d1 != 0 { KeyState::Pressed } else { KeyState::Released }),
                ..v
            }
        } else {
            v
        }
    } else if e.event_type == InputEventType::GamepadButton {
        if d0 < MAX_GAMEPADS && d1 < MAX_GAMEPAD_BUTTONS {
            InputView {
                gamepad_buttons: v.gamepad_buttons.update(
                    d0 * 16 + d1,
                    if d2 != 0 { KeyState::Pressed } else { KeyState::Released },
                ),
                gamepad_connected: v.gamepad_connected.update(d0, true),
                ..v
            }
        } else {
            v
        }
    } else {
        if d0 < MAX_GAMEPADS && d1 < MAX_GAMEPAD_AXES {
            InputView {
                gamepad_axes: v.gamepad_axes.update(d0 * 8 + d1, d2 as i32),
                gamepad_connected: v.gamepad_connected.update(d0, true),
                ..v
            }
        } else {
            v
        }
    }
}

/// Records one raw input event. A gamepad axis event records the raw
/// reading; turning it into a deadzone-adjusted value is left to the
/// caller.
pub fn process_input_event(sys: &mut InputSystem, event: InputEvent)
    requires
        input_wf(old(sys)@),
        event_fits(old(sys)@, event),
    ensures
        input_wf(final(sys)@),
        final(sys)@ == event_applied(old(sys)@, event),
{
    match event.event_type {
        InputEventType::KeyPress => {
            let key_code = event.data[0] as usize;
            if key_code < MAX_KEYS {
                sys.keyboard.set(key_code, KeyState::Pressed);
            }
        },
        InputEventType::KeyRelease => {
            let key_code = event.data[0] as usize;
            if key_code < MAX_KEYS {
                sys.keyboard.set(key_code, KeyState::Released);
            }
        },
        InputEventType::MouseMove => {
            let new_x = event.data[0] as i32;
            let new_y = event.data[1] as i32;
            sys.mouse.dx = new_x - sys.mouse.x;
            sys.mouse.dy = new_y - sys.mouse.y;
            sys.mouse.x = new_x;
            sys.mouse.y = new_y;
        },
        InputEventType::MouseButton => {
            let button = event.data[0] as usize;
            let pressed = event.data[1] != 0;
            if button < MAX_MOUSE_BUTTONS {
                let state = if pressed { KeyState::Pressed } else { KeyState::Released };
                sys.mouse.buttons[button] = state;
            }
        },
        InputEventType::GamepadButton => {
            let gamepad_id = event.data[0] as usize;
            let button = event.data[1] as usize;
            let pressed = event.data[2] != 0;
            if gamepad_id < MAX_GAMEPADS && button < MAX_GAMEPAD_BUTTONS {
                let state = if pressed { KeyState::Pressed } else { KeyState::Released };
                sys.gamepad_buttons.set(gamepad_id * 16 + button, state);
                sys.gamepad_connected.set(gamepad_id, true);
            }
        },
        InputEventType::GamepadAxis => {
            let gamepad_id = event.data[0] as usize;
            let axis = event.data[1] as usize;
            let raw_value = event.data[2] as i32;
            if gamepad_id < MAX_GAMEPADS && axis < MAX_GAMEPAD_AXES {
                sys.gamepad_axes.set(gamepad_id * 8 + axis, raw_value);
                sys.gamepad_connected.set(gamepad_id, true);
            }
        },
    }
}

/// One entry through a frame.
fn step_entry(cur: KeyState, prev: KeyState) -> (r: (KeyState, KeyState))
    ensures
        r == frame_step(cur, prev),
{
    let settled = match cur {
        KeyState::JustPressed => KeyState::Pressed,
        KeyState::JustReleased => KeyState::Released,
        _ => cur,
    };
    let marked = match (settled, prev) {
        (KeyState::Pressed, KeyState::Released) | (KeyState::Pressed, KeyState::JustReleased) => KeyState::JustPressed,
        (KeyState::Released, KeyState::Pressed) | (KeyState::Released, KeyState::JustPressed) => KeyState::JustReleased,
        _ => settled,
    };
    (marked, marked)
}

/// Both tables after entries `lo..hi` went through a frame.
pub open spec fn stepped(cur: Seq<KeyState>, prev: Seq<KeyState>, lo: int, hi: int) -> (Seq<KeyState>, Seq<KeyState>) {
    (
        Seq::new(cur.len(), |i: int| if lo <= i < hi { frame_step(cur[i], prev[i]).0 } else { cur[i] }),
        Seq::new(prev.len(), |i: int| if lo <= i < hi { frame_step(cur[i], prev[i]).1 } else { prev[i] }),
    )
}

/// Puts entries `lo..hi` of a table through a frame.
fn step_table(cur: &mut Vec<KeyState>, prev: &mut Vec<KeyState>, lo: usize, hi: usize)
    requires
        lo <= hi <= old(cur)@.len(),
        old(cur)@.len() == old(prev)@.len(),
    ensures
        (final(cur)@, final(prev)@) == stepped(old(cur)@, old(prev)@, lo as int, hi as int),
{
    let ghost c0 = cur@;
    let ghost p0 = prev@;
    let mut i: usize = lo;
    while i < hi
        invariant
            lo <= i <= hi <= c0.len(),
            c0.len() == p0.len(),
            (cur@, prev@) == stepped(c0, p0, lo as int, i as int),
        decreases hi - i,
    {
        let (settled, marked) = step_entry(cur[i], prev[i]);
        assert(cur@[i as int] == c0[i as int] && prev@[i as int] == p0[i as int]);
        cur.set(i, settled);
        prev.set(i, marked);
        i += 1;
        assert(cur@ =~= stepped(c0, p0, lo as int, i as int).0);
        assert(prev@ =~= stepped(c0, p0, lo as int, i as int).1);
    }
}

/// The gamepad button tables after a frame: the buttons of connected
/// gamepads go through it.
pub open spec fn gamepads_stepped(conn: Seq<bool>, cur: Seq<KeyState>, prev: Seq<KeyState>) -> (Seq<KeyState>, Seq<KeyState>) {
    (
        Seq::new(cur.len(), |i: int| if conn[i / 16] { frame_step(cur[i], prev[i]).0 } else { cur[i] }),
        Seq::new(prev.len(), |i: int| if conn[i / 16] { frame_step(cur[i], prev[i]).1 } else { prev[i] }),
    )
}

/// The input system after a frame's update: every key and mouse button,
/// and the buttons of connected gamepads, go through `frame_step`, and
/// the mouse movement and wheel are cleared.
pub open spec fn updated(v: InputView) -> InputView {
    let k = stepped(v.keyboard, v.prev_keyboard, 0, MAX_KEYS as int);
    let m = stepped(v.mouse_buttons, v.prev_mouse, 0, MAX_MOUSE_BUTTONS as int);
    let g = gamepads_stepped(v.gamepad_connected, v.gamepad_buttons, v.prev_gamepad_buttons);
    InputView {
        keyboard: k.0,
        prev_keyboard: k.1,
        mouse_buttons: m.0,
        prev_mouse: m.1,
        mouse_dx: 0,
        mouse_dy: 0,
        wheel: 0,
        wheel_h: 0,
        gamepad_buttons: g.0,
        prev_gamepad_buttons: g.1,
        ..v
    }
}

/// The mouse button states as a table.
fn buttons_to_vec(a: &[KeyState; 8]) -> (v: Vec<KeyState>)
    ensures
        v@ == a@,
{
    let mut v: Vec<KeyState> = Vec::new();
    let mut b: usize = 0;
    while b < 8
        invariant
            b <= 8,
            a@.len() == 8,
            v@ == a@.take(b as int),
        decreases 8 - b,
    {
        v.push(a[b]);
        b += 1;
        assert(v@ =~= a@.take(b as int));
    }
    assert(v@ =~= a@);
    v
}

/// Writes a table of mouse button states back.
fn vec_to_buttons(a: &mut [KeyState; 8], v: &Vec<KeyState>)
    requires
        v@.len() == 8,
    ensures
        final(a)@ == v@,
{
    let mut c: usize = 0;
    while c < 8
        invariant
            c <= 8,
            v@.len() == 8,
            a@.len() == 8,
            forall|k: int| 0 <= k < c ==> a@[k] == v@[k],
        decreases 8 - c,
    {
        a[c] = v[c];
        c += 1;
    }
    assert(a@ =~= v@);
}

/// Puts the buttons of the connected gamepads through a frame.
fn step_gamepads(conn: &Vec<bool>, cur: &mut Vec<KeyState>, prev: &mut Vec<KeyState>)
    requires
        conn@.len() == MAX_GAMEPADS,
        old(cur)@.len() == MAX_GAMEPADS * MAX_GAMEPAD_BUTTONS,
        old(prev)@.len() == MAX_GAMEPADS * MAX_GAMEPAD_BUTTONS,
    ensures
        (final(cur)@, final(prev)@) == gamepads_stepped(conn@, old(cur)@, old(prev)@),
{
    let ghost gb0 = cur@;
    let ghost gp0 = prev@;
    let mut gamepad_id: usize = 0;
    while gamepad_id < MAX_GAMEPADS
        invariant
            gamepad_id <= MAX_GAMEPADS,
            conn@.len() == MAX_GAMEPADS,
            gb0.len() == MAX_GAMEPADS * MAX_GAMEPAD_BUTTONS,
            gp0.len() == MAX_GAMEPADS * MAX_GAMEPAD_BUTTONS,
            cur@.len() == gb0.len(),
            prev@.len() == gp0.len(),
            forall|i: int| 0 <= i < gb0.len() ==> {
                &&& (#[trigger] cur@[i]) == if i < gamepad_id * 16 && conn@[i / 16] {
                    frame_step(gb0[i], gp0[i]).0
                } else {
                    gb0[i]
                }
                &&& prev@[i] == if i < gamepad_id * 16 && conn@[i / 16] {
                    frame_step(gb0[i], gp0[i]).1
                } else {
                    gp0[i]
                }
            },
        decreases MAX_GAMEPADS - gamepad_id,
    {
        let ghost cb = cur@;
        let ghost pb = prev@;
        if conn[gamepad_id] {
            step_table(cur, prev, gamepad_id * 16, gamepad_id * 16 + 16);
        }
        assert forall|i: int| 0 <= i < gb0.len() implies {
            &&& (#[trigger] cur@[i]) == if i < (gamepad_id + 1) * 16 && conn@[i / 16] {
                frame_step(gb0[i], gp0[i]).0
            } else {
                gb0[i]
            }
            &&& prev@[i] == if i < (gamepad_id + 1) * 16 && conn@[i / 16] {
                frame_step(gb0[i], gp0[i]).1
            } else {
                gp0[i]
            }
        } by {
            if gamepad_id * 16 <= i < gamepad_id * 16 + 16 {
                assert(i / 16 == gamepad_id as int);
                assert(cb[i] == gb0[i] && pb[i] == gp0[i]);
            } else {
                assert(cb[i] == cur@[i] && pb[i] == prev@[i]);
            }
        }
        gamepad_id += 1;
    }
    assert(cur@ =~= gamepads_stepped(conn@, gb0, gp0).0);
    assert forall|i: int| 0 <= i < prev@.len() implies prev@[i] == gamepads_stepped(conn@, gb0, gp0).1[i] by {
        assert(cur@[i] == gamepads_stepped(conn@, gb0, gp0).0[i]);
    }
    assert(prev@ =~= gamepads_stepped(conn@, gb0, gp0).1);
}

/// Update input states - should be called once per frame
pub fn update(sys: &mut InputSystem)
    requires
        input_wf(old(sys)@),
    ensures
        input_wf(final(sys)@),
        final(sys)@ == updated(old(sys)@),
{
    let ghost v0 = sys@;
    step_table(&mut sys.keyboard, &mut sys.prev_keyboard, 0, MAX_KEYS);
    let mut mouse_buttons = buttons_to_vec(&sys.mouse.buttons);
    step_table(&mut mouse_buttons, &mut sys.prev_mouse, 0, MAX_MOUSE_BUTTONS);
    vec_to_buttons(&mut sys.mouse.buttons, &mouse_buttons);
    sys.mouse.dx = 0;
    sys.mouse.dy = 0;
    sys.mouse.wheel = 0;
    sys.mouse.wheel_h = 0;
    step_gamepads(&sys.gamepad_connected, &mut sys.gamepad_buttons, &mut sys.prev_gamepad_buttons);
    assert(sys@ =~= updated(v0));
}

/// Check if a key is currently pressed
pub fn is_key_down(sys: &InputSystem, key_code: usize) -> (r: bool)
    requires
        input_wf(sys@),
    ensures
        r == (key_code < MAX_KEYS && is_down(sys@.keyboard[key_code as int])),
{
    if key_code >= MAX_KEYS {
        return false;
    }
    let state = sys.keyboard[key_code];
    state == KeyState::Pressed || state == KeyState::JustPressed
}

/// Check if a key was just pressed this frame
pub fn is_key_just_pressed(sys: &InputSystem, key_code: usize) -> (r: bool)
    requires
        input_wf(sys@),
    ensures
        r == (key_code < MAX_KEYS && sys@.keyboard[key_code as int] == KeyState::JustPressed),
{
    if key_code >= MAX_KEYS {
        return false;
    }
    sys.keyboard[key_code] == KeyState::JustPressed
}

/// Check if a key was just released this frame
pub fn is_key_just_released(sys: &InputSystem, key_code: usize) -> (r: bool)
    requires
        input_wf(sys@),
    ensures
        r == (key_code < MAX_KEYS && sys@.keyboard[key_code as int] == KeyState::JustReleased),
{
    if key_code >= MAX_KEYS {
        return false;
    }
    sys.keyboard[key_code] == KeyState::JustReleased
}

/// Check if a mouse button is currently pressed
pub fn is_mouse_button_down(sys: &InputSystem, button: usize) -> (r: bool)
    requires
        input_wf(sys@),
    ensures
        r == (button < MAX_MOUSE_BUTTONS && is_down(sys@.mouse_buttons[button as int])),
{
    if button >= MAX_MOUSE_BUTTONS {
        return false;
    }
    let state = sys.mouse.buttons[button];
    state == KeyState::Pressed || state == KeyState::JustPressed
}

/// Check if a mouse button was just pressed this frame
pub fn is_mouse_button_just_pressed(sys: &InputSystem, button: usize) -> (r: bool)
    requires
        input_wf(sys@),
    ensures
        r == (button < MAX_MOUSE_BUTTONS && sys@.mouse_buttons[button as int] == KeyState::JustPressed),
{
    if button >= MAX_MOUSE_BUTTONS {
        return false;
    }
    sys.mouse.buttons[button] == KeyState::JustPressed
}

/// Get mouse position
pub fn get_mouse_position(sys: &InputSystem) -> (r: (i32, i32))
    ensures
        r == (sys@.mouse_x, sys@.mouse_y),
{
    (sys.mouse.x, sys.mouse.y)
}

/// Get mouse movement since last frame
pub fn get_mouse_delta(sys: &InputSystem) -> (r: (i32, i32))
    ensures
        r == (sys@.mouse_dx, sys@.mouse_dy),
{
    (sys.mouse.dx, sys.mouse.dy)
}

/// Check if a gamepad is connected
pub fn is_gamepad_connected(sys: &InputSystem, gamepad_id: usize) -> (r: bool)
    requires
        input_wf(sys@),
    ensures
        r == (gamepad_id < MAX_GAMEPADS && sys@.gamepad_connected[gamepad_id as int]),
{
    if gamepad_id >= MAX_GAMEPADS {
        return false;
    }
    sys.gamepad_connected[gamepad_id]
}

/// Check if a gamepad button is currently pressed
pub fn is_gamepad_button_down(sys: &InputSystem, gamepad_id: usize, button: usize) -> (r: bool)
    requires
        input_wf(sys@),
    ensures
        r == (gamepad_id < MAX_GAMEPADS && button < MAX_GAMEPAD_BUTTONS
            && is_down(sys@.gamepad_buttons[gamepad_id * 16 + button])),
{
    if gamepad_id >= MAX_GAMEPADS || button >= MAX_GAMEPAD_BUTTONS {
        return false;
    }
    let state = sys.gamepad_buttons[gamepad_id * 16 + button];
    state == KeyState::Pressed || state == KeyState::JustPressed
}

/// Adds an event at the back of the queue.
pub fn queue_input_event(sys: &mut InputSystem, event: InputEvent)
    ensures
        final(sys)@ == (InputView { queue: old(sys)@.queue.push(event), ..old(sys)@ }),
{
    sys.queue.push_back(event);
}

/// Takes the event at the front of the queue, if any.
pub fn poll_events(sys: &mut InputSystem) -> (r: Option<InputEvent>)
    ensures
        old(sys)@.queue.len() == 0 ==> r is None && final(sys)@ == old(sys)@,
        old(sys)@.queue.len() > 0 ==> r == Some(old(sys)@.queue[0])
            && final(sys)@ == (InputView { queue: old(sys)@.queue.drop_first(), ..old(sys)@ }),
{
    sys.queue.pop_front()
}

/// Empties the event queue.
pub fn clear_input_queue(sys: &mut InputSystem)
    ensures
        final(sys)@ == (InputView { queue: Seq::empty(), ..old(sys)@ }),
{
    sys.queue.clear();
}

/// Register a callback for raw input events: its handle joins the end of
/// the list that every raw event is handed to.
pub fn register_input_callback(sys: &mut InputSystem, callback: u64)
    ensures
        final(sys)@ == (InputView { callbacks: old(sys)@.callbacks.push(callback), ..old(sys)@ }),
{
    sys.callbacks.push(callback);
}

/// The handles of the registered callbacks, in the order they were
/// registered.
pub fn input_callbacks(sys: &InputSystem) -> (r: &[u64])
    ensures
        r@ == sys@.callbacks,
{
    sys.callbacks.as_slice()
}

pub fn create_key_press_event(key_code: usize) -> (e: InputEvent)
    ensures
        e == (InputEvent { event_type: InputEventType::KeyPress, device_id: 0, data: [key_code as u32, 0, 0, 0] }),
{
    InputEvent { event_type: InputEventType::KeyPress, device_id: 0, data: [key_code as u32, 0, 0, 0] }
}

pub fn create_key_release_event(key_code: usize) -> (e: InputEvent)
    ensures
        e == (InputEvent { event_type: InputEventType::KeyRelease, device_id: 0, data: [key_code as u32, 0, 0, 0] }),
{
    InputEvent { event_type: InputEventType::KeyRelease, device_id: 0, data: [key_code as u32, 0, 0, 0] }
}

pub fn create_mouse_move_event(x: i32, y: i32) -> (e: InputEvent)
    ensures
        e == (InputEvent { event_type: InputEventType::MouseMove, device_id: 0, data: [x as u32, y as u32, 0, 0] }),
{
    InputEvent { event_type: InputEventType::MouseMove, device_id: 0, data: [x as u32, y as u32, 0, 0] }
}

pub fn create_mouse_button_event(button: usize, pressed: bool) -> (e: InputEvent)
    ensures
        e == (InputEvent {
            event_type: InputEventType::MouseButton,
            device_id: 0,
            data: [button as u32, if pressed { 1u32 } else { 0u32 }, 0, 0],
        }),
{
    InputEvent { event_type: InputEventType::MouseButton, device_id: 0, data: [button as u32, if pressed { 1 } else { 0 }, 0, 0] }
}

pub fn create_gamepad_button_event(gamepad_id: usize, button: usize, pressed: bool) -> (e: InputEvent)
    ensures
        e == (InputEvent {
            event_type: InputEventType::GamepadButton,
            device_id: gamepad_id as u8,
            data: [gamepad_id as u32, button as u32, if pressed { 1u32 } else { 0u32 }, 0],
        }),
{
    InputEvent {
        event_type: InputEventType::GamepadButton,
        device_id: gamepad_id as u8,
        data: [gamepad_id as u32, button as u32, if pressed { 1 } else { 0 }, 0],
    }
}

pub fn create_gamepad_axis_event(gamepad_id: usize, axis: usize, value: i32) -> (e: InputEvent)
    ensures
        e == (InputEvent {
            event_type: InputEventType::GamepadAxis,
            device_id: gamepad_id as u8,
            data: [gamepad_id as u32, axis as u32, value as u32, 0],
        }),
{
    InputEvent {
        event_type: InputEventType::GamepadAxis,
        device_id: gamepad_id as u8,
        data: [gamepad_id as u32, axis as u32, value as u32, 0],
    }
}


/// The key press event for `key`.
pub open spec fn key_press_event(key: int) -> InputEvent {
    InputEvent { event_type: InputEventType::KeyPress, device_id: 0, data: [key as u32, 0, 0, 0] }
}

/// A key released at the last update and then pressed is reported just
/// pressed (and down) after the next update, and, still held, only pressed
/// after the one after.
pub proof fn lemma_press_reported_for_one_frame(v: InputView, key: int)
    requires
        input_wf(v),
        0 <= key < MAX_KEYS,
        v.prev_keyboard[key] == KeyState::Released || v.prev_keyboard[key] == KeyState::JustReleased,
    ensures
        updated(event_applied(v, key_press_event(key))).keyboard[key] == KeyState::JustPressed,
        is_down(updated(event_applied(v, key_press_event(key))).keyboard[key]),
        updated(updated(event_applied(v, key_press_event(key)))).keyboard[key] == KeyState::Pressed,
{
    let e = key_press_event(key);
    assert(e.data[0] as int == key);
    let w = event_applied(v, e);
    assert(w.keyboard[key] == KeyState::Pressed);
    assert(w.prev_keyboard == v.prev_keyboard);
    let u = updated(w);
    assert(u.keyboard[key] == frame_step(w.keyboard[key], w.prev_keyboard[key]).0);
    assert(u.prev_keyboard[key] == frame_step(w.keyboard[key], w.prev_keyboard[key]).1);
    assert(updated(u).keyboard[key] == frame_step(u.keyboard[key], u.prev_keyboard[key]).0);
}

/// A key down since the last update and then released is reported just
/// released after the next update.
pub proof fn lemma_release_reported_for_one_frame(v: InputView, key: int)
    requires
        input_wf(v),
        0 <= key < MAX_KEYS,
        v.keyboard[key] == KeyState::Pressed || v.keyboard[key] == KeyState::JustPressed,
        v.prev_keyboard[key] == v.keyboard[key],
    ensures
        updated(event_applied(v, InputEvent { event_type: InputEventType::KeyRelease, device_id: 0, data: [key as u32, 0, 0, 0] })).keyboard[key]
            == KeyState::JustReleased,
{
    let e = InputEvent { event_type: InputEventType::KeyRelease, device_id: 0, data: [key as u32, 0, 0, 0] };
    assert(e.data[0] as int == key);
    let w = event_applied(v, e);
    assert(w.keyboard[key] == KeyState::Released);
    let u = updated(w);
    assert(u.keyboard[key] == frame_step(w.keyboard[key], w.prev_keyboard[key]).0);
}

} // verus!
