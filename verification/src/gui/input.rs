//! Input state for the GUI: keys and mouse buttons pressed this frame, held
//! and released, the mouse position, and a queue of input events.
//!
//! The key and button sets are `hashbrown` sets of the keys' and buttons'
//! codes; the order in which a set hands out its members is the set's own,
//! so the events of one frame come in that order.

use vstd::prelude::*;
use std::collections::VecDeque;

verus! {

/// Represents different input states.
#[derive(Debug, Clone, Copy, PartialEq, Eq, Structural)]
pub enum InputState {
    Pressed,
    Released,
    Held,
}

/// Represents keyboard keys.
#[derive(Debug, Clone, Copy, PartialEq, Eq, Hash, Structural)]
pub enum Key {
    A,
    B,
    C,
    D,
    E,
    F,
    G,
    H,
    I,
    J,
    K,
    L,
    M,
    N,
    O,
    P,
    Q,
    R,
    S,
    T,
    U,
    V,
    W,
    X,
    Y,
    Z,
    Escape,
    Space,
    Enter,
    Backspace,
    Up,
    Down,
    Left,
    Right,
    Number0,
    Number1,
    Number2,
    Number3,
    Number4,
    Number5,
    Number6,
    Number7,
    Number8,
    Number9,
}

/// Represents mouse buttons.
#[derive(Debug, Clone, Copy, PartialEq, Eq, Hash, Structural)]
pub enum MouseButton {
    Left,
    Middle,
    Right,
}

/// An input event. Mouse positions are whole pixels.
#[derive(Debug, Clone, Copy, PartialEq, Eq, Structural)]
pub enum Event {
    KeyPress(Key),
    KeyRelease(Key),
    MouseMove(i32, i32),
    MousePress(MouseButton),
    MouseRelease(MouseButton),
    MouseScroll(i32),
    WindowResize(u32, u32),
    WindowClose,
    WindowFocus,
    WindowBlur,
    Quit,
}

/// The code of a key: its position in the declaration of `Key`.
pub open spec fn key_code(k: Key) -> u8 {
    match k {
        Key::A => 0,
        Key::B => 1,
        Key::C => 2,
        Key::D => 3,
        Key::E => 4,
        Key::F => 5,
        Key::G => 6,
        Key::H => 7,
        Key::I => 8,
        Key::J => 9,
        Key::K => 10,
        Key::L => 11,
        Key::M => 12,
        Key::N => 13,
        Key::O => 14,
        Key::P => 15,
        Key::Q => 16,
        Key::R => 17,
        Key::S => 18,
        Key::T => 19,
        Key::U => 20,
        Key::V => 21,
        Key::W => 22,
        Key::X => 23,
        Key::Y => 24,
        Key::Z => 25,
        Key::Escape => 26,
        Key::Space => 27,
        Key::Enter => 28,
        Key::Backspace => 29,
        Key::Up => 30,
        Key::Down => 31,
        Key::Left => 32,
        Key::Right => 33,
        Key::Number0 => 34,
        Key::Number1 => 35,
        Key::Number2 => 36,
        Key::Number3 => 37,
        Key::Number4 => 38,
        Key::Number5 => 39,
        Key::Number6 => 40,
        Key::Number7 => 41,
        Key::Number8 => 42,
        Key::Number9 => 43,
    }
}

/// The code of a mouse button: its position in the declaration.
pub open spec fn button_code(b: MouseButton) -> u8 {
    match b {
        MouseButton::Left => 0,
        MouseButton::Middle => 1,
        MouseButton::Right => 2,
    }
}

impl Key {
    /// The key's code (see `key_code`).
    pub fn code(self) -> (c: u8)
        ensures
            c == key_code(self),
    {
        match self {
            Key::A => 0,
            Key::B => 1,
            Key::C => 2,
            Key::D => 3,
            Key::E => 4,
            Key::F => 5,
            Key::G => 6,
            Key::H => 7,
            Key::I => 8,
            Key::J => 9,
            Key::K => 10,
            Key::L => 11,
            Key::M => 12,
            Key::N => 13,
            Key::O => 14,
            Key::P => 15,
            Key::Q => 16,
            Key::R => 17,
            Key::S => 18,
            Key::T => 19,
            Key::U => 20,
            Key::V => 21,
            Key::W => 22,
            Key::X => 23,
            Key::Y => 24,
            Key::Z => 25,
            Key::Escape => 26,
            Key::Space => 27,
            Key::Enter => 28,
            Key::Backspace => 29,
            Key::Up => 30,
            Key::Down => 31,
            Key::Left => 32,
            Key::Right => 33,
            Key::Number0 => 34,
            Key::Number1 => 35,
            Key::Number2 => 36,
            Key::Number3 => 37,
            Key::Number4 => 38,
            Key::Number5 => 39,
            Key::Number6 => 40,
            Key::Number7 => 41,
            Key::Number8 => 42,
            Key::Number9 => 43,
        }
    }

    /// The key with this code, if any.
    pub fn from_code(c: u8) -> (k: Option<Key>)
        ensures
            c < 44 ==> k == Some(key_of_code(c)),
            c >= 44 ==> k is None,
    {
        match c {
            0 => Some(Key::A),
            1 => Some(Key::B),
            2 => Some(Key::C),
            3 => Some(Key::D),
            4 => Some(Key::E),
            5 => Some(Key::F),
            6 => Some(Key::G),
            7 => Some(Key::H),
            8 => Some(Key::I),
            9 => Some(Key::J),
            10 => Some(Key::K),
            11 => Some(Key::L),
            12 => Some(Key::M),
            13 => Some(Key::N),
            14 => Some(Key::O),
            15 => Some(Key::P),
            16 => Some(Key::Q),
            17 => Some(Key::R),
            18 => Some(Key::S),
            19 => Some(Key::T),
            20 => Some(Key::U),
            21 => Some(Key::V),
            22 => Some(Key::W),
            23 => Some(Key::X),
            24 => Some(Key::Y),
            25 => Some(Key::Z),
            26 => Some(Key::Escape),
            27 => Some(Key::Space),
            28 => Some(Key::Enter),
            29 => Some(Key::Backspace),
            30 => Some(Key::Up),
            31 => Some(Key::Down),
            32 => Some(Key::Left),
            33 => Some(Key::Right),
            34 => Some(Key::Number0),
            35 => Some(Key::Number1),
            36 => Some(Key::Number2),
            37 => Some(Key::Number3),
            38 => Some(Key::Number4),
            39 => Some(Key::Number5),
            40 => Some(Key::Number6),
            41 => Some(Key::Number7),
            42 => Some(Key::Number8),
            43 => Some(Key::Number9),
            _ => None,
        }
    }
}

impl MouseButton {
    /// The button's code (see `button_code`).
    pub fn code(self) -> (c: u8)
        ensures
            c == button_code(self),
    {
        match self {
            MouseButton::Left => 0,
            MouseButton::Middle => 1,
            MouseButton::Right => 2,
        }
    }

    /// The button with this code, if any.
    pub fn from_code(c: u8) -> (b: Option<MouseButton>)
        ensures
            c < 3 ==> b == Some(button_of_code(c)),
            c >= 3 ==> b is None,
    {
        match c {
            0 => Some(MouseButton::Left),
            1 => Some(MouseButton::Middle),
            2 => Some(MouseButton::Right),
            _ => None,
        }
    }
}

// ---------------------------------------------------------------------------
// A set of codes, kept in a `hashbrown` set.

/// A set of key or button codes.
#[verifier::external_body]
pub struct CodeSet {
    inner: hashbrown::HashSet<u8>,
}

/// The codes a set holds.
pub uninterp spec fn codes(s: CodeSet) -> Set<u8>;

/// `hashbrown::HashSet::new`: an empty set.
#[verifier::external_body]
fn code_set_new() -> (s: CodeSet)
    ensures
        codes(s) == Set::<u8>::empty(),
{
    CodeSet { inner: hashbrown::HashSet::new() }
}

/// `hashbrown::HashSet::insert`: the code is in the set afterwards; the
/// result says whether it was not before.
#[verifier::external_body]
fn code_set_insert(s: &mut CodeSet, c: u8) -> (fresh: bool)
    ensures
        codes(*final(s)) == codes(*old(s)).insert(c),
        fresh == !codes(*old(s)).contains(c),
{
    s.inner.insert(c)
}

/// `hashbrown::HashSet::remove`: the code is not in the set afterwards; the
/// result says whether it was before.
#[verifier::external_body]
fn code_set_remove(s: &mut CodeSet, c: u8) -> (was: bool)
    ensures
        codes(*final(s)) == codes(*old(s)).remove(c),
        was == codes(*old(s)).contains(c),
{
    s.inner.remove(&c)
}

/// `hashbrown::HashSet::contains`.
#[verifier::external_body]
fn code_set_contains(s: &CodeSet, c: u8) -> (b: bool)
    ensures
        b == codes(*s).contains(c),
{
    s.inner.contains(&c)
}

/// `hashbrown::HashSet::clear`: the set is empty afterwards.
#[verifier::external_body]
fn code_set_clear(s: &mut CodeSet)
    ensures
        codes(*final(s)) == Set::<u8>::empty(),
{
    s.inner.clear()
}

/// `hashbrown::HashSet::iter`, collected: each member once, in the set's
/// own order, which nothing here fixes.
#[verifier::external_body]
fn code_set_members(s: &CodeSet) -> (v: Vec<u8>)
    ensures
        v@.to_set() == codes(*s),
        v@.no_duplicates(),
{
    s.inner.iter().copied().collect()
}

/// What an input manager holds.
pub struct InputView {
    pub pressed_keys: Set<u8>,
    pub held_keys: Set<u8>,
    pub released_keys: Set<u8>,
    pub mouse_position: (i32, i32),
    pub last_mouse_position: (i32, i32),
    pub pressed_buttons: Set<u8>,
    pub held_buttons: Set<u8>,
    pub released_buttons: Set<u8>,
    pub events: Seq<Event>,
}

/// Manages input state for the GUI.
pub struct InputManager {
    pressed_keys: CodeSet,
    held_keys: CodeSet,
    released_keys: CodeSet,
    mouse_position: (i32, i32),
    last_mouse_position: (i32, i32),
    pressed_mouse_buttons: CodeSet,
    held_mouse_buttons: CodeSet,
    released_mouse_buttons: CodeSet,
    event_queue: VecDeque<Event>,
}

impl View for InputManager {
    type V = InputView;

    closed spec fn view(&self) -> InputView {
        InputView {
            pressed_keys: codes(self.pressed_keys),
            held_keys: codes(self.held_keys),
            released_keys: codes(self.released_keys),
            mouse_position: self.mouse_position,
            last_mouse_position: self.last_mouse_position,
            pressed_buttons: codes(self.pressed_mouse_buttons),
            held_buttons: codes(self.held_mouse_buttons),
            released_buttons: codes(self.released_mouse_buttons),
            events: self.event_queue@,
        }
    }
}

/// The codes of `keys`, as a set.
pub open spec fn key_codes(keys: Seq<Key>) -> Set<u8> {
    keys.map_values(|k: Key| key_code(k)).to_set()
}

/// The codes of `buttons`, as a set.
pub open spec fn button_codes(buttons: Seq<MouseButton>) -> Set<u8> {
    buttons.map_values(|b: MouseButton| button_code(b)).to_set()
}

/// The event for code `c` of a group: 0 key presses, 1 key releases,
/// 2 button presses, 3 button releases.
pub open spec fn event_for(kind: int, c: u8) -> Event {
    if kind == 0 {
        Event::KeyPress(key_of_code(c))
    } else if kind == 1 {
        Event::KeyRelease(key_of_code(c))
    } else if kind == 2 {
        Event::MousePress(button_of_code(c))
    } else {
        Event::MouseRelease(button_of_code(c))
    }
}

/// The events of a group for `order`, in order.
pub open spec fn events_for(order: Seq<u8>, kind: int) -> Seq<Event> {
    order.map_values(|c: u8| event_for(kind, c))
}

/// `events` are one event of the group per member of `set`, in some order.
pub open spec fn one_event_each(events: Seq<Event>, set: Set<u8>, kind: int) -> bool {
    exists|order: Seq<u8>|
        #![trigger events_for(order, kind)]
        order.to_set() == set && order.no_duplicates() && events == events_for(order, kind)
}

/// The key with code `c` (the last key for codes past the last).
pub open spec fn key_of_code(c: u8) -> Key {
    if c == 0 {
        Key::A
    } else if c == 1 {
        Key::B
    } else if c == 2 {
        Key::C
    } else if c == 3 {
        Key::D
    } else if c == 4 {
        Key::E
    } else if c == 5 {
        Key::F
    } else if c == 6 {
        Key::G
    } else if c == 7 {
        Key::H
    } else if c == 8 {
        Key::I
    } else if c == 9 {
        Key::J
    } else if c == 10 {
        Key::K
    } else if c == 11 {
        Key::L
    } else if c == 12 {
        Key::M
    } else if c == 13 {
        Key::N
    } else if c == 14 {
        Key::O
    } else if c == 15 {
        Key::P
    } else if c == 16 {
        Key::Q
    } else if c == 17 {
        Key::R
    } else if c == 18 {
        Key::S
    } else if c == 19 {
        Key::T
    } else if c == 20 {
        Key::U
    } else if c == 21 {
        Key::V
    } else if c == 22 {
        Key::W
    } else if c == 23 {
        Key::X
    } else if c == 24 {
        Key::Y
    } else if c == 25 {
        Key::Z
    } else if c == 26 {
        Key::Escape
    } else if c == 27 {
        Key::Space
    } else if c == 28 {
        Key::Enter
    } else if c == 29 {
        Key::Backspace
    } else if c == 30 {
        Key::Up
    } else if c == 31 {
        Key::Down
    } else if c == 32 {
        Key::Left
    } else if c == 33 {
        Key::Right
    } else if c == 34 {
        Key::Number0
    } else if c == 35 {
        Key::Number1
    } else if c == 36 {
        Key::Number2
    } else if c == 37 {
        Key::Number3
    } else if c == 38 {
        Key::Number4
    } else if c == 39 {
        Key::Number5
    } else if c == 40 {
        Key::Number6
    } else if c == 41 {
        Key::Number7
    } else if c == 42 {
        Key::Number8
    } else {
        Key::Number9
    }
}

/// The button with code `c` (the last button for codes past the last).
pub open spec fn button_of_code(c: u8) -> MouseButton {
    if c == 0 {
        MouseButton::Left
    } else if c == 1 {
        MouseButton::Middle
    } else {
        MouseButton::Right
    }
}

/// Decoding a key's code gives the key back.
pub proof fn lemma_key_code_round_trip(k: Key)
    ensures
        key_of_code(key_code(k)) == k,
        key_code(k) < 44,
{
}

/// Decoding a button's code gives the button back.
pub proof fn lemma_button_code_round_trip(b: MouseButton)
    ensures
        button_of_code(button_code(b)) == b,
        button_code(b) < 3,
{
}

/// Every key code names a key, every button code a button.
pub open spec fn codes_ok(v: InputView) -> bool {
    &&& forall|c: u8| #[trigger] v.pressed_keys.contains(c) ==> c < 44
    &&& forall|c: u8| #[trigger] v.held_keys.contains(c) ==> c < 44
    &&& forall|c: u8| #[trigger] v.released_keys.contains(c) ==> c < 44
    &&& forall|c: u8| #[trigger] v.pressed_buttons.contains(c) ==> c < 3
    &&& forall|c: u8| #[trigger] v.held_buttons.contains(c) ==> c < 3
    &&& forall|c: u8| #[trigger] v.released_buttons.contains(c) ==> c < 3
}

/// A frame's update: the mouse position is remembered; each key pressed this
/// frame becomes a key-press event and is held; each key released becomes a
/// key-release event; buttons the same; the pressed and released sets are
/// emptied; and a mouse-move event follows where the position changed since
/// the last frame (it never does within one update: the position is read
/// back right after being remembered). Within each group, the events come in
/// the sets' own order.
pub open spec fn updated(old_v: InputView, new_v: InputView) -> bool {
    exists|kp: Seq<Event>, kr: Seq<Event>, bp: Seq<Event>, br: Seq<Event>|
        {
            &&& one_event_each(kp, old_v.pressed_keys, 0)
            &&& one_event_each(kr, old_v.released_keys, 1)
            &&& one_event_each(bp, old_v.pressed_buttons, 2)
            &&& one_event_each(br, old_v.released_buttons, 3)
            &&& new_v.events == old_v.events + kp + kr + bp + br
        }
        && new_v.pressed_keys == Set::<u8>::empty()
        && new_v.released_keys == Set::<u8>::empty()
        && new_v.held_keys == old_v.held_keys.union(old_v.pressed_keys)
        && new_v.pressed_buttons == Set::<u8>::empty()
        && new_v.released_buttons == Set::<u8>::empty()
        && new_v.held_buttons == old_v.held_buttons.union(old_v.pressed_buttons)
        && new_v.mouse_position == old_v.mouse_position
        && new_v.last_mouse_position == old_v.mouse_position
}

/// The key a hardware scancode stands for: letters, Escape, Space, Enter,
/// Backspace, the arrows Down, Left and Right (which share their codes with
/// keypad 2, 4 and 6), and keypad digits 0, 1, 3, 5, 7, 8 (0x48 and 0x49)
/// and 9.
pub open spec fn scancode_key(scancode: u8) -> Option<Key> {
    if scancode == 0x01 { Some(Key::Escape) }
    else if scancode == 0x1E { Some(Key::A) }
    else if scancode == 0x30 { Some(Key::B) }
    else if scancode == 0x2E { Some(Key::C) }
    else if scancode == 0x20 { Some(Key::D) }
    else if scancode == 0x12 { Some(Key::E) }
    else if scancode == 0x21 { Some(Key::F) }
    else if scancode == 0x22 { Some(Key::G) }
    else if scancode == 0x23 { Some(Key::H) }
    else if scancode == 0x17 { Some(Key::I) }
    else if scancode == 0x24 { Some(Key::J) }
    else if scancode == 0x25 { Some(Key::K) }
    else if scancode == 0x26 { Some(Key::L) }
    else if scancode == 0x32 { Some(Key::M) }
    else if scancode == 0x31 { Some(Key::N) }
    else if scancode == 0x18 { Some(Key::O) }
    else if scancode == 0x19 { Some(Key::P) }
    else if scancode == 0x10 { Some(Key::Q) }
    else if scancode == 0x13 { Some(Key::R) }
    else if scancode == 0x1F { Some(Key::S) }
    else if scancode == 0x14 { Some(Key::T) }
    else if scancode == 0x16 { Some(Key::U) }
    else if scancode == 0x2F { Some(Key::V) }
    else if scancode == 0x11 { Some(Key::W) }
    else if scancode == 0x2D { Some(Key::X) }
    else if scancode == 0x15 { Some(Key::Y) }
    else if scancode == 0x2C { Some(Key::Z) }
    else if scancode == 0x39 { Some(Key::Space) }
    else if scancode == 0x1C { Some(Key::Enter) }
    else if scancode == 0x0E { Some(Key::Backspace) }
    else if scancode == 0x50 { Some(Key::Down) }
    else if scancode == 0x4B { Some(Key::Left) }
    else if scancode == 0x4D { Some(Key::Right) }
    else if scancode == 0x52 { Some(Key::Number0) }
    else if scancode == 0x4F { Some(Key::Number1) }
    else if scancode == 0x51 { Some(Key::Number3) }
    else if scancode == 0x4C { Some(Key::Number5) }
    else if scancode == 0x47 { Some(Key::Number7) }
    else if scancode == 0x48 { Some(Key::Number8) }
    else if scancode == 0x4A { Some(Key::Number9) }
    else if scancode == 0x49 { Some(Key::Number8) }
    else { None }
}

/// The mouse button a hardware button id stands for: 0 left, 1 right,
/// 2 middle.
pub open spec fn button_for_id(button_id: u8) -> Option<MouseButton> {
    if button_id == 0 {
        Some(MouseButton::Left)
    } else if button_id == 1 {
        Some(MouseButton::Right)
    } else if button_id == 2 {
        Some(MouseButton::Middle)
    } else {
        None
    }
}

/// The bit that the first byte of a PS/2 mouse packet gives each button:
/// bit 0 left, bit 1 right, bit 2 middle.
pub open spec fn ps2_button_bit(b: MouseButton) -> u8 {
    match b {
        MouseButton::Left => 0,
        MouseButton::Right => 1,
        MouseButton::Middle => 2,
    }
}

/// A hardware button id is a button's bit in the PS/2 packet: an id names
/// a button exactly when it is below 3, and then the button whose bit it
/// is, so no two ids name the same button.
pub proof fn lemma_button_ids_follow_ps2_bits(id: u8, b: MouseButton)
    ensures
        button_for_id(id) == Some(b) <==> id == ps2_button_bit(b),
        button_for_id(id) is None <==> id >= 3,
{
}

/// The state after a key release: a key held or pressed is released (taken
/// out of the held set, or else of the pressed set); another is ignored.
pub open spec fn key_released(v: InputView, c: u8) -> InputView {
    if v.held_keys.contains(c) {
        InputView { held_keys: v.held_keys.remove(c), released_keys: v.released_keys.insert(c), ..v }
    } else if v.pressed_keys.contains(c) {
        InputView { pressed_keys: v.pressed_keys.remove(c), released_keys: v.released_keys.insert(c), ..v }
    } else {
        v
    }
}

/// The state after a button release, as for keys.
pub open spec fn button_released(v: InputView, c: u8) -> InputView {
    if v.held_buttons.contains(c) {
        InputView { held_buttons: v.held_buttons.remove(c), released_buttons: v.released_buttons.insert(c), ..v }
    } else if v.pressed_buttons.contains(c) {
        InputView {
            pressed_buttons: v.pressed_buttons.remove(c),
            released_buttons: v.released_buttons.insert(c),
            ..v
        }
    } else {
        v
    }
}

impl InputManager {
    /// Creates a new InputManager: nothing pressed, the mouse at (0, 0), no
    /// event.
    pub fn new() -> (m: Self)
        ensures
            codes_ok(m@),
            m@ == (InputView {
                pressed_keys: Set::empty(),
                held_keys: Set::empty(),
                released_keys: Set::empty(),
                mouse_position: (0, 0),
                last_mouse_position: (0, 0),
                pressed_buttons: Set::empty(),
                held_buttons: Set::empty(),
                released_buttons: Set::empty(),
                events: Seq::empty(),
            }),
    {
        Self {
            pressed_keys: code_set_new(),
            held_keys: code_set_new(),
            released_keys: code_set_new(),
            mouse_position: (0, 0),
            last_mouse_position: (0, 0),
            pressed_mouse_buttons: code_set_new(),
            held_mouse_buttons: code_set_new(),
            released_mouse_buttons: code_set_new(),
            event_queue: VecDeque::new(),
        }
    }

    /// Queue one event per member of `set` (see `event_for`), noting each
    /// code in `also` where given; returns nothing.
    fn queue_group(queue: &mut VecDeque<Event>, members: &Vec<u8>, kind: u8)
        requires
            kind < 4,
            forall|k: int| 0 <= k < members@.len() ==> #[trigger] members@[k] < if kind < 2 { 44u8 } else { 3u8 },
        ensures
            final(queue)@ == old(queue)@ + events_for(members@, kind as int),
    {
        let mut i: usize = 0;
        while i < members.len()
            invariant
                0 <= i <= members@.len(),
                kind < 4,
                forall|k: int| 0 <= k < members@.len() ==> #[trigger] members@[k] < if kind < 2 { 44u8 } else { 3u8 },
                queue@ == old(queue)@ + events_for(members@.take(i as int), kind as int),
            decreases members@.len() - i,
        {
            let c = members[i];
            let ghost before = queue@;
            if kind < 2 {
                match Key::from_code(c) {
                    Some(key) => {
                        if kind == 0 {
                            queue.push_back(Event::KeyPress(key));
                        } else {
                            queue.push_back(Event::KeyRelease(key));
                        }
                    },
                    None => {},
                }
            } else {
                match MouseButton::from_code(c) {
                    Some(b) => {
                        if kind == 2 {
                            queue.push_back(Event::MousePress(b));
                        } else {
                            queue.push_back(Event::MouseRelease(b));
                        }
                    },
                    None => {},
                }
            }
            assert(queue@ == before.push(event_for(kind as int, c)));
            assert(events_for(members@.take(i + 1), kind as int) =~= events_for(members@.take(i as int), kind as int).push(
                event_for(kind as int, c),
            ));
            i += 1;
        }
        assert(members@.take(members@.len() as int) =~= members@);
    }

    /// Add every member of `members` to `set`.
    fn add_all(set: &mut CodeSet, members: &Vec<u8>)
        ensures
            codes(*final(set)) == codes(*old(set)).union(members@.to_set()),
    {
        let mut i: usize = 0;
        while i < members.len()
            invariant
                0 <= i <= members@.len(),
                codes(*set) == codes(*old(set)).union(members@.take(i as int).to_set()),
            decreases members@.len() - i,
        {
            code_set_insert(set, members[i]);
            assert(members@.take(i + 1) =~= members@.take(i as int).push(members@[i as int]));
            proof {
                members@.take(i as int).lemma_push_to_set_commute(members@[i as int]);
            }
            assert(codes(*set) =~= codes(*old(set)).union(members@.take(i + 1).to_set()));
            i += 1;
        }
        assert(members@.take(members@.len() as int) =~= members@);
    }

    /// Updates the input state for the next frame (see `updated`).
    pub fn update(&mut self)
        requires
            codes_ok(old(self)@),
        ensures
            codes_ok(final(self)@),
            updated(old(self)@, final(self)@),
    {
        self.last_mouse_position = self.mouse_position;
        assert(self@ == (InputView { last_mouse_position: old(self)@.mouse_position, ..old(self)@ }));
        self.poll_hardware_events();
        let ghost v0 = self@;
        let ghost ev0 = self.event_queue@;

        let pressed = code_set_members(&self.pressed_keys);
        assert forall|k: int| 0 <= k < pressed@.len() implies #[trigger] pressed@[k] < 44u8 by {
            assert(pressed@.contains(pressed@[k]));
            assert(pressed@.to_set().contains(pressed@[k]));
            assert(self@.pressed_keys.contains(pressed@[k]));
        }
        Self::queue_group(&mut self.event_queue, &pressed, 0);
        Self::add_all(&mut self.held_keys, &pressed);
        code_set_clear(&mut self.pressed_keys);
        let ghost ev1 = self.event_queue@;

        let released = code_set_members(&self.released_keys);
        assert forall|k: int| 0 <= k < released@.len() implies #[trigger] released@[k] < 44u8 by {
            assert(released@.contains(released@[k]));
            assert(released@.to_set().contains(released@[k]));
            assert(codes(self.released_keys) == v0.released_keys);
            assert(v0.released_keys.contains(released@[k]));
        }
        Self::queue_group(&mut self.event_queue, &released, 1);
        code_set_clear(&mut self.released_keys);
        let ghost ev2 = self.event_queue@;

        let pressed_buttons = code_set_members(&self.pressed_mouse_buttons);
        assert forall|k: int| 0 <= k < pressed_buttons@.len() implies #[trigger] pressed_buttons@[k] < 3u8 by {
            assert(pressed_buttons@.contains(pressed_buttons@[k]));
            assert(pressed_buttons@.to_set().contains(pressed_buttons@[k]));
            assert(codes(self.pressed_mouse_buttons) == v0.pressed_buttons);
            assert(v0.pressed_buttons.contains(pressed_buttons@[k]));
        }
        Self::queue_group(&mut self.event_queue, &pressed_buttons, 2);
        Self::add_all(&mut self.held_mouse_buttons, &pressed_buttons);
        code_set_clear(&mut self.pressed_mouse_buttons);

        let released_buttons = code_set_members(&self.released_mouse_buttons);
        assert forall|k: int| 0 <= k < released_buttons@.len() implies #[trigger] released_buttons@[k] < 3u8 by {
            assert(released_buttons@.contains(released_buttons@[k]));
            assert(released_buttons@.to_set().contains(released_buttons@[k]));
            assert(codes(self.released_mouse_buttons) == v0.released_buttons);
            assert(v0.released_buttons.contains(released_buttons@[k]));
        }
        Self::queue_group(&mut self.event_queue, &released_buttons, 3);
        code_set_clear(&mut self.released_mouse_buttons);

        if self.mouse_position.0 != self.last_mouse_position.0 || self.mouse_position.1
            != self.last_mouse_position.1 {
            self.event_queue.push_back(Event::MouseMove(self.mouse_position.0, self.mouse_position.1));
        }
        proof {
            let kp = events_for(pressed@, 0);
            let kr = events_for(released@, 1);
            let bp = events_for(pressed_buttons@, 2);
            let br = events_for(released_buttons@, 3);
            assert(one_event_each(kp, v0.pressed_keys, 0));
            assert(one_event_each(kr, v0.released_keys, 1));
            assert(one_event_each(bp, v0.pressed_buttons, 2));
            assert(one_event_each(br, v0.released_buttons, 3));
            assert(self@.events =~= v0.events + kp + kr + bp + br);
        }
    }

    /// Poll the hardware for input and process what it reports.
    #[verifier::loop_isolation(false)]
    fn poll_hardware_events(&mut self)
        requires
            codes_ok(old(self)@),
        ensures
            codes_ok(final(self)@),
            final(self)@ == old(self)@,
    {
        if let Some(raw_events) = self.read_hardware_input_buffer() {
            let mut i: usize = 0;
            while i < raw_events.len()
                invariant
                    0 <= i <= raw_events@.len(),
                    codes_ok(self@),
                decreases raw_events@.len() - i,
            {
                match raw_events[i] {
                    Event::KeyPress(key) => self.process_key_press(key),
                    Event::KeyRelease(key) => self.process_key_release(key),
                    Event::MouseMove(x, y) => self.process_mouse_move(x, y),
                    Event::MousePress(button) => self.process_mouse_button_press(button),
                    Event::MouseRelease(button) => self.process_mouse_button_release(button),
                    Event::MouseScroll(delta) => self.process_mouse_scroll(delta),
                    Event::WindowResize(width, height) => self.process_window_resize(width, height),
                    Event::WindowClose => self.process_window_close(),
                    Event::WindowFocus => self.process_window_focus(),
                    Event::WindowBlur => self.process_window_blur(),
                    Event::Quit => self.event_queue.push_back(Event::Quit),
                }
                i += 1;
            }
        }
    }

    /// Processes a keyboard key press: the key is pressed this frame.
    pub fn process_key_press(&mut self, key: Key)
        requires
            codes_ok(old(self)@),
        ensures
            codes_ok(final(self)@),
            final(self)@ == (InputView { pressed_keys: old(self)@.pressed_keys.insert(key_code(key)), ..old(self)@ }),
    {
        proof {
            lemma_key_code_round_trip(key);
        }
        code_set_insert(&mut self.pressed_keys, key.code());
        assert(codes(self.held_keys) == old(self)@.held_keys);
        assert(codes(self.pressed_keys) == old(self)@.pressed_keys.insert(key_code(key)));
        assert(self.event_queue@ == old(self)@.events);
    }

    /// What the hardware input buffer holds: nothing is read yet.
    fn read_hardware_input_buffer(&self) -> (r: Option<Vec<Event>>)
        ensures
            r is None,
    {
        None
    }

    /// Map a hardware scancode to a key (see `scancode_key`).
    pub fn scancode_to_key(&self, scancode: u8) -> (k: Option<Key>)
        ensures
            k == scancode_key(scancode),
    {
        match scancode {
            0x01 => Some(Key::Escape),
            0x1E => Some(Key::A),
            0x30 => Some(Key::B),
            0x2E => Some(Key::C),
            0x20 => Some(Key::D),
            0x12 => Some(Key::E),
            0x21 => Some(Key::F),
            0x22 => Some(Key::G),
            0x23 => Some(Key::H),
            0x17 => Some(Key::I),
            0x24 => Some(Key::J),
            0x25 => Some(Key::K),
            0x26 => Some(Key::L),
            0x32 => Some(Key::M),
            0x31 => Some(Key::N),
            0x18 => Some(Key::O),
            0x19 => Some(Key::P),
            0x10 => Some(Key::Q),
            0x13 => Some(Key::R),
            0x1F => Some(Key::S),
            0x14 => Some(Key::T),
            0x16 => Some(Key::U),
            0x2F => Some(Key::V),
            0x11 => Some(Key::W),
            0x2D => Some(Key::X),
            0x15 => Some(Key::Y),
            0x2C => Some(Key::Z),
            0x39 => Some(Key::Space),
            0x1C => Some(Key::Enter),
            0x0E => Some(Key::Backspace),
            0x50 => Some(Key::Down),
            0x4B => Some(Key::Left),
            0x4D => Some(Key::Right),
            0x52 => Some(Key::Number0),
            0x4F => Some(Key::Number1),
            0x51 => Some(Key::Number3),
            0x4C => Some(Key::Number5),
            0x47 => Some(Key::Number7),
            0x48 => Some(Key::Number8),
            0x4A => Some(Key::Number9),
            0x49 => Some(Key::Number8),
            _ => None,
        }
    }

    /// Processes a keyboard key release (see `key_released`).
    pub fn process_key_release(&mut self, key: Key)
        requires
            codes_ok(old(self)@),
        ensures
            codes_ok(final(self)@),
            final(self)@ == key_released(old(self)@, key_code(key)),
    {
        proof {
            lemma_key_code_round_trip(key);
        }
        let c = key.code();
        let was_held = code_set_remove(&mut self.held_keys, c);
        let was_pressed = if was_held {
            false
        } else {
            code_set_remove(&mut self.pressed_keys, c)
        };
        if was_held || was_pressed {
            code_set_insert(&mut self.released_keys, c);
        }
        proof {
            let v = old(self)@;
            if was_held {
                assert(self@.held_keys == v.held_keys.remove(c));
                assert(self@.pressed_keys == v.pressed_keys);
                assert(self@.released_keys == v.released_keys.insert(c));
                assert(self@ == key_released(v, c));
            } else {
                assert(codes(self.held_keys) =~= v.held_keys);
                if !was_pressed {
                    assert(codes(self.pressed_keys) =~= v.pressed_keys);
                    assert(self@ == key_released(v, c));
                } else {
                    assert(self@ == key_released(v, c));
                }
            }
        }
    }

    /// Queue a scroll event.
    pub fn process_mouse_scroll(&mut self, delta: i32)
        ensures
            final(self)@ == (InputView { events: old(self)@.events.push(Event::MouseScroll(delta)), ..old(self)@ }),
    {
        self.event_queue.push_back(Event::MouseScroll(delta));
    }

    /// Queue a resize event.
    pub fn process_window_resize(&mut self, width: u32, height: u32)
        ensures
            final(self)@ == (InputView {
                events: old(self)@.events.push(Event::WindowResize(width, height)),
                ..old(self)@
            }),
    {
        self.event_queue.push_back(Event::WindowResize(width, height));
    }

    /// Queue a close event.
    pub fn process_window_close(&mut self)
        ensures
            final(self)@ == (InputView { events: old(self)@.events.push(Event::WindowClose), ..old(self)@ }),
    {
        self.event_queue.push_back(Event::WindowClose);
    }

    /// Queue a focus event.
    pub fn process_window_focus(&mut self)
        ensures
            final(self)@ == (InputView { events: old(self)@.events.push(Event::WindowFocus), ..old(self)@ }),
    {
        self.event_queue.push_back(Event::WindowFocus);
    }

    /// Queue a blur event.
    pub fn process_window_blur(&mut self)
        ensures
            final(self)@ == (InputView { events: old(self)@.events.push(Event::WindowBlur), ..old(self)@ }),
    {
        self.event_queue.push_back(Event::WindowBlur);
    }

    /// Map a hardware button id to a mouse button (see `button_for_id`).
    pub fn button_id_to_mouse_button(&self, button_id: u8) -> (b: Option<MouseButton>)
        ensures
            b == button_for_id(button_id),
    {
        match button_id {
            0 => Some(MouseButton::Left),
            1 => Some(MouseButton::Right),
            2 => Some(MouseButton::Middle),
            _ => None,
        }
    }

    /// Processes mouse movement: the new position.
    pub fn process_mouse_move(&mut self, x: i32, y: i32)
        ensures
            final(self)@ == (InputView { mouse_position: (x, y), ..old(self)@ }),
    {
        self.mouse_position = (x, y);
    }

    /// Processes a mouse button press: the button is pressed this frame.
    pub fn process_mouse_button_press(&mut self, button: MouseButton)
        requires
            codes_ok(old(self)@),
        ensures
            codes_ok(final(self)@),
            final(self)@ == (InputView {
                pressed_buttons: old(self)@.pressed_buttons.insert(button_code(button)),
                ..old(self)@
            }),
    {
        proof {
            lemma_button_code_round_trip(button);
        }
        code_set_insert(&mut self.pressed_mouse_buttons, button.code());
        assert(codes(self.held_mouse_buttons) == old(self)@.held_buttons);
        assert(codes(self.pressed_mouse_buttons) == old(self)@.pressed_buttons.insert(button_code(button)));
        assert(self.event_queue@ == old(self)@.events);
    }

    /// Processes a mouse button release (see `button_released`).
    pub fn process_mouse_button_release(&mut self, button: MouseButton)
        requires
            codes_ok(old(self)@),
        ensures
            codes_ok(final(self)@),
            final(self)@ == button_released(old(self)@, button_code(button)),
    {
        proof {
            lemma_button_code_round_trip(button);
        }
        let c = button.code();
        let was_held = code_set_remove(&mut self.held_mouse_buttons, c);
        let was_pressed = if was_held {
            false
        } else {
            code_set_remove(&mut self.pressed_mouse_buttons, c)
        };
        if was_held || was_pressed {
            code_set_insert(&mut self.released_mouse_buttons, c);
        }
        proof {
            let v = old(self)@;
            if was_held {
                assert(self@.held_buttons == v.held_buttons.remove(c));
                assert(self@.pressed_buttons == v.pressed_buttons);
                assert(self@.released_buttons == v.released_buttons.insert(c));
                assert(self@ == button_released(v, c));
            } else {
                assert(codes(self.held_mouse_buttons) =~= v.held_buttons);
                if !was_pressed {
                    assert(codes(self.pressed_mouse_buttons) =~= v.pressed_buttons);
                    assert(self@ == button_released(v, c));
                } else {
                    assert(self@ == button_released(v, c));
                }
            }
        }
    }

    /// Checks if a key was pressed this frame.
    pub fn is_key_pressed(&self, key: Key) -> (b: bool)
        ensures
            b == self@.pressed_keys.contains(key_code(key)),
    {
        code_set_contains(&self.pressed_keys, key.code())
    }

    /// Checks if a key is held down.
    pub fn is_key_held(&self, key: Key) -> (b: bool)
        ensures
            b == self@.held_keys.contains(key_code(key)),
    {
        code_set_contains(&self.held_keys, key.code())
    }

    /// Checks if a key was released this frame.
    pub fn is_key_released(&self, key: Key) -> (b: bool)
        ensures
            b == self@.released_keys.contains(key_code(key)),
    {
        code_set_contains(&self.released_keys, key.code())
    }

    /// Gets the current mouse position.
    pub fn get_mouse_position(&self) -> (p: (i32, i32))
        ensures
            p == self@.mouse_position,
    {
        self.mouse_position
    }

    /// Checks if a mouse button was pressed this frame.
    pub fn is_mouse_button_pressed(&self, button: MouseButton) -> (b: bool)
        ensures
            b == self@.pressed_buttons.contains(button_code(button)),
    {
        code_set_contains(&self.pressed_mouse_buttons, button.code())
    }

    /// Checks if a mouse button is held down.
    pub fn is_mouse_button_held(&self, button: MouseButton) -> (b: bool)
        ensures
            b == self@.held_buttons.contains(button_code(button)),
    {
        code_set_contains(&self.held_mouse_buttons, button.code())
    }

    /// Checks if a mouse button was released this frame.
    pub fn is_mouse_button_released(&self, button: MouseButton) -> (b: bool)
        ensures
            b == self@.released_buttons.contains(button_code(button)),
    {
        code_set_contains(&self.released_mouse_buttons, button.code())
    }

    /// Take the oldest queued event.
    pub fn next_event(&mut self) -> (e: Option<Event>)
        ensures
            old(self)@.events.len() == 0 ==> e is None && final(self)@ == old(self)@,
            old(self)@.events.len() > 0 ==> e == Some(old(self)@.events[0]) && final(self)@ == (InputView {
                events: old(self)@.events.drop_first(),
                ..old(self)@
            }),
    {
        let e = self.event_queue.pop_front();
        proof {
            if old(self)@.events.len() > 0 {
                assert(self@.events =~= old(self)@.events.drop_first());
            }
        }
        e
    }

    /// Check if there are any events in the queue
    pub fn has_events(&self) -> (b: bool)
        ensures
            b == (self@.events.len() > 0),
    {
        self.event_queue.len() != 0
    }

    /// Add a custom event to the queue
    pub fn push_event(&mut self, event: Event)
        ensures
            final(self)@ == (InputView { events: old(self)@.events.push(event), ..old(self)@ }),
    {
        self.event_queue.push_back(event);
    }

    /// Clear the event queue
    pub fn clear_events(&mut self)
        ensures
            final(self)@ == (InputView { events: Seq::empty(), ..old(self)@ }),
    {
        self.event_queue.clear();
    }
}

/// A key pressed and then released in the same frame is reported released,
/// and no longer pressed.
pub proof fn lemma_press_then_release(v: InputView, k: Key)
    requires
        !v.held_keys.contains(key_code(k)),
    ensures
        ({
            let c = key_code(k);
            let w = key_released(InputView { pressed_keys: v.pressed_keys.insert(c), ..v }, c);
            &&& w.released_keys.contains(c)
            &&& !w.pressed_keys.contains(c)
        }),
{
}

/// After an update, a key that was pressed is held and no longer pressed.
pub proof fn lemma_update_holds_pressed(v: InputView, w: InputView, k: Key)
    requires
        updated(v, w),
        v.pressed_keys.contains(key_code(k)),
    ensures
        w.held_keys.contains(key_code(k)),
        !w.pressed_keys.contains(key_code(k)),
{
}

} // verus!
