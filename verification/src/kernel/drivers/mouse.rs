//! PS/2 mouse: packet assembly and decoding into a pointer position on an
//! 800x600 screen, and the change events drawn from it.

use vstd::prelude::*;

verus! {

#[derive(Clone, Copy, PartialEq, Eq, Structural)]
pub struct MouseState {
    pub x: i32,
    pub y: i32,
    pub buttons: u8,
    pub scroll_wheel: i8,
    pub relative_x: i32,
    pub relative_y: i32,
}

impl MouseState {
    pub fn new() -> (s: Self)
        ensures
            s == (MouseState { x: 0, y: 0, buttons: 0, scroll_wheel: 0, relative_x: 0, relative_y: 0 }),
    {
        Self { x: 0, y: 0, buttons: 0, scroll_wheel: 0, relative_x: 0, relative_y: 0 }
    }
}

/// The pointer lies on the 800x600 screen.
pub open spec fn on_screen(s: MouseState) -> bool {
    0 <= s.x <= 799 && 0 <= s.y <= 599
}

/// The mouse: its state and the packet being assembled.
pub struct Mouse {
    state: MouseState,
    cycle: u8,
    packet: [u8; 3],
}

/// The mouse as the contracts see it.
pub struct MouseView {
    pub state: MouseState,
    pub cycle: u8,
    pub packet: Seq<u8>,
}

impl View for Mouse {
    type V = MouseView;

    closed spec fn view(&self) -> MouseView {
        MouseView { state: self.state, cycle: self.cycle, packet: self.packet@ }
    }
}

pub open spec fn clamp_i(v: int, lo: int, hi: int) -> int {
    if v < lo { lo } else if v > hi { hi } else { v }
}

/// The state after a complete packet: an overflowing packet is dropped;
/// otherwise the buttons are taken and the pointer moves by the signed
/// 9-bit deltas, kept on the screen.
pub open spec fn packet_applied(s: MouseState, p: Seq<u8>) -> MouseState {
    if p[0] & 0x80 != 0 || p[0] & 0x40 != 0 {
        s
    } else {
        let dx: int = if p[0] & 0x10 != 0 { p[1] - 256 } else { p[1] as int };
        let dy: int = if p[0] & 0x20 != 0 { 256 - p[2] } else { -(p[2] as int) };
        MouseState {
            buttons: (p[0] & 0x7) as u8,
            x: clamp_i(s.x + dx, 0, 799) as i32,
            y: clamp_i(s.y + dy, 0, 599) as i32,
            ..s
        }
    }
}

/// The mouse after one byte from the data port, in a mouse interrupt.
pub open spec fn byte_received(m: MouseView, data: u8) -> MouseView {
    if m.cycle == 0 {
        if data & 0x08 != 0 {
            MouseView { packet: m.packet.update(0, data), cycle: 1, ..m }
        } else {
            m
        }
    } else if m.cycle == 1 {
        MouseView { packet: m.packet.update(1, data), cycle: 2, ..m }
    } else if m.cycle == 2 {
        let p = m.packet.update(2, data);
        MouseView { packet: p, cycle: 0, state: packet_applied(m.state, p) }
    } else {
        MouseView { cycle: 0, ..m }
    }
}

impl Mouse {
    /// The mouse's invariant: the pointer is on the screen and only the
    /// three button bits are ever set.
    pub closed spec fn wf(&self) -> bool {
        on_screen(self.state) && self.state.buttons <= 7
    }

    pub fn new() -> (m: Self)
        ensures
            m.wf(),
            m@ == (MouseView {
                state: MouseState { x: 0, y: 0, buttons: 0, scroll_wheel: 0, relative_x: 0, relative_y: 0 },
                cycle: 0,
                packet: seq![0u8, 0u8, 0u8],
            }),
    {
        let m = Self { state: MouseState::new(), cycle: 0, packet: [0; 3] };
        assert(m.packet@ =~= seq![0u8, 0u8, 0u8]);
        m
    }

    fn handle_packet(&mut self)
        requires
            old(self).wf(),
        ensures
            final(self).wf(),
            final(self)@ == (MouseView { state: packet_applied(old(self)@.state, old(self)@.packet), ..old(self)@ }),
    {
        let p0 = self.packet[0];
        if p0 & 0x80 != 0 || p0 & 0x40 != 0 {
            return;
        }
        assert(p0 & 0x7 <= 7) by (bit_vector);
        self.state.buttons = p0 & 0x7;
        let x = self.packet[1] as i32;
        let y = self.packet[2] as i32;
        let x_sign = (p0 & 0x10) != 0;
        let y_sign = (p0 & 0x20) != 0;
        let x_movement = if x_sign { x - 256 } else { x };
        let y_movement = if y_sign { 256 - y } else { -y };
        let nx = self.state.x + x_movement;
        let ny = self.state.y + y_movement;
        self.state.x = if nx < 0 { 0 } else if nx > 799 { 799 } else { nx };
        self.state.y = if ny < 0 { 0 } else if ny > 599 { 599 } else { ny };
    }
}

/// Takes one byte from the data port when the status port flags a mouse
/// interrupt (bit 5): the first byte of a packet must have bit 3 set, and
/// the third completes the packet.
pub fn handle_interrupt(mouse: &mut Mouse, status: u8, data: u8)
    requires
        old(mouse).wf(),
    ensures
        final(mouse).wf(),
        status & 0x20 == 0 ==> final(mouse)@ == old(mouse)@,
        status & 0x20 != 0 ==> final(mouse)@ == byte_received(old(mouse)@, data),
{
    if status & 0x20 == 0 {
        return;
    }
    match mouse.cycle {
        0 => {
            if data & 0x08 != 0 {
                mouse.packet[0] = data;
                mouse.cycle = 1;
            }
        },
        1 => {
            mouse.packet[1] = data;
            mouse.cycle = 2;
        },
        2 => {
            mouse.packet[2] = data;
            mouse.cycle = 0;
            mouse.handle_packet();
        },
        _ => {
            mouse.cycle = 0;
        },
    }
}

/// A copy of the mouse's state: on a well-formed mouse (from `Mouse::new`,
/// through any interrupts) the pointer is on the 800x600 screen and at
/// most the three button bits are set.
pub fn get_state(mouse: &Mouse) -> (s: MouseState)
    ensures
        s == mouse@.state,
        mouse.wf() ==> 0 <= s.x <= 799 && 0 <= s.y <= 599 && s.buttons <= 7,
{
    mouse.state
}

/// What the change events remember between polls: the state reported last
/// and events buffered for the next poll.
pub struct MouseEventTracker {
    prev: Option<MouseState>,
    buffer: Vec<MouseState>,
}

/// The tracker as the contracts see it.
pub struct TrackerView {
    pub prev: Option<MouseState>,
    pub buffer: Seq<MouseState>,
}

impl View for MouseEventTracker {
    type V = TrackerView;

    closed spec fn view(&self) -> TrackerView {
        TrackerView { prev: self.prev, buffer: self.buffer@ }
    }
}

/// The state reported for a poll of `s` after `prev`: the movement since
/// the last poll is added.
pub open spec fn polled_state(s: MouseState, prev: Option<MouseState>) -> MouseState {
    match prev {
        Some(p) => MouseState { relative_x: (s.x - p.x) as i32, relative_y: (s.y - p.y) as i32, ..s },
        None => MouseState { relative_x: 0, relative_y: 0, ..s },
    }
}

/// Whether the pointer, buttons or wheel changed since `prev`.
pub open spec fn state_changed(cur: MouseState, prev: Option<MouseState>) -> bool {
    match prev {
        Some(p) => cur.x != p.x || cur.y != p.y || cur.buttons != p.buttons || cur.scroll_wheel != p.scroll_wheel,
        None => true,
    }
}

impl MouseEventTracker {
    /// The tracker's invariant: what it reported lay on the screen.
    pub closed spec fn wf(&self) -> bool {
        match self.prev {
            Some(p) => on_screen(p),
            None => true,
        }
    }

    pub fn new() -> (t: Self)
        ensures
            t.wf(),
            t@.prev is None,
            t@.buffer == Seq::<MouseState>::empty(),
    {
        Self { prev: None, buffer: Vec::new() }
    }
}

/// The mouse events since the last poll: the current state if it changed,
/// then any buffered events.
pub fn get_pending_events(mouse: &Mouse, tracker: &mut MouseEventTracker) -> (r: Result<Vec<MouseState>, &'static str>)
    requires
        mouse.wf(),
        old(tracker).wf(),
    ensures
        final(tracker).wf(),
        r is Ok,
        ({
            let cur = polled_state(mouse@.state, old(tracker)@.prev);
            &&& r->Ok_0@ == (if state_changed(cur, old(tracker)@.prev) { seq![cur] } else { Seq::empty() })
                + old(tracker)@.buffer
            &&& final(tracker)@ == (TrackerView { prev: Some(cur), buffer: Seq::empty() })
        }),
{
    let s = mouse.state;
    let current_state = match tracker.prev {
        Some(prev) => MouseState { relative_x: s.x - prev.x, relative_y: s.y - prev.y, ..s },
        None => MouseState { relative_x: 0, relative_y: 0, ..s },
    };
    let has_changes = match tracker.prev {
        Some(prev) => current_state.x != prev.x || current_state.y != prev.y || current_state.buttons != prev.buttons
            || current_state.scroll_wheel != prev.scroll_wheel,
        None => true,
    };
    let mut events: Vec<MouseState> = Vec::new();
    if has_changes {
        events.push(current_state);
    }
    let ghost head = events@;
    events.append(&mut tracker.buffer);
    tracker.buffer.clear();
    tracker.prev = Some(current_state);
    Ok(events)
}

} // verus!
