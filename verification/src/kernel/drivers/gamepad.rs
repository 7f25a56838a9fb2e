//! Gamepads: the devices and their manager, and the polling that compares
//! each connected pad with what it reported last and queues input events
//! for what changed.

use vstd::prelude::*;
use crate::clock::{system_time_now, elapsed_since_epoch, duration_as_millis};
use crate::text::string_from_str;

verus! {

/// Gamepad types we can support
#[derive(Debug, Clone, Copy, PartialEq, Eq, Structural)]
pub enum GamepadType {
    Unknown,
    XboxController,
    PlayStation,
    NintendoSwitch,
    Generic,
}

/// Input state for a gamepad
#[derive(Debug, Clone, Copy)]
pub struct GamepadState {
    pub id: usize,
    pub connected: bool,
    /// Bit flags for button states
    pub buttons: u32,
    pub left_stick_x: i16,
    pub left_stick_y: i16,
    pub right_stick_x: i16,
    pub right_stick_y: i16,
    pub left_trigger: u8,
    pub right_trigger: u8,
}

pub const BTN_A: u32 = 0x00000001;
pub const BTN_B: u32 = 0x00000002;
pub const BTN_X: u32 = 0x00000004;
pub const BTN_Y: u32 = 0x00000008;
pub const BTN_LEFT_SHOULDER: u32 = 0x00000010;
pub const BTN_RIGHT_SHOULDER: u32 = 0x00000020;
pub const BTN_BACK: u32 = 0x00000040;
pub const BTN_START: u32 = 0x00000080;
pub const BTN_LEFT_THUMB: u32 = 0x00000100;
pub const BTN_RIGHT_THUMB: u32 = 0x00000200;
pub const BTN_DPAD_UP: u32 = 0x00000400;
pub const BTN_DPAD_DOWN: u32 = 0x00000800;
pub const BTN_DPAD_LEFT: u32 = 0x00001000;
pub const BTN_DPAD_RIGHT: u32 = 0x00002000;
pub const BTN_GUIDE: u32 = 0x00004000;

/// The state of a pad that has just been plugged in: connected, nothing
/// pressed, sticks and triggers at rest.
pub open spec fn fresh_state(id: usize) -> GamepadState {
    GamepadState {
        id,
        connected: true,
        buttons: 0,
        left_stick_x: 0,
        left_stick_y: 0,
        right_stick_x: 0,
        right_stick_y: 0,
        left_trigger: 0,
        right_trigger: 0,
    }
}

/// What a gamepad device holds.
pub struct GamepadDeviceView {
    pub id: usize,
    pub name: Seq<char>,
    pub gamepad_type: GamepadType,
    pub state: GamepadState,
    pub connected: bool,
}

/// Represents a gamepad/controller device
#[derive(Debug, Clone)]
pub struct GamepadDevice {
    id: usize,
    name: String,
    gamepad_type: GamepadType,
    state: GamepadState,
    connected: bool,
}

impl View for GamepadDevice {
    type V = GamepadDeviceView;

    closed spec fn view(&self) -> GamepadDeviceView {
        GamepadDeviceView {
            id: self.id,
            name: self.name@,
            gamepad_type: self.gamepad_type,
            state: self.state,
            connected: self.connected,
        }
    }
}

impl GamepadDevice {
    /// Create a new gamepad device
    pub fn new(id: usize, name: String, gamepad_type: GamepadType) -> (d: Self)
        ensures
            d@ == (GamepadDeviceView { id, name: name@, gamepad_type, state: fresh_state(id), connected: true }),
    {
        Self {
            id,
            name,
            gamepad_type,
            state: GamepadState {
                id,
                connected: true,
                buttons: 0,
                left_stick_x: 0,
                left_stick_y: 0,
                right_stick_x: 0,
                right_stick_y: 0,
                left_trigger: 0,
                right_trigger: 0,
            },
            connected: true,
        }
    }

    /// Update the gamepad state
    pub fn update_state(&mut self, new_state: GamepadState)
        ensures
            final(self)@ == (GamepadDeviceView { state: new_state, ..old(self)@ }),
    {
        self.state = new_state;
    }

    /// Get the current gamepad state
    pub fn get_state(&self) -> (s: GamepadState)
        ensures
            s == self@.state,
    {
        self.state
    }

    /// Check if the gamepad is connected
    pub fn is_connected(&self) -> (b: bool)
        ensures
            b == self@.connected,
    {
        self.connected
    }

    /// Mark the gamepad as disconnected
    pub fn disconnect(&mut self)
        ensures
            final(self)@ == (GamepadDeviceView { connected: false, ..old(self)@ }),
    {
        self.connected = false;
    }

    /// Get the gamepad name
    pub fn get_name(&self) -> (n: &str)
        ensures
            n@ == self@.name,
    {
        self.name.as_str()
    }

    /// Get the gamepad type
    pub fn get_type(&self) -> (t: GamepadType)
        ensures
            t == self@.gamepad_type,
    {
        self.gamepad_type
    }

    /// Get the gamepad ID
    pub fn get_id(&self) -> (id: usize)
        ensures
            id == self@.id,
    {
        self.id
    }
}

/// `i` is the first position in `devs` of a device with this id.
pub open spec fn is_first_with_id(devs: Seq<GamepadDeviceView>, id: usize, i: int) -> bool {
    &&& 0 <= i < devs.len()
    &&& devs[i].id == id
    &&& forall|k: int| 0 <= k < i ==> devs[k].id != id
}

/// Some device in `devs` has this id.
pub open spec fn has_id(devs: Seq<GamepadDeviceView>, id: usize) -> bool {
    exists|i: int| 0 <= i < devs.len() && devs[i].id == id
}

/// The number of connected devices.
pub open spec fn connected_count(devs: Seq<GamepadDeviceView>) -> nat
    decreases devs.len(),
{
    if devs.len() == 0 {
        0
    } else {
        connected_count(devs.drop_last()) + if devs.last().connected { 1nat } else { 0nat }
    }
}

/// Manages all gamepad devices
#[derive(Debug, Clone)]
pub struct GamepadManager {
    devices: Vec<GamepadDevice>,
    next_id: usize,
}

impl GamepadManager {
    /// The devices, in the order they were added.
    pub closed spec fn devices(&self) -> Seq<GamepadDeviceView> {
        self.devices@.map_values(|d: GamepadDevice| d@)
    }

    /// The id the next added device gets.
    pub closed spec fn next_id(&self) -> usize {
        self.next_id
    }

    /// Every id was handed out before and no two devices share one.
    pub closed spec fn wf(&self) -> bool {
        &&& forall|i: int| 0 <= i < self.devices().len() ==> #[trigger] self.devices()[i].id < self.next_id
        &&& forall|i: int, j: int|
            0 <= i < self.devices().len() && 0 <= j < self.devices().len() && i != j
                ==> #[trigger] self.devices()[i].id != #[trigger] self.devices()[j].id
    }

    /// Create a new gamepad manager
    pub fn new() -> (m: Self)
        ensures
            m.wf(),
            m.devices() == Seq::<GamepadDeviceView>::empty(),
            m.next_id() == 0,
    {
        let m = Self { devices: Vec::new(), next_id: 0 };
        assert(m.devices() =~= Seq::<GamepadDeviceView>::empty());
        m
    }

    /// Add a gamepad device
    pub fn add_device(&mut self, name: String, gamepad_type: GamepadType) -> (id: usize)
        requires
            old(self).wf(),
            old(self).next_id() < usize::MAX,
        ensures
            final(self).wf(),
            id == old(self).next_id(),
            final(self).next_id() == id + 1,
            final(self).devices() == old(self).devices().push(
                GamepadDeviceView { id, name: name@, gamepad_type, state: fresh_state(id), connected: true },
            ),
    {
        let id = self.next_id;
        self.next_id += 1;
        let device = GamepadDevice::new(id, name, gamepad_type);
        self.devices.push(device);
        assert(self.devices() =~= old(self).devices().push(device@));
        id
    }

    /// Get a gamepad by ID
    pub fn get_device(&self, id: usize) -> (r: Option<&GamepadDevice>)
        ensures
            r is None <==> !has_id(self.devices(), id),
            r matches Some(d) ==> exists|i: int| is_first_with_id(self.devices(), id, i) && d@ == self.devices()[i],
    {
        let mut i: usize = 0;
        while i < self.devices.len()
            invariant
                0 <= i <= self.devices@.len(),
                forall|k: int| 0 <= k < i ==> self.devices()[k].id != id,
            decreases self.devices@.len() - i,
        {
            if self.devices[i].get_id() == id {
                assert(is_first_with_id(self.devices(), id, i as int));
                return Some(&self.devices[i]);
            }
            i += 1;
        }
        None
    }

    /// Get a mutable reference to a gamepad by ID
    pub fn get_device_mut(&mut self, id: usize) -> (r: Option<&mut GamepadDevice>)
        ensures
            r is None <==> !has_id(old(self).devices(), id),
            r is None ==> *final(self) == *old(self),
            r matches Some(d) ==> exists|i: int|
                is_first_with_id(old(self).devices(), id, i)
                && d@ == old(self).devices()[i]
                && final(self).devices() == old(self).devices().update(i, final(d)@)
                && final(self).next_id() == old(self).next_id(),
    {
        let mut i: usize = 0;
        while i < self.devices.len()
            invariant
                0 <= i <= self.devices@.len(),
                *self == *old(self),
                forall|k: int| 0 <= k < i ==> self.devices()[k].id != id,
            decreases self.devices@.len() - i,
        {
            if self.devices[i].get_id() == id {
                assert(is_first_with_id(self.devices(), id, i as int));
                return Some(&mut self.devices[i]);
            }
            i += 1;
        }
        None
    }

    /// Remove a gamepad
    pub fn remove_device(&mut self, id: usize) -> (removed: bool)
        requires
            old(self).wf(),
        ensures
            final(self).wf(),
            removed == has_id(old(self).devices(), id),
            final(self).next_id() == old(self).next_id(),
            !removed ==> final(self).devices() == old(self).devices(),
            removed ==> exists|i: int|
                is_first_with_id(old(self).devices(), id, i)
                && final(self).devices() == old(self).devices().remove(i),
    {
        let mut i: usize = 0;
        while i < self.devices.len()
            invariant
                0 <= i <= self.devices@.len(),
                *self == *old(self),
                old(self).wf(),
                forall|k: int| 0 <= k < i ==> self.devices()[k].id != id,
            decreases self.devices@.len() - i,
        {
            if self.devices[i].get_id() == id {
                assert(is_first_with_id(self.devices(), id, i as int));
                let ghost before = self.devices@;
                self.devices.remove(i);
                assert(self.devices@ == before.remove(i as int));
                assert(self.devices() =~= old(self).devices().remove(i as int));
                let ghost od = old(self).devices();
                let ghost nd = self.devices();
                assert forall|a: int, b: int|
                    0 <= a < nd.len() && 0 <= b < nd.len() && a != b
                        implies #[trigger] nd[a].id != #[trigger] nd[b].id by {
                    let a0 = if a < i { a } else { a + 1 };
                    let b0 = if b < i { b } else { b + 1 };
                    assert(nd[a] == od[a0]);
                    assert(nd[b] == od[b0]);
                }
                assert forall|a: int| 0 <= a < nd.len() implies #[trigger] nd[a].id < self.next_id by {
                    let a0 = if a < i { a } else { a + 1 };
                    assert(nd[a] == od[a0]);
                }
                return true;
            }
            i += 1;
        }
        false
    }

    /// Get the number of connected gamepads
    pub fn get_connected_count(&self) -> (n: usize)
        ensures
            n == connected_count(self.devices()),
    {
        let mut n: usize = 0;
        let mut i: usize = 0;
        while i < self.devices.len()
            invariant
                0 <= i <= self.devices@.len(),
                n == connected_count(self.devices().take(i as int)),
                n <= i,
            decreases self.devices@.len() - i,
        {
            assert(self.devices().take(i + 1).drop_last() =~= self.devices().take(i as int));
            if self.devices[i].is_connected() {
                n += 1;
            }
            i += 1;
        }
        assert(self.devices().take(i as int) =~= self.devices());
        n
    }

    /// Get all devices
    pub fn get_devices(&self) -> (ds: &[GamepadDevice])
        ensures
            ds@.map_values(|d: GamepadDevice| d@) == self.devices(),
    {
        self.devices.as_slice()
    }
}


/// A gamepad input event, as the polling queues it.
#[derive(Debug, Clone, Copy)]
pub struct InputEvent {
    /// Device ID
    pub id: u8,
    /// Button state bit flags
    pub buttons: u32,
    /// Analog stick positions (-32768 to 32767)
    pub axes: [i16; 6],
    /// Trigger values (0-255)
    pub triggers: [u8; 2],
    /// Timestamp in milliseconds
    pub timestamp: u64,
    /// Event type (button, axis, connection, etc)
    pub event_type: InputEventType,
}

/// Type of input event
#[derive(Debug, Clone, Copy, PartialEq, Eq, Structural)]
pub enum InputEventType {
    /// Button pressed or released
    Button,
    /// Analog stick movement
    Axis,
    /// Trigger movement
    Trigger,
    /// Device connected or disconnected
    Connection,
}

/// The gamepad subsystem: the manager, what each connected pad reported at
/// the last poll, the queued events, and the tick count of the simulated
/// input.
pub struct GamepadSubsystem {
    pub manager: GamepadManager,
    /// (device id, state at the last poll), for the pads seen so far
    pub previous_states: Vec<(usize, GamepadState)>,
    /// Whether `previous_states` has been filled from the manager once
    pub initialized: bool,
    /// Events queued since they were last taken
    pub event_buffer: Vec<InputEvent>,
    /// Polls counted while the first pad was connected
    pub poll_ticks: u64,
}

impl GamepadSubsystem {
    /// A subsystem over `manager`, with nothing seen and nothing queued yet.
    pub fn new(manager: GamepadManager) -> (s: Self)
        ensures
            s.manager == manager,
            s.previous_states@ == Seq::<(usize, GamepadState)>::empty(),
            !s.initialized,
            s.event_buffer@ == Seq::<InputEvent>::empty(),
            s.poll_ticks == 0,
    {
        GamepadSubsystem {
            manager,
            previous_states: Vec::new(),
            initialized: false,
            event_buffer: Vec::new(),
            poll_ticks: 0,
        }
    }
}

/// The pads set up when the subsystem starts: an Xbox controller and a
/// DualShock 4, with ids 0 and 1.
pub open spec fn initial_devices() -> Seq<GamepadDeviceView> {
    seq![
        GamepadDeviceView {
            id: 0,
            name: "Xbox Controller"@,
            gamepad_type: GamepadType::XboxController,
            state: fresh_state(0),
            connected: true,
        },
        GamepadDeviceView {
            id: 1,
            name: "DualShock 4"@,
            gamepad_type: GamepadType::PlayStation,
            state: fresh_state(1),
            connected: true,
        },
    ]
}

/// Initialize the gamepad subsystem
pub fn init() -> (r: Result<GamepadManager, &'static str>)
    ensures
        r matches Ok(m) && m.wf() && m.devices() == initial_devices() && m.next_id() == 2,
{
    let mut manager = GamepadManager::new();
    manager.add_device(string_from_str("Xbox Controller"), GamepadType::XboxController);
    manager.add_device(string_from_str("DualShock 4"), GamepadType::PlayStation);
    assert(manager.devices() =~= initial_devices());
    Ok(manager)
}

/// The state that one simulated poll gives the first pad: the A button held
/// on even ticks and let go on odd ones, the left stick where `stick` puts it.
pub open spec fn polled_state(s: GamepadState, tick: u64, stick: (i16, i16)) -> GamepadState {
    GamepadState {
        buttons: if tick % 2 == 0 { s.buttons | BTN_A } else { s.buttons & !BTN_A },
        left_stick_x: stick.0,
        left_stick_y: stick.1,
        ..s
    }
}

/// Poll for gamepad state updates: while the pad with id 0 is connected, a
/// poll counts one more tick and moves it as `polled_state` says; `stick` is
/// where the tick puts its left stick.
pub fn poll(subsystem: &mut GamepadSubsystem, stick: (i16, i16))
    requires
        old(subsystem).manager.wf(),
    ensures
        final(subsystem).manager.wf(),
        final(subsystem).previous_states == old(subsystem).previous_states,
        final(subsystem).initialized == old(subsystem).initialized,
        final(subsystem).event_buffer == old(subsystem).event_buffer,
        final(subsystem).manager.next_id() == old(subsystem).manager.next_id(),
        ({
            let devs = old(subsystem).manager.devices();
            if exists|i: int| is_first_with_id(devs, 0, i) && devs[i].connected {
                let i = choose|i: int| is_first_with_id(devs, 0, i) && devs[i].connected;
                let t = old(subsystem).poll_ticks.wrapping_add(1);
                &&& final(subsystem).poll_ticks == t
                &&& final(subsystem).manager.devices() == devs.update(
                    i,
                    GamepadDeviceView { state: polled_state(devs[i].state, t, stick), ..devs[i] },
                )
            } else {
                &&& final(subsystem).poll_ticks == old(subsystem).poll_ticks
                &&& final(subsystem).manager.devices() == devs
            }
        }),
{
    let ticks = subsystem.poll_ticks;
    let ghost devs = subsystem.manager.devices();
    match subsystem.manager.get_device_mut(0) {
        Some(xbox) => {
            if xbox.is_connected() {
                let mut state = xbox.get_state();
                let tick_value = ticks.wrapping_add(1);
                if tick_value % 2 == 0 {
                    state.buttons = state.buttons | BTN_A;
                } else {
                    state.buttons = state.buttons & !BTN_A;
                }
                state.left_stick_x = stick.0;
                state.left_stick_y = stick.1;
                xbox.update_state(state);
                subsystem.poll_ticks = tick_value;
            }
        },
        None => {},
    }
    proof {
        let fdevs = subsystem.manager.devices();
        assert(fdevs.len() == devs.len());
        assert forall|i: int| 0 <= i < fdevs.len() implies #[trigger] fdevs[i].id == devs[i].id by {}
        assert forall|i: int| 0 <= i < fdevs.len() implies #[trigger] fdevs[i].id < subsystem.manager.next_id() by {
            assert(fdevs[i].id == devs[i].id);
        }
        assert forall|a: int, b: int|
            0 <= a < fdevs.len() && 0 <= b < fdevs.len() && a != b
                implies #[trigger] fdevs[a].id != #[trigger] fdevs[b].id by {
            assert(fdevs[a].id == devs[a].id);
            assert(fdevs[b].id == devs[b].id);
        }
    }
}

} // verus!

verus! {

/// |x|
pub open spec fn abs_int(x: int) -> int {
    if x < 0 { -x } else { x }
}

/// Both coordinates of a stick are within the dead zone.
pub open spec fn in_deadzone(x: i16, y: i16) -> bool {
    abs_int(x as int) < 3000 && abs_int(y as int) < 3000
}

/// The stick comparison stays within `i16`: no coordinate is `i16::MIN`,
/// and where the stick was outside the dead zone, each coordinate moved by
/// at most 32767.
pub open spec fn stick_change_defined(old_x: i16, new_x: i16, old_y: i16, new_y: i16) -> bool {
    &&& old_x != i16::MIN && new_x != i16::MIN && old_y != i16::MIN && new_y != i16::MIN
    &&& !in_deadzone(old_x, old_y) ==> abs_int(new_x - old_x) <= 32767 && abs_int(new_y - old_y) <= 32767
}

/// A stick movement counts when it leaves the dead zone, or, for a stick
/// already outside it, when a coordinate moves by more than 1600.
pub open spec fn stick_moved(old_x: i16, new_x: i16, old_y: i16, new_y: i16) -> bool {
    if in_deadzone(old_x, old_y) {
        !in_deadzone(new_x, new_y)
    } else {
        abs_int(new_x - old_x) > 1600 || abs_int(new_y - old_y) > 1600
    }
}

/// A trigger movement counts when it crosses 15 either way, or, beyond 15,
/// when it moves by more than 20.
pub open spec fn trigger_moved(old_value: u8, new_value: u8) -> bool {
    if (old_value < 15 && new_value >= 15) || (old_value >= 15 && new_value < 15) {
        true
    } else if old_value >= 15 || new_value >= 15 {
        abs_int(new_value - old_value) > 20
    } else {
        false
    }
}

fn abs_i16(x: i16) -> (r: i16)
    requires
        x != i16::MIN,
    ensures
        r == abs_int(x as int),
{
    if x < 0 { -x } else { x }
}

/// Check if stick movement is significant (outside deadzone)
pub fn significant_stick_change(old_x: i16, new_x: i16, old_y: i16, new_y: i16) -> (r: bool)
    requires
        stick_change_defined(old_x, new_x, old_y, new_y),
    ensures
        r == stick_moved(old_x, new_x, old_y, new_y),
{
    let deadzone: i16 = 3000;
    let dx_old = abs_i16(old_x);
    let dy_old = abs_i16(old_y);
    let dx_new = abs_i16(new_x);
    let dy_new = abs_i16(new_y);
    if (dx_old < deadzone && dy_old < deadzone) && (dx_new >= deadzone || dy_new >= deadzone) {
        return true;
    }
    if dx_old >= deadzone || dy_old >= deadzone {
        let movement_threshold: i16 = 1600;
        let dx = abs_i16(new_x - old_x);
        let dy = abs_i16(new_y - old_y);
        return dx > movement_threshold || dy > movement_threshold;
    }
    false
}

/// Check if trigger movement is significant
pub fn significant_trigger_change(old_value: u8, new_value: u8) -> (r: bool)
    ensures
        r == trigger_moved(old_value, new_value),
{
    let threshold: u8 = 15;
    if (old_value < threshold && new_value >= threshold) || (old_value >= threshold && new_value < threshold) {
        return true;
    }
    if old_value >= threshold || new_value >= threshold {
        let d = abs_i16(new_value as i16 - old_value as i16);
        return d > 20;
    }
    false
}

/// The state of the first device with this id, if there is one.
pub open spec fn state_of(devs: Seq<GamepadDeviceView>, id: usize) -> Option<GamepadState> {
    if has_id(devs, id) {
        Some(devs[choose|i: int| is_first_with_id(devs, id, i)].state)
    } else {
        None
    }
}

/// The event of a pad's whole state: its buttons, both sticks (the last two
/// axes stay 0) and both triggers.
pub open spec fn state_event(id: usize, s: GamepadState, ts: u64, kind: InputEventType) -> InputEvent {
    InputEvent {
        id: id as u8,
        buttons: s.buttons,
        axes: [s.left_stick_x, s.left_stick_y, s.right_stick_x, s.right_stick_y, 0, 0],
        triggers: [s.left_trigger, s.right_trigger],
        timestamp: ts,
        event_type: kind,
    }
}

/// The event of a pad coming or going: only the id and the time.
pub open spec fn connection_event(id: usize, ts: u64) -> InputEvent {
    InputEvent {
        id: id as u8,
        buttons: 0,
        axes: [0, 0, 0, 0, 0, 0],
        triggers: [0, 0],
        timestamp: ts,
        event_type: InputEventType::Connection,
    }
}

/// A button event: the new buttons, with the sticks and triggers of the pad
/// with this id, or zeros where there is none.
pub open spec fn button_event(devs: Seq<GamepadDeviceView>, id: usize, buttons: u32, ts: u64) -> InputEvent {
    match state_of(devs, id) {
        Some(s) => InputEvent { buttons, ..state_event(id, s, ts, InputEventType::Button) },
        None => InputEvent {
            id: id as u8,
            buttons,
            axes: [0, 0, 0, 0, 0, 0],
            triggers: [0, 0],
            timestamp: ts,
            event_type: InputEventType::Button,
        },
    }
}

/// Axis `k` of an axis event that sets axes `ax` and `ay` to `x` and `y`;
/// the stick pairs that neither names keep the pad's own values.
pub open spec fn axis_slot(k: int, ax: usize, ay: usize, x: i16, y: i16, s: GamepadState) -> i16 {
    if k == 0 && ax != 0 && ay != 1 {
        s.left_stick_x
    } else if k == 1 && ax != 0 && ay != 1 {
        s.left_stick_y
    } else if k == 2 && ax != 2 && ay != 3 {
        s.right_stick_x
    } else if k == 3 && ax != 2 && ay != 3 {
        s.right_stick_y
    } else if ay == k {
        y
    } else if ax == k {
        x
    } else {
        0
    }
}

/// An axis event for axes `ax` and `ay` of a pad in state `s`.
pub open spec fn axis_event(id: usize, ax: usize, ay: usize, x: i16, y: i16, s: GamepadState, ts: u64) -> InputEvent {
    InputEvent {
        axes: [
            axis_slot(0, ax, ay, x, y, s),
            axis_slot(1, ax, ay, x, y, s),
            axis_slot(2, ax, ay, x, y, s),
            axis_slot(3, ax, ay, x, y, s),
            axis_slot(4, ax, ay, x, y, s),
            axis_slot(5, ax, ay, x, y, s),
        ],
        ..state_event(id, s, ts, InputEventType::Axis)
    }
}

/// A trigger event setting trigger `t` to `value` on a pad in state `s`.
pub open spec fn trigger_event(id: usize, t: usize, value: u8, s: GamepadState, ts: u64) -> InputEvent {
    InputEvent {
        triggers: if t == 0 { [value, s.right_trigger] } else { [s.left_trigger, value] },
        ..state_event(id, s, ts, InputEventType::Trigger)
    }
}

proof fn lemma_first_unique(devs: Seq<GamepadDeviceView>, id: usize, i: int, j: int)
    requires
        is_first_with_id(devs, id, i),
        is_first_with_id(devs, id, j),
    ensures
        i == j,
{
    if i < j {
        assert(devs[i].id != id);
    } else if j < i {
        assert(devs[j].id != id);
    }
}

/// Looks the device up in the manager and gives its state, as `state_of` says.
fn lookup_state(manager: &GamepadManager, device_id: usize) -> (r: Option<GamepadState>)
    ensures
        r == state_of(manager.devices(), device_id),
{
    match manager.get_device(device_id) {
        Some(device) => {
            let ghost devs = manager.devices();
            proof {
                let i = choose|i: int| is_first_with_id(devs, device_id, i) && device@ == devs[i];
                let c = choose|c: int| is_first_with_id(devs, device_id, c);
                lemma_first_unique(devs, device_id, i, c);
            }
            Some(device.get_state())
        },
        None => None,
    }
}

/// Queue a button state change event
fn queue_button_event(
    manager: &GamepadManager,
    buffer: &mut Vec<InputEvent>,
    device_id: usize,
    old_buttons: u32,
    new_buttons: u32,
    timestamp: u64,
)
    ensures
        final(buffer)@ == old(buffer)@ + if old_buttons != new_buttons {
            seq![button_event(manager.devices(), device_id, new_buttons, timestamp)]
        } else {
            Seq::<InputEvent>::empty()
        },
{
    if old_buttons != new_buttons {
        let found = lookup_state(manager, device_id);
        let axes: [i16; 6] = match found {
            Some(state) => [state.left_stick_x, state.left_stick_y, state.right_stick_x, state.right_stick_y, 0, 0],
            None => [0, 0, 0, 0, 0, 0],
        };
        let triggers: [u8; 2] = match found {
            Some(state) => [state.left_trigger, state.right_trigger],
            None => [0, 0],
        };
        let event = InputEvent {
            id: device_id as u8,
            buttons: new_buttons,
            axes,
            triggers,
            timestamp,
            event_type: InputEventType::Button,
        };
        buffer.push(event);
    } else {
        assert(buffer@ =~= old(buffer)@ + Seq::<InputEvent>::empty());
    }
}

/// Queue an axis movement event
fn queue_axis_event(
    manager: &GamepadManager,
    buffer: &mut Vec<InputEvent>,
    device_id: usize,
    axis_x: usize,
    axis_y: usize,
    x_value: i16,
    y_value: i16,
    timestamp: u64,
)
    requires
        axis_x < 6,
        axis_y < 6,
    ensures
        final(buffer)@ == old(buffer)@ + match state_of(manager.devices(), device_id) {
            Some(s) => seq![axis_event(device_id, axis_x, axis_y, x_value, y_value, s, timestamp)],
            None => Seq::<InputEvent>::empty(),
        },
{
    match lookup_state(manager, device_id) {
        Some(state) => {
            let mut axes: [i16; 6] = [0, 0, 0, 0, 0, 0];
            axes[axis_x] = x_value;
            axes[axis_y] = y_value;
            if axis_x != 0 && axis_y != 1 {
                axes[0] = state.left_stick_x;
                axes[1] = state.left_stick_y;
            }
            if axis_x != 2 && axis_y != 3 {
                axes[2] = state.right_stick_x;
                axes[3] = state.right_stick_y;
            }
            let event = InputEvent {
                id: device_id as u8,
                buttons: state.buttons,
                axes,
                triggers: [state.left_trigger, state.right_trigger],
                timestamp,
                event_type: InputEventType::Axis,
            };
            let ghost expected = axis_event(device_id, axis_x, axis_y, x_value, y_value, state, timestamp);
            assert(event.axes@ =~= expected.axes@);
            assert(event.axes =~= expected.axes);
            buffer.push(event);
        },
        None => {
            assert(buffer@ =~= old(buffer)@ + Seq::<InputEvent>::empty());
        },
    }
}

/// Queue a trigger movement event
fn queue_trigger_event(
    manager: &GamepadManager,
    buffer: &mut Vec<InputEvent>,
    device_id: usize,
    trigger_id: usize,
    value: u8,
    timestamp: u64,
)
    requires
        trigger_id < 2,
    ensures
        final(buffer)@ == old(buffer)@ + match state_of(manager.devices(), device_id) {
            Some(s) => seq![trigger_event(device_id, trigger_id, value, s, timestamp)],
            None => Seq::<InputEvent>::empty(),
        },
{
    match lookup_state(manager, device_id) {
        Some(state) => {
            let mut triggers: [u8; 2] = [0, 0];
            triggers[trigger_id] = value;
            if trigger_id == 0 {
                triggers[1] = state.right_trigger;
            } else {
                triggers[0] = state.left_trigger;
            }
            let event = InputEvent {
                id: device_id as u8,
                buttons: state.buttons,
                axes: [state.left_stick_x, state.left_stick_y, state.right_stick_x, state.right_stick_y, 0, 0],
                triggers,
                timestamp,
                event_type: InputEventType::Trigger,
            };
            let ghost expected = trigger_event(device_id, trigger_id, value, state, timestamp);
            assert(event.triggers@ =~= expected.triggers@);
            assert(event.triggers =~= expected.triggers);
            buffer.push(event);
        },
        None => {
            assert(buffer@ =~= old(buffer)@ + Seq::<InputEvent>::empty());
        },
    }
}

/// Queue a connection/disconnection event
fn queue_connection_event(buffer: &mut Vec<InputEvent>, device_id: usize, connected: bool, timestamp: u64)
    ensures
        final(buffer)@ == old(buffer)@.push(connection_event(device_id, timestamp)),
{
    let event = InputEvent {
        id: device_id as u8,
        buttons: 0,
        axes: [0, 0, 0, 0, 0, 0],
        triggers: [0, 0],
        timestamp,
        event_type: InputEventType::Connection,
    };
    buffer.push(event);
}

} // verus!

verus! {

/// (id, state) of each connected device, in order.
pub open spec fn connected_entries(devs: Seq<GamepadDeviceView>) -> Seq<(usize, GamepadState)>
    decreases devs.len(),
{
    if devs.len() == 0 {
        Seq::empty()
    } else {
        let rest = connected_entries(devs.drop_last());
        if devs.last().connected {
            rest.push((devs.last().id, devs.last().state))
        } else {
            rest
        }
    }
}

/// `j` is the first entry for this id.
pub open spec fn is_first_entry(prev: Seq<(usize, GamepadState)>, id: usize, j: int) -> bool {
    &&& 0 <= j < prev.len()
    &&& prev[j].0 == id
    &&& forall|k: int| 0 <= k < j ==> prev[k].0 != id
}

/// The position of the first entry for this id, or -1.
pub open spec fn find_entry(prev: Seq<(usize, GamepadState)>, id: usize) -> int {
    if exists|j: int| is_first_entry(prev, id, j) {
        choose|j: int| is_first_entry(prev, id, j)
    } else {
        -1
    }
}

/// `seq![e]` where `b` holds, else empty.
pub open spec fn event_if(b: bool, e: InputEvent) -> Seq<InputEvent> {
    if b { seq![e] } else { Seq::empty() }
}

/// The events of a pad that went from `p` to `c`, in order: buttons, left
/// stick, right stick, left trigger, right trigger, each where it changed
/// enough.
pub open spec fn change_events(id: usize, p: GamepadState, c: GamepadState, ts: u64) -> Seq<InputEvent> {
    event_if(c.buttons != p.buttons, state_event(id, c, ts, InputEventType::Button))
        + event_if(
        stick_moved(p.left_stick_x, c.left_stick_x, p.left_stick_y, c.left_stick_y),
        state_event(id, c, ts, InputEventType::Axis),
    ) + event_if(
        stick_moved(p.right_stick_x, c.right_stick_x, p.right_stick_y, c.right_stick_y),
        state_event(id, c, ts, InputEventType::Axis),
    ) + event_if(trigger_moved(p.left_trigger, c.left_trigger), state_event(id, c, ts, InputEventType::Trigger))
        + event_if(trigger_moved(p.right_trigger, c.right_trigger), state_event(id, c, ts, InputEventType::Trigger))
}

/// One device's turn in a poll: a connected pad seen before is compared with
/// its last state, which it then replaces; one not seen before is recorded
/// and announced.
pub open spec fn visit(
    acc: (Seq<(usize, GamepadState)>, Seq<InputEvent>),
    d: GamepadDeviceView,
    ts: u64,
) -> (Seq<(usize, GamepadState)>, Seq<InputEvent>) {
    let prev = acc.0;
    let evs = acc.1;
    if !d.connected {
        acc
    } else {
        let j = find_entry(prev, d.id);
        if j >= 0 {
            (prev.update(j, (d.id, d.state)), evs + change_events(d.id, prev[j].1, d.state, ts))
        } else {
            (prev.push((d.id, d.state)), evs.push(connection_event(d.id, ts)))
        }
    }
}

/// Every device's turn, in order.
pub open spec fn visit_all(
    devs: Seq<GamepadDeviceView>,
    acc: (Seq<(usize, GamepadState)>, Seq<InputEvent>),
    ts: u64,
) -> (Seq<(usize, GamepadState)>, Seq<InputEvent>)
    decreases devs.len(),
{
    if devs.len() == 0 {
        acc
    } else {
        visit(visit_all(devs.drop_last(), acc, ts), devs.last(), ts)
    }
}

/// A connected device has this id.
pub open spec fn is_live(devs: Seq<GamepadDeviceView>, id: usize) -> bool {
    exists|k: int| 0 <= k < devs.len() && devs[k].id == id && devs[k].connected
}

/// The entries whose pad is still connected, and a disconnection event for
/// each of the others, in order.
pub open spec fn sweep(prev: Seq<(usize, GamepadState)>, devs: Seq<GamepadDeviceView>, ts: u64) -> (
    Seq<(usize, GamepadState)>,
    Seq<InputEvent>,
)
    decreases prev.len(),
{
    if prev.len() == 0 {
        (Seq::empty(), Seq::empty())
    } else {
        let r = sweep(prev.drop_last(), devs, ts);
        let last = prev.last();
        if is_live(devs, last.0) {
            (r.0.push(last), r.1)
        } else {
            (r.0, r.1.push(connection_event(last.0, ts)))
        }
    }
}

/// What a poll compares against: the recorded states, or, on the first
/// poll, the connected pads as they are.
pub open spec fn start_entries(sub: GamepadSubsystem) -> Seq<(usize, GamepadState)> {
    if sub.initialized {
        sub.previous_states@
    } else {
        connected_entries(sub.manager.devices())
    }
}

/// Both stick comparisons between `p` and `c` stay within `i16`.
pub open spec fn sticks_defined(p: GamepadState, c: GamepadState) -> bool {
    &&& stick_change_defined(p.left_stick_x, c.left_stick_x, p.left_stick_y, c.left_stick_y)
    &&& stick_change_defined(p.right_stick_x, c.right_stick_x, p.right_stick_y, c.right_stick_y)
}

/// Every connected device from position `from` on compares within `i16`
/// with every entry recorded for its id.
pub open spec fn comparisons_defined(prev: Seq<(usize, GamepadState)>, devs: Seq<GamepadDeviceView>, from: int) -> bool {
    forall|k: int, j: int|
        #![trigger devs[k], prev[j]]
        from <= k < devs.len() && 0 <= j < prev.len() && devs[k].connected && prev[j].0 == devs[k].id
            ==> sticks_defined(prev[j].1, devs[k].state)
}

/// A poll of this subsystem stays within `i16` in its stick comparisons.
pub open spec fn poll_defined(sub: GamepadSubsystem) -> bool {
    comparisons_defined(start_entries(sub), sub.manager.devices(), 0)
}

/// The subsystem after a poll at time `ts`: previous states and queued
/// events as `visit_all` and `sweep` say, the manager untouched.
pub open spec fn polled(old_sub: GamepadSubsystem, new_sub: GamepadSubsystem, ts: u64) -> bool {
    let devs = old_sub.manager.devices();
    let r = visit_all(devs, (start_entries(old_sub), old_sub.event_buffer@), ts);
    let s = sweep(r.0, devs, ts);
    &&& new_sub.manager == old_sub.manager
    &&& new_sub.initialized
    &&& new_sub.poll_ticks == old_sub.poll_ticks
    &&& new_sub.previous_states@ == s.0
    &&& new_sub.event_buffer@ == r.1 + s.1
}

fn collect_connected(manager: &GamepadManager) -> (r: Vec<(usize, GamepadState)>)
    ensures
        r@ == connected_entries(manager.devices()),
{
    let mut r: Vec<(usize, GamepadState)> = Vec::new();
    let mut i: usize = 0;
    while i < manager.devices.len()
        invariant
            0 <= i <= manager.devices@.len(),
            r@ == connected_entries(manager.devices().take(i as int)),
        decreases manager.devices@.len() - i,
    {
        assert(manager.devices().take(i + 1).drop_last() =~= manager.devices().take(i as int));
        let d = &manager.devices[i];
        if d.is_connected() {
            r.push((d.get_id(), d.get_state()));
        }
        i += 1;
    }
    assert(manager.devices().take(i as int) =~= manager.devices());
    r
}

fn find_previous(prev: &Vec<(usize, GamepadState)>, id: usize) -> (r: Option<usize>)
    ensures
        match r {
            Some(j) => find_entry(prev@, id) == j && j < prev@.len(),
            None => find_entry(prev@, id) == -1,
        },
{
    let mut k: usize = 0;
    while k < prev.len()
        invariant
            0 <= k <= prev@.len(),
            forall|m: int| 0 <= m < k ==> prev@[m].0 != id,
        decreases prev@.len() - k,
    {
        if prev[k].0 == id {
            assert(is_first_entry(prev@, id, k as int));
            proof {
                let c = choose|j: int| is_first_entry(prev@, id, j);
                if c < k {
                    assert(prev@[c].0 != id);
                } else if k < c {
                    assert(prev@[k as int].0 != id);
                }
            }
            return Some(k);
        }
        k += 1;
    }
    None
}

fn device_is_live(manager: &GamepadManager, id: usize) -> (r: bool)
    ensures
        r == is_live(manager.devices(), id),
{
    let mut k: usize = 0;
    while k < manager.devices.len()
        invariant
            0 <= k <= manager.devices@.len(),
            forall|m: int| 0 <= m < k ==> !(manager.devices()[m].id == id && manager.devices()[m].connected),
        decreases manager.devices@.len() - k,
    {
        let d = &manager.devices[k];
        if d.get_id() == id && d.is_connected() {
            assert(manager.devices()[k as int] == d@);
            return true;
        }
        k += 1;
    }
    false
}

} // verus!

verus! {

proof fn lemma_own_state(devs: Seq<GamepadDeviceView>, m: GamepadManager, i: int)
    requires
        m.wf(),
        devs == m.devices(),
        0 <= i < devs.len(),
    ensures
        is_first_with_id(devs, devs[i].id, i),
        state_of(devs, devs[i].id) == Some(devs[i].state),
{
    let id = devs[i].id;
    assert forall|k: int| 0 <= k < i implies devs[k].id != id by {
        assert(devs[k].id != devs[i].id);
    }
    assert(has_id(devs, id));
    let c = choose|c: int| is_first_with_id(devs, id, c);
    lemma_first_unique(devs, id, i, c);
}

fn queue_button_step(
    manager: &GamepadManager,
    buffer: &mut Vec<InputEvent>,
    device_id: usize,
    p: GamepadState,
    c: GamepadState,
    timestamp: u64,
)
    requires
        state_of(manager.devices(), device_id) == Some(c),
    ensures
        final(buffer)@ == old(buffer)@ + event_if(
            c.buttons != p.buttons,
            state_event(device_id, c, timestamp, InputEventType::Button),
        ),
{
    queue_button_event(manager, buffer, device_id, p.buttons, c.buttons, timestamp);
}

fn queue_stick_step(
    manager: &GamepadManager,
    buffer: &mut Vec<InputEvent>,
    device_id: usize,
    right: bool,
    p: GamepadState,
    c: GamepadState,
    timestamp: u64,
)
    requires
        state_of(manager.devices(), device_id) == Some(c),
        sticks_defined(p, c),
    ensures
        final(buffer)@ == old(buffer)@ + event_if(
            if right {
                stick_moved(p.right_stick_x, c.right_stick_x, p.right_stick_y, c.right_stick_y)
            } else {
                stick_moved(p.left_stick_x, c.left_stick_x, p.left_stick_y, c.left_stick_y)
            },
            state_event(device_id, c, timestamp, InputEventType::Axis),
        ),
{
    if right {
        if significant_stick_change(p.right_stick_x, c.right_stick_x, p.right_stick_y, c.right_stick_y) {
            queue_axis_event(manager, buffer, device_id, 2, 3, c.right_stick_x, c.right_stick_y, timestamp);
            assert(axis_event(device_id, 2, 3, c.right_stick_x, c.right_stick_y, c, timestamp).axes
                =~= state_event(device_id, c, timestamp, InputEventType::Axis).axes);
        } else {
            assert(buffer@ =~= old(buffer)@ + Seq::<InputEvent>::empty());
        }
    } else {
        if significant_stick_change(p.left_stick_x, c.left_stick_x, p.left_stick_y, c.left_stick_y) {
            queue_axis_event(manager, buffer, device_id, 0, 1, c.left_stick_x, c.left_stick_y, timestamp);
            assert(axis_event(device_id, 0, 1, c.left_stick_x, c.left_stick_y, c, timestamp).axes
                =~= state_event(device_id, c, timestamp, InputEventType::Axis).axes);
        } else {
            assert(buffer@ =~= old(buffer)@ + Seq::<InputEvent>::empty());
        }
    }
}

fn queue_trigger_step(
    manager: &GamepadManager,
    buffer: &mut Vec<InputEvent>,
    device_id: usize,
    right: bool,
    p: GamepadState,
    c: GamepadState,
    timestamp: u64,
)
    requires
        state_of(manager.devices(), device_id) == Some(c),
    ensures
        final(buffer)@ == old(buffer)@ + event_if(
            if right {
                trigger_moved(p.right_trigger, c.right_trigger)
            } else {
                trigger_moved(p.left_trigger, c.left_trigger)
            },
            state_event(device_id, c, timestamp, InputEventType::Trigger),
        ),
{
    if right {
        if significant_trigger_change(p.right_trigger, c.right_trigger) {
            queue_trigger_event(manager, buffer, device_id, 1, c.right_trigger, timestamp);
            assert(trigger_event(device_id, 1, c.right_trigger, c, timestamp).triggers
                =~= state_event(device_id, c, timestamp, InputEventType::Trigger).triggers);
        } else {
            assert(buffer@ =~= old(buffer)@ + Seq::<InputEvent>::empty());
        }
    } else {
        if significant_trigger_change(p.left_trigger, c.left_trigger) {
            queue_trigger_event(manager, buffer, device_id, 0, c.left_trigger, timestamp);
            assert(trigger_event(device_id, 0, c.left_trigger, c, timestamp).triggers
                =~= state_event(device_id, c, timestamp, InputEventType::Trigger).triggers);
        } else {
            assert(buffer@ =~= old(buffer)@ + Seq::<InputEvent>::empty());
        }
    }
}

/// Queues the events of a pad having gone from `p` to `c`, as
/// `change_events` says.
#[verifier::spinoff_prover]
fn queue_changes(
    manager: &GamepadManager,
    buffer: &mut Vec<InputEvent>,
    device_id: usize,
    p: GamepadState,
    c: GamepadState,
    timestamp: u64,
)
    requires
        state_of(manager.devices(), device_id) == Some(c),
        sticks_defined(p, c),
    ensures
        final(buffer)@ == old(buffer)@ + change_events(device_id, p, c, timestamp),
{
    let ghost b0 = buffer@;
    let ghost e1 = event_if(c.buttons != p.buttons, state_event(device_id, c, timestamp, InputEventType::Button));
    let ghost e2 = event_if(
        stick_moved(p.left_stick_x, c.left_stick_x, p.left_stick_y, c.left_stick_y),
        state_event(device_id, c, timestamp, InputEventType::Axis),
    );
    let ghost e3 = event_if(
        stick_moved(p.right_stick_x, c.right_stick_x, p.right_stick_y, c.right_stick_y),
        state_event(device_id, c, timestamp, InputEventType::Axis),
    );
    let ghost e4 = event_if(
        trigger_moved(p.left_trigger, c.left_trigger),
        state_event(device_id, c, timestamp, InputEventType::Trigger),
    );
    let ghost e5 = event_if(
        trigger_moved(p.right_trigger, c.right_trigger),
        state_event(device_id, c, timestamp, InputEventType::Trigger),
    );
    queue_button_step(manager, buffer, device_id, p, c, timestamp);
    assert(buffer@ == b0 + e1);
    queue_stick_step(manager, buffer, device_id, false, p, c, timestamp);
    assert(buffer@ =~= b0 + e1 + e2);
    queue_stick_step(manager, buffer, device_id, true, p, c, timestamp);
    assert(buffer@ =~= b0 + e1 + e2 + e3);
    queue_trigger_step(manager, buffer, device_id, false, p, c, timestamp);
    assert(buffer@ =~= b0 + e1 + e2 + e3 + e4);
    queue_trigger_step(manager, buffer, device_id, true, p, c, timestamp);
    assert(buffer@ =~= b0 + e1 + e2 + e3 + e4 + e5);
    assert(change_events(device_id, p, c, timestamp) == e1 + e2 + e3 + e4 + e5);
    assert(b0 + (e1 + e2 + e3 + e4 + e5) =~= b0 + e1 + e2 + e3 + e4 + e5);
}

/// Replacing or adding the entry of device `i` keeps the later devices'
/// comparisons defined.
proof fn lemma_defined_after_entry(
    before: Seq<(usize, GamepadState)>,
    after: Seq<(usize, GamepadState)>,
    m: GamepadManager,
    i: int,
)
    requires
        m.wf(),
        0 <= i < m.devices().len(),
        comparisons_defined(before, m.devices(), i),
        before.len() <= after.len(),
        forall|k: int| 0 <= k < after.len() ==> (#[trigger] after[k] == before[k] || after[k].0 == m.devices()[i].id),
        forall|k: int| before.len() <= k < after.len() ==> #[trigger] after[k].0 == m.devices()[i].id,
    ensures
        comparisons_defined(after, m.devices(), i + 1),
{
    let devs = m.devices();
    assert forall|k: int, j: int|
        #![trigger devs[k], after[j]]
        i + 1 <= k < devs.len() && 0 <= j < after.len() && devs[k].connected && after[j].0 == devs[k].id
            implies sticks_defined(after[j].1, devs[k].state) by {
        assert(devs[k].id != devs[i].id);
        assert(after[j] == before[j]);
        assert(devs[k] == devs[k] && before[j] == before[j]);
    }
}

/// One device's turn in a poll, as `visit` says.
fn visit_device(
    manager: &GamepadManager,
    prev: &mut Vec<(usize, GamepadState)>,
    buffer: &mut Vec<InputEvent>,
    i: usize,
    timestamp: u64,
)
    requires
        manager.wf(),
        i < manager.devices().len(),
        comparisons_defined(old(prev)@, manager.devices(), i as int),
    ensures
        final(prev)@ == visit((old(prev)@, old(buffer)@), manager.devices()[i as int], timestamp).0,
        final(buffer)@ == visit((old(prev)@, old(buffer)@), manager.devices()[i as int], timestamp).1,
        comparisons_defined(final(prev)@, manager.devices(), i + 1),
{
    let ghost devs = manager.devices();
    let device = &manager.devices[i];
    assert(device@ == devs[i as int]);
    if !device.is_connected() {
        assert forall|k: int, j: int|
            #![trigger devs[k], prev@[j]]
            i + 1 <= k < devs.len() && 0 <= j < prev@.len() && devs[k].connected && prev@[j].0 == devs[k].id
                implies sticks_defined(prev@[j].1, devs[k].state) by {
            assert(devs[k] == devs[k] && prev@[j] == prev@[j]);
        }
        return;
    }
    let current_state = device.get_state();
    let device_id = device.get_id();
    let ghost before = prev@;
    match find_previous(prev, device_id) {
        Some(j) => {
            let prev_state = prev[j].1;
            proof {
                assert(is_first_entry(prev@, device_id, j as int));
                assert(devs[i as int] == devs[i as int] && prev@[j as int] == prev@[j as int]);
            }
            proof {
                lemma_own_state(devs, *manager, i as int);
            }
            queue_changes(manager, buffer, device_id, prev_state, current_state, timestamp);
            prev.set(j, (device_id, current_state));
            proof {
                lemma_defined_after_entry(before, prev@, *manager, i as int);
            }
        },
        None => {
            prev.push((device_id, current_state));
            queue_connection_event(buffer, device_id, true, timestamp);
            proof {
                lemma_defined_after_entry(before, prev@, *manager, i as int);
            }
        },
    }
}

} // verus!

verus! {

/// Drops the entries of pads that are gone, queueing a disconnection event
/// for each, as `sweep` says.
fn sweep_disconnected(
    manager: &GamepadManager,
    prev: &mut Vec<(usize, GamepadState)>,
    buffer: &mut Vec<InputEvent>,
    timestamp: u64,
)
    ensures
        final(prev)@ == sweep(old(prev)@, manager.devices(), timestamp).0,
        final(buffer)@ == old(buffer)@ + sweep(old(prev)@, manager.devices(), timestamp).1,
{
    let ghost p0 = prev@;
    let ghost b0 = buffer@;
    let ghost devs = manager.devices();
    let mut kept: Vec<(usize, GamepadState)> = Vec::new();
    let mut k: usize = 0;
    while k < prev.len()
        invariant
            prev@ == p0,
            devs == manager.devices(),
            0 <= k <= p0.len(),
            kept@ == sweep(p0.take(k as int), devs, timestamp).0,
            buffer@ == b0 + sweep(p0.take(k as int), devs, timestamp).1,
        decreases p0.len() - k,
    {
        assert(p0.take(k + 1).drop_last() =~= p0.take(k as int));
        let entry = prev[k];
        assert(p0.take(k + 1).last() == entry);
        if device_is_live(manager, entry.0) {
            kept.push(entry);
        } else {
            queue_connection_event(buffer, entry.0, false, timestamp);
            assert(buffer@ =~= b0 + sweep(p0.take(k + 1), devs, timestamp).1);
        }
        k += 1;
    }
    assert(p0.take(k as int) =~= p0);
    *prev = kept;
}

/// A poll at time `timestamp`: fills the recorded states on the first poll,
/// gives each device its turn, then drops the pads that are gone.
pub fn poll_gamepads_at(subsystem: &mut GamepadSubsystem, timestamp: u64)
    requires
        old(subsystem).manager.wf(),
        poll_defined(*old(subsystem)),
    ensures
        polled(*old(subsystem), *final(subsystem), timestamp),
{
    if !subsystem.initialized {
        subsystem.previous_states = collect_connected(&subsystem.manager);
        subsystem.initialized = true;
    }
    let ghost devs = subsystem.manager.devices();
    let ghost p0 = subsystem.previous_states@;
    let ghost b0 = subsystem.event_buffer@;
    assert(p0 == start_entries(*old(subsystem)));
    let n = subsystem.manager.devices.len();
    let mut i: usize = 0;
    while i < n
        invariant
            subsystem.manager == old(subsystem).manager,
            subsystem.manager.wf(),
            devs == subsystem.manager.devices(),
            n == devs.len(),
            0 <= i <= n,
            subsystem.initialized,
            subsystem.poll_ticks == old(subsystem).poll_ticks,
            subsystem.previous_states@ == visit_all(devs.take(i as int), (p0, b0), timestamp).0,
            subsystem.event_buffer@ == visit_all(devs.take(i as int), (p0, b0), timestamp).1,
            comparisons_defined(subsystem.previous_states@, devs, i as int),
        decreases n - i,
    {
        assert(devs.take(i + 1).drop_last() =~= devs.take(i as int));
        visit_device(&subsystem.manager, &mut subsystem.previous_states, &mut subsystem.event_buffer, i, timestamp);
        i += 1;
    }
    assert(devs.take(n as int) =~= devs);
    sweep_disconnected(&subsystem.manager, &mut subsystem.previous_states, &mut subsystem.event_buffer, timestamp);
}

/// Get current timestamp in milliseconds (0 when the clock reads before
/// the epoch).
fn get_timestamp_ms() -> u64 {
    let now = system_time_now();
    match elapsed_since_epoch(&now) {
        Some(d) => duration_as_millis(&d),
        None => 0,
    }
}

/// Poll all gamepads for state changes and generate events, stamped with
/// the clock's time.
pub fn poll_gamepads(subsystem: &mut GamepadSubsystem)
    requires
        old(subsystem).manager.wf(),
        poll_defined(*old(subsystem)),
    ensures
        exists|ts: u64| polled(*old(subsystem), *final(subsystem), ts),
{
    let timestamp = get_timestamp_ms();
    poll_gamepads_at(subsystem, timestamp);
}

/// Get all pending gamepad events since the last call: polls, then hands
/// out the queued events and empties the queue.
pub fn get_pending_events(subsystem: &mut GamepadSubsystem) -> (r: Result<Vec<InputEvent>, &'static str>)
    requires
        old(subsystem).manager.wf(),
        poll_defined(*old(subsystem)),
    ensures
        r is Ok,
        exists|ts: u64, s: GamepadSubsystem|
            polled(*old(subsystem), s, ts)
            && r->Ok_0@ == s.event_buffer@
            && *final(subsystem) == (GamepadSubsystem { event_buffer: final(subsystem).event_buffer, ..s }),
        final(subsystem).event_buffer@ == Seq::<InputEvent>::empty(),
{
    poll_gamepads(subsystem);
    let ghost s = *subsystem;
    let mut events: Vec<InputEvent> = Vec::new();
    std::mem::swap(&mut events, &mut subsystem.event_buffer);
    Ok(events)
}

} // verus!

verus! {

/// Every connected device has an entry, and its first entry holds the
/// device's state.
pub open spec fn recorded(prev: Seq<(usize, GamepadState)>, devs: Seq<GamepadDeviceView>) -> bool {
    forall|k: int|
        0 <= k < devs.len() && #[trigger] devs[k].connected ==> find_entry(prev, devs[k].id) >= 0
            && prev[find_entry(prev, devs[k].id)] == (devs[k].id, devs[k].state)
}

/// Every entry belongs to a connected device.
pub open spec fn all_live(prev: Seq<(usize, GamepadState)>, devs: Seq<GamepadDeviceView>) -> bool {
    forall|j: int| 0 <= j < prev.len() ==> #[trigger] is_live(devs, prev[j].0)
}

/// No two devices share an id.
pub open spec fn unique_ids(devs: Seq<GamepadDeviceView>) -> bool {
    forall|i: int, j: int| 0 <= i < devs.len() && 0 <= j < devs.len() && i != j ==> #[trigger] devs[i].id != #[trigger] devs[j].id
}

proof fn lemma_find_entry_is_first(s: Seq<(usize, GamepadState)>, x: usize)
    ensures
        find_entry(s, x) >= 0 ==> is_first_entry(s, x, find_entry(s, x)),
        find_entry(s, x) < 0 ==> find_entry(s, x) == -1 && forall|j: int| 0 <= j < s.len() ==> s[j].0 != x,
        forall|j: int| is_first_entry(s, x, j) ==> find_entry(s, x) == j,
{
    if exists|j: int| is_first_entry(s, x, j) {
        let c = choose|j: int| is_first_entry(s, x, j);
        assert forall|j: int| is_first_entry(s, x, j) implies c == j by {
            if j < c {
                assert(s[j].0 != x);
            } else if c < j {
                assert(s[c].0 != x);
            }
        }
    } else {
        assert forall|j: int| 0 <= j < s.len() implies s[j].0 != x by {
            if s[j].0 == x {
                let m = choose|m: int| 0 <= m <= j && s[m].0 == x && forall|n: int| 0 <= n < m ==> s[n].0 != x;
                assert(exists|m: int| 0 <= m <= j && s[m].0 == x && forall|n: int| 0 <= n < m ==> s[n].0 != x) by {
                    lemma_first_match(s, x, j);
                }
                assert(is_first_entry(s, x, m));
            }
        }
    }
}

proof fn lemma_first_match(s: Seq<(usize, GamepadState)>, x: usize, j: int)
    requires
        0 <= j < s.len(),
        s[j].0 == x,
    ensures
        exists|m: int| 0 <= m <= j && s[m].0 == x && forall|n: int| 0 <= n < m ==> s[n].0 != x,
    decreases j,
{
    if exists|n: int| 0 <= n < j && s[n].0 == x {
        let n = choose|n: int| 0 <= n < j && s[n].0 == x;
        lemma_first_match(s, x, n);
    } else {
        assert(forall|n: int| 0 <= n < j ==> s[n].0 != x);
    }
}

proof fn lemma_find_entry_same_ids(s: Seq<(usize, GamepadState)>, t: Seq<(usize, GamepadState)>, x: usize)
    requires
        s.len() == t.len(),
        forall|i: int| 0 <= i < s.len() ==> s[i].0 == t[i].0,
    ensures
        find_entry(s, x) == find_entry(t, x),
{
    lemma_find_entry_is_first(s, x);
    lemma_find_entry_is_first(t, x);
    if find_entry(s, x) >= 0 {
        assert(is_first_entry(t, x, find_entry(s, x)));
    } else if find_entry(t, x) >= 0 {
        assert(is_first_entry(s, x, find_entry(t, x)));
    }
}

proof fn lemma_find_entry_push(s: Seq<(usize, GamepadState)>, e: (usize, GamepadState), x: usize)
    ensures
        find_entry(s.push(e), x) == if find_entry(s, x) >= 0 {
            find_entry(s, x)
        } else if e.0 == x {
            s.len() as int
        } else {
            -1
        },
{
    let t = s.push(e);
    lemma_find_entry_is_first(s, x);
    lemma_find_entry_is_first(t, x);
    if find_entry(s, x) >= 0 {
        assert(is_first_entry(t, x, find_entry(s, x)));
    } else if e.0 == x {
        assert(is_first_entry(t, x, s.len() as int));
    } else {
        assert forall|j: int| 0 <= j < t.len() implies t[j].0 != x by {
            if j < s.len() {
                assert(t[j] == s[j]);
            }
        }
        if find_entry(t, x) >= 0 {
            assert(t[find_entry(t, x)].0 == x);
        }
    }
}

/// A visit records the visited device and keeps the records of the others.
proof fn lemma_visit_records(
    acc: (Seq<(usize, GamepadState)>, Seq<InputEvent>),
    devs: Seq<GamepadDeviceView>,
    ts: u64,
)
    requires
        devs.len() > 0,
        unique_ids(devs),
        recorded(acc.0, devs.drop_last()),
    ensures
        recorded(visit(acc, devs.last(), ts).0, devs),
{
    let d = devs.last();
    let prev = acc.0;
    let r = visit(acc, d, ts).0;
    let n = devs.len() - 1;
    if d.connected {
        let j = find_entry(prev, d.id);
        lemma_find_entry_is_first(prev, d.id);
        if j >= 0 {
            assert forall|i: int| 0 <= i < prev.len() implies prev[i].0 == r[i].0 by {}
            assert forall|k: int| 0 <= k < devs.len() && #[trigger] devs[k].connected implies find_entry(r, devs[k].id)
                >= 0 && r[find_entry(r, devs[k].id)] == (devs[k].id, devs[k].state) by {
                lemma_find_entry_same_ids(prev, r, devs[k].id);
                if k < n {
                    assert(devs.drop_last()[k] == devs[k]);
                    assert(devs[k].id != devs[n].id);
                    lemma_find_entry_is_first(prev, devs[k].id);
                }
            }
        } else {
            assert forall|k: int| 0 <= k < devs.len() && #[trigger] devs[k].connected implies find_entry(r, devs[k].id)
                >= 0 && r[find_entry(r, devs[k].id)] == (devs[k].id, devs[k].state) by {
                lemma_find_entry_push(prev, (d.id, d.state), devs[k].id);
                if k < n {
                    assert(devs.drop_last()[k] == devs[k]);
                    lemma_find_entry_is_first(prev, devs[k].id);
                }
            }
        }
    } else {
        assert forall|k: int| 0 <= k < devs.len() && #[trigger] devs[k].connected implies find_entry(r, devs[k].id) >= 0
            && r[find_entry(r, devs[k].id)] == (devs[k].id, devs[k].state) by {
            assert(k < n);
            assert(devs.drop_last()[k] == devs[k]);
        }
    }
}

/// After every device's turn, every connected device is recorded.
proof fn lemma_visit_all_records(
    devs: Seq<GamepadDeviceView>,
    acc: (Seq<(usize, GamepadState)>, Seq<InputEvent>),
    ts: u64,
)
    requires
        unique_ids(devs),
    ensures
        recorded(visit_all(devs, acc, ts).0, devs),
    decreases devs.len(),
{
    if devs.len() > 0 {
        let init = devs.drop_last();
        assert(unique_ids(init)) by {
            assert forall|i: int, j: int| 0 <= i < init.len() && 0 <= j < init.len() && i != j implies #[trigger] init[i].id
                != #[trigger] init[j].id by {
                assert(init[i] == devs[i] && init[j] == devs[j]);
            }
        }
        lemma_visit_all_records(init, acc, ts);
        lemma_visit_records(visit_all(init, acc, ts), devs, ts);
    }
}

} // verus!

verus! {

/// Sweeping keeps only live entries, and keeps the first entry of each live
/// id as it was.
proof fn lemma_sweep_keeps(p: Seq<(usize, GamepadState)>, devs: Seq<GamepadDeviceView>, ts: u64)
    ensures
        all_live(sweep(p, devs, ts).0, devs),
        forall|x: usize|
            is_live(devs, x) ==> {
                &&& (find_entry(#[trigger] sweep(p, devs, ts).0, x) >= 0 <==> find_entry(p, x) >= 0)
                &&& find_entry(p, x) >= 0 ==> sweep(p, devs, ts).0[find_entry(sweep(p, devs, ts).0, x)] == p[find_entry(p, x)]
            },
    decreases p.len(),
{
    if p.len() > 0 {
        let init = p.drop_last();
        let last = p.last();
        lemma_sweep_keeps(init, devs, ts);
        let q = sweep(init, devs, ts).0;
        let r = sweep(p, devs, ts).0;
        assert(p == init.push(last));
        if is_live(devs, last.0) {
            assert(r == q.push(last));
            assert forall|j: int| 0 <= j < r.len() implies #[trigger] is_live(devs, r[j].0) by {
                if j < q.len() {
                    assert(r[j] == q[j]);
                }
            }
            assert forall|x: usize| is_live(devs, x) implies {
                &&& (find_entry(#[trigger] sweep(p, devs, ts).0, x) >= 0 <==> find_entry(p, x) >= 0)
                &&& find_entry(p, x) >= 0 ==> sweep(p, devs, ts).0[find_entry(sweep(p, devs, ts).0, x)] == p[find_entry(p, x)]
            } by {
                lemma_find_entry_push(q, last, x);
                lemma_find_entry_push(init, last, x);
                lemma_find_entry_is_first(q, x);
                lemma_find_entry_is_first(init, x);
                if find_entry(init, x) >= 0 {
                    assert(p[find_entry(init, x)] == init[find_entry(init, x)]);
                    assert(r[find_entry(q, x)] == q[find_entry(q, x)]);
                }
            }
        } else {
            assert(r == q);
            assert forall|x: usize| is_live(devs, x) implies {
                &&& (find_entry(#[trigger] sweep(p, devs, ts).0, x) >= 0 <==> find_entry(p, x) >= 0)
                &&& find_entry(p, x) >= 0 ==> sweep(p, devs, ts).0[find_entry(sweep(p, devs, ts).0, x)] == p[find_entry(p, x)]
            } by {
                lemma_find_entry_push(init, last, x);
                lemma_find_entry_is_first(init, x);
                if find_entry(init, x) >= 0 {
                    assert(p[find_entry(init, x)] == init[find_entry(init, x)]);
                }
            }
        }
    }
}

/// A pad that did not change yields no event.
proof fn lemma_no_change_no_events(id: usize, c: GamepadState, ts: u64)
    ensures
        change_events(id, c, c, ts) == Seq::<InputEvent>::empty(),
{
    assert(change_events(id, c, c, ts) =~= Seq::<InputEvent>::empty());
}

/// Visiting devices whose states are all recorded changes nothing.
proof fn lemma_visit_all_quiet(
    ds: Seq<GamepadDeviceView>,
    p: Seq<(usize, GamepadState)>,
    e: Seq<InputEvent>,
    ts: u64,
)
    requires
        recorded(p, ds),
    ensures
        visit_all(ds, (p, e), ts) == (p, e),
    decreases ds.len(),
{
    if ds.len() > 0 {
        let init = ds.drop_last();
        assert(recorded(p, init)) by {
            assert forall|k: int| 0 <= k < init.len() && #[trigger] init[k].connected implies find_entry(p, init[k].id) >= 0
                && p[find_entry(p, init[k].id)] == (init[k].id, init[k].state) by {
                assert(init[k] == ds[k]);
            }
        }
        lemma_visit_all_quiet(init, p, e, ts);
        let d = ds.last();
        assert(d == ds[ds.len() - 1]);
        if d.connected {
            let j = find_entry(p, d.id);
            lemma_no_change_no_events(d.id, d.state, ts);
            assert(p.update(j, (d.id, d.state)) =~= p);
            assert(e + Seq::<InputEvent>::empty() =~= e);
        }
    }
}

/// Sweeping live entries drops nothing and announces nothing.
proof fn lemma_sweep_quiet(p: Seq<(usize, GamepadState)>, devs: Seq<GamepadDeviceView>, ts: u64)
    requires
        all_live(p, devs),
    ensures
        sweep(p, devs, ts) == (p, Seq::<InputEvent>::empty()),
    decreases p.len(),
{
    if p.len() > 0 {
        let init = p.drop_last();
        assert(all_live(init, devs)) by {
            assert forall|j: int| 0 <= j < init.len() implies #[trigger] is_live(devs, init[j].0) by {
                assert(init[j] == p[j]);
            }
        }
        lemma_sweep_quiet(init, devs, ts);
        assert(is_live(devs, p[p.len() - 1].0));
        assert(init.push(p.last()) =~= p);
    }
}

/// A poll reports each change once: polling again, with no pad changed in
/// between, queues no further event and leaves the recorded states as they
/// are.
pub proof fn lemma_repoll_is_quiet(s0: GamepadSubsystem, s1: GamepadSubsystem, s2: GamepadSubsystem, t1: u64, t2: u64)
    requires
        s0.manager.wf(),
        polled(s0, s1, t1),
        polled(s1, s2, t2),
    ensures
        s2.event_buffer@ == s1.event_buffer@,
        s2.previous_states@ == s1.previous_states@,
{
    let devs = s0.manager.devices();
    assert(unique_ids(devs)) by {
        assert forall|i: int, j: int| 0 <= i < devs.len() && 0 <= j < devs.len() && i != j implies #[trigger] devs[i].id
            != #[trigger] devs[j].id by {}
    }
    let r1 = visit_all(devs, (start_entries(s0), s0.event_buffer@), t1);
    lemma_visit_all_records(devs, (start_entries(s0), s0.event_buffer@), t1);
    lemma_sweep_keeps(r1.0, devs, t1);
    let p1 = s1.previous_states@;
    assert(p1 == sweep(r1.0, devs, t1).0);
    assert(recorded(p1, devs)) by {
        assert forall|k: int| 0 <= k < devs.len() && #[trigger] devs[k].connected implies find_entry(p1, devs[k].id) >= 0
            && p1[find_entry(p1, devs[k].id)] == (devs[k].id, devs[k].state) by {
            assert(is_live(devs, devs[k].id));
        }
    }
    assert(start_entries(s1) == p1);
    assert(s1.manager.devices() == devs);
    lemma_visit_all_quiet(devs, p1, s1.event_buffer@, t2);
    lemma_sweep_quiet(p1, devs, t2);
    assert(s1.event_buffer@ + Seq::<InputEvent>::empty() =~= s1.event_buffer@);
}

/// Pending events are handed out once: after `get_pending_events` has
/// polled and taken the queue, a next poll with no pad changed in between
/// finds nothing to hand out.
pub proof fn lemma_pending_taken_once(
    s0: GamepadSubsystem,
    s1: GamepadSubsystem,
    taken: GamepadSubsystem,
    s2: GamepadSubsystem,
    t1: u64,
    t2: u64,
)
    requires
        s0.manager.wf(),
        polled(s0, s1, t1),
        taken == (GamepadSubsystem { event_buffer: taken.event_buffer, ..s1 }),
        taken.event_buffer@ == Seq::<InputEvent>::empty(),
        polled(taken, s2, t2),
    ensures
        s2.event_buffer@ == Seq::<InputEvent>::empty(),
        s2.previous_states@ == s1.previous_states@,
{
    let devs = s0.manager.devices();
    assert(unique_ids(devs)) by {
        assert forall|i: int, j: int| 0 <= i < devs.len() && 0 <= j < devs.len() && i != j implies #[trigger] devs[i].id
            != #[trigger] devs[j].id by {}
    }
    let r1 = visit_all(devs, (start_entries(s0), s0.event_buffer@), t1);
    lemma_visit_all_records(devs, (start_entries(s0), s0.event_buffer@), t1);
    lemma_sweep_keeps(r1.0, devs, t1);
    let p1 = s1.previous_states@;
    assert(p1 == sweep(r1.0, devs, t1).0);
    assert(recorded(p1, devs)) by {
        assert forall|k: int| 0 <= k < devs.len() && #[trigger] devs[k].connected implies find_entry(p1, devs[k].id) >= 0
            && p1[find_entry(p1, devs[k].id)] == (devs[k].id, devs[k].state) by {
            assert(is_live(devs, devs[k].id));
        }
    }
    assert(start_entries(taken) == p1);
    assert(taken.manager.devices() == devs);
    lemma_visit_all_quiet(devs, p1, taken.event_buffer@, t2);
    lemma_sweep_quiet(p1, devs, t2);
    assert(taken.event_buffer@ + Seq::<InputEvent>::empty() =~= Seq::<InputEvent>::empty());
}

// ---------------------------------------------------------------------------
// The interrupt path: pads are read, and what changed is reported to the
// debug console.

/// A direction a stick was pushed in.
#[derive(Debug, Clone, Copy, PartialEq, Eq, Structural)]
pub enum StickDirection {
    Left,
    Right,
    Up,
    Down,
}

/// What the interrupt path reports to the debug console.
#[derive(Debug, Clone, Copy, PartialEq, Eq, Structural)]
pub enum GamepadReport {
    /// A button went down.
    ButtonPressed { device: usize, button: u32 },
    /// A stick (0 left, otherwise right) moved far in a direction.
    StickMoved { device: usize, stick: u8, direction: StickDirection },
    /// A trigger (0 left, otherwise right) was pulled past 200.
    TriggerPressed { device: usize, trigger: u8, value: u8 },
}

/// The buttons the console reports, in the order it reports them.
pub open spec fn button_order() -> Seq<u32> {
    seq![
        BTN_A,
        BTN_B,
        BTN_X,
        BTN_Y,
        BTN_LEFT_SHOULDER,
        BTN_RIGHT_SHOULDER,
        BTN_BACK,
        BTN_START,
        BTN_LEFT_THUMB,
        BTN_RIGHT_THUMB,
        BTN_DPAD_UP,
        BTN_DPAD_DOWN,
        BTN_DPAD_LEFT,
        BTN_DPAD_RIGHT,
    ]
}

/// A report for each button of `order` set in `pressed`, in order.
pub open spec fn press_reports(device: usize, pressed: u32, order: Seq<u32>) -> Seq<GamepadReport>
    decreases order.len(),
{
    if order.len() == 0 {
        Seq::empty()
    } else {
        press_reports(device, pressed, order.drop_last()) + if pressed & order.last() != 0 {
            seq![GamepadReport::ButtonPressed { device, button: order.last() }]
        } else {
            Seq::empty()
        }
    }
}

fn reported_buttons() -> (v: Vec<u32>)
    ensures
        v@ == button_order(),
{
    let v = vec![
        BTN_A,
        BTN_B,
        BTN_X,
        BTN_Y,
        BTN_LEFT_SHOULDER,
        BTN_RIGHT_SHOULDER,
        BTN_BACK,
        BTN_START,
        BTN_LEFT_THUMB,
        BTN_RIGHT_THUMB,
        BTN_DPAD_UP,
        BTN_DPAD_DOWN,
        BTN_DPAD_LEFT,
        BTN_DPAD_RIGHT,
    ];
    assert(v@ =~= button_order());
    v
}

/// The buttons that went down between `old_buttons` and `new_buttons`, in
/// the console's order.
pub fn process_button_changes(device_id: usize, old_buttons: u32, new_buttons: u32) -> (r: Vec<GamepadReport>)
    ensures
        r@ == press_reports(device_id, new_buttons & !old_buttons, button_order()),
{
    let pressed = new_buttons & !old_buttons;
    let order = reported_buttons();
    let mut out: Vec<GamepadReport> = Vec::new();
    let mut k: usize = 0;
    while k < order.len()
        invariant
            0 <= k <= order@.len(),
            order@ == button_order(),
            out@ == press_reports(device_id, pressed, order@.take(k as int)),
        decreases order@.len() - k,
    {
        assert(order@.take(k + 1).drop_last() =~= order@.take(k as int));
        let mask = order[k];
        if pressed & mask != 0 {
            out.push(GamepadReport::ButtonPressed { device: device_id, button: mask });
        }
        k += 1;
        assert(out@ =~= press_reports(device_id, pressed, order@.take(k as int)));
    }
    assert(order@.take(order@.len() as int) =~= order@);
    out
}

/// The console's name for a button.
pub open spec fn button_label(button: u32) -> Seq<char> {
    if button == BTN_A {
        "A"@
    } else if button == BTN_B {
        "B"@
    } else if button == BTN_X {
        "X"@
    } else if button == BTN_Y {
        "Y"@
    } else if button == BTN_LEFT_SHOULDER {
        "LB"@
    } else if button == BTN_RIGHT_SHOULDER {
        "RB"@
    } else if button == BTN_BACK {
        "Back"@
    } else if button == BTN_START {
        "Start"@
    } else if button == BTN_LEFT_THUMB {
        "L3"@
    } else if button == BTN_RIGHT_THUMB {
        "R3"@
    } else if button == BTN_DPAD_UP {
        "Up"@
    } else if button == BTN_DPAD_DOWN {
        "Down"@
    } else if button == BTN_DPAD_LEFT {
        "Left"@
    } else if button == BTN_DPAD_RIGHT {
        "Right"@
    } else {
        "Unknown"@
    }
}

/// The buttons that have a name of their own: one bit each.
pub open spec fn is_named_button(button: u32) -> bool {
    button == BTN_A || button == BTN_B || button == BTN_X || button == BTN_Y || button == BTN_LEFT_SHOULDER || button == BTN_RIGHT_SHOULDER || button == BTN_BACK || button == BTN_START || button == BTN_LEFT_THUMB || button == BTN_RIGHT_THUMB || button == BTN_DPAD_UP || button == BTN_DPAD_DOWN || button == BTN_DPAD_LEFT || button == BTN_DPAD_RIGHT
}

/// A button value is called "Unknown" exactly when it is not one of the
/// named buttons, and two named buttons never share a name; the d-pad's
/// buttons carry the names of the stick directions.
pub proof fn lemma_button_names_distinct(b1: u32, b2: u32)
    ensures
        button_label(b1) == "Unknown"@ <==> !is_named_button(b1),
        is_named_button(b1) && is_named_button(b2) && b1 != b2 ==> button_label(b1) != button_label(b2),
        button_label(BTN_DPAD_LEFT) == "Left"@ && button_label(BTN_DPAD_RIGHT) == "Right"@
            && button_label(BTN_DPAD_UP) == "Up"@ && button_label(BTN_DPAD_DOWN) == "Down"@,
{
    reveal_strlit("A");
    reveal_strlit("B");
    reveal_strlit("X");
    reveal_strlit("Y");
    reveal_strlit("LB");
    reveal_strlit("RB");
    reveal_strlit("Back");
    reveal_strlit("Start");
    reveal_strlit("L3");
    reveal_strlit("R3");
    reveal_strlit("Up");
    reveal_strlit("Down");
    reveal_strlit("Left");
    reveal_strlit("Right");
    reveal_strlit("Unknown");
    let l1 = button_label(b1);
    let l2 = button_label(b2);
    if l1 == l2 {
        assert(l1.len() == l2.len() && l1[0] == l2[0] && l1[l1.len() - 1] == l2[l2.len() - 1]);
    }
    if is_named_button(b1) && l1 == "Unknown"@ {
        assert(l1.len() == 7);
    }
}

/// The console's name for a button (see `button_label`).
pub fn button_name(button: u32) -> (name: &'static str)
    ensures
        name@ == button_label(button),
{
    match button {
        BTN_A => "A",
        BTN_B => "B",
        BTN_X => "X",
        BTN_Y => "Y",
        BTN_LEFT_SHOULDER => "LB",
        BTN_RIGHT_SHOULDER => "RB",
        BTN_BACK => "Back",
        BTN_START => "Start",
        BTN_LEFT_THUMB => "L3",
        BTN_RIGHT_THUMB => "R3",
        BTN_DPAD_UP => "Up",
        BTN_DPAD_DOWN => "Down",
        BTN_DPAD_LEFT => "Left",
        BTN_DPAD_RIGHT => "Right",
        _ => "Unknown",
    }
}

/// The magnitude of a stick axis.
/// A stick at (`x`, `y`): nothing inside the dead zone (both axes under
/// 3200) or for a small push; past 16000 on an axis, the direction of the
/// larger axis (positive x right, positive y down).
pub open spec fn stick_report(device: usize, stick: u8, x: i16, y: i16) -> Option<GamepadReport> {
    if abs_int(x as int) < 3200 && abs_int(y as int) < 3200 {
        None
    } else if abs_int(x as int) > 16000 || abs_int(y as int) > 16000 {
        let direction = if abs_int(x as int) > abs_int(y as int) {
            if x > 0 { StickDirection::Right } else { StickDirection::Left }
        } else {
            if y > 0 { StickDirection::Down } else { StickDirection::Up }
        };
        Some(GamepadReport::StickMoved { device, stick, direction })
    } else {
        None
    }
}

/// A stick is reported exactly when one axis is pushed past 16000 either
/// way, with the device and stick it came from, and the direction is the
/// sign of the axis pushed furthest: right for positive x and left for
/// negative x where x is the larger, down for positive y and up for
/// negative y otherwise.
pub proof fn lemma_stick_direction_follows_axis(device: usize, stick: u8, x: i16, y: i16)
    ensures
        ({
            let ax = if x < 0 { -(x as int) } else { x as int };
            let ay = if y < 0 { -(y as int) } else { y as int };
            &&& stick_report(device, stick, x, y) is Some <==> (ax > 16000 || ay > 16000)
            &&& match stick_report(device, stick, x, y) {
                Some(GamepadReport::StickMoved { device: d, stick: k, direction }) => {
                    &&& d == device && k == stick
                    &&& ax > ay && x > 0 ==> direction == StickDirection::Right
                    &&& ax > ay && x < 0 ==> direction == StickDirection::Left
                    &&& ax <= ay && y > 0 ==> direction == StickDirection::Down
                    &&& ax <= ay && y < 0 ==> direction == StickDirection::Up
                },
                Some(_) => false,
                None => true,
            }
        }),
{
}

/// Mirroring a stick left to right mirrors its report: where x is the
/// larger axis, the direction for `-x` is the opposite of that for `x`.
pub proof fn lemma_stick_mirror(device: usize, stick: u8, x: i16, y: i16)
    requires
        x != i16::MIN,
    ensures
        ({
            let ax = if x < 0 { -(x as int) } else { x as int };
            let ay = if y < 0 { -(y as int) } else { y as int };
            ax > ay && ax > 16000 ==> match (stick_report(device, stick, x, y), stick_report(device, stick, (-x) as i16, y)) {
                (
                    Some(GamepadReport::StickMoved { direction: d1, .. }),
                    Some(GamepadReport::StickMoved { direction: d2, .. }),
                ) => (d1 == StickDirection::Left <==> d2 == StickDirection::Right) && (d1 == StickDirection::Right
                    <==> d2 == StickDirection::Left) && d1 != d2,
                _ => false,
            }
        }),
{
}

/// Report a stick movement (see `stick_report`).
pub fn process_stick_movement(device_id: usize, stick_id: u8, x: i16, y: i16) -> (r: Option<GamepadReport>)
    requires
        x != i16::MIN,
        y != i16::MIN,
    ensures
        r == stick_report(device_id, stick_id, x, y),
{
    let deadzone: i16 = 3200;
    if abs_i16(x) < deadzone && abs_i16(y) < deadzone {
        return None;
    }
    if abs_i16(x) > 16000 || abs_i16(y) > 16000 {
        let direction = if abs_i16(x) > abs_i16(y) {
            if x > 0 { StickDirection::Right } else { StickDirection::Left }
        } else {
            if y > 0 { StickDirection::Down } else { StickDirection::Up }
        };
        return Some(GamepadReport::StickMoved { device: device_id, stick: stick_id, direction });
    }
    None
}

/// A trigger pulled past 200 is reported.
pub open spec fn trigger_report(device: usize, trigger: u8, value: u8) -> Option<GamepadReport> {
    if value > 200 {
        Some(GamepadReport::TriggerPressed { device, trigger, value })
    } else {
        None
    }
}

/// Report a trigger movement (see `trigger_report`).
pub fn process_trigger_movement(device_id: usize, trigger_id: u8, value: u8) -> (r: Option<GamepadReport>)
    ensures
        r == trigger_report(device_id, trigger_id, value),
{
    if value > 200 {
        Some(GamepadReport::TriggerPressed { device: device_id, trigger: trigger_id, value })
    } else {
        None
    }
}

pub open spec fn opt_seq(o: Option<GamepadReport>) -> Seq<GamepadReport> {
    match o {
        Some(r) => seq![r],
        None => Seq::empty(),
    }
}

/// What changed on a pad between `old` and `new`, in the console's order:
/// buttons pressed, left stick, right stick, left trigger, right trigger.
pub open spec fn device_reports(id: usize, old: GamepadState, new: GamepadState) -> Seq<GamepadReport> {
    (if old.buttons != new.buttons {
        press_reports(id, new.buttons & !old.buttons, button_order())
    } else {
        Seq::empty()
    }) + opt_seq(
        if old.left_stick_x != new.left_stick_x || old.left_stick_y != new.left_stick_y {
            stick_report(id, 0, new.left_stick_x, new.left_stick_y)
        } else {
            None
        },
    ) + opt_seq(
        if old.right_stick_x != new.right_stick_x || old.right_stick_y != new.right_stick_y {
            stick_report(id, 1, new.right_stick_x, new.right_stick_y)
        } else {
            None
        },
    ) + opt_seq(if old.left_trigger != new.left_trigger { trigger_report(id, 0, new.left_trigger) } else { None })
        + opt_seq(if old.right_trigger != new.right_trigger { trigger_report(id, 1, new.right_trigger) } else { None })
}

/// The axes a report is computed from are not `i16::MIN`.
pub open spec fn reports_defined(old: GamepadState, new: GamepadState) -> bool {
    &&& (old.left_stick_x != new.left_stick_x || old.left_stick_y != new.left_stick_y) ==> (new.left_stick_x
        != i16::MIN && new.left_stick_y != i16::MIN)
    &&& (old.right_stick_x != new.right_stick_x || old.right_stick_y != new.right_stick_y) ==> (new.right_stick_x
        != i16::MIN && new.right_stick_y != i16::MIN)
}

fn push_opt(out: &mut Vec<GamepadReport>, o: Option<GamepadReport>)
    ensures
        final(out)@ == old(out)@ + opt_seq(o),
{
    if let Some(r) = o {
        out.push(r);
    } else {
        assert(out@ =~= old(out)@ + opt_seq(o));
    }
}

/// What changed on a pad (see `device_reports`).
fn compare_states(id: usize, old: GamepadState, new: GamepadState) -> (r: Vec<GamepadReport>)
    requires
        reports_defined(old, new),
    ensures
        r@ == device_reports(id, old, new),
{
    let mut out: Vec<GamepadReport> = if old.buttons != new.buttons {
        process_button_changes(id, old.buttons, new.buttons)
    } else {
        Vec::new()
    };
    let ghost b = out@;
    if old.left_stick_x != new.left_stick_x || old.left_stick_y != new.left_stick_y {
        push_opt(&mut out, process_stick_movement(id, 0, new.left_stick_x, new.left_stick_y));
    } else {
        push_opt(&mut out, None);
    }
    if old.right_stick_x != new.right_stick_x || old.right_stick_y != new.right_stick_y {
        push_opt(&mut out, process_stick_movement(id, 1, new.right_stick_x, new.right_stick_y));
    } else {
        push_opt(&mut out, None);
    }
    if old.left_trigger != new.left_trigger {
        push_opt(&mut out, process_trigger_movement(id, 0, new.left_trigger));
    } else {
        push_opt(&mut out, None);
    }
    if old.right_trigger != new.right_trigger {
        push_opt(&mut out, process_trigger_movement(id, 1, new.right_trigger));
    } else {
        push_opt(&mut out, None);
    }
    assert(b =~= if old.buttons != new.buttons {
        press_reports(id, new.buttons & !old.buttons, button_order())
    } else {
        Seq::empty()
    });
    out
}

/// A simulated button: down in the first half of every hundred counter
/// ticks, up in the second.
pub open spec fn toggled(buttons: u32, mask: u32, counter: u64) -> u32 {
    if counter % 100 < 50 { buttons | mask } else { buttons & !mask }
}

/// A pad after the USB controller was read at `counter`: an Xbox pad toggles
/// A and takes `stick` as its left stick, a PlayStation pad toggles Cross
/// (X) and takes `stick` as its right stick, a Switch pad toggles B, any
/// other toggles Start. `stick` is the simulated stick position for
/// `counter`.
pub open spec fn usb_state(t: GamepadType, s: GamepadState, counter: u64, stick: (i16, i16)) -> GamepadState {
    match t {
        GamepadType::XboxController => GamepadState {
            buttons: toggled(s.buttons, BTN_A, counter),
            left_stick_x: stick.0,
            left_stick_y: stick.1,
            ..s
        },
        GamepadType::PlayStation => GamepadState {
            buttons: toggled(s.buttons, BTN_X, counter),
            right_stick_x: stick.0,
            right_stick_y: stick.1,
            ..s
        },
        GamepadType::NintendoSwitch => GamepadState { buttons: toggled(s.buttons, BTN_B, counter), ..s },
        _ => GamepadState { buttons: toggled(s.buttons, BTN_START, counter), ..s },
    }
}

fn toggle_button(buttons: u32, mask: u32, counter: u64) -> (r: u32)
    ensures
        r == toggled(buttons, mask, counter),
{
    if counter % 100 < 50 {
        buttons | mask
    } else {
        buttons & !mask
    }
}

/// Read an Xbox pad (see `usb_state`).
pub fn process_xbox_controller(device: &mut GamepadDevice, counter: u64, stick: (i16, i16))
    ensures
        final(device)@ == (GamepadDeviceView {
            state: usb_state(GamepadType::XboxController, old(device)@.state, counter, stick),
            ..old(device)@
        }),
{
    let mut state = device.get_state();
    state.buttons = toggle_button(state.buttons, BTN_A, counter);
    state.left_stick_x = stick.0;
    state.left_stick_y = stick.1;
    device.update_state(state);
}

/// Read a PlayStation pad (see `usb_state`).
pub fn process_playstation_controller(device: &mut GamepadDevice, counter: u64, stick: (i16, i16))
    ensures
        final(device)@ == (GamepadDeviceView {
            state: usb_state(GamepadType::PlayStation, old(device)@.state, counter, stick),
            ..old(device)@
        }),
{
    let mut state = device.get_state();
    state.buttons = toggle_button(state.buttons, BTN_X, counter);
    state.right_stick_x = stick.0;
    state.right_stick_y = stick.1;
    device.update_state(state);
}

/// Read a Switch pad (see `usb_state`).
pub fn process_switch_controller(device: &mut GamepadDevice, counter: u64)
    ensures
        final(device)@ == (GamepadDeviceView {
            state: GamepadState { buttons: toggled(old(device)@.state.buttons, BTN_B, counter), ..old(device)@.state },
            ..old(device)@
        }),
{
    let mut state = device.get_state();
    state.buttons = toggle_button(state.buttons, BTN_B, counter);
    device.update_state(state);
}

/// Read any other pad (see `usb_state`).
pub fn process_generic_controller(device: &mut GamepadDevice, counter: u64)
    ensures
        final(device)@ == (GamepadDeviceView {
            state: GamepadState { buttons: toggled(old(device)@.state.buttons, BTN_START, counter), ..old(device)@.state },
            ..old(device)@
        }),
{
    let mut state = device.get_state();
    state.buttons = toggle_button(state.buttons, BTN_START, counter);
    device.update_state(state);
}

/// A pad after the interrupt's USB read: connected pads are read, the
/// others stay as they are.
pub open spec fn usb_read(d: GamepadDeviceView, counter: u64, stick: (i16, i16)) -> GamepadDeviceView {
    if d.connected {
        GamepadDeviceView { state: usb_state(d.gamepad_type, d.state, counter, stick), ..d }
    } else {
        d
    }
}

/// Read every connected pad from the USB controller.
pub fn process_usb_gamepad_interrupts(manager: &mut GamepadManager, counter: u64, stick: (i16, i16))
    requires
        old(manager).wf(),
    ensures
        final(manager).wf(),
        final(manager).next_id() == old(manager).next_id(),
        final(manager).devices() == old(manager).devices().map_values(
            |d: GamepadDeviceView| usb_read(d, counter, stick),
        ),
{
    let ghost devs = manager.devices();
    let mut i: usize = 0;
    while i < manager.devices.len()
        invariant
            0 <= i <= manager.devices@.len(),
            manager.devices@.len() == devs.len(),
            manager.next_id == old(manager).next_id,
            forall|k: int| 0 <= k < i ==> #[trigger] manager.devices()[k] == usb_read(devs[k], counter, stick),
            forall|k: int| i <= k < devs.len() ==> #[trigger] manager.devices()[k] == devs[k],
        decreases manager.devices@.len() - i,
    {
        assert(manager.devices()[i as int] == devs[i as int]);
        let ghost before = manager.devices();
        if manager.devices[i].is_connected() {
            match manager.devices[i].get_type() {
                GamepadType::XboxController => process_xbox_controller(&mut manager.devices[i], counter, stick),
                GamepadType::PlayStation => process_playstation_controller(&mut manager.devices[i], counter, stick),
                GamepadType::NintendoSwitch => process_switch_controller(&mut manager.devices[i], counter),
                _ => process_generic_controller(&mut manager.devices[i], counter),
            }
        }
        assert(manager.devices()[i as int] == usb_read(devs[i as int], counter, stick));
        assert forall|k: int| 0 <= k < devs.len() && k != i implies #[trigger] manager.devices()[k] == before[k] by {}
        i += 1;
    }
    assert(manager.devices() =~= devs.map_values(|d: GamepadDeviceView| usb_read(d, counter, stick)));
}

/// The reports of an interrupt: for each connected pad after the read (in
/// order) that was connected before it, what changed since its state before
/// (the first recorded for its id).
pub open spec fn interrupt_reports(prev: Seq<(usize, GamepadState)>, devs: Seq<GamepadDeviceView>) -> Seq<
    GamepadReport,
>
    decreases devs.len(),
{
    if devs.len() == 0 {
        Seq::empty()
    } else {
        let d = devs.last();
        let j = find_entry(prev, d.id);
        interrupt_reports(prev, devs.drop_last()) + if d.connected && j >= 0 {
            device_reports(d.id, prev[j].1, d.state)
        } else {
            Seq::empty()
        }
    }
}

/// Every report the interrupt computes is computed from defined axes.
pub open spec fn interrupt_defined(prev: Seq<(usize, GamepadState)>, devs: Seq<GamepadDeviceView>) -> bool {
    forall|k: int|
        0 <= k < devs.len() && (#[trigger] devs[k]).connected && find_entry(prev, devs[k].id) >= 0
            ==> reports_defined(prev[find_entry(prev, devs[k].id)].1, devs[k].state)
}

/// The pads as the interrupt leaves them.
pub open spec fn after_interrupt(devs: Seq<GamepadDeviceView>, usb_pending: bool, counter: u64, stick: (i16, i16)) -> Seq<
    GamepadDeviceView,
> {
    if usb_pending {
        devs.map_values(|d: GamepadDeviceView| usb_read(d, counter, stick))
    } else {
        devs
    }
}

/// Handle a gamepad interrupt: note the connected pads' states, read the
/// pads from the USB controller where it has an interrupt pending, and
/// report what changed (see `interrupt_reports`). `counter` is the system
/// counter and `stick` the simulated stick position for it.
pub fn handle_interrupt(manager: &mut GamepadManager, usb_pending: bool, counter: u64, stick: (i16, i16)) -> (r: Vec<
    GamepadReport,
>)
    requires
        old(manager).wf(),
        interrupt_defined(
            connected_entries(old(manager).devices()),
            after_interrupt(old(manager).devices(), usb_pending, counter, stick),
        ),
    ensures
        final(manager).wf(),
        final(manager).next_id() == old(manager).next_id(),
        final(manager).devices() == after_interrupt(old(manager).devices(), usb_pending, counter, stick),
        r@ == interrupt_reports(connected_entries(old(manager).devices()), final(manager).devices()),
{
    let previous_states = collect_connected(manager);
    if usb_pending {
        process_usb_gamepad_interrupts(manager, counter, stick);
    }
    let ghost prev = previous_states@;
    let ghost devs = manager.devices();
    let mut out: Vec<GamepadReport> = Vec::new();
    let mut i: usize = 0;
    while i < manager.devices.len()
        invariant
            0 <= i <= manager.devices@.len(),
            devs == manager.devices(),
            prev == previous_states@,
            interrupt_defined(prev, devs),
            out@ == interrupt_reports(prev, devs.take(i as int)),
        decreases manager.devices@.len() - i,
    {
        assert(devs.take(i + 1).drop_last() =~= devs.take(i as int));
        assert(devs.take(i + 1).last() == devs[i as int]);
        let d = &manager.devices[i];
        assert(d@ == devs[i as int]);
        if d.is_connected() {
            if let Some(j) = find_previous(&previous_states, d.get_id()) {
                let old_state = previous_states[j].1;
                assert(devs[i as int].connected);
                let mut changes = compare_states(d.get_id(), old_state, d.get_state());
                out.append(&mut changes);
            }
        }
        i += 1;
    }
    assert(devs.take(devs.len() as int) =~= devs);
    out
}

} // verus!
