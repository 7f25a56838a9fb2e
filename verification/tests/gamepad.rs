use os_gaming::kernel::drivers::gamepad::{
    get_pending_events, init, poll, poll_gamepads_at, significant_stick_change, significant_trigger_change,
    GamepadManager, GamepadSubsystem, GamepadType, InputEventType, BTN_A, BTN_B,
};

#[test]
fn init_sets_up_two_controllers() {
    let m = init().unwrap();
    let devs = m.get_devices();
    assert_eq!(devs.len(), 2);
    assert_eq!(devs[0].get_id(), 0);
    assert_eq!(devs[0].get_name(), "Xbox Controller");
    assert_eq!(devs[0].get_type(), GamepadType::XboxController);
    assert_eq!(devs[1].get_id(), 1);
    assert_eq!(devs[1].get_name(), "DualShock 4");
    assert_eq!(devs[1].get_type(), GamepadType::PlayStation);
    assert_eq!(m.get_connected_count(), 2);
    assert!(devs[0].get_state().connected);
    assert_eq!(devs[0].get_state().buttons, 0);
}

#[test]
fn ids_grow_and_removal_finds_by_id() {
    let mut m = GamepadManager::new();
    let a = m.add_device("a".to_string(), GamepadType::Generic);
    let b = m.add_device("b".to_string(), GamepadType::NintendoSwitch);
    assert_eq!((a, b), (0, 1));
    assert!(m.remove_device(0));
    assert!(!m.remove_device(0));
    assert!(m.get_device(0).is_none());
    assert_eq!(m.get_device(1).unwrap().get_name(), "b");
    let c = m.add_device("c".to_string(), GamepadType::Unknown);
    assert_eq!(c, 2);
}

#[test]
fn disconnect_lowers_connected_count() {
    let mut m = init().unwrap();
    m.get_device_mut(1).unwrap().disconnect();
    assert_eq!(m.get_connected_count(), 1);
    assert!(!m.get_device(1).unwrap().is_connected());
}

#[test]
fn stick_changes_count_outside_the_dead_zone() {
    // leaving the dead zone
    assert!(significant_stick_change(0, 3000, 0, 0));
    // staying inside it
    assert!(!significant_stick_change(0, 2999, 0, -2999));
    // outside it, small moves do not count, large ones do
    assert!(!significant_stick_change(10000, 11600, 0, 0));
    assert!(significant_stick_change(10000, 11601, 0, 0));
    // coming back to the centre counts as a large move
    assert!(significant_stick_change(20000, 0, 0, 0));
}

#[test]
fn trigger_changes_count_across_fifteen_or_beyond_twenty() {
    assert!(significant_trigger_change(14, 15));
    assert!(significant_trigger_change(15, 14));
    assert!(!significant_trigger_change(0, 14));
    assert!(!significant_trigger_change(100, 120));
    assert!(significant_trigger_change(100, 121));
    assert!(significant_trigger_change(121, 100));
}

#[test]
fn first_poll_records_without_events() {
    let mut sub = GamepadSubsystem::new(init().unwrap());
    poll_gamepads_at(&mut sub, 5);
    assert!(sub.initialized);
    assert_eq!(sub.previous_states.len(), 2);
    assert!(sub.event_buffer.is_empty());
}

#[test]
fn button_change_queues_one_button_event() {
    let mut sub = GamepadSubsystem::new(init().unwrap());
    poll_gamepads_at(&mut sub, 5);
    let mut st = sub.manager.get_device(1).unwrap().get_state();
    st.buttons = BTN_B;
    st.left_trigger = 40;
    sub.manager.get_device_mut(1).unwrap().update_state(st);
    poll_gamepads_at(&mut sub, 9);
    assert_eq!(sub.event_buffer.len(), 2);
    let e = sub.event_buffer[0];
    assert_eq!(e.event_type, InputEventType::Button);
    assert_eq!(e.id, 1);
    assert_eq!(e.buttons, BTN_B);
    assert_eq!(e.triggers, [40, 0]);
    assert_eq!(e.timestamp, 9);
    assert_eq!(sub.event_buffer[1].event_type, InputEventType::Trigger);
    // a second poll with nothing changed queues nothing more
    poll_gamepads_at(&mut sub, 10);
    assert_eq!(sub.event_buffer.len(), 2);
}

#[test]
fn new_and_gone_pads_are_announced() {
    let mut sub = GamepadSubsystem::new(init().unwrap());
    poll_gamepads_at(&mut sub, 1);
    sub.manager.add_device("pad".to_string(), GamepadType::Generic);
    sub.manager.remove_device(0);
    poll_gamepads_at(&mut sub, 2);
    assert_eq!(sub.event_buffer.len(), 2);
    assert_eq!(sub.event_buffer[0].event_type, InputEventType::Connection);
    assert_eq!(sub.event_buffer[0].id, 2);
    assert_eq!(sub.event_buffer[1].event_type, InputEventType::Connection);
    assert_eq!(sub.event_buffer[1].id, 0);
    let ids: Vec<usize> = sub.previous_states.iter().map(|p| p.0).collect();
    assert_eq!(ids, vec![1, 2]);
}

#[test]
fn pending_events_are_handed_out_once() {
    let mut sub = GamepadSubsystem::new(init().unwrap());
    get_pending_events(&mut sub).unwrap();
    let mut st = sub.manager.get_device(0).unwrap().get_state();
    st.right_stick_x = 20000;
    sub.manager.get_device_mut(0).unwrap().update_state(st);
    let events = get_pending_events(&mut sub).unwrap();
    assert_eq!(events.len(), 1);
    assert_eq!(events[0].event_type, InputEventType::Axis);
    assert_eq!(events[0].axes, [0, 0, 20000, 0, 0, 0]);
    assert!(get_pending_events(&mut sub).unwrap().is_empty());
}

#[test]
fn simulated_poll_toggles_a_and_moves_the_left_stick() {
    let mut sub = GamepadSubsystem::new(init().unwrap());
    poll(&mut sub, (100, -200));
    let st = sub.manager.get_device(0).unwrap().get_state();
    assert_eq!(sub.poll_ticks, 1);
    assert_eq!(st.buttons & BTN_A, 0);
    assert_eq!((st.left_stick_x, st.left_stick_y), (100, -200));
    poll(&mut sub, (5, 6));
    let st = sub.manager.get_device(0).unwrap().get_state();
    assert_eq!(st.buttons & BTN_A, BTN_A);
    // the second pad is left alone
    assert_eq!(sub.manager.get_device(1).unwrap().get_state().left_stick_x, 0);
}
