use os_gaming::kernel::drivers::gamepad::{
    button_name, handle_interrupt, init, process_button_changes, process_stick_movement, process_trigger_movement,
    GamepadReport, StickDirection, BTN_A, BTN_B, BTN_START, BTN_X,
};

#[test]
fn button_changes_report_new_presses_in_order() {
    let r = process_button_changes(3, BTN_A, BTN_A | BTN_X | BTN_B);
    assert_eq!(
        r,
        vec![
            GamepadReport::ButtonPressed { device: 3, button: BTN_B },
            GamepadReport::ButtonPressed { device: 3, button: BTN_X },
        ]
    );
    assert!(process_button_changes(3, BTN_A, 0).is_empty());
}

#[test]
fn button_names() {
    assert_eq!(button_name(BTN_START), "Start");
    assert_eq!(button_name(0x4000), "Unknown");
}

#[test]
fn stick_reports_far_pushes_only() {
    assert_eq!(process_stick_movement(0, 0, 100, -100), None);
    assert_eq!(process_stick_movement(0, 0, 5000, 0), None);
    assert_eq!(
        process_stick_movement(1, 0, 20000, 100),
        Some(GamepadReport::StickMoved { device: 1, stick: 0, direction: StickDirection::Right })
    );
    assert_eq!(
        process_stick_movement(1, 1, 0, -30000),
        Some(GamepadReport::StickMoved { device: 1, stick: 1, direction: StickDirection::Up })
    );
}

#[test]
fn trigger_reports_past_two_hundred() {
    assert_eq!(process_trigger_movement(2, 1, 200), None);
    assert_eq!(
        process_trigger_movement(2, 1, 201),
        Some(GamepadReport::TriggerPressed { device: 2, trigger: 1, value: 201 })
    );
}

#[test]
fn interrupt_reads_pads_and_reports_changes() {
    let mut manager = init().unwrap();
    // counter 10: first half of the cycle, buttons go down
    let reports = handle_interrupt(&mut manager, true, 10, (20000, 0));
    assert_eq!(
        reports,
        vec![
            GamepadReport::ButtonPressed { device: 0, button: BTN_A },
            GamepadReport::StickMoved { device: 0, stick: 0, direction: StickDirection::Right },
            GamepadReport::ButtonPressed { device: 1, button: BTN_X },
            GamepadReport::StickMoved { device: 1, stick: 1, direction: StickDirection::Right },
        ]
    );
    let xbox = manager.get_device(0).unwrap().get_state();
    assert_eq!(xbox.buttons, BTN_A);
    assert_eq!((xbox.left_stick_x, xbox.left_stick_y), (20000, 0));
    // no pending USB interrupt: nothing changes
    assert!(handle_interrupt(&mut manager, false, 70, (0, 0)).is_empty());
    // counter 70: second half, buttons go up, no press to report
    let reports = handle_interrupt(&mut manager, true, 70, (20000, 0));
    assert!(reports.is_empty());
    assert_eq!(manager.get_device(0).unwrap().get_state().buttons, 0);
}
