use os_gaming::kernel::boot::{boot_advance, get_boot_status, internal_init, BootAction, BootConfig, BootStage, BootState, BootStatus};

#[test]
fn boot_runs_every_stage_in_order() {
    let mut state = BootState::new();
    let mut config = BootConfig::default();
    config.boot_info = Some(Some(0x1000));
    let mut action = internal_init(&mut state, &config);
    assert_eq!(get_boot_status(&state), BootStatus::CPUInitializing);
    let mut seen = Vec::new();
    let mut statuses = Vec::new();
    loop {
        match action {
            BootAction::Run(stage) => {
                seen.push(stage);
                statuses.push(get_boot_status(&state));
                action = boot_advance(&mut state, &config, stage, Ok(()));
            },
            BootAction::Fail(e) => panic!("boot failed: {}", e),
            BootAction::Complete => break,
        }
    }
    assert_eq!(
        seen,
        vec![
            BootStage::Cpu,
            BootStage::Memory,
            BootStage::Display,
            BootStage::Storage,
            BootStage::Input,
            BootStage::Network,
            BootStage::Sound,
            BootStage::Filesystem,
            BootStage::Power,
            BootStage::Interrupts,
        ]
    );
    assert_eq!(statuses[1], BootStatus::MemoryInitializing);
    assert_eq!(statuses[9], BootStatus::PowerInitializing);
    assert_eq!(get_boot_status(&state), BootStatus::BootCompleted);
}

#[test]
fn boot_without_boot_information_stops_at_memory() {
    let mut state = BootState::new();
    let config = BootConfig::default();
    internal_init(&mut state, &config);
    let action = boot_advance(&mut state, &config, BootStage::Cpu, Ok(()));
    match action {
        BootAction::Fail(e) => assert_eq!(e, "No boot information available for memory initialization"),
        _ => panic!("expected a failure"),
    }
    assert_eq!(get_boot_status(&state), BootStatus::MemoryInitializing);
}

#[test]
fn a_failed_stage_ends_the_boot_with_its_message() {
    let mut state = BootState::new();
    let mut config = BootConfig::default();
    config.boot_info = Some(None);
    internal_init(&mut state, &config);
    boot_advance(&mut state, &config, BootStage::Cpu, Ok(()));
    boot_advance(&mut state, &config, BootStage::Memory, Ok(()));
    let action = boot_advance(&mut state, &config, BootStage::Display, Err("No graphics hardware detected"));
    match action {
        BootAction::Fail(e) => assert_eq!(e, "No graphics hardware detected"),
        _ => panic!("expected a failure"),
    }
    assert_eq!(get_boot_status(&state), BootStatus::DisplayInitializing);
}
