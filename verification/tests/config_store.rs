use os_gaming::config::{load_config_bytes, save_config_bytes, ConfigError};

#[test]
fn saving_fails_without_a_mounted_filesystem() {
    match save_config_bytes(&[1, 2, 3]) {
        Err(ConfigError::IoError(m)) => assert_eq!(m, "Failed to open config file for writing"),
        _ => panic!("expected an I/O error"),
    }
}

#[test]
fn loading_finds_no_stored_configuration() {
    assert!(matches!(load_config_bytes(), Ok(None)));
}
