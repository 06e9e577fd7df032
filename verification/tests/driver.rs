use copilot_cli::driver::{copilot_cli_available, CopilotCliDriver, VersionProbe};

#[test]
fn test_new_defaults_to_copilot() {
    let driver = CopilotCliDriver::new(None, true, None);
    assert_eq!(driver.cli_path, "copilot");
    assert!(driver.skip_permissions);
    assert!(driver.api_key.is_none());
}

#[test]
fn test_new_with_custom_path() {
    let driver = CopilotCliDriver::new(Some("/usr/local/bin/copilot".to_string()), false, None);
    assert_eq!(driver.cli_path, "/usr/local/bin/copilot");
    assert!(!driver.skip_permissions);
}

#[test]
fn test_new_with_api_key() {
    let driver = CopilotCliDriver::new(None, true, Some("ghp_test".to_string()));
    assert_eq!(driver.api_key.as_deref(), Some("ghp_test"));
}

#[test]
fn new_takes_an_empty_path_for_none() {
    let driver = CopilotCliDriver::new(Some(String::new()), false, Some(String::new()));
    assert_eq!(driver.cli_path, "copilot");
    assert_eq!(driver.api_key.as_deref(), Some(""));
}

#[test]
fn test_model_flag_mapping() {
    assert_eq!(
        CopilotCliDriver::model_flag("copilot-cli/gpt-5.4"),
        Some("gpt-5.4".to_string())
    );
    assert_eq!(
        CopilotCliDriver::model_flag("copilot-cli/sonnet-4.6"),
        Some("sonnet-4.6".to_string())
    );
    assert_eq!(
        CopilotCliDriver::model_flag("gpt-4.1"),
        Some("gpt-4.1".to_string())
    );
}

#[test]
fn model_flag_strips_the_provider_once() {
    assert_eq!(
        CopilotCliDriver::model_flag("copilot-cli/copilot-cli/m"),
        Some("copilot-cli/m".to_string())
    );
    assert_eq!(CopilotCliDriver::model_flag("copilot-cli/"), Some(String::new()));
    assert_eq!(CopilotCliDriver::model_flag("copilot-cli"), Some("copilot-cli".to_string()));
    assert_eq!(CopilotCliDriver::model_flag(""), Some(String::new()));
    assert_eq!(CopilotCliDriver::model_flag("copilot-cli/modèle"), Some("modèle".to_string()));
}

fn exited(success: bool, stdout: &[u8]) -> VersionProbe {
    VersionProbe::Exited { success, stdout: stdout.to_vec() }
}

#[test]
fn detect_trims_the_version() {
    assert_eq!(
        CopilotCliDriver::detect(&exited(true, b" 0.0.354 \r\n")),
        Some("0.0.354".to_string())
    );
    assert_eq!(CopilotCliDriver::detect(&exited(true, b"")), Some(String::new()));
}

#[test]
fn detect_replaces_invalid_bytes() {
    assert_eq!(
        CopilotCliDriver::detect(&exited(true, b"v1\xff\n")),
        Some("v1\u{fffd}".to_string())
    );
    assert_eq!(
        CopilotCliDriver::detect(&exited(true, "é✓\n".as_bytes())),
        Some("é✓".to_string())
    );
}

#[test]
fn detect_needs_success() {
    assert_eq!(CopilotCliDriver::detect(&exited(false, b"1.0\n")), None);
    assert_eq!(CopilotCliDriver::detect(&VersionProbe::NotRun), None);
    assert_eq!(CopilotCliDriver::version_from(false, "1.0"), None);
    assert_eq!(CopilotCliDriver::version_from(true, "\t1.0 "), Some("1.0".to_string()));
}

#[test]
fn available_is_detected() {
    assert!(copilot_cli_available(&exited(true, b"1.0\n")));
    assert!(copilot_cli_available(&exited(true, b"")));
    assert!(!copilot_cli_available(&exited(false, b"1.0\n")));
    assert!(!copilot_cli_available(&VersionProbe::NotRun));
}
