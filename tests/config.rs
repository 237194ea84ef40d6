use domguard::config::{
    after_launch_attempt, check_endpoint, require_connected, Config, ConnectError,
    ConnectionState, InitResult, LaunchStep,
};

#[test]
fn test_default_config() {
    let config = Config::default();
    assert_eq!(config.chrome.port, 9222);
    assert_eq!(config.chrome.host, "127.0.0.1");
    assert_eq!(config.defaults.timeout_ms, 5000);
    assert_eq!(config.defaults.screenshot_format, "png");
}

#[test]
fn test_ws_url() {
    let config = Config::default();
    assert_eq!(config.ws_url(), "http://127.0.0.1:9222");
}

#[test]
fn test_is_localhost() {
    let mut config = Config::default();
    assert!(config.is_localhost());

    config.chrome.host = "localhost".to_string();
    assert!(config.is_localhost());

    config.chrome.host = "::1".to_string();
    assert!(config.is_localhost());

    config.chrome.host = "192.168.1.1".to_string();
    assert!(!config.is_localhost());
}

#[test]
fn test_security_validation_localhost() {
    let config = Config::default();
    assert!(check_endpoint(&config, false).is_ok());
}

#[test]
fn test_security_validation_remote() {
    let mut config = Config::default();
    config.chrome.host = "192.168.1.100".to_string();
    assert!(check_endpoint(&config, false).is_err());
}

#[test]
fn remote_endpoint_allowed_when_asked() {
    let mut config = Config::default();
    config.chrome.host = "10.0.0.2".to_string();
    assert_eq!(check_endpoint(&config, false), Err(ConnectError::SecurityBlocked));
    assert_eq!(check_endpoint(&config, true), Ok(()));
}

#[test]
fn ws_url_with_other_port() {
    let mut config = Config::default();
    config.chrome.port = 9333;
    config.chrome.host = "localhost".to_string();
    assert_eq!(config.ws_url(), "http://localhost:9333");
}

#[test]
fn launch_attempts_end_after_thirty() {
    assert_eq!(after_launch_attempt(0, true), LaunchStep::Connected);
    assert_eq!(after_launch_attempt(0, false), LaunchStep::Retry { sleep_ms: 100 });
    assert_eq!(after_launch_attempt(28, false), LaunchStep::Retry { sleep_ms: 100 });
    assert_eq!(
        after_launch_attempt(29, false),
        LaunchStep::GiveUp(ConnectError::LaunchTimeout)
    );
}

#[test]
fn actions_need_a_live_link() {
    assert_eq!(require_connected(ConnectionState::Connected), Ok(()));
    assert_eq!(require_connected(ConnectionState::Connecting), Err(ConnectError::Disconnected));
    assert_eq!(require_connected(ConnectionState::Disconnected), Err(ConnectError::Disconnected));
}

#[test]
fn project_paths() {
    let config = Config::default();
    assert_eq!(Config::domguard_dir("/work"), "/work/.domguard");
    assert_eq!(Config::config_path(&None, "/work"), "/work/.domguard/config.toml");
    assert_eq!(
        Config::config_path(&Some("/up/.domguard".to_string()), "/work/sub"),
        "/up/.domguard/config.toml"
    );
    assert_eq!(config.inspirations_dir(&None, "/w/"), "/w/.domguard/inspirations");
    let mut abs = Config::default();
    abs.inspire.save_dir = "/tmp/caps".to_string();
    assert_eq!(abs.inspirations_dir(&None, "/w"), "/tmp/caps");
    assert!(!Config::is_initialized(&None));
    assert!(Config::is_initialized(&Some("/w/.domguard".to_string())));
}

#[test]
fn init_result_reports_the_guide_only_when_written() {
    let fresh = InitResult::new("/w/.domguard".to_string(), false, "/w/GUIDE.md".to_string());
    assert_eq!(fresh.guide_path.as_deref(), Some("/w/GUIDE.md"));
    let again = InitResult::new("/w/.domguard".to_string(), true, "/w/GUIDE.md".to_string());
    assert!(again.already_exists);
    assert_eq!(again.guide_path, None);
}
