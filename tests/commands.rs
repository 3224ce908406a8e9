use desktop_env::capture::CaptureError;
use desktop_env::display::{desktop_env_system_info, DisplaySize};
use desktop_env::permission::{
    probe_required, request_accessibility_permission, request_screen_recording_permission, ProbeOutcome,
};
use desktop_env::session::{desktop_env_init, desktop_env_status, AppState};

#[test]
fn system_info_describes_first_display() {
    let screens = vec![DisplaySize { width: 1920, height: 1080 }, DisplaySize { width: 800, height: 600 }];
    let info = desktop_env_system_info("linux".to_string(), Ok(screens)).expect("a display");
    assert_eq!(info.platform, "linux");
    assert_eq!(info.screen_width, 1920);
    assert_eq!(info.screen_height, 1080);
    assert!(info.screen_width > 0 && info.screen_height > 0);
}

#[test]
fn system_info_platform_is_the_given_name() {
    let info = desktop_env_system_info("macos".to_string(), Ok(vec![DisplaySize { width: 1, height: 2 }]))
        .expect("a display");
    assert_eq!(info.platform, "macos");
    assert_eq!((info.screen_width, info.screen_height), (1, 2));
}

#[test]
fn system_info_without_display() {
    assert_eq!(desktop_env_system_info("macos".to_string(), Ok(Vec::new())), Err(CaptureError::NoDisplayFound));
}

#[test]
fn system_info_enumeration_failure() {
    let r = desktop_env_system_info("windows".to_string(), Err("denied".to_string()));
    assert_eq!(r, Err(CaptureError::EnumerationFailed("denied".to_string())));
}

#[test]
fn init_twice_keeps_flag_set() {
    let mut state = AppState::new();
    assert!(!state.initialized);
    assert_eq!(desktop_env_init(&mut state), Ok("Desktop environment initialized".to_string()));
    assert!(state.initialized);
    assert_eq!(desktop_env_init(&mut state), Ok("Desktop environment initialized".to_string()));
    assert!(state.initialized);
}

#[test]
fn status_is_fixed_before_and_after_init() {
    let before = desktop_env_status();
    let mut state = AppState::new();
    desktop_env_init(&mut state).unwrap();
    let after = desktop_env_status();
    assert_eq!(before, Ok("Desktop environment is available".to_string()));
    assert_eq!(before, after);
}

#[test]
fn only_macos_needs_a_probe() {
    assert!(probe_required(&"macos".to_string()));
    assert!(!probe_required(&"linux".to_string()));
    assert!(!probe_required(&"windows".to_string()));
    assert!(!probe_required(&"mac".to_string()));
}

#[test]
fn permissions_granted_without_probe() {
    assert_eq!(request_screen_recording_permission(ProbeOutcome::NotRequired), Ok(true));
    assert_eq!(request_accessibility_permission(ProbeOutcome::NotRequired), Ok(true));
}

#[test]
fn permissions_after_successful_probe() {
    assert_eq!(request_screen_recording_permission(ProbeOutcome::Exited(true)), Ok(true));
    assert_eq!(request_accessibility_permission(ProbeOutcome::Exited(true)), Ok(true));
}

#[test]
fn permission_probe_failures() {
    assert_eq!(
        request_screen_recording_permission(ProbeOutcome::Exited(false)),
        Err("Failed to check screen recording permission".to_string())
    );
    assert_eq!(
        request_screen_recording_permission(ProbeOutcome::SpawnFailed("not found".to_string())),
        Err("Failed to check permission: not found".to_string())
    );
    assert_eq!(
        request_accessibility_permission(ProbeOutcome::Exited(false)),
        Err("Failed to open accessibility settings".to_string())
    );
    assert_eq!(
        request_accessibility_permission(ProbeOutcome::SpawnFailed("no open".to_string())),
        Err("Failed to open accessibility settings: no open".to_string())
    );
}
