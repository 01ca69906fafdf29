use std::sync::Mutex;
use agent_desktop::apps::protection_refusal;
use agent_desktop::controls::external_request;
use agent_desktop::menu::{execute, MenuArgs};

use agent_desktop::adapter::PlatformAdapter;
use agent_desktop::apps::{close_app, list_apps, CloseAppArgs, ListAppsArgs};
use agent_desktop::controls::{
    appearance, audit_preview, exec_flag_enabled, run_with_gate, volume, wifi, AppearanceArgs,
    VolumeArgs, WifiArgs,
};
use agent_desktop::error::{AdapterError, ErrorCode};
use agent_desktop::node::AppInfo;
use agent_desktop::system::{
    adjusted_volume, AppearanceRequest, AppearanceState, AudioRequest, AudioState, ExternalKind,
    ExternalRequest, ExternalResult, MockSystemController, NetworkRequest, NetworkState,
    SystemController, UnsupportedSystemController,
};

/// The in-memory controller, shared behind a lock so that the adapter can
/// hand it out by reference.
#[derive(Default)]
struct SharedMock(Mutex<MockSystemController>);

impl SystemController for SharedMock {
    fn audio(&self, req: AudioRequest) -> Result<AudioState, AdapterError> {
        self.0.lock().unwrap().audio(req)
    }
    fn appearance(&self, req: AppearanceRequest) -> Result<AppearanceState, AdapterError> {
        self.0.lock().unwrap().appearance(req)
    }
    fn network(&self, req: NetworkRequest) -> Result<NetworkState, AdapterError> {
        self.0.lock().unwrap().network(req)
    }
    fn run_external(&self, req: ExternalRequest) -> Result<ExternalResult, AdapterError> {
        self.0.lock().unwrap().run_external(req)
    }
}

#[derive(Default)]
struct MockSystemAdapter {
    system: SharedMock,
}

impl PlatformAdapter for MockSystemAdapter {
    fn system(&self) -> &dyn SystemController {
        &self.system
    }
}

impl MockSystemAdapter {
    fn last_external(&self) -> Option<ExternalRequest> {
        self.system.0.lock().unwrap().last_external()
    }
}

#[test]
fn unsupported_controller_returns_not_supported() {
    let c = UnsupportedSystemController;
    let err = c.audio(AudioRequest::GetState).unwrap_err();
    assert_eq!(err.code, ErrorCode::PlatformNotSupported);
}

#[test]
fn default_adapter_system_is_unsupported() {
    struct Bare;
    impl PlatformAdapter for Bare {}
    let bare = Bare;
    let err = bare.system().appearance(AppearanceRequest::Get).unwrap_err();
    assert_eq!(err.code, ErrorCode::PlatformNotSupported);
}

#[test]
fn adapter_routes_to_mock_controller() {
    let adapter = MockSystemAdapter::default();
    let state = adapter.system().audio(AudioRequest::SetVolume(42)).unwrap();
    assert_eq!(state.output_volume, 42);
    assert!(matches!(
        adapter.system.0.lock().unwrap().last_audio().unwrap(),
        AudioRequest::SetVolume(42)
    ));
}

fn appearance_args(get: bool, dark: bool, light: bool, toggle: bool) -> AppearanceArgs {
    AppearanceArgs { get, dark, light, toggle }
}

#[test]
fn set_dark_returns_state() {
    let adapter = MockSystemAdapter::default();
    let v = appearance(&appearance_args(false, true, false, false), &adapter).unwrap();
    assert_eq!(v.dark, true);
}

#[test]
fn set_light_returns_state() {
    let adapter = MockSystemAdapter::default();
    let v = appearance(&appearance_args(false, false, true, false), &adapter).unwrap();
    assert_eq!(v.dark, false);
}

#[test]
fn get_returns_current_state() {
    let adapter = MockSystemAdapter::default();
    let v = appearance(&appearance_args(true, false, false, false), &adapter).unwrap();
    assert_eq!(v.dark, false);
}

#[test]
fn toggle_flips_state() {
    let adapter = MockSystemAdapter::default();
    let v = appearance(&appearance_args(false, false, false, true), &adapter).unwrap();
    assert_eq!(v.dark, true);
}

#[test]
fn rejects_multiple_actions() {
    let adapter = MockSystemAdapter::default();
    let err = appearance(&appearance_args(false, true, true, false), &adapter).unwrap_err();
    assert!(format!("{err:?}").to_lowercase().contains("invalid"));
}

#[test]
fn appearance_tests_rejects_no_action() {
    let adapter = MockSystemAdapter::default();
    let err = appearance(&appearance_args(false, false, false, false), &adapter).unwrap_err();
    assert!(format!("{err:?}").to_lowercase().contains("invalid"));
}

fn volume_args() -> VolumeArgs {
    VolumeArgs {
        get: false,
        set: None,
        up: false,
        down: false,
        mute: false,
        unmute: false,
        step: 5,
    }
}

#[test]
fn set_volume_returns_state() {
    let adapter = MockSystemAdapter::default();
    let v = volume(&VolumeArgs { set: Some(40), ..volume_args() }, &adapter).unwrap();
    assert_eq!(v.output_volume, 40);
}

#[test]
fn volume_tests_rejects_no_action() {
    let adapter = MockSystemAdapter::default();
    let err = volume(&volume_args(), &adapter).unwrap_err();
    assert_eq!(err.code(), "INVALID_ARGS");
}

#[test]
fn rejects_out_of_range() {
    let adapter = MockSystemAdapter::default();
    let err = volume(&VolumeArgs { set: Some(150), ..volume_args() }, &adapter).unwrap_err();
    assert!(format!("{err:?}").to_lowercase().contains("invalid"));
}

#[test]
fn volume_steps_clamp_to_range() {
    let adapter = MockSystemAdapter::default();
    volume(&VolumeArgs { set: Some(98), ..volume_args() }, &adapter).unwrap();
    let v = volume(&VolumeArgs { up: true, ..volume_args() }, &adapter).unwrap();
    assert_eq!(v.output_volume, 100);
    let v = volume(&VolumeArgs { down: true, step: 200, ..volume_args() }, &adapter).unwrap();
    assert_eq!(v.output_volume, 0);
    assert_eq!(adjusted_volume(50, -7), 43);
    assert_eq!(adjusted_volume(3, -7), 0);
    assert_eq!(adjusted_volume(99, 127), 100);
}

#[test]
fn off_returns_power_false() {
    let adapter = MockSystemAdapter::default();
    let v = wifi(&WifiArgs { on: false, off: true, status: false }, &adapter).unwrap();
    assert_eq!(v.wifi_power, false);
}

#[test]
fn wifi_tests_rejects_no_action() {
    let adapter = MockSystemAdapter::default();
    let err = wifi(&WifiArgs { on: false, off: false, status: false }, &adapter).unwrap_err();
    assert!(format!("{err:?}").to_lowercase().contains("invalid"));
}

#[test]
fn disabled_returns_policy_denied() {
    let adapter = MockSystemAdapter::default();
    let err = run_with_gate(false, ExternalKind::Shell, "echo hi".into(), None, &adapter).unwrap_err();
    assert!(format!("{err:?}").contains("POLICY_DENIED") || format!("{err:?}").contains("PolicyDenied"));
    assert!(adapter.last_external().is_none());
}

#[test]
fn enabled_delegates_and_returns_result() {
    let adapter = MockSystemAdapter::default();
    let v = run_with_gate(true, ExternalKind::Shell, "echo hi".into(), Some(1000), &adapter).unwrap();
    assert_eq!(v.exit_code, 0);
    let req = adapter.last_external().unwrap();
    assert_eq!(req.kind, ExternalKind::Shell);
}

#[test]
fn run_with_gate_forwards_each_kind() {
    for kind in [
        ExternalKind::Shell,
        ExternalKind::AppleScript,
        ExternalKind::Jxa,
        ExternalKind::OpenUrl,
        ExternalKind::OpenPath,
    ] {
        let adapter = MockSystemAdapter::default();
        run_with_gate(true, kind, "payload".into(), None, &adapter).unwrap();
        assert_eq!(adapter.last_external().unwrap().kind, kind);
    }
}

#[test]
fn exec_gate_values_and_audit_preview() {
    assert!(!exec_flag_enabled(None));
    assert!(!exec_flag_enabled(Some("")));
    assert!(!exec_flag_enabled(Some("0")));
    assert!(exec_flag_enabled(Some("1")));
    assert!(exec_flag_enabled(Some("yes")));
    let long: String = "é".repeat(130);
    assert_eq!(audit_preview(&long).chars().count(), 120);
    assert_eq!(audit_preview("short"), "short");
    assert_eq!(ExternalKind::OpenUrl.as_str(), "open-url");
}

struct ProtectiveAdapter;

impl PlatformAdapter for ProtectiveAdapter {
    fn is_protected_process(&self, identifier: &str) -> bool {
        identifier.eq_ignore_ascii_case("CriticalThing")
    }

    fn close_app(&self, _id: &str, _force: bool) -> Result<(), AdapterError> {
        Ok(())
    }
}

#[test]
fn close_app_blocks_adapter_protected_process() {
    let err = close_app(CloseAppArgs { app: "CriticalThing".into(), force: false }, &ProtectiveAdapter)
        .unwrap_err();

    assert_eq!(err.code(), "INVALID_ARGS");
    assert!(err.message().contains("protected"));
}

#[test]
fn graceful_close_reports_request_without_claiming_termination() {
    let value = close_app(CloseAppArgs { app: "TextEdit".into(), force: false }, &ProtectiveAdapter)
        .unwrap();

    assert_eq!(value.app, "TextEdit");
    assert_eq!(value.method, "graceful");
    assert_eq!(value.requested, true);
    assert!(
        value.closed.is_none(),
        "graceful close must not claim a termination it cannot guarantee"
    );
}

#[test]
fn forced_close_confirms_termination() {
    let value = close_app(CloseAppArgs { app: "TextEdit".into(), force: true }, &ProtectiveAdapter)
        .unwrap();

    assert_eq!(value.app, "TextEdit");
    assert_eq!(value.method, "force");
    assert_eq!(value.requested, true);
    assert_eq!(value.closed, Some(true));
}

struct AppsAdapter;

impl PlatformAdapter for AppsAdapter {
    fn list_apps(&self) -> Result<Vec<AppInfo>, AdapterError> {
        Ok(vec![
            AppInfo {
                name: "Finder".into(),
                pid: 1,
                bundle_id: Some("com.apple.finder".into()),
            },
            AppInfo {
                name: "TextEdit".into(),
                pid: 2,
                bundle_id: Some("com.apple.TextEdit".into()),
            },
        ])
    }
}

#[test]
fn app_filter_matches_by_name_case_insensitively() {
    let apps = list_apps(&ListAppsArgs { app: Some("text".into()) }, &AppsAdapter).unwrap();

    assert_eq!(apps.len(), 1);
    assert_eq!(apps[0].name, "TextEdit");
}

#[test]
fn close_refusal_comes_exactly_from_protection() {
    assert!(protection_refusal("Dock", false).is_none());
    let e = protection_refusal("Dock", true).unwrap();
    assert_eq!(e.code(), "INVALID_ARGS");
    assert_eq!(e.message(), "'Dock' is a protected system process and cannot be closed");
}

#[test]
fn external_requests_are_forwarded_unchanged() {
    let q = external_request(ExternalKind::Jxa, "1+1".into(), Some(7));
    assert_eq!(q.kind, ExternalKind::Jxa);
    assert_eq!(q.payload, "1+1");
    assert_eq!(q.timeout_ms, Some(7));
    let adapter = MockSystemAdapter::default();
    run_with_gate(true, ExternalKind::OpenUrl, "https://x".into(), Some(5), &adapter).unwrap();
    let sent = adapter.last_external().unwrap();
    assert_eq!((sent.kind, sent.payload.as_str(), sent.timeout_ms), (ExternalKind::OpenUrl, "https://x", Some(5)));
}

#[test]
fn menu_refusals() {
    let err = execute(MenuArgs { app: None, path: None, list: true }, &AppsAdapter).unwrap_err();
    assert_eq!(err.message(), "menu --path requires --app");
    let err = execute(MenuArgs { app: Some("Finder".into()), path: Some(" > ".into()), list: false }, &AppsAdapter)
        .unwrap_err();
    assert_eq!(err.message(), "menu --path must be non-empty");
    let err = execute(MenuArgs { app: Some("Finder".into()), path: None, list: false }, &AppsAdapter).unwrap_err();
    assert_eq!(err.message(), "Provide --path \"A > B\" or --list");
    let err = execute(MenuArgs { app: Some("Ghost".into()), path: None, list: true }, &AppsAdapter).unwrap_err();
    assert_eq!(err.message(), "Application 'Ghost' is not running");
}

#[test]
fn default_adapter_system_reports_each_control_unsupported() {
    struct Plain;
    impl PlatformAdapter for Plain {}
    let plain = Plain;
    let audio = plain.system().audio(AudioRequest::SetVolume(30)).unwrap_err();
    assert_eq!(audio.code, ErrorCode::PlatformNotSupported);
    assert_eq!(audio.message, "system.audio is not supported on this platform");
    let network = plain.system().network(NetworkRequest::WifiStatus).unwrap_err();
    assert_eq!(network.code, ErrorCode::PlatformNotSupported);
    assert!(!plain.is_protected_process("Finder"));
}
