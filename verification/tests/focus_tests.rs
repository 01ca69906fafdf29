use std::sync::Mutex;

use agent_desktop::adapter::PlatformAdapter;
use agent_desktop::error::{AdapterError, AppError, ErrorCode};
use agent_desktop::helpers::window_op_target;
use agent_desktop::focus_window::{
    focus_confirmation, focus_target, observed_focused_window, select_window, FocusWindowArgs,
};
use agent_desktop::is_check::{evaluate_is, IsProperty};
use agent_desktop::node::{ElementState, RefEntry, WindowFilter, WindowInfo};

struct FocusAdapter {
    windows: Vec<WindowInfo>,
    focused_windows: Mutex<Vec<WindowInfo>>,
    focused_window_calls: Mutex<u32>,
    focused_window_supported: bool,
}

impl PlatformAdapter for FocusAdapter {
    fn list_windows(&self, filter: &WindowFilter) -> Result<Vec<WindowInfo>, AdapterError> {
        if filter.focused_only {
            Ok(self.focused_windows.lock().unwrap().clone())
        } else {
            Ok(self.windows.clone())
        }
    }

    fn focus_window(&self, _win: &WindowInfo) -> Result<(), AdapterError> {
        Ok(())
    }

    fn focused_window(&self) -> Result<Option<WindowInfo>, AdapterError> {
        *self.focused_window_calls.lock().unwrap() += 1;
        if !self.focused_window_supported {
            return Err(AdapterError::not_supported("focused_window"));
        }
        let mut focused = self.focused_windows.lock().unwrap();
        if focused.len() > 1 {
            Ok(Some(focused.remove(0)))
        } else {
            Ok(focused.first().cloned())
        }
    }
}

fn window(id: &str, focused: bool) -> WindowInfo {
    WindowInfo {
        id: id.into(),
        title: "Main".into(),
        app: "TextEdit".into(),
        pid: 42,
        is_focused: focused,
    }
}

const OBSERVATIONS: usize = 5;

/// Focuses the requested window, then observes until focus has settled on
/// it, giving up after a bounded number of observations.
fn focus_and_settle(args: FocusWindowArgs, adapter: &FocusAdapter) -> Result<WindowInfo, AppError> {
    let target = focus_target(&args, adapter)?;
    let mut confirmations = 0;
    for _ in 0..OBSERVATIONS {
        let observed = observed_focused_window(adapter, args.app.as_deref())?;
        let (next, settled) = focus_confirmation(confirmations, &observed, &target.id);
        confirmations = next;
        if settled {
            return Ok(observed.unwrap());
        }
    }
    Err(AppError::Adapter(AdapterError::new(
        agent_desktop::error::ErrorCode::ActionFailed,
        "Window focus did not settle on the requested window",
    )))
}

fn args(id: &str) -> FocusWindowArgs {
    FocusWindowArgs {
        window_id: Some(id.into()),
        app: None,
        title: None,
    }
}

#[test]
fn reports_focused_window_after_os_confirms_focus() {
    let adapter = FocusAdapter {
        windows: vec![window("w1", false)],
        focused_windows: Mutex::new(vec![window("w1", true)]),
        focused_window_calls: Mutex::new(0),
        focused_window_supported: true,
    };

    let focused = focus_and_settle(args("w1"), &adapter).unwrap();

    assert_eq!(focused.id, "w1");
    assert_eq!(focused.is_focused, true);
    assert_eq!(*adapter.focused_window_calls.lock().unwrap(), 2);
}

#[test]
fn errors_when_focus_does_not_settle_on_requested_window() {
    let adapter = FocusAdapter {
        windows: vec![window("w1", false)],
        focused_windows: Mutex::new(Vec::new()),
        focused_window_calls: Mutex::new(0),
        focused_window_supported: true,
    };

    let err = focus_and_settle(args("w1"), &adapter).unwrap_err();

    assert_eq!(err.code(), "ACTION_FAILED");
}

#[test]
fn falls_back_to_focused_window_list_when_direct_observation_is_unsupported() {
    let adapter = FocusAdapter {
        windows: vec![window("w1", false)],
        focused_windows: Mutex::new(vec![window("w1", true)]),
        focused_window_calls: Mutex::new(0),
        focused_window_supported: false,
    };

    let focused = focus_and_settle(args("w1"), &adapter).unwrap();

    assert_eq!(focused.id, "w1");
    assert_eq!(*adapter.focused_window_calls.lock().unwrap(), 2);
}

#[test]
fn focus_confirmation_resets_after_transient_wrong_window() {
    let adapter = FocusAdapter {
        windows: vec![window("w1", false)],
        focused_windows: Mutex::new(vec![
            window("w1", true),
            window("w2", true),
            window("w1", true),
            window("w1", true),
        ]),
        focused_window_calls: Mutex::new(0),
        focused_window_supported: true,
    };

    let focused = focus_and_settle(args("w1"), &adapter).unwrap();

    assert_eq!(focused.id, "w1");
    assert_eq!(*adapter.focused_window_calls.lock().unwrap(), 4);
}

#[test]
fn window_selection_by_id_title_or_app() {
    let windows = vec![
        WindowInfo { id: "w1".into(), title: "Report draft".into(), app: "Pages".into(), pid: 1, is_focused: false },
        WindowInfo { id: "w2".into(), title: "Inbox".into(), app: "Mail".into(), pid: 2, is_focused: true },
    ];
    let by_title = FocusWindowArgs { window_id: None, app: None, title: Some("draft".into()) };
    assert_eq!(select_window(&windows, &by_title).unwrap().id, "w1");
    let by_app = FocusWindowArgs { window_id: None, app: Some("MAIL".into()), title: None };
    assert_eq!(select_window(&windows, &by_app).unwrap().id, "w2");
    let missing = select_window(&windows, &args("w9")).unwrap_err();
    assert_eq!(missing.code(), "WINDOW_NOT_FOUND");
    let nothing = FocusWindowArgs { window_id: None, app: None, title: None };
    assert_eq!(select_window(&windows, &nothing).unwrap_err().code(), "INVALID_ARGS");
}

fn entry(role: &str, states: Vec<&str>, value: Option<&str>, actions: Vec<&str>) -> RefEntry {
    RefEntry {
        pid: 1,
        role: role.into(),
        name: Some("Target".into()),
        value: value.map(str::to_string),
        description: None,
        states: states.into_iter().map(str::to_string).collect(),
        available_actions: actions.into_iter().map(str::to_string).collect(),
        source_app: None,
        source_window_title: None,
    }
}

#[test]
fn checked_uses_live_canonical_state() {
    let live = ElementState {
        role: "checkbox".into(),
        states: vec!["checked".into()],
        value: Some("1".into()),
    };
    let result = evaluate_is(IsProperty::Checked, &entry("checkbox", vec![], None, vec!["Toggle"]), Some(live));
    assert_eq!(result.result, true);
    assert_eq!(result.applicable, true);
}

#[test]
fn checked_does_not_infer_platform_values_in_core() {
    let result = evaluate_is(IsProperty::Checked, &entry("checkbox", vec![], Some("1"), vec!["Toggle"]), None);
    assert_eq!(result.result, false);
    assert_eq!(result.applicable, true);
}

#[test]
fn checked_falls_back_to_snapshot_state_when_live_state_is_missing() {
    let result = evaluate_is(IsProperty::Checked, &entry("checkbox", vec!["checked"], None, vec!["Toggle"]), None);
    assert_eq!(result.result, true);
    assert_eq!(result.applicable, true);
}

#[test]
fn basic_state_properties_use_live_state() {
    for (property, expected) in [
        (IsProperty::Visible, true),
        (IsProperty::Enabled, true),
        (IsProperty::Focused, true),
        (IsProperty::Expanded, true),
    ] {
        let live = ElementState {
            role: "button".into(),
            states: vec!["focused".into(), "expanded".into()],
            value: None,
        };
        let result = evaluate_is(property, &entry("checkbox", vec![], None, vec![]), Some(live));
        assert_eq!(result.result, expected);
        assert_eq!(result.applicable, true);
    }
}

#[test]
fn action_availability_makes_toggle_and_expand_applicable() {
    for property in [IsProperty::Checked, IsProperty::Expanded] {
        let result = evaluate_is(property, &entry("cell", vec![], None, vec!["Check", "Expand"]), None);
        assert_eq!(result.applicable, true);
    }
}

#[test]
fn checked_does_not_apply_to_plain_buttons() {
    let result = evaluate_is(IsProperty::Checked, &entry("button", vec![], None, vec!["Press"]), None);
    assert_eq!(result.applicable, false);
    assert_eq!(result.property, "checked");
    let hidden = evaluate_is(IsProperty::Visible, &entry("button", vec!["hidden"], None, vec![]), None);
    assert_eq!(hidden.result, false);
}

fn target_window() -> WindowInfo {
    WindowInfo { id: "w-7".into(), title: "Notes".into(), app: "TextEdit".into(), pid: 7, is_focused: true }
}

#[test]
fn window_op_target_uses_the_window_found() {
    let found = window_op_target(Ok(target_window()), true, Some("TextEdit"), 7).unwrap();
    assert_eq!(found.id, "w-7");
    assert!(found.is_focused);
}

#[test]
fn window_op_target_stands_in_for_a_missing_window_on_restore() {
    let lookup = Err(AppError::Adapter(AdapterError::new(ErrorCode::WindowNotFound, "none")));
    let w = window_op_target(lookup, true, Some("TextEdit"), 7).unwrap();
    assert_eq!((w.id.as_str(), w.title.as_str(), w.app.as_str(), w.pid, w.is_focused), ("", "", "TextEdit", 7, false));
    let lookup = Err(AppError::Adapter(AdapterError::new(ErrorCode::WindowNotFound, "none")));
    assert_eq!(window_op_target(lookup, true, None, 9).unwrap().app, "");
}

#[test]
fn window_op_target_passes_the_lookup_error_on_otherwise() {
    let lookup = Err(AppError::Adapter(AdapterError::new(ErrorCode::WindowNotFound, "none")));
    match window_op_target(lookup, false, Some("TextEdit"), 7) {
        Err(AppError::Adapter(e)) => assert_eq!(e.code, ErrorCode::WindowNotFound),
        _ => panic!("expected the lookup error"),
    }
}
