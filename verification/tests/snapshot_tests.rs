use std::sync::Mutex;

use agent_desktop::adapter::PlatformAdapter;
use agent_desktop::apps::{close_app, close_request, CloseAppArgs};
use agent_desktop::error::AdapterError;
use agent_desktop::node::{AccessibilityNode, SnapshotSurface, TreeOptions, WindowFilter, WindowInfo};
use agent_desktop::snapshot::{build, capture_from, surface_capture, SurfaceSource};

fn node(role: &str) -> AccessibilityNode {
    AccessibilityNode {
        ref_id: None,
        role: role.into(),
        name: None,
        value: None,
        description: None,
        hint: None,
        states: Vec::new(),
        available_actions: Vec::new(),
        children_count: None,
        children: Vec::new(),
    }
}

fn window(id: &str, title: &str, app: &str, pid: i32, focused: bool) -> WindowInfo {
    WindowInfo { id: id.into(), title: title.into(), app: app.into(), pid, is_focused: focused }
}

/// Lists fixed windows and records every tree request: which call it was
/// (window id, or `app-<pid>`) and the options it received.
struct RecordingAdapter {
    windows: Vec<WindowInfo>,
    requests: Mutex<Vec<(String, TreeOptions)>>,
    closes: Mutex<Vec<(String, bool)>>,
}

impl RecordingAdapter {
    fn new(windows: Vec<WindowInfo>) -> Self {
        RecordingAdapter { windows, requests: Mutex::new(Vec::new()), closes: Mutex::new(Vec::new()) }
    }
}

impl PlatformAdapter for RecordingAdapter {
    fn list_windows(&self, _filter: &WindowFilter) -> Result<Vec<WindowInfo>, AdapterError> {
        Ok(self.windows.clone())
    }

    fn get_tree(&self, win: &WindowInfo, opts: &TreeOptions) -> Result<AccessibilityNode, AdapterError> {
        self.requests.lock().unwrap().push((win.id.clone(), *opts));
        Ok(node("window"))
    }

    fn get_app_tree(&self, pid: i32, opts: &TreeOptions) -> Result<AccessibilityNode, AdapterError> {
        self.requests.lock().unwrap().push((format!("app-{pid}"), *opts));
        Ok(node("application"))
    }

    fn close_app(&self, id: &str, force: bool) -> Result<(), AdapterError> {
        self.closes.lock().unwrap().push((id.to_string(), force));
        Ok(())
    }
}

#[test]
fn ref_identity_bounds_only_add_bounds() {
    let opts = TreeOptions { surface: SnapshotSurface::Menu, interactive_only: true, include_bounds: false, compact: true };
    let with = opts.with_ref_identity_bounds();
    assert_eq!(with.surface, SnapshotSurface::Menu);
    assert!(with.interactive_only && with.include_bounds && with.compact);
}

#[test]
fn build_asks_for_the_tree_with_ref_identity_bounds() {
    let adapter = RecordingAdapter::new(vec![window("w-1", "Doc", "TextEdit", 4, true)]);
    let result = build(&adapter, &TreeOptions::defaults(), None, None).unwrap();
    assert_eq!(result.window.id, "w-1");
    assert_eq!(result.tree.role, "window");
    let requests = adapter.requests.lock().unwrap();
    assert_eq!(requests.len(), 1);
    assert_eq!(requests[0].0, "w-1");
    assert!(requests[0].1.include_bounds);
    assert!(!requests[0].1.interactive_only && !requests[0].1.compact);
}

#[test]
fn surface_capture_uses_the_first_window_of_the_process() {
    let adapter = RecordingAdapter::new(vec![
        window("w-1", "Other", "Finder", 1, false),
        window("w-2", "Notes", "TextEdit", 7, false),
    ]);
    let capture = surface_capture(&adapter, 7, Some("TextEdit"), SnapshotSurface::Menu).unwrap();
    assert_eq!((capture.window_id.as_str(), capture.window_title.as_str()), ("w-2", "Notes"));
    assert_eq!(capture.tree.role, "window");
    let requests = adapter.requests.lock().unwrap();
    assert_eq!(requests[0].0, "w-2");
    assert_eq!(requests[0].1.surface, SnapshotSurface::Menu);
    assert!(requests[0].1.interactive_only && requests[0].1.include_bounds && !requests[0].1.compact);
}

#[test]
fn surface_capture_falls_back_to_the_application() {
    let adapter = RecordingAdapter::new(vec![window("w-1", "Other", "Finder", 1, false)]);
    let capture = surface_capture(&adapter, 9, Some("Dock"), SnapshotSurface::Dock).unwrap();
    assert_eq!((capture.window_id.as_str(), capture.window_title.as_str()), ("app-9", "Dock"));
    assert_eq!(capture.tree.role, "application");
    let none = surface_capture(&adapter, 9, None, SnapshotSurface::Dock).unwrap();
    assert_eq!(none.window_title, "");
    assert_eq!(adapter.requests.lock().unwrap()[0].0, "app-9");
}

#[test]
fn capture_from_records_under_the_chosen_window() {
    let source = SurfaceSource { window: None, window_id: "app-3".into(), window_title: "Mail".into() };
    let c = capture_from(source, node("menu"));
    assert_eq!((c.window_id.as_str(), c.window_title.as_str(), c.tree.role.as_str()), ("app-3", "Mail", "menu"));
}

#[test]
fn close_app_hands_over_the_application_and_force() {
    let args = CloseAppArgs { app: "TextEdit".into(), force: true };
    assert_eq!(close_request(&args), ("TextEdit".to_string(), true));
    let adapter = RecordingAdapter::new(Vec::new());
    close_app(CloseAppArgs { app: "Preview".into(), force: false }, &adapter).unwrap();
    close_app(CloseAppArgs { app: "Notes".into(), force: true }, &adapter).unwrap();
    assert_eq!(
        *adapter.closes.lock().unwrap(),
        vec![("Preview".to_string(), false), ("Notes".to_string(), true)]
    );
}
