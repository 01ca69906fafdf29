//! The data the commands work on: accessibility trees, windows, applications,
//! saved refs and element states.
use vstd::prelude::*;

verus! {

/// One node of an accessibility tree.
#[derive(Debug)]
pub struct AccessibilityNode {
    pub ref_id: Option<String>,
    pub role: String,
    pub name: Option<String>,
    pub value: Option<String>,
    pub description: Option<String>,
    pub hint: Option<String>,
    pub states: Vec<String>,
    pub available_actions: Vec<String>,
    pub children_count: Option<u32>,
    pub children: Vec<AccessibilityNode>,
}

/// A top-level window of an application.
#[derive(Debug)]
pub struct WindowInfo {
    pub id: String,
    pub title: String,
    pub app: String,
    pub pid: i32,
    pub is_focused: bool,
}

impl Clone for WindowInfo {
    fn clone(&self) -> (r: Self)
        ensures
            r == *self,
    {
        WindowInfo {
            id: self.id.clone(),
            title: self.title.clone(),
            app: self.app.clone(),
            pid: self.pid,
            is_focused: self.is_focused,
        }
    }
}

/// A running application.
#[derive(Debug)]
pub struct AppInfo {
    pub name: String,
    pub pid: i32,
    pub bundle_id: Option<String>,
}

impl Clone for AppInfo {
    fn clone(&self) -> (r: Self)
        ensures
            r == *self,
    {
        AppInfo { name: self.name.clone(), pid: self.pid, bundle_id: self.bundle_id.clone() }
    }
}

/// Which windows a window listing asks for.
#[derive(Debug)]
pub struct WindowFilter {
    pub focused_only: bool,
    pub app: Option<String>,
}

/// The view of an optional application name.
pub open spec fn app_view(app: Option<String>) -> Option<Seq<char>> {
    match app {
        Some(a) => Some(a@),
        None => None,
    }
}

/// The view of an optional string slice.
pub open spec fn str_opt_view(app: Option<&str>) -> Option<Seq<char>> {
    match app {
        Some(a) => Some(a@),
        None => None,
    }
}

impl WindowFilter {
    /// Every window of every application.
    pub fn all_windows() -> (f: WindowFilter)
        ensures
            !f.focused_only,
            f.app is None,
    {
        WindowFilter { focused_only: false, app: None }
    }

    /// The focused windows, of application `app` when one is given.
    pub fn focused_windows(app: Option<&str>) -> (f: WindowFilter)
        ensures
            f.focused_only,
            app_view(f.app) == str_opt_view(app),
    {
        WindowFilter {
            focused_only: true,
            app: match app {
                Some(a) => Some(crate::text::owned(a)),
                None => None,
            },
        }
    }

    /// Every window of application `app` when one is given, else of every
    /// application.
    pub fn windows_of(app: &Option<String>) -> (f: WindowFilter)
        ensures
            !f.focused_only,
            app_view(f.app) == app_view(*app),
    {
        WindowFilter {
            focused_only: false,
            app: match app {
                Some(a) => Some(a.clone()),
                None => None,
            },
        }
    }
}

/// The live state of an element: its role, state names and value.
#[derive(Debug)]
pub struct ElementState {
    pub role: String,
    pub states: Vec<String>,
    pub value: Option<String>,
}

/// What a snapshot recorded about an element that received a ref.
#[derive(Debug)]
pub struct RefEntry {
    pub pid: i32,
    pub role: String,
    pub name: Option<String>,
    pub value: Option<String>,
    pub description: Option<String>,
    pub states: Vec<String>,
    pub available_actions: Vec<String>,
    pub source_app: Option<String>,
    pub source_window_title: Option<String>,
}

/// The accessibility surface that a snapshot captures.
#[derive(Debug, Clone, Copy, PartialEq, Eq, Structural)]
pub enum SnapshotSurface {
    Window,
    Focused,
    Menu,
    Menubar,
    ExtrasMenubar,
    Dock,
    Sheet,
    Popover,
    Alert,
}

/// How a tree is to be captured.
#[derive(Debug, Clone, Copy)]
pub struct TreeOptions {
    pub surface: SnapshotSurface,
    pub interactive_only: bool,
    pub include_bounds: bool,
    pub compact: bool,
}

impl TreeOptions {
    /// The options a snapshot uses unless told otherwise: the window surface,
    /// every element, no bounds, not compacted.
    pub fn defaults() -> (r: TreeOptions)
        ensures
            r.surface == SnapshotSurface::Window,
            !r.interactive_only,
            !r.include_bounds,
            !r.compact,
    {
        TreeOptions {
            surface: SnapshotSurface::Window,
            interactive_only: false,
            include_bounds: false,
            compact: false,
        }
    }

    /// The options a tree is captured with so that each element's bounds
    /// are gathered, which a saved ref records as part of its identity:
    /// these options with `include_bounds` set and nothing else changed.
    pub fn with_ref_identity_bounds(&self) -> (r: TreeOptions)
        ensures
            r.surface == self.surface,
            r.interactive_only == self.interactive_only,
            r.include_bounds,
            r.compact == self.compact,
    {
        TreeOptions {
            surface: self.surface,
            interactive_only: self.interactive_only,
            include_bounds: true,
            compact: self.compact,
        }
    }
}

} // verus!
