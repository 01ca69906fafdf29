//! The interface a platform adapter implements. The library's commands are
//! written against it; each platform (and each test) supplies its own
//! implementation. Every operation has a default that reports it as
//! unsupported, and by default no process is protected.
use vstd::prelude::*;
use crate::error::{AdapterError, ErrorCode};
use crate::node::{AccessibilityNode, AppInfo, TreeOptions, WindowFilter, WindowInfo};
use crate::system::{SystemController, UnsupportedSystemController};

verus! {

/// What a command needs from the platform. Nothing is promised of what an
/// implementation returns: the platform decides, and two calls may answer
/// differently. The default of each operation reports it as unsupported on
/// this platform, the default system controls support nothing, and by
/// default no process is protected.
pub trait PlatformAdapter {
    /// The windows that `filter` selects.
    fn list_windows(&self, filter: &WindowFilter) -> (r: Result<Vec<WindowInfo>, AdapterError>)
        default_ensures
            r matches Err(e) && e.code == ErrorCode::PlatformNotSupported && e.message@ == "list_windows"@
                + " is not supported on this platform"@ && e.suggestion is None && e.platform_detail is None,
    {
        Err(AdapterError::not_supported("list_windows"))
    }

    /// The running applications.
    fn list_apps(&self) -> (r: Result<Vec<AppInfo>, AdapterError>)
        default_ensures
            r matches Err(e) && e.code == ErrorCode::PlatformNotSupported && e.message@ == "list_apps"@
                + " is not supported on this platform"@ && e.suggestion is None && e.platform_detail is None,
    {
        Err(AdapterError::not_supported("list_apps"))
    }

    /// The window that currently has focus, if any.
    fn focused_window(&self) -> (r: Result<Option<WindowInfo>, AdapterError>)
        default_ensures
            r matches Err(e) && e.code == ErrorCode::PlatformNotSupported && e.message@ == "focused_window"@
                + " is not supported on this platform"@ && e.suggestion is None && e.platform_detail is None,
    {
        Err(AdapterError::not_supported("focused_window"))
    }

    /// Brings `win` to the front and gives it focus.
    fn focus_window(&self, win: &WindowInfo) -> (r: Result<(), AdapterError>)
        default_ensures
            r matches Err(e) && e.code == ErrorCode::PlatformNotSupported && e.message@ == "focus_window"@
                + " is not supported on this platform"@ && e.suggestion is None && e.platform_detail is None,
    {
        Err(AdapterError::not_supported("focus_window"))
    }

    /// Asks application `id` to quit, or terminates it when `force` is set.
    fn close_app(&self, id: &str, force: bool) -> (r: Result<(), AdapterError>)
        default_ensures
            r matches Err(e) && e.code == ErrorCode::PlatformNotSupported && e.message@ == "close_app"@
                + " is not supported on this platform"@ && e.suggestion is None && e.platform_detail is None,
    {
        Err(AdapterError::not_supported("close_app"))
    }

    /// The accessibility tree of `win`.
    fn get_tree(&self, win: &WindowInfo, opts: &TreeOptions) -> (r: Result<AccessibilityNode, AdapterError>)
        default_ensures
            r matches Err(e) && e.code == ErrorCode::PlatformNotSupported && e.message@ == "get_tree"@
                + " is not supported on this platform"@ && e.suggestion is None && e.platform_detail is None,
    {
        Err(AdapterError::not_supported("get_tree"))
    }

    /// The accessibility tree of the application `pid`, for applications
    /// without a listed window.
    fn get_app_tree(&self, pid: i32, opts: &TreeOptions) -> (r: Result<AccessibilityNode, AdapterError>)
        default_ensures
            r matches Err(e) && e.code == ErrorCode::PlatformNotSupported && e.message@ == "get_app_tree"@
                + " is not supported on this platform"@ && e.suggestion is None && e.platform_detail is None,
    {
        Err(AdapterError::not_supported("get_app_tree"))
    }

    /// Every `Top > Item` path of the menu bar of application `pid`.
    fn list_menu_paths(&self, pid: i32) -> (r: Result<Vec<String>, AdapterError>)
        default_ensures
            r matches Err(e) && e.code == ErrorCode::PlatformNotSupported && e.message@ == "list_menu_paths"@
                + " is not supported on this platform"@ && e.suggestion is None && e.platform_detail is None,
    {
        Err(AdapterError::not_supported("list_menu_paths"))
    }

    /// Selects the menu item of application `pid` at `path`.
    fn select_menu_path(&self, pid: i32, path: &Vec<String>) -> (r: Result<(), AdapterError>)
        default_ensures
            r matches Err(e) && e.code == ErrorCode::PlatformNotSupported && e.message@ == "select_menu_path"@
                + " is not supported on this platform"@ && e.suggestion is None && e.platform_detail is None,
    {
        Err(AdapterError::not_supported("select_menu_path"))
    }

    /// The platform's system controls; by default a controller that reports
    /// every control as unsupported.
    fn system(&self) -> (r: &dyn SystemController)
        default_ensures
            r.supports_nothing(),
    {
        let c: &UnsupportedSystemController = &UnsupportedSystemController;
        return c;
    }

    /// `identifier` names a process that must never be closed. By default
    /// no process is protected.
    fn is_protected_process(&self, identifier: &str) -> (r: bool)
        default_ensures
            !r,
    {
        false
    }
}

} // verus!
