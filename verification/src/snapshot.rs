//! Snapshots: choosing the window (or application) whose accessibility tree
//! is captured, and capturing it.
use vstd::prelude::*;
use crate::adapter::PlatformAdapter;
use crate::error::{AdapterError, AppError, ErrorCode};
use crate::helpers::{find_app_pid, first_app_pid};
use crate::node::{
    app_view, str_opt_view, AccessibilityNode, SnapshotSurface, TreeOptions, WindowFilter, WindowInfo,
};
use crate::text::{append_str, eq_ignore_ascii_case, eq_ignore_case, i64_to_string, int_decimal, owned, str_eq};

verus! {

/// A captured tree, the window it belongs to, and the id under which the
/// snapshot was saved (none until it is saved). The tree is the platform's
/// tree as built for the caller's options; element references and
/// structural hints are assigned where snapshots are stored, outside this
/// library.
pub struct SnapshotResult {
    pub tree: AccessibilityNode,
    pub window: WindowInfo,
    pub snapshot_id: Option<String>,
}

/// `w` fits a snapshot request: it has id `wid` when one is given; else it
/// belongs to application `app` (ignoring ASCII case), and has focus when
/// `focused` is set; with neither, it has focus.
pub open spec fn window_fits(w: WindowInfo, app: Option<Seq<char>>, wid: Option<Seq<char>>, focused: bool) -> bool {
    match wid {
        Some(id) => w.id@ == id,
        None => match app {
            Some(a) => eq_ignore_case(w.app@, a) && (focused ==> w.is_focused),
            None => w.is_focused,
        },
    }
}

/// The first window of `ws` that fits.
pub open spec fn first_fit(ws: Seq<WindowInfo>, app: Option<Seq<char>>, wid: Option<Seq<char>>, focused: bool) -> Option<WindowInfo>
    decreases ws.len(),
{
    if ws.len() == 0 {
        None
    } else if window_fits(ws[0], app, wid, focused) {
        Some(ws[0])
    } else {
        first_fit(ws.drop_first(), app, wid, focused)
    }
}

/// The window a snapshot captures, among `ws`: with a window id, the window
/// with that id; with an application name, its focused window, else its
/// first window (names compared ignoring ASCII case); otherwise the focused
/// window. `None` when there is no such window.
pub open spec fn snapshot_window(ws: Seq<WindowInfo>, app: Option<Seq<char>>, wid: Option<Seq<char>>) -> Option<WindowInfo> {
    match first_fit(ws, app, wid, true) {
        Some(w) => Some(w),
        None => if wid is None && app is Some {
            first_fit(ws, app, wid, false)
        } else {
            None
        },
    }
}

/// The error for a window id that no listed window has.
pub open spec fn unknown_window_error(e: AppError, id: Seq<char>) -> bool {
    e matches AppError::Adapter(a) && a.code == ErrorCode::WindowNotFound
        && a.message@ == "No window with id "@ + id
        && (a.suggestion matches Some(s) && s@ == "Run 'list-windows' to see available window IDs."@)
}

/// The error when no window has focus.
pub open spec fn no_focused_window_error(e: AppError) -> bool {
    e matches AppError::Adapter(a) && a.code == ErrorCode::WindowNotFound
        && a.message@ == "No focused window found"@
        && (a.suggestion matches Some(s)
        && s@ == "Use --app to specify an application, or click a window to focus it."@)
}

/// The error for an application with neither a window nor a process.
pub open spec fn unknown_app_error(e: AppError, app: Seq<char>) -> bool {
    e matches AppError::Adapter(a) && a.code == ErrorCode::AppNotFound
        && a.message@ == "No window or process found for app '"@ + app + "'"@
        && (a.suggestion matches Some(s)
        && s@ == "Verify the app is running. Use 'list-apps' to see running applications."@)
}

fn first_matching(
    windows: &Vec<WindowInfo>,
    app: Option<&str>,
    wid: Option<&str>,
    focused_only: bool,
) -> (r: Option<WindowInfo>)
    ensures
        r == first_fit(
            windows@,
            match app { Some(a) => Some(a@), None => None },
            match wid { Some(w) => Some(w@), None => None },
            focused_only,
        ),
{
    let ghost a = match app { Some(a) => Some(a@), None => None };
    let ghost d = match wid { Some(w) => Some(w@), None => None };
    let mut i: usize = 0;
    assert(windows@.skip(0) == windows@);
    while i < windows.len()
        invariant
            i <= windows.len(),
            first_fit(windows@, a, d, focused_only) == first_fit(windows@.skip(i as int), a, d, focused_only),
            a == match app { Some(a) => Some(a@), None => None::<Seq<char>> },
            d == match wid { Some(w) => Some(w@), None => None::<Seq<char>> },
        decreases windows.len() - i,
    {
        assert(windows@.skip(i as int).drop_first() == windows@.skip(i + 1));
        let w = &windows[i];
        let hit = match wid {
            Some(id) => str_eq(w.id.as_str(), id),
            None => match app {
                Some(a) => eq_ignore_ascii_case(w.app.as_str(), a) && (!focused_only || w.is_focused),
                None => w.is_focused,
            },
        };
        if hit {
            return Some(w.clone());
        }
        i = i + 1;
    }
    None
}

/// Chooses the window a snapshot captures among `windows`. `Ok(None)` means
/// that an application was named but none of its windows is listed, so the
/// application itself is to be captured.
pub fn choose_snapshot_window(
    windows: &Vec<WindowInfo>,
    app_name: Option<&str>,
    window_id: Option<&str>,
) -> (r: Result<Option<WindowInfo>, AppError>)
    ensures
        ({
            let app = match app_name { Some(a) => Some(a@), None => None };
            let wid = match window_id { Some(w) => Some(w@), None => None };
            match snapshot_window(windows@, app, wid) {
                Some(w) => r == Ok::<Option<WindowInfo>, AppError>(Some(w)),
                None => match window_id {
                    Some(id) => r matches Err(e) && unknown_window_error(e, id@),
                    None => match app_name {
                        Some(_) => r == Ok::<Option<WindowInfo>, AppError>(None),
                        None => r matches Err(e) && no_focused_window_error(e),
                    },
                },
            }
        }),
{
    if let Some(wid) = window_id {
        let found = first_matching(windows, app_name, Some(wid), true);
        return match found {
            Some(w) => Ok(Some(w)),
            None => {
                let mut m = owned("No window with id ");
                append_str(&mut m, wid);
                Err(
                    AppError::Adapter(
                        AdapterError::new(ErrorCode::WindowNotFound, m.as_str()).with_suggestion(
                            "Run 'list-windows' to see available window IDs.",
                        ),
                    ),
                )
            },
        };
    }
    if let Some(app) = app_name {
        let focused = first_matching(windows, Some(app), None, true);
        if focused.is_some() {
            return Ok(focused);
        }
        let any = first_matching(windows, Some(app), None, false);
        return Ok(any);
    }
    let focused = first_matching(windows, None, None, true);
    match focused {
        Some(w) => Ok(Some(w)),
        None => Err(
            AppError::Adapter(
                AdapterError::new(ErrorCode::WindowNotFound, "No focused window found").with_suggestion(
                    "Use --app to specify an application, or click a window to focus it.",
                ),
            ),
        ),
    }
}

/// The window that stands for application `pid` when it has no listed
/// window: id `app-<pid>`, titled and owned by `app`, not focused.
pub open spec fn synthetic_window(w: WindowInfo, pid: i32, app: Seq<char>) -> bool {
    &&& w.id@ == "app-"@ + int_decimal(pid as int)
    &&& w.title@ == app
    &&& w.app@ == app
    &&& w.pid == pid
    &&& !w.is_focused
}

/// The stand-in window of application `pid`.
pub fn app_window(pid: i32, app: &str) -> (r: WindowInfo)
    ensures
        synthetic_window(r, pid, app@),
{
    let mut id = owned("app-");
    let digits = i64_to_string(pid as i64);
    append_str(&mut id, digits.as_str());
    WindowInfo { id, title: owned(app), app: owned(app), pid, is_focused: false }
}

fn snapshot_from_window<A: PlatformAdapter>(adapter: &A, window: &WindowInfo, opts: &TreeOptions) -> (r: Result<
    SnapshotResult,
    AppError,
>)
    ensures
        r matches Ok(s) ==> s.window == *window && s.snapshot_id is None,
        r matches Err(e) ==> e is Adapter,
{
    let raw_tree = match adapter.get_tree(window, &opts.with_ref_identity_bounds()) {
        Ok(t) => t,
        Err(e) => return Err(AppError::Adapter(e)),
    };
    Ok(finalize_snapshot(raw_tree, window.clone()))
}

fn snapshot_from_app<A: PlatformAdapter>(adapter: &A, pid: i32, app: &str, opts: &TreeOptions) -> (r: Result<
    SnapshotResult,
    AppError,
>)
    ensures
        r matches Ok(s) ==> synthetic_window(s.window, pid, app@) && s.snapshot_id is None,
        r matches Err(e) ==> e is Adapter,
{
    let raw_tree = match adapter.get_app_tree(pid, &opts.with_ref_identity_bounds()) {
        Ok(t) => t,
        Err(e) => return Err(AppError::Adapter(e)),
    };
    Ok(finalize_snapshot(raw_tree, app_window(pid, app)))
}

fn finalize_snapshot(raw_tree: AccessibilityNode, window: WindowInfo) -> (r: SnapshotResult)
    ensures
        r.tree == raw_tree,
        r.window == window,
        r.snapshot_id is None,
{
    SnapshotResult { tree: raw_tree, window, snapshot_id: None }
}

/// The listing a snapshot asks for: only focused windows when neither an
/// application nor a window id is given, and only the named application's
/// windows when one is named.
pub fn snapshot_filter(app_name: Option<&str>, window_id: Option<&str>) -> (f: WindowFilter)
    ensures
        f.focused_only == (app_name is None && window_id is None),
        app_view(f.app) == str_opt_view(app_name),
{
    WindowFilter {
        focused_only: app_name.is_none() && window_id.is_none(),
        app: match app_name {
            Some(a) => Some(owned(a)),
            None => None,
        },
    }
}

/// The error for an application with neither a listed window nor a
/// running process.
pub open spec fn app_not_found_error(e: AppError, app: Seq<char>) -> bool {
    e matches AppError::Adapter(a) && a.code == ErrorCode::AppNotFound
        && a.message@ == "No window or process found for app '"@ + app + "'"@
        && (a.suggestion matches Some(s)
        && s@ == "Verify the app is running. Use 'list-apps' to see running applications."@)
        && a.platform_detail is None
}

/// The process of the application `app` names (ignoring ASCII case) among
/// the running applications, or, when none is running, the error that a
/// snapshot of it reports.
pub fn app_pid_or_not_found(apps: &Vec<crate::node::AppInfo>, app: &str) -> (r: Result<i32, AppError>)
    ensures
        first_app_pid(apps@, app@) matches Some(p) ==> r == Ok::<i32, AppError>(p),
        first_app_pid(apps@, app@) is None ==> (r matches Err(e) && app_not_found_error(e, app@)),
{
    match find_app_pid(apps, app) {
        Some(pid) => Ok(pid),
        None => {
            let mut m = owned("No window or process found for app '");
            append_str(&mut m, app);
            append_str(&mut m, "'");
            Err(
                AppError::Adapter(
                    AdapterError::new(ErrorCode::AppNotFound, m.as_str()).with_suggestion(
                        "Verify the app is running. Use 'list-apps' to see running applications.",
                    ),
                ),
            )
        },
    }
}

/// Captures a snapshot: of the window with id `window_id` when given; else
/// of a window of application `app_name` (its focused window first), or of
/// the application itself when it has no listed window; else of the
/// focused window. The listing asks only for focused windows when neither
/// is given, and only for the named application's windows when one is.
/// The tree is asked for with `opts.with_ref_identity_bounds()`.
pub fn build<A: PlatformAdapter>(
    adapter: &A,
    opts: &TreeOptions,
    app_name: Option<&str>,
    window_id: Option<&str>,
) -> (r: Result<SnapshotResult, AppError>)
    ensures
        r matches Ok(s) ==> s.snapshot_id is None,
        r matches Ok(s) ==> (window_id matches Some(id) ==> s.window.id@ == id@),
        r matches Ok(s) ==> (window_id is None ==> (app_name matches Some(a) ==> eq_ignore_case(s.window.app@, a@))),
        r matches Ok(s) ==> (window_id is None && app_name is None ==> s.window.is_focused),
        r matches Err(AppError::InvalidInput { .. }) ==> false,
{
    let filter = snapshot_filter(app_name, window_id);
    let windows = match adapter.list_windows(&filter) {
        Ok(ws) => ws,
        Err(e) => return Err(AppError::Adapter(e)),
    };
    let chosen = choose_snapshot_window(&windows, app_name, window_id)?;
    proof {
        let app = match app_name { Some(a) => Some(a@), None => None };
        let wid = match window_id { Some(w) => Some(w@), None => None };
        lemma_snapshot_window_fits(windows@, app, wid);
    }
    match chosen {
        Some(w) => snapshot_from_window(adapter, &w, opts),
        None => {
            let app = match app_name {
                Some(a) => a,
                None => {
                    assert(false);
                    ""
                },
            };
            let apps = match adapter.list_apps() {
                Ok(a) => a,
                Err(e) => return Err(AppError::Adapter(e)),
            };
            let pid = app_pid_or_not_found(&apps, app)?;
            proof {
                reveal_strlit("");
            }
            snapshot_from_app(adapter, pid, app, opts)
        },
    }
}

/// The first window of `ws` that belongs to process `pid`.
pub open spec fn first_window_of(ws: Seq<WindowInfo>, pid: i32) -> Option<WindowInfo>
    decreases ws.len(),
{
    if ws.len() == 0 {
        None
    } else if ws[0].pid == pid {
        Some(ws[0])
    } else {
        first_window_of(ws.drop_first(), pid)
    }
}

/// The first listed window of process `pid`.
pub fn surface_window<'a>(windows: &'a Vec<WindowInfo>, pid: i32) -> (r: Option<&'a WindowInfo>)
    ensures
        match r {
            Some(w) => first_window_of(windows@, pid) == Some(*w),
            None => first_window_of(windows@, pid) is None,
        },
{
    let mut i: usize = 0;
    assert(windows@.skip(0) =~= windows@);
    while i < windows.len()
        invariant
            i <= windows.len(),
            first_window_of(windows@, pid) == first_window_of(windows@.skip(i as int), pid),
        decreases windows.len() - i,
    {
        assert(windows@.skip(i as int).drop_first() =~= windows@.skip(i + 1));
        assert(windows@.skip(i as int)[0] == windows@[i as int]);
        if windows[i].pid == pid {
            return Some(&windows[i]);
        }
        i = i + 1;
    }
    None
}

/// Where a process's surface is captured from and recorded under: the id
/// and title of its first listed window, or, when it has none, `app-<pid>`
/// and the source application's name (empty without one), capturing from
/// the application itself.
pub struct SurfaceSource {
    pub window: Option<WindowInfo>,
    pub window_id: String,
    pub window_title: String,
}

/// Chooses where the surface of process `pid` is captured from, given the
/// listed windows.
pub fn surface_source(windows: &Vec<WindowInfo>, pid: i32, source_app: Option<&str>) -> (r: SurfaceSource)
    ensures
        match first_window_of(windows@, pid) {
            Some(w) => r.window == Some(w) && r.window_id@ == w.id@ && r.window_title@ == w.title@,
            None => r.window is None && r.window_id@ == "app-"@ + int_decimal(pid as int) && r.window_title@
                == (match source_app {
                Some(a) => a@,
                None => Seq::<char>::empty(),
            }),
        },
{
    match surface_window(windows, pid) {
        Some(w) => SurfaceSource { window: Some(w.clone()), window_id: w.id.clone(), window_title: w.title.clone() },
        None => {
            let stand_in = app_window(pid, "");
            let title = match source_app {
                Some(a) => owned(a),
                None => String::new(),
            };
            SurfaceSource { window: None, window_id: stand_in.id, window_title: title }
        },
    }
}

/// The tree of one surface of a process, with the id and title of the
/// window it is recorded under.
pub struct SurfaceCapture {
    pub tree: AccessibilityNode,
    pub window_id: String,
    pub window_title: String,
}

/// The options for capturing a surface: that surface, interactive elements
/// only, no bounds, not compacted.
pub fn surface_options(surface: SnapshotSurface) -> (r: TreeOptions)
    ensures
        r.surface == surface,
        r.interactive_only,
        !r.include_bounds,
        !r.compact,
{
    TreeOptions { surface, interactive_only: true, include_bounds: false, compact: false }
}

/// The capture of `tree`, recorded under the window id and title that
/// `source` chose.
pub fn capture_from(source: SurfaceSource, tree: AccessibilityNode) -> (c: SurfaceCapture)
    ensures
        c.tree == tree,
        c.window_id == source.window_id,
        c.window_title == source.window_title,
{
    SurfaceCapture { tree, window_id: source.window_id, window_title: source.window_title }
}

/// The first window of process `pid` in `ws` belongs to `pid`.
proof fn lemma_first_window_of_pid(ws: Seq<WindowInfo>, pid: i32)
    ensures
        first_window_of(ws, pid) matches Some(w) ==> w.pid == pid,
    decreases ws.len(),
{
    if ws.len() > 0 && ws[0].pid != pid {
        lemma_first_window_of_pid(ws.drop_first(), pid);
    }
}

/// Captures `surface` of process `pid`. The listing asks for all windows
/// (`WindowFilter::all_windows`); `surface_source` chooses among them; the
/// tree of the chosen window is asked for when there is one, else the tree
/// of the application, each with
/// `surface_options(surface).with_ref_identity_bounds()`; `capture_from`
/// records the tree under the chosen id and title. Listing and capture
/// failures are passed on.
pub fn surface_capture<A: PlatformAdapter>(
    adapter: &A,
    pid: i32,
    source_app: Option<&str>,
    surface: SnapshotSurface,
) -> (r: Result<SurfaceCapture, AppError>)
    ensures
        r matches Err(e) ==> e is Adapter,
        r matches Ok(c) ==> (c.window_id@ == "app-"@ + int_decimal(pid as int) && c.window_title@ == (
        match source_app {
            Some(a) => a@,
            None => Seq::<char>::empty(),
        })) || (exists|w: WindowInfo| w.pid == pid && c.window_id@ == w.id@ && c.window_title@ == w.title@),
{
    let opts = surface_options(surface).with_ref_identity_bounds();
    let filter = WindowFilter::all_windows();
    let windows = match adapter.list_windows(&filter) {
        Ok(ws) => ws,
        Err(e) => return Err(AppError::Adapter(e)),
    };
    let source = surface_source(&windows, pid, source_app);
    proof {
        lemma_first_window_of_pid(windows@, pid);
    }
    let tree = match &source.window {
        Some(w) => adapter.get_tree(w, &opts),
        None => adapter.get_app_tree(pid, &opts),
    };
    match tree {
        Ok(t) => {
            let c = capture_from(source, t);
            proof {
                if let Some(w) = first_window_of(windows@, pid) {
                    assert(w.pid == pid && c.window_id@ == w.id@ && c.window_title@ == w.title@);
                }
            }
            Ok(c)
        },
        Err(e) => Err(AppError::Adapter(e)),
    }
}

proof fn lemma_first_fit_fits(ws: Seq<WindowInfo>, app: Option<Seq<char>>, wid: Option<Seq<char>>, focused: bool)
    ensures
        first_fit(ws, app, wid, focused) matches Some(w) ==> window_fits(w, app, wid, focused),
    decreases ws.len(),
{
    if ws.len() > 0 && !window_fits(ws[0], app, wid, focused) {
        lemma_first_fit_fits(ws.drop_first(), app, wid, focused);
    }
}

proof fn lemma_snapshot_window_fits(ws: Seq<WindowInfo>, app: Option<Seq<char>>, wid: Option<Seq<char>>)
    ensures
        snapshot_window(ws, app, wid) matches Some(w) ==> window_fits(w, app, wid, false),
{
    lemma_first_fit_fits(ws, app, wid, true);
    lemma_first_fit_fits(ws, app, wid, false);
}

} // verus!
