//! The application commands: `list-apps` with its name filter, `close-app`
//! with its protection check, and the menu probe that follows a right-click.
use vstd::prelude::*;
use crate::adapter::PlatformAdapter;
use crate::error::{app_error_code, app_error_message, error_code_name, AdapterError, AppError, ErrorCode};
use crate::node::{AppInfo, RefEntry, WindowFilter, WindowInfo};
use crate::search_text::{contains, normalize, normalized_text, text_contains};
use crate::text::{append_str, owned};

verus! {

/// Arguments of the `list-apps` command.
pub struct ListAppsArgs {
    pub app: Option<String>,
}

/// The applications of `apps` whose names contain `needle` (ASCII case
/// ignored), in their original order.
pub open spec fn apps_matching(apps: Seq<AppInfo>, needle: Seq<char>) -> Seq<AppInfo>
    decreases apps.len(),
{
    if apps.len() == 0 {
        Seq::empty()
    } else {
        let rest = apps_matching(apps.drop_last(), needle);
        if text_contains(apps.last().name@, needle) {
            rest.push(apps.last())
        } else {
            rest
        }
    }
}

/// Keeps the applications whose names contain the filter text (trimmed and
/// compared ignoring ASCII case); without a filter, keeps all of them.
pub fn filter_apps(apps: Vec<AppInfo>, filter: Option<&str>) -> (r: Vec<AppInfo>)
    ensures
        match filter {
            Some(f) => r@ == apps_matching(apps@, normalized_text(f@)),
            None => r@ == apps@,
        },
{
    let needle = match filter {
        Some(f) => normalize(f),
        None => return apps,
    };
    let mut out: Vec<AppInfo> = Vec::new();
    let mut i: usize = 0;
    assert(apps@.take(0) =~= Seq::<AppInfo>::empty());
    while i < apps.len()
        invariant
            i <= apps.len(),
            out@ == apps_matching(apps@.take(i as int), needle@),
        decreases apps.len() - i,
    {
        assert(apps@.take(i + 1).drop_last() =~= apps@.take(i as int));
        assert(apps@.take(i + 1).last() == apps@[i as int]);
        if contains(apps[i].name.as_str(), needle.as_str()) {
            out.push(apps[i].clone());
        }
        i = i + 1;
    }
    assert(apps@.take(i as int) =~= apps@);
    out
}

/// Every application `apps_matching` keeps has a name containing the needle.
pub proof fn lemma_apps_matching_match(apps: Seq<AppInfo>, needle: Seq<char>)
    ensures
        forall|i: int| 0 <= i < apps_matching(apps, needle).len() ==> text_contains(
            #[trigger] apps_matching(apps, needle)[i].name@,
            needle,
        ),
    decreases apps.len(),
{
    if apps.len() > 0 {
        lemma_apps_matching_match(apps.drop_last(), needle);
        let rest = apps_matching(apps.drop_last(), needle);
        assert forall|i: int| 0 <= i < apps_matching(apps, needle).len() implies text_contains(
            #[trigger] apps_matching(apps, needle)[i].name@,
            needle,
        ) by {
            if i < rest.len() {
                assert(apps_matching(apps, needle)[i] == rest[i]);
            }
        }
    }
}

/// The `list-apps` command: the running applications, filtered by name.
/// With a filter, every application listed has a name that contains it.
pub fn list_apps<A: PlatformAdapter>(args: &ListAppsArgs, adapter: &A) -> (r: Result<Vec<AppInfo>, AppError>)
    ensures
        r matches Err(e) ==> e is Adapter,
        r matches Ok(v) ==> (args.app matches Some(a) ==> forall|i: int| 0 <= i < v@.len() ==> text_contains(
            #[trigger] v@[i].name@,
            normalized_text(a@),
        )),
{
    let apps = match adapter.list_apps() {
        Ok(a) => a,
        Err(e) => return Err(AppError::Adapter(e)),
    };
    let filter = match &args.app {
        Some(a) => Some(a.as_str()),
        None => None,
    };
    let ghost all = apps@;
    let kept = filter_apps(apps, filter);
    proof {
        if let Some(a) = &args.app {
            lemma_apps_matching_match(all, normalized_text(a@));
        }
    }
    Ok(kept)
}

/// Arguments of the `close-app` command.
pub struct CloseAppArgs {
    pub app: String,
    pub force: bool,
}

/// What `close-app` reports: the application, how it was asked to close,
/// that the request was made, and, for a forced close only, that it closed.
#[derive(Debug)]
pub struct CloseAppOutcome {
    pub app: String,
    pub method: &'static str,
    pub requested: bool,
    pub closed: Option<bool>,
}

/// The error for an attempt to close a protected process.
pub open spec fn protected_error(e: AppError, app: Seq<char>) -> bool {
    e matches AppError::InvalidInput { message, suggestion }
        && message@ == "'"@ + app + "' is a protected system process and cannot be closed"@
        && suggestion is None
}

/// The refusal of `close-app` for a process the platform protects: exactly
/// when it is protected, and then always, so that a protected process is
/// never asked to close.
pub fn protection_refusal(app: &str, protected: bool) -> (r: Option<AppError>)
    ensures
        protected <==> r is Some,
        r matches Some(e) ==> protected_error(e, app@),
{
    if protected {
        let mut m = owned("'");
        append_str(&mut m, app);
        append_str(&mut m, "' is a protected system process and cannot be closed");
        Some(AppError::invalid_input(m))
    } else {
        None
    }
}

/// What `close-app` hands the platform: the application as given and
/// whether the close is forced.
pub fn close_request(args: &CloseAppArgs) -> (r: (String, bool))
    ensures
        r.0@ == args.app@,
        r.1 == args.force,
{
    (owned(args.app.as_str()), args.force)
}

/// The `close-app` command. A process the platform protects is refused
/// before anything is asked of it; the protection question and the close
/// itself both receive `close_request(&args)`. A graceful close reports the request
/// only, since the application may decline; a forced close reports that the
/// application closed.
pub fn close_app<A: PlatformAdapter>(args: CloseAppArgs, adapter: &A) -> (r: Result<CloseAppOutcome, AppError>)
    ensures
        r matches Ok(o) ==> o.app@ == args.app@ && o.requested && (if args.force {
            o.method@ == "force"@ && o.closed == Some(true)
        } else {
            o.method@ == "graceful"@ && o.closed is None
        }),
        r matches Err(e) ==> (protected_error(e, args.app@) || e is Adapter),
{
    let (app, force) = close_request(&args);
    let protected = adapter.is_protected_process(app.as_str());
    if let Some(e) = protection_refusal(app.as_str(), protected) {
        return Err(e);
    }
    match adapter.close_app(app.as_str(), force) {
        Ok(()) => {},
        Err(e) => return Err(AppError::Adapter(e)),
    }
    let method: &'static str = if args.force { "force" } else { "graceful" };
    let closed = if args.force { Some(true) } else { None };
    Ok(CloseAppOutcome { app: args.app, method, requested: true, closed })
}

/// The name of the application that owns the first window of process `pid`.
pub open spec fn app_of_pid(windows: Seq<WindowInfo>, pid: i32) -> Option<Seq<char>>
    decreases windows.len(),
{
    if windows.len() == 0 {
        None
    } else if windows[0].pid == pid {
        Some(windows[0].app@)
    } else {
        app_of_pid(windows.drop_first(), pid)
    }
}

/// The application that owns the first of `windows` belonging to `pid`.
pub fn window_app_for_pid(windows: &Vec<WindowInfo>, pid: i32) -> (r: Option<String>)
    ensures
        match r {
            Some(a) => app_of_pid(windows@, pid) == Some(a@),
            None => app_of_pid(windows@, pid) is None,
        },
{
    let mut i: usize = 0;
    assert(windows@.skip(0) == windows@);
    while i < windows.len()
        invariant
            i <= windows.len(),
            app_of_pid(windows@, pid) == app_of_pid(windows@.skip(i as int), pid),
        decreases windows.len() - i,
    {
        assert(windows@.skip(i as int).drop_first() == windows@.skip(i + 1));
        if windows[i].pid == pid {
            return Some(windows[i].app.clone());
        }
        i = i + 1;
    }
    None
}

/// The application whose menu a right-click opened: the one the ref was
/// recorded in, else the owner of a listed window of the ref's process, as
/// `probe_from_listing` decides over a listing of all windows
/// (`WindowFilter::all_windows`). A failed listing yields no application.
pub fn probe_app_name<A: PlatformAdapter>(adapter: &A, entry: &RefEntry) -> (r: Option<String>)
    ensures
        entry.source_app matches Some(s) ==> r == Some(s),
{
    if entry.source_app.is_some() {
        return entry.source_app.clone();
    }
    let filter = WindowFilter::all_windows();
    probe_from_listing(adapter.list_windows(&filter), entry.pid)
}

/// The application of process `pid` according to a listing of all windows:
/// the owner of its first window; none when it has no window or the listing
/// failed.
pub fn probe_from_listing(listing: Result<Vec<WindowInfo>, AdapterError>, pid: i32) -> (r: Option<String>)
    ensures
        match listing {
            Ok(ws) => match r {
                Some(a) => app_of_pid(ws@, pid) == Some(a@),
                None => app_of_pid(ws@, pid) is None,
            },
            Err(_) => r is None,
        },
{
    match listing {
        Ok(windows) => window_app_for_pid(&windows, pid),
        Err(_) => None,
    }
}

/// How a failed menu probe is reported.
#[derive(Debug)]
pub struct ProbeError {
    pub code: String,
    pub message: String,
    pub suggestion: Option<String>,
}

/// The report of a failed menu probe: for `ELEMENT_NOT_FOUND`, guidance
/// specific to right-click menus; otherwise the error's own code, message
/// and suggestion.
pub fn probe_error(err: &AppError) -> (r: ProbeError)
    ensures
        app_error_code(*err) == ErrorCode::ElementNotFound ==> r.code@ == "ELEMENT_NOT_FOUND"@
            && r.message@ == "Right-click action was accepted, but no menu accessibility tree was exposed for capture."@
            && (r.suggestion matches Some(s)
            && s@ == "Use 'snapshot --surface menu' only when the app exposes the context menu through accessibility."@),
        app_error_code(*err) != ErrorCode::ElementNotFound ==> r.code@ == error_code_name(app_error_code(*err))
            && r.message@ == app_error_message(*err)
            && r.suggestion == (match *err {
                AppError::Adapter(a) => a.suggestion,
                AppError::InvalidInput { suggestion, .. } => suggestion,
            }),
{
    if err.error_code() == ErrorCode::ElementNotFound {
        return ProbeError {
            code: owned("ELEMENT_NOT_FOUND"),
            message: owned(
                "Right-click action was accepted, but no menu accessibility tree was exposed for capture.",
            ),
            suggestion: Some(
                owned(
                    "Use 'snapshot --surface menu' only when the app exposes the context menu through accessibility.",
                ),
            ),
        };
    }
    ProbeError { code: owned(err.code()), message: err.message(), suggestion: err.suggestion() }
}

} // verus!
