//! The `focus-window` command: choosing the window to focus, observing
//! which window has focus, and deciding when focus has settled.
use vstd::prelude::*;
use crate::adapter::PlatformAdapter;
use crate::error::{AdapterError, AppError, ErrorCode};
use crate::node::{WindowFilter, WindowInfo};
use crate::text::{eq_ignore_ascii_case, eq_ignore_case, has_substring, owned, str_contains, str_eq};

verus! {

/// How many consecutive observations must agree before focus counts as
/// settled.
pub const FOCUS_CONFIRMATIONS: u8 = 2;

/// Arguments of the `focus-window` command.
pub struct FocusWindowArgs {
    pub window_id: Option<String>,
    pub app: Option<String>,
    pub title: Option<String>,
}

/// The first window of `ws` that satisfies `p`.
pub open spec fn first_window(ws: Seq<WindowInfo>, p: spec_fn(WindowInfo) -> bool) -> Option<WindowInfo>
    decreases ws.len(),
{
    if ws.len() == 0 {
        None
    } else if p(ws[0]) {
        Some(ws[0])
    } else {
        first_window(ws.drop_first(), p)
    }
}

/// `w` is the kind of window the arguments ask for: the one with the given
/// id, else one whose title contains the given text, else one of the named
/// application (ignoring ASCII case).
pub open spec fn window_fits(w: WindowInfo, args: FocusWindowArgs) -> bool {
    match args.window_id {
        Some(id) => w.id@ == id@,
        None => match args.title {
            Some(t) => has_substring(w.title@, t@),
            None => match args.app {
                Some(a) => eq_ignore_case(w.app@, a@),
                None => false,
            },
        },
    }
}

/// The window that `focus-window` asks for among `ws`: the first that fits
/// the arguments; `None` when the arguments name no criterion.
pub open spec fn focus_choice(ws: Seq<WindowInfo>, args: FocusWindowArgs) -> Option<Option<WindowInfo>> {
    if args.window_id is None && args.title is None && args.app is None {
        None
    } else {
        Some(first_window(ws, |w: WindowInfo| window_fits(w, args)))
    }
}

/// The error for a focus request that names no window.
pub open spec fn no_criterion_error(e: AppError) -> bool {
    e matches AppError::InvalidInput { message, suggestion }
        && message@ == "Provide --window-id, --app, or --title to identify the window"@
        && suggestion is None
}

/// The error for a focus request whose window does not exist.
pub open spec fn no_matching_window_error(e: AppError) -> bool {
    e matches AppError::Adapter(a) && a.code == ErrorCode::WindowNotFound
        && a.message@ == "No matching window found"@
        && (a.suggestion matches Some(s) && s@ == "Run 'list-windows' to see available windows and their IDs."@)
}

/// Chooses the window to focus among `windows`.
pub fn select_window(windows: &Vec<WindowInfo>, args: &FocusWindowArgs) -> (r: Result<WindowInfo, AppError>)
    ensures
        focus_choice(windows@, *args) matches Some(Some(w)) ==> r == Ok::<WindowInfo, AppError>(w),
        focus_choice(windows@, *args) matches Some(None) ==> (r matches Err(e) && no_matching_window_error(e)),
        focus_choice(windows@, *args) is None ==> (r matches Err(e) && no_criterion_error(e)),
        r matches Ok(w) ==> window_fits(w, *args),
{
    let mut i: usize = 0;
    assert(windows@.skip(0) == windows@);
    let ghost p = |w: WindowInfo| window_fits(w, *args);
    if args.window_id.is_none() && args.title.is_none() && args.app.is_none() {
        return Err(
            AppError::invalid_input(owned("Provide --window-id, --app, or --title to identify the window")),
        );
    }
    while i < windows.len()
        invariant
            i <= windows.len(),
            first_window(windows@, p) == first_window(windows@.skip(i as int), p),
            p == (|w: WindowInfo| window_fits(w, *args)),
        decreases windows.len() - i,
    {
        assert(windows@.skip(i as int).drop_first() == windows@.skip(i + 1));
        let w = &windows[i];
        let hit = match &args.window_id {
            Some(id) => str_eq(w.id.as_str(), id.as_str()),
            None => match &args.title {
                Some(t) => str_contains(w.title.as_str(), t.as_str()),
                None => match &args.app {
                    Some(a) => eq_ignore_ascii_case(w.app.as_str(), a.as_str()),
                    None => false,
                },
            },
        };
        if hit {
            proof {
                lemma_first_window_p(windows@, p);
            }
            return Ok(w.clone());
        }
        i = i + 1;
    }
    Err(
        AppError::Adapter(
            AdapterError::new(ErrorCode::WindowNotFound, "No matching window found").with_suggestion(
                "Run 'list-windows' to see available windows and their IDs.",
            ),
        ),
    )
}

/// Lists the windows (of the named application, when one is named), chooses
/// the one to focus and asks the platform to focus it. Returns the window
/// that was focused; whether focus then settles on it is observed
/// separately.
pub fn focus_target<A: PlatformAdapter>(args: &FocusWindowArgs, adapter: &A) -> (r: Result<WindowInfo, AppError>)
    ensures
        r matches Ok(w) ==> window_fits(w, *args),
        args.window_id is None && args.title is None && args.app is None ==> r is Err,
{
    let filter = WindowFilter::windows_of(&args.app);
    let windows = match adapter.list_windows(&filter) {
        Ok(ws) => ws,
        Err(e) => return Err(AppError::Adapter(e)),
    };
    let window = select_window(&windows, args)?;
    match adapter.focus_window(&window) {
        Ok(()) => Ok(window),
        Err(e) => Err(AppError::Adapter(e)),
    }
}

proof fn lemma_first_window_p(ws: Seq<WindowInfo>, p: spec_fn(WindowInfo) -> bool)
    ensures
        first_window(ws, p) matches Some(w) ==> p(w),
    decreases ws.len(),
{
    if ws.len() > 0 && !p(ws[0]) {
        lemma_first_window_p(ws.drop_first(), p);
    }
}

/// `first_window` finds the earliest window that satisfies `p`, and finds
/// none exactly when no window does.
proof fn lemma_first_window_is_earliest(ws: Seq<WindowInfo>, p: spec_fn(WindowInfo) -> bool)
    ensures
        first_window(ws, p) matches Some(w) ==> exists|i: int|
            0 <= i < ws.len() && ws[i] == w && p(w) && forall|j: int| 0 <= j < i ==> !p(#[trigger] ws[j]),
        first_window(ws, p) is None <==> forall|i: int| 0 <= i < ws.len() ==> !p(#[trigger] ws[i]),
    decreases ws.len(),
{
    if ws.len() > 0 {
        let rest = ws.drop_first();
        lemma_first_window_is_earliest(rest, p);
        if !p(ws[0]) {
            if let Some(w) = first_window(rest, p) {
                let k = choose|k: int| 0 <= k < rest.len() && rest[k] == w && p(w)
                    && forall|j: int| 0 <= j < k ==> !p(#[trigger] rest[j]);
                assert(ws[k + 1] == w);
                assert forall|j: int| 0 <= j < k + 1 implies !p(#[trigger] ws[j]) by {
                    if j > 0 {
                        assert(ws[j] == rest[j - 1]);
                    }
                }
            } else {
                assert forall|i: int| 0 <= i < ws.len() implies !p(#[trigger] ws[i]) by {
                    if i > 0 {
                        assert(ws[i] == rest[i - 1]);
                    }
                }
            }
            if forall|i: int| 0 <= i < ws.len() ==> !p(#[trigger] ws[i]) {
                assert forall|i: int| 0 <= i < rest.len() implies !p(#[trigger] rest[i]) by {
                    assert(rest[i] == ws[i + 1]);
                }
            }
        }
    }
}

/// Which criterion `focus-window` goes by: with `--window-id`, the first
/// listed window with that id; else, with `--title`, the first listed
/// window whose title contains the text, whatever `--app` says; else the
/// first window of the `--app` application (ignoring ASCII case). No
/// window is chosen exactly when no listed window meets the criterion, and
/// the request is refused exactly when it names no criterion.
pub proof fn lemma_focus_criterion(ws: Seq<WindowInfo>, args: FocusWindowArgs)
    ensures
        focus_choice(ws, args) is None <==> (args.window_id is None && args.title is None && args.app is None),
        args.window_id matches Some(id) ==> focus_choice(ws, args) is Some && (focus_choice(ws, args)
            matches Some(Some(w)) ==> exists|i: int| 0 <= i < ws.len() && ws[i] == w && w.id@ == id@
            && forall|j: int| 0 <= j < i ==> #[trigger] ws[j].id@ != id@),
        args.window_id matches Some(id) ==> (focus_choice(ws, args) == Some(None::<WindowInfo>) <==> forall|i: int|
            0 <= i < ws.len() ==> #[trigger] ws[i].id@ != id@),
        args.window_id is None ==> (args.title matches Some(t) ==> focus_choice(ws, args) is Some && (focus_choice(
            ws,
            args,
        ) matches Some(Some(w)) ==> exists|i: int| 0 <= i < ws.len() && ws[i] == w && has_substring(w.title@, t@)
            && forall|j: int| 0 <= j < i ==> !has_substring(#[trigger] ws[j].title@, t@))),
        args.window_id is None ==> (args.title matches Some(t) ==> (focus_choice(ws, args) == Some(None::<WindowInfo>)
            <==> forall|i: int| 0 <= i < ws.len() ==> !has_substring(#[trigger] ws[i].title@, t@))),
        (args.window_id is None && args.title is None) ==> (args.app matches Some(a) ==> focus_choice(ws, args) is Some
            && (focus_choice(ws, args) matches Some(Some(w)) ==> exists|i: int| 0 <= i < ws.len() && ws[i] == w
            && eq_ignore_case(w.app@, a@) && forall|j: int| 0 <= j < i ==> !eq_ignore_case(#[trigger] ws[j].app@, a@))),
        (args.window_id is None && args.title is None) ==> (args.app matches Some(a) ==> (focus_choice(ws, args) == Some(
            None::<WindowInfo>,
        ) <==> forall|i: int| 0 <= i < ws.len() ==> !eq_ignore_case(#[trigger] ws[i].app@, a@))),
{
    let p = |w: WindowInfo| window_fits(w, args);
    lemma_first_window_is_earliest(ws, p);
}

/// What to make of the platform's direct answer to "which window has
/// focus".
#[derive(Debug)]
pub enum FocusObservation {
    /// The platform answered: this window (or none) has focus.
    Seen(Option<WindowInfo>),
    /// The platform cannot answer directly: ask for its focused windows.
    ListFocused,
    /// The platform failed.
    Failed(AdapterError),
}

/// Reads the platform's direct answer: an answer is taken as it is; an
/// unsupported operation calls for the focused-window listing instead; any
/// other failure is passed on.
pub fn focus_observation(direct: Result<Option<WindowInfo>, AdapterError>) -> (r: FocusObservation)
    ensures
        match direct {
            Ok(o) => r == FocusObservation::Seen(o),
            Err(e) => if e.code == ErrorCode::PlatformNotSupported {
                r is ListFocused
            } else {
                r == FocusObservation::Failed(e)
            },
        },
{
    match direct {
        Ok(o) => FocusObservation::Seen(o),
        Err(e) => if e.code == ErrorCode::PlatformNotSupported {
            FocusObservation::ListFocused
        } else {
            FocusObservation::Failed(e)
        },
    }
}

/// The focused window a focused-window listing reports: its first window,
/// or none when it is empty; a failed listing is passed on.
pub fn first_listed(listing: Result<Vec<WindowInfo>, AdapterError>) -> (r: Result<Option<WindowInfo>, AppError>)
    ensures
        match listing {
            Ok(ws) => r == Ok::<Option<WindowInfo>, AppError>(
                if ws@.len() > 0 {
                    Some(ws@[0])
                } else {
                    None
                },
            ),
            Err(e) => r == Err::<Option<WindowInfo>, AppError>(AppError::Adapter(e)),
        },
{
    match listing {
        Ok(windows) => {
            if windows.len() > 0 {
                Ok(Some(windows[0].clone()))
            } else {
                Ok(None)
            }
        },
        Err(e) => Err(AppError::Adapter(e)),
    }
}

/// The window that has focus now: the platform's direct answer, or, when
/// the platform cannot answer directly, the first focused window it lists
/// (of `app`, when given), as `focus_observation` and `first_listed` decide.
/// The listing asks for focused windows of `app` (see
/// `WindowFilter::focused_windows`).
pub fn observed_focused_window<A: PlatformAdapter>(adapter: &A, app: Option<&str>) -> (r: Result<
    Option<WindowInfo>,
    AppError,
>)
    ensures
        r matches Err(e) ==> e is Adapter,
{
    match focus_observation(adapter.focused_window()) {
        FocusObservation::Seen(o) => Ok(o),
        FocusObservation::Failed(e) => Err(AppError::Adapter(e)),
        FocusObservation::ListFocused => {
            let filter = WindowFilter::focused_windows(app);
            first_listed(adapter.list_windows(&filter))
        },
    }
}

/// One observation of the settle loop: a run of observations of the
/// requested window grows by one, anything else ends it. Focus has settled
/// once the run reaches `FOCUS_CONFIRMATIONS`.
pub fn focus_confirmation(confirmations: u8, observed: &Option<WindowInfo>, window_id: &str) -> (r: (u8, bool))
    ensures
        (observed matches Some(w) && w.id@ == window_id@) ==> r.0 == (if confirmations < 255 {
            confirmations + 1
        } else {
            255
        }),
        !(observed matches Some(w) && w.id@ == window_id@) ==> r.0 == 0,
        r.1 == (r.0 >= FOCUS_CONFIRMATIONS),
{
    let seen = match observed {
        Some(w) => str_eq(w.id.as_str(), window_id),
        None => false,
    };
    let c: u8 = if seen {
        if confirmations < 255 { confirmations + 1 } else { 255 }
    } else {
        0
    };
    (c, c >= FOCUS_CONFIRMATIONS)
}

/// The run of agreeing observations at the end of `seen` (each entry says
/// whether that observation showed the requested window).
pub open spec fn agreeing_run(seen: Seq<bool>) -> nat
    decreases seen.len(),
{
    if seen.len() == 0 {
        0
    } else if seen.last() {
        agreeing_run(seen.drop_last()) + 1
    } else {
        0
    }
}

/// Focus counts as settled exactly when the last two observations both
/// showed the requested window.
pub proof fn lemma_focus_settles_on_two_agreeing_observations(seen: Seq<bool>)
    ensures
        agreeing_run(seen) >= 2 <==> (seen.len() >= 2 && seen.last() && seen[seen.len() - 2]),
{
    if seen.len() >= 1 && seen.last() {
        let d = seen.drop_last();
        if d.len() >= 1 {
            assert(d.last() == seen[seen.len() - 2]);
            if !d.last() {
                assert(agreeing_run(d) == 0);
            } else {
                assert(agreeing_run(d) >= 1);
            }
        } else {
            assert(agreeing_run(d) == 0);
        }
    }
}

} // verus!
