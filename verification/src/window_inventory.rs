//! The window listing: which on-screen windows the window server reports are
//! application windows, which of them is focused, and when an empty listing
//! is worth another try.
use vstd::prelude::*;
use crate::app_inventory::{has_pid, pids_unique};
use crate::node::{AppInfo, WindowFilter, WindowInfo};
use crate::text::{
    append_str, ascii_lower, has_substring, i64_to_string, int_decimal, occurs_at, owned, str_contains,
    str_eq, to_ascii_lowercase,
};

verus! {

/// What a listing reads of one entry of the window server's on-screen window
/// list; each field is absent where the entry does not carry it.
#[derive(Debug)]
pub struct WindowRecord {
    pub layer: Option<i64>,
    pub owner_pid: Option<i64>,
    pub owner_name: Option<String>,
    pub title: Option<String>,
    pub number: Option<i64>,
}

/// The entry lies in the normal window layer.
pub open spec fn in_window_layer(r: WindowRecord) -> bool {
    r.layer == Some(0i64)
}

/// The applications owning normal-layer windows, one per process, in the
/// order in which their first window appears, with the pids seen so far. A
/// process is counted as seen once its first window has been looked at, even
/// if that window names no owner.
pub open spec fn visible_fold(recs: Seq<WindowRecord>) -> (Seq<AppInfo>, Seq<i32>)
    decreases recs.len(),
{
    if recs.len() == 0 {
        (Seq::empty(), Seq::empty())
    } else {
        let (apps, seen) = visible_fold(recs.drop_last());
        let r = recs.last();
        if in_window_layer(r) && r.owner_pid is Some {
            let pid = r.owner_pid.unwrap() as i32;
            if pid > 0 && !seen.contains(pid) {
                if r.owner_name is Some && r.owner_name.unwrap()@.len() > 0 {
                    (apps.push(AppInfo { name: r.owner_name.unwrap(), pid, bundle_id: None }), seen.push(pid))
                } else {
                    (apps, seen.push(pid))
                }
            } else {
                (apps, seen)
            }
        } else {
            (apps, seen)
        }
    }
}

/// `pid` occurs in `seen`.
fn contains_pid(seen: &Vec<i32>, pid: i32) -> (r: bool)
    ensures
        r == seen@.contains(pid),
{
    let mut i: usize = 0;
    while i < seen.len()
        invariant
            i <= seen.len(),
            forall|k: int| 0 <= k < i ==> seen@[k] != pid,
        decreases seen.len() - i,
    {
        if seen[i] == pid {
            assert(seen@[i as int] == pid);
            return true;
        }
        i = i + 1;
    }
    false
}

/// The applications that own windows in the normal window layer, one per
/// process id, named by the window's owner.
pub fn visible_apps(records: &Vec<WindowRecord>) -> (r: Vec<AppInfo>)
    ensures
        r@ == visible_fold(records@).0,
{
    let mut apps: Vec<AppInfo> = Vec::new();
    let mut seen: Vec<i32> = Vec::new();
    let mut i: usize = 0;
    assert(records@.take(0) =~= Seq::<WindowRecord>::empty());
    while i < records.len()
        invariant
            i <= records.len(),
            (apps@, seen@) == visible_fold(records@.take(i as int)),
        decreases records.len() - i,
    {
        assert(records@.take(i + 1).drop_last() =~= records@.take(i as int));
        assert(records@.take(i + 1).last() == records@[i as int]);
        let rec = &records[i];
        if rec.layer == Some(0i64) {
            match rec.owner_pid {
                Some(p) => {
                    let pid = p as i32;
                    if pid > 0 && !contains_pid(&seen, pid) {
                        seen.push(pid);
                        match &rec.owner_name {
                            Some(n) => {
                                if !n.as_str().is_empty() {
                                    apps.push(AppInfo { name: n.clone(), pid, bundle_id: None });
                                }
                            },
                            None => {},
                        }
                    }
                },
                None => {},
            }
        }
        i = i + 1;
    }
    assert(records@.take(i as int) =~= records@);
    apps
}

/// The applications of a window list, one per positive process id, named
/// by the window's application, in the order of their first window.
pub open spec fn window_apps_fold(windows: Seq<WindowInfo>) -> (Seq<AppInfo>, Seq<i32>)
    decreases windows.len(),
{
    if windows.len() == 0 {
        (Seq::empty(), Seq::empty())
    } else {
        let (apps, seen) = window_apps_fold(windows.drop_last());
        let w = windows.last();
        if w.pid > 0 && !seen.contains(w.pid) {
            (apps.push(AppInfo { name: w.app, pid: w.pid, bundle_id: None }), seen.push(w.pid))
        } else {
            (apps, seen)
        }
    }
}

/// The applications that own `windows`, one per process.
pub fn apps_from_windows(windows: &Vec<WindowInfo>) -> (r: Vec<AppInfo>)
    ensures
        r@ == window_apps_fold(windows@).0,
{
    let mut apps: Vec<AppInfo> = Vec::new();
    let mut seen: Vec<i32> = Vec::new();
    let mut i: usize = 0;
    assert(windows@.take(0) =~= Seq::<WindowInfo>::empty());
    while i < windows.len()
        invariant
            i <= windows.len(),
            (apps@, seen@) == window_apps_fold(windows@.take(i as int)),
        decreases windows.len() - i,
    {
        assert(windows@.take(i + 1).drop_last() =~= windows@.take(i as int));
        assert(windows@.take(i + 1).last() == windows@[i as int]);
        let pid = windows[i].pid;
        if pid > 0 && !contains_pid(&seen, pid) {
            seen.push(pid);
            apps.push(AppInfo { name: windows[i].app.clone(), pid, bundle_id: None });
        }
        i = i + 1;
    }
    assert(windows@.take(i as int) =~= windows@);
    apps
}

/// The applications taken from the window server's list name each process
/// once, and only positive ones.
pub proof fn lemma_visible_apps_unique(recs: Seq<WindowRecord>)
    ensures
        pids_unique(visible_fold(recs).0),
        forall|i: int| 0 <= i < visible_fold(recs).0.len() ==> (#[trigger] visible_fold(recs).0[i]).pid > 0
            && visible_fold(recs).1.contains(visible_fold(recs).0[i].pid),
    decreases recs.len(),
{
    if recs.len() > 0 {
        lemma_visible_apps_unique(recs.drop_last());
        let (apps, seen) = visible_fold(recs.drop_last());
        let (apps2, seen2) = visible_fold(recs);
        assert forall|i: int| 0 <= i < apps.len() implies seen2.contains(#[trigger] apps[i].pid) by {
            assert(seen.contains(apps[i].pid));
            let w = choose|k: int| 0 <= k < seen.len() && seen[k] == apps[i].pid;
            if seen2 != seen {
                assert(seen2[w] == apps[i].pid);
            }
        }
        if apps2.len() > apps.len() {
            let pid = apps2.last().pid;
            assert(seen2.last() == pid);
            assert(seen2.contains(pid));
            assert forall|i: int| 0 <= i < apps.len() implies apps[i].pid != pid by {
                assert(seen.contains(apps[i].pid));
            }
        }
    }
}

/// The applications taken from a window list name each process once, and
/// every window of a positive process has its application listed.
pub proof fn lemma_window_apps_unique(windows: Seq<WindowInfo>)
    ensures
        pids_unique(window_apps_fold(windows).0),
        window_apps_fold(windows).1 == window_apps_fold(windows).0.map_values(|a: AppInfo| a.pid),
        forall|k: int| 0 <= k < windows.len() && (#[trigger] windows[k]).pid > 0 ==> has_pid(
            window_apps_fold(windows).0,
            windows[k].pid,
        ),
    decreases windows.len(),
{
    if windows.len() > 0 {
        let prev = windows.drop_last();
        lemma_window_apps_unique(prev);
        let (apps, seen) = window_apps_fold(prev);
        let (apps2, seen2) = window_apps_fold(windows);
        let w = windows.last();
        if w.pid > 0 && !seen.contains(w.pid) {
            assert(seen2 =~= apps2.map_values(|a: AppInfo| a.pid));
            assert forall|i: int| 0 <= i < apps.len() implies apps[i].pid != w.pid by {
                assert(seen[i] == apps[i].pid);
            }
            assert(apps2[apps.len() as int].pid == w.pid);
        } else if w.pid > 0 {
            let j = choose|j: int| 0 <= j < seen.len() && seen[j] == w.pid;
            assert(apps[j].pid == w.pid);
        }
        assert forall|k: int| 0 <= k < windows.len() && (#[trigger] windows[k]).pid > 0 implies has_pid(
            apps2,
            windows[k].pid,
        ) by {
            if k < windows.len() - 1 {
                assert(prev[k] == windows[k]);
                let i = choose|i: int| 0 <= i < apps.len() && apps[i].pid == windows[k].pid;
                assert(apps2[i].pid == windows[k].pid);
            } else if !(w.pid > 0 && !seen.contains(w.pid)) {
                let j = choose|j: int| 0 <= j < seen.len() && seen[j] == w.pid;
                assert(apps[j].pid == w.pid);
            }
        }
    }
}

/// A window's application passes the filter: the filter (already
/// lowercase) is empty or occurs in the lowercase application name.
pub open spec fn passes_app_filter(app_name: Seq<char>, app_filter: Seq<char>) -> bool {
    app_filter.len() == 0 || has_substring(ascii_lower(app_name), app_filter)
}

/// An application filter matches anywhere in the name: a non-empty filter
/// passes a name exactly when it occurs, at any position, in the name's
/// ASCII lowercase form (so `chrome` passes `Google Chrome`); the empty
/// filter passes every name.
pub proof fn lemma_app_filter_matches_anywhere(app_name: Seq<char>, app_filter: Seq<char>)
    ensures
        passes_app_filter(app_name, app_filter) <==> (app_filter.len() == 0 || exists|i: int|
            0 <= i && i + app_filter.len() <= app_name.len() && #[trigger] ascii_lower(app_name).subrange(
                i,
                i + app_filter.len(),
            ) == app_filter),
{
    let lower = ascii_lower(app_name);
    if app_filter.len() > 0 {
        if has_substring(lower, app_filter) {
            let i = choose|i: int| occurs_at(lower, app_filter, i);
            assert(lower.subrange(i, i + app_filter.len()) == app_filter);
        }
        if exists|i: int|
            0 <= i && i + app_filter.len() <= app_name.len() && #[trigger] lower.subrange(i, i + app_filter.len())
                == app_filter {
            let i = choose|i: int|
                0 <= i && i + app_filter.len() <= app_name.len() && #[trigger] lower.subrange(
                    i,
                    i + app_filter.len(),
                ) == app_filter;
            assert(occurs_at(lower, app_filter, i));
        }
    }
}

/// Whether an application name passes a lowercase application filter.
pub fn matches_app_filter(app_name: &str, app_filter: &str) -> (r: bool)
    ensures
        r == passes_app_filter(app_name@, app_filter@),
{
    if app_filter.is_empty() {
        return true;
    }
    let lower = to_ascii_lowercase(app_name);
    str_contains(lower.as_str(), app_filter)
}

/// Whether an empty listing should be tried again: always without an
/// application filter, and with one only when that application is running.
pub fn should_retry_empty(filter: &WindowFilter, app_pid: Option<i32>) -> (r: bool)
    ensures
        r == (filter.app is None || app_pid is Some),
{
    filter.app.is_none() || app_pid.is_some()
}

/// A window the listing considers: its application, title, process and
/// window-server number.
#[derive(Debug)]
pub struct WindowCandidate {
    pub app: String,
    pub title: String,
    pub pid: i32,
    pub number: i64,
}

/// The lowercase application filter of a window filter (empty without one).
pub open spec fn lowered_app_filter(filter: WindowFilter) -> Seq<char> {
    match filter.app {
        Some(a) => ascii_lower(a@),
        None => Seq::empty(),
    }
}

/// The entry is a normal-layer window of a named application that passes
/// the filter.
pub open spec fn record_is_candidate(r: WindowRecord, app_filter: Seq<char>) -> bool {
    &&& in_window_layer(r)
    &&& r.owner_name is Some
    &&& r.owner_name.unwrap()@.len() > 0
    &&& passes_app_filter(r.owner_name.unwrap()@, app_filter)
}

/// The entries that are candidates, in order.
pub open spec fn candidate_records(recs: Seq<WindowRecord>, app_filter: Seq<char>) -> Seq<WindowRecord>
    decreases recs.len(),
{
    if recs.len() == 0 {
        Seq::empty()
    } else {
        let rest = candidate_records(recs.drop_last(), app_filter);
        if record_is_candidate(recs.last(), app_filter) {
            rest.push(recs.last())
        } else {
            rest
        }
    }
}

/// Which window-server entries a listing considers: exactly the entries in
/// the normal layer (layer 0) whose owner is named, non-empty, and contains
/// the lowercase filter at some position (with an empty filter, every such
/// entry).
pub proof fn lemma_candidates_are_named_normal_windows(recs: Seq<WindowRecord>, app_filter: Seq<char>, r: WindowRecord)
    ensures
        candidate_records(recs, app_filter).contains(r) <==> (recs.contains(r) && r.layer == Some(0i64)
            && (r.owner_name matches Some(n) && n@.len() > 0 && (app_filter.len() == 0 || has_substring(
            ascii_lower(n@),
            app_filter,
        )))),
    decreases recs.len(),
{
    if recs.len() > 0 {
        let init = recs.drop_last();
        lemma_candidates_are_named_normal_windows(init, app_filter, r);
        assert(recs =~= init.push(recs.last()));
        assert(recs.contains(r) <==> (init.contains(r) || r == recs.last())) by {
            if recs.contains(r) {
                let k = choose|k: int| 0 <= k < recs.len() && recs[k] == r;
                if k < recs.len() - 1 {
                    assert(init[k] == r);
                }
            }
            if init.contains(r) {
                let k = choose|k: int| 0 <= k < init.len() && init[k] == r;
                assert(recs[k] == r);
            }
        }
        let rest = candidate_records(init, app_filter);
        if record_is_candidate(recs.last(), app_filter) {
            assert(rest.push(recs.last()).contains(r) <==> (rest.contains(r) || r == recs.last())) by {
                let pushed = rest.push(recs.last());
                if pushed.contains(r) {
                    let k = choose|k: int| 0 <= k < pushed.len() && pushed[k] == r;
                    if k < rest.len() {
                        assert(rest[k] == r);
                    }
                }
                if rest.contains(r) {
                    let k = choose|k: int| 0 <= k < rest.len() && rest[k] == r;
                    assert(pushed[k] == r);
                }
                assert(pushed[rest.len() as int] == recs.last());
            }
        }
    }
}

/// The title a window is listed under: its own if non-empty, else its
/// application's name.
pub open spec fn record_title(r: WindowRecord) -> Seq<char> {
    if r.title is Some && r.title.unwrap()@.len() > 0 {
        r.title.unwrap()@
    } else {
        r.owner_name.unwrap()@
    }
}

/// `c` is the candidate made of entry `r`; a missing pid or number counts as 0.
pub open spec fn candidate_of(c: WindowCandidate, r: WindowRecord) -> bool {
    &&& c.app@ == r.owner_name.unwrap()@
    &&& c.title@ == record_title(r)
    &&& c.pid == (match r.owner_pid {
        Some(p) => p as i32,
        None => 0i32,
    })
    &&& c.number == (match r.number {
        Some(n) => n,
        None => 0i64,
    })
}

/// The windows a listing considers: normal-layer windows of named
/// applications that pass the filter's application name (a case-insensitive
/// substring), in the window server's order.
pub fn window_candidates(records: &Vec<WindowRecord>, filter: &WindowFilter) -> (r: Vec<WindowCandidate>)
    ensures
        r@.len() == candidate_records(records@, lowered_app_filter(*filter)).len(),
        forall|i: int| 0 <= i < r@.len() ==> candidate_of(
            #[trigger] r@[i],
            candidate_records(records@, lowered_app_filter(*filter))[i],
        ),
{
    let app_filter = match &filter.app {
        Some(a) => to_ascii_lowercase(a.as_str()),
        None => String::new(),
    };
    let ghost f = lowered_app_filter(*filter);
    assert(app_filter@ == f);
    let mut out: Vec<WindowCandidate> = Vec::new();
    let mut i: usize = 0;
    assert(records@.take(0) =~= Seq::<WindowRecord>::empty());
    while i < records.len()
        invariant
            i <= records.len(),
            app_filter@ == f,
            out@.len() == candidate_records(records@.take(i as int), f).len(),
            forall|k: int| 0 <= k < out@.len() ==> candidate_of(
                #[trigger] out@[k],
                candidate_records(records@.take(i as int), f)[k],
            ),
        decreases records.len() - i,
    {
        assert(records@.take(i + 1).drop_last() =~= records@.take(i as int));
        assert(records@.take(i + 1).last() == records@[i as int]);
        let rec = &records[i];
        if rec.layer == Some(0i64) {
            match &rec.owner_name {
                Some(name) => {
                    if !name.as_str().is_empty() && matches_app_filter(name.as_str(), app_filter.as_str()) {
                        let title = match &rec.title {
                            Some(t) => if t.as_str().is_empty() {
                                name.clone()
                            } else {
                                t.clone()
                            },
                            None => name.clone(),
                        };
                        let pid: i32 = match rec.owner_pid {
                            Some(p) => p as i32,
                            None => 0,
                        };
                        let number: i64 = match rec.number {
                            Some(n) => n,
                            None => 0,
                        };
                        out.push(WindowCandidate { app: name.clone(), title, pid, number });
                    }
                },
                None => {},
            }
        }
        i = i + 1;
    }
    assert(records@.take(i as int) =~= records@);
    out
}

/// What the accessibility API reports of an application's focused window:
/// its title and window number, each where reported.
#[derive(Debug)]
pub struct FocusedWindowIdentity {
    pub title: Option<String>,
    pub number: Option<i64>,
}

/// The focused-window identity of one process; `None` when the process is
/// not frontmost or has no focused window.
#[derive(Debug)]
pub struct PidFocus {
    pub pid: i32,
    pub identity: Option<FocusedWindowIdentity>,
}

/// A window matches a process's focused window: by window number where the
/// focused window reports one, else by a title that no other window of the
/// process shares.
pub open spec fn focus_matches(
    title: Seq<char>,
    number: i64,
    identity: Option<FocusedWindowIdentity>,
    same_title_count: int,
) -> bool {
    match identity {
        None => false,
        Some(id) => match id.number {
            Some(n) => n == number,
            None => (id.title matches Some(t) && t@ == title) && same_title_count == 1,
        },
    }
}

/// Whether a window is its process's focused window.
pub fn matches_focused_window(
    title: &str,
    window_number: i64,
    identity: &Option<FocusedWindowIdentity>,
    same_title_count: usize,
) -> (r: bool)
    ensures
        r == focus_matches(title@, window_number, *identity, same_title_count as int),
{
    match identity {
        None => false,
        Some(id) => match id.number {
            Some(n) => n == window_number,
            None => {
                let same = match &id.title {
                    Some(t) => str_eq(t.as_str(), title),
                    None => false,
                };
                same && same_title_count == 1
            },
        },
    }
}

/// The identity listed for `pid` (the first entry for it), `None` if none is.
pub open spec fn identity_for(focus: Seq<PidFocus>, pid: i32) -> Option<FocusedWindowIdentity>
    decreases focus.len(),
{
    if focus.len() == 0 {
        None
    } else if focus[0].pid == pid {
        focus[0].identity
    } else {
        identity_for(focus.drop_first(), pid)
    }
}

/// How many candidates belong to `pid` and carry `title`.
pub open spec fn title_count(cands: Seq<WindowCandidate>, pid: i32, title: Seq<char>) -> nat
    decreases cands.len(),
{
    if cands.len() == 0 {
        0
    } else {
        title_count(cands.drop_last(), pid, title) + if cands.last().pid == pid && cands.last().title@
            == title {
            1nat
        } else {
            0nat
        }
    }
}

/// Candidate `i` matches its process's focused window.
pub open spec fn candidate_focused(cands: Seq<WindowCandidate>, focus: Seq<PidFocus>, i: int) -> bool {
    focus_matches(
        cands[i].title@,
        cands[i].number,
        identity_for(focus, cands[i].pid),
        title_count(cands, cands[i].pid, cands[i].title@) as int,
    )
}

/// Candidate `i` is the window reported as focused: the first that matches.
pub open spec fn first_focused(cands: Seq<WindowCandidate>, focus: Seq<PidFocus>, i: int) -> bool {
    candidate_focused(cands, focus, i) && forall|j: int| 0 <= j < i ==> !candidate_focused(cands, focus, j)
}

/// At most one listed window is reported as focused.
pub proof fn lemma_single_focused(cands: Seq<WindowCandidate>, focus: Seq<PidFocus>, i: int, j: int)
    requires
        0 <= i < cands.len(),
        0 <= j < cands.len(),
        first_focused(cands, focus, i),
        first_focused(cands, focus, j),
    ensures
        i == j,
{
}

/// `w` is the listed window of candidate `c`, focused or not.
pub open spec fn window_of(w: WindowInfo, c: WindowCandidate, focused: bool) -> bool {
    &&& w.id@ == "w-"@ + int_decimal(c.number as int)
    &&& w.title@ == c.title@
    &&& w.app@ == c.app@
    &&& w.pid == c.pid
    &&& w.is_focused == focused
}

/// The identity `focus` lists for `pid`.
fn identity_lookup(focus: &Vec<PidFocus>, pid: i32) -> (r: &Option<FocusedWindowIdentity>)
    ensures
        *r == identity_for(focus@, pid),
{
    let mut i: usize = 0;
    assert(focus@.skip(0) =~= focus@);
    while i < focus.len()
        invariant
            i <= focus.len(),
            identity_for(focus@, pid) == identity_for(focus@.skip(i as int), pid),
        decreases focus.len() - i,
    {
        assert(focus@.skip(i as int).drop_first() =~= focus@.skip(i + 1));
        assert(focus@.skip(i as int)[0] == focus@[i as int]);
        if focus[i].pid == pid {
            return &focus[i].identity;
        }
        i = i + 1;
    }
    &None
}

/// How many of `cands` belong to `pid` and carry `title`.
fn count_title(cands: &Vec<WindowCandidate>, pid: i32, title: &str) -> (r: usize)
    ensures
        r == title_count(cands@, pid, title@),
{
    let mut n: usize = 0;
    let mut i: usize = 0;
    assert(cands@.take(0) =~= Seq::<WindowCandidate>::empty());
    while i < cands.len()
        invariant
            i <= cands.len(),
            n == title_count(cands@.take(i as int), pid, title@),
            n <= i,
        decreases cands.len() - i,
    {
        assert(cands@.take(i + 1).drop_last() =~= cands@.take(i as int));
        assert(cands@.take(i + 1).last() == cands@[i as int]);
        if cands[i].pid == pid && str_eq(cands[i].title.as_str(), title) {
            n = n + 1;
        }
        i = i + 1;
    }
    assert(cands@.take(i as int) =~= cands@);
    n
}

/// The listed windows of `candidates`, given each process's focused-window
/// identity (`focus`; a process it does not list has none). Exactly the
/// first candidate that matches its process's focused window is reported as
/// focused. With `focused_only`, only that window is listed.
pub fn windows_from_candidates(
    candidates: &Vec<WindowCandidate>,
    focus: &Vec<PidFocus>,
    focused_only: bool,
) -> (r: Vec<WindowInfo>)
    ensures
        !focused_only ==> r@.len() == candidates@.len() && forall|i: int| 0 <= i < r@.len() ==> window_of(
            #[trigger] r@[i],
            candidates@[i],
            first_focused(candidates@, focus@, i),
        ),
        focused_only ==> (if exists|i: int| 0 <= i < candidates@.len() && candidate_focused(candidates@, focus@, i) {
            r@.len() == 1 && exists|i: int| 0 <= i < candidates@.len() && first_focused(candidates@, focus@, i)
                && window_of(r@[0], candidates@[i], true)
        } else {
            r@.len() == 0
        }),
{
    let mut windows: Vec<WindowInfo> = Vec::new();
    let mut focused_seen = false;
    let mut i: usize = 0;
    let ghost cands = candidates@;
    let ghost mut focused_at: int = -1;
    while i < candidates.len()
        invariant
            i <= candidates.len(),
            cands == candidates@,
            focused_seen == exists|j: int| 0 <= j < i && candidate_focused(cands, focus@, j),
            focused_seen ==> 0 <= focused_at < i && first_focused(cands, focus@, focused_at),
            !focused_only ==> windows@.len() == i && forall|k: int| 0 <= k < i ==> window_of(
                #[trigger] windows@[k],
                cands[k],
                first_focused(cands, focus@, k),
            ),
            focused_only ==> (if focused_seen {
                windows@.len() == 1 && window_of(windows@[0], cands[focused_at], true)
            } else {
                windows@.len() == 0
            }),
        decreases candidates.len() - i,
    {
        let c = &candidates[i];
        let count = count_title(candidates, c.pid, c.title.as_str());
        let identity = identity_lookup(focus, c.pid);
        let matched = matches_focused_window(c.title.as_str(), c.number, identity, count);
        assert(matched == candidate_focused(cands, focus@, i as int));
        let is_focused = !focused_seen && matched;
        assert(is_focused == first_focused(cands, focus@, i as int));
        if !(focused_only && !is_focused) {
            let mut id = owned("w-");
            let digits = i64_to_string(c.number);
            append_str(&mut id, digits.as_str());
            windows.push(
                WindowInfo {
                    id,
                    title: c.title.clone(),
                    app: c.app.clone(),
                    pid: c.pid,
                    is_focused,
                },
            );
        }
        if is_focused {
            proof {
                focused_at = i as int;
            }
        }
        focused_seen = focused_seen || is_focused;
        i = i + 1;
    }
    windows
}

/// Where the accessibility fallback looks for a window when the window
/// server lists none: the filtered application and its process, when both
/// are known.
pub fn ax_fallback_target(filter: &WindowFilter, app_pid: Option<i32>) -> (r: Option<(String, i32)>)
    ensures
        match r {
            Some((name, pid)) => filter.app matches Some(a) && name@ == a@ && app_pid == Some(pid),
            None => filter.app is None || app_pid is None,
        },
{
    match &filter.app {
        Some(a) => match app_pid {
            Some(pid) => Some((a.clone(), pid)),
            None => None,
        },
        None => None,
    }
}

/// The window the accessibility API reports for an application: present
/// only if the element it found is a window. The title defaults to the
/// application's name, the window number to 0, and the window counts as
/// focused when the application is frontmost.
pub fn ax_window_info(
    app_name: &str,
    pid: i32,
    role: Option<&str>,
    title: Option<&str>,
    number: Option<i64>,
    frontmost: Option<bool>,
) -> (r: Option<WindowInfo>)
    ensures
        match r {
            Some(w) => (role matches Some(ro) && ro@ == "AXWindow"@) && w.id@ == "w-"@ + int_decimal(
                (match number {
                    Some(n) => n,
                    None => 0i64,
                }) as int,
            ) && w.title@ == (match title {
                Some(t) => t@,
                None => app_name@,
            }) && w.app@ == app_name@ && w.pid == pid && w.is_focused == (frontmost == Some(true)),
            None => !(role matches Some(ro) && ro@ == "AXWindow"@),
        },
{
    let is_window = match role {
        Some(ro) => str_eq(ro, "AXWindow"),
        None => false,
    };
    if !is_window {
        return None;
    }
    let n: i64 = match number {
        Some(n) => n,
        None => 0,
    };
    let mut id = owned("w-");
    let digits = i64_to_string(n);
    append_str(&mut id, digits.as_str());
    let t = match title {
        Some(t) => owned(t),
        None => owned(app_name),
    };
    let is_focused = match frontmost {
        Some(f) => f,
        None => false,
    };
    Some(WindowInfo { id, title: t, app: owned(app_name), pid, is_focused })
}

/// Keeps the accessibility fallback's window unless only a focused window
/// is wanted and it is not focused.
pub fn accept_ax_window(filter: &WindowFilter, window: Option<WindowInfo>) -> (r: Option<WindowInfo>)
    ensures
        match window {
            Some(w) => if !filter.focused_only || w.is_focused {
                r == Some(w)
            } else {
                r is None
            },
            None => r is None,
        },
{
    match window {
        Some(w) => if !filter.focused_only || w.is_focused {
            Some(w)
        } else {
            None
        },
        None => None,
    }
}

/// How many times a window listing is attempted before it reports nothing.
pub const LISTING_ATTEMPTS: u32 = 3;

/// What a listing does after one attempt.
#[derive(Debug)]
pub enum ListingStep {
    /// The listing is finished with these windows.
    Done(Vec<WindowInfo>),
    /// Nothing was found yet; wait briefly and try again.
    Retry,
}

/// The decision after attempt number `attempt` (counted from 0): the window
/// server's windows if there are any, else the accessibility fallback's
/// window; when neither found one, another attempt if attempts remain and a
/// retry is worthwhile, else an empty listing.
pub fn listing_step(attempt: u32, visible: Vec<WindowInfo>, fallback: Option<WindowInfo>, retry_worthwhile: bool) -> (r: ListingStep)
    ensures
        visible@.len() > 0 ==> r == ListingStep::Done(visible),
        visible@.len() == 0 && fallback is Some ==> (r matches ListingStep::Done(v) && v@ == seq![
            fallback.unwrap(),
        ]),
        visible@.len() == 0 && fallback is None ==> if attempt + 1 >= LISTING_ATTEMPTS || !retry_worthwhile {
            (r matches ListingStep::Done(v) && v@.len() == 0)
        } else {
            r is Retry
        },
{
    if visible.len() > 0 {
        return ListingStep::Done(visible);
    }
    match fallback {
        Some(w) => {
            let v = vec![w];
            ListingStep::Done(v)
        },
        None => if attempt >= LISTING_ATTEMPTS - 1 || !retry_worthwhile {
            ListingStep::Done(Vec::new())
        } else {
            ListingStep::Retry
        },
    }
}

} // verus!
