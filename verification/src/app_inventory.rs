//! The list of running applications: several sources merged by process id,
//! sorted by name, and searched by name.
use vstd::prelude::*;
use vstd::seq_lib::{to_multiset_build, to_multiset_insert};
use crate::node::AppInfo;
use crate::roles::{lemma_lex_lt_irreflexive, lemma_lex_lt_transitive, lex_compare, lex_lt};
use crate::text::{
    ascii_lower, chars_of, eq_ignore_ascii_case, eq_ignore_case, has_substring, str_contains,
    to_ascii_lowercase,
};

verus! {

/// Some application of `apps` runs as process `pid`.
pub open spec fn has_pid(apps: Seq<AppInfo>, pid: i32) -> bool {
    exists|i: int| 0 <= i < apps.len() && apps[i].pid == pid
}

/// The position of the first application of `apps` that runs as `pid`.
pub open spec fn first_pid_index(apps: Seq<AppInfo>, pid: i32) -> int
    decreases apps.len(),
{
    if apps.len() == 0 || apps[0].pid == pid {
        0
    } else {
        1 + first_pid_index(apps.drop_first(), pid)
    }
}

/// The first application with `pid` sits at `idx` when `idx` holds it and
/// no earlier one does.
proof fn lemma_first_pid_index_at(apps: Seq<AppInfo>, pid: i32, idx: int)
    requires
        0 <= idx < apps.len(),
        apps[idx].pid == pid,
        forall|j: int| 0 <= j < idx ==> apps[j].pid != pid,
    ensures
        first_pid_index(apps, pid) == idx,
    decreases idx,
{
    if idx > 0 {
        assert forall|j: int| 0 <= j < idx - 1 implies apps.drop_first()[j].pid != pid by {
            assert(apps[j + 1].pid != pid);
        }
        lemma_first_pid_index_at(apps.drop_first(), pid, idx - 1);
    }
}

/// One incoming application merged into `apps`: a new process is appended;
/// for a known process, the first entry for it takes the incoming bundle id
/// if it has none of its own.
pub open spec fn merge_one(apps: Seq<AppInfo>, incoming: AppInfo) -> Seq<AppInfo> {
    if !has_pid(apps, incoming.pid) {
        apps.push(incoming)
    } else {
        let i = first_pid_index(apps, incoming.pid);
        if apps[i].bundle_id is None {
            apps.update(i, AppInfo { name: apps[i].name, pid: apps[i].pid, bundle_id: incoming.bundle_id })
        } else {
            apps
        }
    }
}

/// All of `incoming`, in order, merged into `apps`.
pub open spec fn merge_all(apps: Seq<AppInfo>, incoming: Seq<AppInfo>) -> Seq<AppInfo>
    decreases incoming.len(),
{
    if incoming.len() == 0 {
        apps
    } else {
        merge_one(merge_all(apps, incoming.drop_last()), incoming.last())
    }
}

/// Merges `incoming` into `apps` by process id: an application whose process
/// is not listed yet is appended; one whose process is listed fills in the
/// bundle id of the first entry for that process where it lacks one.
pub fn merge_apps(apps: &mut Vec<AppInfo>, incoming: Vec<AppInfo>)
    ensures
        final(apps)@ == merge_all(old(apps)@, incoming@),
{
    let mut k: usize = 0;
    assert(incoming@.take(0) =~= Seq::<AppInfo>::empty());
    while k < incoming.len()
        invariant
            k <= incoming.len(),
            apps@ == merge_all(old(apps)@, incoming@.take(k as int)),
        decreases incoming.len() - k,
    {
        assert(incoming@.take(k + 1).drop_last() =~= incoming@.take(k as int));
        assert(incoming@.take(k + 1).last() == incoming@[k as int]);
        let pid = incoming[k].pid;
        let mut idx: usize = 0;
        while idx < apps.len() && apps[idx].pid != pid
            invariant
                idx <= apps.len(),
                forall|j: int| 0 <= j < idx ==> apps@[j].pid != pid,
            decreases apps.len() - idx,
        {
            idx = idx + 1;
        }
        if idx == apps.len() {
            let app = incoming[k].clone();
            apps.push(app);
        } else {
            proof {
                assert(has_pid(apps@, pid));
                lemma_first_pid_index_at(apps@, pid, idx as int);
            }
            if apps[idx].bundle_id.is_none() {
                let bundle = match &incoming[k].bundle_id {
                    Some(b) => Some(b.clone()),
                    None => None,
                };
                let updated = AppInfo { name: apps[idx].name.clone(), pid: apps[idx].pid, bundle_id: bundle };
                apps.set(idx, updated);
            }
        }
        k = k + 1;
    }
    assert(incoming@.take(k as int) =~= incoming@);
}

/// The applications of both primary sources, the workspace's first, merged
/// by process id.
pub fn merge_primary_sources(workspace: Vec<AppInfo>, visible: Vec<AppInfo>) -> (r: Vec<AppInfo>)
    ensures
        r@ == merge_all(workspace@, visible@),
{
    let mut apps = workspace;
    merge_apps(&mut apps, visible);
    apps
}

/// No two applications of `apps` share a process id.
pub open spec fn pids_unique(apps: Seq<AppInfo>) -> bool {
    forall|i: int, j: int| 0 <= i < j < apps.len() ==> apps[i].pid != apps[j].pid
}

proof fn lemma_first_pid_index(apps: Seq<AppInfo>, pid: i32)
    requires
        has_pid(apps, pid),
    ensures
        0 <= first_pid_index(apps, pid) < apps.len(),
        apps[first_pid_index(apps, pid)].pid == pid,
    decreases apps.len(),
{
    if apps[0].pid != pid {
        let w = choose|i: int| 0 <= i < apps.len() && apps[i].pid == pid;
        assert(apps.drop_first()[w - 1].pid == pid);
        lemma_first_pid_index(apps.drop_first(), pid);
    }
}

/// Merging one application keeps the process ids unique and lists its
/// process, along with every process listed before.
proof fn lemma_merge_one_keeps_pids(apps: Seq<AppInfo>, incoming: AppInfo)
    requires
        pids_unique(apps),
    ensures
        pids_unique(merge_one(apps, incoming)),
        has_pid(merge_one(apps, incoming), incoming.pid),
        forall|p: i32| has_pid(apps, p) ==> has_pid(merge_one(apps, incoming), p),
{
    let m = merge_one(apps, incoming);
    if !has_pid(apps, incoming.pid) {
        assert(m[apps.len() as int].pid == incoming.pid);
        assert forall|p: i32| has_pid(apps, p) implies has_pid(m, p) by {
            let w = choose|i: int| 0 <= i < apps.len() && apps[i].pid == p;
            assert(m[w].pid == p);
        }
    } else {
        lemma_first_pid_index(apps, incoming.pid);
        let i = first_pid_index(apps, incoming.pid);
        assert forall|k: int| 0 <= k < m.len() implies m[k].pid == apps[k].pid by {}
        assert(m[i].pid == incoming.pid);
        assert forall|p: i32| has_pid(apps, p) implies has_pid(m, p) by {
            let w = choose|j: int| 0 <= j < apps.len() && apps[j].pid == p;
            assert(m[w].pid == p);
        }
    }
}

/// Merging never lists a process twice when the list did not, lists every
/// incoming process, and keeps every process listed before.
pub proof fn lemma_merge_keeps_pids_unique(apps: Seq<AppInfo>, incoming: Seq<AppInfo>)
    requires
        pids_unique(apps),
    ensures
        pids_unique(merge_all(apps, incoming)),
        forall|k: int| 0 <= k < incoming.len() ==> has_pid(merge_all(apps, incoming), #[trigger] incoming[k].pid),
        forall|p: i32| has_pid(apps, p) ==> has_pid(merge_all(apps, incoming), p),
    decreases incoming.len(),
{
    if incoming.len() > 0 {
        let prev = merge_all(apps, incoming.drop_last());
        lemma_merge_keeps_pids_unique(apps, incoming.drop_last());
        lemma_merge_one_keeps_pids(prev, incoming.last());
        assert forall|k: int| 0 <= k < incoming.len() implies has_pid(
            merge_all(apps, incoming),
            #[trigger] incoming[k].pid,
        ) by {
            if k < incoming.len() - 1 {
                assert(incoming.drop_last()[k] == incoming[k]);
                assert(has_pid(prev, incoming[k].pid));
            }
        }
    }
}

/// `a` sorts before `b`: by name ignoring ASCII case, then by process id.
pub open spec fn app_before(a: AppInfo, b: AppInfo) -> bool {
    ||| lex_lt(ascii_lower(a.name@), ascii_lower(b.name@))
    ||| (ascii_lower(a.name@) == ascii_lower(b.name@) && a.pid < b.pid)
}

/// No application of `s` sorts before one that precedes it.
pub open spec fn apps_sorted(s: Seq<AppInfo>) -> bool {
    forall|i: int, j: int| 0 <= i < j < s.len() ==> !app_before(#[trigger] s[j], #[trigger] s[i])
}

/// The order of applications is transitive.
pub proof fn lemma_app_before_transitive(a: AppInfo, b: AppInfo, c: AppInfo)
    requires
        app_before(a, b),
        app_before(b, c),
    ensures
        app_before(a, c),
{
    let (x, y, z) = (ascii_lower(a.name@), ascii_lower(b.name@), ascii_lower(c.name@));
    if lex_lt(x, y) && lex_lt(y, z) {
        lemma_lex_lt_transitive(x, y, z);
    }
}

/// `a` sorts before `b`, decided by comparing lowercase names, then pids.
fn app_precedes(a: &AppInfo, b: &AppInfo) -> (r: bool)
    ensures
        r == app_before(*a, *b),
{
    let la = to_ascii_lowercase(a.name.as_str());
    let lb = to_ascii_lowercase(b.name.as_str());
    let ca = chars_of(la.as_str());
    let cb = chars_of(lb.as_str());
    let c = lex_compare(&ca, &cb);
    if c < 0 {
        true
    } else if c == 0 {
        a.pid < b.pid
    } else {
        proof {
            lemma_lex_lt_irreflexive(ascii_lower(a.name@));
            if lex_lt(ascii_lower(a.name@), ascii_lower(b.name@)) {
                lemma_lex_lt_transitive(ascii_lower(a.name@), ascii_lower(b.name@), ascii_lower(a.name@));
            }
        }
        false
    }
}

/// Where `x` goes among the already ordered `sorted`: before the first
/// application it sorts before, so after every one it does not.
pub open spec fn insert_position(sorted: Seq<AppInfo>, x: AppInfo) -> int
    decreases sorted.len(),
{
    if sorted.len() == 0 || app_before(x, sorted[0]) {
        0
    } else {
        1 + insert_position(sorted.drop_first(), x)
    }
}

/// `apps` in order by name ignoring ASCII case, then by process id;
/// applications with the same key keep their relative order (a stable
/// sort, built by inserting each application in turn).
pub open spec fn sorted_apps(apps: Seq<AppInfo>) -> Seq<AppInfo>
    decreases apps.len(),
{
    if apps.len() == 0 {
        Seq::empty()
    } else {
        let prev = sorted_apps(apps.drop_last());
        prev.insert(insert_position(prev, apps.last()), apps.last())
    }
}

proof fn lemma_insert_position_bounds(sorted: Seq<AppInfo>, x: AppInfo)
    ensures
        0 <= insert_position(sorted, x) <= sorted.len(),
        forall|i: int| 0 <= i < insert_position(sorted, x) ==> !app_before(x, #[trigger] sorted[i]),
        insert_position(sorted, x) < sorted.len() ==> app_before(x, sorted[insert_position(sorted, x)]),
    decreases sorted.len(),
{
    if sorted.len() > 0 && !app_before(x, sorted[0]) {
        let rest = sorted.drop_first();
        lemma_insert_position_bounds(rest, x);
        assert forall|i: int| 0 <= i < insert_position(sorted, x) implies !app_before(x, #[trigger] sorted[i]) by {
            if i > 0 {
                assert(sorted[i] == rest[i - 1]);
            }
        }
        if insert_position(sorted, x) < sorted.len() {
            assert(sorted[insert_position(sorted, x)] == rest[insert_position(rest, x)]);
        }
    }
}

proof fn lemma_insert_position_at(sorted: Seq<AppInfo>, x: AppInfo, p: int)
    requires
        0 <= p <= sorted.len(),
        forall|i: int| 0 <= i < p ==> !app_before(x, #[trigger] sorted[i]),
        p < sorted.len() ==> app_before(x, sorted[p]),
    ensures
        insert_position(sorted, x) == p,
    decreases p,
{
    if p > 0 {
        assert(!app_before(x, sorted[0]));
        let rest = sorted.drop_first();
        assert forall|i: int| 0 <= i < p - 1 implies !app_before(x, #[trigger] rest[i]) by {
            assert(rest[i] == sorted[i + 1]);
        }
        if p < sorted.len() {
            assert(rest[p - 1] == sorted[p]);
        }
        lemma_insert_position_at(rest, x, p - 1);
    }
}

/// Inserting an application at its position keeps a list ordered.
proof fn lemma_insert_keeps_sorted(before: Seq<AppInfo>, x: AppInfo)
    requires
        apps_sorted(before),
    ensures
        apps_sorted(before.insert(insert_position(before, x), x)),
{
    lemma_insert_position_bounds(before, x);
    let p = insert_position(before, x);
    let out = before.insert(p, x);
    before.insert_ensures(p, x);
    assert forall|i: int, j: int| 0 <= i < j < out.len() implies !app_before(
        #[trigger] out[j],
        #[trigger] out[i],
    ) by {
        if j < p {
            assert(out[i] == before[i] && out[j] == before[j]);
        } else if j == p {
            assert(out[i] == before[i]);
            assert(out[j] == x);
        } else if i == p {
            assert(before.insert(p, x)[(j - 1) + 1] == before[j - 1]);
            assert(out[j] == before[j - 1]);
            assert(out[i] == x);
            if app_before(before[j - 1], x) {
                if j - 1 > p {
                    assert(!app_before(before[j - 1], before[p]));
                }
                lemma_app_before_transitive(before[j - 1], x, before[p]);
                lemma_lex_lt_irreflexive(ascii_lower(before[p].name@));
            }
        } else if i < p {
            assert(before.insert(p, x)[(j - 1) + 1] == before[j - 1]);
            assert(out[i] == before[i]);
            assert(out[j] == before[j - 1]);
            assert(!app_before(before[j - 1], before[i]));
        } else {
            assert(before.insert(p, x)[(j - 1) + 1] == before[j - 1]);
            assert(before.insert(p, x)[(i - 1) + 1] == before[i - 1]);
            assert(out[i] == before[i - 1]);
            assert(out[j] == before[j - 1]);
        }
    }
}

/// Sorting yields an ordered list holding the same applications, each as
/// often as before.
pub proof fn lemma_sorted_apps_is_ordered_permutation(apps: Seq<AppInfo>)
    ensures
        apps_sorted(sorted_apps(apps)),
        sorted_apps(apps).to_multiset() == apps.to_multiset(),
        sorted_apps(apps).len() == apps.len(),
    decreases apps.len(),
{
    if apps.len() == 0 {
        assert(apps.to_multiset() =~= sorted_apps(apps).to_multiset()) by {
            broadcast use vstd::multiset::group_multiset_axioms;
            assert(apps =~= Seq::<AppInfo>::empty());
        }
    } else {
        let prev = sorted_apps(apps.drop_last());
        lemma_sorted_apps_is_ordered_permutation(apps.drop_last());
        lemma_insert_position_bounds(prev, apps.last());
        lemma_insert_keeps_sorted(prev, apps.last());
        to_multiset_insert(prev, insert_position(prev, apps.last()), apps.last());
        to_multiset_build(apps.drop_last(), apps.last());
        assert(apps.drop_last().push(apps.last()) =~= apps);
        prev.insert_ensures(insert_position(prev, apps.last()), apps.last());
    }
}

/// Sorts applications by name ignoring ASCII case, then by process id,
/// keeping the relative order of applications with the same key.
pub fn sort_apps(apps: &mut Vec<AppInfo>)
    ensures
        final(apps)@ == sorted_apps(old(apps)@),
{
    let mut out: Vec<AppInfo> = Vec::new();
    let mut k: usize = 0;
    assert(apps@.take(0) =~= Seq::<AppInfo>::empty());
    while k < apps.len()
        invariant
            k <= apps.len(),
            out@ == sorted_apps(apps@.take(k as int)),
        decreases apps.len() - k,
    {
        assert(apps@.take(k + 1).drop_last() =~= apps@.take(k as int));
        assert(apps@.take(k + 1).last() == apps@[k as int]);
        let x = apps[k].clone();
        let mut p: usize = 0;
        while p < out.len() && !app_precedes(&x, &out[p])
            invariant
                p <= out.len(),
                forall|i: int| 0 <= i < p ==> !app_before(x, #[trigger] out@[i]),
            decreases out.len() - p,
        {
            p = p + 1;
        }
        proof {
            lemma_insert_position_at(out@, x, p as int);
        }
        out.insert(p, x);
        k = k + 1;
    }
    assert(apps@.take(k as int) =~= apps@);
    *apps = out;
}

/// The process id of the first application named `name`, ignoring ASCII case.
pub open spec fn exact_pid(apps: Seq<AppInfo>, name: Seq<char>) -> Option<i32>
    decreases apps.len(),
{
    if apps.len() == 0 {
        None
    } else if eq_ignore_case(apps[0].name@, name) {
        Some(apps[0].pid)
    } else {
        exact_pid(apps.drop_first(), name)
    }
}

/// The process id of the first application whose lowercase name contains
/// the lowercase `name`.
pub open spec fn partial_pid(apps: Seq<AppInfo>, name: Seq<char>) -> Option<i32>
    decreases apps.len(),
{
    if apps.len() == 0 {
        None
    } else if has_substring(ascii_lower(apps[0].name@), ascii_lower(name)) {
        Some(apps[0].pid)
    } else {
        partial_pid(apps.drop_first(), name)
    }
}

/// The process an application name designates: an exact match (ignoring
/// ASCII case) first, otherwise the first partial match.
pub open spec fn pid_for_name(apps: Seq<AppInfo>, name: Seq<char>) -> Option<i32> {
    match exact_pid(apps, name) {
        Some(p) => Some(p),
        None => partial_pid(apps, name),
    }
}

/// Finds the process of the application `app_name` names: the first whose
/// name equals it ignoring ASCII case, else the first whose lowercase name
/// contains its lowercase form.
pub fn find_pid_in_apps(apps: &Vec<AppInfo>, app_name: &str) -> (r: Option<i32>)
    ensures
        r == pid_for_name(apps@, app_name@),
{
    let mut i: usize = 0;
    assert(apps@.skip(0) =~= apps@);
    while i < apps.len()
        invariant
            i <= apps.len(),
            exact_pid(apps@, app_name@) == exact_pid(apps@.skip(i as int), app_name@),
        decreases apps.len() - i,
    {
        assert(apps@.skip(i as int).drop_first() =~= apps@.skip(i + 1));
        assert(apps@.skip(i as int)[0] == apps@[i as int]);
        if eq_ignore_ascii_case(apps[i].name.as_str(), app_name) {
            return Some(apps[i].pid);
        }
        i = i + 1;
    }
    let wanted = to_ascii_lowercase(app_name);
    let mut j: usize = 0;
    while j < apps.len()
        invariant
            j <= apps.len(),
            wanted@ == ascii_lower(app_name@),
            exact_pid(apps@, app_name@) is None,
            partial_pid(apps@, app_name@) == partial_pid(apps@.skip(j as int), app_name@),
        decreases apps.len() - j,
    {
        assert(apps@.skip(j as int).drop_first() =~= apps@.skip(j + 1));
        assert(apps@.skip(j as int)[0] == apps@[j as int]);
        let lower = to_ascii_lowercase(apps[j].name.as_str());
        if str_contains(lower.as_str(), wanted.as_str()) {
            return Some(apps[j].pid);
        }
        j = j + 1;
    }
    None
}

/// Finds an application's process among the primary sources, falling back
/// to the process listing only when they do not know it.
pub fn find_pid_with_process_fallback(primary: &Vec<AppInfo>, process: Vec<AppInfo>, app_name: &str) -> (r: Option<i32>)
    ensures
        r == match pid_for_name(primary@, app_name@) {
            Some(p) => Some(p),
            None => pid_for_name(process@, app_name@),
        },
{
    match find_pid_in_apps(primary, app_name) {
        Some(p) => Some(p),
        None => find_pid_in_apps(&process, app_name),
    }
}

/// The application list: the primary sources' applications, or, when they
/// report none, the deduplicated process listing; sorted either way.
/// `process` is consulted only when `primary` is empty.
pub fn assemble_app_list(primary: Vec<AppInfo>, process: Vec<AppInfo>) -> (r: Vec<AppInfo>)
    ensures
        r@ == sorted_apps(
            if primary@.len() == 0 {
                merge_all(primary@, process@)
            } else {
                primary@
            },
        ),
{
    let mut apps = primary;
    if apps.len() == 0 {
        merge_apps(&mut apps, process);
    }
    sort_apps(&mut apps);
    apps
}

} // verus!
