//! The `menu` command: menu paths written as `A > B > C`, and the
//! application it targets.
use vstd::prelude::*;
use crate::adapter::PlatformAdapter;
use crate::error::{AdapterError, AppError, ErrorCode};
use crate::helpers::{find_app_pid, first_app_pid};
use crate::text::{
    append_str, chars_of, lemma_trimmed_ends, lemma_trimmed_idempotent, lemma_trimmed_padded,
    lemma_trimmed_push_space, owned, string_of_range, trim, trimmed,
};

verus! {

/// Arguments of the `menu` command.
pub struct MenuArgs {
    pub app: Option<String>,
    pub path: Option<String>,
    pub list: bool,
}

/// What the `menu` command answers.
#[derive(Debug)]
pub enum MenuOutcome {
    /// `--list`: every `Top > Item` path of the menu bar.
    Paths(Vec<String>),
    /// `--path`: the segments of the menu item that was selected.
    Selected(Vec<String>),
}

/// The pieces of `s` between occurrences of `sep` (what `str::split` yields,
/// empty pieces included).
pub open spec fn split_on(s: Seq<char>, sep: char) -> Seq<Seq<char>>
    decreases s.len(),
{
    if s.len() == 0 {
        seq![Seq::empty()]
    } else {
        let p = split_on(s.drop_last(), sep);
        if s.last() == sep {
            p.push(Seq::empty())
        } else {
            p.update(p.len() - 1, p.last().push(s.last()))
        }
    }
}

/// The trimmed pieces, without those that are empty once trimmed.
pub open spec fn nonempty_trimmed(ps: Seq<Seq<char>>) -> Seq<Seq<char>>
    decreases ps.len(),
{
    if ps.len() == 0 {
        Seq::empty()
    } else {
        let c = nonempty_trimmed(ps.drop_last());
        if trimmed(ps.last()).len() > 0 {
            c.push(trimmed(ps.last()))
        } else {
            c
        }
    }
}

/// The segments of a menu path written as `A > B > C`.
pub open spec fn menu_segments(raw: Seq<char>) -> Seq<Seq<char>> {
    nonempty_trimmed(split_on(raw, '>'))
}

pub proof fn lemma_split_nonempty(s: Seq<char>, sep: char)
    ensures
        split_on(s, sep).len() >= 1,
    decreases s.len(),
{
    if s.len() > 0 {
        lemma_split_nonempty(s.drop_last(), sep);
    }
}

/// Text without the separator is a single piece.
pub proof fn lemma_split_without_sep(s: Seq<char>, sep: char)
    requires
        forall|k: int| 0 <= k < s.len() ==> s[k] != sep,
    ensures
        split_on(s, sep) == seq![s],
    decreases s.len(),
{
    if s.len() == 0 {
        assert(s =~= Seq::<char>::empty());
    } else {
        assert forall|k: int| 0 <= k < s.drop_last().len() implies s.drop_last()[k] != sep by {
            assert(s.drop_last()[k] == s[k]);
        }
        lemma_split_without_sep(s.drop_last(), sep);
        assert(s.last() != sep);
        assert(s.drop_last().push(s.last()) =~= s);
        assert(seq![s.drop_last()].update(0, s) =~= seq![s]);
    }
}

/// Two separator-free parts joined by one separator split into exactly
/// those two parts.
pub proof fn lemma_split_two(a: Seq<char>, b: Seq<char>, sep: char)
    requires
        forall|k: int| 0 <= k < a.len() ==> a[k] != sep,
        forall|k: int| 0 <= k < b.len() ==> b[k] != sep,
    ensures
        split_on(a + seq![sep] + b, sep) == seq![a, b],
    decreases b.len(),
{
    let s = a + seq![sep] + b;
    if b.len() == 0 {
        assert(s =~= a.push(sep));
        assert(s.drop_last() =~= a);
        lemma_split_without_sep(a, sep);
        assert(b =~= Seq::<char>::empty());
        assert(seq![a].push(Seq::<char>::empty()) =~= seq![a, b]);
    } else {
        assert forall|k: int| 0 <= k < b.drop_last().len() implies b.drop_last()[k] != sep by {
            assert(b.drop_last()[k] == b[k]);
        }
        lemma_split_two(a, b.drop_last(), sep);
        assert(s.drop_last() =~= a + seq![sep] + b.drop_last());
        assert(s.last() == b.last());
        assert(b.last() != sep);
        assert(b.drop_last().push(b.last()) =~= b);
        assert(seq![a, b.drop_last()].update(1, b) =~= seq![a, b]);
    }
}

proof fn lemma_split_pieces_free(s: Seq<char>, sep: char)
    ensures
        forall|i: int, k: int| 0 <= i < split_on(s, sep).len() && 0 <= k < split_on(s, sep)[i].len()
            ==> #[trigger] split_on(s, sep)[i][k] != sep,
    decreases s.len(),
{
    if s.len() > 0 {
        lemma_split_pieces_free(s.drop_last(), sep);
        lemma_split_nonempty(s.drop_last(), sep);
        let p = split_on(s.drop_last(), sep);
        let q = split_on(s, sep);
        assert forall|i: int, k: int| 0 <= i < q.len() && 0 <= k < q[i].len() implies #[trigger] q[i][k] != sep by {
            if s.last() == sep {
                if i < p.len() {
                    assert(q[i] == p[i]);
                }
            } else if i < p.len() - 1 {
                assert(q[i] == p[i]);
            } else {
                assert(q[i] == p.last().push(s.last()));
                if k < p.last().len() {
                    assert(q[i][k] == p[p.len() - 1][k]);
                }
            }
        }
    }
}

proof fn lemma_nonempty_trimmed_clean(ps: Seq<Seq<char>>)
    requires
        forall|i: int, k: int| 0 <= i < ps.len() && 0 <= k < ps[i].len() ==> #[trigger] ps[i][k] != '>',
    ensures
        forall|i: int| 0 <= i < nonempty_trimmed(ps).len() ==> segment_is_clean(#[trigger] nonempty_trimmed(ps)[i]),
    decreases ps.len(),
{
    if ps.len() > 0 {
        let rest = ps.drop_last();
        assert forall|i: int, k: int| 0 <= i < rest.len() && 0 <= k < rest[i].len() implies #[trigger] rest[i][k] != '>' by {
            assert(rest[i] == ps[i]);
        }
        lemma_nonempty_trimmed_clean(rest);
        let last = ps.last();
        let t = trimmed(last);
        lemma_trimmed_idempotent(last);
        assert forall|k: int| 0 <= k < t.len() implies t[k] != '>' by {
            let j = choose|j: int| 0 <= j < last.len() && last[j] == #[trigger] t[k];
            assert(ps[ps.len() - 1][j] != '>');
        }
        let c = nonempty_trimmed(ps);
        assert forall|i: int| 0 <= i < c.len() implies segment_is_clean(#[trigger] c[i]) by {
            if i < nonempty_trimmed(rest).len() {
                assert(c[i] == nonempty_trimmed(rest)[i]);
            } else {
                assert(c[i] == t);
            }
        }
    }
}

/// A segment as a menu path yields it: not empty, without whitespace at
/// either end, and free of `>`.
pub open spec fn segment_is_clean(seg: Seq<char>) -> bool {
    &&& seg.len() > 0
    &&& trimmed(seg) == seg
    &&& forall|k: int| 0 <= k < seg.len() ==> seg[k] != '>'
}

/// Every segment of a parsed menu path is non-empty, trimmed and free of
/// `>`, whatever the text parsed.
pub proof fn lemma_menu_segments_clean(raw: Seq<char>)
    ensures
        forall|i: int| 0 <= i < menu_segments(raw).len() ==> segment_is_clean(#[trigger] menu_segments(raw)[i]),
{
    lemma_split_pieces_free(raw, '>');
    lemma_nonempty_trimmed_clean(split_on(raw, '>'));
}

/// A separator between two texts splits them apart: the pieces of the
/// whole are the pieces of the first followed by those of the second.
pub proof fn lemma_split_concat(x: Seq<char>, y: Seq<char>, sep: char)
    ensures
        split_on(x + seq![sep] + y, sep) == split_on(x, sep) + split_on(y, sep),
    decreases y.len(),
{
    let s = x + seq![sep] + y;
    if y.len() == 0 {
        assert(s =~= x.push(sep));
        assert(s.drop_last() =~= x);
        assert(split_on(y, sep) =~= seq![Seq::<char>::empty()]);
        assert(split_on(x, sep).push(Seq::<char>::empty()) =~= split_on(x, sep) + seq![Seq::<char>::empty()]);
    } else {
        lemma_split_concat(x, y.drop_last(), sep);
        lemma_split_nonempty(y.drop_last(), sep);
        assert(s.drop_last() =~= x + seq![sep] + y.drop_last());
        assert(s.last() == y.last());
        let a = split_on(x, sep);
        let b = split_on(y.drop_last(), sep);
        if y.last() == sep {
            assert((a + b).push(Seq::<char>::empty()) =~= a + b.push(Seq::<char>::empty()));
        } else {
            assert((a + b).last() == b.last());
            assert((a + b).update((a + b).len() - 1, b.last().push(y.last())) =~= a + b.update(
                b.len() - 1,
                b.last().push(y.last()),
            ));
        }
    }
}

proof fn lemma_nonempty_trimmed_concat(a: Seq<Seq<char>>, b: Seq<Seq<char>>)
    ensures
        nonempty_trimmed(a + b) == nonempty_trimmed(a) + nonempty_trimmed(b),
    decreases b.len(),
{
    if b.len() == 0 {
        assert(a + b =~= a);
        assert(nonempty_trimmed(a) + nonempty_trimmed(b) =~= nonempty_trimmed(a));
    } else {
        lemma_nonempty_trimmed_concat(a, b.drop_last());
        assert((a + b).drop_last() =~= a + b.drop_last());
        assert((a + b).last() == b.last());
        if trimmed(b.last()).len() > 0 {
            assert((nonempty_trimmed(a) + nonempty_trimmed(b.drop_last())).push(trimmed(b.last()))
                =~= nonempty_trimmed(a) + nonempty_trimmed(b.drop_last()).push(trimmed(b.last())));
        }
    }
}

/// Segments joined into a menu path, `A > B > C`.
pub open spec fn joined_path(segs: Seq<Seq<char>>) -> Seq<char>
    decreases segs.len(),
{
    if segs.len() == 0 {
        Seq::empty()
    } else if segs.len() == 1 {
        segs[0]
    } else {
        joined_path(segs.drop_last()) + " > "@ + segs.last()
    }
}

/// Clean segments joined with ` > ` parse back into the same segments; with
/// `lemma_menu_segments_clean`, parsing a path and joining its segments
/// again gives a path that parses the same way.
pub proof fn lemma_joined_path_parses_back(segs: Seq<Seq<char>>)
    requires
        forall|i: int| 0 <= i < segs.len() ==> segment_is_clean(#[trigger] segs[i]),
    ensures
        menu_segments(joined_path(segs)) == segs,
    decreases segs.len(),
{
    assert(nonempty_trimmed(Seq::<Seq<char>>::empty()) == Seq::<Seq<char>>::empty());
    if segs.len() == 0 {
        assert(joined_path(segs) =~= Seq::<char>::empty());
        assert(split_on(Seq::<char>::empty(), '>') =~= seq![Seq::<char>::empty()]);
        assert(seq![Seq::<char>::empty()].drop_last() =~= Seq::<Seq<char>>::empty());
        assert(trimmed(Seq::<char>::empty()) =~= Seq::<char>::empty());
        assert(menu_segments(joined_path(segs)) =~= segs);
    } else if segs.len() == 1 {
        let w = segs[0];
        assert(segment_is_clean(segs[0]));
        lemma_split_without_sep(w, '>');
        assert(seq![w].drop_last() =~= Seq::<Seq<char>>::empty());
        assert(seq![w].last() == w);
        assert(nonempty_trimmed(seq![w]) =~= seq![w]);
        assert(segs =~= seq![w]);
    } else {
        let prev = segs.drop_last();
        let last = segs.last();
        assert forall|i: int| 0 <= i < prev.len() implies segment_is_clean(#[trigger] prev[i]) by {
            assert(prev[i] == segs[i]);
        }
        lemma_joined_path_parses_back(prev);
        assert(segment_is_clean(segs[segs.len() - 1]));
        let j = joined_path(prev);
        reveal_strlit(" > ");
        let left = j.push(' ');
        let right = seq![' '] + last;
        assert(joined_path(segs) =~= left + seq!['>'] + right);
        lemma_split_concat(left, right, '>');
        assert forall|k: int| 0 <= k < right.len() implies right[k] != '>' by {
            if k > 0 {
                assert(right[k] == last[k - 1]);
            }
        }
        lemma_split_without_sep(right, '>');
        lemma_nonempty_trimmed_concat(split_on(left, '>'), seq![right]);
        lemma_trimmed_ends(last);
        lemma_trimmed_padded(last);
        assert(seq![right].drop_last() =~= Seq::<Seq<char>>::empty());
        assert(seq![right].last() == right);
        assert(nonempty_trimmed(seq![right]) =~= seq![last]);
        let pj = split_on(j, '>');
        lemma_split_nonempty(j, '>');
        assert(left.drop_last() =~= j);
        assert(left.last() == ' ');
        assert(split_on(left, '>') == pj.update(pj.len() - 1, pj.last().push(' ')));
        lemma_trimmed_push_space(pj.last());
        let pl = split_on(left, '>');
        assert(pl.drop_last() =~= pj.drop_last());
        assert(pl.last() == pj.last().push(' '));
        assert(nonempty_trimmed(pl) == nonempty_trimmed(pj));
        assert(prev.push(last) =~= segs);
    }
}

/// Splits a menu path at `>`, trims every segment and drops the empty ones.
pub fn parse_path(raw: &str) -> (r: Vec<String>)
    ensures
        r.deep_view() == menu_segments(raw@),
{
    let cs = chars_of(raw);
    let mut out: Vec<String> = Vec::new();
    let mut start: usize = 0;
    let mut i: usize = 0;
    let ghost mut done: Seq<Seq<char>> = Seq::empty();
    proof {
        assert(cs@.take(0) =~= Seq::<char>::empty());
        assert(split_on(Seq::<char>::empty(), '>') == done.push(cs@.subrange(0, 0)));
        assert(out.deep_view() =~= Seq::<Seq<char>>::empty());
    }
    while i < cs.len()
        invariant
            cs@ == raw@,
            start <= i <= cs.len(),
            split_on(cs@.take(i as int), '>') == done.push(cs@.subrange(start as int, i as int)),
            out.deep_view() == nonempty_trimmed(done),
        decreases cs.len() - i,
    {
        let ghost prev = cs@.take(i as int);
        proof {
            assert(cs@.take(i + 1).drop_last() =~= prev);
            assert(cs@.take(i + 1).last() == cs@[i as int]);
            lemma_split_nonempty(prev, '>');
        }
        if cs[i] == '>' {
            let piece = string_of_range(&cs, start, i);
            let t = trim(piece.as_str());
            let ghost old_out = out.deep_view();
            if !t.as_str().is_empty() {
                out.push(t);
                assert(out.deep_view() =~= old_out.push(trimmed(cs@.subrange(start as int, i as int))));
            }
            proof {
                assert(done.push(cs@.subrange(start as int, i as int)).drop_last() =~= done);
                done = done.push(cs@.subrange(start as int, i as int));
                assert(cs@.subrange(i + 1, i + 1) =~= Seq::<char>::empty());
            }
            start = i + 1;
        } else {
            proof {
                assert(cs@.subrange(start as int, i + 1) =~= cs@.subrange(start as int, i as int).push(cs@[i as int]));
                assert(done.push(cs@.subrange(start as int, i as int)).update(done.len() as int, cs@.subrange(start as int, i + 1))
                    =~= done.push(cs@.subrange(start as int, i + 1)));
            }
        }
        i = i + 1;
    }
    let piece = string_of_range(&cs, start, i);
    let t = trim(piece.as_str());
    let ghost old_out = out.deep_view();
    if !t.as_str().is_empty() {
        out.push(t);
        assert(out.deep_view() =~= old_out.push(trimmed(cs@.subrange(start as int, i as int))));
    }
    proof {
        assert(cs@.take(i as int) =~= raw@);
        assert(done.push(cs@.subrange(start as int, i as int)).drop_last() =~= done);
    }
    out
}

/// The application the `menu` command targets: the running application
/// named (ignoring ASCII case) by `app`. Without a name the command is
/// rejected; an adapter failure is passed on.
pub fn resolve_pid<A: PlatformAdapter>(app: Option<&str>, adapter: &A) -> (r: Result<i32, AppError>)
    ensures
        app is None <==> (r matches Err(AppError::InvalidInput { message, suggestion })
            && message@ == "menu --path requires --app"@ && suggestion is None),
        app is Some ==> (r matches Err(e) ==> e is Adapter),
{
    let app = match app {
        Some(a) => a,
        None => return Err(AppError::invalid_input(owned("menu --path requires --app"))),
    };
    let apps = match adapter.list_apps() {
        Ok(apps) => apps,
        Err(e) => return Err(AppError::Adapter(e)),
    };
    pid_in_running_apps(&apps, app)
}

/// The pid of the application named `app` (ignoring ASCII case) among the
/// running applications `apps`, or the error for one that is not running.
pub fn pid_in_running_apps(apps: &Vec<crate::node::AppInfo>, app: &str) -> (r: Result<i32, AppError>)
    ensures
        first_app_pid(apps@, app@) matches Some(pid) ==> r == Ok::<i32, AppError>(pid),
        first_app_pid(apps@, app@) is None ==> (r matches Err(AppError::Adapter(e))
            && e.code == ErrorCode::AppNotFound
            && e.message@ == "Application '"@ + app@ + "' is not running"@ && e.suggestion is None),
{
    match find_app_pid(apps, app) {
        Some(pid) => Ok(pid),
        None => Err(AppError::Adapter(app_not_running(app))),
    }
}

/// The error for an application that is not running.
fn app_not_running(app: &str) -> (r: AdapterError)
    ensures
        r.code == ErrorCode::AppNotFound,
        r.message@ == "Application '"@ + app@ + "' is not running"@,
        r.suggestion is None,
{
    let mut m = owned("Application '");
    append_str(&mut m, app);
    append_str(&mut m, "' is not running");
    AdapterError::new(ErrorCode::AppNotFound, m.as_str())
}

/// The `menu` command: lists the menu paths of the application, or selects
/// the menu item at `--path`. A path with no segment is rejected before the
/// platform is asked to select anything.
pub fn execute<A: PlatformAdapter>(args: MenuArgs, adapter: &A) -> (r: Result<MenuOutcome, AppError>)
    ensures
        args.app is None ==> (r matches Err(AppError::InvalidInput { message, suggestion })
            && message@ == "menu --path requires --app"@ && suggestion is None),
        r matches Ok(MenuOutcome::Paths(_)) ==> args.list,
        r matches Ok(MenuOutcome::Selected(segs)) ==> !args.list && (args.path matches Some(p)
            && segs.deep_view() == menu_segments(p@) && segs@.len() > 0),
        !args.list && args.path is None && args.app is Some ==> (r matches Err(e) && (e is Adapter || (e matches AppError::InvalidInput { message, .. }
            && message@ == "Provide --path \"A > B\" or --list"@))),
        args.app is Some ==> !(r matches Err(AppError::InvalidInput { message, .. }) && message@
            == "menu --path requires --app"@),
        args.app is Some && !args.list && (args.path matches Some(p) && menu_segments(p@).len() == 0)
            ==> (r matches Err(e) && (e is Adapter || (e matches AppError::InvalidInput { message, .. }
            && message@ == "menu --path must be non-empty"@))),
{
    let pid = resolve_pid(
        match &args.app {
            Some(a) => Some(a.as_str()),
            None => None,
        },
        adapter,
    )?;
    if args.list {
        let paths = match adapter.list_menu_paths(pid) {
            Ok(p) => p,
            Err(e) => return Err(AppError::Adapter(e)),
        };
        return Ok(MenuOutcome::Paths(paths));
    }
    if let Some(p) = &args.path {
        let segments = parse_path(p.as_str());
        if segments.len() == 0 {
            proof {
                reveal_strlit("menu --path must be non-empty");
                reveal_strlit("menu --path requires --app");
                assert("menu --path must be non-empty"@[12] != "menu --path requires --app"@[12]);
            }
            return Err(AppError::invalid_input(owned("menu --path must be non-empty")));
        }
        match adapter.select_menu_path(pid, &segments) {
            Ok(()) => {},
            Err(e) => return Err(AppError::Adapter(e)),
        }
        return Ok(MenuOutcome::Selected(segments));
    }
    proof {
        reveal_strlit("Provide --path \"A > B\" or --list");
        reveal_strlit("menu --path requires --app");
        assert("Provide --path \"A > B\" or --list"@[0] != "menu --path requires --app"@[0]);
    }
    Err(AppError::invalid_input(owned("Provide --path \"A > B\" or --list")))
}

} // verus!
