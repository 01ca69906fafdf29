//! Application operations on macOS: which processes may never be closed,
//! the arguments that open an application without stealing focus, and the
//! application a process command line belongs to.
use vstd::prelude::*;
use crate::text::{
    chars_of, eq_ignore_ascii_case, eq_ignore_case, has_prefix, occurs_at, occurs_at_exec, owned,
    string_of_range,
};

verus! {

/// The system processes that must never be closed, by display name or
/// bundle identifier.
pub open spec fn protected_names() -> Seq<Seq<char>> {
    seq!["Finder"@, "Dock"@, "com.apple.dock"@, "WindowServer"@, "loginwindow"@]
}

/// `identifier` names a protected process (ignoring ASCII case).
pub open spec fn is_protected_name(identifier: Seq<char>) -> bool {
    exists|i: int| 0 <= i < protected_names().len() && eq_ignore_case(protected_names()[i], identifier)
}

/// Whether `identifier`, a display name or a bundle identifier, names a
/// system process that must never be closed (ASCII case ignored).
pub fn is_protected_process(identifier: &str) -> (r: bool)
    ensures
        r == is_protected_name(identifier@),
{
    let names: [&str; 5] = ["Finder", "Dock", "com.apple.dock", "WindowServer", "loginwindow"];
    assert(names@.map_values(|s: &str| s@) =~= protected_names());
    let mut i: usize = 0;
    while i < 5
        invariant
            i <= 5,
            names@.map_values(|s: &str| s@) == protected_names(),
            forall|k: int| 0 <= k < i ==> !eq_ignore_case(#[trigger] protected_names()[k], identifier@),
        decreases 5 - i,
    {
        assert(protected_names()[i as int] == names@[i as int]@);
        if eq_ignore_ascii_case(names[i], identifier) {
            return true;
        }
        i = i + 1;
    }
    false
}

/// The arguments of `open` that launch or reveal application `app` without
/// bringing it to the foreground.
pub fn open_app_args(app: &str) -> (r: Vec<String>)
    ensures
        r.deep_view() == seq!["-g"@, "-a"@, app@],
{
    let v = vec![owned("-g"), owned("-a"), owned(app)];
    assert(v.deep_view() =~= seq!["-g"@, "-a"@, app@]);
    v
}

/// The first position at which `needle` occurs in `hay`.
pub open spec fn first_occurrence(hay: Seq<char>, needle: Seq<char>) -> Option<int> {
    if exists|i: int| occurs_at(hay, needle, i) {
        Some(
            choose|i: int| occurs_at(hay, needle, i) && forall|j: int| 0 <= j < i ==> !occurs_at(hay, needle, j),
        )
    } else {
        None
    }
}

/// The last path component of `s`: what follows its last `/` (all of it
/// when it has none).
pub open spec fn last_component(s: Seq<char>) -> Seq<char>
    decreases s.len(),
{
    if s.len() == 0 {
        s
    } else if s.last() == '/' {
        Seq::empty()
    } else {
        last_component(s.drop_last()).push(s.last())
    }
}

/// The application a process command line belongs to: the name of the first
/// `.app` bundle on its path, provided the process is that bundle's main
/// executable (the bundle is followed directly by `Contents/MacOS/`) and the
/// name is not empty. Helpers, plug-ins, XPC services and extensions nested
/// inside a bundle belong to no application of their own.
pub open spec fn app_name_of_command(cmd: Seq<char>) -> Option<Seq<char>> {
    match first_occurrence(cmd, ".app/"@) {
        None => None,
        Some(i) => {
            let name = last_component(cmd.take(i));
            if name.len() > 0 && has_prefix(cmd.skip(i + 5), "Contents/MacOS/"@) {
                Some(name)
            } else {
                None
            }
        },
    }
}

/// The application a process command line belongs to (see
/// `app_name_of_command`).
pub fn app_name_from_command(command: &str) -> (r: Option<String>)
    ensures
        match app_name_of_command(command@) {
            Some(n) => r matches Some(s) && s@ == n,
            None => r is None,
        },
{
    let cs = chars_of(command);
    let marker = chars_of(".app/");
    let inside = chars_of("Contents/MacOS/");
    proof {
        reveal_strlit(".app/");
        reveal_strlit("Contents/MacOS/");
    }
    if cs.len() < 5 {
        assert forall|i: int| !occurs_at(cs@, marker@, i) by {}
        return None;
    }
    let mut i: usize = 0;
    while i <= cs.len() - 5 && !occurs_at_exec(&cs, &marker, i)
        invariant
            cs@ == command@,
            marker@ == ".app/"@,
            marker@.len() == 5,
            cs@.len() >= 5,
            i + 5 <= cs@.len() + 1,
            forall|j: int| 0 <= j < i ==> !occurs_at(cs@, marker@, j),
        decreases cs.len() - i,
    {
        i = i + 1;
    }
    if i > cs.len() - 5 {
        assert forall|j: int| !occurs_at(cs@, marker@, j) by {
            if 0 <= j && j + 5 <= cs@.len() {
                assert(j < i);
            }
        }
        return None;
    }
    proof {
        assert(occurs_at(cs@, marker@, i as int));
        let c = choose|k: int| occurs_at(cs@, marker@, k) && forall|j: int| 0 <= j < k ==> !occurs_at(cs@, marker@, j);
        assert(c == i as int) by {
            if c < i as int {
                assert(!occurs_at(cs@, marker@, c));
            } else if c > i as int {
                assert(!occurs_at(cs@, marker@, i as int));
            }
        }
    }
    let mut j: usize = i;
    assert(cs@.take(i as int).subrange(j as int, i as int) =~= Seq::<char>::empty());
    while j > 0 && cs[j - 1] != '/'
        invariant
            j <= i,
            i + 5 <= cs@.len(),
            last_component(cs@.take(i as int)) == last_component(cs@.take(j as int)) + cs@.subrange(
                j as int,
                i as int,
            ),
        decreases j,
    {
        assert(cs@.take(j as int).drop_last() =~= cs@.take(j - 1));
        assert(cs@.take(j as int).last() == cs@[j - 1]);
        assert(last_component(cs@.take(j as int)) == last_component(cs@.take(j - 1)).push(cs@[j - 1]));
        assert(last_component(cs@.take(j - 1)).push(cs@[j - 1]) + cs@.subrange(j as int, i as int)
            =~= last_component(cs@.take(j - 1)) + cs@.subrange(j - 1, i as int));
        j = j - 1;
    }
    proof {
        if j > 0 {
            assert(cs@.take(j as int).last() == cs@[j - 1]);
        }
        assert(last_component(cs@.take(j as int)) =~= Seq::<char>::empty());
        assert(cs@.take(i as int).len() == i);
    }
    let name = string_of_range(&cs, j, i);
    assert(name@ =~= last_component(command@.take(i as int)));
    if name.as_str().is_empty() {
        return None;
    }
    let start = i + 5;
    if inside.len() > cs.len() - start {
        assert(!has_prefix(cs@.skip(start as int), "Contents/MacOS/"@));
        return None;
    }
    let follows = occurs_at_exec(&cs, &inside, start);
    proof {
        assert(cs@.skip(start as int).subrange(0, 15) =~= cs@.subrange(start as int, start + 15));
    }
    if !follows {
        return None;
    }
    Some(name)
}

} // verus!
