//! Helpers shared by the commands: ref-id validation and resolution of the
//! application a command targets.
use vstd::prelude::*;
use crate::error::{AdapterError, AppError};
use crate::node::{AppInfo, WindowFilter, WindowInfo};
use crate::adapter::PlatformAdapter;
use crate::text::{append_str, chars_of, eq_ignore_ascii_case, eq_ignore_case, owned};

verus! {

/// Arguments of commands that target an application.
pub struct AppArgs {
    pub app: Option<String>,
}

/// Arguments of commands that target a ref from a snapshot.
pub struct RefArgs {
    pub ref_id: String,
    pub snapshot_id: Option<String>,
}

/// `c` is an ASCII decimal digit.
pub open spec fn is_digit(c: char) -> bool {
    '0' <= c <= '9'
}

/// The number that a run of decimal digits denotes.
pub open spec fn digits_value(s: Seq<char>) -> nat
    decreases s.len(),
{
    if s.len() == 0 {
        0
    } else {
        digits_value(s.drop_last()) * 10 + ((s.last() as u32) - ('0' as u32)) as nat
    }
}

/// `10^n`.
pub open spec fn pow10(n: nat) -> nat
    decreases n,
{
    if n == 0 {
        1
    } else {
        10 * pow10((n - 1) as nat)
    }
}

/// A well-formed ref id: `@e` followed by 1 to 10 decimal digits that denote
/// a number from 1 to `u32::MAX`.
pub open spec fn valid_ref_id(s: Seq<char>) -> bool {
    &&& 3 <= s.len() <= 12
    &&& s[0] == '@'
    &&& s[1] == 'e'
    &&& forall|i: int| 2 <= i < s.len() ==> is_digit(#[trigger] s[i])
    &&& 0 < digits_value(s.skip(2)) <= u32::MAX
}

/// The message of the error that rejects ref id `s`.
pub open spec fn invalid_ref_message(s: Seq<char>) -> Seq<char> {
    "Invalid ref_id '"@ + s + "': must match @e{N} where N is a positive integer"@
}

proof fn lemma_digits_value_bound(s: Seq<char>)
    requires
        forall|i: int| 0 <= i < s.len() ==> is_digit(#[trigger] s[i]),
    ensures
        digits_value(s) < pow10(s.len()),
    decreases s.len(),
{
    if s.len() > 0 {
        let t = s.drop_last();
        assert forall|i: int| 0 <= i < t.len() implies is_digit(#[trigger] t[i]) by {
            assert(t[i] == s[i]);
        }
        lemma_digits_value_bound(t);
        assert(is_digit(s.last()));
        let d = ((s.last() as u32) - ('0' as u32)) as nat;
        let v = digits_value(t);
        let p = pow10(t.len());
        assert(v * 10 + d < p * 10) by (nonlinear_arith)
            requires
                v < p,
                d < 10,
        ;
    }
}

/// Accepts exactly the ref ids of the form `@e{N}` where `N` is a positive
/// integer that fits in 32 bits, written with at most ten digits.
pub fn validate_ref_id(ref_id: &str) -> (r: Result<(), AppError>)
    ensures
        r is Ok <==> valid_ref_id(ref_id@),
        r matches Err(e) ==> e matches AppError::InvalidInput { message, suggestion }
            && message@ == invalid_ref_message(ref_id@) && suggestion is None,
{
    let cs = chars_of(ref_id);
    let mut valid = 3 <= cs.len() && cs.len() <= 12 && cs[0] == '@' && cs[1] == 'e';
    if valid {
        let mut value: u64 = 0;
        let mut i: usize = 2;
        let ghost digits = cs@.skip(2);
        while i < cs.len()
            invariant
                cs@ == ref_id@,
                3 <= cs.len() <= 12,
                2 <= i <= cs.len(),
                digits == cs@.skip(2),
                valid ==> forall|k: int| 2 <= k < i ==> is_digit(#[trigger] cs@[k]),
                valid ==> value == digits_value(digits.take(i - 2)),
                valid ==> value < pow10((i - 2) as nat),
                !valid ==> exists|k: int| 2 <= k < cs@.len() && !is_digit(#[trigger] cs@[k]),
            decreases cs.len() - i,
        {
            let c = cs[i];
            if '0' <= c && c <= '9' {
                if valid {
                    proof {
                        reveal_with_fuel(pow10, 11);
                        assert(pow10(10) == 10000000000);
                        let n = (i - 2) as nat;
                        assert(pow10(n) <= pow10(10)) by {
                            lemma_pow10_monotone(n, 10);
                        }
                        assert(digits.take(i + 1 - 2).drop_last() == digits.take(i - 2));
                        assert(digits.take(i + 1 - 2).last() == c);
                        assert(value * 10 + ((c as u32) - ('0' as u32)) < pow10(n) * 10) by (nonlinear_arith)
                            requires
                                value < pow10(n),
                                (c as u32) - ('0' as u32) < 10,
                        ;
                    }
                    value = value * 10 + ((c as u32) - ('0' as u32)) as u64;
                }
            } else {
                valid = false;
            }
            i = i + 1;
        }
        proof {
            if valid {
                assert(digits.take(cs.len() - 2) == digits);
            }
        }
        valid = valid && 0 < value && value <= 4294967295;
    }
    if !valid {
        let mut message = owned("Invalid ref_id '");
        append_str(&mut message, ref_id);
        append_str(&mut message, "': must match @e{N} where N is a positive integer");
        return Err(AppError::invalid_input(message));
    }
    Ok(())
}

proof fn lemma_pow10_monotone(a: nat, b: nat)
    requires
        a <= b,
    ensures
        pow10(a) <= pow10(b),
    decreases b,
{
    if a < b {
        lemma_pow10_monotone(a, (b - 1) as nat);
    }
}

/// The pid of the first application in `apps` whose name equals `name`,
/// ignoring ASCII case.
pub open spec fn first_app_pid(apps: Seq<AppInfo>, name: Seq<char>) -> Option<i32>
    decreases apps.len(),
{
    if apps.len() == 0 {
        None
    } else if eq_ignore_case(apps[0].name@, name) {
        Some(apps[0].pid)
    } else {
        first_app_pid(apps.drop_first(), name)
    }
}

/// Looks `name` up in `apps` the way the commands do: the first application
/// whose name matches, ignoring ASCII case.
pub fn find_app_pid(apps: &Vec<AppInfo>, name: &str) -> (r: Option<i32>)
    ensures
        r == first_app_pid(apps@, name@),
{
    let mut i: usize = 0;
    assert(apps@.skip(0) == apps@);
    while i < apps.len()
        invariant
            i <= apps.len(),
            first_app_pid(apps@, name@) == first_app_pid(apps@.skip(i as int), name@),
        decreases apps.len() - i,
    {
        assert(apps@.skip(i as int).drop_first() == apps@.skip(i + 1));
        if eq_ignore_ascii_case(apps[i].name.as_str(), name) {
            return Some(apps[i].pid);
        }
        i = i + 1;
    }
    None
}

/// The pid of a command's target application: the named application, or
/// the application that owns the first focused window.
pub open spec fn app_pid_outcome(
    app: Option<Seq<char>>,
    apps: Seq<AppInfo>,
    focused: Seq<WindowInfo>,
) -> Result<i32, Seq<char>> {
    match app {
        Some(name) => match first_app_pid(apps, name) {
            Some(pid) => Ok(pid),
            None => Err("App '"@ + name + "' not found"@),
        },
        None => if focused.len() > 0 {
            Ok(focused[0].pid)
        } else {
            Err("No focused window. Use --app to specify."@)
        },
    }
}

/// Resolves a command's target application to a pid. With a name, the
/// application comes from the adapter's application list; without one, it
/// is the owner of the first focused window. An adapter failure is passed
/// on; a name that matches no application, or the absence of any focused
/// window, is rejected as invalid input. With a name, the pid is the one
/// `pid_from_apps` picks from the listed applications; without, the listing
/// asks for focused windows of any application
/// (`WindowFilter::focused_windows(None)`) and the pid is the one
/// `pid_from_focused_windows` picks.
pub fn resolve_app_pid<A: PlatformAdapter>(app: Option<&str>, adapter: &A) -> (r: Result<i32, AppError>)
    ensures
        r matches Err(e) ==> (e is Adapter || e is InvalidInput),
        r matches Err(AppError::InvalidInput { message, suggestion }) ==> suggestion is None && (
            match app {
                Some(name) => message@ == "App '"@ + name@ + "' not found"@,
                None => message@ == "No focused window. Use --app to specify."@,
            }),
{
    match app {
        Some(name) => {
            let apps = match adapter.list_apps() {
                Ok(apps) => apps,
                Err(e) => return Err(AppError::Adapter(e)),
            };
            pid_from_apps(&apps, name)
        },
        None => {
            let filter = WindowFilter::focused_windows(None);
            let windows = match adapter.list_windows(&filter) {
                Ok(windows) => windows,
                Err(e) => return Err(AppError::Adapter(e)),
            };
            pid_from_focused_windows(&windows)
        },
    }
}

/// The pid of the application named `name` in `apps`, or the error that
/// `resolve_app_pid` reports when there is none.
pub fn pid_from_apps(apps: &Vec<AppInfo>, name: &str) -> (r: Result<i32, AppError>)
    ensures
        r matches Ok(pid) ==> app_pid_outcome(Some(name@), apps@, Seq::empty()) == Ok::<i32, Seq<char>>(pid),
        r matches Err(e) ==> e matches AppError::InvalidInput { message, suggestion } && suggestion is None
            && app_pid_outcome(Some(name@), apps@, Seq::empty()) == Err::<i32, Seq<char>>(message@),
        r is Ok <==> first_app_pid(apps@, name@) is Some,
{
    match find_app_pid(apps, name) {
        Some(pid) => Ok(pid),
        None => {
            let mut message = owned("App '");
            append_str(&mut message, name);
            append_str(&mut message, "' not found");
            Err(AppError::invalid_input(message))
        },
    }
}

/// The pid of the first focused window in `windows`, or the error that
/// `resolve_app_pid` reports when the list is empty.
pub fn pid_from_focused_windows(windows: &Vec<WindowInfo>) -> (r: Result<i32, AppError>)
    ensures
        r matches Ok(pid) ==> app_pid_outcome(None, Seq::empty(), windows@) == Ok::<i32, Seq<char>>(pid),
        r matches Err(e) ==> e matches AppError::InvalidInput { message, suggestion } && suggestion is None
            && app_pid_outcome(None, Seq::empty(), windows@) == Err::<i32, Seq<char>>(message@),
        r is Ok <==> windows@.len() > 0,
{
    if windows.len() > 0 {
        Ok(windows[0].pid)
    } else {
        Err(AppError::invalid_input(owned("No focused window. Use --app to specify.")))
    }
}

/// The window a window operation acts on, given the outcome of looking up a
/// window of process `pid`: the window found; when none was found and the
/// operation is a restore, a stand-in with empty id and title that belongs to
/// `app` (empty when none is named) and `pid`; otherwise the lookup's error.
pub fn window_op_target(lookup: Result<WindowInfo, AppError>, restoring: bool, app: Option<&str>, pid: i32) -> (r:
    Result<WindowInfo, AppError>)
    ensures
        lookup is Ok ==> r == lookup,
        (lookup is Err && !restoring) ==> r == lookup,
        (lookup is Err && restoring) ==> (r matches Ok(w) && w.id@ == Seq::<char>::empty() && w.title@
            == Seq::<char>::empty() && w.app@ == (match app {
            Some(a) => a@,
            None => Seq::<char>::empty(),
        }) && w.pid == pid && !w.is_focused),
{
    match lookup {
        Ok(w) => Ok(w),
        Err(e) => {
            if restoring {
                let name = match app {
                    Some(a) => owned(a),
                    None => String::new(),
                };
                Ok(WindowInfo { id: String::new(), title: String::new(), app: name, pid, is_focused: false })
            } else {
                Err(e)
            }
        },
    }
}

} // verus!
