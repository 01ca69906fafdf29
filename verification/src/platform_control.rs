//! The decisions behind the macOS system controls: whether an accessibility
//! write took effect, which Wi-Fi device the hardware listing names, what an
//! AppleScript failure means, and which command runs an external request.
use vstd::prelude::*;
use crate::error::{AdapterError, ErrorCode};
use crate::menu::split_on;
use crate::node::SnapshotSurface;
use crate::system::{AppearanceRequest, ExternalKind, ExternalRequest};
use crate::text::{
    chars_of, ends_with, has_prefix, has_substring, has_suffix, owned, starts_with, str_contains, str_eq,
    string_of_range, trim, trimmed,
};

verus! {

/// The view of an optional string slice.
pub open spec fn opt_view(o: Option<&str>) -> Option<Seq<char>> {
    match o {
        Some(s) => Some(s@),
        None => None,
    }
}

/// Attributes whose boolean state the element reports back, so that a write
/// to them is confirmed by reading it again.
pub open spec fn read_back_attribute(attr: Seq<char>) -> bool {
    attr == "AXExpanded"@ || attr == "AXDisclosing"@ || attr == "AXSelected"@ || attr == "AXFocused"@
}

/// Whether writing the boolean `expected` to `attr` took effect, given what
/// was read back: trusted for other attributes, confirmed by the read-back
/// for the stateful ones.
pub fn bool_write_had_effect(attr: &str, expected: bool, observed: Option<bool>) -> (r: bool)
    ensures
        r == (!read_back_attribute(attr@) || observed == Some(expected)),
{
    let stateful = str_eq(attr, "AXExpanded") || str_eq(attr, "AXDisclosing") || str_eq(attr, "AXSelected")
        || str_eq(attr, "AXFocused");
    !stateful || observed == Some(expected)
}

/// Whether writing the text `expected` to `attr` took effect. Only a value
/// write to an element that is not a secure text field is checked; it took
/// effect if the read-back equals the text, or, for a numeric control that
/// reformats its value, if `numbers_agree` (both parse as the same number).
pub fn dynamic_write_had_effect(
    attr: &str,
    role: Option<&str>,
    expected: &str,
    observed: Option<&str>,
    numbers_agree: bool,
) -> (r: bool)
    ensures
        r == (attr@ != "AXValue"@ || opt_view(role) == Some("AXSecureTextField"@) || opt_view(observed)
            == Some(expected@) || numbers_agree),
{
    if !str_eq(attr, "AXValue") {
        return true;
    }
    let secure = match role {
        Some(ro) => str_eq(ro, "AXSecureTextField"),
        None => false,
    };
    if secure {
        return true;
    }
    let same = match observed {
        Some(o) => str_eq(o, expected),
        None => false,
    };
    same || numbers_agree
}

/// A line without the carriage return that ended it.
pub open spec fn strip_cr(p: Seq<char>) -> Seq<char> {
    if p.len() > 0 && p.last() == '\r' {
        p.drop_last()
    } else {
        p
    }
}

/// The lines of a text (what `str::lines` yields): split at `\n`, each line
/// that a `\n` ends without a `\r` before it, and no empty last line after a
/// final `\n`.
pub open spec fn line_list(s: Seq<char>) -> Seq<Seq<char>> {
    let parts = split_on(s, '\n');
    let full = parts.drop_last().map_values(|p: Seq<char>| strip_cr(p));
    if parts.last().len() == 0 {
        full
    } else {
        full.push(parts.last())
    }
}

/// The lines of `s`, as `str::lines` yields them.
pub fn text_lines(s: &str) -> (r: Vec<String>)
    ensures
        r.deep_view() == line_list(s@),
{
    let cs = chars_of(s);
    let mut out: Vec<String> = Vec::new();
    let mut start: usize = 0;
    let mut i: usize = 0;
    let ghost mut done: Seq<Seq<char>> = Seq::empty();
    proof {
        assert(cs@.take(0) =~= Seq::<char>::empty());
        assert(split_on(Seq::<char>::empty(), '\n') =~= done.push(cs@.subrange(0, 0)));
        assert(out.deep_view() =~= done.map_values(|p: Seq<char>| strip_cr(p)));
    }
    while i < cs.len()
        invariant
            cs@ == s@,
            start <= i <= cs.len(),
            split_on(cs@.take(i as int), '\n') == done.push(cs@.subrange(start as int, i as int)),
            out.deep_view() == done.map_values(|p: Seq<char>| strip_cr(p)),
        decreases cs.len() - i,
    {
        let ghost prev = cs@.take(i as int);
        proof {
            assert(cs@.take(i + 1).drop_last() =~= prev);
            assert(cs@.take(i + 1).last() == cs@[i as int]);
        }
        if cs[i] == '\n' {
            let end: usize = if i > start && cs[i - 1] == '\r' {
                i - 1
            } else {
                i
            };
            let piece = string_of_range(&cs, start, end);
            let ghost before = out.deep_view();
            out.push(piece);
            proof {
                let p = cs@.subrange(start as int, i as int);
                assert(strip_cr(p) =~= cs@.subrange(start as int, end as int));
                assert(done.push(p).map_values(|q: Seq<char>| strip_cr(q)) =~= before.push(strip_cr(p)));
                assert(out.deep_view() =~= before.push(strip_cr(p)));
                assert(done.push(p).drop_last() =~= done);
                done = done.push(p);
                assert(cs@.subrange(i + 1, i + 1) =~= Seq::<char>::empty());
            }
            start = i + 1;
        } else {
            proof {
                assert(cs@.subrange(start as int, i + 1) =~= cs@.subrange(start as int, i as int).push(cs@[i as int]));
                assert(done.push(cs@.subrange(start as int, i as int)).update(
                    done.len() as int,
                    cs@.subrange(start as int, i + 1),
                ) =~= done.push(cs@.subrange(start as int, i + 1)));
            }
        }
        i = i + 1;
    }
    proof {
        assert(cs@.take(i as int) =~= s@);
        assert(done.push(cs@.subrange(start as int, i as int)).drop_last() =~= done);
    }
    if start < cs.len() {
        let piece = string_of_range(&cs, start, cs.len());
        let ghost before = out.deep_view();
        out.push(piece);
        assert(out.deep_view() =~= before.push(cs@.subrange(start as int, i as int)));
    }
    out
}

/// The device named in the hardware-port listing for the first Wi-Fi (or
/// AirPort) port: after a line naming such a port, the first `Device: ` line
/// before a blank line gives the device, trimmed. A blank line ends the
/// port's block; a header met inside a block is not a new header.
pub open spec fn scan_device(lines: Seq<Seq<char>>, in_block: bool) -> Option<Seq<char>>
    decreases lines.len(),
{
    if lines.len() == 0 {
        None
    } else {
        let l = lines[0];
        if !in_block {
            scan_device(lines.drop_first(), has_substring(l, "Wi-Fi"@) || has_substring(l, "AirPort"@))
        } else if has_prefix(l, "Device: "@) {
            Some(trimmed(l.skip(8)))
        } else if trimmed(l).len() == 0 {
            scan_device(lines.drop_first(), false)
        } else {
            scan_device(lines.drop_first(), true)
        }
    }
}

/// The Wi-Fi device named by a `networksetup -listallhardwareports` listing.
pub fn wifi_device_from_listing(listing: &str) -> (r: Result<String, AdapterError>)
    ensures
        match scan_device(line_list(listing@), false) {
            Some(d) => r matches Ok(s) && s@ == d,
            None => r matches Err(e) && e.code == ErrorCode::ActionFailed && e.message@
                == "no Wi-Fi device found"@ && e.suggestion is None && e.platform_detail is None,
        },
{
    let lines = text_lines(listing);
    let ghost ls = lines.deep_view();
    let mut in_block = false;
    let mut i: usize = 0;
    assert(ls.skip(0) =~= ls);
    while i < lines.len()
        invariant
            i <= lines.len(),
            ls == lines.deep_view(),
            ls == line_list(listing@),
            scan_device(ls, false) == scan_device(ls.skip(i as int), in_block),
        decreases lines.len() - i,
    {
        assert(ls.skip(i as int)[0] == lines@[i as int]@);
        assert(ls.skip(i as int).drop_first() =~= ls.skip(i + 1));
        let line = lines[i].as_str();
        if !in_block {
            in_block = str_contains(line, "Wi-Fi") || str_contains(line, "AirPort");
        } else {
            if starts_with(line, "Device: ") {
                let cs = chars_of(line);
                proof {
                    reveal_strlit("Device: ");
                }
                let rest = string_of_range(&cs, 8, cs.len());
                assert(rest@ =~= line@.skip(8));
                return Ok(trim(rest.as_str()));
            }
            let t = trim(line);
            if t.as_str().is_empty() {
                in_block = false;
            }
        }
        i = i + 1;
    }
    Err(AdapterError::new(ErrorCode::ActionFailed, "no Wi-Fi device found"))
}

/// Whether `networksetup -getairportpower` reports the power as on: its
/// trimmed output ends in `On`.
pub fn airport_power_on(output: &str) -> (r: bool)
    ensures
        r == has_suffix(trimmed(output@), "On"@),
{
    let t = trim(output);
    ends_with(t.as_str(), "On")
}

/// The error for a failed `networksetup` run, carrying its error output.
pub fn networksetup_failure(stderr: &str) -> (r: AdapterError)
    ensures
        r.code == ErrorCode::ActionFailed,
        r.message@ == "networksetup failed"@,
        r.suggestion is None,
        r.platform_detail matches Some(d) && d@ == stderr@,
{
    AdapterError {
        code: ErrorCode::ActionFailed,
        message: owned("networksetup failed"),
        suggestion: None,
        platform_detail: Some(owned(stderr)),
    }
}

/// An AppleScript failure is a permission problem when its error output
/// says the caller is not authorized (error -1743).
pub open spec fn osa_permission_problem(stderr: Seq<char>) -> bool {
    has_substring(stderr, "Not authorized"@) || has_substring(stderr, "-1743"@)
}

/// The error for a failed `osascript` run: a permission error when the
/// output says so, else a failed action; either way with the error output
/// and advice on granting Automation permission.
pub fn osa_failure(stderr: &str) -> (r: AdapterError)
    ensures
        r.code == (if osa_permission_problem(stderr@) {
            ErrorCode::PermDenied
        } else {
            ErrorCode::ActionFailed
        }),
        r.message@ == "osascript failed"@,
        r.platform_detail matches Some(d) && d@ == stderr@,
        r.suggestion matches Some(s) && s@
            == "Grant Automation permission for your terminal in System Settings > Privacy & Security > Automation"@,
{
    let code = if str_contains(stderr, "Not authorized") || str_contains(stderr, "-1743") {
        ErrorCode::PermDenied
    } else {
        ErrorCode::ActionFailed
    };
    AdapterError {
        code,
        message: owned("osascript failed"),
        suggestion: Some(
            owned(
                "Grant Automation permission for your terminal in System Settings > Privacy & Security > Automation",
            ),
        ),
        platform_detail: Some(owned(stderr)),
    }
}

/// The script that reads the dark-mode setting.
pub open spec fn read_dark_script() -> Seq<char> {
    "tell application \"System Events\" to tell appearance preferences to get dark mode"@
}

/// The script that sets dark mode to `value_expr` and reads it back.
pub open spec fn set_dark_script(value_expr: Seq<char>) -> Seq<char> {
    "tell application \"System Events\"\ntell appearance preferences\nset dark mode to "@ + value_expr
        + "\nreturn dark mode\nend tell\nend tell"@
}

/// The AppleScript that carries out an appearance request.
pub fn appearance_script(req: AppearanceRequest) -> (r: String)
    ensures
        r@ == match req {
            AppearanceRequest::Get => read_dark_script(),
            AppearanceRequest::SetDark(v) => set_dark_script(
                if v {
                    "true"@
                } else {
                    "false"@
                },
            ),
            AppearanceRequest::Toggle => set_dark_script("not dark mode"@),
        },
{
    let expr = match req {
        AppearanceRequest::Get => {
            return owned("tell application \"System Events\" to tell appearance preferences to get dark mode");
        },
        AppearanceRequest::SetDark(v) => if v {
            "true"
        } else {
            "false"
        },
        AppearanceRequest::Toggle => "not dark mode",
    };
    let mut s = owned("tell application \"System Events\"\ntell appearance preferences\nset dark mode to ");
    crate::text::append_str(&mut s, expr);
    crate::text::append_str(&mut s, "\nreturn dark mode\nend tell\nend tell");
    s
}

/// Whether a script's output reports dark mode as on: its trimmed output
/// is `true`.
pub fn dark_from_output(output: &str) -> (r: bool)
    ensures
        r == (trimmed(output@) == "true"@),
{
    let t = trim(output);
    str_eq(t.as_str(), "true")
}

/// A program and its arguments.
#[derive(Debug)]
pub struct CommandLine {
    pub program: &'static str,
    pub args: Vec<String>,
}

/// The command that carries out an external request: `sh -c` for shell,
/// `osascript -e` for AppleScript, `osascript -l JavaScript -e` for JXA, and
/// `open` for URLs and paths, each with the payload as last argument.
pub fn external_command(req: &ExternalRequest) -> (r: CommandLine)
    ensures
        match req.kind {
            ExternalKind::Shell => r.program@ == "sh"@ && r.args.deep_view() == seq!["-c"@, req.payload@],
            ExternalKind::AppleScript => r.program@ == "osascript"@ && r.args.deep_view() == seq![
                "-e"@,
                req.payload@,
            ],
            ExternalKind::Jxa => r.program@ == "osascript"@ && r.args.deep_view() == seq![
                "-l"@,
                "JavaScript"@,
                "-e"@,
                req.payload@,
            ],
            ExternalKind::OpenUrl | ExternalKind::OpenPath => r.program@ == "open"@ && r.args.deep_view()
                == seq![req.payload@],
        },
{
    let payload = req.payload.clone();
    match req.kind {
        ExternalKind::Shell => {
            let args = vec![owned("-c"), payload];
            assert(args.deep_view() =~= seq!["-c"@, req.payload@]);
            CommandLine { program: "sh", args }
        },
        ExternalKind::AppleScript => {
            let args = vec![owned("-e"), payload];
            assert(args.deep_view() =~= seq!["-e"@, req.payload@]);
            CommandLine { program: "osascript", args }
        },
        ExternalKind::Jxa => {
            let args = vec![owned("-l"), owned("JavaScript"), owned("-e"), payload];
            assert(args.deep_view() =~= seq!["-l"@, "JavaScript"@, "-e"@, req.payload@]);
            CommandLine { program: "osascript", args }
        },
        ExternalKind::OpenUrl | ExternalKind::OpenPath => {
            let args = vec![payload];
            assert(args.deep_view() =~= seq![req.payload@]);
            CommandLine { program: "open", args }
        },
    }
}

/// The error for a surface that a process does not currently show, by
/// surface; the window surface is the application element itself and is
/// always there.
pub open spec fn missing_surface(surface: SnapshotSurface) -> Option<(ErrorCode, Seq<char>)> {
    match surface {
        SnapshotSurface::Window => None,
        SnapshotSurface::Focused => Some((ErrorCode::Internal, "No focused surface found"@)),
        SnapshotSurface::Menu => Some((ErrorCode::ElementNotFound, "No open context menu"@)),
        SnapshotSurface::Menubar => Some((ErrorCode::ElementNotFound, "No menu bar found"@)),
        SnapshotSurface::ExtrasMenubar => Some((ErrorCode::ElementNotFound, "No extras menu bar found"@)),
        SnapshotSurface::Dock => Some((ErrorCode::ElementNotFound, "No dock list element found"@)),
        SnapshotSurface::Sheet => Some((ErrorCode::ElementNotFound, "No open sheet"@)),
        SnapshotSurface::Popover => Some((ErrorCode::ElementNotFound, "No visible popover"@)),
        SnapshotSurface::Alert => Some((ErrorCode::ElementNotFound, "No open alert or dialog"@)),
    }
}

/// The error reported when the root element of `surface` cannot be found.
pub fn missing_surface_error(surface: SnapshotSurface) -> (r: Option<AdapterError>)
    ensures
        match missing_surface(surface) {
            None => r is None,
            Some((code, message)) => r matches Some(e) && e.code == code && e.message@ == message
                && e.suggestion is None && e.platform_detail is None,
        },
{
    let (code, message): (ErrorCode, &str) = match surface {
        SnapshotSurface::Window => return None,
        SnapshotSurface::Focused => (ErrorCode::Internal, "No focused surface found"),
        SnapshotSurface::Menu => (ErrorCode::ElementNotFound, "No open context menu"),
        SnapshotSurface::Menubar => (ErrorCode::ElementNotFound, "No menu bar found"),
        SnapshotSurface::ExtrasMenubar => (ErrorCode::ElementNotFound, "No extras menu bar found"),
        SnapshotSurface::Dock => (ErrorCode::ElementNotFound, "No dock list element found"),
        SnapshotSurface::Sheet => (ErrorCode::ElementNotFound, "No open sheet"),
        SnapshotSurface::Popover => (ErrorCode::ElementNotFound, "No visible popover"),
        SnapshotSurface::Alert => (ErrorCode::ElementNotFound, "No open alert or dialog"),
    };
    Some(AdapterError::new(code, message))
}

} // verus!
