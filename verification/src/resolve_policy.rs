//! The retry policy for finding the live element a saved ref points to:
//! which search to try, when to wait and try again, and when to give up.
//! What the searches find, and what the ref's identity allows, come in as
//! plain values.
use vstd::prelude::*;
use crate::error::{AdapterError, ErrorCode};

verus! {

/// How many times the element is looked for before the ref counts as stale.
pub const RESOLVE_ATTEMPTS: u32 = 4;

/// What a saved ref records that decides how its element may be searched.
#[derive(Debug, Clone, Copy)]
pub struct RefHints {
    /// The ref hangs off another ref's element.
    pub has_root_ref: bool,
    /// Its path is absolute even though it hangs off another ref.
    pub path_is_absolute: bool,
    /// It recorded a path from its window.
    pub has_path: bool,
    /// It recorded a hash of its bounds.
    pub has_bounds_hash: bool,
    /// Its source window's number is known.
    pub has_source_window_number: bool,
    /// Its source window must be matched for a path search to count.
    pub source_window_scope_required: bool,
    /// Its role, name or description identify it well enough to search for.
    pub meaningful_identity: bool,
}

/// The path search applies: the path is usable from the window and a bounds
/// hash or the source window's number can confirm the element.
pub open spec fn path_fast_path(h: RefHints) -> bool {
    (!h.has_root_ref || h.path_is_absolute) && h.has_path && (h.has_bounds_hash || h.has_source_window_number)
}

/// Only the path search may be used: a window-scoped path without a bounds
/// hash.
pub open spec fn scoped_path_only(h: RefHints) -> bool {
    (!h.has_root_ref || h.path_is_absolute) && !h.has_bounds_hash && h.has_path && h.source_window_scope_required
}

/// The search over the whole tree applies: the element has a bounds hash or
/// a meaningful identity.
pub open spec fn broad_search(h: RefHints) -> bool {
    h.has_bounds_hash || h.meaningful_identity
}

/// Whether the path search applies to a ref.
pub fn can_use_path_fast_path(h: &RefHints) -> (r: bool)
    ensures
        r == path_fast_path(*h),
{
    (!h.has_root_ref || h.path_is_absolute) && h.has_path && (h.has_bounds_hash || h.has_source_window_number)
}

/// Whether a ref may only be found by its path.
pub fn requires_scoped_path_resolution(h: &RefHints) -> (r: bool)
    ensures
        r == scoped_path_only(*h),
{
    (!h.has_root_ref || h.path_is_absolute) && !h.has_bounds_hash && h.has_path && h.source_window_scope_required
}

/// Whether the search over the whole tree applies to a ref.
pub fn can_use_broad_search(h: &RefHints) -> (r: bool)
    ensures
        r == broad_search(*h),
{
    h.has_bounds_hash || h.meaningful_identity
}

/// A search that did not find the element may be tried again: only an
/// element that was not found is retried; other failures are final.
pub fn is_retryable_resolution_error(err: &AdapterError) -> (r: bool)
    ensures
        r == (err.code == ErrorCode::ElementNotFound),
{
    err.code == ErrorCode::ElementNotFound
}

/// Which search a step runs.
#[derive(Debug, Clone, Copy, PartialEq, Eq, Structural)]
pub enum SearchKind {
    Path,
    Broad,
}

/// What the resolver does next.
#[derive(Debug)]
pub enum ResolveStep {
    /// Run this search in the current attempt.
    Search(SearchKind),
    /// Wait briefly, then begin the next attempt.
    WaitThenRetry,
    /// Begin the next attempt at once (after the last one: give up).
    NextAttempt,
    /// The element was found.
    Found,
    /// A search failed for good.
    Fail(AdapterError),
}

/// The end of an attempt: wait before another unless it was the last.
pub open spec fn end_of_attempt(attempt: u32) -> ResolveStep {
    if attempt + 1 < RESOLVE_ATTEMPTS {
        ResolveStep::WaitThenRetry
    } else {
        ResolveStep::NextAttempt
    }
}

/// What follows once the path search is done or does not apply.
pub open spec fn after_path(h: RefHints, attempt: u32) -> ResolveStep {
    if path_fast_path(h) && scoped_path_only(h) {
        end_of_attempt(attempt)
    } else if !broad_search(h) {
        end_of_attempt(attempt)
    } else {
        ResolveStep::Search(SearchKind::Broad)
    }
}

fn end_of_attempt_step(attempt: u32) -> (r: ResolveStep)
    ensures
        r == end_of_attempt(attempt),
{
    if attempt < RESOLVE_ATTEMPTS - 1 {
        ResolveStep::WaitThenRetry
    } else {
        ResolveStep::NextAttempt
    }
}

fn after_path_step(h: &RefHints, attempt: u32) -> (r: ResolveStep)
    ensures
        r == after_path(*h, attempt),
{
    if (can_use_path_fast_path(h) && requires_scoped_path_resolution(h)) || !can_use_broad_search(h) {
        end_of_attempt_step(attempt)
    } else {
        ResolveStep::Search(SearchKind::Broad)
    }
}

/// The first step of an attempt: the path search when it applies, else
/// what follows it.
pub fn attempt_start(h: &RefHints, attempt: u32) -> (r: ResolveStep)
    ensures
        path_fast_path(*h) ==> r == ResolveStep::Search(SearchKind::Path),
        !path_fast_path(*h) ==> r == after_path(*h, attempt),
{
    if can_use_path_fast_path(h) {
        ResolveStep::Search(SearchKind::Path)
    } else {
        after_path_step(h, attempt)
    }
}

/// The step after a search of kind `kind` in attempt `attempt` ended with
/// `outcome`: a find ends the resolution; a failure other than "not found"
/// is final; "not found" moves on to the broad search (after a path search
/// that does not settle the ref) or to the end of the attempt.
pub fn after_search(h: &RefHints, attempt: u32, kind: SearchKind, outcome: Result<(), AdapterError>) -> (r: ResolveStep)
    ensures
        match outcome {
            Ok(()) => r is Found,
            Err(e) => if e.code != ErrorCode::ElementNotFound {
                r == ResolveStep::Fail(e)
            } else if kind == SearchKind::Path {
                r == after_path(*h, attempt)
            } else {
                r == end_of_attempt(attempt)
            },
        },
{
    match outcome {
        Ok(()) => ResolveStep::Found,
        Err(e) => {
            if !is_retryable_resolution_error(&e) {
                ResolveStep::Fail(e)
            } else if kind == SearchKind::Path {
                after_path_step(h, attempt)
            } else {
                end_of_attempt_step(attempt)
            }
        },
    }
}

/// What `{:?}` prints for the string `s`: std's `Debug` form of a `str`,
/// which quotes it and escapes what it must.
pub uninterp spec fn debug_quoted(s: Seq<char>) -> Seq<char>;

/// Formats `s` with std's `Debug` for `str` (`format!("{:?}", s)`). The
/// contract says only that the result is the `Debug` form of `s`, named
/// `debug_quoted`; which characters std escapes is not restated.
#[verifier::external_body]
fn quote_debug(s: &str) -> (r: String)
    ensures
        r@ == debug_quoted(s@),
{
    format!("{:?}", s)
}

/// A recorded name or description, or `(none)` when nothing was recorded.
pub open spec fn recorded_or_none(v: Option<Seq<char>>) -> Seq<char> {
    match v {
        Some(s) => s,
        None => "(none)"@,
    }
}

/// The message of a stale ref whose element has role `role` and the given
/// name and description, each quoted in `Debug` form.
pub open spec fn stale_ref_message(role: Seq<char>, name: Option<Seq<char>>, description: Option<Seq<char>>) -> Seq<
    char,
> {
    "Element not found: role="@ + role + ", name="@ + debug_quoted(recorded_or_none(name)) + ", description="@
        + debug_quoted(recorded_or_none(description))
}

/// The error once every attempt failed to find the element recorded with
/// `role`, `name` and `description`.
pub fn stale_ref_error(role: &str, name: Option<&str>, description: Option<&str>) -> (r: AdapterError)
    ensures
        r.code == ErrorCode::StaleRef,
        r.message@ == stale_ref_message(
            role@,
            match name {
                Some(n) => Some(n@),
                None => None,
            },
            match description {
                Some(d) => Some(d@),
                None => None,
            },
        ),
        r.suggestion matches Some(s) && s@ == "Run 'snapshot' to refresh, then retry with the updated ref."@,
        r.platform_detail is None,
{
    let name_text = match name {
        Some(n) => quote_debug(n),
        None => quote_debug("(none)"),
    };
    let description_text = match description {
        Some(d) => quote_debug(d),
        None => quote_debug("(none)"),
    };
    proof {
        reveal_strlit("(none)");
    }
    let mut message = crate::text::owned("Element not found: role=");
    crate::text::append_str(&mut message, role);
    crate::text::append_str(&mut message, ", name=");
    crate::text::append_str(&mut message, name_text.as_str());
    crate::text::append_str(&mut message, ", description=");
    crate::text::append_str(&mut message, description_text.as_str());
    AdapterError {
        code: ErrorCode::StaleRef,
        message,
        suggestion: Some(crate::text::owned("Run 'snapshot' to refresh, then retry with the updated ref.")),
        platform_detail: None,
    }
}

} // verus!
