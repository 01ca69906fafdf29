use agent_desktop::error::{AdapterError, ErrorCode};
use agent_desktop::resolve_policy::{
    after_search, attempt_start, can_use_broad_search, can_use_path_fast_path, is_retryable_resolution_error,
    requires_scoped_path_resolution, stale_ref_error, RefHints, ResolveStep, SearchKind, RESOLVE_ATTEMPTS,
};

fn hints() -> RefHints {
    RefHints {
        has_root_ref: false,
        path_is_absolute: false,
        has_path: true,
        has_bounds_hash: true,
        has_source_window_number: false,
        source_window_scope_required: false,
        meaningful_identity: false,
    }
}

fn not_found() -> AdapterError {
    AdapterError::new(ErrorCode::ElementNotFound, "missing")
}

/// Runs the policy with searches that answer from `answers`, returning the
/// searches asked for, how many waits there were, and the outcome.
fn drive(h: RefHints, mut answer: impl FnMut(SearchKind) -> Result<(), AdapterError>) -> (Vec<SearchKind>, u32, Result<(), AdapterError>) {
    let mut searches = Vec::new();
    let mut waits = 0;
    for attempt in 0..RESOLVE_ATTEMPTS {
        let mut step = attempt_start(&h, attempt);
        loop {
            match step {
                ResolveStep::Search(kind) => {
                    searches.push(kind);
                    step = after_search(&h, attempt, kind, answer(kind));
                }
                ResolveStep::Found => return (searches, waits, Ok(())),
                ResolveStep::Fail(e) => return (searches, waits, Err(e)),
                ResolveStep::WaitThenRetry => {
                    waits += 1;
                    break;
                }
                ResolveStep::NextAttempt => break,
            }
        }
    }
    (searches, waits, Err(stale_ref_error("AXButton", Some("Save"), None)))
}

#[test]
fn predicates_follow_the_recorded_identity() {
    let h = hints();
    assert!(can_use_path_fast_path(&h));
    assert!(!requires_scoped_path_resolution(&h));
    assert!(can_use_broad_search(&h));
    let rooted = RefHints { has_root_ref: true, ..hints() };
    assert!(!can_use_path_fast_path(&rooted));
    let scoped = RefHints { has_bounds_hash: false, has_source_window_number: true, source_window_scope_required: true, ..hints() };
    assert!(can_use_path_fast_path(&scoped) && requires_scoped_path_resolution(&scoped));
    assert!(!can_use_broad_search(&RefHints { has_bounds_hash: false, ..hints() }));
    assert!(is_retryable_resolution_error(&not_found()));
    assert!(!is_retryable_resolution_error(&AdapterError::new(ErrorCode::Timeout, "t")));
}

#[test]
fn path_miss_falls_back_to_broad_search() {
    let (searches, waits, out) = drive(hints(), |k| if k == SearchKind::Broad { Ok(()) } else { Err(not_found()) });
    assert!(out.is_ok());
    assert_eq!(searches, vec![SearchKind::Path, SearchKind::Broad]);
    assert_eq!(waits, 0);
}

#[test]
fn scoped_refs_never_use_broad_search_and_go_stale() {
    let scoped = RefHints { has_bounds_hash: false, has_source_window_number: true, source_window_scope_required: true, meaningful_identity: true, ..hints() };
    let (searches, waits, out) = drive(scoped, |_| Err(not_found()));
    assert_eq!(searches, vec![SearchKind::Path; 4]);
    assert_eq!(waits, 3);
    let e = out.unwrap_err();
    assert_eq!(e.code, ErrorCode::StaleRef);
    assert!(e.suggestion.is_some());
}

#[test]
fn hard_failures_end_resolution_at_once() {
    let (searches, _, out) = drive(hints(), |_| Err(AdapterError::new(ErrorCode::Timeout, "deadline")));
    assert_eq!(searches, vec![SearchKind::Path]);
    assert_eq!(out.unwrap_err().code, ErrorCode::Timeout);
}

#[test]
fn refs_without_identity_only_wait() {
    let bare = RefHints { has_path: false, has_bounds_hash: false, ..hints() };
    let (searches, waits, out) = drive(bare, |_| Ok(()));
    assert!(searches.is_empty());
    assert_eq!(waits, 3);
    assert!(out.is_err());
}

#[test]
fn stale_ref_message_quotes_recorded_identity() {
    let e = stale_ref_error("AXButton", Some("Save"), None);
    assert_eq!(e.code, ErrorCode::StaleRef);
    assert_eq!(e.message, "Element not found: role=AXButton, name=\"Save\", description=\"(none)\"");
    assert_eq!(
        e.suggestion.as_deref(),
        Some("Run 'snapshot' to refresh, then retry with the updated ref.")
    );
    let quoted = stale_ref_error("AXTextField", Some("say \"hi\""), Some("line\nbreak"));
    assert_eq!(
        quoted.message,
        "Element not found: role=AXTextField, name=\"say \\\"hi\\\"\", description=\"line\\nbreak\""
    );
}
