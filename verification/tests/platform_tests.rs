use agent_desktop::app_inventory::{
    assemble_app_list, find_pid_in_apps, find_pid_with_process_fallback, merge_apps,
    merge_primary_sources, sort_apps,
};
use agent_desktop::error::ErrorCode;
use agent_desktop::node::{AppInfo, WindowFilter, WindowInfo};
use agent_desktop::platform_control::{
    airport_power_on, appearance_script, bool_write_had_effect, dark_from_output,
    dynamic_write_had_effect, external_command, networksetup_failure, osa_failure, text_lines,
    wifi_device_from_listing,
};
use agent_desktop::snapshot::surface_source;
use agent_desktop::system::{AppearanceRequest, ExternalKind, ExternalRequest};
use agent_desktop::window_inventory::{
    accept_ax_window, apps_from_windows, ax_fallback_target, ax_window_info, listing_step,
    matches_app_filter, matches_focused_window, should_retry_empty, visible_apps,
    window_candidates, windows_from_candidates, FocusedWindowIdentity, ListingStep, PidFocus,
    WindowCandidate, WindowRecord,
};
use agent_desktop::snapshot::snapshot_filter;
use agent_desktop::snapshot::app_pid_or_not_found;
use agent_desktop::error::AdapterError;
use agent_desktop::focus_window::{first_listed, focus_observation, FocusObservation};
use agent_desktop::apps::probe_from_listing;

/// Numeric controls read their value back in their own format; both sides
/// are compared as numbers when both parse as numbers.
fn numbers_match(expected: &str, observed: Option<&str>) -> bool {
    match (expected.parse::<f64>(), observed.and_then(|o| o.parse::<f64>().ok())) {
        (Ok(a), Some(b)) => (a - b).abs() < f64::EPSILON,
        _ => false,
    }
}

fn write_had_effect(attr: &str, role: Option<&str>, expected: &str, observed: Option<&str>) -> bool {
    dynamic_write_had_effect(attr, role, expected, observed, numbers_match(expected, observed))
}

#[test]
fn ax_value_write_requires_readback_match() {
    assert!(!write_had_effect("AXValue", Some("AXTextField"), "", Some("unchanged")));
    assert!(write_had_effect("AXValue", Some("AXTextField"), "", Some("")));
}

#[test]
fn non_value_and_secure_writes_trust_ax_success() {
    assert!(write_had_effect("AXSelected", Some("AXCheckBox"), "true", None));
    assert!(write_had_effect("AXValue", Some("AXSecureTextField"), "secret", None));
}

#[test]
fn bool_state_writes_require_readback_match_for_stateful_attrs() {
    assert!(bool_write_had_effect("AXExpanded", true, Some(true)));
    assert!(!bool_write_had_effect("AXExpanded", true, Some(false)));
    assert!(!bool_write_had_effect("AXExpanded", false, None));
    assert!(bool_write_had_effect("AXFoo", true, None));
}

#[test]
fn numeric_value_write_matches_reformatted_readback() {
    assert!(write_had_effect("AXValue", Some("AXSlider"), "50", Some("50.00")));
    assert!(write_had_effect("AXValue", Some("AXIncrementor"), "3", Some("3")));
    assert!(!write_had_effect("AXValue", Some("AXSlider"), "50", Some("12.00")));
}

fn window(app: &str, pid: i32) -> WindowInfo {
    WindowInfo {
        id: format!("w-{pid}"),
        title: app.to_string(),
        app: app.to_string(),
        pid,
        is_focused: false,
    }
}

#[test]
fn apps_from_windows_deduplicates_by_pid() {
    let apps = apps_from_windows(&vec![window("Finder", 10), window("Finder", 10)]);

    assert_eq!(apps.len(), 1);
    assert_eq!(apps[0].name, "Finder");
}

#[test]
fn apps_from_windows_keeps_same_name_with_distinct_pids() {
    let apps = apps_from_windows(&vec![window("Preview", 10), window("Preview", 11)]);

    assert_eq!(apps.len(), 2);
}

#[test]
fn matches_app_filter_accepts_case_insensitive_substring() {
    assert!(matches_app_filter("Docker Desktop", "docker"));
    assert!(!matches_app_filter("Finder", "docker"));
}

#[test]
fn retry_empty_skips_known_missing_app_filter() {
    let filter = WindowFilter {
        app: Some("Missing".to_string()),
        focused_only: false,
    };

    assert!(!should_retry_empty(&filter, None));
}

#[test]
fn retry_empty_allows_known_app_filter_for_ax_race() {
    let filter = WindowFilter {
        app: Some("Mail".to_string()),
        focused_only: false,
    };

    assert!(should_retry_empty(&filter, Some(42)));
}

fn record(layer: i64, pid: i64, owner: Option<&str>, title: Option<&str>, number: i64) -> WindowRecord {
    WindowRecord {
        layer: Some(layer),
        owner_pid: Some(pid),
        owner_name: owner.map(String::from),
        title: title.map(String::from),
        number: Some(number),
    }
}

#[test]
fn visible_apps_skip_other_layers_and_repeated_processes() {
    let records = vec![
        record(25, 1, Some("Dock"), None, 1),
        record(0, 7, None, None, 2),
        record(0, 7, Some("Late"), None, 3),
        record(0, 0, Some("Zero"), None, 4),
        record(0, 9, Some("Mail"), Some("Inbox"), 5),
        record(0, 9, Some("Mail"), Some("Draft"), 6),
        record(0, 11, Some(""), None, 7),
    ];
    let apps = visible_apps(&records);
    assert_eq!(apps.len(), 1);
    assert_eq!(apps[0].name, "Mail");
    assert_eq!(apps[0].pid, 9);
    assert_eq!(apps[0].bundle_id, None);
}

#[test]
fn candidates_use_owner_name_for_untitled_windows() {
    let records = vec![
        record(0, 9, Some("Mail"), Some("Inbox"), 5),
        record(0, 9, Some("Mail"), Some(""), 6),
        record(3, 9, Some("Mail"), Some("Panel"), 7),
        record(0, 4, Some("Finder"), Some("Home"), 8),
        WindowRecord { layer: Some(0), owner_pid: None, owner_name: Some("Orphan".into()), title: None, number: None },
    ];
    let all = window_candidates(&records, &WindowFilter { focused_only: false, app: None });
    assert_eq!(all.len(), 4);
    assert_eq!(all[1].title, "Mail");
    assert_eq!(all[3].pid, 0);
    assert_eq!(all[3].number, 0);
    let mail = window_candidates(&records, &WindowFilter { focused_only: false, app: Some("MA".into()) });
    assert_eq!(mail.len(), 2);
    assert!(mail.iter().all(|c| c.app == "Mail"));
}

fn cand(app: &str, title: &str, pid: i32, number: i64) -> WindowCandidate {
    WindowCandidate { app: app.into(), title: title.into(), pid, number }
}

#[test]
fn focused_window_matches_number_then_unique_title() {
    let by_number = Some(FocusedWindowIdentity { title: Some("Other".into()), number: Some(5) });
    assert!(matches_focused_window("Doc", 5, &by_number, 3));
    assert!(!matches_focused_window("Doc", 6, &by_number, 1));
    let by_title = Some(FocusedWindowIdentity { title: Some("Doc".into()), number: None });
    assert!(matches_focused_window("Doc", 6, &by_title, 1));
    assert!(!matches_focused_window("Doc", 6, &by_title, 2));
    assert!(!matches_focused_window("Doc", 6, &None, 1));
}

#[test]
fn exactly_the_first_matching_window_is_focused() {
    let cands = vec![
        cand("Mail", "Inbox", 9, 5),
        cand("Mail", "Draft", 9, 6),
        cand("Mail", "Draft", 9, 7),
        cand("Notes", "Notes", 4, 8),
    ];
    let focus = vec![
        PidFocus { pid: 9, identity: Some(FocusedWindowIdentity { title: Some("Draft".into()), number: None }) },
        PidFocus { pid: 4, identity: Some(FocusedWindowIdentity { title: None, number: Some(8) }) },
    ];
    let all = windows_from_candidates(&cands, &focus, false);
    assert_eq!(all.len(), 4);
    assert_eq!(all[0].id, "w-5");
    assert_eq!(all.iter().filter(|w| w.is_focused).count(), 1);
    assert!(all[3].is_focused);
    let only = windows_from_candidates(&cands, &focus, true);
    assert_eq!(only.len(), 1);
    assert_eq!(only[0].title, "Notes");
    let none = windows_from_candidates(&cands, &Vec::new(), true);
    assert!(none.is_empty());
    let negative = windows_from_candidates(&vec![cand("A", "T", 1, -3)], &Vec::new(), false);
    assert_eq!(negative[0].id, "w--3");
}

#[test]
fn accessibility_fallback_builds_and_filters_windows() {
    let filter = WindowFilter { focused_only: true, app: Some("Mail".into()) };
    assert_eq!(ax_fallback_target(&filter, Some(9)), Some(("Mail".to_string(), 9)));
    assert_eq!(ax_fallback_target(&filter, None), None);
    assert_eq!(ax_window_info("Mail", 9, Some("AXSheet"), None, None, None).is_none(), true);
    let w = ax_window_info("Mail", 9, Some("AXWindow"), None, Some(12), Some(false)).unwrap();
    assert_eq!(w.id, "w-12");
    assert_eq!(w.title, "Mail");
    assert!(!w.is_focused);
    assert!(accept_ax_window(&filter, Some(w.clone())).is_none());
    let open = WindowFilter { focused_only: false, app: Some("Mail".into()) };
    assert_eq!(accept_ax_window(&open, Some(w)).map(|w| w.id), Some("w-12".to_string()));
}

#[test]
fn listing_retries_only_while_attempts_remain() {
    let w = window("Mail", 9);
    match listing_step(0, vec![w.clone()], None, true) {
        ListingStep::Done(v) => assert_eq!(v.len(), 1),
        ListingStep::Retry => panic!("visible windows end the listing"),
    }
    match listing_step(0, Vec::new(), Some(w), true) {
        ListingStep::Done(v) => assert_eq!(v[0].app, "Mail"),
        ListingStep::Retry => panic!("the fallback window ends the listing"),
    }
    assert!(matches!(listing_step(0, Vec::new(), None, true), ListingStep::Retry));
    assert!(matches!(listing_step(1, Vec::new(), None, true), ListingStep::Retry));
    assert!(matches!(listing_step(2, Vec::new(), None, true), ListingStep::Done(ref v) if v.is_empty()));
    assert!(matches!(listing_step(0, Vec::new(), None, false), ListingStep::Done(ref v) if v.is_empty()));
}

fn app(name: &str, pid: i32, bundle: Option<&str>) -> AppInfo {
    AppInfo { name: name.into(), pid, bundle_id: bundle.map(String::from) }
}

#[test]
fn merge_fills_bundle_ids_and_appends_new_processes() {
    let mut apps = vec![app("Mail", 9, None), app("Finder", 1, Some("com.apple.finder"))];
    merge_apps(
        &mut apps,
        vec![app("Mail", 9, Some("com.apple.mail")), app("Finder", 1, Some("x")), app("Notes", 4, None)],
    );
    assert_eq!(apps.len(), 3);
    assert_eq!(apps[0].bundle_id.as_deref(), Some("com.apple.mail"));
    assert_eq!(apps[1].bundle_id.as_deref(), Some("com.apple.finder"));
    assert_eq!(apps[2].name, "Notes");
    let merged = merge_primary_sources(vec![app("Mail", 9, None)], vec![app("Mail", 9, None), app("Mail", 10, None)]);
    assert_eq!(merged.len(), 2);
}

#[test]
fn sort_orders_by_lowercase_name_then_pid() {
    let mut apps = vec![("safari", 5), ("Mail", 9), ("mail", 3), ("Finder", 1)]
        .into_iter()
        .map(|(n, p)| app(n, p, None))
        .collect::<Vec<_>>();
    sort_apps(&mut apps);
    let order: Vec<(String, i32)> = apps.iter().map(|a| (a.name.clone(), a.pid)).collect();
    assert_eq!(
        order,
        vec![
            ("Finder".to_string(), 1),
            ("mail".to_string(), 3),
            ("Mail".to_string(), 9),
            ("safari".to_string(), 5)
        ]
    );
    let listed = assemble_app_list(Vec::new(), vec![app("b", 2, None), app("a", 1, None), app("b", 2, None)]);
    assert_eq!(listed.len(), 2);
    assert_eq!(listed[0].name, "a");
}

#[test]
fn pid_lookup_prefers_exact_name_then_substring_then_fallback() {
    let apps = vec![app("Google Chrome Helper", 3, None), app("Google Chrome", 2, None)];
    assert_eq!(find_pid_in_apps(&apps, "google chrome"), Some(2));
    assert_eq!(find_pid_in_apps(&apps, "CHROME"), Some(3));
    assert_eq!(find_pid_in_apps(&apps, "Safari"), None);
    assert_eq!(
        find_pid_with_process_fallback(&apps, vec![app("Safari", 8, None)], "safari"),
        Some(8)
    );
    assert_eq!(find_pid_with_process_fallback(&apps, vec![app("Chrome", 8, None)], "chrome"), Some(3));
}

#[test]
fn surface_source_prefers_the_processes_first_window() {
    let windows = vec![window("Mail", 9), WindowInfo { title: "Second".into(), ..window("Mail", 9) }];
    let s = surface_source(&windows, 9, Some("Mail"));
    assert_eq!(s.window_id, "w-9");
    assert_eq!(s.window_title, "Mail");
    let s = surface_source(&windows, 4, Some("Notes"));
    assert!(s.window.is_none());
    assert_eq!(s.window_id, "app-4");
    assert_eq!(s.window_title, "Notes");
    assert_eq!(surface_source(&windows, 4, None).window_title, "");
}

#[test]
fn lines_follow_str_lines() {
    for text in ["", "a", "a\n", "a\r\nb", "a\n\nb\r", "\n", "x\r\n\r\ny\n"] {
        let expected: Vec<String> = text.lines().map(String::from).collect();
        assert_eq!(text_lines(text), expected, "{text:?}");
    }
}

#[test]
fn wifi_device_comes_from_the_wifi_port_block() {
    let listing = "Hardware Port: Ethernet\nDevice: en0\nEthernet Address: x\n\nHardware Port: Wi-Fi\nDevice:  en1 \nEthernet Address: y\n";
    assert_eq!(wifi_device_from_listing(listing).unwrap(), "en1");
    let blank_first = "Hardware Port: AirPort\n\nDevice: en9\n";
    let err = wifi_device_from_listing(blank_first).unwrap_err();
    assert_eq!(err.code, ErrorCode::ActionFailed);
    assert_eq!(err.message, "no Wi-Fi device found");
    assert_eq!(wifi_device_from_listing("Hardware Port: Wi-Fi\r\nDevice: en2\r\n").unwrap(), "en2");
}

#[test]
fn power_and_dark_mode_outputs() {
    assert!(airport_power_on("Wi-Fi Power (en0): On\n"));
    assert!(!airport_power_on("Wi-Fi Power (en0): Off\n"));
    assert!(dark_from_output(" true\n"));
    assert!(!dark_from_output("false"));
    assert!(!dark_from_output("True"));
}

#[test]
fn script_failures_and_scripts() {
    let denied = osa_failure("execution error: Not authorized to send Apple events (-1743)");
    assert_eq!(denied.code, ErrorCode::PermDenied);
    assert_eq!(denied.message, "osascript failed");
    assert!(denied.suggestion.is_some());
    assert_eq!(osa_failure("syntax error").code, ErrorCode::ActionFailed);
    assert_eq!(networksetup_failure("boom").platform_detail.as_deref(), Some("boom"));
    assert_eq!(
        appearance_script(AppearanceRequest::Get),
        "tell application \"System Events\" to tell appearance preferences to get dark mode"
    );
    assert_eq!(
        appearance_script(AppearanceRequest::Toggle),
        "tell application \"System Events\"\ntell appearance preferences\nset dark mode to not dark mode\nreturn dark mode\nend tell\nend tell"
    );
    assert!(appearance_script(AppearanceRequest::SetDark(false)).contains("set dark mode to false\n"));
}

#[test]
fn external_requests_map_to_commands() {
    let req = |kind| ExternalRequest { kind, payload: "p".into(), timeout_ms: None };
    let c = external_command(&req(ExternalKind::Shell));
    assert_eq!((c.program, c.args), ("sh", vec!["-c".to_string(), "p".to_string()]));
    let c = external_command(&req(ExternalKind::Jxa));
    assert_eq!(c.program, "osascript");
    assert_eq!(c.args, vec!["-l", "JavaScript", "-e", "p"]);
    let c = external_command(&req(ExternalKind::AppleScript));
    assert_eq!(c.args, vec!["-e", "p"]);
    let c = external_command(&req(ExternalKind::OpenPath));
    assert_eq!((c.program, c.args), ("open", vec!["p".to_string()]));
}

#[test]
fn listing_filters_are_fixed() {
    let f = snapshot_filter(None, None);
    assert!(f.focused_only && f.app.is_none());
    let f = snapshot_filter(Some("Mail"), None);
    assert!(!f.focused_only);
    assert_eq!(f.app.as_deref(), Some("Mail"));
    assert!(!snapshot_filter(None, Some("w-1")).focused_only);
    let f = WindowFilter::focused_windows(Some("Notes"));
    assert!(f.focused_only);
    assert_eq!(f.app.as_deref(), Some("Notes"));
    let f = WindowFilter::all_windows();
    assert!(!f.focused_only && f.app.is_none());
    let f = WindowFilter::windows_of(&Some("Mail".to_string()));
    assert!(!f.focused_only);
    assert_eq!(f.app.as_deref(), Some("Mail"));
}

#[test]
fn snapshot_of_a_missing_app_is_app_not_found() {
    let apps = vec![app("Mail", 9, None)];
    assert_eq!(app_pid_or_not_found(&apps, "mail").unwrap(), 9);
    let e = app_pid_or_not_found(&apps, "Notes").unwrap_err();
    assert_eq!(e.code(), "APP_NOT_FOUND");
    assert_eq!(e.message(), "No window or process found for app 'Notes'");
}

#[test]
fn focus_observation_falls_back_only_when_unsupported() {
    assert!(matches!(focus_observation(Ok(None)), FocusObservation::Seen(None)));
    assert!(matches!(
        focus_observation(Err(AdapterError::not_supported("focused_window"))),
        FocusObservation::ListFocused
    ));
    assert!(matches!(
        focus_observation(Err(AdapterError::new(ErrorCode::Timeout, "slow"))),
        FocusObservation::Failed(_)
    ));
    assert_eq!(first_listed(Ok(vec![window("Mail", 9), window("Notes", 4)])).unwrap().unwrap().app, "Mail");
    assert!(first_listed(Ok(Vec::new())).unwrap().is_none());
    assert!(first_listed(Err(AdapterError::new(ErrorCode::Timeout, "slow"))).is_err());
}

#[test]
fn probe_reads_the_first_window_of_the_process() {
    let ws = vec![window("Mail", 9), window("Notes", 4)];
    assert_eq!(probe_from_listing(Ok(ws), 4).as_deref(), Some("Notes"));
    assert_eq!(probe_from_listing(Ok(vec![window("Mail", 9)]), 4), None);
    assert_eq!(probe_from_listing(Err(AdapterError::new(ErrorCode::Timeout, "slow")), 4), None);
}
