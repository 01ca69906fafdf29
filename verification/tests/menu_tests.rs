use agent_desktop::error::ErrorCode;
use agent_desktop::menu::parse_path;
use agent_desktop::menu_bar::{
    join_titles, list_menu_paths, press_step, resolve_menu_path, select_menu_target, sibling_titles,
    unwrap_menu, MenuElement, PressStep, AX_CANNOT_COMPLETE, AX_SUCCESS,
};

#[test]
fn menu_splits_and_trims_segments() {
    assert_eq!(
        parse_path("Format > Make Plain Text"),
        vec!["Format".to_string(), "Make Plain Text".to_string()]
    );
}

#[test]
fn menu_single_segment_is_kept() {
    assert_eq!(parse_path("File"), vec!["File".to_string()]);
}

#[test]
fn menu_tests_splits_and_trims_segments() {
    assert_eq!(
        parse_path("Format > Make Plain Text"),
        vec!["Format".to_string(), "Make Plain Text".to_string()]
    );
}

#[test]
fn menu_tests_single_segment_is_kept() {
    assert_eq!(parse_path("File"), vec!["File".to_string()]);
}

#[test]
fn parse_path_drops_empty_segments() {
    assert_eq!(parse_path(" > File >  > Save As… > "), vec!["File".to_string(), "Save As…".to_string()]);
    assert!(parse_path("   ").is_empty());
}

fn el(id: u64, role: &str, title: Option<&str>, children: Vec<MenuElement>) -> MenuElement {
    MenuElement {
        id,
        role: Some(role.to_string()),
        title: title.map(String::from),
        enabled: None,
        children,
    }
}

fn app() -> MenuElement {
    let save = MenuElement {
        enabled: Some(false),
        ..el(11, "AXMenuItem", Some("Save"), vec![])
    };
    let file_menu = el(
        10,
        "AXMenu",
        None,
        vec![
            el(12, "AXMenuItem", Some("Open"), vec![]),
            save,
            el(13, "AXMenuItem", Some(""), vec![]),
            el(
                14,
                "AXMenuItem",
                Some("Recent"),
                vec![el(15, "AXMenu", None, vec![el(16, "AXMenuItem", Some("a.txt"), vec![])])],
            ),
        ],
    );
    let file = el(2, "AXMenuBarItem", Some("File"), vec![file_menu]);
    let edit = el(3, "AXMenuBarItem", Some("Edit"), vec![el(20, "AXMenuItem", Some("Undo"), vec![])]);
    let untitled = el(4, "AXMenuBarItem", None, vec![el(21, "AXMenuItem", Some("Hidden"), vec![])]);
    let bar = el(1, "AXMenuBar", None, vec![file, edit, untitled]);
    el(0, "AXApplication", Some("App"), vec![el(99, "AXWindow", Some("Doc"), vec![]), bar])
}

fn path(parts: &[&str]) -> Vec<String> {
    parts.iter().map(|s| s.to_string()).collect()
}

#[test]
fn resolve_follows_menus_through_submenus() {
    let a = app();
    assert_eq!(resolve_menu_path(&a, &path(&["File", "Open"])).unwrap().id, 12);
    assert_eq!(resolve_menu_path(&a, &path(&["File", "Recent", "a.txt"])).unwrap().id, 16);
    assert_eq!(resolve_menu_path(&a, &path(&["Edit"])).unwrap().id, 3);
}

#[test]
fn resolve_reports_missing_segment_with_alternatives() {
    let a = app();
    let err = resolve_menu_path(&a, &path(&["File", "Print"])).unwrap_err();
    assert_eq!(err.code, ErrorCode::ElementNotFound);
    assert_eq!(err.message, "Menu segment 'Print' not found");
    assert_eq!(err.suggestion.as_deref(), Some("Available at this level: Open, Save, Recent"));
}

#[test]
fn resolve_rejects_empty_path_and_missing_menu_bar() {
    let a = app();
    let err = resolve_menu_path(&a, &Vec::new()).unwrap_err();
    assert_eq!(err.code, ErrorCode::InvalidArgs);
    assert_eq!(err.message, "Empty menu path");

    let bare = el(0, "AXApplication", None, vec![]);
    let err = resolve_menu_path(&bare, &path(&["File"])).unwrap_err();
    assert_eq!(err.code, ErrorCode::ElementNotFound);
    assert_eq!(err.message, "Application has no menu bar");
    assert!(err.suggestion.is_some());
    let err = list_menu_paths(&bare).unwrap_err();
    assert_eq!(err.message, "Application has no menu bar");
    assert!(err.suggestion.is_none());
}

#[test]
fn disabled_items_are_not_selected() {
    let a = app();
    let err = select_menu_target(&a, &path(&["File", "Save"])).unwrap_err();
    assert_eq!(err.code, ErrorCode::ActionFailed);
    assert_eq!(err.message, "Menu item is disabled");
    assert_eq!(select_menu_target(&a, &path(&["File", "Open"])).unwrap().id, 12);
}

#[test]
fn list_menu_paths_names_each_titled_item() {
    let a = app();
    assert_eq!(
        list_menu_paths(&a).unwrap(),
        path(&["File > Open", "File > Save", "File > Recent", "Edit > Undo"])
    );
}

#[test]
fn menu_helpers_unwrap_and_join() {
    let a = app();
    let bar = &a.children[1];
    let file_items = unwrap_menu(&bar.children[0].children);
    assert_eq!(file_items.len(), 4);
    assert_eq!(unwrap_menu(&bar.children[1].children).len(), 1);
    let titles = sibling_titles(file_items);
    assert_eq!(titles, path(&["Open", "Save", "Recent"]));
    assert_eq!(join_titles(&titles), "Open, Save, Recent");
    assert_eq!(join_titles(&Vec::new()), "");
}

#[test]
fn press_policy_retries_only_incomplete_presses() {
    assert!(matches!(press_step(0, AX_SUCCESS), PressStep::Pressed));
    match press_step(0, -25200) {
        PressStep::Failed(e) => {
            assert_eq!(e.code, ErrorCode::ActionFailed);
            assert_eq!(e.platform_detail.as_deref(), Some("AXError -25200"));
        }
        other => panic!("unexpected {other:?}"),
    }
    assert!(matches!(press_step(0, AX_CANNOT_COMPLETE), PressStep::WaitThenRetry(50)));
    assert!(matches!(press_step(1, AX_CANNOT_COMPLETE), PressStep::WaitThenRetry(100)));
    match press_step(2, AX_CANNOT_COMPLETE) {
        PressStep::WaitThenFail(150, e) => {
            assert_eq!(e.code, ErrorCode::Timeout);
            assert_eq!(e.message, "Menu item press did not complete");
        }
        other => panic!("unexpected {other:?}"),
    }
}

#[test]
fn every_listed_path_selects_its_item() {
    let a = app();
    for line in list_menu_paths(&a).unwrap() {
        let segments = parse_path(&line);
        assert_eq!(segments.len(), 2, "{line}");
        let item = resolve_menu_path(&a, &segments).unwrap();
        assert_eq!(item.title.as_deref(), Some(segments[1].as_str()));
    }
}

#[test]
fn parsed_segments_join_and_parse_back() {
    for raw in ["Format > Make Plain Text", " File >> Save  As >", "View>Zoom>  In ", "", "Help"] {
        let segments = parse_path(raw);
        assert!(segments.iter().all(|s| !s.is_empty() && s.trim() == s && !s.contains('>')));
        assert_eq!(parse_path(&segments.join(" > ")), segments, "{raw}");
    }
}
