use agent_desktop::find::{
    count_matches, find_in_tree, search_tree, validate_find_mode, FindArgs, FindOutcome, FindQuery,
    DEFAULT_LIMIT,
};
use agent_desktop::helpers::validate_ref_id;
use agent_desktop::node::AccessibilityNode;
use agent_desktop::search_text;

fn node(name: Option<&str>, value: Option<&str>, description: Option<&str>) -> AccessibilityNode {
    AccessibilityNode {
        ref_id: Some("@e1".into()),
        role: "textfield".into(),
        name: name.map(String::from),
        value: value.map(String::from),
        description: description.map(String::from),
        hint: None,
        states: vec![],
        available_actions: vec![],
        children_count: None,
        children: vec![],
    }
}

fn window(children: Vec<AccessibilityNode>) -> AccessibilityNode {
    AccessibilityNode {
        ref_id: None,
        role: "window".into(),
        name: None,
        value: None,
        description: None,
        hint: None,
        states: vec![],
        available_actions: vec![],
        children_count: None,
        children,
    }
}

fn args() -> FindArgs {
    FindArgs {
        app: None,
        role: None,
        name: None,
        value: None,
        text: None,
        count: false,
        first: false,
        last: false,
        nth: None,
        limit: None,
    }
}

#[test]
fn display_name_prefers_value_before_description() {
    let root = node(None, Some("current value"), Some("help text"));
    let query = FindQuery {
        role: None,
        name: None,
        value: None,
        text: None,
    };
    let mut matches = Vec::new();

    search_tree(&root, &query, &mut Vec::new(), &mut matches, None);

    assert_eq!(matches[0].name, "current value");
}

#[test]
fn search_tree_matches_text_across_fields() {
    let root = node(None, Some("Primary"), Some("Secondary"));
    let query = FindQuery {
        role: None,
        name: None,
        value: None,
        text: Some(search_text::normalize("secondary")),
    };
    let mut matches = Vec::new();

    search_tree(&root, &query, &mut Vec::new(), &mut matches, None);

    assert_eq!(matches.len(), 1);
}

#[test]
fn default_limit_caps_materialized_matches() {
    let root = window(
        (0..60)
            .map(|i| node(Some(&format!("Button {i}")), None, None))
            .collect(),
    );
    let query = FindQuery {
        role: None,
        name: None,
        value: None,
        text: Some(search_text::normalize("button")),
    };
    let mut matches = Vec::new();

    search_tree(&root, &query, &mut Vec::new(), &mut matches, Some(DEFAULT_LIMIT));

    assert_eq!(matches.len(), DEFAULT_LIMIT);
}

#[test]
fn limit_conflicts_with_single_result_modes_for_batch_too() {
    let err = validate_find_mode(&FindArgs {
        first: true,
        limit: Some(10),
        ..args()
    })
    .unwrap_err();

    assert_eq!(err.code(), "INVALID_ARGS");
}

#[test]
fn count_matches_does_not_build_result_json() {
    let root = window(vec![node(Some("Save"), None, None), node(Some("Cancel"), None, None)]);
    let query = FindQuery {
        role: None,
        name: None,
        value: None,
        text: Some(search_text::normalize("a")),
    };

    assert_eq!(count_matches(&root, &query), 2);
}

#[test]
fn search_records_ancestor_path_and_restores_it() {
    let inner = AccessibilityNode {
        children: vec![node(Some("Deep"), None, None)],
        ..node(Some("Panel"), None, None)
    };
    let root = window(vec![inner]);
    let query = FindQuery {
        role: None,
        name: None,
        value: None,
        text: Some(search_text::normalize("deep")),
    };
    let mut path = vec!["outer".to_string()];
    let mut matches = Vec::new();
    let stopped = search_tree(&root, &query, &mut path, &mut matches, None);
    assert!(!stopped);
    assert_eq!(path, vec!["outer".to_string()]);
    assert_eq!(matches.len(), 1);
    assert_eq!(matches[0].name, "Deep");
    assert_eq!(matches[0].path.len(), 3);
    assert_eq!(matches[0].path[0], "outer");
}

#[test]
fn find_modes_pick_first_last_nth_and_count() {
    let root = window(vec![
        node(Some("Alpha one"), None, None),
        node(Some("Beta"), None, None),
        node(Some("Alpha two"), None, None),
    ]);
    let text = Some("alpha".to_string());
    match find_in_tree(&FindArgs { text: text.clone(), count: true, ..args() }, &root).unwrap() {
        FindOutcome::Count(n) => assert_eq!(n, 2),
        other => panic!("unexpected {other:?}"),
    }
    match find_in_tree(&FindArgs { text: text.clone(), first: true, ..args() }, &root).unwrap() {
        FindOutcome::Match(Some(m)) => assert_eq!(m.name, "Alpha one"),
        other => panic!("unexpected {other:?}"),
    }
    match find_in_tree(&FindArgs { text: text.clone(), last: true, ..args() }, &root).unwrap() {
        FindOutcome::Match(Some(m)) => assert_eq!(m.name, "Alpha two"),
        other => panic!("unexpected {other:?}"),
    }
    match find_in_tree(&FindArgs { text: text.clone(), nth: Some(5), ..args() }, &root).unwrap() {
        FindOutcome::Match(None) => {}
        other => panic!("unexpected {other:?}"),
    }
    match find_in_tree(&FindArgs { text: text.clone(), limit: Some(1), ..args() }, &root).unwrap() {
        FindOutcome::Matches(v) => assert_eq!(v.len(), 1),
        other => panic!("unexpected {other:?}"),
    }
    assert!(find_in_tree(&FindArgs { text, count: true, first: true, ..args() }, &root).is_err());
}

#[test]
fn test_valid_refs() {
    assert!(validate_ref_id("@e1").is_ok());
    assert!(validate_ref_id("@e14").is_ok());
    assert!(validate_ref_id("@e999").is_ok());
}

#[test]
fn test_invalid_refs() {
    assert!(validate_ref_id("@").is_err());
    assert!(validate_ref_id("e1").is_err());
    assert!(validate_ref_id("@e").is_err());
    assert!(validate_ref_id("@e0").is_err());
    assert!(validate_ref_id("@e0abc").is_err());
    assert!(validate_ref_id("1").is_err());
    assert!(validate_ref_id("").is_err());
}

#[test]
fn ref_id_limits_and_message() {
    assert!(validate_ref_id("@e0123456789").is_ok());
    assert!(validate_ref_id("@e01234567890").is_err());
    assert!(validate_ref_id("@e4294967295").is_ok());
    assert!(validate_ref_id("@e4294967296").is_err());
    let err = validate_ref_id("@x1").unwrap_err();
    assert_eq!(err.code(), "INVALID_ARGS");
    assert_eq!(
        err.message(),
        "Invalid ref_id '@x1': must match @e{N} where N is a positive integer"
    );
}
