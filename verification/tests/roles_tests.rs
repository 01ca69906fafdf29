use agent_desktop::ax_roles::{
    ax_role_table, ax_role_to_str, normalized_role_and_label, normalized_role_for_element,
    promoted_item_label, AxChild,
};
use agent_desktop::roles::{
    canonical_role, canonical_roles, interactive_roles, is_expandable_role, is_interactive_role,
    is_mutable_value_role, is_toggleable_role,
};

#[test]
fn interactive_roles_are_sorted_and_unique() {
    let roles = interactive_roles();
    let mut sorted = roles.clone();
    sorted.sort_unstable();
    sorted.dedup();
    assert_eq!(sorted, roles);
}

#[test]
fn canonical_roles_are_sorted_and_unique() {
    let roles = canonical_roles();
    let mut sorted = roles.clone();
    sorted.sort_unstable();
    sorted.dedup();
    assert_eq!(sorted, roles);
}

#[test]
fn interactive_roles_are_a_subset_of_canonical() {
    let canonical = canonical_roles();
    for role in interactive_roles() {
        assert!(
            canonical.contains(&role),
            "interactive role {role} missing from the canonical roles"
        );
    }
}

#[test]
fn canonical_role_resolves_text_input_aliases() {
    assert_eq!(canonical_role("textarea"), Some("textfield"));
    assert_eq!(canonical_role("textbox"), Some("textfield"));
    assert_eq!(canonical_role("searchfield"), Some("textfield"));
}

#[test]
fn canonical_role_is_case_insensitive_and_trimmed() {
    assert_eq!(canonical_role("Button"), Some("button"));
    assert_eq!(canonical_role(" TEXTAREA "), Some("textfield"));
}

#[test]
fn canonical_role_rejects_unknown_roles() {
    assert_eq!(canonical_role("buttn"), None);
    assert_eq!(canonical_role(""), None);
}

#[test]
fn toggleable_roles_are_a_subset_of_interactive() {
    for role in ["checkbox", "switch", "radiobutton"] {
        assert!(is_toggleable_role(role));
        assert!(is_interactive_role(role));
    }
    assert!(!is_toggleable_role("button"));
    assert!(!is_toggleable_role("textfield"));
}

#[test]
fn expandable_roles_are_a_subset_of_interactive() {
    for role in ["combobox", "menubutton", "treeitem"] {
        assert!(is_expandable_role(role));
        assert!(is_interactive_role(role));
    }
    assert!(!is_expandable_role("button"));
    assert!(!is_expandable_role("checkbox"));
    assert!(!is_expandable_role("disclosure"));
}

#[test]
fn every_expandable_role_is_interactive() {
    let interactive = interactive_roles();
    for role in ["combobox", "menubutton", "treeitem"] {
        assert!(
            is_expandable_role(role),
            "{role} expected expandable for subset check"
        );
        assert!(
            interactive.contains(&role),
            "expandable role {role} missing from the interactive roles"
        );
    }
}

#[test]
fn every_toggleable_role_is_interactive() {
    let interactive = interactive_roles();
    for role in ["checkbox", "switch", "radiobutton"] {
        assert!(is_toggleable_role(role));
        assert!(
            interactive.contains(&role),
            "toggleable role {role} missing from the interactive roles"
        );
    }
}

#[test]
fn read_only_roles_are_never_interactive() {
    for role in ["statictext", "image", "group", "list", "table"] {
        assert!(!is_interactive_role(role));
    }
}

#[test]
fn mutable_value_roles_are_interactive() {
    for role in ["combobox", "incrementor", "slider", "textfield"] {
        assert!(is_mutable_value_role(role));
        assert!(is_interactive_role(role));
    }
    assert!(!is_mutable_value_role("cell"));
    assert!(!is_mutable_value_role("button"));
}

#[test]
fn ax_role_map_is_sorted_and_unique_for_binary_search() {
    let table = ax_role_table();
    for window in table.windows(2) {
        assert!(
            window[0].0 < window[1].0,
            "the role table must stay sorted and unique: {} >= {}",
            window[0].0,
            window[1].0
        );
    }
}

#[test]
fn every_emitted_role_is_in_core_canonical_vocabulary() {
    let canonical = canonical_roles();
    for (ax, role) in ax_role_table() {
        assert!(
            canonical.contains(&role),
            "the adapter emits '{role}' for {ax} but the canonical roles lack it"
        );
    }
    assert!(canonical.contains(&"unknown"), "fallback role must be canonical");
    assert!(canonical.contains(&"cell"), "promoted-item role must be canonical");
}

#[test]
fn lookup_maps_known_roles_and_falls_back_to_unknown() {
    assert_eq!(ax_role_to_str("AXTextArea"), "textfield");
    assert_eq!(ax_role_to_str("AXPopUpButton"), "combobox");
    assert_eq!(ax_role_to_str("AXWindow"), "window");
    assert_eq!(ax_role_to_str("AXSomeVendorCustom"), "unknown");
}

#[test]
fn lookup_finds_every_table_entry_and_its_neighbours_fail() {
    for (ax, role) in ax_role_table() {
        assert_eq!(ax_role_to_str(ax), role);
        let longer = format!("{ax}X");
        assert_eq!(ax_role_to_str(&longer), "unknown", "{longer}");
    }
    assert_eq!(ax_role_to_str(""), "unknown");
    assert_eq!(ax_role_to_str("axbutton"), "unknown");
    assert_eq!(ax_role_to_str("AXA"), "unknown");
    assert_eq!(ax_role_to_str("AXZZZ"), "unknown");
}

fn child(role: Option<&str>, value: Option<&str>) -> AxChild {
    AxChild {
        role: role.map(String::from),
        value: value.map(String::from),
    }
}

#[test]
fn icon_group_with_text_field_is_promoted_to_cell() {
    let children = vec![
        child(Some("AXImage"), None),
        child(Some("AXTextField"), Some("")),
        child(Some("AXTextField"), Some("Report.pdf")),
        child(Some("AXTextField"), Some("Other")),
    ];
    assert_eq!(
        promoted_item_label(Some("AXGroup"), &children),
        Some("Report.pdf".to_string())
    );
    let (role, label) = normalized_role_and_label(Some("AXGroup"), &children);
    assert_eq!(role, "cell");
    assert_eq!(label, Some("Report.pdf".to_string()));
}

#[test]
fn groups_without_icon_or_label_keep_their_role() {
    let no_icon = vec![child(Some("AXTextField"), Some("Name"))];
    assert_eq!(promoted_item_label(Some("AXGroup"), &no_icon), None);
    assert_eq!(normalized_role_for_element(Some("AXGroup"), &no_icon), "group");

    let no_label = vec![child(Some("AXImage"), None), child(Some("AXStaticText"), Some("x"))];
    assert_eq!(promoted_item_label(Some("AXGroup"), &no_label), None);

    let icon_and_field = vec![child(Some("AXImage"), None), child(Some("AXTextField"), Some("Doc"))];
    assert_eq!(promoted_item_label(Some("AXRow"), &icon_and_field), None);
    assert_eq!(
        normalized_role_and_label(Some("AXRow"), &icon_and_field),
        ("treeitem".to_string(), None)
    );
    assert_eq!(normalized_role_for_element(None, &icon_and_field), "unknown");
}

#[test]
fn every_interactive_role_is_emitted_by_the_role_table() {
    let table = ax_role_table();
    for role in interactive_roles() {
        assert!(
            table.iter().any(|(ax, r)| *r == role && ax_role_to_str(ax) == role),
            "no native role maps to {role}"
        );
    }
}
