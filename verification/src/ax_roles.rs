//! The macOS accessibility role vocabulary and how it maps onto the
//! cross-platform roles, including the one synthesized role: a group that
//! shows an icon beside an editable text field is presented as a `cell`.
use vstd::prelude::*;
use crate::roles::{
    canonical_role_list, interactive_role_list, lemma_lex_lt_irreflexive, lemma_lex_lt_transitive,
    lemma_sorted_all_pairs, lemma_sorted_strictly_distinct, lex_compare, lex_lt, all_distinct,
    sorted_strictly,
};
use crate::text::{chars_of, owned, str_eq};

verus! {

/// The native role names that have a cross-platform counterpart, sorted.
pub open spec fn ax_role_names() -> Seq<Seq<char>> {
    seq![
        "AXApplication"@,
        "AXBrowser"@,
        "AXBusyIndicator"@,
        "AXButton"@,
        "AXCell"@,
        "AXCheckBox"@,
        "AXColorWell"@,
        "AXColumn"@,
        "AXComboBox"@,
        "AXDateField"@,
        "AXDialog"@,
        "AXDisclosureTriangle"@,
        "AXDockItem"@,
        "AXDrawer"@,
        "AXGenericElement"@,
        "AXGrid"@,
        "AXGroup"@,
        "AXHandle"@,
        "AXHelpTag"@,
        "AXImage"@,
        "AXIncrementor"@,
        "AXLayoutArea"@,
        "AXLayoutItem"@,
        "AXLevelIndicator"@,
        "AXLink"@,
        "AXList"@,
        "AXMatte"@,
        "AXMenu"@,
        "AXMenuBar"@,
        "AXMenuBarItem"@,
        "AXMenuButton"@,
        "AXMenuItem"@,
        "AXOutline"@,
        "AXOutlineRow"@,
        "AXPopUpButton"@,
        "AXPopover"@,
        "AXProgressIndicator"@,
        "AXRadioButton"@,
        "AXRelevanceIndicator"@,
        "AXRow"@,
        "AXRuler"@,
        "AXRulerMarker"@,
        "AXScrollArea"@,
        "AXScrollBar"@,
        "AXSearchField"@,
        "AXSecureTextField"@,
        "AXSheet"@,
        "AXSlider"@,
        "AXSplitGroup"@,
        "AXSplitter"@,
        "AXStaticText"@,
        "AXStepper"@,
        "AXSwitch"@,
        "AXTab"@,
        "AXTabGroup"@,
        "AXTable"@,
        "AXTextArea"@,
        "AXTextField"@,
        "AXTimeField"@,
        "AXToggle"@,
        "AXToolbar"@,
        "AXValueIndicator"@,
        "AXWebArea"@,
        "AXWindow"@,
    ]
}

/// The cross-platform role of each entry of `ax_role_names`, position by
/// position.
pub open spec fn ax_role_targets() -> Seq<Seq<char>> {
    seq![
        "application"@,
        "browser"@,
        "progressbar"@,
        "button"@,
        "cell"@,
        "checkbox"@,
        "colorwell"@,
        "column"@,
        "combobox"@,
        "datefield"@,
        "dialog"@,
        "disclosure"@,
        "dockitem"@,
        "drawer"@,
        "group"@,
        "grid"@,
        "group"@,
        "handle"@,
        "helptag"@,
        "image"@,
        "incrementor"@,
        "layoutitem"@,
        "layoutitem"@,
        "levelindicator"@,
        "link"@,
        "list"@,
        "matte"@,
        "menu"@,
        "menu"@,
        "menuitem"@,
        "menubutton"@,
        "menuitem"@,
        "outline"@,
        "treeitem"@,
        "combobox"@,
        "popover"@,
        "progressbar"@,
        "radiobutton"@,
        "relevanceindicator"@,
        "treeitem"@,
        "ruler"@,
        "rulermarker"@,
        "scrollarea"@,
        "scrollarea"@,
        "textfield"@,
        "textfield"@,
        "sheet"@,
        "slider"@,
        "splitter"@,
        "splitter"@,
        "statictext"@,
        "incrementor"@,
        "switch"@,
        "tab"@,
        "tab"@,
        "table"@,
        "textfield"@,
        "textfield"@,
        "timefield"@,
        "switch"@,
        "toolbar"@,
        "slider"@,
        "webarea"@,
        "window"@,
    ]
}

/// `ax` is a native role name with a cross-platform counterpart.
pub open spec fn is_mapped_ax_role(ax: Seq<char>) -> bool {
    exists|i: int| 0 <= i < ax_role_names().len() && ax_role_names()[i] == ax
}

/// The cross-platform role of a native role name: its entry in the table,
/// or `unknown` for a name the table does not list.
pub open spec fn ax_role_canonical(ax: Seq<char>) -> Seq<char> {
    if is_mapped_ax_role(ax) {
        ax_role_targets()[choose|i: int| 0 <= i < ax_role_names().len() && ax_role_names()[i] == ax]
    } else {
        "unknown"@
    }
}

/// The role table, one pair of native and cross-platform name per entry.
pub fn ax_role_table() -> (t: Vec<(&'static str, &'static str)>)
    ensures
        t@.len() == ax_role_names().len(),
        forall|i: int| 0 <= i < t@.len() ==> (#[trigger] t@[i]).0@ == ax_role_names()[i]
            && t@[i].1@ == ax_role_targets()[i],
{
    let t = vec![
        ("AXApplication", "application"),
        ("AXBrowser", "browser"),
        ("AXBusyIndicator", "progressbar"),
        ("AXButton", "button"),
        ("AXCell", "cell"),
        ("AXCheckBox", "checkbox"),
        ("AXColorWell", "colorwell"),
        ("AXColumn", "column"),
        ("AXComboBox", "combobox"),
        ("AXDateField", "datefield"),
        ("AXDialog", "dialog"),
        ("AXDisclosureTriangle", "disclosure"),
        ("AXDockItem", "dockitem"),
        ("AXDrawer", "drawer"),
        ("AXGenericElement", "group"),
        ("AXGrid", "grid"),
        ("AXGroup", "group"),
        ("AXHandle", "handle"),
        ("AXHelpTag", "helptag"),
        ("AXImage", "image"),
        ("AXIncrementor", "incrementor"),
        ("AXLayoutArea", "layoutitem"),
        ("AXLayoutItem", "layoutitem"),
        ("AXLevelIndicator", "levelindicator"),
        ("AXLink", "link"),
        ("AXList", "list"),
        ("AXMatte", "matte"),
        ("AXMenu", "menu"),
        ("AXMenuBar", "menu"),
        ("AXMenuBarItem", "menuitem"),
        ("AXMenuButton", "menubutton"),
        ("AXMenuItem", "menuitem"),
        ("AXOutline", "outline"),
        ("AXOutlineRow", "treeitem"),
        ("AXPopUpButton", "combobox"),
        ("AXPopover", "popover"),
        ("AXProgressIndicator", "progressbar"),
        ("AXRadioButton", "radiobutton"),
        ("AXRelevanceIndicator", "relevanceindicator"),
        ("AXRow", "treeitem"),
        ("AXRuler", "ruler"),
        ("AXRulerMarker", "rulermarker"),
        ("AXScrollArea", "scrollarea"),
        ("AXScrollBar", "scrollarea"),
        ("AXSearchField", "textfield"),
        ("AXSecureTextField", "textfield"),
        ("AXSheet", "sheet"),
        ("AXSlider", "slider"),
        ("AXSplitGroup", "splitter"),
        ("AXSplitter", "splitter"),
        ("AXStaticText", "statictext"),
        ("AXStepper", "incrementor"),
        ("AXSwitch", "switch"),
        ("AXTab", "tab"),
        ("AXTabGroup", "tab"),
        ("AXTable", "table"),
        ("AXTextArea", "textfield"),
        ("AXTextField", "textfield"),
        ("AXTimeField", "timefield"),
        ("AXToggle", "switch"),
        ("AXToolbar", "toolbar"),
        ("AXValueIndicator", "slider"),
        ("AXWebArea", "webarea"),
        ("AXWindow", "window"),
    ];
    t
}

/// The native role names are sorted and unique, so that a binary search
/// over them finds every listed name.
pub proof fn lemma_ax_role_names_sorted_unique()
    ensures
        sorted_strictly(ax_role_names()),
        all_distinct(ax_role_names()),
{
    assert forall|i: int| 0 <= i < ax_role_names().len() - 1 implies lex_lt(
        #[trigger] ax_role_names()[i],
        ax_role_names()[i + 1],
    ) by {
        lemma_ax_role_names_adjacent(i);
    }
    lemma_sorted_strictly_distinct(ax_role_names());
}

#[verifier::rlimit(60)]
proof fn lemma_ax_role_names_adjacent(i: int)
    requires
        0 <= i < ax_role_names().len() - 1,
    ensures
        lex_lt(ax_role_names()[i], ax_role_names()[i + 1]),
{
    reveal_with_fuel(lex_lt, 16);
    if i == 0 {
        reveal_strlit("AXApplication");
        reveal_strlit("AXBrowser");
        assert(lex_lt("AXApplication"@, "AXBrowser"@));
    } else if i == 1 {
        reveal_strlit("AXBrowser");
        reveal_strlit("AXBusyIndicator");
        assert(lex_lt("AXBrowser"@, "AXBusyIndicator"@));
    } else if i == 2 {
        reveal_strlit("AXBusyIndicator");
        reveal_strlit("AXButton");
        assert(lex_lt("AXBusyIndicator"@, "AXButton"@));
    } else if i == 3 {
        reveal_strlit("AXButton");
        reveal_strlit("AXCell");
        assert(lex_lt("AXButton"@, "AXCell"@));
    } else if i == 4 {
        reveal_strlit("AXCell");
        reveal_strlit("AXCheckBox");
        assert(lex_lt("AXCell"@, "AXCheckBox"@));
    } else if i == 5 {
        reveal_strlit("AXCheckBox");
        reveal_strlit("AXColorWell");
        assert(lex_lt("AXCheckBox"@, "AXColorWell"@));
    } else if i == 6 {
        reveal_strlit("AXColorWell");
        reveal_strlit("AXColumn");
        assert(lex_lt("AXColorWell"@, "AXColumn"@));
    } else if i == 7 {
        reveal_strlit("AXColumn");
        reveal_strlit("AXComboBox");
        assert(lex_lt("AXColumn"@, "AXComboBox"@));
    } else if i == 8 {
        reveal_strlit("AXComboBox");
        reveal_strlit("AXDateField");
        assert(lex_lt("AXComboBox"@, "AXDateField"@));
    } else if i == 9 {
        reveal_strlit("AXDateField");
        reveal_strlit("AXDialog");
        assert(lex_lt("AXDateField"@, "AXDialog"@));
    } else if i == 10 {
        reveal_strlit("AXDialog");
        reveal_strlit("AXDisclosureTriangle");
        assert(lex_lt("AXDialog"@, "AXDisclosureTriangle"@));
    } else if i == 11 {
        reveal_strlit("AXDisclosureTriangle");
        reveal_strlit("AXDockItem");
        assert(lex_lt("AXDisclosureTriangle"@, "AXDockItem"@));
    } else if i == 12 {
        reveal_strlit("AXDockItem");
        reveal_strlit("AXDrawer");
        assert(lex_lt("AXDockItem"@, "AXDrawer"@));
    } else if i == 13 {
        reveal_strlit("AXDrawer");
        reveal_strlit("AXGenericElement");
        assert(lex_lt("AXDrawer"@, "AXGenericElement"@));
    } else if i == 14 {
        reveal_strlit("AXGenericElement");
        reveal_strlit("AXGrid");
        assert(lex_lt("AXGenericElement"@, "AXGrid"@));
    } else if i == 15 {
        reveal_strlit("AXGrid");
        reveal_strlit("AXGroup");
        assert(lex_lt("AXGrid"@, "AXGroup"@));
    } else if i == 16 {
        reveal_strlit("AXGroup");
        reveal_strlit("AXHandle");
        assert(lex_lt("AXGroup"@, "AXHandle"@));
    } else if i == 17 {
        reveal_strlit("AXHandle");
        reveal_strlit("AXHelpTag");
        assert(lex_lt("AXHandle"@, "AXHelpTag"@));
    } else if i == 18 {
        reveal_strlit("AXHelpTag");
        reveal_strlit("AXImage");
        assert(lex_lt("AXHelpTag"@, "AXImage"@));
    } else if i == 19 {
        reveal_strlit("AXImage");
        reveal_strlit("AXIncrementor");
        assert(lex_lt("AXImage"@, "AXIncrementor"@));
    } else if i == 20 {
        reveal_strlit("AXIncrementor");
        reveal_strlit("AXLayoutArea");
        assert(lex_lt("AXIncrementor"@, "AXLayoutArea"@));
    } else if i == 21 {
        reveal_strlit("AXLayoutArea");
        reveal_strlit("AXLayoutItem");
        assert(lex_lt("AXLayoutArea"@, "AXLayoutItem"@));
    } else if i == 22 {
        reveal_strlit("AXLayoutItem");
        reveal_strlit("AXLevelIndicator");
        assert(lex_lt("AXLayoutItem"@, "AXLevelIndicator"@));
    } else if i == 23 {
        reveal_strlit("AXLevelIndicator");
        reveal_strlit("AXLink");
        assert(lex_lt("AXLevelIndicator"@, "AXLink"@));
    } else if i == 24 {
        reveal_strlit("AXLink");
        reveal_strlit("AXList");
        assert(lex_lt("AXLink"@, "AXList"@));
    } else if i == 25 {
        reveal_strlit("AXList");
        reveal_strlit("AXMatte");
        assert(lex_lt("AXList"@, "AXMatte"@));
    } else if i == 26 {
        reveal_strlit("AXMatte");
        reveal_strlit("AXMenu");
        assert(lex_lt("AXMatte"@, "AXMenu"@));
    } else if i == 27 {
        reveal_strlit("AXMenu");
        reveal_strlit("AXMenuBar");
        assert(lex_lt("AXMenu"@, "AXMenuBar"@));
    } else if i == 28 {
        reveal_strlit("AXMenuBar");
        reveal_strlit("AXMenuBarItem");
        assert(lex_lt("AXMenuBar"@, "AXMenuBarItem"@));
    } else if i == 29 {
        reveal_strlit("AXMenuBarItem");
        reveal_strlit("AXMenuButton");
        assert(lex_lt("AXMenuBarItem"@, "AXMenuButton"@));
    } else if i == 30 {
        reveal_strlit("AXMenuButton");
        reveal_strlit("AXMenuItem");
        assert(lex_lt("AXMenuButton"@, "AXMenuItem"@));
    } else if i == 31 {
        reveal_strlit("AXMenuItem");
        reveal_strlit("AXOutline");
        assert(lex_lt("AXMenuItem"@, "AXOutline"@));
    } else if i == 32 {
        reveal_strlit("AXOutline");
        reveal_strlit("AXOutlineRow");
        assert(lex_lt("AXOutline"@, "AXOutlineRow"@));
    } else if i == 33 {
        reveal_strlit("AXOutlineRow");
        reveal_strlit("AXPopUpButton");
        assert(lex_lt("AXOutlineRow"@, "AXPopUpButton"@));
    } else if i == 34 {
        reveal_strlit("AXPopUpButton");
        reveal_strlit("AXPopover");
        assert(lex_lt("AXPopUpButton"@, "AXPopover"@));
    } else if i == 35 {
        reveal_strlit("AXPopover");
        reveal_strlit("AXProgressIndicator");
        assert(lex_lt("AXPopover"@, "AXProgressIndicator"@));
    } else if i == 36 {
        reveal_strlit("AXProgressIndicator");
        reveal_strlit("AXRadioButton");
        assert(lex_lt("AXProgressIndicator"@, "AXRadioButton"@));
    } else if i == 37 {
        reveal_strlit("AXRadioButton");
        reveal_strlit("AXRelevanceIndicator");
        assert(lex_lt("AXRadioButton"@, "AXRelevanceIndicator"@));
    } else if i == 38 {
        reveal_strlit("AXRelevanceIndicator");
        reveal_strlit("AXRow");
        assert(lex_lt("AXRelevanceIndicator"@, "AXRow"@));
    } else if i == 39 {
        reveal_strlit("AXRow");
        reveal_strlit("AXRuler");
        assert(lex_lt("AXRow"@, "AXRuler"@));
    } else if i == 40 {
        reveal_strlit("AXRuler");
        reveal_strlit("AXRulerMarker");
        assert(lex_lt("AXRuler"@, "AXRulerMarker"@));
    } else if i == 41 {
        reveal_strlit("AXRulerMarker");
        reveal_strlit("AXScrollArea");
        assert(lex_lt("AXRulerMarker"@, "AXScrollArea"@));
    } else if i == 42 {
        reveal_strlit("AXScrollArea");
        reveal_strlit("AXScrollBar");
        assert(lex_lt("AXScrollArea"@, "AXScrollBar"@));
    } else if i == 43 {
        reveal_strlit("AXScrollBar");
        reveal_strlit("AXSearchField");
        assert(lex_lt("AXScrollBar"@, "AXSearchField"@));
    } else if i == 44 {
        reveal_strlit("AXSearchField");
        reveal_strlit("AXSecureTextField");
        assert(lex_lt("AXSearchField"@, "AXSecureTextField"@));
    } else if i == 45 {
        reveal_strlit("AXSecureTextField");
        reveal_strlit("AXSheet");
        assert(lex_lt("AXSecureTextField"@, "AXSheet"@));
    } else if i == 46 {
        reveal_strlit("AXSheet");
        reveal_strlit("AXSlider");
        assert(lex_lt("AXSheet"@, "AXSlider"@));
    } else if i == 47 {
        reveal_strlit("AXSlider");
        reveal_strlit("AXSplitGroup");
        assert(lex_lt("AXSlider"@, "AXSplitGroup"@));
    } else if i == 48 {
        reveal_strlit("AXSplitGroup");
        reveal_strlit("AXSplitter");
        assert(lex_lt("AXSplitGroup"@, "AXSplitter"@));
    } else if i == 49 {
        reveal_strlit("AXSplitter");
        reveal_strlit("AXStaticText");
        assert(lex_lt("AXSplitter"@, "AXStaticText"@));
    } else if i == 50 {
        reveal_strlit("AXStaticText");
        reveal_strlit("AXStepper");
        assert(lex_lt("AXStaticText"@, "AXStepper"@));
    } else if i == 51 {
        reveal_strlit("AXStepper");
        reveal_strlit("AXSwitch");
        assert(lex_lt("AXStepper"@, "AXSwitch"@));
    } else if i == 52 {
        reveal_strlit("AXSwitch");
        reveal_strlit("AXTab");
        assert(lex_lt("AXSwitch"@, "AXTab"@));
    } else if i == 53 {
        reveal_strlit("AXTab");
        reveal_strlit("AXTabGroup");
        assert(lex_lt("AXTab"@, "AXTabGroup"@));
    } else if i == 54 {
        reveal_strlit("AXTabGroup");
        reveal_strlit("AXTable");
        assert(lex_lt("AXTabGroup"@, "AXTable"@));
    } else if i == 55 {
        reveal_strlit("AXTable");
        reveal_strlit("AXTextArea");
        assert(lex_lt("AXTable"@, "AXTextArea"@));
    } else if i == 56 {
        reveal_strlit("AXTextArea");
        reveal_strlit("AXTextField");
        assert(lex_lt("AXTextArea"@, "AXTextField"@));
    } else if i == 57 {
        reveal_strlit("AXTextField");
        reveal_strlit("AXTimeField");
        assert(lex_lt("AXTextField"@, "AXTimeField"@));
    } else if i == 58 {
        reveal_strlit("AXTimeField");
        reveal_strlit("AXToggle");
        assert(lex_lt("AXTimeField"@, "AXToggle"@));
    } else if i == 59 {
        reveal_strlit("AXToggle");
        reveal_strlit("AXToolbar");
        assert(lex_lt("AXToggle"@, "AXToolbar"@));
    } else if i == 60 {
        reveal_strlit("AXToolbar");
        reveal_strlit("AXValueIndicator");
        assert(lex_lt("AXToolbar"@, "AXValueIndicator"@));
    } else if i == 61 {
        reveal_strlit("AXValueIndicator");
        reveal_strlit("AXWebArea");
        assert(lex_lt("AXValueIndicator"@, "AXWebArea"@));
    } else if i == 62 {
        reveal_strlit("AXWebArea");
        reveal_strlit("AXWindow");
        assert(lex_lt("AXWebArea"@, "AXWindow"@));
    }
}

/// Every cross-platform role that the table yields belongs to the canonical
/// vocabulary.
pub proof fn lemma_ax_role_targets_are_canonical(i: int)
    requires
        0 <= i < ax_role_targets().len(),
    ensures
        canonical_role_list().contains(ax_role_targets()[i]),
{
    if i == 0 {
        assert(canonical_role_list()[0] == ax_role_targets()[0]);
    } else if i == 1 {
        assert(canonical_role_list()[1] == ax_role_targets()[1]);
    } else if i == 2 {
        assert(canonical_role_list()[29] == ax_role_targets()[2]);
    } else if i == 3 {
        assert(canonical_role_list()[2] == ax_role_targets()[3]);
    } else if i == 4 {
        assert(canonical_role_list()[3] == ax_role_targets()[4]);
    } else if i == 5 {
        assert(canonical_role_list()[4] == ax_role_targets()[5]);
    } else if i == 6 {
        assert(canonical_role_list()[5] == ax_role_targets()[6]);
    } else if i == 7 {
        assert(canonical_role_list()[6] == ax_role_targets()[7]);
    } else if i == 8 {
        assert(canonical_role_list()[7] == ax_role_targets()[8]);
    } else if i == 9 {
        assert(canonical_role_list()[8] == ax_role_targets()[9]);
    } else if i == 10 {
        assert(canonical_role_list()[9] == ax_role_targets()[10]);
    } else if i == 11 {
        assert(canonical_role_list()[10] == ax_role_targets()[11]);
    } else if i == 12 {
        assert(canonical_role_list()[11] == ax_role_targets()[12]);
    } else if i == 13 {
        assert(canonical_role_list()[12] == ax_role_targets()[13]);
    } else if i == 14 {
        assert(canonical_role_list()[14] == ax_role_targets()[14]);
    } else if i == 15 {
        assert(canonical_role_list()[13] == ax_role_targets()[15]);
    } else if i == 16 {
        assert(canonical_role_list()[14] == ax_role_targets()[16]);
    } else if i == 17 {
        assert(canonical_role_list()[15] == ax_role_targets()[17]);
    } else if i == 18 {
        assert(canonical_role_list()[16] == ax_role_targets()[18]);
    } else if i == 19 {
        assert(canonical_role_list()[17] == ax_role_targets()[19]);
    } else if i == 20 {
        assert(canonical_role_list()[18] == ax_role_targets()[20]);
    } else if i == 21 {
        assert(canonical_role_list()[19] == ax_role_targets()[21]);
    } else if i == 22 {
        assert(canonical_role_list()[19] == ax_role_targets()[22]);
    } else if i == 23 {
        assert(canonical_role_list()[20] == ax_role_targets()[23]);
    } else if i == 24 {
        assert(canonical_role_list()[21] == ax_role_targets()[24]);
    } else if i == 25 {
        assert(canonical_role_list()[22] == ax_role_targets()[25]);
    } else if i == 26 {
        assert(canonical_role_list()[23] == ax_role_targets()[26]);
    } else if i == 27 {
        assert(canonical_role_list()[24] == ax_role_targets()[27]);
    } else if i == 28 {
        assert(canonical_role_list()[24] == ax_role_targets()[28]);
    } else if i == 29 {
        assert(canonical_role_list()[26] == ax_role_targets()[29]);
    } else if i == 30 {
        assert(canonical_role_list()[25] == ax_role_targets()[30]);
    } else if i == 31 {
        assert(canonical_role_list()[26] == ax_role_targets()[31]);
    } else if i == 32 {
        assert(canonical_role_list()[27] == ax_role_targets()[32]);
    } else if i == 33 {
        assert(canonical_role_list()[45] == ax_role_targets()[33]);
    } else if i == 34 {
        assert(canonical_role_list()[7] == ax_role_targets()[34]);
    } else if i == 35 {
        assert(canonical_role_list()[28] == ax_role_targets()[35]);
    } else if i == 36 {
        assert(canonical_role_list()[29] == ax_role_targets()[36]);
    } else if i == 37 {
        assert(canonical_role_list()[30] == ax_role_targets()[37]);
    } else if i == 38 {
        assert(canonical_role_list()[31] == ax_role_targets()[38]);
    } else if i == 39 {
        assert(canonical_role_list()[45] == ax_role_targets()[39]);
    } else if i == 40 {
        assert(canonical_role_list()[32] == ax_role_targets()[40]);
    } else if i == 41 {
        assert(canonical_role_list()[33] == ax_role_targets()[41]);
    } else if i == 42 {
        assert(canonical_role_list()[34] == ax_role_targets()[42]);
    } else if i == 43 {
        assert(canonical_role_list()[34] == ax_role_targets()[43]);
    } else if i == 44 {
        assert(canonical_role_list()[42] == ax_role_targets()[44]);
    } else if i == 45 {
        assert(canonical_role_list()[42] == ax_role_targets()[45]);
    } else if i == 46 {
        assert(canonical_role_list()[35] == ax_role_targets()[46]);
    } else if i == 47 {
        assert(canonical_role_list()[36] == ax_role_targets()[47]);
    } else if i == 48 {
        assert(canonical_role_list()[37] == ax_role_targets()[48]);
    } else if i == 49 {
        assert(canonical_role_list()[37] == ax_role_targets()[49]);
    } else if i == 50 {
        assert(canonical_role_list()[38] == ax_role_targets()[50]);
    } else if i == 51 {
        assert(canonical_role_list()[18] == ax_role_targets()[51]);
    } else if i == 52 {
        assert(canonical_role_list()[39] == ax_role_targets()[52]);
    } else if i == 53 {
        assert(canonical_role_list()[40] == ax_role_targets()[53]);
    } else if i == 54 {
        assert(canonical_role_list()[40] == ax_role_targets()[54]);
    } else if i == 55 {
        assert(canonical_role_list()[41] == ax_role_targets()[55]);
    } else if i == 56 {
        assert(canonical_role_list()[42] == ax_role_targets()[56]);
    } else if i == 57 {
        assert(canonical_role_list()[42] == ax_role_targets()[57]);
    } else if i == 58 {
        assert(canonical_role_list()[43] == ax_role_targets()[58]);
    } else if i == 59 {
        assert(canonical_role_list()[39] == ax_role_targets()[59]);
    } else if i == 60 {
        assert(canonical_role_list()[44] == ax_role_targets()[60]);
    } else if i == 61 {
        assert(canonical_role_list()[36] == ax_role_targets()[61]);
    } else if i == 62 {
        assert(canonical_role_list()[47] == ax_role_targets()[62]);
    } else if i == 63 {
        assert(canonical_role_list()[48] == ax_role_targets()[63]);
    }
}

/// Whatever native role name it is given, the lookup yields a role of the
/// canonical vocabulary.
pub proof fn lemma_ax_role_canonical_is_canonical(ax: Seq<char>)
    ensures
        canonical_role_list().contains(ax_role_canonical(ax)),
{
    if is_mapped_ax_role(ax) {
        let i = choose|i: int| 0 <= i < ax_role_names().len() && ax_role_names()[i] == ax;
        lemma_ax_role_targets_are_canonical(i);
    } else {
        assert(canonical_role_list()[46] == "unknown"@);
    }
}

/// The table maps each listed native name to its own entry.
pub proof fn lemma_ax_role_canonical_at(k: int)
    requires
        0 <= k < ax_role_names().len(),
    ensures
        ax_role_canonical(ax_role_names()[k]) == ax_role_targets()[k],
{
    lemma_ax_role_names_sorted_unique();
    assert(is_mapped_ax_role(ax_role_names()[k]));
    let j = choose|i: int| 0 <= i < ax_role_names().len() && ax_role_names()[i] == ax_role_names()[k];
    assert(j == k);
}

/// Every interactive role is produced by the native role mapping, so no
/// interactive role is unreachable on this platform.
pub proof fn lemma_interactive_roles_are_emitted(r: Seq<char>)
    requires
        interactive_role_list().contains(r),
    ensures
        exists|ax: Seq<char>| ax_role_canonical(ax) == r,
{
    let i = choose|i: int| 0 <= i < interactive_role_list().len() && interactive_role_list()[i] == r;
    if i == 0 {
        lemma_ax_role_canonical_at(3);
        assert(ax_role_targets()[3] == interactive_role_list()[0]);
        assert(ax_role_canonical(ax_role_names()[3]) == r);
    } else if i == 1 {
        lemma_ax_role_canonical_at(4);
        assert(ax_role_targets()[4] == interactive_role_list()[1]);
        assert(ax_role_canonical(ax_role_names()[4]) == r);
    } else if i == 2 {
        lemma_ax_role_canonical_at(5);
        assert(ax_role_targets()[5] == interactive_role_list()[2]);
        assert(ax_role_canonical(ax_role_names()[5]) == r);
    } else if i == 3 {
        lemma_ax_role_canonical_at(6);
        assert(ax_role_targets()[6] == interactive_role_list()[3]);
        assert(ax_role_canonical(ax_role_names()[6]) == r);
    } else if i == 4 {
        lemma_ax_role_canonical_at(8);
        assert(ax_role_targets()[8] == interactive_role_list()[4]);
        assert(ax_role_canonical(ax_role_names()[8]) == r);
    } else if i == 5 {
        lemma_ax_role_canonical_at(12);
        assert(ax_role_targets()[12] == interactive_role_list()[5]);
        assert(ax_role_canonical(ax_role_names()[12]) == r);
    } else if i == 6 {
        lemma_ax_role_canonical_at(20);
        assert(ax_role_targets()[20] == interactive_role_list()[6]);
        assert(ax_role_canonical(ax_role_names()[20]) == r);
    } else if i == 7 {
        lemma_ax_role_canonical_at(24);
        assert(ax_role_targets()[24] == interactive_role_list()[7]);
        assert(ax_role_canonical(ax_role_names()[24]) == r);
    } else if i == 8 {
        lemma_ax_role_canonical_at(30);
        assert(ax_role_targets()[30] == interactive_role_list()[8]);
        assert(ax_role_canonical(ax_role_names()[30]) == r);
    } else if i == 9 {
        lemma_ax_role_canonical_at(29);
        assert(ax_role_targets()[29] == interactive_role_list()[9]);
        assert(ax_role_canonical(ax_role_names()[29]) == r);
    } else if i == 10 {
        lemma_ax_role_canonical_at(37);
        assert(ax_role_targets()[37] == interactive_role_list()[10]);
        assert(ax_role_canonical(ax_role_names()[37]) == r);
    } else if i == 11 {
        lemma_ax_role_canonical_at(47);
        assert(ax_role_targets()[47] == interactive_role_list()[11]);
        assert(ax_role_canonical(ax_role_names()[47]) == r);
    } else if i == 12 {
        lemma_ax_role_canonical_at(52);
        assert(ax_role_targets()[52] == interactive_role_list()[12]);
        assert(ax_role_canonical(ax_role_names()[52]) == r);
    } else if i == 13 {
        lemma_ax_role_canonical_at(53);
        assert(ax_role_targets()[53] == interactive_role_list()[13]);
        assert(ax_role_canonical(ax_role_names()[53]) == r);
    } else if i == 14 {
        lemma_ax_role_canonical_at(44);
        assert(ax_role_targets()[44] == interactive_role_list()[14]);
        assert(ax_role_canonical(ax_role_names()[44]) == r);
    } else if i == 15 {
        lemma_ax_role_canonical_at(33);
        assert(ax_role_targets()[33] == interactive_role_list()[15]);
        assert(ax_role_canonical(ax_role_names()[33]) == r);
    }
}

/// The cross-platform role of a native accessibility role name, found by a
/// binary search of the role table. A name the table does not list maps to
/// `unknown`.
pub fn ax_role_to_str(ax_role: &str) -> (r: &'static str)
    ensures
        r@ == ax_role_canonical(ax_role@),
{
    let table = ax_role_table();
    let key = chars_of(ax_role);
    proof {
        lemma_ax_role_names_sorted_unique();
    }
    let ghost names = ax_role_names();
    let mut lo: usize = 0;
    let mut hi: usize = table.len();
    while lo < hi
        invariant
            lo <= hi <= table@.len(),
            table@.len() == names.len(),
            names == ax_role_names(),
            key@ == ax_role@,
            sorted_strictly(names),
            all_distinct(names),
            forall|i: int| 0 <= i < table@.len() ==> (#[trigger] table@[i]).0@ == names[i]
                && table@[i].1@ == ax_role_targets()[i],
            forall|i: int| 0 <= i < lo ==> lex_lt(#[trigger] names[i], key@),
            forall|i: int| hi <= i < names.len() ==> lex_lt(key@, #[trigger] names[i]),
        decreases hi - lo,
    {
        let mid = lo + (hi - lo) / 2;
        let entry = chars_of(table[mid].0);
        let c = lex_compare(&entry, &key);
        if c == 0 {
            proof {
                assert(table@[mid as int].0@ == names[mid as int]);
                assert(names[mid as int] == ax_role@);
                assert(is_mapped_ax_role(ax_role@));
                let j = choose|i: int| 0 <= i < names.len() && names[i] == ax_role@;
                assert(j == mid as int);
            }
            return table[mid].1;
        } else if c < 0 {
            proof {
                assert(table@[mid as int].0@ == names[mid as int]);
                assert forall|i: int| 0 <= i <= mid implies lex_lt(#[trigger] names[i], key@) by {
                    if i < mid {
                        lemma_sorted_all_pairs(names, i, mid as int);
                        lemma_lex_lt_transitive(names[i], names[mid as int], key@);
                    }
                }
            }
            lo = mid + 1;
        } else {
            proof {
                assert(table@[mid as int].0@ == names[mid as int]);
                assert forall|i: int| mid <= i < names.len() implies lex_lt(
                    key@,
                    #[trigger] names[i],
                ) by {
                    if i > mid {
                        lemma_sorted_all_pairs(names, mid as int, i);
                        lemma_lex_lt_transitive(key@, names[mid as int], names[i]);
                    }
                }
            }
            hi = mid;
        }
    }
    proof {
        assert forall|i: int| 0 <= i < names.len() implies names[i] != ax_role@ by {
            if names[i] == ax_role@ {
                lemma_lex_lt_irreflexive(key@);
            }
        }
    }
    "unknown"
}

/// The view of an optional string slice.
pub open spec fn opt_str_view(o: Option<&str>) -> Option<Seq<char>> {
    match o {
        Some(s) => Some(s@),
        None => None,
    }
}

/// What role labelling reads of one child of an accessibility element: its
/// role and its value, where the child reports them.
#[derive(Debug)]
pub struct AxChild {
    pub role: Option<String>,
    pub value: Option<String>,
}

/// The child reports `role` as its role.
pub open spec fn child_has_role(c: AxChild, role: Seq<char>) -> bool {
    c.role matches Some(r) && r@ == role
}

/// The child is a text field holding a non-empty value.
pub open spec fn is_text_label(c: AxChild) -> bool {
    child_has_role(c, "AXTextField"@) && (c.value matches Some(v) && v@.len() > 0)
}

/// The value of the first child that is a text field with a non-empty value.
pub open spec fn first_text_label(children: Seq<AxChild>) -> Option<Seq<char>>
    decreases children.len(),
{
    if children.len() == 0 {
        None
    } else if is_text_label(children[0]) {
        Some(children[0].value.unwrap()@)
    } else {
        first_text_label(children.drop_first())
    }
}

/// Some child shows an image.
pub open spec fn has_icon_child(children: Seq<AxChild>) -> bool {
    exists|i: int| 0 <= i < children.len() && child_has_role(children[i], "AXImage"@)
}

/// The label under which a group is presented as an item: a group that shows
/// an icon takes the value of its first non-empty text field. Other elements
/// are not promoted.
pub open spec fn promoted_label(ax_role: Option<Seq<char>>, children: Seq<AxChild>) -> Option<Seq<char>> {
    if ax_role != Some("AXGroup"@) || !has_icon_child(children) {
        None
    } else {
        first_text_label(children)
    }
}

/// The cross-platform role under which an element is presented: `cell` for a
/// promoted group, otherwise the mapping of its native role, and `unknown`
/// when it reports none.
pub open spec fn presented_role(ax_role: Option<Seq<char>>, children: Seq<AxChild>) -> Seq<char> {
    if promoted_label(ax_role, children) is Some {
        "cell"@
    } else {
        match ax_role {
            Some(a) => ax_role_canonical(a),
            None => "unknown"@,
        }
    }
}

/// The label of an icon-and-text-field group, taken from `children`, the
/// element's first non-empty list of children. `None` for every element that
/// is not such a group.
pub fn promoted_item_label(ax_role: Option<&str>, children: &Vec<AxChild>) -> (r: Option<String>)
    ensures
        match r {
            Some(s) => promoted_label(opt_str_view(ax_role), children@) == Some(s@),
            None => promoted_label(opt_str_view(ax_role), children@) is None,
        },
{
    let is_group = match ax_role {
        Some(a) => str_eq(a, "AXGroup"),
        None => false,
    };
    if !is_group {
        return None;
    }
    let mut i: usize = 0;
    let mut has_icon = false;
    while i < children.len()
        invariant
            i <= children.len(),
            !has_icon ==> forall|k: int| 0 <= k < i ==> !child_has_role(#[trigger] children@[k], "AXImage"@),
            has_icon ==> has_icon_child(children@),
        decreases children.len() - i,
    {
        let is_image = match &children[i].role {
            Some(r) => str_eq(r.as_str(), "AXImage"),
            None => false,
        };
        if is_image {
            assert(child_has_role(children@[i as int], "AXImage"@));
            has_icon = true;
        }
        i = i + 1;
    }
    if !has_icon {
        return None;
    }
    let mut j: usize = 0;
    assert(children@.skip(0) =~= children@);
    assert(promoted_label(opt_str_view(ax_role), children@) == first_text_label(children@));
    while j < children.len()
        invariant
            j <= children.len(),
            first_text_label(children@) == first_text_label(children@.skip(j as int)),
            promoted_label(opt_str_view(ax_role), children@) == first_text_label(children@),
        decreases children.len() - j,
    {
        assert(children@.skip(j as int).drop_first() =~= children@.skip(j + 1));
        assert(children@.skip(j as int)[0] == children@[j as int]);
        let is_field = match &children[j].role {
            Some(r) => str_eq(r.as_str(), "AXTextField"),
            None => false,
        };
        if is_field {
            match &children[j].value {
                Some(v) => {
                    if !v.as_str().is_empty() {
                        return Some(v.clone());
                    }
                },
                None => {},
            }
        }
        j = j + 1;
    }
    assert(children@.skip(j as int).len() == 0);
    None
}

/// The cross-platform role of an element and, for a promoted group, its
/// label. The role always belongs to the canonical vocabulary.
pub fn normalized_role_and_label(ax_role: Option<&str>, children: &Vec<AxChild>) -> (r: (String, Option<String>))
    ensures
        r.0@ == presented_role(opt_str_view(ax_role), children@),
        match r.1 {
            Some(s) => promoted_label(opt_str_view(ax_role), children@) == Some(s@),
            None => promoted_label(opt_str_view(ax_role), children@) is None,
        },
        canonical_role_list().contains(r.0@),
{
    let label = promoted_item_label(ax_role, children);
    let role: &'static str = if label.is_some() {
        "cell"
    } else {
        match ax_role {
            Some(a) => ax_role_to_str(a),
            None => "unknown",
        }
    };
    proof {
        assert(canonical_role_list()[3] == "cell"@);
        assert(canonical_role_list()[46] == "unknown"@);
        match ax_role {
            Some(a) => lemma_ax_role_canonical_is_canonical(a@),
            None => {},
        }
    }
    (owned(role), label)
}

/// The cross-platform role of an element, as `normalized_role_and_label`
/// determines it.
pub fn normalized_role_for_element(ax_role: Option<&str>, children: &Vec<AxChild>) -> (r: String)
    ensures
        r@ == presented_role(opt_str_view(ax_role), children@),
        canonical_role_list().contains(r@),
{
    normalized_role_and_label(ax_role, children).0
}

} // verus!
