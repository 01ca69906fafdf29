//! The cross-platform role vocabulary: which roles exist, which of them are
//! interactive, and how caller-supplied role names resolve to them.
use vstd::prelude::*;
use crate::text::{
    ascii_lower, chars_of, eq_ignore_case, is_white_space, lower_char, str_eq, to_ascii_lowercase,
    trim, trim_hi, trim_lo, trimmed,
};

verus! {

/// Every role the platform adapters can emit, sorted. Role queries are
/// validated against this list so that an impossible role fails loudly.
pub open spec fn canonical_role_list() -> Seq<Seq<char>> {
    seq![
        "application"@,
        "browser"@,
        "button"@,
        "cell"@,
        "checkbox"@,
        "colorwell"@,
        "column"@,
        "combobox"@,
        "datefield"@,
        "dialog"@,
        "disclosure"@,
        "dockitem"@,
        "drawer"@,
        "grid"@,
        "group"@,
        "handle"@,
        "helptag"@,
        "image"@,
        "incrementor"@,
        "layoutitem"@,
        "levelindicator"@,
        "link"@,
        "list"@,
        "matte"@,
        "menu"@,
        "menubutton"@,
        "menuitem"@,
        "outline"@,
        "popover"@,
        "progressbar"@,
        "radiobutton"@,
        "relevanceindicator"@,
        "ruler"@,
        "rulermarker"@,
        "scrollarea"@,
        "sheet"@,
        "slider"@,
        "splitter"@,
        "statictext"@,
        "switch"@,
        "tab"@,
        "table"@,
        "textfield"@,
        "timefield"@,
        "toolbar"@,
        "treeitem"@,
        "unknown"@,
        "webarea"@,
        "window"@,
    ]
}

/// Interactive roles: those that receive refs during snapshot allocation.
/// Read-only roles (statictext, image) and containers (group, list, table)
/// stay out.
pub open spec fn interactive_role_list() -> Seq<Seq<char>> {
    seq![
        "button"@,
        "cell"@,
        "checkbox"@,
        "colorwell"@,
        "combobox"@,
        "dockitem"@,
        "incrementor"@,
        "link"@,
        "menubutton"@,
        "menuitem"@,
        "radiobutton"@,
        "slider"@,
        "switch"@,
        "tab"@,
        "textfield"@,
        "treeitem"@,
    ]
}

/// Roles whose checked/unchecked state can be queried and set.
pub open spec fn toggleable_role(r: Seq<char>) -> bool {
    r == "checkbox"@ || r == "switch"@ || r == "radiobutton"@
}

/// Roles that carry an expanded/collapsed state.
pub open spec fn expandable_role(r: Seq<char>) -> bool {
    r == "combobox"@ || r == "menubutton"@ || r == "treeitem"@
}

/// Roles whose value changes during normal interaction.
pub open spec fn mutable_value_role(r: Seq<char>) -> bool {
    r == "combobox"@ || r == "incrementor"@ || r == "slider"@ || r == "textfield"@
}

/// A caller-supplied role, trimmed and ASCII-lowercased.
pub open spec fn normalized_role(s: Seq<char>) -> Seq<char> {
    ascii_lower(trimmed(s))
}

/// Text-input aliases resolve to `textfield`; every other name is kept.
pub open spec fn alias_role(n: Seq<char>) -> Seq<char> {
    if n == "textarea"@ || n == "textbox"@ || n == "searchfield"@ {
        "textfield"@
    } else {
        n
    }
}

/// The role name a query `s` asks for.
pub open spec fn resolved_role(s: Seq<char>) -> Seq<char> {
    alias_role(normalized_role(s))
}

/// Strict lexicographic order on character sequences (the order of `str`'s `<`).
pub open spec fn lex_lt(a: Seq<char>, b: Seq<char>) -> bool
    decreases a.len(),
{
    if a.len() == 0 {
        b.len() > 0
    } else if b.len() == 0 {
        false
    } else if a[0] == b[0] {
        lex_lt(a.drop_first(), b.drop_first())
    } else {
        a[0] < b[0]
    }
}

/// Two sequences that agree on their first `i` characters compare as their
/// remainders after those characters do.
pub proof fn lemma_lex_lt_common_prefix(a: Seq<char>, b: Seq<char>, i: int)
    requires
        0 <= i <= a.len(),
        i <= b.len(),
        forall|k: int| 0 <= k < i ==> a[k] == b[k],
    ensures
        lex_lt(a, b) == lex_lt(a.skip(i), b.skip(i)),
        lex_lt(b, a) == lex_lt(b.skip(i), a.skip(i)),
    decreases i,
{
    if i > 0 {
        assert(a[0] == b[0]);
        assert forall|k: int| 0 <= k < i - 1 implies a.drop_first()[k] == b.drop_first()[k] by {
            assert(a[k + 1] == b[k + 1]);
        }
        lemma_lex_lt_common_prefix(a.drop_first(), b.drop_first(), i - 1);
        assert(a.drop_first().skip(i - 1) =~= a.skip(i));
        assert(b.drop_first().skip(i - 1) =~= b.skip(i));
    } else {
        assert(a.skip(0) =~= a);
        assert(b.skip(0) =~= b);
    }
}

/// Compares two character sequences in the order of `lex_lt`: negative when
/// `a` comes first, zero when they are equal, positive when `b` comes first.
pub fn lex_compare(a: &Vec<char>, b: &Vec<char>) -> (r: i8)
    ensures
        (r < 0) == lex_lt(a@, b@),
        (r == 0) == (a@ == b@),
        (r > 0) == lex_lt(b@, a@),
{
    let mut i: usize = 0;
    while i < a.len() && i < b.len()
        invariant
            i <= a.len(),
            i <= b.len(),
            forall|k: int| 0 <= k < i ==> a@[k] == b@[k],
        decreases a.len() - i,
    {
        if a[i] != b[i] {
            proof {
                lemma_lex_lt_common_prefix(a@, b@, i as int);
                assert(a@.skip(i as int)[0] == a@[i as int]);
                assert(b@.skip(i as int)[0] == b@[i as int]);
            }
            if a[i] < b[i] {
                return -1;
            } else {
                return 1;
            }
        }
        i = i + 1;
    }
    proof {
        lemma_lex_lt_common_prefix(a@, b@, i as int);
    }
    if a.len() < b.len() {
        -1
    } else if b.len() < a.len() {
        1
    } else {
        assert(a@ =~= b@);
        0
    }
}

/// Every element is strictly below its successor.
pub open spec fn sorted_strictly(s: Seq<Seq<char>>) -> bool {
    forall|i: int| 0 <= i < s.len() - 1 ==> lex_lt(#[trigger] s[i], s[i + 1])
}

/// No element occurs twice.
pub open spec fn all_distinct(s: Seq<Seq<char>>) -> bool {
    forall|i: int, j: int| 0 <= i < j < s.len() ==> s[i] != s[j]
}

/// The canonical vocabulary, as string slices.
pub fn canonical_roles() -> (r: Vec<&'static str>)
    ensures
        r@.len() == canonical_role_list().len(),
        forall|i: int| 0 <= i < r@.len() ==> #[trigger] r@[i]@ == canonical_role_list()[i],
{
    let v = vec![
        "application",
        "browser",
        "button",
        "cell",
        "checkbox",
        "colorwell",
        "column",
        "combobox",
        "datefield",
        "dialog",
        "disclosure",
        "dockitem",
        "drawer",
        "grid",
        "group",
        "handle",
        "helptag",
        "image",
        "incrementor",
        "layoutitem",
        "levelindicator",
        "link",
        "list",
        "matte",
        "menu",
        "menubutton",
        "menuitem",
        "outline",
        "popover",
        "progressbar",
        "radiobutton",
        "relevanceindicator",
        "ruler",
        "rulermarker",
        "scrollarea",
        "sheet",
        "slider",
        "splitter",
        "statictext",
        "switch",
        "tab",
        "table",
        "textfield",
        "timefield",
        "toolbar",
        "treeitem",
        "unknown",
        "webarea",
        "window",
    ];
    v
}

/// The interactive roles, as string slices.
pub fn interactive_roles() -> (r: Vec<&'static str>)
    ensures
        r@.len() == interactive_role_list().len(),
        forall|i: int| 0 <= i < r@.len() ==> #[trigger] r@[i]@ == interactive_role_list()[i],
{
    let v = vec![
        "button",
        "cell",
        "checkbox",
        "colorwell",
        "combobox",
        "dockitem",
        "incrementor",
        "link",
        "menubutton",
        "menuitem",
        "radiobutton",
        "slider",
        "switch",
        "tab",
        "textfield",
        "treeitem",
    ];
    v
}

/// `role` is one of `list`.
fn is_listed(list: &Vec<&'static str>, role: &str) -> (r: Option<&'static str>)
    ensures
        r matches Some(c) ==> c@ == role@ && list@.map_values(|s: &str| s@).contains(c@),
        r is None ==> !list@.map_values(|s: &str| s@).contains(role@),
{
    let ghost views = list@.map_values(|s: &str| s@);
    let mut i: usize = 0;
    while i < list.len()
        invariant
            i <= list.len(),
            views == list@.map_values(|s: &str| s@),
            forall|k: int| 0 <= k < i ==> views[k] != role@,
        decreases list.len() - i,
    {
        if str_eq(list[i], role) {
            assert(views[i as int] == role@);
            return Some(list[i]);
        }
        i = i + 1;
    }
    None
}

/// Resolves a caller-supplied role to the canonical vocabulary,
/// case-insensitively and ignoring surrounding whitespace. The text-input
/// aliases `textarea`, `textbox` and `searchfield` resolve to `textfield`.
/// Returns `None` for roles that no adapter can ever emit.
pub fn canonical_role(role: &str) -> (r: Option<&'static str>)
    ensures
        r matches Some(c) ==> c@ == resolved_role(role@) && canonical_role_list().contains(c@),
        r is None ==> !canonical_role_list().contains(resolved_role(role@)),
{
    let t = trim(role);
    let normalized = to_ascii_lowercase(t.as_str());
    let aliased: &str = if str_eq(normalized.as_str(), "textarea") || str_eq(normalized.as_str(), "textbox")
        || str_eq(normalized.as_str(), "searchfield") {
        "textfield"
    } else {
        normalized.as_str()
    };
    assert(aliased@ == resolved_role(role@));
    let list = canonical_roles();
    assert(list@.map_values(|s: &str| s@) =~= canonical_role_list());
    is_listed(&list, aliased)
}

/// `role` is one of the interactive roles.
pub fn is_interactive_role(role: &str) -> (r: bool)
    ensures
        r == interactive_role_list().contains(role@),
{
    let list = interactive_roles();
    assert(list@.map_values(|s: &str| s@) =~= interactive_role_list());
    is_listed(&list, role).is_some()
}

/// `role` is a role whose checked/unchecked state can be queried and set.
pub fn is_toggleable_role(role: &str) -> (r: bool)
    ensures
        r == toggleable_role(role@),
{
    str_eq(role, "checkbox") || str_eq(role, "switch") || str_eq(role, "radiobutton")
}

/// `role` is a role that carries an expanded/collapsed surface state.
pub fn is_expandable_role(role: &str) -> (r: bool)
    ensures
        r == expandable_role(role@),
{
    str_eq(role, "combobox") || str_eq(role, "menubutton") || str_eq(role, "treeitem")
}

/// `role` is a role whose value changes during normal interaction and must
/// not be treated as stable ref identity.
pub fn is_mutable_value_role(role: &str) -> (r: bool)
    ensures
        r == mutable_value_role(role@),
{
    str_eq(role, "combobox") || str_eq(role, "incrementor") || str_eq(role, "slider") || str_eq(
        role,
        "textfield",
    )
}

pub proof fn lemma_lex_lt_transitive(a: Seq<char>, b: Seq<char>, c: Seq<char>)
    requires
        lex_lt(a, b),
        lex_lt(b, c),
    ensures
        lex_lt(a, c),
    decreases a.len(),
{
    if a.len() > 0 && b.len() > 0 && c.len() > 0 && a[0] == b[0] && b[0] == c[0] {
        lemma_lex_lt_transitive(a.drop_first(), b.drop_first(), c.drop_first());
    }
}

pub proof fn lemma_lex_lt_irreflexive(a: Seq<char>)
    ensures
        !lex_lt(a, a),
    decreases a.len(),
{
    if a.len() > 0 {
        lemma_lex_lt_irreflexive(a.drop_first());
    }
}

pub proof fn lemma_sorted_all_pairs(s: Seq<Seq<char>>, i: int, j: int)
    requires
        sorted_strictly(s),
        0 <= i < j < s.len(),
    ensures
        lex_lt(s[i], s[j]),
    decreases j - i,
{
    if j > i + 1 {
        lemma_sorted_all_pairs(s, i, j - 1);
        assert(lex_lt(s[j - 1], s[j]));
        lemma_lex_lt_transitive(s[i], s[j - 1], s[j]);
    }
}

/// Strictly sorted lists hold no duplicates.
pub proof fn lemma_sorted_strictly_distinct(s: Seq<Seq<char>>)
    requires
        sorted_strictly(s),
    ensures
        all_distinct(s),
{
    assert forall|i: int, j: int| 0 <= i < j < s.len() implies s[i] != s[j] by {
        lemma_sorted_all_pairs(s, i, j);
        lemma_lex_lt_irreflexive(s[i]);
    }
}

/// The interactive roles are sorted and unique.
pub proof fn lemma_interactive_roles_sorted_unique()
    ensures
        sorted_strictly(interactive_role_list()),
        all_distinct(interactive_role_list()),
{
    assert(sorted_strictly(interactive_role_list())) by {
        reveal_strlit("button");
        reveal_strlit("cell");
        reveal_strlit("checkbox");
        reveal_strlit("colorwell");
        reveal_strlit("combobox");
        reveal_strlit("dockitem");
        reveal_strlit("incrementor");
        reveal_strlit("link");
        reveal_strlit("menubutton");
        reveal_strlit("menuitem");
        reveal_strlit("radiobutton");
        reveal_strlit("slider");
        reveal_strlit("switch");
        reveal_strlit("tab");
        reveal_strlit("textfield");
        reveal_strlit("treeitem");
        reveal_with_fuel(lex_lt, 12);
        assert(lex_lt("button"@, "cell"@));
        assert(lex_lt("cell"@, "checkbox"@));
        assert(lex_lt("checkbox"@, "colorwell"@));
        assert(lex_lt("colorwell"@, "combobox"@));
        assert(lex_lt("combobox"@, "dockitem"@));
        assert(lex_lt("dockitem"@, "incrementor"@));
        assert(lex_lt("incrementor"@, "link"@));
        assert(lex_lt("link"@, "menubutton"@));
        assert(lex_lt("menubutton"@, "menuitem"@));
        assert(lex_lt("menuitem"@, "radiobutton"@));
        assert(lex_lt("radiobutton"@, "slider"@));
        assert(lex_lt("slider"@, "switch"@));
        assert(lex_lt("switch"@, "tab"@));
        assert(lex_lt("tab"@, "textfield"@));
        assert(lex_lt("textfield"@, "treeitem"@));
    }
    lemma_sorted_strictly_distinct(interactive_role_list());
}

/// The canonical vocabulary is sorted and unique.
pub proof fn lemma_canonical_roles_sorted_unique()
    ensures
        sorted_strictly(canonical_role_list()),
        all_distinct(canonical_role_list()),
{
    assert(sorted_strictly(canonical_role_list())) by {
        reveal_strlit("application");
        reveal_strlit("browser");
        reveal_strlit("button");
        reveal_strlit("cell");
        reveal_strlit("checkbox");
        reveal_strlit("colorwell");
        reveal_strlit("column");
        reveal_strlit("combobox");
        reveal_strlit("datefield");
        reveal_strlit("dialog");
        reveal_strlit("disclosure");
        reveal_strlit("dockitem");
        reveal_strlit("drawer");
        reveal_strlit("grid");
        reveal_strlit("group");
        reveal_strlit("handle");
        reveal_strlit("helptag");
        reveal_strlit("image");
        reveal_strlit("incrementor");
        reveal_strlit("layoutitem");
        reveal_strlit("levelindicator");
        reveal_strlit("link");
        reveal_strlit("list");
        reveal_strlit("matte");
        reveal_strlit("menu");
        reveal_strlit("menubutton");
        reveal_strlit("menuitem");
        reveal_strlit("outline");
        reveal_strlit("popover");
        reveal_strlit("progressbar");
        reveal_strlit("radiobutton");
        reveal_strlit("relevanceindicator");
        reveal_strlit("ruler");
        reveal_strlit("rulermarker");
        reveal_strlit("scrollarea");
        reveal_strlit("sheet");
        reveal_strlit("slider");
        reveal_strlit("splitter");
        reveal_strlit("statictext");
        reveal_strlit("switch");
        reveal_strlit("tab");
        reveal_strlit("table");
        reveal_strlit("textfield");
        reveal_strlit("timefield");
        reveal_strlit("toolbar");
        reveal_strlit("treeitem");
        reveal_strlit("unknown");
        reveal_strlit("webarea");
        reveal_strlit("window");
        reveal_with_fuel(lex_lt, 12);
        assert(lex_lt("application"@, "browser"@));
        assert(lex_lt("browser"@, "button"@));
        assert(lex_lt("button"@, "cell"@));
        assert(lex_lt("cell"@, "checkbox"@));
        assert(lex_lt("checkbox"@, "colorwell"@));
        assert(lex_lt("colorwell"@, "column"@));
        assert(lex_lt("column"@, "combobox"@));
        assert(lex_lt("combobox"@, "datefield"@));
        assert(lex_lt("datefield"@, "dialog"@));
        assert(lex_lt("dialog"@, "disclosure"@));
        assert(lex_lt("disclosure"@, "dockitem"@));
        assert(lex_lt("dockitem"@, "drawer"@));
        assert(lex_lt("drawer"@, "grid"@));
        assert(lex_lt("grid"@, "group"@));
        assert(lex_lt("group"@, "handle"@));
        assert(lex_lt("handle"@, "helptag"@));
        assert(lex_lt("helptag"@, "image"@));
        assert(lex_lt("image"@, "incrementor"@));
        assert(lex_lt("incrementor"@, "layoutitem"@));
        assert(lex_lt("layoutitem"@, "levelindicator"@));
        assert(lex_lt("levelindicator"@, "link"@));
        assert(lex_lt("link"@, "list"@));
        assert(lex_lt("list"@, "matte"@));
        assert(lex_lt("matte"@, "menu"@));
        assert(lex_lt("menu"@, "menubutton"@));
        assert(lex_lt("menubutton"@, "menuitem"@));
        assert(lex_lt("menuitem"@, "outline"@));
        assert(lex_lt("outline"@, "popover"@));
        assert(lex_lt("popover"@, "progressbar"@));
        assert(lex_lt("progressbar"@, "radiobutton"@));
        assert(lex_lt("radiobutton"@, "relevanceindicator"@));
        assert(lex_lt("relevanceindicator"@, "ruler"@));
        assert(lex_lt("ruler"@, "rulermarker"@));
        assert(lex_lt("rulermarker"@, "scrollarea"@));
        assert(lex_lt("scrollarea"@, "sheet"@));
        assert(lex_lt("sheet"@, "slider"@));
        assert(lex_lt("slider"@, "splitter"@));
        assert(lex_lt("splitter"@, "statictext"@));
        assert(lex_lt("statictext"@, "switch"@));
        assert(lex_lt("switch"@, "tab"@));
        assert(lex_lt("tab"@, "table"@));
        assert(lex_lt("table"@, "textfield"@));
        assert(lex_lt("textfield"@, "timefield"@));
        assert(lex_lt("timefield"@, "toolbar"@));
        assert(lex_lt("toolbar"@, "treeitem"@));
        assert(lex_lt("treeitem"@, "unknown"@));
        assert(lex_lt("unknown"@, "webarea"@));
        assert(lex_lt("webarea"@, "window"@));
    }
    lemma_sorted_strictly_distinct(canonical_role_list());
}

/// Every interactive role belongs to the canonical vocabulary.
pub proof fn lemma_interactive_roles_are_canonical()
    ensures
        forall|r: Seq<char>| #[trigger] interactive_role_list().contains(r)
            ==> canonical_role_list().contains(r),
{
    assert forall|r: Seq<char>| #[trigger] interactive_role_list().contains(r)
        implies canonical_role_list().contains(r) by {
        let i = choose|i: int| 0 <= i < interactive_role_list().len() && interactive_role_list()[i] == r;
        if i == 0 {
            assert(canonical_role_list()[2] == interactive_role_list()[0]);
        } else if i == 1 {
            assert(canonical_role_list()[3] == interactive_role_list()[1]);
        } else if i == 2 {
            assert(canonical_role_list()[4] == interactive_role_list()[2]);
        } else if i == 3 {
            assert(canonical_role_list()[5] == interactive_role_list()[3]);
        } else if i == 4 {
            assert(canonical_role_list()[7] == interactive_role_list()[4]);
        } else if i == 5 {
            assert(canonical_role_list()[11] == interactive_role_list()[5]);
        } else if i == 6 {
            assert(canonical_role_list()[18] == interactive_role_list()[6]);
        } else if i == 7 {
            assert(canonical_role_list()[21] == interactive_role_list()[7]);
        } else if i == 8 {
            assert(canonical_role_list()[25] == interactive_role_list()[8]);
        } else if i == 9 {
            assert(canonical_role_list()[26] == interactive_role_list()[9]);
        } else if i == 10 {
            assert(canonical_role_list()[30] == interactive_role_list()[10]);
        } else if i == 11 {
            assert(canonical_role_list()[36] == interactive_role_list()[11]);
        } else if i == 12 {
            assert(canonical_role_list()[39] == interactive_role_list()[12]);
        } else if i == 13 {
            assert(canonical_role_list()[40] == interactive_role_list()[13]);
        } else if i == 14 {
            assert(canonical_role_list()[42] == interactive_role_list()[14]);
        } else if i == 15 {
            assert(canonical_role_list()[45] == interactive_role_list()[15]);
        }
    }
}

/// Every toggleable, expandable or mutable-value role is interactive.
pub proof fn lemma_stateful_roles_are_interactive(r: Seq<char>)
    requires
        toggleable_role(r) || expandable_role(r) || mutable_value_role(r),
    ensures
        interactive_role_list().contains(r),
{
    if r == "checkbox"@ {
        assert(interactive_role_list()[2] == r);
    }
    if r == "switch"@ {
        assert(interactive_role_list()[12] == r);
    }
    if r == "radiobutton"@ {
        assert(interactive_role_list()[10] == r);
    }
    if r == "combobox"@ {
        assert(interactive_role_list()[4] == r);
    }
    if r == "menubutton"@ {
        assert(interactive_role_list()[8] == r);
    }
    if r == "treeitem"@ {
        assert(interactive_role_list()[15] == r);
    }
    if r == "incrementor"@ {
        assert(interactive_role_list()[6] == r);
    }
    if r == "slider"@ {
        assert(interactive_role_list()[11] == r);
    }
    if r == "textfield"@ {
        assert(interactive_role_list()[14] == r);
    }
}

/// `s` is a non-empty run of ASCII lowercase letters.
pub open spec fn lowercase_word(s: Seq<char>) -> bool {
    s.len() > 0 && forall|i: int| 0 <= i < s.len() ==> 'a' <= #[trigger] s[i] <= 'z'
}

proof fn lemma_lowercase_word_is_normal(s: Seq<char>)
    requires
        lowercase_word(s),
    ensures
        normalized_role(s) == s,
{
    assert(!is_white_space(s[0]));
    assert(!is_white_space(s.last()));
    assert(trim_lo(s) == 0);
    assert(trim_hi(s) == s.len());
    assert(trimmed(s) =~= s);
    assert(ascii_lower(s) =~= s);
}

proof fn lemma_white_space_unchanged_by_lowering(c: char)
    ensures
        is_white_space(lower_char(c)) == is_white_space(c),
{
}

proof fn lemma_trim_bounds_ignore_case(s: Seq<char>)
    ensures
        trim_lo(ascii_lower(s)) == trim_lo(s),
        trim_hi(ascii_lower(s)) == trim_hi(s),
    decreases s.len(),
{
    if s.len() > 0 {
        lemma_white_space_unchanged_by_lowering(s[0]);
        lemma_white_space_unchanged_by_lowering(s.last());
        assert(ascii_lower(s).drop_first() =~= ascii_lower(s.drop_first()));
        assert(ascii_lower(s).drop_last() =~= ascii_lower(s.drop_last()));
        lemma_trim_bounds_ignore_case(s.drop_first());
        lemma_trim_bounds_ignore_case(s.drop_last());
    }
}

proof fn lemma_trim_lo_bound(s: Seq<char>)
    ensures
        0 <= trim_lo(s) <= s.len(),
    decreases s.len(),
{
    if s.len() > 0 {
        lemma_trim_lo_bound(s.drop_first());
    }
}

proof fn lemma_trim_hi_bound(s: Seq<char>)
    ensures
        0 <= trim_hi(s) <= s.len(),
    decreases s.len(),
{
    if s.len() > 0 {
        lemma_trim_hi_bound(s.drop_last());
    }
}

proof fn lemma_normalized_is_lowered_trim(s: Seq<char>)
    ensures
        normalized_role(s) == trimmed(ascii_lower(s)),
{
    lemma_trim_bounds_ignore_case(s);
    lemma_trim_lo_bound(s);
    lemma_trim_hi_bound(s);
    let t = ascii_lower(s);
    if trim_lo(s) < trim_hi(s) {
        assert(ascii_lower(s.subrange(trim_lo(s), trim_hi(s))) =~= t.subrange(trim_lo(t), trim_hi(t)));
    } else {
        assert(ascii_lower(Seq::<char>::empty()) =~= Seq::<char>::empty());
    }
}

/// Role resolution ignores ASCII case: two queries that differ only in the
/// case of ASCII letters ask for the same role.
pub proof fn lemma_canonical_role_ignores_case(a: Seq<char>, b: Seq<char>)
    requires
        eq_ignore_case(a, b),
    ensures
        resolved_role(a) == resolved_role(b),
{
    lemma_normalized_is_lowered_trim(a);
    lemma_normalized_is_lowered_trim(b);
}

/// Every canonical role, asked for by its own name, resolves to itself:
/// `canonical_role(c)` returns `Some(c)` for every listed `c`.
pub proof fn lemma_canonical_roles_resolve_to_themselves(c: Seq<char>)
    requires
        canonical_role_list().contains(c),
    ensures
        resolved_role(c) == c,
        canonical_role_list().contains(resolved_role(c)),
{
    let i = choose|i: int| 0 <= i < canonical_role_list().len() && canonical_role_list()[i] == c;
    assert(lowercase_word(c) && c != "textarea"@ && c != "textbox"@ && c != "searchfield"@) by {
        reveal_strlit("textarea");
        reveal_strlit("textbox");
        reveal_strlit("searchfield");
        reveal_with_fuel(lex_lt, 12);
        lemma_lex_lt_irreflexive(c);
        if i == 0 {
            reveal_strlit("application");
            assert(lex_lt(c, "textarea"@) || lex_lt("textarea"@, c));
            assert(lex_lt(c, "textbox"@) || lex_lt("textbox"@, c));
            assert(lex_lt(c, "searchfield"@) || lex_lt("searchfield"@, c));
        } else if i == 1 {
            reveal_strlit("browser");
            assert(lex_lt(c, "textarea"@) || lex_lt("textarea"@, c));
            assert(lex_lt(c, "textbox"@) || lex_lt("textbox"@, c));
            assert(lex_lt(c, "searchfield"@) || lex_lt("searchfield"@, c));
        } else if i == 2 {
            reveal_strlit("button");
            assert(lex_lt(c, "textarea"@) || lex_lt("textarea"@, c));
            assert(lex_lt(c, "textbox"@) || lex_lt("textbox"@, c));
            assert(lex_lt(c, "searchfield"@) || lex_lt("searchfield"@, c));
        } else if i == 3 {
            reveal_strlit("cell");
            assert(lex_lt(c, "textarea"@) || lex_lt("textarea"@, c));
            assert(lex_lt(c, "textbox"@) || lex_lt("textbox"@, c));
            assert(lex_lt(c, "searchfield"@) || lex_lt("searchfield"@, c));
        } else if i == 4 {
            reveal_strlit("checkbox");
            assert(lex_lt(c, "textarea"@) || lex_lt("textarea"@, c));
            assert(lex_lt(c, "textbox"@) || lex_lt("textbox"@, c));
            assert(lex_lt(c, "searchfield"@) || lex_lt("searchfield"@, c));
        } else if i == 5 {
            reveal_strlit("colorwell");
            assert(lex_lt(c, "textarea"@) || lex_lt("textarea"@, c));
            assert(lex_lt(c, "textbox"@) || lex_lt("textbox"@, c));
            assert(lex_lt(c, "searchfield"@) || lex_lt("searchfield"@, c));
        } else if i == 6 {
            reveal_strlit("column");
            assert(lex_lt(c, "textarea"@) || lex_lt("textarea"@, c));
            assert(lex_lt(c, "textbox"@) || lex_lt("textbox"@, c));
            assert(lex_lt(c, "searchfield"@) || lex_lt("searchfield"@, c));
        } else if i == 7 {
            reveal_strlit("combobox");
            assert(lex_lt(c, "textarea"@) || lex_lt("textarea"@, c));
            assert(lex_lt(c, "textbox"@) || lex_lt("textbox"@, c));
            assert(lex_lt(c, "searchfield"@) || lex_lt("searchfield"@, c));
        } else if i == 8 {
            reveal_strlit("datefield");
            assert(lex_lt(c, "textarea"@) || lex_lt("textarea"@, c));
            assert(lex_lt(c, "textbox"@) || lex_lt("textbox"@, c));
            assert(lex_lt(c, "searchfield"@) || lex_lt("searchfield"@, c));
        } else if i == 9 {
            reveal_strlit("dialog");
            assert(lex_lt(c, "textarea"@) || lex_lt("textarea"@, c));
            assert(lex_lt(c, "textbox"@) || lex_lt("textbox"@, c));
            assert(lex_lt(c, "searchfield"@) || lex_lt("searchfield"@, c));
        } else if i == 10 {
            reveal_strlit("disclosure");
            assert(lex_lt(c, "textarea"@) || lex_lt("textarea"@, c));
            assert(lex_lt(c, "textbox"@) || lex_lt("textbox"@, c));
            assert(lex_lt(c, "searchfield"@) || lex_lt("searchfield"@, c));
        } else if i == 11 {
            reveal_strlit("dockitem");
            assert(lex_lt(c, "textarea"@) || lex_lt("textarea"@, c));
            assert(lex_lt(c, "textbox"@) || lex_lt("textbox"@, c));
            assert(lex_lt(c, "searchfield"@) || lex_lt("searchfield"@, c));
        } else if i == 12 {
            reveal_strlit("drawer");
            assert(lex_lt(c, "textarea"@) || lex_lt("textarea"@, c));
            assert(lex_lt(c, "textbox"@) || lex_lt("textbox"@, c));
            assert(lex_lt(c, "searchfield"@) || lex_lt("searchfield"@, c));
        } else if i == 13 {
            reveal_strlit("grid");
            assert(lex_lt(c, "textarea"@) || lex_lt("textarea"@, c));
            assert(lex_lt(c, "textbox"@) || lex_lt("textbox"@, c));
            assert(lex_lt(c, "searchfield"@) || lex_lt("searchfield"@, c));
        } else if i == 14 {
            reveal_strlit("group");
            assert(lex_lt(c, "textarea"@) || lex_lt("textarea"@, c));
            assert(lex_lt(c, "textbox"@) || lex_lt("textbox"@, c));
            assert(lex_lt(c, "searchfield"@) || lex_lt("searchfield"@, c));
        } else if i == 15 {
            reveal_strlit("handle");
            assert(lex_lt(c, "textarea"@) || lex_lt("textarea"@, c));
            assert(lex_lt(c, "textbox"@) || lex_lt("textbox"@, c));
            assert(lex_lt(c, "searchfield"@) || lex_lt("searchfield"@, c));
        } else if i == 16 {
            reveal_strlit("helptag");
            assert(lex_lt(c, "textarea"@) || lex_lt("textarea"@, c));
            assert(lex_lt(c, "textbox"@) || lex_lt("textbox"@, c));
            assert(lex_lt(c, "searchfield"@) || lex_lt("searchfield"@, c));
        } else if i == 17 {
            reveal_strlit("image");
            assert(lex_lt(c, "textarea"@) || lex_lt("textarea"@, c));
            assert(lex_lt(c, "textbox"@) || lex_lt("textbox"@, c));
            assert(lex_lt(c, "searchfield"@) || lex_lt("searchfield"@, c));
        } else if i == 18 {
            reveal_strlit("incrementor");
            assert(lex_lt(c, "textarea"@) || lex_lt("textarea"@, c));
            assert(lex_lt(c, "textbox"@) || lex_lt("textbox"@, c));
            assert(lex_lt(c, "searchfield"@) || lex_lt("searchfield"@, c));
        } else if i == 19 {
            reveal_strlit("layoutitem");
            assert(lex_lt(c, "textarea"@) || lex_lt("textarea"@, c));
            assert(lex_lt(c, "textbox"@) || lex_lt("textbox"@, c));
            assert(lex_lt(c, "searchfield"@) || lex_lt("searchfield"@, c));
        } else if i == 20 {
            reveal_strlit("levelindicator");
            assert(lex_lt(c, "textarea"@) || lex_lt("textarea"@, c));
            assert(lex_lt(c, "textbox"@) || lex_lt("textbox"@, c));
            assert(lex_lt(c, "searchfield"@) || lex_lt("searchfield"@, c));
        } else if i == 21 {
            reveal_strlit("link");
            assert(lex_lt(c, "textarea"@) || lex_lt("textarea"@, c));
            assert(lex_lt(c, "textbox"@) || lex_lt("textbox"@, c));
            assert(lex_lt(c, "searchfield"@) || lex_lt("searchfield"@, c));
        } else if i == 22 {
            reveal_strlit("list");
            assert(lex_lt(c, "textarea"@) || lex_lt("textarea"@, c));
            assert(lex_lt(c, "textbox"@) || lex_lt("textbox"@, c));
            assert(lex_lt(c, "searchfield"@) || lex_lt("searchfield"@, c));
        } else if i == 23 {
            reveal_strlit("matte");
            assert(lex_lt(c, "textarea"@) || lex_lt("textarea"@, c));
            assert(lex_lt(c, "textbox"@) || lex_lt("textbox"@, c));
            assert(lex_lt(c, "searchfield"@) || lex_lt("searchfield"@, c));
        } else if i == 24 {
            reveal_strlit("menu");
            assert(lex_lt(c, "textarea"@) || lex_lt("textarea"@, c));
            assert(lex_lt(c, "textbox"@) || lex_lt("textbox"@, c));
            assert(lex_lt(c, "searchfield"@) || lex_lt("searchfield"@, c));
        } else if i == 25 {
            reveal_strlit("menubutton");
            assert(lex_lt(c, "textarea"@) || lex_lt("textarea"@, c));
            assert(lex_lt(c, "textbox"@) || lex_lt("textbox"@, c));
            assert(lex_lt(c, "searchfield"@) || lex_lt("searchfield"@, c));
        } else if i == 26 {
            reveal_strlit("menuitem");
            assert(lex_lt(c, "textarea"@) || lex_lt("textarea"@, c));
            assert(lex_lt(c, "textbox"@) || lex_lt("textbox"@, c));
            assert(lex_lt(c, "searchfield"@) || lex_lt("searchfield"@, c));
        } else if i == 27 {
            reveal_strlit("outline");
            assert(lex_lt(c, "textarea"@) || lex_lt("textarea"@, c));
            assert(lex_lt(c, "textbox"@) || lex_lt("textbox"@, c));
            assert(lex_lt(c, "searchfield"@) || lex_lt("searchfield"@, c));
        } else if i == 28 {
            reveal_strlit("popover");
            assert(lex_lt(c, "textarea"@) || lex_lt("textarea"@, c));
            assert(lex_lt(c, "textbox"@) || lex_lt("textbox"@, c));
            assert(lex_lt(c, "searchfield"@) || lex_lt("searchfield"@, c));
        } else if i == 29 {
            reveal_strlit("progressbar");
            assert(lex_lt(c, "textarea"@) || lex_lt("textarea"@, c));
            assert(lex_lt(c, "textbox"@) || lex_lt("textbox"@, c));
            assert(lex_lt(c, "searchfield"@) || lex_lt("searchfield"@, c));
        } else if i == 30 {
            reveal_strlit("radiobutton");
            assert(lex_lt(c, "textarea"@) || lex_lt("textarea"@, c));
            assert(lex_lt(c, "textbox"@) || lex_lt("textbox"@, c));
            assert(lex_lt(c, "searchfield"@) || lex_lt("searchfield"@, c));
        } else if i == 31 {
            reveal_strlit("relevanceindicator");
            assert(lex_lt(c, "textarea"@) || lex_lt("textarea"@, c));
            assert(lex_lt(c, "textbox"@) || lex_lt("textbox"@, c));
            assert(lex_lt(c, "searchfield"@) || lex_lt("searchfield"@, c));
        } else if i == 32 {
            reveal_strlit("ruler");
            assert(lex_lt(c, "textarea"@) || lex_lt("textarea"@, c));
            assert(lex_lt(c, "textbox"@) || lex_lt("textbox"@, c));
            assert(lex_lt(c, "searchfield"@) || lex_lt("searchfield"@, c));
        } else if i == 33 {
            reveal_strlit("rulermarker");
            assert(lex_lt(c, "textarea"@) || lex_lt("textarea"@, c));
            assert(lex_lt(c, "textbox"@) || lex_lt("textbox"@, c));
            assert(lex_lt(c, "searchfield"@) || lex_lt("searchfield"@, c));
        } else if i == 34 {
            reveal_strlit("scrollarea");
            assert(lex_lt(c, "textarea"@) || lex_lt("textarea"@, c));
            assert(lex_lt(c, "textbox"@) || lex_lt("textbox"@, c));
            assert(lex_lt(c, "searchfield"@) || lex_lt("searchfield"@, c));
        } else if i == 35 {
            reveal_strlit("sheet");
            assert(lex_lt(c, "textarea"@) || lex_lt("textarea"@, c));
            assert(lex_lt(c, "textbox"@) || lex_lt("textbox"@, c));
            assert(lex_lt(c, "searchfield"@) || lex_lt("searchfield"@, c));
        } else if i == 36 {
            reveal_strlit("slider");
            assert(lex_lt(c, "textarea"@) || lex_lt("textarea"@, c));
            assert(lex_lt(c, "textbox"@) || lex_lt("textbox"@, c));
            assert(lex_lt(c, "searchfield"@) || lex_lt("searchfield"@, c));
        } else if i == 37 {
            reveal_strlit("splitter");
            assert(lex_lt(c, "textarea"@) || lex_lt("textarea"@, c));
            assert(lex_lt(c, "textbox"@) || lex_lt("textbox"@, c));
            assert(lex_lt(c, "searchfield"@) || lex_lt("searchfield"@, c));
        } else if i == 38 {
            reveal_strlit("statictext");
            assert(lex_lt(c, "textarea"@) || lex_lt("textarea"@, c));
            assert(lex_lt(c, "textbox"@) || lex_lt("textbox"@, c));
            assert(lex_lt(c, "searchfield"@) || lex_lt("searchfield"@, c));
        } else if i == 39 {
            reveal_strlit("switch");
            assert(lex_lt(c, "textarea"@) || lex_lt("textarea"@, c));
            assert(lex_lt(c, "textbox"@) || lex_lt("textbox"@, c));
            assert(lex_lt(c, "searchfield"@) || lex_lt("searchfield"@, c));
        } else if i == 40 {
            reveal_strlit("tab");
            assert(lex_lt(c, "textarea"@) || lex_lt("textarea"@, c));
            assert(lex_lt(c, "textbox"@) || lex_lt("textbox"@, c));
            assert(lex_lt(c, "searchfield"@) || lex_lt("searchfield"@, c));
        } else if i == 41 {
            reveal_strlit("table");
            assert(lex_lt(c, "textarea"@) || lex_lt("textarea"@, c));
            assert(lex_lt(c, "textbox"@) || lex_lt("textbox"@, c));
            assert(lex_lt(c, "searchfield"@) || lex_lt("searchfield"@, c));
        } else if i == 42 {
            reveal_strlit("textfield");
            assert(lex_lt(c, "textarea"@) || lex_lt("textarea"@, c));
            assert(lex_lt(c, "textbox"@) || lex_lt("textbox"@, c));
            assert(lex_lt(c, "searchfield"@) || lex_lt("searchfield"@, c));
        } else if i == 43 {
            reveal_strlit("timefield");
            assert(lex_lt(c, "textarea"@) || lex_lt("textarea"@, c));
            assert(lex_lt(c, "textbox"@) || lex_lt("textbox"@, c));
            assert(lex_lt(c, "searchfield"@) || lex_lt("searchfield"@, c));
        } else if i == 44 {
            reveal_strlit("toolbar");
            assert(lex_lt(c, "textarea"@) || lex_lt("textarea"@, c));
            assert(lex_lt(c, "textbox"@) || lex_lt("textbox"@, c));
            assert(lex_lt(c, "searchfield"@) || lex_lt("searchfield"@, c));
        } else if i == 45 {
            reveal_strlit("treeitem");
            assert(lex_lt(c, "textarea"@) || lex_lt("textarea"@, c));
            assert(lex_lt(c, "textbox"@) || lex_lt("textbox"@, c));
            assert(lex_lt(c, "searchfield"@) || lex_lt("searchfield"@, c));
        } else if i == 46 {
            reveal_strlit("unknown");
            assert(lex_lt(c, "textarea"@) || lex_lt("textarea"@, c));
            assert(lex_lt(c, "textbox"@) || lex_lt("textbox"@, c));
            assert(lex_lt(c, "searchfield"@) || lex_lt("searchfield"@, c));
        } else if i == 47 {
            reveal_strlit("webarea");
            assert(lex_lt(c, "textarea"@) || lex_lt("textarea"@, c));
            assert(lex_lt(c, "textbox"@) || lex_lt("textbox"@, c));
            assert(lex_lt(c, "searchfield"@) || lex_lt("searchfield"@, c));
        } else if i == 48 {
            reveal_strlit("window");
            assert(lex_lt(c, "textarea"@) || lex_lt("textarea"@, c));
            assert(lex_lt(c, "textbox"@) || lex_lt("textbox"@, c));
            assert(lex_lt(c, "searchfield"@) || lex_lt("searchfield"@, c));
        }
    }
    lemma_lowercase_word_is_normal(c);
}

/// Every interactive role is canonical and resolves to itself:
/// `canonical_role(r)` returns `Some(r)` for every interactive `r`.
pub proof fn lemma_interactive_roles_resolve_to_themselves(r: Seq<char>)
    requires
        interactive_role_list().contains(r),
    ensures
        canonical_role_list().contains(r),
        resolved_role(r) == r,
{
    lemma_interactive_roles_are_canonical();
    lemma_canonical_roles_resolve_to_themselves(r);
}

} // verus!
