//! The `is` command: does an element have a property (visible, enabled,
//! checked, focused, expanded), and does the question apply to it at all.
use vstd::prelude::*;
use crate::node::{ElementState, RefEntry};
use crate::roles::{expandable_role, is_expandable_role, is_toggleable_role, toggleable_role};
use crate::text::str_eq;

verus! {

/// Arguments of the `is` command.
pub struct IsArgs {
    pub ref_id: String,
    pub snapshot_id: Option<String>,
    pub property: IsProperty,
}

/// The property the `is` command asks about.
#[derive(Debug, Clone, Copy, PartialEq, Eq, Structural)]
pub enum IsProperty {
    Visible,
    Enabled,
    Checked,
    Focused,
    Expanded,
}

/// The answer of the `is` command.
#[derive(Debug)]
pub struct IsOutcome {
    pub property: &'static str,
    pub result: bool,
    pub applicable: bool,
}

/// `names` holds `name`.
pub open spec fn has_name(names: Seq<String>, name: Seq<char>) -> bool {
    exists|i: int| 0 <= i < names.len() && #[trigger] names[i]@ == name
}

/// The wire name of a property.
pub open spec fn property_name(p: IsProperty) -> Seq<char> {
    match p {
        IsProperty::Visible => "visible"@,
        IsProperty::Enabled => "enabled"@,
        IsProperty::Checked => "checked"@,
        IsProperty::Focused => "focused"@,
        IsProperty::Expanded => "expanded"@,
    }
}

/// Whether an element in state `states` has property `p`: visible unless
/// hidden, enabled unless disabled, otherwise the state of the same name.
pub open spec fn property_holds(p: IsProperty, states: Seq<String>) -> bool {
    match p {
        IsProperty::Visible => !has_name(states, "hidden"@),
        IsProperty::Enabled => !has_name(states, "disabled"@),
        IsProperty::Checked => has_name(states, "checked"@),
        IsProperty::Focused => has_name(states, "focused"@),
        IsProperty::Expanded => has_name(states, "expanded"@),
    }
}

/// What each property reads in the state list: an element is visible
/// exactly when no state is `hidden`, enabled exactly when no state is
/// `disabled`, and checked, focused or expanded exactly when a state of
/// that name is present. No other state changes any answer.
pub proof fn lemma_property_reads_its_state(states: Seq<String>)
    ensures
        property_holds(IsProperty::Visible, states) <==> forall|i: int|
            0 <= i < states.len() ==> #[trigger] states[i]@ != "hidden"@,
        property_holds(IsProperty::Enabled, states) <==> forall|i: int|
            0 <= i < states.len() ==> #[trigger] states[i]@ != "disabled"@,
        property_holds(IsProperty::Checked, states) <==> exists|i: int|
            0 <= i < states.len() && #[trigger] states[i]@ == "checked"@,
        property_holds(IsProperty::Focused, states) <==> exists|i: int|
            0 <= i < states.len() && #[trigger] states[i]@ == "focused"@,
        property_holds(IsProperty::Expanded, states) <==> exists|i: int|
            0 <= i < states.len() && #[trigger] states[i]@ == "expanded"@,
{
}

/// When a question applies: whether an element is visible, enabled or
/// focused can always be asked. Whether it is checked applies exactly to
/// checkboxes, switches and radio buttons, to checked elements and to those
/// offering Toggle, Check or Uncheck; whether it is expanded applies exactly
/// to combo boxes, menu buttons and tree items, to expanded elements and to
/// those offering Expand or Collapse. Each answer is reported under the
/// property's own name.
pub proof fn lemma_property_applicability(entry: RefEntry, states: Seq<String>)
    ensures
        property_applies(IsProperty::Visible, entry, states),
        property_applies(IsProperty::Enabled, entry, states),
        property_applies(IsProperty::Focused, entry, states),
        property_applies(IsProperty::Checked, entry, states) <==> (entry.role@ == "checkbox"@ || entry.role@
            == "switch"@ || entry.role@ == "radiobutton"@ || (exists|i: int|
            0 <= i < states.len() && #[trigger] states[i]@ == "checked"@) || (exists|i: int|
            0 <= i < entry.available_actions@.len() && (#[trigger] entry.available_actions@[i]@ == "Toggle"@
                || entry.available_actions@[i]@ == "Check"@ || entry.available_actions@[i]@ == "Uncheck"@))),
        property_applies(IsProperty::Expanded, entry, states) <==> (entry.role@ == "combobox"@ || entry.role@
            == "menubutton"@ || entry.role@ == "treeitem"@ || (exists|i: int|
            0 <= i < states.len() && #[trigger] states[i]@ == "expanded"@) || (exists|i: int|
            0 <= i < entry.available_actions@.len() && (#[trigger] entry.available_actions@[i]@ == "Expand"@
                || entry.available_actions@[i]@ == "Collapse"@))),
        property_name(IsProperty::Visible) == "visible"@,
        property_name(IsProperty::Enabled) == "enabled"@,
        property_name(IsProperty::Checked) == "checked"@,
        property_name(IsProperty::Focused) == "focused"@,
        property_name(IsProperty::Expanded) == "expanded"@,
{
}

/// Whether asking about `p` makes sense for the element: always for
/// visible, enabled and focused; for checked when the role is toggleable,
/// the element is checked, or it offers Toggle, Check or Uncheck; for
/// expanded when the role is expandable, the element is expanded, or it
/// offers Expand or Collapse.
pub open spec fn property_applies(p: IsProperty, entry: RefEntry, states: Seq<String>) -> bool {
    match p {
        IsProperty::Visible | IsProperty::Enabled | IsProperty::Focused => true,
        IsProperty::Checked => {
            ||| toggleable_role(entry.role@)
            ||| has_name(states, "checked"@)
            ||| has_name(entry.available_actions@, "Toggle"@)
            ||| has_name(entry.available_actions@, "Check"@)
            ||| has_name(entry.available_actions@, "Uncheck"@)
        },
        IsProperty::Expanded => {
            ||| expandable_role(entry.role@)
            ||| has_name(states, "expanded"@)
            ||| has_name(entry.available_actions@, "Expand"@)
            ||| has_name(entry.available_actions@, "Collapse"@)
        },
    }
}

/// `names` holds `name`.
fn contains_name(names: &Vec<String>, name: &str) -> (r: bool)
    ensures
        r == has_name(names@, name@),
{
    let mut i: usize = 0;
    while i < names.len()
        invariant
            i <= names.len(),
            forall|k: int| 0 <= k < i ==> names@[k]@ != name@,
        decreases names.len() - i,
    {
        if str_eq(names[i].as_str(), name) {
            return true;
        }
        i = i + 1;
    }
    false
}

/// The state that a snapshot recorded for `entry`.
pub fn state_from_ref_entry(entry: &RefEntry) -> (r: ElementState)
    ensures
        r.role@ == entry.role@,
        r.states.deep_view() == entry.states.deep_view(),
        r.value == entry.value,
{
    let states = entry.states.clone();
    proof {
        assert(states.deep_view() =~= entry.states.deep_view());
    }
    ElementState { role: entry.role.clone(), states, value: entry.value.clone() }
}

/// The element state lists `name`.
pub fn has_state(state: &ElementState, name: &str) -> (r: bool)
    ensures
        r == has_name(state.states@, name@),
{
    contains_name(&state.states, name)
}

/// The ref entry offers action `action`.
pub fn has_available_action(entry: &RefEntry, action: &str) -> (r: bool)
    ensures
        r == has_name(entry.available_actions@, action@),
{
    contains_name(&entry.available_actions, action)
}

/// Whether asking about `property` makes sense for the element.
pub fn is_applicable(property: &IsProperty, entry: &RefEntry, state: &ElementState) -> (r: bool)
    ensures
        r == property_applies(*property, *entry, state.states@),
{
    match property {
        IsProperty::Visible | IsProperty::Enabled | IsProperty::Focused => true,
        IsProperty::Checked => {
            is_toggleable_role(entry.role.as_str()) || has_state(state, "checked")
                || has_available_action(entry, "Toggle") || has_available_action(entry, "Check")
                || has_available_action(entry, "Uncheck")
        },
        IsProperty::Expanded => {
            is_expandable_role(entry.role.as_str()) || has_state(state, "expanded")
                || has_available_action(entry, "Expand") || has_available_action(entry, "Collapse")
        },
    }
}

proof fn lemma_has_name_deep_view(a: Vec<String>, b: Vec<String>, name: Seq<char>)
    requires
        a.deep_view() == b.deep_view(),
    ensures
        has_name(a@, name) == has_name(b@, name),
{
    assert(a@.len() == a.deep_view().len());
    assert(b@.len() == b.deep_view().len());
    if has_name(a@, name) {
        let i = choose|i: int| 0 <= i < a@.len() && #[trigger] a@[i]@ == name;
        assert(a.deep_view()[i] == a@[i]@);
        assert(b.deep_view()[i] == b@[i]@);
    }
    if has_name(b@, name) {
        let i = choose|i: int| 0 <= i < b@.len() && #[trigger] b@[i]@ == name;
        assert(a.deep_view()[i] == a@[i]@);
        assert(b.deep_view()[i] == b@[i]@);
    }
}

/// Answers the `is` command for the element that `entry` records. The state
/// is the live one when the platform supplied it, else the snapshot's.
pub fn evaluate_is(property: IsProperty, entry: &RefEntry, live: Option<ElementState>) -> (r: IsOutcome)
    ensures
        r.property@ == property_name(property),
        ({
            let states = match live {
                Some(s) => s.states@,
                None => entry.states@,
            };
            &&& r.result == property_holds(property, states)
            &&& r.applicable == property_applies(property, *entry, states)
        }),
{
    let state = match live {
        Some(s) => s,
        None => state_from_ref_entry(entry),
    };
    proof {
        if live is None {
            lemma_has_name_deep_view(state.states, entry.states, "hidden"@);
            lemma_has_name_deep_view(state.states, entry.states, "disabled"@);
            lemma_has_name_deep_view(state.states, entry.states, "checked"@);
            lemma_has_name_deep_view(state.states, entry.states, "focused"@);
            lemma_has_name_deep_view(state.states, entry.states, "expanded"@);
        }
    }
    let name: &'static str = match property {
        IsProperty::Visible => "visible",
        IsProperty::Enabled => "enabled",
        IsProperty::Checked => "checked",
        IsProperty::Focused => "focused",
        IsProperty::Expanded => "expanded",
    };
    let applicable = is_applicable(&property, entry, &state);
    let result = match property {
        IsProperty::Visible => !has_state(&state, "hidden"),
        IsProperty::Enabled => !has_state(&state, "disabled"),
        IsProperty::Checked => has_state(&state, "checked"),
        IsProperty::Focused => has_state(&state, "focused"),
        IsProperty::Expanded => has_state(&state, "expanded"),
    };
    IsOutcome { property: name, result, applicable }
}

} // verus!
