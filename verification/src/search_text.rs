//! Text matching for searches: queries are trimmed and lowercased once, and
//! a text matches when its ASCII-lowercased form contains the query.
use vstd::prelude::*;
use crate::node::AccessibilityNode;
use crate::text::{ascii_lower, chars_contain, chars_of, has_substring, to_ascii_lowercase, trim, trimmed};

verus! {

/// The form in which a query is compared: trimmed and ASCII-lowercased.
pub open spec fn normalized_text(s: Seq<char>) -> Seq<char> {
    ascii_lower(trimmed(s))
}

/// `text` matches the normalized query `needle`.
pub open spec fn text_contains(text: Seq<char>, needle: Seq<char>) -> bool {
    has_substring(ascii_lower(text), needle)
}

/// An optional text that is present and matches `needle`.
pub open spec fn opt_text_contains(text: Option<String>, needle: Seq<char>) -> bool {
    text matches Some(t) && text_contains(t@, needle)
}

/// The node's name, value or description matches `needle`.
pub open spec fn node_text_contains(node: AccessibilityNode, needle: Seq<char>) -> bool {
    ||| opt_text_contains(node.name, needle)
    ||| opt_text_contains(node.value, needle)
    ||| opt_text_contains(node.description, needle)
}

/// Puts a query in the form in which it is compared.
pub fn normalize(s: &str) -> (r: String)
    ensures
        r@ == normalized_text(s@),
{
    let t = trim(s);
    to_ascii_lowercase(t.as_str())
}

/// `text` matches the normalized query `needle`.
pub fn contains(text: &str, needle: &str) -> (r: bool)
    ensures
        r == text_contains(text@, needle@),
{
    let lowered = to_ascii_lowercase(text);
    let hay = chars_of(lowered.as_str());
    let n = chars_of(needle);
    chars_contain(&hay, &n)
}

fn opt_contains(text: &Option<String>, needle: &str) -> (r: bool)
    ensures
        r == opt_text_contains(*text, needle@),
{
    match text {
        Some(t) => contains(t.as_str(), needle),
        None => false,
    }
}

/// The node's name, value or description matches the normalized query.
pub fn node_contains(node: &AccessibilityNode, needle: &str) -> (r: bool)
    ensures
        r == node_text_contains(*node, needle@),
{
    opt_contains(&node.name, needle) || opt_contains(&node.value, needle) || opt_contains(
        &node.description,
        needle,
    )
}

} // verus!
