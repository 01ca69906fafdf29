//! The `find` command: searching an accessibility tree for nodes by role,
//! name, value or text, in depth-first order, with result shaping (count,
//! first, last, nth, limit).
use vstd::prelude::*;
use crate::error::AppError;
use crate::node::AccessibilityNode;
use crate::search_text::{contains, node_contains, node_text_contains, normalize, normalized_text, opt_text_contains};
use crate::text::{append_str, ascii_lower, has_substring, owned, str_eq, trimmed};

verus! {

/// How many matches `find` materializes unless told otherwise.
pub const DEFAULT_LIMIT: usize = 50;

/// Arguments of the `find` command.
pub struct FindArgs {
    pub app: Option<String>,
    pub role: Option<String>,
    pub name: Option<String>,
    pub value: Option<String>,
    pub text: Option<String>,
    pub count: bool,
    pub first: bool,
    pub last: bool,
    pub nth: Option<usize>,
    pub limit: Option<usize>,
}

/// A search query: the role compared exactly, the texts already normalized.
pub struct FindQuery {
    pub role: Option<String>,
    pub name: Option<String>,
    pub value: Option<String>,
    pub text: Option<String>,
}

/// One search result.
#[derive(Debug)]
pub struct FindMatch {
    pub ref_id: Option<String>,
    pub role: String,
    pub name: String,
    pub value: Option<String>,
    pub interactive: bool,
    pub path: Vec<String>,
}

/// A search result as plain values.
pub struct FindMatchView {
    pub ref_id: Option<Seq<char>>,
    pub role: Seq<char>,
    pub name: Seq<char>,
    pub value: Option<Seq<char>>,
    pub interactive: bool,
    pub path: Seq<Seq<char>>,
}

/// The characters of an optional text.
pub open spec fn opt_view(o: Option<String>) -> Option<Seq<char>> {
    match o {
        Some(s) => Some(s@),
        None => None,
    }
}

impl View for FindMatch {
    type V = FindMatchView;

    open spec fn view(&self) -> FindMatchView {
        FindMatchView {
            ref_id: opt_view(self.ref_id),
            role: self.role@,
            name: self.name@,
            value: opt_view(self.value),
            interactive: self.interactive,
            path: self.path.deep_view(),
        }
    }
}

/// The views of a sequence of results.
pub open spec fn match_views(s: Seq<FindMatch>) -> Seq<FindMatchView> {
    s.map_values(|m: FindMatch| m@)
}

/// A search query as plain values.
pub struct FindQueryView {
    pub role: Option<Seq<char>>,
    pub name: Option<Seq<char>>,
    pub value: Option<Seq<char>>,
    pub text: Option<Seq<char>>,
}

impl View for FindQuery {
    type V = FindQueryView;

    open spec fn view(&self) -> FindQueryView {
        FindQueryView {
            role: opt_view(self.role),
            name: opt_view(self.name),
            value: opt_view(self.value),
            text: opt_view(self.text),
        }
    }
}

/// An optional text in the form in which it is compared.
pub open spec fn opt_normalized(o: Option<String>) -> Option<Seq<char>> {
    match o {
        Some(s) => Some(normalized_text(s@)),
        None => None,
    }
}

/// The query that `args` describe: the role as given, the texts normalized.
pub open spec fn query_view_of(args: FindArgs) -> FindQueryView {
    FindQueryView {
        role: opt_view(args.role),
        name: opt_normalized(args.name),
        value: opt_normalized(args.value),
        text: opt_normalized(args.text),
    }
}

/// `node` satisfies every part of `q` that is given: the role is equal, the
/// name and value contain the query, and the text occurs in the name, value
/// or description.
pub open spec fn query_matches(node: AccessibilityNode, q: FindQueryView) -> bool {
    &&& (q.role matches Some(r) ==> node.role@ == r)
    &&& (q.name matches Some(n) ==> opt_text_contains(node.name, n))
    &&& (q.value matches Some(v) ==> opt_text_contains(node.value, v))
    &&& (q.text matches Some(t) ==> node_text_contains(node, t))
}

/// The name a result shows: the node's name, else its value, else its
/// description, else `(unnamed <role>)`.
pub open spec fn display_name(node: AccessibilityNode) -> Seq<char> {
    match node.name {
        Some(n) => n@,
        None => match node.value {
            Some(v) => v@,
            None => match node.description {
                Some(d) => d@,
                None => "(unnamed "@ + node.role@ + ")"@,
            },
        },
    }
}

/// How a node appears in the path of its descendants: `<role>:<name>`, else
/// `<role>:<value>`, else `<role>`.
pub open spec fn path_label(node: AccessibilityNode) -> Seq<char> {
    match node.name {
        Some(n) => node.role@ + ":"@ + n@,
        None => match node.value {
            Some(v) => node.role@ + ":"@ + v@,
            None => node.role@,
        },
    }
}

/// The result that records `node`, found under `path`.
pub open spec fn match_of(node: AccessibilityNode, path: Seq<Seq<char>>) -> FindMatchView {
    FindMatchView {
        ref_id: opt_view(node.ref_id),
        role: node.role@,
        name: display_name(node),
        value: opt_view(node.value),
        interactive: node.ref_id is Some,
        path,
    }
}

/// Every match in the tree rooted at `node`, in depth-first pre-order,
/// each with the labels of its ancestors below `path`.
pub open spec fn found(node: AccessibilityNode, q: FindQueryView, path: Seq<Seq<char>>) -> Seq<FindMatchView>
    decreases node,
{
    let own = if query_matches(node, q) {
        seq![match_of(node, path)]
    } else {
        Seq::empty()
    };
    own + found_seq(node.children@, q, path.push(path_label(node)))
}

/// The matches of a sequence of sibling trees, in order.
pub open spec fn found_seq(s: Seq<AccessibilityNode>, q: FindQueryView, path: Seq<Seq<char>>) -> Seq<FindMatchView>
    decreases s,
{
    if s.len() == 0 {
        Seq::empty()
    } else {
        found_seq(s.drop_last(), q, path) + found(s.last(), q, path)
    }
}

/// The number of nodes in the tree rooted at `node`.
pub open spec fn tree_size(node: AccessibilityNode) -> nat
    decreases node,
{
    1 + forest_size(node.children@)
}

/// The number of nodes in a sequence of trees.
pub open spec fn forest_size(s: Seq<AccessibilityNode>) -> nat
    decreases s,
{
    if s.len() == 0 {
        0
    } else {
        forest_size(s.drop_last()) + tree_size(s.last())
    }
}

/// The number of nodes in the tree that satisfy `q`.
pub open spec fn match_count(node: AccessibilityNode, q: FindQueryView) -> nat
    decreases node,
{
    (if query_matches(node, q) { 1nat } else { 0nat }) + match_count_seq(node.children@, q)
}

/// The number of matching nodes in a sequence of trees.
pub open spec fn match_count_seq(s: Seq<AccessibilityNode>, q: FindQueryView) -> nat
    decreases s,
{
    if s.len() == 0 {
        0
    } else {
        match_count_seq(s.drop_last(), q) + match_count(s.last(), q)
    }
}

/// What `before` becomes when `found` is appended under `limit`: all of it
/// without a limit, else only as much as fills the results up to the limit.
pub open spec fn capped<A>(before: Seq<A>, found: Seq<A>, limit: Option<usize>) -> Seq<A> {
    match limit {
        None => before + found,
        Some(l) => if before.len() >= l {
            before
        } else if before.len() + found.len() <= l {
            before + found
        } else {
            before + found.take(l - before.len())
        },
    }
}

/// Appending `found` to `before` reaches `limit`.
pub open spec fn reached(before_len: nat, found_len: nat, limit: Option<usize>) -> bool {
    limit matches Some(l) && before_len + found_len >= l
}

/// The most matches that `find` materializes for `args`: none is capped for
/// `--count` and `--last`; one for `--first`; `n + 1` for `--nth n`;
/// otherwise the limit (50 by default), where a limit of 0 means no cap.
pub open spec fn max_matches_spec(args: FindArgs) -> Option<usize> {
    if args.count || args.last {
        None
    } else if args.first {
        Some(1)
    } else if args.nth is Some {
        let n = args.nth->0;
        Some(if n == usize::MAX { usize::MAX } else { (n + 1) as usize })
    } else {
        let l = match args.limit {
            Some(l) => l,
            None => DEFAULT_LIMIT,
        };
        if l == 0 {
            None
        } else {
            Some(l)
        }
    }
}

/// The number of result-shaping modes chosen among `--count`, `--first`,
/// `--last` and `--nth`.
pub open spec fn selector_count(args: FindArgs) -> nat {
    (if args.count { 1nat } else { 0nat }) + (if args.first { 1nat } else { 0nat }) + (if args.last {
        1nat
    } else {
        0nat
    }) + (if args.nth is Some { 1nat } else { 0nat })
}

/// `find` accepts at most one shaping mode, and `--limit` only on its own.
pub open spec fn find_mode_ok(args: FindArgs) -> bool {
    selector_count(args) <= 1 && !(selector_count(args) == 1 && args.limit is Some)
}

/// The cap on materialized matches for `args`.
pub fn max_matches_for_args(args: &FindArgs) -> (r: Option<usize>)
    ensures
        r == max_matches_spec(*args),
{
    if args.count || args.last {
        return None;
    }
    if args.first {
        return Some(1);
    }
    if let Some(n) = args.nth {
        return Some(n.saturating_add(1));
    }
    let limit = match args.limit {
        Some(l) => l,
        None => DEFAULT_LIMIT,
    };
    if limit == 0 {
        None
    } else {
        Some(limit)
    }
}

/// Rejects arguments that choose more than one result-shaping mode, or a
/// mode together with `--limit`.
pub fn validate_find_mode(args: &FindArgs) -> (r: Result<(), AppError>)
    ensures
        r is Ok <==> find_mode_ok(*args),
        r matches Err(e) ==> e matches AppError::InvalidInput { message, suggestion }
            && message@ == "find accepts only one result-shaping mode"@
            && (suggestion matches Some(s) && s@ == "Use one of --count, --first, --last, --nth, or --limit."@),
{
    let mut selector_count: usize = 0;
    if args.count {
        selector_count = selector_count + 1;
    }
    if args.first {
        selector_count = selector_count + 1;
    }
    if args.last {
        selector_count = selector_count + 1;
    }
    if args.nth.is_some() {
        selector_count = selector_count + 1;
    }
    if selector_count > 1 || (selector_count == 1 && args.limit.is_some()) {
        return Err(
            AppError::invalid_input_with_suggestion(
                "find accepts only one result-shaping mode",
                "Use one of --count, --first, --last, --nth, or --limit.",
            ),
        );
    }
    Ok(())
}

fn normalize_opt(s: &Option<String>) -> (r: Option<String>)
    ensures
        opt_view(r) == opt_normalized(*s),
{
    match s {
        Some(n) => Some(normalize(n.as_str())),
        None => None,
    }
}

impl FindQuery {
    /// The query that `args` describe.
    pub fn from_args(args: &FindArgs) -> (r: FindQuery)
        ensures
            r@ == query_view_of(*args),
    {
        FindQuery {
            role: args.role.clone(),
            name: normalize_opt(&args.name),
            value: normalize_opt(&args.value),
            text: normalize_opt(&args.text),
        }
    }
}

/// `node` satisfies `query`.
pub fn node_matches(node: &AccessibilityNode, query: &FindQuery) -> (r: bool)
    ensures
        r == query_matches(*node, query@),
{
    let role_match = match &query.role {
        Some(r) => str_eq(node.role.as_str(), r.as_str()),
        None => true,
    };
    let name_match = match &query.name {
        Some(n) => match &node.name {
            Some(text) => contains(text.as_str(), n.as_str()),
            None => false,
        },
        None => true,
    };
    let value_match = match &query.value {
        Some(v) => match &node.value {
            Some(val) => contains(val.as_str(), v.as_str()),
            None => false,
        },
        None => true,
    };
    let text_match = match &query.text {
        Some(t) => node_contains(node, t.as_str()),
        None => true,
    };
    role_match && name_match && value_match && text_match
}

proof fn lemma_match_count_le_size(node: AccessibilityNode, q: FindQueryView)
    ensures
        match_count(node, q) <= tree_size(node),
    decreases node,
{
    lemma_match_count_seq_le_size(node.children@, q);
}

proof fn lemma_match_count_seq_le_size(s: Seq<AccessibilityNode>, q: FindQueryView)
    ensures
        match_count_seq(s, q) <= forest_size(s),
    decreases s,
{
    if s.len() > 0 {
        lemma_match_count_seq_le_size(s.drop_last(), q);
        lemma_match_count_le_size(s.last(), q);
    }
}

proof fn lemma_forest_size_prefix(s: Seq<AccessibilityNode>, i: int)
    requires
        0 <= i <= s.len(),
    ensures
        forest_size(s.take(i)) <= forest_size(s),
    decreases s.len() - i,
{
    if i < s.len() {
        lemma_forest_size_prefix(s, i + 1);
        assert(s.take(i + 1).drop_last() =~= s.take(i));
    } else {
        assert(s.take(i) =~= s);
    }
}

/// The number of nodes in the tree rooted at `node` that satisfy `query`.
pub fn count_matches(node: &AccessibilityNode, query: &FindQuery) -> (r: usize)
    requires
        tree_size(*node) <= usize::MAX,
    ensures
        r == match_count(*node, query@),
    decreases node,
{
    let mut total: usize = if node_matches(node, query) { 1 } else { 0 };
    let ghost own: nat = if query_matches(*node, query@) { 1nat } else { 0nat };
    let mut i: usize = 0;
    proof {
        lemma_match_count_le_size(*node, query@);
        assert(node.children@.take(0) =~= Seq::<AccessibilityNode>::empty());
    }
    while i < node.children.len()
        invariant
            i <= node.children.len(),
            tree_size(*node) <= usize::MAX,
            total == own + match_count_seq(node.children@.take(i as int), query@),
            own + match_count_seq(node.children@, query@) == match_count(*node, query@),
            match_count(*node, query@) <= tree_size(*node),
            own <= 1,
        decreases node.children.len() - i,
    {
        let child = &node.children[i];
        proof {
            assert(node.children@.take(i + 1).drop_last() =~= node.children@.take(i as int));
            assert(node.children@.take(i + 1).last() == *child);
            lemma_forest_size_prefix(node.children@, i + 1);
            lemma_match_count_le_size(*child, query@);
            lemma_match_count_seq_le_size(node.children@.take(i + 1), query@);
            assert(forest_size(node.children@.take(i + 1)) == forest_size(node.children@.take(i as int))
                + tree_size(*child));
            assert(tree_size(*child) <= tree_size(*node));
        }
        let c = count_matches(child, query);
        total = total + c;
        i = i + 1;
    }
    proof {
        assert(node.children@.take(i as int) =~= node.children@);
    }
    total
}

proof fn lemma_capped_unreached<A>(b: Seq<A>, t: Seq<A>, limit: Option<usize>)
    requires
        !reached(b.len(), t.len(), limit),
    ensures
        capped(b, t, limit) == b + t,
        limit matches Some(l) ==> b.len() + t.len() < l,
{
}

proof fn lemma_capped_step<A>(b: Seq<A>, t: Seq<A>, x: Seq<A>, limit: Option<usize>)
    requires
        !reached(b.len(), t.len(), limit),
    ensures
        capped(b + t, x, limit) == capped(b, t + x, limit),
        reached((b + t).len(), x.len(), limit) == reached(b.len(), (t + x).len(), limit),
{
    assert((b + t) + x =~= b + (t + x));
    if let Some(l) = limit {
        if (b + t).len() + x.len() > l {
            assert((b + t) + x.take(l - (b + t).len()) =~= b + (t + x).take(l - b.len()));
        }
    }
}

proof fn lemma_capped_reached<A>(b: Seq<A>, t: Seq<A>, rest: Seq<A>, limit: Option<usize>)
    requires
        reached(b.len(), t.len(), limit),
    ensures
        capped(b, t + rest, limit) == capped(b, t, limit),
        reached(b.len(), (t + rest).len(), limit),
{
    if let Some(l) = limit {
        if b.len() < l {
            assert((t + rest).take(l - b.len()) =~= t.take(l - b.len()));
            if b.len() + t.len() <= l {
                assert(t.take(l - b.len()) =~= t);
            }
            if b.len() + (t + rest).len() <= l {
                assert(rest.len() == 0);
                assert(t + rest =~= t);
            }
        }
    }
}

proof fn lemma_found_seq_split(s: Seq<AccessibilityNode>, q: FindQueryView, p: Seq<Seq<char>>, i: int)
    requires
        0 <= i <= s.len(),
    ensures
        found_seq(s, q, p) == found_seq(s.take(i), q, p) + found_seq(s.skip(i), q, p),
    decreases s.len(),
{
    if i == s.len() {
        assert(s.take(i) =~= s);
        assert(s.skip(i) =~= Seq::<AccessibilityNode>::empty());
        assert(found_seq(s, q, p) + Seq::<FindMatchView>::empty() =~= found_seq(s, q, p));
    } else {
        let d = s.drop_last();
        lemma_found_seq_split(d, q, p, i);
        assert(d.take(i) =~= s.take(i));
        assert(s.skip(i).drop_last() =~= d.skip(i));
        assert(s.skip(i).last() == s.last());
        assert(found_seq(d.take(i), q, p) + found_seq(d.skip(i), q, p) + found(s.last(), q, p)
            =~= found_seq(d.take(i), q, p) + (found_seq(d.skip(i), q, p) + found(s.last(), q, p)));
    }
}

/// The path label of `node` (`<role>:<name>`, `<role>:<value>` or `<role>`).
fn node_path_label(node: &AccessibilityNode) -> (r: String)
    ensures
        r@ == path_label(*node),
{
    let label = match &node.name {
        Some(n) => Some(n),
        None => match &node.value {
            Some(v) => Some(v),
            None => None,
        },
    };
    match label {
        Some(l) => {
            let mut s = node.role.clone();
            append_str(&mut s, ":");
            append_str(&mut s, l.as_str());
            s
        },
        None => node.role.clone(),
    }
}

/// The display name of `node`.
fn node_display_name(node: &AccessibilityNode) -> (r: String)
    ensures
        r@ == display_name(*node),
{
    match &node.name {
        Some(n) => n.clone(),
        None => match &node.value {
            Some(v) => v.clone(),
            None => match &node.description {
                Some(d) => d.clone(),
                None => {
                    let mut s = owned("(unnamed ");
                    append_str(&mut s, node.role.as_str());
                    append_str(&mut s, ")");
                    s
                },
            },
        },
    }
}

/// The result that records `node` under `path`.
fn make_match(node: &AccessibilityNode, path: &Vec<String>) -> (r: FindMatch)
    ensures
        r@ == match_of(*node, path.deep_view()),
{
    let p = path.clone();
    proof {
        assert(p.deep_view() =~= path.deep_view());
    }
    FindMatch {
        ref_id: node.ref_id.clone(),
        role: node.role.clone(),
        name: node_display_name(node),
        value: node.value.clone(),
        interactive: node.ref_id.is_some(),
        path: p,
    }
}

/// Searches the tree rooted at `node` in depth-first pre-order and appends
/// every node that satisfies `query` to `matches`, recording the labels of
/// its ancestors (`path` holds those above `node`). With a cap, the search
/// stops as soon as `matches` holds that many results, and returns whether
/// it stopped for that reason. `path` is left as it was.
pub fn search_tree(
    node: &AccessibilityNode,
    query: &FindQuery,
    path: &mut Vec<String>,
    matches: &mut Vec<FindMatch>,
    max_matches: Option<usize>,
) -> (r: bool)
    ensures
        final(path).deep_view() == old(path).deep_view(),
        match_views(final(matches)@) == capped(
            match_views(old(matches)@),
            found(*node, query@, old(path).deep_view()),
            max_matches,
        ),
        r == reached(
            old(matches)@.len(),
            found(*node, query@, old(path).deep_view()).len(),
            max_matches,
        ),
    decreases node,
{
    let ghost p0 = path.deep_view();
    let ghost before = match_views(matches@);
    let ghost own: Seq<FindMatchView> = if query_matches(*node, query@) {
        seq![match_of(*node, p0)]
    } else {
        Seq::empty()
    };
    let ghost p1 = p0.push(path_label(*node));
    let ghost rest = found_seq(node.children@, query@, p1);
    assert(found(*node, query@, p0) == own + rest);
    if let Some(limit) = max_matches {
        if matches.len() >= limit {
            return true;
        }
    }
    if node_matches(node, query) {
        let m = make_match(node, path);
        matches.push(m);
        assert(match_views(matches@) =~= before + own);
        if let Some(limit) = max_matches {
            if matches.len() >= limit {
                proof {
                    lemma_capped_reached(before, own, rest, max_matches);
                    lemma_capped_unreached(before, Seq::<FindMatchView>::empty(), max_matches);
                    assert(before + Seq::<FindMatchView>::empty() =~= before);
                }
                return true;
            }
        }
    } else {
        assert(before + own =~= before);
    }
    let label = node_path_label(node);
    path.push(label);
    assert(path.deep_view() =~= p1);
    let mut i: usize = 0;
    assert(node.children@.take(0) =~= Seq::<AccessibilityNode>::empty());
    assert(own + found_seq(node.children@.take(0), query@, p1) =~= own);
    while i < node.children.len()
        invariant
            i <= node.children.len(),
            path.deep_view() == p1,
            p1 == p0.push(path_label(*node)),
            p0.len() + 1 == p1.len(),
            forall|k: int| 0 <= k < p0.len() ==> p1[k] == p0[k],
            rest == found_seq(node.children@, query@, p1),
            match_views(matches@) == before + (own + found_seq(node.children@.take(i as int), query@, p1)),
            !reached(before.len(), (own + found_seq(node.children@.take(i as int), query@, p1)).len(), max_matches),
            before.len() == old(matches)@.len(),
            before == match_views(old(matches)@),
            p0 == old(path).deep_view(),
            found(*node, query@, p0) == own + rest,
        decreases node.children.len() - i,
    {
        let child = &node.children[i];
        let ghost t = own + found_seq(node.children@.take(i as int), query@, p1);
        let ghost fc = found(*child, query@, p1);
        proof {
            assert(node.children@.take(i + 1).drop_last() =~= node.children@.take(i as int));
            assert(node.children@.take(i + 1).last() == *child);
            assert(own + found_seq(node.children@.take(i + 1), query@, p1) =~= t + fc);
            lemma_capped_step(before, t, fc, max_matches);
        }
        if search_tree(child, query, path, matches, max_matches) {
            let _ = path.pop();
            proof {
                lemma_found_seq_split(node.children@, query@, p1, i + 1);
                assert(own + rest =~= (t + fc) + found_seq(node.children@.skip(i + 1), query@, p1));
                lemma_capped_reached(before, t + fc, found_seq(node.children@.skip(i + 1), query@, p1), max_matches);
                assert(path.deep_view() =~= p0);
            }
            return true;
        }
        proof {
            lemma_capped_unreached(before + t, fc, max_matches);
        }
        i = i + 1;
    }
    let _ = path.pop();
    proof {
        assert(node.children@.take(i as int) =~= node.children@);
        lemma_capped_unreached(before, own + rest, max_matches);
        assert(path.deep_view() =~= p0);
    }
    false
}

/// A search without a cap yields exactly as many results as the tree has
/// matching nodes: `search_tree` and `count_matches` agree.
pub proof fn lemma_search_count_agree(node: AccessibilityNode, q: FindQueryView, path: Seq<Seq<char>>)
    ensures
        found(node, q, path).len() == match_count(node, q),
    decreases node,
{
    lemma_search_count_agree_seq(node.children@, q, path.push(path_label(node)));
}

/// The sequence form of `lemma_search_count_agree`.
pub proof fn lemma_search_count_agree_seq(s: Seq<AccessibilityNode>, q: FindQueryView, path: Seq<Seq<char>>)
    ensures
        found_seq(s, q, path).len() == match_count_seq(s, q),
    decreases s,
{
    if s.len() > 0 {
        lemma_search_count_agree_seq(s.drop_last(), q, path);
        lemma_search_count_agree(s.last(), q, path);
    }
}

/// A capped search from no results yields the first `min(cap, n)` of the `n`
/// results of the uncapped search, in the same order.
pub proof fn lemma_capped_search_is_prefix<A>(f: Seq<A>, limit: usize)
    ensures
        capped(Seq::<A>::empty(), f, Some(limit)).len() == if f.len() < limit { f.len() } else { limit as nat },
        capped(Seq::<A>::empty(), f, Some(limit)) == f.take(capped(Seq::<A>::empty(), f, Some(limit)).len() as int),
{
    assert(Seq::<A>::empty() + f =~= f);
    if limit > 0 && f.len() > limit {
        assert(Seq::<A>::empty() + f.take(limit as int) =~= f.take(limit as int));
    }
    if limit == 0 {
        assert(f.take(0) =~= Seq::<A>::empty());
    }
    if f.len() <= limit {
        assert(f.take(f.len() as int) =~= f);
    }
}

/// What `find` answers.
#[derive(Debug)]
pub enum FindOutcome {
    /// `--count`: the number of matching nodes.
    Count(usize),
    /// `--first`, `--last`, `--nth`: one result, if there is one.
    Match(Option<FindMatch>),
    /// Otherwise: the results, up to the cap.
    Matches(Vec<FindMatch>),
}

/// The view of an optional result.
pub open spec fn opt_match_view(m: Option<FindMatch>) -> Option<FindMatchView> {
    match m {
        Some(x) => Some(x@),
        None => None,
    }
}

/// The `i`-th element of `f`, if it has one.
pub open spec fn nth_of<A>(f: Seq<A>, i: int) -> Option<A> {
    if 0 <= i < f.len() {
        Some(f[i])
    } else {
        None
    }
}

/// What `find` answers for `args` on `tree`, given the results `f` of the
/// uncapped search.
pub open spec fn find_answer(args: FindArgs, tree: AccessibilityNode, o: FindOutcome) -> bool {
    let q = query_view_of(args);
    let f = found(tree, q, Seq::empty());
    if args.count {
        o matches FindOutcome::Count(n) && n == match_count(tree, q)
    } else if args.first {
        o matches FindOutcome::Match(m) && opt_match_view(m) == nth_of(f, 0)
    } else if args.last {
        o matches FindOutcome::Match(m) && opt_match_view(m) == nth_of(f, f.len() - 1)
    } else if args.nth is Some {
        o matches FindOutcome::Match(m) && opt_match_view(m) == nth_of(f, args.nth->0 as int)
    } else {
        o matches FindOutcome::Matches(v) && match_views(v@) == capped(
            Seq::empty(),
            f,
            max_matches_spec(args),
        )
    }
}

proof fn lemma_found_bounded(tree: AccessibilityNode, q: FindQueryView, path: Seq<Seq<char>>)
    ensures
        found(tree, q, path).len() <= tree_size(tree),
{
    lemma_search_count_agree(tree, q, path);
    lemma_match_count_le_size(tree, q);
}

/// The `find` command on an already captured tree: checks the shaping
/// options, then counts, picks one result, or lists the results up to the
/// cap. Results come in depth-first pre-order.
pub fn find_in_tree(args: &FindArgs, tree: &AccessibilityNode) -> (r: Result<FindOutcome, AppError>)
    requires
        tree_size(*tree) <= usize::MAX,
    ensures
        r is Err <==> !find_mode_ok(*args),
        r matches Err(e) ==> e matches AppError::InvalidInput { message, .. }
            && message@ == "find accepts only one result-shaping mode"@,
        r matches Ok(o) ==> find_answer(*args, *tree, o),
{
    validate_find_mode(args)?;
    let query = FindQuery::from_args(args);
    let ghost q = query@;
    let ghost f = found(*tree, q, Seq::empty());
    if args.count {
        return Ok(FindOutcome::Count(count_matches(tree, &query)));
    }
    let max_matches = max_matches_for_args(args);
    let mut matches: Vec<FindMatch> = Vec::new();
    let mut path: Vec<String> = Vec::new();
    proof {
        assert(path.deep_view() =~= Seq::<Seq<char>>::empty());
        assert(match_views(matches@) =~= Seq::<FindMatchView>::empty());
        lemma_found_bounded(*tree, q, Seq::empty());
    }
    let _ = search_tree(tree, &query, &mut path, &mut matches, max_matches);
    proof {
        assert(Seq::<FindMatchView>::empty() + f =~= f);
    }
    if args.first {
        proof {
            lemma_capped_search_is_prefix(f, 1);
        }
        if matches.len() > 0 {
            let ghost all = matches@;
            let m = matches.remove(0);
            assert(m@ == match_views(all)[0]);
            assert(match_views(all) == f.take(1));
            return Ok(FindOutcome::Match(Some(m)));
        }
        return Ok(FindOutcome::Match(None));
    }
    if args.last {
        if matches.len() > 0 {
            let ghost all = matches@;
            let m = matches.pop().unwrap();
            assert(m@ == match_views(all)[all.len() - 1]);
            return Ok(FindOutcome::Match(Some(m)));
        }
        return Ok(FindOutcome::Match(None));
    }
    if let Some(n) = args.nth {
        proof {
            lemma_capped_search_is_prefix(f, max_matches->0);
        }
        if n < matches.len() {
            let ghost all = matches@;
            let m = matches.remove(n);
            assert(m@ == match_views(all)[n as int]);
            return Ok(FindOutcome::Match(Some(m)));
        }
        return Ok(FindOutcome::Match(None));
    }
    Ok(FindOutcome::Matches(matches))
}

/// A result records the node it was found at: its ref, role and value, and
/// whether it has a ref; its name is the node's name, else its value, else
/// its description, else `(unnamed <role>)`. In the tree's results, a
/// matching node comes before everything found below it.
pub proof fn lemma_result_records_its_node(node: AccessibilityNode, q: FindQueryView, path: Seq<Seq<char>>)
    ensures
        match_of(node, path).ref_id == (match node.ref_id {
            Some(r) => Some(r@),
            None => None,
        }),
        match_of(node, path).role == node.role@,
        match_of(node, path).value == (match node.value {
            Some(v) => Some(v@),
            None => None,
        }),
        match_of(node, path).interactive == node.ref_id is Some,
        match_of(node, path).path == path,
        node.name matches Some(n) ==> match_of(node, path).name == n@,
        node.name is None ==> (node.value matches Some(v) ==> match_of(node, path).name == v@),
        (node.name is None && node.value is None) ==> (node.description matches Some(d) ==> match_of(node, path).name
            == d@),
        (node.name is None && node.value is None && node.description is None) ==> match_of(node, path).name
            == "(unnamed "@ + node.role@ + ")"@,
        query_matches(node, q) ==> found(node, q, path).len() > 0 && found(node, q, path)[0] == match_of(node, path),
        !query_matches(node, q) ==> found(node, q, path) == found_seq(node.children@, q, path.push(path_label(node))),
{
    let rest = found_seq(node.children@, q, path.push(path_label(node)));
    if !query_matches(node, q) {
        assert(Seq::<FindMatchView>::empty() + rest =~= rest);
    }
}

/// A query keeps the role as given and compares each text trimmed and
/// ASCII-lowercased; a part that is not given stays absent.
pub proof fn lemma_query_is_normalized(args: FindArgs)
    ensures
        query_view_of(args).role == (match args.role {
            Some(r) => Some(r@),
            None => None,
        }),
        query_view_of(args).name == (match args.name {
            Some(n) => Some(ascii_lower(trimmed(n@))),
            None => None,
        }),
        query_view_of(args).value == (match args.value {
            Some(v) => Some(ascii_lower(trimmed(v@))),
            None => None,
        }),
        query_view_of(args).text == (match args.text {
            Some(t) => Some(ascii_lower(trimmed(t@))),
            None => None,
        }),
{
}

/// `a` and `b` ask for the same nodes.
pub open spec fn same_query(a: FindArgs, b: FindArgs) -> bool {
    a.role == b.role && a.name == b.name && a.value == b.value && a.text == b.text
}

/// How the shaping modes relate to the full listing. Take the answer of a
/// plain search with `--limit 0` (no cap), `listed`, and the answer `o` for
/// the same query under any accepted mode: `--count` gives the length of
/// `listed`; `--first`, `--last` and `--nth n` give its first, last and
/// `n`-th result, or nothing when there is none; `--limit l` (l > 0) gives
/// its first `l` results and no mode gives its first 50.
pub proof fn lemma_shaping_picks_from_full_listing(
    args: FindArgs,
    all: FindArgs,
    tree: AccessibilityNode,
    listed: Vec<FindMatch>,
    o: FindOutcome,
)
    requires
        same_query(args, all),
        !all.count && !all.first && !all.last && all.nth is None && all.limit == Some(0usize),
        find_mode_ok(args),
        find_answer(all, tree, FindOutcome::Matches(listed)),
        find_answer(args, tree, o),
    ensures
        args.count ==> (o matches FindOutcome::Count(n) && n == listed.len()),
        !args.count && args.first ==> (o matches FindOutcome::Match(m) && (if listed.len() > 0 {
            m matches Some(x) && x@ == listed@[0]@
        } else {
            m is None
        })),
        !args.count && !args.first && args.last ==> (o matches FindOutcome::Match(m) && (if listed.len() > 0 {
            m matches Some(x) && x@ == listed@[listed.len() - 1]@
        } else {
            m is None
        })),
        !args.count && !args.first && !args.last ==> (args.nth matches Some(n) ==> (o matches FindOutcome::Match(m)
            && (if n < listed.len() {
            m matches Some(x) && x@ == listed@[n as int]@
        } else {
            m is None
        }))),
        selector_count(args) == 0 ==> (o matches FindOutcome::Matches(v) && match_views(v@) == match_views(
            listed@,
        ).take(
            (if args.limit == Some(0usize) {
                listed.len() as int
            } else {
                let l: int = match args.limit {
                    Some(l) => l as int,
                    None => 50,
                };
                if l < listed.len() {
                    l
                } else {
                    listed.len() as int
                }
            }),
        )),
{
    let q = query_view_of(args);
    let f = found(tree, q, Seq::empty());
    assert(query_view_of(all) == q);
    assert(Seq::<FindMatchView>::empty() + f =~= f);
    assert(match_views(listed@) == f);
    assert(match_views(listed@).len() == listed@.len());
    lemma_search_count_agree(tree, q, Seq::empty());
    if selector_count(args) == 0 && args.limit != Some(0usize) {
        let l: usize = match args.limit {
            Some(l) => l,
            None => DEFAULT_LIMIT,
        };
        lemma_capped_search_is_prefix(f, l);
    }
    if selector_count(args) == 0 && args.limit == Some(0usize) {
        assert(f.take(f.len() as int) =~= f);
    }
}

/// What each part of a query looks at. A `--role` query compares the role
/// exactly; a `--name` query looks only at the name and a `--value` query
/// only at the value, each matching when that text is present and its ASCII
/// lowercase form contains the query; a `--text` query matches when the
/// name, value or description does. A node without the looked-at text never
/// matches. A query with several parts matches exactly when each part, asked
/// alone, does.
pub proof fn lemma_query_parts(node: AccessibilityNode, q: FindQueryView)
    ensures
        q.role matches Some(r) ==> (query_matches(node, FindQueryView { role: Some(r), name: None, value: None, text: None })
            <==> node.role@ == r),
        q.name matches Some(n) ==> (query_matches(node, FindQueryView { role: None, name: Some(n), value: None, text: None })
            <==> (node.name matches Some(t) && has_substring(ascii_lower(t@), n))),
        q.value matches Some(v) ==> (query_matches(node, FindQueryView { role: None, name: None, value: Some(v), text: None })
            <==> (node.value matches Some(t) && has_substring(ascii_lower(t@), v))),
        q.text matches Some(x) ==> (query_matches(node, FindQueryView { role: None, name: None, value: None, text: Some(x) })
            <==> ((node.name matches Some(t) && has_substring(ascii_lower(t@), x))
                || (node.value matches Some(t) && has_substring(ascii_lower(t@), x))
                || (node.description matches Some(t) && has_substring(ascii_lower(t@), x)))),
        query_matches(node, q) <==> (
            query_matches(node, FindQueryView { role: q.role, name: None, value: None, text: None })
            && query_matches(node, FindQueryView { role: None, name: q.name, value: None, text: None })
            && query_matches(node, FindQueryView { role: None, name: None, value: q.value, text: None })
            && query_matches(node, FindQueryView { role: None, name: None, value: None, text: q.text })),
{
}

} // verus!
