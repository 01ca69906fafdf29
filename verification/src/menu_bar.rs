//! An application's menu bar as the accessibility API presents it: finding
//! the item a menu path names, listing the `Top > Item` paths, and the retry
//! policy for pressing an item.
use vstd::prelude::*;
use crate::error::{AdapterError, ErrorCode};
use crate::menu::{lemma_split_two, menu_segments, nonempty_trimmed, split_on};
use crate::text::{
    append_str, i64_to_string, int_decimal, is_white_space, lemma_trimmed_padded, owned, str_eq, trimmed,
};

verus! {

/// What the menu logic reads of one accessibility element: an id by which
/// the caller finds the element again, its role, title and enabled flag
/// where it reports them, and its children (empty where it reports none).
#[derive(Debug)]
pub struct MenuElement {
    pub id: u64,
    pub role: Option<String>,
    pub title: Option<String>,
    pub enabled: Option<bool>,
    pub children: Vec<MenuElement>,
}

/// The element reports `role` as its role.
pub open spec fn has_role(e: MenuElement, role: Seq<char>) -> bool {
    e.role matches Some(r) && r@ == role
}

/// The element reports `title` as its title.
pub open spec fn has_title(e: MenuElement, title: Seq<char>) -> bool {
    e.title matches Some(t) && t@ == title
}

/// The position of the first of `es` with role `role`.
pub open spec fn first_with_role(es: Seq<MenuElement>, role: Seq<char>) -> Option<int>
    decreases es.len(),
{
    if es.len() == 0 {
        None
    } else if has_role(es[0], role) {
        Some(0)
    } else {
        match first_with_role(es.drop_first(), role) {
            Some(i) => Some(i + 1),
            None => None,
        }
    }
}

/// The position of the first of `es` titled `title`.
pub open spec fn first_titled(es: Seq<MenuElement>, title: Seq<char>) -> Option<int>
    decreases es.len(),
{
    if es.len() == 0 {
        None
    } else if has_title(es[0], title) {
        Some(0)
    } else {
        match first_titled(es.drop_first(), title) {
            Some(i) => Some(i + 1),
            None => None,
        }
    }
}

/// The items one level below a menu title: a menu title holds a single menu
/// whose children are the items; otherwise the children are the items.
pub open spec fn menu_items(children: Seq<MenuElement>) -> Seq<MenuElement> {
    if children.len() > 0 && has_role(children[0], "AXMenu"@) {
        children[0].children@
    } else {
        children
    }
}

/// The non-empty titles of `es`, in order.
pub open spec fn titles_of(es: Seq<MenuElement>) -> Seq<Seq<char>>
    decreases es.len(),
{
    if es.len() == 0 {
        Seq::empty()
    } else {
        let rest = titles_of(es.drop_last());
        if es.last().title is Some && es.last().title.unwrap()@.len() > 0 {
            rest.push(es.last().title.unwrap()@)
        } else {
            rest
        }
    }
}

/// `parts` joined with `, ` between them.
pub open spec fn joined(parts: Seq<Seq<char>>) -> Seq<char>
    decreases parts.len(),
{
    if parts.len() == 0 {
        Seq::empty()
    } else if parts.len() == 1 {
        parts[0]
    } else {
        joined(parts.drop_last()) + ", "@ + parts.last()
    }
}

/// The outcome of following a menu path.
pub enum MenuLookup {
    /// The application has no menu bar.
    NoMenuBar,
    /// The path has no segment.
    EmptyPath,
    /// No item at this level carries the segment's title.
    Missing(Seq<char>, Seq<MenuElement>),
    /// The path names this item.
    Found(MenuElement),
}

/// Follows `path` from the items `level`: each segment selects the first
/// item titled by it; the last segment's item is the result.
pub open spec fn follow_path(level: Seq<MenuElement>, path: Seq<Seq<char>>) -> MenuLookup
    decreases path.len(),
{
    if path.len() == 0 {
        MenuLookup::EmptyPath
    } else {
        match first_titled(level, path[0]) {
            None => MenuLookup::Missing(path[0], level),
            Some(i) => if path.len() == 1 {
                MenuLookup::Found(level[i])
            } else {
                follow_path(menu_items(level[i].children@), path.drop_first())
            },
        }
    }
}

/// The menu bar of an application element: its first child whose role is
/// `AXMenuBar`.
pub open spec fn menu_bar_of(app: MenuElement) -> Option<MenuElement> {
    match first_with_role(app.children@, "AXMenuBar"@) {
        Some(i) => Some(app.children@[i]),
        None => None,
    }
}

/// Where a menu path leads in an application's menu bar.
pub open spec fn menu_lookup(app: MenuElement, path: Seq<Seq<char>>) -> MenuLookup {
    match menu_bar_of(app) {
        None => MenuLookup::NoMenuBar,
        Some(bar) => follow_path(bar.children@, path),
    }
}

/// The menu bar of the application element `app`.
pub fn menubar_root(app: &MenuElement) -> (r: Option<&MenuElement>)
    ensures
        match r {
            Some(m) => menu_bar_of(*app) == Some(*m),
            None => menu_bar_of(*app) is None,
        },
{
    let mut i: usize = 0;
    let ghost kids = app.children@;
    assert(kids.skip(0) =~= kids);
    while i < app.children.len()
        invariant
            i <= app.children.len(),
            kids == app.children@,
            forall|k: int| 0 <= k < i ==> !has_role(#[trigger] kids[k], "AXMenuBar"@),
            first_with_role(kids, "AXMenuBar"@) == (match first_with_role(kids.skip(i as int), "AXMenuBar"@) {
                Some(j) => Some(j + i),
                None => None,
            }),
        decreases app.children.len() - i,
    {
        assert(kids.skip(i as int).drop_first() =~= kids.skip(i + 1));
        assert(kids.skip(i as int)[0] == kids[i as int]);
        let is_bar = match &app.children[i].role {
            Some(r) => str_eq(r.as_str(), "AXMenuBar"),
            None => false,
        };
        if is_bar {
            return Some(&app.children[i]);
        }
        i = i + 1;
    }
    None
}

/// The items below a menu title (see `menu_items`).
pub fn unwrap_menu(children: &Vec<MenuElement>) -> (r: &Vec<MenuElement>)
    ensures
        r@ == menu_items(children@),
{
    if children.len() > 0 {
        let is_menu = match &children[0].role {
            Some(r) => str_eq(r.as_str(), "AXMenu"),
            None => false,
        };
        if is_menu {
            return &children[0].children;
        }
    }
    children
}

/// The non-empty titles of `children`, which an error lists as the
/// alternatives at a level.
pub fn sibling_titles(children: &Vec<MenuElement>) -> (r: Vec<String>)
    ensures
        r.deep_view() == titles_of(children@),
{
    let mut out: Vec<String> = Vec::new();
    let mut i: usize = 0;
    assert(children@.take(0) =~= Seq::<MenuElement>::empty());
    assert(out.deep_view() =~= Seq::<Seq<char>>::empty());
    while i < children.len()
        invariant
            i <= children.len(),
            out.deep_view() == titles_of(children@.take(i as int)),
        decreases children.len() - i,
    {
        assert(children@.take(i + 1).drop_last() =~= children@.take(i as int));
        assert(children@.take(i + 1).last() == children@[i as int]);
        match &children[i].title {
            Some(t) => {
                if !t.as_str().is_empty() {
                    let ghost before = out.deep_view();
                    out.push(t.clone());
                    assert(out.deep_view() =~= before.push(t@));
                }
            },
            None => {},
        }
        i = i + 1;
    }
    assert(children@.take(i as int) =~= children@);
    out
}

/// `parts` joined with `, `.
pub fn join_titles(parts: &Vec<String>) -> (r: String)
    ensures
        r@ == joined(parts.deep_view()),
{
    let mut s = String::new();
    let mut i: usize = 0;
    assert(parts.deep_view().take(0) =~= Seq::<Seq<char>>::empty());
    while i < parts.len()
        invariant
            i <= parts.len(),
            s@ == joined(parts.deep_view().take(i as int)),
        decreases parts.len() - i,
    {
        assert(parts.deep_view().take(i + 1).drop_last() =~= parts.deep_view().take(i as int));
        assert(parts.deep_view().take(i + 1).last() == parts@[i as int]@);
        if i > 0 {
            append_str(&mut s, ", ");
        } else {
            assert(parts.deep_view().take(1) =~= seq![parts@[0]@]);
            assert(s@ =~= Seq::<char>::empty());
        }
        append_str(&mut s, parts[i].as_str());
        i = i + 1;
    }
    assert(parts.deep_view().take(i as int) =~= parts.deep_view());
    s
}

/// The first of `items` titled `title`.
fn find_titled<'a>(items: &'a Vec<MenuElement>, title: &str) -> (r: Option<&'a MenuElement>)
    ensures
        match r {
            Some(e) => first_titled(items@, title@) matches Some(i) && items@[i] == *e,
            None => first_titled(items@, title@) is None,
        },
{
    let mut i: usize = 0;
    let ghost es = items@;
    assert(es.skip(0) =~= es);
    while i < items.len()
        invariant
            i <= items.len(),
            es == items@,
            first_titled(es, title@) == (match first_titled(es.skip(i as int), title@) {
                Some(j) => Some(j + i),
                None => None,
            }),
        decreases items.len() - i,
    {
        assert(es.skip(i as int).drop_first() =~= es.skip(i + 1));
        assert(es.skip(i as int)[0] == es[i as int]);
        let hit = match &items[i].title {
            Some(t) => str_eq(t.as_str(), title),
            None => false,
        };
        if hit {
            return Some(&items[i]);
        }
        i = i + 1;
    }
    None
}

/// The error for an application without a menu bar.
pub open spec fn no_menu_bar_error(e: AdapterError, with_suggestion: bool) -> bool {
    &&& e.code == ErrorCode::ElementNotFound
    &&& e.message@ == "Application has no menu bar"@
    &&& if with_suggestion {
        e.suggestion matches Some(s) && s@ == "Verify the app is running and owns a standard menu bar."@
    } else {
        e.suggestion is None
    }
    &&& e.platform_detail is None
}

/// What following a menu path yields, success or error.
pub open spec fn lookup_result(lookup: MenuLookup, r: Result<&MenuElement, AdapterError>) -> bool {
    match lookup {
        MenuLookup::NoMenuBar => r matches Err(e) && no_menu_bar_error(e, true),
        MenuLookup::EmptyPath => r matches Err(e) && e.code == ErrorCode::InvalidArgs && e.message@
            == "Empty menu path"@ && e.suggestion is None && e.platform_detail is None,
        MenuLookup::Missing(seg, level) => r matches Err(e) && e.code == ErrorCode::ElementNotFound
            && e.message@ == "Menu segment '"@ + seg + "' not found"@ && (e.suggestion matches Some(s)
            && s@ == "Available at this level: "@ + joined(titles_of(level))) && e.platform_detail is None,
        MenuLookup::Found(el) => r matches Ok(x) && *x == el,
    }
}

/// Follows a menu path (`File > Save`, one segment per entry) through the
/// application's menu bar to the item it names.
pub fn resolve_menu_path<'a>(app: &'a MenuElement, path: &Vec<String>) -> (r: Result<&'a MenuElement, AdapterError>)
    ensures
        lookup_result(menu_lookup(*app, path.deep_view()), r),
{
    let menubar = match menubar_root(app) {
        Some(m) => m,
        None => {
            let e = AdapterError::new(ErrorCode::ElementNotFound, "Application has no menu bar").with_suggestion(
                "Verify the app is running and owns a standard menu bar.",
            );
            return Err(e);
        },
    };
    let ghost segs = path.deep_view();
    let mut level: &'a Vec<MenuElement> = &menubar.children;
    let mut i: usize = 0;
    assert(segs.skip(0) =~= segs);
    while i < path.len()
        invariant
            i <= path.len(),
            segs == path.deep_view(),
            menu_lookup(*app, segs) == follow_path(level@, segs.skip(i as int)),
        decreases path.len() - i,
    {
        assert(segs.skip(i as int)[0] == path@[i as int]@);
        assert(segs.skip(i as int).drop_first() =~= segs.skip(i + 1));
        match find_titled(level, path[i].as_str()) {
            None => {
                let near = sibling_titles(level);
                let joined_near = join_titles(&near);
                let mut msg = owned("Menu segment '");
                append_str(&mut msg, path[i].as_str());
                append_str(&mut msg, "' not found");
                let mut sug = owned("Available at this level: ");
                append_str(&mut sug, joined_near.as_str());
                let e = AdapterError {
                    code: ErrorCode::ElementNotFound,
                    message: msg,
                    suggestion: Some(sug),
                    platform_detail: None,
                };
                return Err(e);
            },
            Some(found) => {
                if i + 1 == path.len() {
                    return Ok(found);
                }
                level = unwrap_menu(&found.children);
            },
        }
        i = i + 1;
    }
    assert(segs.skip(i as int).len() == 0);
    Err(AdapterError::new(ErrorCode::InvalidArgs, "Empty menu path"))
}

/// The item a menu path names, refused when it reports itself disabled.
pub fn select_menu_target<'a>(app: &'a MenuElement, path: &Vec<String>) -> (r: Result<&'a MenuElement, AdapterError>)
    ensures
        match menu_lookup(*app, path.deep_view()) {
            MenuLookup::Found(el) => if el.enabled == Some(false) {
                r matches Err(e) && e.code == ErrorCode::ActionFailed && e.message@ == "Menu item is disabled"@
                    && e.suggestion is None && e.platform_detail is None
            } else {
                r matches Ok(x) && *x == el
            },
            other => lookup_result(other, r),
        },
{
    let target = resolve_menu_path(app, path)?;
    if target.enabled == Some(false) {
        return Err(AdapterError::new(ErrorCode::ActionFailed, "Menu item is disabled"));
    }
    Ok(target)
}

/// The `Top > Item` lines of one top-level menu titled `top`, one per item
/// with a non-empty title.
pub open spec fn item_lines(top: Seq<char>, items: Seq<MenuElement>) -> Seq<Seq<char>>
    decreases items.len(),
{
    if items.len() == 0 {
        Seq::empty()
    } else {
        let rest = item_lines(top, items.drop_last());
        if items.last().title is Some && items.last().title.unwrap()@.len() > 0 {
            rest.push(top + " > "@ + items.last().title.unwrap()@)
        } else {
            rest
        }
    }
}

/// The `Top > Item` lines of a menu bar's top-level menus, skipping menus
/// without a title.
pub open spec fn menu_lines(tops: Seq<MenuElement>) -> Seq<Seq<char>>
    decreases tops.len(),
{
    if tops.len() == 0 {
        Seq::empty()
    } else {
        let rest = menu_lines(tops.drop_last());
        match tops.last().title {
            Some(t) => rest + item_lines(t@, menu_items(tops.last().children@)),
            None => rest,
        }
    }
}

/// Lists the application's menu items as `Top > Item` paths, in menu bar
/// order.
pub fn list_menu_paths(app: &MenuElement) -> (r: Result<Vec<String>, AdapterError>)
    ensures
        match menu_bar_of(*app) {
            None => r matches Err(e) && no_menu_bar_error(e, false),
            Some(bar) => r matches Ok(v) && v.deep_view() == menu_lines(bar.children@),
        },
{
    let menubar = match menubar_root(app) {
        Some(m) => m,
        None => return Err(AdapterError::new(ErrorCode::ElementNotFound, "Application has no menu bar")),
    };
    let tops = &menubar.children;
    let mut out: Vec<String> = Vec::new();
    let mut i: usize = 0;
    assert(tops@.take(0) =~= Seq::<MenuElement>::empty());
    assert(out.deep_view() =~= Seq::<Seq<char>>::empty());
    while i < tops.len()
        invariant
            i <= tops.len(),
            out.deep_view() == menu_lines(tops@.take(i as int)),
        decreases tops.len() - i,
    {
        assert(tops@.take(i + 1).drop_last() =~= tops@.take(i as int));
        assert(tops@.take(i + 1).last() == tops@[i as int]);
        match &tops[i].title {
            None => {},
            Some(title) => {
                let leaves = unwrap_menu(&tops[i].children);
                let ghost base = out.deep_view();
                let mut j: usize = 0;
                assert(leaves@.take(0) =~= Seq::<MenuElement>::empty());
                assert(base + item_lines(title@, Seq::<MenuElement>::empty()) =~= base);
                while j < leaves.len()
                    invariant
                        j <= leaves.len(),
                        out.deep_view() == base + item_lines(title@, leaves@.take(j as int)),
                    decreases leaves.len() - j,
                {
                    assert(leaves@.take(j + 1).drop_last() =~= leaves@.take(j as int));
                    assert(leaves@.take(j + 1).last() == leaves@[j as int]);
                    match &leaves[j].title {
                        Some(name) => {
                            if !name.as_str().is_empty() {
                                let ghost before = out.deep_view();
                                let mut line = title.clone();
                                append_str(&mut line, " > ");
                                append_str(&mut line, name.as_str());
                                out.push(line);
                                assert(out.deep_view() =~= before.push(title@ + " > "@ + name@));
                                assert(base + item_lines(title@, leaves@.take(j + 1)) =~= (base + item_lines(
                                    title@,
                                    leaves@.take(j as int),
                                )).push(title@ + " > "@ + name@));
                            }
                        },
                        None => {},
                    }
                    j = j + 1;
                }
                assert(leaves@.take(j as int) =~= leaves@);
            },
        }
        i = i + 1;
    }
    assert(tops@.take(i as int) =~= tops@);
    Ok(out)
}

/// A title that a menu path can spell: not empty, free of `>`, and without
/// whitespace at either end.
pub open spec fn clean_title(t: Seq<char>) -> bool {
    &&& t.len() > 0
    &&& !is_white_space(t[0])
    &&& !is_white_space(t.last())
    &&& forall|k: int| 0 <= k < t.len() ==> t[k] != '>'
}

proof fn lemma_first_titled_at(es: Seq<MenuElement>, title: Seq<char>, i: int)
    requires
        0 <= i < es.len(),
        has_title(es[i], title),
        forall|j: int| 0 <= j < i ==> !has_title(#[trigger] es[j], title),
    ensures
        first_titled(es, title) == Some(i),
    decreases i,
{
    if i > 0 {
        assert(!has_title(es[0], title));
        let rest = es.drop_first();
        assert forall|j: int| 0 <= j < i - 1 implies !has_title(#[trigger] rest[j], title) by {
            assert(rest[j] == es[j + 1]);
        }
        assert(rest[i - 1] == es[i]);
        lemma_first_titled_at(rest, title, i - 1);
    }
}

proof fn lemma_item_lines_contains(top: Seq<char>, items: Seq<MenuElement>, n: int)
    requires
        0 <= n < items.len(),
        items[n].title is Some,
        items[n].title.unwrap()@.len() > 0,
    ensures
        item_lines(top, items).contains(top + " > "@ + items[n].title.unwrap()@),
    decreases items.len(),
{
    let line = top + " > "@ + items[n].title.unwrap()@;
    let rest = item_lines(top, items.drop_last());
    if n == items.len() - 1 {
        assert(item_lines(top, items) == rest.push(line));
        assert(rest.push(line)[rest.len() as int] == line);
    } else {
        assert(items.drop_last()[n] == items[n]);
        lemma_item_lines_contains(top, items.drop_last(), n);
        let w = choose|w: int| 0 <= w < rest.len() && rest[w] == line;
        assert(item_lines(top, items)[w] == line);
    }
}

proof fn lemma_menu_lines_contains(tops: Seq<MenuElement>, t: int, line: Seq<char>)
    requires
        0 <= t < tops.len(),
        tops[t].title is Some,
        item_lines(tops[t].title.unwrap()@, menu_items(tops[t].children@)).contains(line),
    ensures
        menu_lines(tops).contains(line),
    decreases tops.len(),
{
    let rest = menu_lines(tops.drop_last());
    if t == tops.len() - 1 {
        let mine = item_lines(tops[t].title.unwrap()@, menu_items(tops[t].children@));
        let w = choose|w: int| 0 <= w < mine.len() && mine[w] == line;
        assert(menu_lines(tops) == rest + mine);
        assert((rest + mine)[rest.len() + w] == line);
    } else {
        assert(tops.drop_last()[t] == tops[t]);
        lemma_menu_lines_contains(tops.drop_last(), t, line);
        let w = choose|w: int| 0 <= w < rest.len() && rest[w] == line;
        assert(menu_lines(tops)[w] == line);
    }
}

/// A listed menu path selects the item it was listed for. When top-level
/// menu `t` of the menu bar is the first titled `T`, and item `n` below it
/// is the first titled `N`, both titles being non-empty, free of `>` and of
/// whitespace at either end, then `T > N` is among the listed paths, it
/// parses into the segments `T` and `N`, and following them reaches item `n`.
pub proof fn lemma_listed_path_selects_its_item(app: MenuElement, bar: MenuElement, t: int, n: int)
    requires
        menu_bar_of(app) == Some(bar),
        0 <= t < bar.children@.len(),
        bar.children@[t].title is Some,
        clean_title(bar.children@[t].title.unwrap()@),
        forall|i: int| 0 <= i < t ==> !has_title(
            #[trigger] bar.children@[i],
            bar.children@[t].title.unwrap()@,
        ),
        0 <= n < menu_items(bar.children@[t].children@).len(),
        menu_items(bar.children@[t].children@)[n].title is Some,
        clean_title(menu_items(bar.children@[t].children@)[n].title.unwrap()@),
        forall|j: int| 0 <= j < n ==> !has_title(
            #[trigger] menu_items(bar.children@[t].children@)[j],
            menu_items(bar.children@[t].children@)[n].title.unwrap()@,
        ),
    ensures
        menu_lines(bar.children@).contains(
            bar.children@[t].title.unwrap()@ + " > "@ + menu_items(
                bar.children@[t].children@,
            )[n].title.unwrap()@,
        ),
        menu_segments(
            bar.children@[t].title.unwrap()@ + " > "@ + menu_items(
                bar.children@[t].children@,
            )[n].title.unwrap()@,
        ) == seq![
            bar.children@[t].title.unwrap()@,
            menu_items(bar.children@[t].children@)[n].title.unwrap()@,
        ],
        menu_lookup(
            app,
            seq![
                bar.children@[t].title.unwrap()@,
                menu_items(bar.children@[t].children@)[n].title.unwrap()@,
            ],
        ) == MenuLookup::Found(menu_items(bar.children@[t].children@)[n]),
{
    let tops = bar.children@;
    let top_title = tops[t].title.unwrap()@;
    let items = menu_items(tops[t].children@);
    let item_title = items[n].title.unwrap()@;
    let line = top_title + " > "@ + item_title;
    lemma_item_lines_contains(top_title, items, n);
    lemma_menu_lines_contains(tops, t, line);
    reveal_strlit(" > ");
    let left = top_title + seq![' '];
    let right = seq![' '] + item_title;
    assert(line =~= left + seq!['>'] + right);
    assert forall|k: int| 0 <= k < left.len() implies left[k] != '>' by {
        if k < top_title.len() {
            assert(left[k] == top_title[k]);
        }
    }
    assert forall|k: int| 0 <= k < right.len() implies right[k] != '>' by {
        if k > 0 {
            assert(right[k] == item_title[k - 1]);
        }
    }
    lemma_split_two(left, right, '>');
    lemma_trimmed_padded(top_title);
    lemma_trimmed_padded(item_title);
    assert(seq![left, right].drop_last() =~= seq![left]);
    assert(seq![left].drop_last() =~= Seq::<Seq<char>>::empty());
    assert(nonempty_trimmed(Seq::<Seq<char>>::empty()) == Seq::<Seq<char>>::empty());
    assert(seq![left].last() == left);
    assert(seq![left, right].last() == right);
    assert(nonempty_trimmed(seq![left]) =~= seq![top_title]);
    assert(nonempty_trimmed(seq![left, right]) =~= seq![top_title, item_title]);
    lemma_first_titled_at(tops, top_title, t);
    lemma_first_titled_at(items, item_title, n);
    let segs = seq![top_title, item_title];
    assert(segs[0] == top_title);
    assert(segs.drop_first() =~= seq![item_title]);
    assert(seq![item_title][0] == item_title);
    assert(follow_path(items, seq![item_title]) == MenuLookup::Found(items[n]));
    assert(follow_path(tops, segs) == follow_path(items, segs.drop_first()));
}

/// The Accessibility API's status for success.
pub const AX_SUCCESS: i32 = 0;

/// The Accessibility API's status for an action that could not complete yet.
pub const AX_CANNOT_COMPLETE: i32 = -25204;

/// How many times pressing a menu item is attempted.
pub const PRESS_ATTEMPTS: u64 = 3;

/// What to do after one attempt to press a menu item.
#[derive(Debug)]
pub enum PressStep {
    /// The item was pressed.
    Pressed,
    /// The press failed for good.
    Failed(AdapterError),
    /// Wait this many milliseconds and press again.
    WaitThenRetry(u64),
    /// Wait this many milliseconds, then fail with this error.
    WaitThenFail(u64, AdapterError),
}

/// The decision after attempt number `attempt` (from 0) of pressing an item
/// returned the status `ax_error`: success ends; a status other than "cannot
/// complete" fails at once; "cannot complete" waits 50 ms times the attempt
/// number and tries again, and after the last attempt reports a timeout.
pub fn press_step(attempt: u64, ax_error: i32) -> (r: PressStep)
    requires
        attempt < PRESS_ATTEMPTS,
    ensures
        ax_error == AX_SUCCESS ==> r is Pressed,
        ax_error != AX_SUCCESS && ax_error != AX_CANNOT_COMPLETE ==> (r matches PressStep::Failed(e)
            && e.code == ErrorCode::ActionFailed && e.message@ == "Menu item press failed"@
            && e.suggestion is None && (e.platform_detail matches Some(d) && d@ == "AXError "@
            + int_decimal(ax_error as int))),
        ax_error == AX_CANNOT_COMPLETE && attempt + 1 < PRESS_ATTEMPTS ==> r == PressStep::WaitThenRetry(
            (50 * (attempt + 1)) as u64,
        ),
        ax_error == AX_CANNOT_COMPLETE && attempt + 1 == PRESS_ATTEMPTS ==> (r matches PressStep::WaitThenFail(
            ms,
            e,
        ) && ms == 50 * (attempt + 1) && e.code == ErrorCode::Timeout && e.message@
            == "Menu item press did not complete"@ && (e.suggestion matches Some(s) && s@
            == "Bring the app to the foreground and retry."@) && e.platform_detail is None),
{
    if ax_error == AX_SUCCESS {
        return PressStep::Pressed;
    }
    if ax_error != AX_CANNOT_COMPLETE {
        let mut detail = owned("AXError ");
        let digits = i64_to_string(ax_error as i64);
        append_str(&mut detail, digits.as_str());
        return PressStep::Failed(
            AdapterError {
                code: ErrorCode::ActionFailed,
                message: owned("Menu item press failed"),
                suggestion: None,
                platform_detail: Some(detail),
            },
        );
    }
    let wait = 50 * (attempt + 1);
    if attempt + 1 < PRESS_ATTEMPTS {
        PressStep::WaitThenRetry(wait)
    } else {
        PressStep::WaitThenFail(
            wait,
            AdapterError::new(ErrorCode::Timeout, "Menu item press did not complete").with_suggestion(
                "Bring the app to the foreground and retry.",
            ),
        )
    }
}

} // verus!
