//! What the right-click menu keeps of WebView2's own.
//!
//! The browser's menu -- Back, Reload, Save as, Print, Create QR code, Inspect
//! -- is the plainest sign that a window is a browser. What earns its place is
//! what any program's menu has: Cut, Copy and Paste in a text field, with its
//! spelling suggestions and emoji; Copy on a selection; Save and Copy on a
//! picture. Anything else goes, and a separator stays only between two groups
//! that both kept something. A link gets the app's own Copy link, first and
//! set apart, and a menu with nothing left in it is not shown at all.
//!
//! WebView2 names its items by their English label in lower camel case
//! ("Save image as" is `saveImageAs`) and every spelling suggestion
//! `spellCheck`, so an item a later WebView2 adds is left out until it is
//! named here. Inspect stays in a developer's build (`debug`).

use vstd::prelude::*;

use crate::text::{begins, chars_of, spells, starts_with, trim_str, trimmed};

verus! {

/// An item of WebView2's menu, as far as deciding goes.
#[derive(Debug, Clone, Copy, PartialEq, Eq)]
pub enum Item<'a> {
    Separator,
    Named(&'a str),
}

/// Whether a named item earns its place in the menu.
pub open spec fn is_wanted(name: Seq<char>, debug: bool) -> bool {
    ||| name == "cut"@
    ||| name == "copy"@
    ||| name == "paste"@
    ||| name == "pasteAsPlainText"@
    ||| name == "pasteAndMatchStyle"@
    ||| name == "undo"@
    ||| name == "redo"@
    ||| name == "selectAll"@
    ||| name == "spellCheck"@
    ||| name == "emoji"@
    ||| name == "saveImageAs"@
    ||| name == "copyImage"@
    ||| (debug && name == "inspectElement"@)
}

pub fn wanted(name: &str, debug: bool) -> (r: bool)
    ensures
        r == is_wanted(name@, debug),
{
    let v = chars_of(name);
    let v = v.as_slice();
    spells(v, "cut") || spells(v, "copy") || spells(v, "paste") || spells(v, "pasteAsPlainText") || spells(
        v,
        "pasteAndMatchStyle",
    ) || spells(v, "undo") || spells(v, "redo") || spells(v, "selectAll") || spells(v, "spellCheck") || spells(
        v,
        "emoji",
    ) || spells(v, "saveImageAs") || spells(v, "copyImage") || (debug && spells(v, "inspectElement"))
}

/// Whether item `i` is a named one the menu keeps.
pub open spec fn names_kept(items: Seq<Item>, i: int, debug: bool) -> bool {
    0 <= i < items.len() && match items[i] {
        Item::Named(name) => is_wanted(name@, debug),
        Item::Separator => false,
    }
}

/// Whether item `i` is a separator.
pub open spec fn separates(items: Seq<Item>, i: int) -> bool {
    0 <= i < items.len() && items[i] is Separator
}

/// Whether some named item before `i` is kept.
pub open spec fn kept_before(items: Seq<Item>, i: int, debug: bool) -> bool {
    exists|k: int| 0 <= k < i && #[trigger] names_kept(items, k, debug)
}

/// Whether item `j` is kept and nothing between `i` and it separates.
pub open spec fn next_group_at(items: Seq<Item>, i: int, j: int, debug: bool) -> bool {
    &&& i < j
    &&& names_kept(items, j, debug)
    &&& forall|m: int| i < m < j ==> !#[trigger] separates(items, m)
}

/// Whether separator `i` stays: something before it was kept, and it is the
/// last separator before the next item that is.
pub open spec fn separator_kept(items: Seq<Item>, i: int, debug: bool) -> bool {
    &&& separates(items, i)
    &&& kept_before(items, i, debug)
    &&& exists|j: int| #[trigger] next_group_at(items, i, j, debug)
}

/// Whether item `i` stays in the menu.
pub open spec fn stays(items: Seq<Item>, i: int, debug: bool) -> bool {
    names_kept(items, i, debug) || separator_kept(items, i, debug)
}

/// Whether `keep` lists, in increasing order, the indices of exactly the
/// items that stay.
pub open spec fn lists_kept(items: Seq<Item>, debug: bool, keep: Seq<usize>) -> bool {
    &&& items.len() <= usize::MAX
    &&& forall|a: int, b: int| 0 <= a < b < keep.len() ==> keep[a] < keep[b]
    &&& forall|a: int| 0 <= a < keep.len() ==> keep[a] < items.len()
    &&& forall|i: int|
        0 <= i < items.len() ==> (keep.contains(i as usize) <==> #[trigger] stays(items, i, debug))
}

/// Whether item `i` stays, as far as the items before `at` decide it.
spec fn stays_by(items: Seq<Item>, i: int, at: int, debug: bool) -> bool {
    ||| names_kept(items, i, debug)
    ||| {
        &&& separates(items, i)
        &&& kept_before(items, i, debug)
        &&& exists|j: int| #[trigger] next_group_at(items, i, j, debug) && j < at
    }
}

/// Whether `keep` lists the items before `at` that stay, as far as those
/// items decide it.
spec fn decided(items: Seq<Item>, debug: bool, keep: Seq<usize>, at: int) -> bool {
    forall|i: int|
        0 <= i < at ==> (keep.contains(i as usize) <==> #[trigger] stays_by(items, i, at, debug))
}

/// Whether separator `s` is still waiting, at `at`, for the next item kept.
spec fn open_separator(items: Seq<Item>, s: int, at: int, debug: bool) -> bool {
    &&& separates(items, s)
    &&& s < at
    &&& kept_before(items, s, debug)
    &&& forall|m: int| s < m < at ==> !#[trigger] separates(items, m) && !names_kept(items, m, debug)
}

/// An item that is not kept changes nothing already decided.
proof fn unkept_decides_nothing(items: Seq<Item>, i: int, at: int, debug: bool)
    requires
        0 <= i < at,
        !names_kept(items, at, debug),
    ensures
        stays_by(items, i, at + 1, debug) == stays_by(items, i, at, debug),
{
    if exists|j: int| #[trigger] next_group_at(items, i, j, debug) && j < at + 1 {
        let j = choose|j: int| #[trigger] next_group_at(items, i, j, debug) && j < at + 1;
        assert(j != at);
    }
}

/// A kept item decides exactly the separator that was waiting for it.
proof fn kept_decides_the_open_separator(items: Seq<Item>, i: int, at: int, debug: bool)
    requires
        0 <= i < at,
        names_kept(items, at, debug),
    ensures
        stays_by(items, i, at + 1, debug) == (stays_by(items, i, at, debug) || open_separator(
            items,
            i,
            at,
            debug,
        )),
        open_separator(items, i, at, debug) ==> !stays_by(items, i, at, debug),
{
    if open_separator(items, i, at, debug) {
        assert(next_group_at(items, i, at, debug));
        assert(!names_kept(items, i, debug));
        if exists|j: int| #[trigger] next_group_at(items, i, j, debug) && j < at {
            let j = choose|j: int| #[trigger] next_group_at(items, i, j, debug) && j < at;
            assert(names_kept(items, j, debug));
            assert(!separates(items, j));
        }
    }
    if stays_by(items, i, at + 1, debug) && !stays_by(items, i, at, debug) {
        let j = choose|j: int| #[trigger] next_group_at(items, i, j, debug) && j < at + 1;
        assert(j == at);
        assert forall|m: int| i < m < at implies !#[trigger] separates(items, m) && !names_kept(
            items,
            m,
            debug,
        ) by {
            if names_kept(items, m, debug) {
                assert(next_group_at(items, i, m, debug));
            }
        }
    }
}

/// Which of `items`, by index, stay: the wanted ones, with a separator only
/// between two groups that both kept something.
pub fn kept(items: &[Item], debug: bool) -> (keep: Vec<usize>)
    ensures
        lists_kept(items@, debug, keep@),
{
    let ghost s = items@;
    let mut keep: Vec<usize> = Vec::new();
    let mut pending: Option<usize> = None;
    let mut index: usize = 0;
    while index < items.len()
        invariant
            s == items@,
            index <= s.len(),
            forall|a: int, b: int| 0 <= a < b < keep@.len() ==> keep@[a] < keep@[b],
            forall|a: int| 0 <= a < keep@.len() ==> keep@[a] < index,
            keep@.len() > 0 <==> kept_before(s, index as int, debug),
            decided(s, debug, keep@, index as int),
            pending matches Some(p) ==> open_separator(s, p as int, index as int, debug),
            pending matches Some(p) ==> forall|a: int| 0 <= a < keep@.len() ==> keep@[a] < p,
            forall|p: int| #[trigger]
                open_separator(s, p, index as int, debug) ==> pending == Some(p as usize),
        decreases s.len() - index,
    {
        let ghost before = keep@;
        let ghost was_pending = pending;
        let ghost at = index as int;
        match items[index] {
            Item::Separator => {
                if keep.len() > 0 {
                    pending = Some(index);
                }
                proof {
                    assert(!names_kept(s, at, debug));
                    assert forall|p: int| #[trigger] open_separator(s, p, at + 1, debug) implies pending
                        == Some(p as usize) by {
                        if p < at {
                            assert(separates(s, at));
                        }
                    }
                    assert forall|i: int| 0 <= i < at + 1 implies (keep@.contains(i as usize)
                        <==> #[trigger] stays_by(s, i, at + 1, debug)) by {
                        if i < at {
                            unkept_decides_nothing(s, i, at, debug);
                            assert(stays_by(s, i, at, debug) == keep@.contains(i as usize));
                        } else {
                            assert(!keep@.contains(i as usize));
                            assert(!names_kept(s, i, debug));
                        }
                    }
                    if kept_before(s, at + 1, debug) {
                        let k = choose|k: int| 0 <= k < at + 1 && #[trigger] names_kept(s, k, debug);
                        assert(k != at);
                    }
                }
            },
            Item::Named(name) => {
                if wanted(name, debug) {
                    assert(names_kept(s, at, debug));
                    if let Some(separator) = pending {
                        keep.push(separator);
                        pending = None;
                    }
                    let ghost middle = keep@;
                    keep.push(index);
                    proof {
                        assert(kept_before(s, at + 1, debug));
                        assert forall|p: int| #[trigger] open_separator(s, p, at + 1, debug) implies pending
                            == Some(p as usize) by {
                            assert(names_kept(s, at, debug));
                            assert(!separates(s, at));
                        }
                        assert forall|i: int| 0 <= i < at + 1 implies (keep@.contains(i as usize)
                            <==> #[trigger] stays_by(s, i, at + 1, debug)) by {
                            if i == at {
                                assert(keep@[keep@.len() - 1] == i as usize);
                            } else {
                                kept_decides_the_open_separator(s, i, at, debug);
                                assert(stays_by(s, i, at, debug) == before.contains(i as usize));
                                if before.contains(i as usize) {
                                    let w = choose|w: int| 0 <= w < before.len() && before[w] == i as usize;
                                    assert(keep@[w] == i as usize);
                                }
                                if open_separator(s, i, at, debug) {
                                    assert(was_pending == Some(i as usize));
                                    assert(keep@[before.len() as int] == i as usize);
                                }
                                if keep@.contains(i as usize) && !before.contains(i as usize) {
                                    let w = choose|w: int| 0 <= w < keep@.len() && keep@[w] == i as usize;
                                    assert(w == before.len());
                                    assert(was_pending == Some(i as usize));
                                }
                            }
                        }
                    }
                } else {
                    proof {
                        assert(!names_kept(s, at, debug));
                        assert forall|p: int| #[trigger] open_separator(s, p, at + 1, debug) implies pending
                            == Some(p as usize) by {
                            assert(open_separator(s, p, at, debug));
                        }
                        assert forall|i: int| 0 <= i < at + 1 implies (keep@.contains(i as usize)
                            <==> #[trigger] stays_by(s, i, at + 1, debug)) by {
                            if i < at {
                                unkept_decides_nothing(s, i, at, debug);
                                assert(stays_by(s, i, at, debug) == keep@.contains(i as usize));
                            } else {
                                assert(!keep@.contains(i as usize));
                            }
                        }
                        if kept_before(s, at + 1, debug) {
                            let k = choose|k: int| 0 <= k < at + 1 && #[trigger] names_kept(s, k, debug);
                            assert(k != at);
                        }
                    }
                }
            },
        }
        index = index + 1;
    }
    proof {
        assert forall|i: int| 0 <= i < s.len() implies (keep@.contains(i as usize)
            <==> #[trigger] stays(s, i, debug)) by {
            assert(stays_by(s, i, s.len() as int, debug) == keep@.contains(i as usize));
            if separator_kept(s, i, debug) {
                let j = choose|j: int| #[trigger] next_group_at(s, i, j, debug);
                assert(j < s.len());
            }
        }
    }
    keep
}

/// Separators never lead, trail or double: of what the menu keeps, the
/// first and the last item are named ones, and no two separators are next
/// to each other.
pub proof fn separators_never_lead_trail_or_double(
    items: Seq<Item>,
    debug: bool,
    keep: Seq<usize>,
)
    requires
        lists_kept(items, debug, keep),
    ensures
        keep.len() > 0 ==> names_kept(items, keep[0] as int, debug),
        keep.len() > 0 ==> names_kept(items, keep.last() as int, debug),
        forall|a: int|
            0 <= a < keep.len() - 1 ==> !(separates(items, #[trigger] keep[a] as int) && separates(
                items,
                keep[a + 1] as int,
            )),
{
    if keep.len() > 0 {
        let first = keep[0] as int;
        assert(keep.contains(first as usize));
        assert(stays(items, first, debug));
        if !names_kept(items, first, debug) {
            let k = choose|k: int| 0 <= k < first && #[trigger] names_kept(items, k, debug);
            assert(stays(items, k, debug));
            assert(keep.contains(k as usize));
            let w = choose|w: int| 0 <= w < keep.len() && keep[w] == k as usize;
            if w > 0 {
                assert(keep[0] < keep[w]);
            }
        }
        let last = keep.last() as int;
        assert(keep.contains(last as usize));
        assert(stays(items, last, debug));
        if !names_kept(items, last, debug) {
            let j = choose|j: int| #[trigger] next_group_at(items, last, j, debug);
            assert(stays(items, j, debug));
            assert(keep.contains(j as usize));
            let w = choose|w: int| 0 <= w < keep.len() && keep[w] == j as usize;
            if w < keep.len() - 1 {
                assert(keep[w] < keep[keep.len() - 1]);
            }
        }
    }
    assert forall|a: int| 0 <= a < keep.len() - 1 implies !(separates(
        items,
        #[trigger] keep[a] as int,
    ) && separates(items, keep[a + 1] as int)) by {
        let x = keep[a] as int;
        let y = keep[a + 1] as int;
        if separates(items, x) && separates(items, y) {
            assert(keep.contains(x as usize));
            assert(stays(items, x, debug));
            let j = choose|j: int| #[trigger] next_group_at(items, x, j, debug);
            assert(x < y);
            if y < j {
                assert(separates(items, y));
            }
            assert(j < y);
            assert(stays(items, j, debug));
            assert(keep.contains(j as usize));
            let w = choose|w: int| 0 <= w < keep.len() && keep[w] == j as usize;
            if w < a {
                assert(keep[w] < keep[a]);
            }
            if w > a + 1 {
                assert(keep[a + 1] < keep[w]);
            }
        }
    }
}

/// Whether no named item strictly between `i` and `j` is kept: `i` and `j`
/// are kept items next to each other among the named ones.
pub open spec fn next_kept(items: Seq<Item>, i: int, j: int, debug: bool) -> bool {
    &&& i < j
    &&& names_kept(items, i, debug)
    &&& names_kept(items, j, debug)
    &&& forall|m: int| i < m < j ==> !#[trigger] names_kept(items, m, debug)
}

/// A separator stays only between two groups that both kept something, and
/// then it is the last separator between them: a separator the menu keeps
/// has a kept item before it and one after it; and between two kept items
/// with no kept item between them, a separator stays exactly when no other
/// separator comes after it before the second.
pub proof fn a_separator_stays_only_between_two_kept_groups(
    items: Seq<Item>,
    debug: bool,
    keep: Seq<usize>,
    i: int,
    j: int,
    s: int,
)
    requires
        lists_kept(items, debug, keep),
        separates(items, s),
    ensures
        keep.contains(s as usize) ==> kept_before(items, s, debug) && exists|k: int|
            s < k && #[trigger] names_kept(items, k, debug),
        next_kept(items, i, j, debug) && i < s < j ==> (keep.contains(s as usize) <==> forall|m: int|
            s < m < j ==> !#[trigger] separates(items, m)),
{
    assert(keep.contains(s as usize) == stays(items, s, debug));
    assert(!names_kept(items, s, debug));
    if keep.contains(s as usize) {
        let k = choose|k: int| #[trigger] next_group_at(items, s, k, debug);
        assert(names_kept(items, k, debug));
    }
    if next_kept(items, i, j, debug) && i < s < j {
        if keep.contains(s as usize) {
            let k = choose|k: int| #[trigger] next_group_at(items, s, k, debug);
            if k < j {
                assert(!names_kept(items, k, debug));
            }
        } else if forall|m: int| s < m < j ==> !#[trigger] separates(items, m) {
            assert(names_kept(items, i, debug));
            assert(kept_before(items, s, debug));
            assert(next_group_at(items, s, j, debug));
            assert(separator_kept(items, s, debug));
        }
    }
}

/// Where `lo < hi` has a separator between, the last of them.
proof fn a_last_separator(items: Seq<Item>, lo: int, hi: int) -> (s: int)
    requires
        exists|m: int| lo < m < hi && #[trigger] separates(items, m),
    ensures
        lo < s < hi,
        separates(items, s),
        forall|m: int| s < m < hi ==> !#[trigger] separates(items, m),
    decreases hi - lo,
{
    if separates(items, hi - 1) && lo < hi - 1 {
        hi - 1
    } else {
        let m = choose|m: int| lo < m < hi && #[trigger] separates(items, m);
        assert(m < hi - 1);
        a_last_separator(items, lo, hi - 1)
    }
}

/// Between two kept items with no kept item between them, a separator
/// among the dropped items keeps the groups apart: the last of them stays,
/// and no other does.
pub proof fn two_kept_groups_keep_one_separator_between(
    items: Seq<Item>,
    debug: bool,
    keep: Seq<usize>,
    i: int,
    j: int,
)
    requires
        lists_kept(items, debug, keep),
        next_kept(items, i, j, debug),
        exists|m: int| i < m < j && #[trigger] separates(items, m),
    ensures
        exists|s: int|
            i < s < j && separates(items, s) && #[trigger] keep.contains(s as usize) && forall|m: int|
                i < m < j && m != s && separates(items, m) ==> !#[trigger] keep.contains(m as usize),
{
    let s = a_last_separator(items, i, j);
    a_separator_stays_only_between_two_kept_groups(items, debug, keep, i, j, s);
    assert forall|m: int| i < m < j && m != s && separates(items, m) implies !#[trigger] keep.contains(
        m as usize,
    ) by {
        a_separator_stays_only_between_two_kept_groups(items, debug, keep, i, j, m);
        if m < s {
            assert(separates(items, s));
        }
    }
}

/// The link a Copy link item copies: the site's pages and other sites', not
/// a script or a `mailto:`.
pub open spec fn is_web_link(link: Seq<char>) -> bool {
    begins(link, "https://"@) || begins(link, "http://"@)
}

pub fn copyable_link(link: &str) -> (copied: Option<&str>)
    ensures
        copied matches Some(c) ==> c@ == trimmed(link@),
        copied is Some <==> is_web_link(trimmed(link@)),
{
    let link = trim_str(link);
    let v = chars_of(link);
    if starts_with(v.as_slice(), "https://") || starts_with(v.as_slice(), "http://") {
        Some(link)
    } else {
        None
    }
}

/// Whether `gone` lists, from the last to the first, the indices of exactly
/// the items of a menu of `len` that `keep` does not list: the order to take
/// them out in, so the indices still to come stay where they were.
pub open spec fn lists_removed(len: int, keep: Seq<usize>, gone: Seq<usize>) -> bool {
    &&& forall|a: int, b: int| 0 <= a < b < gone.len() ==> gone[a] > gone[b]
    &&& forall|a: int| 0 <= a < gone.len() ==> gone[a] < len
    &&& forall|i: int|
        #![trigger gone.contains(i as usize)]
        #![trigger keep.contains(i as usize)]
        0 <= i < len ==> (gone.contains(i as usize) <==> !keep.contains(i as usize))
}

/// Whether `index` is one of `keep`.
fn listed(keep: &[usize], index: usize) -> (found: bool)
    ensures
        found == keep@.contains(index),
{
    let mut at: usize = 0;
    while at < keep.len()
        invariant
            at <= keep@.len(),
            forall|k: int| 0 <= k < at ==> keep@[k] != index,
        decreases keep@.len() - at,
    {
        if keep[at] == index {
            return true;
        }
        at = at + 1;
    }
    false
}

/// The items of a menu of `len` to take out, last first, when `keep` lists
/// the ones that stay.
pub fn removed(len: usize, keep: &[usize]) -> (gone: Vec<usize>)
    ensures
        lists_removed(len as int, keep@, gone@),
{
    let mut gone: Vec<usize> = Vec::new();
    let mut left: usize = len;
    while left > 0
        invariant
            left <= len,
            forall|a: int, b: int| 0 <= a < b < gone@.len() ==> gone@[a] > gone@[b],
            forall|a: int| 0 <= a < gone@.len() ==> left <= #[trigger] gone@[a] < len,
            forall|i: int|
                #![trigger gone@.contains(i as usize)]
                #![trigger keep@.contains(i as usize)]
                left <= i < len ==> (gone@.contains(i as usize) <==> !keep@.contains(i as usize)),
        decreases left,
    {
        let index = left - 1;
        let ghost before = gone@;
        if !listed(keep, index) {
            gone.push(index);
            proof {
                assert(gone@ == before.push(index));
                assert forall|i: int| index <= i < len implies (#[trigger] gone@.contains(i as usize)
                    <==> !keep@.contains(i as usize)) by {
                    vstd::seq_lib::lemma_seq_contains_after_push(before, index, i as usize);
                }
            }
        } else {
            proof {
                assert forall|i: int| index <= i < len implies (#[trigger] gone@.contains(i as usize)
                    <==> !keep@.contains(i as usize)) by {
                    if i == index && gone@.contains(i as usize) {
                        let k = choose|k: int| 0 <= k < gone@.len() && gone@[k] == i as usize;
                    }
                }
            }
        }
        left = index;
    }
    gone
}

/// The items of `items` at the indices `inside` holds, in order.
pub open spec fn picked<A>(items: Seq<A>, inside: spec_fn(int) -> bool) -> Seq<A>
    decreases items.len(),
{
    if items.len() == 0 {
        Seq::empty()
    } else {
        picked(items.drop_last(), inside) + if inside(items.len() - 1) {
            seq![items.last()]
        } else {
            Seq::empty()
        }
    }
}

/// `items` with the indices of `gone` taken out, one after another.
pub open spec fn taken_out<A>(items: Seq<A>, gone: Seq<usize>) -> Seq<A>
    decreases gone.len(),
{
    if gone.len() == 0 {
        items
    } else {
        taken_out(items.remove(gone[0] as int), gone.drop_first())
    }
}

/// Picking by two tests that agree on every index picks the same.
proof fn picked_alike<A>(items: Seq<A>, p: spec_fn(int) -> bool, q: spec_fn(int) -> bool)
    requires
        forall|i: int| 0 <= i < items.len() ==> #[trigger] p(i) == q(i),
    ensures
        picked(items, p) == picked(items, q),
    decreases items.len(),
{
    if items.len() > 0 {
        picked_alike(items.drop_last(), p, q);
    }
}

/// Picking every index picks everything.
proof fn picked_all<A>(items: Seq<A>, p: spec_fn(int) -> bool)
    requires
        forall|i: int| 0 <= i < items.len() ==> #[trigger] p(i),
    ensures
        picked(items, p) == items,
    decreases items.len(),
{
    if items.len() > 0 {
        picked_all(items.drop_last(), p);
        assert(items.drop_last() + seq![items.last()] =~= items);
    }
}

/// Where every index up to `g` is picked, the picked `g` stands at `g`, and
/// taking it out is picking all but it.
proof fn picked_without<A>(items: Seq<A>, p: spec_fn(int) -> bool, q: spec_fn(int) -> bool, g: int)
    requires
        0 <= g < items.len(),
        forall|i: int| 0 <= i <= g ==> #[trigger] p(i),
        forall|i: int| 0 <= i < items.len() ==> #[trigger] q(i) == (p(i) && i != g),
    ensures
        picked(items, p).len() > g,
        picked(items, p).remove(g) == picked(items, q),
    decreases items.len(),
{
    let last = items.len() - 1;
    let front = items.drop_last();
    if last == g {
        picked_all(front, p);
        picked_all(front, q);
        assert(picked(items, p) == front + seq![items.last()]);
        assert((front + seq![items.last()]).remove(g) =~= front);
        assert(picked(items, q) =~= front);
    } else {
        picked_without(front, p, q, g);
        let a = picked(front, p);
        let tail = if p(last) {
            seq![items.last()]
        } else {
            Seq::empty()
        };
        assert((a + tail).remove(g) =~= a.remove(g) + tail);
        assert(q(last) == p(last));
    }
}

/// Taking out, last first, every index below `t` that is not kept -- every
/// one above being gone already -- leaves what is kept.
proof fn taking_out_below<A>(items: Seq<A>, keep: Seq<usize>, rest: Seq<usize>, t: int)
    requires
        t <= items.len(),
        forall|a: int, b: int| 0 <= a < b < rest.len() ==> rest[a] > rest[b],
        forall|a: int| 0 <= a < rest.len() ==> rest[a] < t && !keep.contains(#[trigger] rest[a]),
        forall|i: int|
            0 <= i < t && !#[trigger] keep.contains(i as usize) ==> exists|a: int| 0 <= a < rest.len() && #[trigger] rest[a] == i,
    ensures
        taken_out(picked(items, |i: int| keep.contains(i as usize) || i < t), rest) == picked(
            items,
            |i: int| keep.contains(i as usize),
        ),
    decreases rest.len(),
{
    let now = |i: int| keep.contains(i as usize) || i < t;
    let kept_only = |i: int| keep.contains(i as usize);
    if rest.len() == 0 {
        assert forall|i: int| 0 <= i < items.len() implies #[trigger] now(i) == kept_only(i) by {
            if i < t && !keep.contains(i as usize) {
                let a = choose|a: int| 0 <= a < rest.len() && rest[a] == i;
            }
        }
        picked_alike(items, now, kept_only);
    } else {
        let g = rest[0] as int;
        let next = |i: int| keep.contains(i as usize) || i < g;
        assert(!keep.contains(rest[0]));
        assert forall|i: int| 0 <= i < items.len() implies #[trigger] next(i) == (now(i) && i != g) by {
            if g < i < t && !keep.contains(i as usize) {
                let a = choose|a: int| 0 <= a < rest.len() && rest[a] == i;
                if a > 0 {
                    assert(rest[0] > rest[a]);
                }
            }
        }
        picked_without(items, now, next, g);
        let tail = rest.drop_first();
        assert forall|i: int|
            0 <= i < g && !#[trigger] keep.contains(i as usize) implies exists|a: int| 0 <= a < tail.len() && #[trigger] tail[a] == i by {
            let a = choose|a: int| 0 <= a < rest.len() && rest[a] == i;
            assert(a > 0);
            assert(tail[a - 1] == i);
        }
        assert forall|a: int| 0 <= a < tail.len() implies tail[a] < g && !keep.contains(#[trigger] tail[a]) by {
            assert(tail[a] == rest[a + 1]);
            assert(rest[0] > rest[a + 1]);
        }
        taking_out_below(items, keep, tail, g);
    }
}

/// Taking out, last first, the items `removed` lists leaves exactly the ones
/// `kept` lists, in order: each index taken out is still where it was, as
/// only items after it have gone.
pub proof fn taking_out_last_first_leaves_what_is_kept<A>(items: Seq<A>, keep: Seq<usize>, gone: Seq<usize>)
    requires
        items.len() <= usize::MAX,
        lists_removed(items.len() as int, keep, gone),
    ensures
        taken_out(items, gone) == picked(items, |i: int| keep.contains(i as usize)),
{
    let n = items.len() as int;
    let all = |i: int| keep.contains(i as usize) || i < n;
    picked_all(items, all);
    assert forall|a: int| 0 <= a < gone.len() implies gone[a] < n && !keep.contains(#[trigger] gone[a]) by {
        let i = gone[a] as int;
        assert(gone.contains(i as usize));
    }
    assert forall|i: int| 0 <= i < n && !#[trigger] keep.contains(i as usize) implies exists|a: int|
        0 <= a < gone.len() && #[trigger] gone[a] == i by {
        assert(gone.contains(i as usize));
        let a = choose|a: int| 0 <= a < gone.len() && gone[a] == i as usize;
        assert(gone[a] == i);
    }
    taking_out_below(items, keep, gone, n);
}

/// What becomes of the menu once it is trimmed: the link to offer Copy link
/// for, first; whether a separator sets it apart from what is left; and
/// whether there is a menu to show at all.
#[derive(Debug, Clone, Copy, PartialEq, Eq)]
pub struct Plan<'a> {
    pub copy: Option<&'a str>,
    pub separator: bool,
    pub shown: bool,
}

/// What becomes of a menu with `left` items after trimming, on a target with
/// `link` or with none. A link gets Copy link first, when it is a web link,
/// set apart from anything else left; and a menu with nothing in it is not
/// shown at all.
pub fn plan(left: usize, link: Option<&str>) -> (planned: Plan)
    ensures
        match link {
            Some(l) => match planned.copy {
                Some(c) => c@ == trimmed(l@) && is_web_link(trimmed(l@)),
                None => !is_web_link(trimmed(l@)),
            },
            None => planned.copy is None,
        },
        planned.separator == (planned.copy is Some && left > 0),
        planned.shown == (left > 0 || planned.copy is Some),
{
    let copy = match link {
        Some(l) => copyable_link(l),
        None => None,
    };
    Plan { copy, separator: copy.is_some() && left > 0, shown: left > 0 || copy.is_some() }
}

/// What any program's menu has keeps its place -- Cut, Copy and Paste, with
/// pasting as plain text or matching the style, Undo and Redo, Select all,
/// spelling suggestions and emoji, and Save and Copy on a picture -- and
/// Inspect only in a developer's build; the browser's own items go.
pub proof fn a_programs_items_keep_their_place(debug: bool)
    ensures
        is_wanted("cut"@, debug),
        is_wanted("copy"@, debug),
        is_wanted("paste"@, debug),
        is_wanted("pasteAsPlainText"@, debug),
        is_wanted("pasteAndMatchStyle"@, debug),
        is_wanted("undo"@, debug),
        is_wanted("redo"@, debug),
        is_wanted("selectAll"@, debug),
        is_wanted("spellCheck"@, debug),
        is_wanted("emoji"@, debug),
        is_wanted("saveImageAs"@, debug),
        is_wanted("copyImage"@, debug),
        is_wanted("inspectElement"@, debug) == debug,
        !is_wanted("back"@, debug),
        !is_wanted("forward"@, debug),
        !is_wanted("reload"@, debug),
        !is_wanted("saveAs"@, debug),
        !is_wanted("print"@, debug),
        !is_wanted("createQrCode"@, debug),
        !is_wanted("copyImageLink"@, debug),
        !is_wanted("openImageInNewWindow"@, debug),
        !is_wanted("writingDirection"@, debug),
{
    reveal_strlit("cut");
    reveal_strlit("copy");
    reveal_strlit("paste");
    reveal_strlit("pasteAsPlainText");
    reveal_strlit("pasteAndMatchStyle");
    reveal_strlit("undo");
    reveal_strlit("redo");
    reveal_strlit("selectAll");
    reveal_strlit("spellCheck");
    reveal_strlit("emoji");
    reveal_strlit("saveImageAs");
    reveal_strlit("copyImage");
    reveal_strlit("inspectElement");
    reveal_strlit("back");
    reveal_strlit("forward");
    reveal_strlit("reload");
    reveal_strlit("saveAs");
    reveal_strlit("print");
    reveal_strlit("createQrCode");
    reveal_strlit("copyImageLink");
    reveal_strlit("openImageInNewWindow");
    reveal_strlit("writingDirection");
    assert("cut"@ != "copy"@) by { assert("cut"@.len() != "copy"@.len()); }
    assert("cut"@ != "paste"@) by { assert("cut"@.len() != "paste"@.len()); }
    assert("cut"@ != "pasteAsPlainText"@) by { assert("cut"@.len() != "pasteAsPlainText"@.len()); }
    assert("cut"@ != "pasteAndMatchStyle"@) by { assert("cut"@.len() != "pasteAndMatchStyle"@.len()); }
    assert("cut"@ != "undo"@) by { assert("cut"@.len() != "undo"@.len()); }
    assert("cut"@ != "redo"@) by { assert("cut"@.len() != "redo"@.len()); }
    assert("cut"@ != "selectAll"@) by { assert("cut"@.len() != "selectAll"@.len()); }
    assert("cut"@ != "spellCheck"@) by { assert("cut"@.len() != "spellCheck"@.len()); }
    assert("cut"@ != "emoji"@) by { assert("cut"@.len() != "emoji"@.len()); }
    assert("cut"@ != "saveImageAs"@) by { assert("cut"@.len() != "saveImageAs"@.len()); }
    assert("cut"@ != "copyImage"@) by { assert("cut"@.len() != "copyImage"@.len()); }
    assert("cut"@ != "inspectElement"@) by { assert("cut"@.len() != "inspectElement"@.len()); }
    assert("copy"@ != "paste"@) by { assert("copy"@.len() != "paste"@.len()); }
    assert("copy"@ != "pasteAsPlainText"@) by { assert("copy"@.len() != "pasteAsPlainText"@.len()); }
    assert("copy"@ != "pasteAndMatchStyle"@) by { assert("copy"@.len() != "pasteAndMatchStyle"@.len()); }
    assert("copy"@ != "undo"@) by { assert("copy"@[0] != "undo"@[0]); }
    assert("copy"@ != "redo"@) by { assert("copy"@[0] != "redo"@[0]); }
    assert("copy"@ != "selectAll"@) by { assert("copy"@.len() != "selectAll"@.len()); }
    assert("copy"@ != "spellCheck"@) by { assert("copy"@.len() != "spellCheck"@.len()); }
    assert("copy"@ != "emoji"@) by { assert("copy"@.len() != "emoji"@.len()); }
    assert("copy"@ != "saveImageAs"@) by { assert("copy"@.len() != "saveImageAs"@.len()); }
    assert("copy"@ != "copyImage"@) by { assert("copy"@.len() != "copyImage"@.len()); }
    assert("copy"@ != "inspectElement"@) by { assert("copy"@.len() != "inspectElement"@.len()); }
    assert("paste"@ != "pasteAsPlainText"@) by { assert("paste"@.len() != "pasteAsPlainText"@.len()); }
    assert("paste"@ != "pasteAndMatchStyle"@) by { assert("paste"@.len() != "pasteAndMatchStyle"@.len()); }
    assert("paste"@ != "undo"@) by { assert("paste"@.len() != "undo"@.len()); }
    assert("paste"@ != "redo"@) by { assert("paste"@.len() != "redo"@.len()); }
    assert("paste"@ != "selectAll"@) by { assert("paste"@.len() != "selectAll"@.len()); }
    assert("paste"@ != "spellCheck"@) by { assert("paste"@.len() != "spellCheck"@.len()); }
    assert("paste"@ != "emoji"@) by { assert("paste"@[0] != "emoji"@[0]); }
    assert("paste"@ != "saveImageAs"@) by { assert("paste"@.len() != "saveImageAs"@.len()); }
    assert("paste"@ != "copyImage"@) by { assert("paste"@.len() != "copyImage"@.len()); }
    assert("paste"@ != "inspectElement"@) by { assert("paste"@.len() != "inspectElement"@.len()); }
    assert("pasteAsPlainText"@ != "pasteAndMatchStyle"@) by { assert("pasteAsPlainText"@.len() != "pasteAndMatchStyle"@.len()); }
    assert("pasteAsPlainText"@ != "undo"@) by { assert("pasteAsPlainText"@.len() != "undo"@.len()); }
    assert("pasteAsPlainText"@ != "redo"@) by { assert("pasteAsPlainText"@.len() != "redo"@.len()); }
    assert("pasteAsPlainText"@ != "selectAll"@) by { assert("pasteAsPlainText"@.len() != "selectAll"@.len()); }
    assert("pasteAsPlainText"@ != "spellCheck"@) by { assert("pasteAsPlainText"@.len() != "spellCheck"@.len()); }
    assert("pasteAsPlainText"@ != "emoji"@) by { assert("pasteAsPlainText"@.len() != "emoji"@.len()); }
    assert("pasteAsPlainText"@ != "saveImageAs"@) by { assert("pasteAsPlainText"@.len() != "saveImageAs"@.len()); }
    assert("pasteAsPlainText"@ != "copyImage"@) by { assert("pasteAsPlainText"@.len() != "copyImage"@.len()); }
    assert("pasteAsPlainText"@ != "inspectElement"@) by { assert("pasteAsPlainText"@.len() != "inspectElement"@.len()); }
    assert("pasteAndMatchStyle"@ != "undo"@) by { assert("pasteAndMatchStyle"@.len() != "undo"@.len()); }
    assert("pasteAndMatchStyle"@ != "redo"@) by { assert("pasteAndMatchStyle"@.len() != "redo"@.len()); }
    assert("pasteAndMatchStyle"@ != "selectAll"@) by { assert("pasteAndMatchStyle"@.len() != "selectAll"@.len()); }
    assert("pasteAndMatchStyle"@ != "spellCheck"@) by { assert("pasteAndMatchStyle"@.len() != "spellCheck"@.len()); }
    assert("pasteAndMatchStyle"@ != "emoji"@) by { assert("pasteAndMatchStyle"@.len() != "emoji"@.len()); }
    assert("pasteAndMatchStyle"@ != "saveImageAs"@) by { assert("pasteAndMatchStyle"@.len() != "saveImageAs"@.len()); }
    assert("pasteAndMatchStyle"@ != "copyImage"@) by { assert("pasteAndMatchStyle"@.len() != "copyImage"@.len()); }
    assert("pasteAndMatchStyle"@ != "inspectElement"@) by { assert("pasteAndMatchStyle"@.len() != "inspectElement"@.len()); }
    assert("undo"@ != "redo"@) by { assert("undo"@[0] != "redo"@[0]); }
    assert("undo"@ != "selectAll"@) by { assert("undo"@.len() != "selectAll"@.len()); }
    assert("undo"@ != "spellCheck"@) by { assert("undo"@.len() != "spellCheck"@.len()); }
    assert("undo"@ != "emoji"@) by { assert("undo"@.len() != "emoji"@.len()); }
    assert("undo"@ != "saveImageAs"@) by { assert("undo"@.len() != "saveImageAs"@.len()); }
    assert("undo"@ != "copyImage"@) by { assert("undo"@.len() != "copyImage"@.len()); }
    assert("undo"@ != "inspectElement"@) by { assert("undo"@.len() != "inspectElement"@.len()); }
    assert("redo"@ != "selectAll"@) by { assert("redo"@.len() != "selectAll"@.len()); }
    assert("redo"@ != "spellCheck"@) by { assert("redo"@.len() != "spellCheck"@.len()); }
    assert("redo"@ != "emoji"@) by { assert("redo"@.len() != "emoji"@.len()); }
    assert("redo"@ != "saveImageAs"@) by { assert("redo"@.len() != "saveImageAs"@.len()); }
    assert("redo"@ != "copyImage"@) by { assert("redo"@.len() != "copyImage"@.len()); }
    assert("redo"@ != "inspectElement"@) by { assert("redo"@.len() != "inspectElement"@.len()); }
    assert("selectAll"@ != "spellCheck"@) by { assert("selectAll"@.len() != "spellCheck"@.len()); }
    assert("selectAll"@ != "emoji"@) by { assert("selectAll"@.len() != "emoji"@.len()); }
    assert("selectAll"@ != "saveImageAs"@) by { assert("selectAll"@.len() != "saveImageAs"@.len()); }
    assert("selectAll"@ != "copyImage"@) by { assert("selectAll"@[0] != "copyImage"@[0]); }
    assert("selectAll"@ != "inspectElement"@) by { assert("selectAll"@.len() != "inspectElement"@.len()); }
    assert("spellCheck"@ != "emoji"@) by { assert("spellCheck"@.len() != "emoji"@.len()); }
    assert("spellCheck"@ != "saveImageAs"@) by { assert("spellCheck"@.len() != "saveImageAs"@.len()); }
    assert("spellCheck"@ != "copyImage"@) by { assert("spellCheck"@.len() != "copyImage"@.len()); }
    assert("spellCheck"@ != "inspectElement"@) by { assert("spellCheck"@.len() != "inspectElement"@.len()); }
    assert("emoji"@ != "saveImageAs"@) by { assert("emoji"@.len() != "saveImageAs"@.len()); }
    assert("emoji"@ != "copyImage"@) by { assert("emoji"@.len() != "copyImage"@.len()); }
    assert("emoji"@ != "inspectElement"@) by { assert("emoji"@.len() != "inspectElement"@.len()); }
    assert("saveImageAs"@ != "copyImage"@) by { assert("saveImageAs"@.len() != "copyImage"@.len()); }
    assert("saveImageAs"@ != "inspectElement"@) by { assert("saveImageAs"@.len() != "inspectElement"@.len()); }
    assert("copyImage"@ != "inspectElement"@) by { assert("copyImage"@.len() != "inspectElement"@.len()); }
    assert("back"@ != "cut"@) by { assert("back"@.len() != "cut"@.len()); }
    assert("back"@ != "copy"@) by { assert("back"@[0] != "copy"@[0]); }
    assert("back"@ != "paste"@) by { assert("back"@.len() != "paste"@.len()); }
    assert("back"@ != "pasteAsPlainText"@) by { assert("back"@.len() != "pasteAsPlainText"@.len()); }
    assert("back"@ != "pasteAndMatchStyle"@) by { assert("back"@.len() != "pasteAndMatchStyle"@.len()); }
    assert("back"@ != "undo"@) by { assert("back"@[0] != "undo"@[0]); }
    assert("back"@ != "redo"@) by { assert("back"@[0] != "redo"@[0]); }
    assert("back"@ != "selectAll"@) by { assert("back"@.len() != "selectAll"@.len()); }
    assert("back"@ != "spellCheck"@) by { assert("back"@.len() != "spellCheck"@.len()); }
    assert("back"@ != "emoji"@) by { assert("back"@.len() != "emoji"@.len()); }
    assert("back"@ != "saveImageAs"@) by { assert("back"@.len() != "saveImageAs"@.len()); }
    assert("back"@ != "copyImage"@) by { assert("back"@.len() != "copyImage"@.len()); }
    assert("back"@ != "inspectElement"@) by { assert("back"@.len() != "inspectElement"@.len()); }
    assert("forward"@ != "cut"@) by { assert("forward"@.len() != "cut"@.len()); }
    assert("forward"@ != "copy"@) by { assert("forward"@.len() != "copy"@.len()); }
    assert("forward"@ != "paste"@) by { assert("forward"@.len() != "paste"@.len()); }
    assert("forward"@ != "pasteAsPlainText"@) by { assert("forward"@.len() != "pasteAsPlainText"@.len()); }
    assert("forward"@ != "pasteAndMatchStyle"@) by { assert("forward"@.len() != "pasteAndMatchStyle"@.len()); }
    assert("forward"@ != "undo"@) by { assert("forward"@.len() != "undo"@.len()); }
    assert("forward"@ != "redo"@) by { assert("forward"@.len() != "redo"@.len()); }
    assert("forward"@ != "selectAll"@) by { assert("forward"@.len() != "selectAll"@.len()); }
    assert("forward"@ != "spellCheck"@) by { assert("forward"@.len() != "spellCheck"@.len()); }
    assert("forward"@ != "emoji"@) by { assert("forward"@.len() != "emoji"@.len()); }
    assert("forward"@ != "saveImageAs"@) by { assert("forward"@.len() != "saveImageAs"@.len()); }
    assert("forward"@ != "copyImage"@) by { assert("forward"@.len() != "copyImage"@.len()); }
    assert("forward"@ != "inspectElement"@) by { assert("forward"@.len() != "inspectElement"@.len()); }
    assert("reload"@ != "cut"@) by { assert("reload"@.len() != "cut"@.len()); }
    assert("reload"@ != "copy"@) by { assert("reload"@.len() != "copy"@.len()); }
    assert("reload"@ != "paste"@) by { assert("reload"@.len() != "paste"@.len()); }
    assert("reload"@ != "pasteAsPlainText"@) by { assert("reload"@.len() != "pasteAsPlainText"@.len()); }
    assert("reload"@ != "pasteAndMatchStyle"@) by { assert("reload"@.len() != "pasteAndMatchStyle"@.len()); }
    assert("reload"@ != "undo"@) by { assert("reload"@.len() != "undo"@.len()); }
    assert("reload"@ != "redo"@) by { assert("reload"@.len() != "redo"@.len()); }
    assert("reload"@ != "selectAll"@) by { assert("reload"@.len() != "selectAll"@.len()); }
    assert("reload"@ != "spellCheck"@) by { assert("reload"@.len() != "spellCheck"@.len()); }
    assert("reload"@ != "emoji"@) by { assert("reload"@.len() != "emoji"@.len()); }
    assert("reload"@ != "saveImageAs"@) by { assert("reload"@.len() != "saveImageAs"@.len()); }
    assert("reload"@ != "copyImage"@) by { assert("reload"@.len() != "copyImage"@.len()); }
    assert("reload"@ != "inspectElement"@) by { assert("reload"@.len() != "inspectElement"@.len()); }
    assert("saveAs"@ != "cut"@) by { assert("saveAs"@.len() != "cut"@.len()); }
    assert("saveAs"@ != "copy"@) by { assert("saveAs"@.len() != "copy"@.len()); }
    assert("saveAs"@ != "paste"@) by { assert("saveAs"@.len() != "paste"@.len()); }
    assert("saveAs"@ != "pasteAsPlainText"@) by { assert("saveAs"@.len() != "pasteAsPlainText"@.len()); }
    assert("saveAs"@ != "pasteAndMatchStyle"@) by { assert("saveAs"@.len() != "pasteAndMatchStyle"@.len()); }
    assert("saveAs"@ != "undo"@) by { assert("saveAs"@.len() != "undo"@.len()); }
    assert("saveAs"@ != "redo"@) by { assert("saveAs"@.len() != "redo"@.len()); }
    assert("saveAs"@ != "selectAll"@) by { assert("saveAs"@.len() != "selectAll"@.len()); }
    assert("saveAs"@ != "spellCheck"@) by { assert("saveAs"@.len() != "spellCheck"@.len()); }
    assert("saveAs"@ != "emoji"@) by { assert("saveAs"@.len() != "emoji"@.len()); }
    assert("saveAs"@ != "saveImageAs"@) by { assert("saveAs"@.len() != "saveImageAs"@.len()); }
    assert("saveAs"@ != "copyImage"@) by { assert("saveAs"@.len() != "copyImage"@.len()); }
    assert("saveAs"@ != "inspectElement"@) by { assert("saveAs"@.len() != "inspectElement"@.len()); }
    assert("print"@ != "cut"@) by { assert("print"@.len() != "cut"@.len()); }
    assert("print"@ != "copy"@) by { assert("print"@.len() != "copy"@.len()); }
    assert("print"@ != "paste"@) by { assert("print"@[1] != "paste"@[1]); }
    assert("print"@ != "pasteAsPlainText"@) by { assert("print"@.len() != "pasteAsPlainText"@.len()); }
    assert("print"@ != "pasteAndMatchStyle"@) by { assert("print"@.len() != "pasteAndMatchStyle"@.len()); }
    assert("print"@ != "undo"@) by { assert("print"@.len() != "undo"@.len()); }
    assert("print"@ != "redo"@) by { assert("print"@.len() != "redo"@.len()); }
    assert("print"@ != "selectAll"@) by { assert("print"@.len() != "selectAll"@.len()); }
    assert("print"@ != "spellCheck"@) by { assert("print"@.len() != "spellCheck"@.len()); }
    assert("print"@ != "emoji"@) by { assert("print"@[0] != "emoji"@[0]); }
    assert("print"@ != "saveImageAs"@) by { assert("print"@.len() != "saveImageAs"@.len()); }
    assert("print"@ != "copyImage"@) by { assert("print"@.len() != "copyImage"@.len()); }
    assert("print"@ != "inspectElement"@) by { assert("print"@.len() != "inspectElement"@.len()); }
    assert("createQrCode"@ != "cut"@) by { assert("createQrCode"@.len() != "cut"@.len()); }
    assert("createQrCode"@ != "copy"@) by { assert("createQrCode"@.len() != "copy"@.len()); }
    assert("createQrCode"@ != "paste"@) by { assert("createQrCode"@.len() != "paste"@.len()); }
    assert("createQrCode"@ != "pasteAsPlainText"@) by { assert("createQrCode"@.len() != "pasteAsPlainText"@.len()); }
    assert("createQrCode"@ != "pasteAndMatchStyle"@) by { assert("createQrCode"@.len() != "pasteAndMatchStyle"@.len()); }
    assert("createQrCode"@ != "undo"@) by { assert("createQrCode"@.len() != "undo"@.len()); }
    assert("createQrCode"@ != "redo"@) by { assert("createQrCode"@.len() != "redo"@.len()); }
    assert("createQrCode"@ != "selectAll"@) by { assert("createQrCode"@.len() != "selectAll"@.len()); }
    assert("createQrCode"@ != "spellCheck"@) by { assert("createQrCode"@.len() != "spellCheck"@.len()); }
    assert("createQrCode"@ != "emoji"@) by { assert("createQrCode"@.len() != "emoji"@.len()); }
    assert("createQrCode"@ != "saveImageAs"@) by { assert("createQrCode"@.len() != "saveImageAs"@.len()); }
    assert("createQrCode"@ != "copyImage"@) by { assert("createQrCode"@.len() != "copyImage"@.len()); }
    assert("createQrCode"@ != "inspectElement"@) by { assert("createQrCode"@.len() != "inspectElement"@.len()); }
    assert("copyImageLink"@ != "cut"@) by { assert("copyImageLink"@.len() != "cut"@.len()); }
    assert("copyImageLink"@ != "copy"@) by { assert("copyImageLink"@.len() != "copy"@.len()); }
    assert("copyImageLink"@ != "paste"@) by { assert("copyImageLink"@.len() != "paste"@.len()); }
    assert("copyImageLink"@ != "pasteAsPlainText"@) by { assert("copyImageLink"@.len() != "pasteAsPlainText"@.len()); }
    assert("copyImageLink"@ != "pasteAndMatchStyle"@) by { assert("copyImageLink"@.len() != "pasteAndMatchStyle"@.len()); }
    assert("copyImageLink"@ != "undo"@) by { assert("copyImageLink"@.len() != "undo"@.len()); }
    assert("copyImageLink"@ != "redo"@) by { assert("copyImageLink"@.len() != "redo"@.len()); }
    assert("copyImageLink"@ != "selectAll"@) by { assert("copyImageLink"@.len() != "selectAll"@.len()); }
    assert("copyImageLink"@ != "spellCheck"@) by { assert("copyImageLink"@.len() != "spellCheck"@.len()); }
    assert("copyImageLink"@ != "emoji"@) by { assert("copyImageLink"@.len() != "emoji"@.len()); }
    assert("copyImageLink"@ != "saveImageAs"@) by { assert("copyImageLink"@.len() != "saveImageAs"@.len()); }
    assert("copyImageLink"@ != "copyImage"@) by { assert("copyImageLink"@.len() != "copyImage"@.len()); }
    assert("copyImageLink"@ != "inspectElement"@) by { assert("copyImageLink"@.len() != "inspectElement"@.len()); }
    assert("openImageInNewWindow"@ != "cut"@) by { assert("openImageInNewWindow"@.len() != "cut"@.len()); }
    assert("openImageInNewWindow"@ != "copy"@) by { assert("openImageInNewWindow"@.len() != "copy"@.len()); }
    assert("openImageInNewWindow"@ != "paste"@) by { assert("openImageInNewWindow"@.len() != "paste"@.len()); }
    assert("openImageInNewWindow"@ != "pasteAsPlainText"@) by { assert("openImageInNewWindow"@.len() != "pasteAsPlainText"@.len()); }
    assert("openImageInNewWindow"@ != "pasteAndMatchStyle"@) by { assert("openImageInNewWindow"@.len() != "pasteAndMatchStyle"@.len()); }
    assert("openImageInNewWindow"@ != "undo"@) by { assert("openImageInNewWindow"@.len() != "undo"@.len()); }
    assert("openImageInNewWindow"@ != "redo"@) by { assert("openImageInNewWindow"@.len() != "redo"@.len()); }
    assert("openImageInNewWindow"@ != "selectAll"@) by { assert("openImageInNewWindow"@.len() != "selectAll"@.len()); }
    assert("openImageInNewWindow"@ != "spellCheck"@) by { assert("openImageInNewWindow"@.len() != "spellCheck"@.len()); }
    assert("openImageInNewWindow"@ != "emoji"@) by { assert("openImageInNewWindow"@.len() != "emoji"@.len()); }
    assert("openImageInNewWindow"@ != "saveImageAs"@) by { assert("openImageInNewWindow"@.len() != "saveImageAs"@.len()); }
    assert("openImageInNewWindow"@ != "copyImage"@) by { assert("openImageInNewWindow"@.len() != "copyImage"@.len()); }
    assert("openImageInNewWindow"@ != "inspectElement"@) by { assert("openImageInNewWindow"@.len() != "inspectElement"@.len()); }
    assert("writingDirection"@ != "cut"@) by { assert("writingDirection"@.len() != "cut"@.len()); }
    assert("writingDirection"@ != "copy"@) by { assert("writingDirection"@.len() != "copy"@.len()); }
    assert("writingDirection"@ != "paste"@) by { assert("writingDirection"@.len() != "paste"@.len()); }
    assert("writingDirection"@ != "pasteAsPlainText"@) by { assert("writingDirection"@[0] != "pasteAsPlainText"@[0]); }
    assert("writingDirection"@ != "pasteAndMatchStyle"@) by { assert("writingDirection"@.len() != "pasteAndMatchStyle"@.len()); }
    assert("writingDirection"@ != "undo"@) by { assert("writingDirection"@.len() != "undo"@.len()); }
    assert("writingDirection"@ != "redo"@) by { assert("writingDirection"@.len() != "redo"@.len()); }
    assert("writingDirection"@ != "selectAll"@) by { assert("writingDirection"@.len() != "selectAll"@.len()); }
    assert("writingDirection"@ != "spellCheck"@) by { assert("writingDirection"@.len() != "spellCheck"@.len()); }
    assert("writingDirection"@ != "emoji"@) by { assert("writingDirection"@.len() != "emoji"@.len()); }
    assert("writingDirection"@ != "saveImageAs"@) by { assert("writingDirection"@.len() != "saveImageAs"@.len()); }
    assert("writingDirection"@ != "copyImage"@) by { assert("writingDirection"@.len() != "copyImage"@.len()); }
    assert("writingDirection"@ != "inspectElement"@) by { assert("writingDirection"@.len() != "inspectElement"@.len()); }
}

} // verus!
