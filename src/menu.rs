//! Menu descriptions and the keyed diff that reconciles a menu's previous
//! items with a newly supplied description.
use vstd::prelude::*;
use crate::handle::MenuHandle;

verus! {

/// One entry of a menu. Its identity for diffing is `id`, not its position.
#[derive(Debug)]
pub struct MenuItem {
    pub id: i64,
    pub title: String,
    pub enabled: bool,
    pub separator: bool,
    pub checked: bool,
    pub submenu: Option<MenuHandle>,
}

/// An ordered sequence of items.
#[derive(Debug)]
pub struct Menu {
    pub items: Vec<MenuItem>,
}

/// One step of a menu reconciliation; `from` indexes the previous items and
/// `to` / `at` the new ones.
#[derive(Clone, Copy, Debug, PartialEq, Eq, Structural)]
pub enum DiffResult {
    /// The item is unchanged and stays, moved to position `to`.
    Keep { from: usize, to: usize },
    /// The item is updated in place and moved to position `to`.
    Update { from: usize, to: usize },
    /// A fresh item is created at position `at`.
    Insert { at: usize },
    /// The previous item is removed.
    Remove { from: usize },
}

/// An item may be updated in place into another only when both have the
/// same separator flag: a separator never becomes a regular item, nor the
/// reverse.
pub open spec fn can_update(a: MenuItem, b: MenuItem) -> bool {
    a.separator == b.separator
}

/// Item `a` is updated in place into `b`: the diff pairs items by id, and
/// the pair must be updatable.
pub open spec fn updatable(a: MenuItem, b: MenuItem) -> bool {
    a.id == b.id && can_update(a, b)
}

/// All fields equal.
pub open spec fn same_item(a: MenuItem, b: MenuItem) -> bool {
    &&& a.id == b.id
    &&& a.title@ == b.title@
    &&& a.enabled == b.enabled
    &&& a.separator == b.separator
    &&& a.checked == b.checked
    &&& a.submenu == b.submenu
}

pub open spec fn ids_unique(s: Seq<MenuItem>) -> bool {
    forall|i: int, j: int| 0 <= i < s.len() && 0 <= j < s.len() && i != j ==> s[i].id != s[j].id
}

/// Whether some item of `s` can be updated into `item`.
pub open spec fn has_match(s: Seq<MenuItem>, item: MenuItem) -> bool {
    exists|k: int| 0 <= k < s.len() && updatable(s[k], item)
}

/// The position in `s` of the item that can be updated into `item`.
pub open spec fn match_index(s: Seq<MenuItem>, item: MenuItem) -> int {
    choose|k: int| 0 <= k < s.len() && updatable(s[k], item)
}

/// The step that places next item `j`.
pub open spec fn placement(prev: Seq<MenuItem>, next: Seq<MenuItem>, j: int) -> DiffResult {
    if has_match(prev, next[j]) {
        let k = match_index(prev, next[j]);
        if same_item(prev[k], next[j]) {
            DiffResult::Keep { from: k as usize, to: j as usize }
        } else {
            DiffResult::Update { from: k as usize, to: j as usize }
        }
    } else {
        DiffResult::Insert { at: j as usize }
    }
}

/// Removals of the first `n` previous items that no next item takes over.
pub open spec fn removals(prev: Seq<MenuItem>, next: Seq<MenuItem>, n: int) -> Seq<DiffResult>
    decreases n,
{
    if n <= 0 {
        seq![]
    } else if has_match(next, prev[n - 1]) {
        removals(prev, next, n - 1)
    } else {
        removals(prev, next, n - 1).push(DiffResult::Remove { from: (n - 1) as usize })
    }
}

/// The whole diff: first every removal in previous order, then one placing
/// step per next item in next order.
pub open spec fn menu_diff(prev: Seq<MenuItem>, next: Seq<MenuItem>) -> Seq<DiffResult> {
    removals(prev, next, prev.len() as int) + Seq::new(next.len(), |j: int| placement(prev, next, j))
}

impl MenuItem {
    /// Whether this item may be updated in place into `other`.
    pub fn can_update(&self, other: &MenuItem) -> (r: bool)
        ensures
            r == can_update(*self, *other),
    {
        self.separator == other.separator
    }

    /// Whether every field equals the other item's.
    pub fn same_as(&self, other: &MenuItem) -> (r: bool)
        ensures
            r == same_item(*self, *other),
    {
        let sub_eq = match (self.submenu, other.submenu) {
            (Some(a), Some(b)) => a.0 == b.0,
            (None, None) => true,
            _ => false,
        };
        self.id == other.id && self.title == other.title && self.enabled == other.enabled
            && self.separator == other.separator && self.checked == other.checked && sub_eq
    }
}

/// Finds the item of `items` that can be updated into `item`.
pub(crate) fn find_match(items: &Vec<MenuItem>, item: &MenuItem) -> (r: Option<usize>)
    requires
        ids_unique(items@),
    ensures
        r.is_some() == has_match(items@, *item),
        r.is_some() ==> r.unwrap() == match_index(items@, *item) && r.unwrap() < items.len(),
{
    let mut k: usize = 0;
    while k < items.len()
        invariant
            k <= items.len(),
            ids_unique(items@),
            forall|i: int| 0 <= i < k ==> !updatable(items@[i], *item),
        decreases items.len() - k,
    {
        if items[k].id == item.id && items[k].can_update(item) {
            assert(has_match(items@, *item));
            let ghost c = match_index(items@, *item);
            assert(updatable(items@[c], *item));
            assert(items@[c].id == items@[k as int].id);
            assert(c == k as int);
            return Some(k);
        }
        k = k + 1;
    }
    None
}

/// Whether the ids of `items` are pairwise distinct.
pub fn has_unique_ids(items: &Vec<MenuItem>) -> (r: bool)
    ensures
        r == ids_unique(items@),
{
    let mut i: usize = 0;
    while i < items.len()
        invariant
            i <= items.len(),
            forall|a: int, b: int|
                0 <= a < i && 0 <= b < items.len() && a != b ==> items@[a].id != items@[b].id,
        decreases items.len() - i,
    {
        let mut j: usize = 0;
        while j < items.len()
            invariant
                i < items.len(),
                j <= items.len(),
                forall|a: int, b: int|
                    0 <= a < i && 0 <= b < items.len() && a != b ==> items@[a].id != items@[b].id,
                forall|b: int| 0 <= b < j && b != i ==> items@[i as int].id != items@[b].id,
            decreases items.len() - j,
        {
            if j != i && items[i].id == items[j].id {
                return false;
            }
            j = j + 1;
        }
        i = i + 1;
    }
    true
}

/// Computes the reconciliation steps from `prev` to `next`, keyed by item id.
/// An item whose separator flag changes is removed and inserted afresh.
pub fn update_diff(prev: &Vec<MenuItem>, next: &Vec<MenuItem>) -> (r: Vec<DiffResult>)
    requires
        ids_unique(prev@),
        ids_unique(next@),
    ensures
        r@ == menu_diff(prev@, next@),
{
    let mut res: Vec<DiffResult> = Vec::new();
    let mut k: usize = 0;
    while k < prev.len()
        invariant
            k <= prev.len(),
            ids_unique(next@),
            res@ == removals(prev@, next@, k as int),
        decreases prev.len() - k,
    {
        let found = find_match(next, &prev[k]);
        if found.is_none() {
            res.push(DiffResult::Remove { from: k });
        }
        k = k + 1;
    }
    let ghost n_removed = res@.len();
    let mut j: usize = 0;
    while j < next.len()
        invariant
            j <= next.len(),
            ids_unique(prev@),
            n_removed == removals(prev@, next@, prev@.len() as int).len(),
            res@ == removals(prev@, next@, prev@.len() as int) + Seq::new(
                j as nat,
                |i: int| placement(prev@, next@, i),
            ),
        decreases next.len() - j,
    {
        let step = match find_match(prev, &next[j]) {
            Some(k) => {
                if prev[k].same_as(&next[j]) {
                    DiffResult::Keep { from: k, to: j }
                } else {
                    DiffResult::Update { from: k, to: j }
                }
            },
            None => DiffResult::Insert { at: j },
        };
        res.push(step);
        proof {
            assert(res@ =~= removals(prev@, next@, prev@.len() as int) + Seq::new(
                (j + 1) as nat,
                |i: int| placement(prev@, next@, i),
            ));
        }
        j = j + 1;
    }
    proof {
        assert(Seq::new(next.len() as nat, |i: int| placement(prev@, next@, i)) =~= Seq::new(
            next@.len(),
            |i: int| placement(prev@, next@, i),
        ));
    }
    res
}

/// The removals hold exactly one `Remove` for each of the first `n` previous
/// items that no new item takes over, and nothing else.
pub proof fn lemma_removals(prev: Seq<MenuItem>, next: Seq<MenuItem>, n: int)
    requires
        0 <= n <= prev.len(),
        prev.len() <= usize::MAX,
    ensures
        forall|i: int|
            0 <= i < removals(prev, next, n).len() ==> (#[trigger] removals(prev, next, n)[i]) is Remove,
        forall|k: usize|
            k < prev.len() ==> (#[trigger] removals(prev, next, n).contains(DiffResult::Remove { from: k })
                <==> (k < n && !has_match(next, prev[k as int]))),
    decreases n,
{
    let cur = removals(prev, next, n);
    if n <= 0 {
        assert(cur =~= Seq::<DiffResult>::empty());
    } else {
        lemma_removals(prev, next, n - 1);
        let earlier = removals(prev, next, n - 1);
        if !has_match(next, prev[n - 1]) {
            assert(cur == earlier.push(DiffResult::Remove { from: (n - 1) as usize }));
            assert forall|i: int| 0 <= i < cur.len() implies (#[trigger] cur[i]) is Remove by {
                if i < earlier.len() {
                    assert(cur[i] == earlier[i]);
                }
            }
            assert forall|k: usize| k < prev.len() implies (#[trigger] cur.contains(
                DiffResult::Remove { from: k },
            ) <==> (k < n && !has_match(next, prev[k as int]))) by {
                assert(earlier.contains(DiffResult::Remove { from: k }) <==> (k < n - 1
                    && !has_match(next, prev[k as int])));
                if k < n && !has_match(next, prev[k as int]) {
                    if k == n - 1 {
                        assert(cur[cur.len() - 1] == DiffResult::Remove { from: k });
                    } else {
                        let w = choose|w: int| 0 <= w < earlier.len() && earlier[w] == DiffResult::Remove { from: k };
                        assert(cur[w] == earlier[w]);
                    }
                }
                if cur.contains(DiffResult::Remove { from: k }) {
                    let w = choose|w: int| 0 <= w < cur.len() && cur[w] == DiffResult::Remove { from: k };
                    if w < earlier.len() {
                        assert(cur[w] == earlier[w]);
                        assert(earlier.contains(DiffResult::Remove { from: k }));
                    }
                }
            }
        }
    }
}

/// An item that keeps its id and its separator flag is placed by a `Keep` or
/// an `Update` from its previous position, and is never removed: it is not
/// re-created.
pub proof fn lemma_unchanged_item_is_updated(
    prev: Seq<MenuItem>,
    next: Seq<MenuItem>,
    k: int,
    j: int,
)
    requires
        ids_unique(prev),
        ids_unique(next),
        prev.len() <= usize::MAX,
        next.len() <= usize::MAX,
        0 <= k < prev.len(),
        0 <= j < next.len(),
        updatable(prev[k], next[j]),
    ensures
        ({
            let d = menu_diff(prev, next);
            let r = removals(prev, next, prev.len() as int).len();
            &&& d.len() == r + next.len()
            &&& d[r + j] == DiffResult::Keep { from: k as usize, to: j as usize } || d[r + j]
                == DiffResult::Update { from: k as usize, to: j as usize }
            &&& !d.contains(DiffResult::Remove { from: k as usize })
            &&& !d.contains(DiffResult::Insert { at: j as usize })
        }),
{
    lemma_removals(prev, next, prev.len() as int);
    let d = menu_diff(prev, next);
    let rem = removals(prev, next, prev.len() as int);
    let pl = Seq::new(next.len(), |i: int| placement(prev, next, i));
    assert(has_match(prev, next[j]));
    let c = match_index(prev, next[j]);
    assert(prev[c].id == prev[k].id);
    assert(c == k);
    assert(has_match(next, prev[k]));
    assert(d[rem.len() + j] == pl[j]);
    if d.contains(DiffResult::Remove { from: k as usize }) {
        let w = choose|w: int| 0 <= w < d.len() && d[w] == DiffResult::Remove { from: k as usize };
        if w < rem.len() {
            assert(rem[w] == d[w]);
            assert(rem.contains(DiffResult::Remove { from: k as usize }));
        } else {
            assert(d[w] == pl[w - rem.len()]);
        }
    }
    if d.contains(DiffResult::Insert { at: j as usize }) {
        let w = choose|w: int| 0 <= w < d.len() && d[w] == DiffResult::Insert { at: j as usize };
        if w < rem.len() {
            assert(rem[w] == d[w]);
        } else {
            let i = w - rem.len();
            assert(d[w] == pl[i]);
            assert(pl[i] == placement(prev, next, i));
        }
    }
}

/// An item whose separator flag flips is removed from its previous position
/// and inserted afresh at its next one, never updated.
pub proof fn lemma_separator_change_is_reinsert(
    prev: Seq<MenuItem>,
    next: Seq<MenuItem>,
    k: int,
    j: int,
)
    requires
        ids_unique(prev),
        ids_unique(next),
        prev.len() <= usize::MAX,
        next.len() <= usize::MAX,
        0 <= k < prev.len(),
        0 <= j < next.len(),
        prev[k].id == next[j].id,
        prev[k].separator != next[j].separator,
    ensures
        ({
            let d = menu_diff(prev, next);
            let r = removals(prev, next, prev.len() as int).len();
            &&& d.len() == r + next.len()
            &&& d[r + j] == DiffResult::Insert { at: j as usize }
            &&& d.contains(DiffResult::Remove { from: k as usize })
            &&& forall|i: int| 0 <= i < d.len() ==> !(#[trigger] d[i] matches DiffResult::Update { from: o, to: n } && (o == k || n == j))
            &&& forall|i: int| 0 <= i < d.len() ==> !(#[trigger] d[i] matches DiffResult::Keep { from: o, to: n } && (o == k || n == j))
        }),
{
    lemma_removals(prev, next, prev.len() as int);
    let d = menu_diff(prev, next);
    let rem = removals(prev, next, prev.len() as int);
    let pl = Seq::new(next.len(), |i: int| placement(prev, next, i));
    if has_match(prev, next[j]) {
        let c = match_index(prev, next[j]);
        assert(prev[c].id == prev[k].id);
    }
    if has_match(next, prev[k]) {
        let c = choose|c: int| 0 <= c < next.len() && updatable(next[c], prev[k]);
        assert(next[c].id == next[j].id);
    }
    assert(d[rem.len() + j] == pl[j]);
    assert(rem.contains(DiffResult::Remove { from: k as usize }));
    let w = choose|w: int| 0 <= w < rem.len() && rem[w] == DiffResult::Remove { from: k as usize };
    assert(d[w] == rem[w]);
    assert forall|i: int| 0 <= i < d.len() implies !(#[trigger] d[i] matches DiffResult::Update { from: o, to: n } && (o == k || n == j)) && !(d[i] matches DiffResult::Keep { from: o, to: n } && (o == k || n == j)) by {
        if i < rem.len() {
            assert(d[i] == rem[i]);
        } else {
            let q = i - rem.len();
            assert(d[i] == pl[q]);
            if has_match(prev, next[q]) {
                let c = match_index(prev, next[q]);
                if c == k {
                    assert(next[q].id == next[j].id);
                }
            }
        }
    }
}

/// How many steps of `d` remove a native item.
pub open spec fn removed_count(d: Seq<DiffResult>) -> nat
    decreases d.len(),
{
    if d.len() == 0 {
        0
    } else {
        removed_count(d.drop_last()) + if d.last() is Remove {
            1nat
        } else {
            0nat
        }
    }
}

/// How many steps of `d` create a native item.
pub open spec fn inserted_count(d: Seq<DiffResult>) -> nat
    decreases d.len(),
{
    if d.len() == 0 {
        0
    } else {
        inserted_count(d.drop_last()) + if d.last() is Insert {
            1nat
        } else {
            0nat
        }
    }
}

/// The ids of the first `n` items of `s` that some item of `other` can be
/// updated from or into, in order.
pub open spec fn matched_ids(s: Seq<MenuItem>, other: Seq<MenuItem>, n: int) -> Seq<i64>
    decreases n,
{
    if n <= 0 {
        seq![]
    } else if has_match(other, s[n - 1]) {
        matched_ids(s, other, n - 1).push(s[n - 1].id)
    } else {
        matched_ids(s, other, n - 1)
    }
}

/// How many of the first `n` items of `s` no item of `other` matches.
pub open spec fn unmatched_count(s: Seq<MenuItem>, other: Seq<MenuItem>, n: int) -> nat
    decreases n,
{
    if n <= 0 {
        0
    } else if has_match(other, s[n - 1]) {
        unmatched_count(s, other, n - 1)
    } else {
        unmatched_count(s, other, n - 1) + 1
    }
}

proof fn lemma_removed_count_add(a: Seq<DiffResult>, b: Seq<DiffResult>)
    ensures
        removed_count(a + b) == removed_count(a) + removed_count(b),
        inserted_count(a + b) == inserted_count(a) + inserted_count(b),
    decreases b.len(),
{
    if b.len() == 0 {
        assert(a + b =~= a);
    } else {
        lemma_removed_count_add(a, b.drop_last());
        assert((a + b).drop_last() =~= a + b.drop_last());
        assert((a + b).last() == b.last());
    }
}

proof fn lemma_matched_ids(s: Seq<MenuItem>, other: Seq<MenuItem>, n: int)
    requires
        0 <= n <= s.len(),
        ids_unique(s),
    ensures
        matched_ids(s, other, n).len() + unmatched_count(s, other, n) == n,
        matched_ids(s, other, n).no_duplicates(),
        forall|x: i64|
            matched_ids(s, other, n).contains(x) <==> exists|k: int|
                0 <= k < n && #[trigger] s[k].id == x && has_match(other, s[k]),
    decreases n,
{
    if n > 0 {
        lemma_matched_ids(s, other, n - 1);
        let earlier = matched_ids(s, other, n - 1);
        let cur = matched_ids(s, other, n);
        if has_match(other, s[n - 1]) {
            assert(cur == earlier.push(s[n - 1].id));
            assert(!earlier.contains(s[n - 1].id)) by {
                if earlier.contains(s[n - 1].id) {
                    let k = choose|k: int| 0 <= k < n - 1 && #[trigger] s[k].id == s[n - 1].id && has_match(other, s[k]);
                }
            }
            assert forall|x: i64| cur.contains(x) <==> exists|k: int|
                0 <= k < n && #[trigger] s[k].id == x && has_match(other, s[k]) by {
                if cur.contains(x) {
                    let w = choose|w: int| 0 <= w < cur.len() && cur[w] == x;
                    if w < earlier.len() {
                        assert(earlier[w] == x);
                        assert(earlier.contains(x));
                    } else {
                        assert(s[n - 1].id == x);
                    }
                }
                if exists|k: int| 0 <= k < n && #[trigger] s[k].id == x && has_match(other, s[k]) {
                    let k = choose|k: int| 0 <= k < n && #[trigger] s[k].id == x && has_match(other, s[k]);
                    if k < n - 1 {
                        assert(earlier.contains(x));
                        let w = choose|w: int| 0 <= w < earlier.len() && earlier[w] == x;
                        assert(cur[w] == x);
                    } else {
                        assert(cur[cur.len() - 1] == x);
                    }
                }
            }
        } else {
            assert forall|x: i64| cur.contains(x) <==> exists|k: int|
                0 <= k < n && #[trigger] s[k].id == x && has_match(other, s[k]) by {
                if exists|k: int| 0 <= k < n && #[trigger] s[k].id == x && has_match(other, s[k]) {
                    let k = choose|k: int| 0 <= k < n && #[trigger] s[k].id == x && has_match(other, s[k]);
                    assert(k != n - 1);
                }
            }
        }
    }
}

proof fn lemma_removals_count(prev: Seq<MenuItem>, next: Seq<MenuItem>, n: int)
    requires
        0 <= n <= prev.len(),
    ensures
        removed_count(removals(prev, next, n)) == unmatched_count(prev, next, n),
        inserted_count(removals(prev, next, n)) == 0,
    decreases n,
{
    if n > 0 {
        lemma_removals_count(prev, next, n - 1);
        if !has_match(next, prev[n - 1]) {
            let cur = removals(prev, next, n);
            assert(cur.drop_last() =~= removals(prev, next, n - 1));
        }
    }
}

proof fn lemma_placements_count(prev: Seq<MenuItem>, next: Seq<MenuItem>, n: int)
    requires
        0 <= n <= next.len(),
    ensures
        inserted_count(Seq::new(n as nat, |j: int| placement(prev, next, j))) == unmatched_count(
            next,
            prev,
            n,
        ),
        removed_count(Seq::new(n as nat, |j: int| placement(prev, next, j))) == 0,
    decreases n,
{
    if n > 0 {
        lemma_placements_count(prev, next, n - 1);
        let cur = Seq::new(n as nat, |j: int| placement(prev, next, j));
        assert(cur.drop_last() =~= Seq::new((n - 1) as nat, |j: int| placement(prev, next, j)));
        assert(cur.last() == placement(prev, next, n - 1));
        assert(has_match(prev, next[n - 1]) == exists|k: int| 0 <= k < prev.len() && updatable(prev[k], next[n - 1]));
    }
}

/// Applying the diff to a native menu that mirrors the previous items leaves
/// exactly one native item per new item: the previous count, less the
/// removals, plus the insertions, is the new count.
pub proof fn lemma_applied_count(prev: Seq<MenuItem>, next: Seq<MenuItem>)
    requires
        ids_unique(prev),
        ids_unique(next),
    ensures
        prev.len() - removed_count(menu_diff(prev, next)) + inserted_count(menu_diff(prev, next))
            == next.len(),
{
    let rem = removals(prev, next, prev.len() as int);
    let pl = Seq::new(next.len(), |j: int| placement(prev, next, j));
    lemma_removed_count_add(rem, pl);
    lemma_removals_count(prev, next, prev.len() as int);
    lemma_placements_count(prev, next, next.len() as int);
    assert(pl =~= Seq::new(next.len() as nat, |j: int| placement(prev, next, j)));
    lemma_matched_ids(prev, next, prev.len() as int);
    lemma_matched_ids(next, prev, next.len() as int);
    let a = matched_ids(prev, next, prev.len() as int);
    let b = matched_ids(next, prev, next.len() as int);
    assert(a.to_set() =~= b.to_set()) by {
        assert forall|x: i64| a.to_set().contains(x) implies b.to_set().contains(x) by {
            assert(a.contains(x));
            let k = choose|k: int| 0 <= k < prev.len() && #[trigger] prev[k].id == x && has_match(next, prev[k]);
            let j = choose|j: int| 0 <= j < next.len() && updatable(next[j], prev[k]);
            assert(updatable(prev[k], next[j]));
            assert(next[j].id == x);
            assert(b.contains(x));
        }
        assert forall|x: i64| b.to_set().contains(x) implies a.to_set().contains(x) by {
            assert(b.contains(x));
            let j = choose|j: int| 0 <= j < next.len() && #[trigger] next[j].id == x && has_match(prev, next[j]);
            let k = choose|k: int| 0 <= k < prev.len() && updatable(prev[k], next[j]);
            assert(updatable(next[j], prev[k]));
            assert(prev[k].id == x);
            assert(a.contains(x));
        }
    }
    a.unique_seq_to_set();
    b.unique_seq_to_set();
}

} // verus!
