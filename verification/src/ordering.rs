//! The order in which the stream lists items: by the time of their last
//! update on the host, newest or oldest first, ties going by identifier.

use vstd::prelude::*;
use crate::models::{SortOrder, StreamItem, StreamItemView, item_views};
use crate::text::{lemma_seq_lt_irreflexive, lemma_seq_lt_transitive, seq_lt, text_lt};

verus! {

/// Whether `a` comes strictly before `b` in the order.
pub open spec fn comes_before(a: StreamItemView, b: StreamItemView, order: SortOrder) -> bool {
    match order {
        SortOrder::UpdatedDesc => seq_lt(b.updated_at_github@, a.updated_at_github@) || (
        a.updated_at_github@ == b.updated_at_github@ && a.id > b.id),
        SortOrder::UpdatedAsc => seq_lt(a.updated_at_github@, b.updated_at_github@) || (
        a.updated_at_github@ == b.updated_at_github@ && a.id < b.id),
    }
}

/// No item of the sequence comes before an item listed ahead of it.
pub open spec fn sorted_items(s: Seq<StreamItemView>, order: SortOrder) -> bool {
    forall|i: int, j: int| 0 <= i < j < s.len() ==> !comes_before(#[trigger] s[j], #[trigger] s[i], order)
}

/// The order is transitive.
pub proof fn lemma_comes_before_transitive(
    a: StreamItemView,
    b: StreamItemView,
    c: StreamItemView,
    order: SortOrder,
)
    requires
        comes_before(a, b, order),
        comes_before(b, c, order),
    ensures
        comes_before(a, c, order),
{
    let (ua, ub, uc) = (a.updated_at_github@, b.updated_at_github@, c.updated_at_github@);
    match order {
        SortOrder::UpdatedDesc => {
            if seq_lt(ub, ua) && seq_lt(uc, ub) {
                lemma_seq_lt_transitive(uc, ub, ua);
            }
        },
        SortOrder::UpdatedAsc => {
            if seq_lt(ua, ub) && seq_lt(ub, uc) {
                lemma_seq_lt_transitive(ua, ub, uc);
            }
        },
    }
}

/// No item comes before itself.
pub proof fn lemma_comes_before_irreflexive(a: StreamItemView, order: SortOrder)
    ensures
        !comes_before(a, a, order),
{
    lemma_seq_lt_irreflexive(a.updated_at_github@);
}

/// Whether `a` comes strictly before `b` in the order.
pub fn item_comes_before(a: &StreamItem, b: &StreamItem, order: SortOrder) -> (r: bool)
    ensures
        r == comes_before(a@, b@, order),
{
    match order {
        SortOrder::UpdatedDesc => {
            if text_lt(b.updated_at_github.as_str(), a.updated_at_github.as_str()) {
                true
            } else {
                a.updated_at_github == b.updated_at_github && a.id > b.id
            }
        },
        SortOrder::UpdatedAsc => {
            if text_lt(a.updated_at_github.as_str(), b.updated_at_github.as_str()) {
                true
            } else {
                a.updated_at_github == b.updated_at_github && a.id < b.id
            }
        },
    }
}

/// Orders the items, keeping each of them: the result holds the same items
/// and no item in it comes before one listed ahead of it.
pub fn sort_items(items: Vec<StreamItem>, order: SortOrder) -> (r: Vec<StreamItem>)
    ensures
        item_views(r@).to_multiset() == item_views(items@).to_multiset(),
        sorted_items(item_views(r@), order),
{
    broadcast use vstd::seq_lib::group_to_multiset_ensures;

    let mut out: Vec<StreamItem> = Vec::new();
    let mut i: usize = 0;
    assert(item_views(items@).take(0) =~= Seq::<StreamItemView>::empty());
    assert(item_views(out@) =~= Seq::<StreamItemView>::empty());
    while i < items.len()
        invariant
            i <= items.len(),
            item_views(out@).to_multiset() == item_views(items@).take(i as int).to_multiset(),
            sorted_items(item_views(out@), order),
        decreases items.len() - i,
    {
        let x = &items[i];
        let mut pos: usize = 0;
        while pos < out.len() && !item_comes_before(x, &out[pos], order)
            invariant
                pos <= out.len(),
                forall|k: int| 0 <= k < pos ==> !comes_before(x@, (#[trigger] out@[k])@, order),
            decreases out.len() - pos,
        {
            pos = pos + 1;
        }
        let ghost before = item_views(out@);
        let c = x.copy();
        out.insert(pos, c);
        let ghost after = item_views(out@);
        assert(after =~= before.insert(pos as int, x@));
        assert(item_views(items@).take(i + 1) =~= item_views(items@).take(i as int).push(x@));
        proof {
            vstd::seq_lib::to_multiset_insert(before, pos as int, x@);
            vstd::seq_lib::to_multiset_build(item_views(items@).take(i as int), x@);
            assert forall|a: int, b: int| 0 <= a < b < after.len() implies !comes_before(
                #[trigger] after[b],
                #[trigger] after[a],
                order,
            ) by {
                if b < pos {
                    assert(after[a] == before[a] && after[b] == before[b]);
                } else if b == pos {
                    assert(after[a] == before[a]);
                    assert(before[a] == out@[a]@);
                } else if a == pos {
                    assert(after[b] == before[b - 1]);
                    if comes_before(before[b - 1], x@, order) {
                        if pos < before.len() {
                            assert(comes_before(x@, before[pos as int], order));
                            if b - 1 > pos {
                                assert(!comes_before(before[b - 1], before[pos as int], order));
                            }
                            lemma_comes_before_transitive(before[b - 1], x@, before[pos as int], order);
                            if b - 1 == pos {
                                lemma_comes_before_irreflexive(before[pos as int], order);
                            }
                        }
                    }
                } else if a < pos {
                    assert(after[a] == before[a] && after[b] == before[b - 1]);
                } else {
                    assert(after[a] == before[a - 1] && after[b] == before[b - 1]);
                }
            }
        }
        i = i + 1;
    }
    assert(item_views(items@).take(items.len() as int) =~= item_views(items@));
    out
}

} // verus!
