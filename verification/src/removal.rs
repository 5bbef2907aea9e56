//! Taking a deleted session off the board.
use crate::listing::{
    arranged, board_of, board_order, board_order_of, is_permutation, lemma_arranged_multiset, precedes,
    shows, Aged, DashboardEntry,
};
use vstd::prelude::*;

verus! {

/// The entry stays when the session `removed` is taken off the board.
pub open spec fn stays(entry: DashboardEntry, removed: Seq<char>) -> bool {
    entry.id@ != removed
}

/// Whether the entry stays when the session `removed` is taken off the board.
pub fn is_kept(entry: &DashboardEntry, removed: &String) -> (kept: bool)
    ensures
        kept == stays(*entry, removed@),
{
    !(entry.id == *removed)
}

/// The lines that stay when the session `removed` is taken off the board.
pub open spec fn without(entries: Seq<DashboardEntry>, removed: Seq<char>) -> Seq<DashboardEntry> {
    entries.filter(|e: DashboardEntry| stays(e, removed))
}

/// The sessions other than `removed`.
pub open spec fn others(listed: Seq<Aged>, removed: Seq<char>) -> Seq<Aged> {
    listed.filter(other_than(removed))
}

/// Tells the sessions other than `removed`.
pub open spec fn other_than(removed: Seq<char>) -> spec_fn(Aged) -> bool {
    |aged: Aged| aged.0.id@ != removed
}

/// Tells the positions of the sessions other than `removed`.
spec fn position_of_other(listed: Seq<Aged>, removed: Seq<char>) -> spec_fn(int) -> bool {
    |i: int| other_than(removed)(listed[i])
}

/// After a removal no line is for the removed session, and every line for another session is still
/// there.
pub proof fn law_removed_session_is_gone(entries: Seq<DashboardEntry>, removed: Seq<char>)
    ensures
        forall|k: int|
            0 <= k < without(entries, removed).len() ==> (#[trigger] without(
                entries,
                removed,
            )[k]).id@ != removed,
        forall|k: int|
            0 <= k < entries.len() && (#[trigger] entries[k]).id@ != removed ==> without(
                entries,
                removed,
            ).contains(entries[k]),
{
    let p = |e: DashboardEntry| stays(e, removed);
    assert forall|k: int| 0 <= k < without(entries, removed).len() implies (#[trigger] without(
        entries,
        removed,
    )[k]).id@ != removed by {
        entries.lemma_filter_pred(p, k);
    }
    assert forall|k: int|
        0 <= k < entries.len() && (#[trigger] entries[k]).id@ != removed implies without(
        entries,
        removed,
    ).contains(entries[k]) by {
        entries.lemma_filter_contains(p, k);
    }
}

/// How many of the items before place `i` satisfy `p`.
spec fn kept_before<A>(s: Seq<A>, p: spec_fn(A) -> bool, i: int) -> int {
    s.take(i).filter(p).len() as int
}

/// Filtering one more item.
proof fn lemma_filter_step<A>(s: Seq<A>, p: spec_fn(A) -> bool, i: int)
    requires
        0 <= i < s.len(),
    ensures
        s.take(i + 1).filter(p) == if p(s[i]) {
            s.take(i).filter(p).push(s[i])
        } else {
            s.take(i).filter(p)
        },
{
    reveal(Seq::filter);
    assert(s.take(i + 1).drop_last() =~= s.take(i));
}

/// What was kept of a part stands at the front of what is kept of the whole.
proof fn lemma_filter_prefix<A>(s: Seq<A>, p: spec_fn(A) -> bool, i: int, j: int)
    requires
        0 <= i <= j <= s.len(),
    ensures
        kept_before(s, p, i) <= kept_before(s, p, j),
        forall|k: int|
            0 <= k < kept_before(s, p, i) ==> s.take(i).filter(p)[k] == #[trigger] s.take(j).filter(
                p,
            )[k],
    decreases j - i,
{
    if i < j {
        lemma_filter_prefix(s, p, i, j - 1);
        lemma_filter_step(s, p, j - 1);
    }
}

/// A kept item stands in the filtered sequence at the number of kept items before it.
proof fn lemma_kept_place<A>(s: Seq<A>, p: spec_fn(A) -> bool, i: int)
    requires
        0 <= i < s.len(),
        p(s[i]),
    ensures
        0 <= kept_before(s, p, i) < s.filter(p).len(),
        s.filter(p)[kept_before(s, p, i)] == s[i],
{
    lemma_filter_step(s, p, i);
    lemma_filter_prefix(s, p, i + 1, s.len() as int);
    assert(s.take(s.len() as int) =~= s);
}

/// Kept items stand in the filtered sequence in the order in which they stood before.
proof fn lemma_kept_places_grow<A>(s: Seq<A>, p: spec_fn(A) -> bool, i: int, j: int)
    requires
        0 <= i < j < s.len(),
        p(s[i]),
    ensures
        kept_before(s, p, i) < kept_before(s, p, j),
{
    lemma_filter_step(s, p, i);
    lemma_filter_prefix(s, p, i + 1, j);
}

/// Two sequences whose items pass their tests at the same places are filtered alike: the kept items
/// come from the same places.
proof fn lemma_filter_in_step<A, B>(
    a: Seq<A>,
    p: spec_fn(A) -> bool,
    b: Seq<B>,
    q: spec_fn(B) -> bool,
    related: spec_fn(A, B) -> bool,
)
    requires
        a.len() == b.len(),
        forall|k: int| #![trigger a[k]] 0 <= k < a.len() ==> p(a[k]) == q(b[k]) && related(a[k], b[k]),
    ensures
        a.filter(p).len() == b.filter(q).len(),
        forall|k: int|
            0 <= k < a.filter(p).len() ==> related(#[trigger] a.filter(p)[k], b.filter(q)[k]),
    decreases a.len(),
{
    reveal(Seq::filter);
    if a.len() > 0 {
        assert(p(a.last()) == q(b.last()));
        assert forall|k: int| #![trigger a.drop_last()[k]] 0 <= k < a.drop_last().len() implies p(
            a.drop_last()[k],
        ) == q(b.drop_last()[k]) && related(a.drop_last()[k], b.drop_last()[k]) by {
            assert(a.drop_last()[k] == a[k]);
        }
        lemma_filter_in_step(a.drop_last(), p, b.drop_last(), q, related);
        assert(related(a.last(), b.last())) by {
            assert(a[a.len() - 1] == a.last());
        }
        let fa = a.filter(p);
        let fb = b.filter(q);
        assert forall|k: int| 0 <= k < fa.len() implies related(#[trigger] fa[k], fb[k]) by {
            if k < a.drop_last().filter(p).len() {
                assert(related(a.drop_last().filter(p)[k], b.drop_last().filter(q)[k]));
            }
        }
    }
}

/// Filtering a sequence filters its multiset.
proof fn lemma_filter_multiset<A>(s: Seq<A>, p: spec_fn(A) -> bool)
    ensures
        s.filter(p).to_multiset() == s.to_multiset().filter(p),
    decreases s.len(),
{
    broadcast use vstd::seq_lib::group_to_multiset_ensures;

    reveal(Seq::filter);
    if s.len() == 0 {
        assert(s.to_multiset() =~= vstd::multiset::Multiset::empty());
        assert(s.filter(p).to_multiset() =~= s.to_multiset().filter(p));
    } else {
        lemma_filter_multiset(s.drop_last(), p);
        assert(s =~= s.drop_last().push(s.last()));
        assert(s.filter(p).to_multiset() =~= s.to_multiset().filter(p));
    }
}

/// What holds of each item and each later one still does after filtering.
proof fn lemma_filter_pairwise<A>(
    s: Seq<A>,
    p: spec_fn(A) -> bool,
    r: spec_fn(A, A) -> bool,
)
    requires
        forall|k: int, l: int| 0 <= k < l < s.len() ==> r(#[trigger] s[k], #[trigger] s[l]),
    ensures
        forall|k: int, l: int|
            0 <= k < l < s.filter(p).len() ==> r(
                #[trigger] s.filter(p)[k],
                #[trigger] s.filter(p)[l],
            ),
    decreases s.len(),
{
    reveal(Seq::filter);
    if s.len() > 0 {
        let rest = s.drop_last();
        assert forall|k: int, l: int| 0 <= k < l < rest.len() implies r(
            #[trigger] rest[k],
            #[trigger] rest[l],
        ) by {
            assert(rest[k] == s[k] && rest[l] == s[l]);
        }
        lemma_filter_pairwise(rest, p, r);
        let kept = s.filter(p);
        assert forall|k: int, l: int| 0 <= k < l < kept.len() implies r(
            #[trigger] kept[k],
            #[trigger] kept[l],
        ) by {
            assert(kept[k] == rest.filter(p)[k]);
            if l < rest.filter(p).len() {
                assert(kept[l] == rest.filter(p)[l]);
            } else {
                assert(rest.filter(p).contains(kept[k]));
                rest.lemma_filter_contains_rev(p, kept[k]);
                let m = choose|m: int| 0 <= m < rest.len() && rest[m] == kept[k];
                assert(s[m] == kept[k]);
                assert(s[s.len() - 1] == kept[l]);
            }
        }
    }
}

/// The positions of the sessions other than `removed`, in board order.
spec fn order_without(listed: Seq<Aged>, order: Seq<int>, removed: Seq<char>) -> Seq<int> {
    order.filter(position_of_other(listed, removed)).map_values(
        |i: int| kept_before(listed, other_than(removed), i),
    )
}

proof fn lemma_order_without(listed: Seq<Aged>, order: Seq<int>, removed: Seq<char>)
    requires
        board_order(listed, order),
    ensures
        board_order(others(listed, removed), order_without(listed, order, removed)),
        ({
            let kept = order.filter(position_of_other(listed, removed));
            let places = order_without(listed, order, removed);
            &&& kept.len() == places.len()
            &&& forall|k: int|
                0 <= k < kept.len() ==> others(listed, removed)[#[trigger] places[k]]
                    == listed[kept[k]]
        }),
{
    broadcast use vstd::seq_lib::group_to_multiset_ensures;

    let p = other_than(removed);
    let q = position_of_other(listed, removed);
    let kept = order.filter(q);
    let left = others(listed, removed);
    let places = order_without(listed, order, removed);

    assert forall|k: int| 0 <= k < kept.len() implies {
        &&& 0 <= #[trigger] kept[k] < listed.len()
        &&& p(listed[kept[k]])
    } by {
        order.lemma_filter_pred(q, k);
        assert(kept.contains(kept[k]));
        order.lemma_filter_contains_rev(q, kept[k]);
    }
    assert forall|k: int| 0 <= k < kept.len() implies {
        &&& places[k] == kept_before(listed, p, kept[k])
        &&& 0 <= #[trigger] places[k] < left.len()
        &&& left[places[k]] == listed[kept[k]]
    } by {
        lemma_kept_place(listed, p, kept[k]);
    }

    let r = |i: int, j: int| i != j && precedes(listed, i, j);
    assert forall|k: int, l: int| 0 <= k < l < order.len() implies r(
        #[trigger] order[k],
        #[trigger] order[l],
    ) by {
        assert(precedes(listed, order[k], order[l]));
    }
    lemma_filter_pairwise(order, q, r);

    assert(places.len() == left.len()) by {
        let shown = arranged(listed, order);
        lemma_filter_in_step(shown, p, order, q, |a: Aged, i: int| true);
        lemma_arranged_multiset(listed, order);
        lemma_filter_multiset(shown, p);
        lemma_filter_multiset(listed, p);
        assert(shown.filter(p).to_multiset().len() == left.to_multiset().len());
    }
    assert forall|k: int, l: int| 0 <= k < l < places.len() implies #[trigger] places[k]
        != #[trigger] places[l] && precedes(left, places[k], places[l]) by {
        assert(r(kept[k], kept[l]));
        if kept[k] < kept[l] {
            lemma_kept_places_grow(listed, p, kept[k], kept[l]);
        } else {
            lemma_kept_places_grow(listed, p, kept[l], kept[k]);
        }
    }
    assert(is_permutation(places, left.len()));
}

/// Taking a session off the board leaves the very board that the other sessions would be shown on:
/// deleting an entry never puts the list out of order.
pub proof fn law_removal_leaves_the_board_of_the_others(
    listed: Seq<Aged>,
    entries: Seq<DashboardEntry>,
    removed: Seq<char>,
)
    requires
        board_of(listed, entries),
    ensures
        board_of(others(listed, removed), without(entries, removed)),
{
    let order = board_order_of(listed, entries);
    let p = other_than(removed);
    let q = position_of_other(listed, removed);
    let pe = |e: DashboardEntry| stays(e, removed);
    let related = |e: DashboardEntry, i: int| shows(e, listed[i].0, listed[i].1@);
    let kept = order.filter(q);
    let left = others(listed, removed);
    let places = order_without(listed, order, removed);
    let lines = without(entries, removed);

    lemma_order_without(listed, order, removed);
    assert forall|k: int| #![trigger entries[k]] 0 <= k < entries.len() implies pe(entries[k]) == q(
        order[k],
    ) && related(entries[k], order[k]) by {
        assert(shows(entries[k], listed[order[k]].0, listed[order[k]].1@));
    }
    lemma_filter_in_step(entries, pe, order, q, related);
    assert forall|k: int| 0 <= k < places.len() implies shows(
        #[trigger] lines[k],
        left[places[k]].0,
        left[places[k]].1@,
    ) by {
        assert(related(entries.filter(pe)[k], order.filter(q)[k]));
        assert(left[places[k]] == listed[kept[k]]);
    }
    assert(board_order(left, places));
}

} // verus!
