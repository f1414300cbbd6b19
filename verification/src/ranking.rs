//! Putting rows in order.
//!
//! A listing orders its rows by up to three numbers and, among rows that agree
//! on all of them, by their position in the table: rows that tie come out in
//! the order in which they were stored.

use vstd::prelude::*;

verus! {

/// The place of a row in a listing.
#[derive(Clone, Copy, Debug)]
pub struct Rank {
    pub first: i128,
    pub second: i128,
    pub third: i128,
    /// The position of the row in its table.
    pub position: usize,
}

impl Rank {
    /// Whether `self` comes strictly before `other`.
    pub open spec fn precedes(self, other: Rank) -> bool {
        ||| self.first < other.first
        ||| self.first == other.first && self.second < other.second
        ||| self.first == other.first && self.second == other.second && self.third < other.third
        ||| self.first == other.first && self.second == other.second && self.third == other.third
            && self.position < other.position
    }

    /// Whether `self` comes strictly before `other`.
    pub fn comes_before(&self, other: &Rank) -> (before: bool)
        ensures
            before == self.precedes(*other),
    {
        if self.first != other.first {
            self.first < other.first
        } else if self.second != other.second {
            self.second < other.second
        } else if self.third != other.third {
            self.third < other.third
        } else {
            self.position < other.position
        }
    }
}

/// Whether no rank in `ranks` is preceded by a later one.
pub open spec fn in_order(ranks: Seq<Rank>) -> bool {
    forall|a: int, b: int| 0 <= a < b < ranks.len() ==> !(#[trigger] ranks[b]).precedes(#[trigger] ranks[a])
}

/// Whether the ranks in `ranks` have pairwise different positions.
pub open spec fn distinct_positions(ranks: Seq<Rank>) -> bool {
    forall|a: int, b: int|
        0 <= a < b < ranks.len() ==> (#[trigger] ranks[a]).position != (#[trigger] ranks[b]).position
}

/// Sorts ranks into listing order. The result holds the same ranks.
pub fn sort_ranks(ranks: &Vec<Rank>) -> (sorted: Vec<Rank>)
    ensures
        in_order(sorted@),
        sorted@.to_multiset() == ranks@.to_multiset(),
        sorted.len() == ranks.len(),
{
    let mut sorted: Vec<Rank> = Vec::new();
    let mut i: usize = 0;
    assert(ranks@.take(0) =~= Seq::<Rank>::empty());
    while i < ranks.len()
        invariant
            i <= ranks.len(),
            in_order(sorted@),
            sorted@.to_multiset() == ranks@.take(i as int).to_multiset(),
            sorted.len() == i,
        decreases ranks.len() - i,
    {
        let item = ranks[i];
        let mut p: usize = 0;
        while p < sorted.len() && !item.comes_before(&sorted[p])
            invariant
                p <= sorted.len(),
                forall|q: int| 0 <= q < p ==> !item.precedes(#[trigger] sorted@[q]),
            decreases sorted.len() - p,
        {
            p += 1;
        }
        let ghost before = sorted@;
        sorted.insert(p, item);
        proof {
            vstd::seq_lib::to_multiset_insert(before, p as int, item);
            vstd::seq_lib::to_multiset_build(ranks@.take(i as int), item);
            assert(ranks@.take(i + 1) == ranks@.take(i as int).push(item));
        }
        i += 1;
    }
    assert(ranks@.take(ranks@.len() as int) == ranks@);
    sorted
}

/// What sorting keeps of a list of ranks with different positions: every rank
/// of the one list is in the other, the positions stay different, and the
/// sorted list is strictly ascending.
pub proof fn lemma_sorted_same_ranks(ranks: Seq<Rank>, sorted: Seq<Rank>)
    requires
        in_order(sorted),
        sorted.to_multiset() == ranks.to_multiset(),
        distinct_positions(ranks),
    ensures
        distinct_positions(sorted),
        forall|k: int| 0 <= k < sorted.len() ==> ranks.contains(#[trigger] sorted[k]),
        forall|k: int| 0 <= k < ranks.len() ==> sorted.contains(#[trigger] ranks[k]),
        ascending(sorted),
{
    broadcast use vstd::seq_lib::group_to_multiset_ensures;

    assert forall|k: int| 0 <= k < sorted.len() implies ranks.contains(#[trigger] sorted[k]) by {
        assert(sorted.to_multiset().count(sorted[k]) > 0);
    }
    assert forall|k: int| 0 <= k < ranks.len() implies sorted.contains(#[trigger] ranks[k]) by {
        assert(ranks.to_multiset().count(ranks[k]) > 0);
    }
    ranks.lemma_multiset_has_no_duplicates();
    sorted.lemma_multiset_has_no_duplicates_conv();
}

/// Whether each rank in `ranks` strictly precedes the ranks after it.
pub open spec fn ascending(ranks: Seq<Rank>) -> bool {
    forall|a: int, b: int|
        0 <= a < b < ranks.len() ==> (#[trigger] ranks[a]).precedes(#[trigger] ranks[b])
}

/// Two ascending lists that hold the same ranks are the same list: the order
/// of a listing is determined by what it lists.
pub proof fn lemma_ascending_unique(x: Seq<Rank>, y: Seq<Rank>)
    requires
        ascending(x),
        ascending(y),
        forall|k: int| 0 <= k < x.len() ==> y.contains(#[trigger] x[k]),
        forall|k: int| 0 <= k < y.len() ==> x.contains(#[trigger] y[k]),
    ensures
        x == y,
    decreases x.len(),
{
    if x.len() == 0 {
        if y.len() > 0 {
            assert(x.contains(y[0]));
        }
    } else {
        let top_y = y.last();
        assert(y.contains(x.last()));
        let x0 = x.drop_last();
        let y0 = y.drop_last();
        assert forall|k: int| 0 <= k < x0.len() implies y0.contains(#[trigger] x0[k]) by {
            let m = choose|m: int| 0 <= m < y.len() && y[m] == x[k];
            assert(y0[m] == x0[k]);
        }
        assert forall|k: int| 0 <= k < y0.len() implies x0.contains(#[trigger] y0[k]) by {
            let m = choose|m: int| 0 <= m < x.len() && x[m] == y[k];
            assert(x0[m] == y0[k]);
        }
        lemma_ascending_unique(x0, y0);
        assert(y =~= y0.push(top_y));
    }
}

/// A listing: some of the rows of a table, each with its place.
pub trait Listing {
    /// How many rows the table has.
    spec fn rows(&self) -> nat;

    /// Whether the row at `position` is listed.
    spec fn lists(&self, position: int) -> bool;

    /// The place of the row at `position`.
    spec fn rank(&self, position: int) -> Rank;

    /// The place of a row records its position.
    proof fn lemma_rank_position(&self, position: int)
        requires
            0 <= position < self.rows(),
            position <= usize::MAX,
        ensures
            self.rank(position).position == position,
    ;
}

/// Whether `order` holds the place of every listed row, once, ascending.
pub open spec fn is_order_of<L: Listing>(listing: L, order: Seq<Rank>) -> bool {
    &&& ascending(order)
    &&& forall|k: int|
        0 <= k < order.len() ==> {
            &&& (#[trigger] order[k]).position < listing.rows()
            &&& listing.lists(order[k].position as int)
            &&& order[k] == listing.rank(order[k].position as int)
        }
    &&& forall|p: int|
        0 <= p < listing.rows() && #[trigger] listing.lists(p) ==> order.contains(listing.rank(p))
}

/// The order of a listing: the places of its rows, ascending.
pub open spec fn order_of<L: Listing>(listing: L) -> Seq<Rank> {
    choose|order: Seq<Rank>| is_order_of(listing, order)
}

/// A listing has one order.
pub proof fn lemma_order_unique<L: Listing>(listing: L, order: Seq<Rank>)
    requires
        is_order_of(listing, order),
    ensures
        order_of(listing) == order,
{
    let chosen = order_of(listing);
    lemma_ascending_unique(chosen, order);
}

/// Whether `ranks` holds the place of every listed row below `upto`, once.
pub open spec fn collected<L: Listing>(listing: L, ranks: Seq<Rank>, upto: int) -> bool {
    &&& forall|k: int|
        0 <= k < ranks.len() ==> {
            &&& (#[trigger] ranks[k]).position < upto
            &&& listing.lists(ranks[k].position as int)
            &&& ranks[k] == listing.rank(ranks[k].position as int)
        }
    &&& forall|p: int| 0 <= p < upto && #[trigger] listing.lists(p) ==> ranks.contains(listing.rank(p))
    &&& distinct_positions(ranks)
}

/// Going on to the next row keeps what was collected: the place of the row
/// is added where the row is listed, and nothing is added where it is not.
pub proof fn lemma_collect_next<L: Listing>(listing: L, ranks: Seq<Rank>, upto: int)
    requires
        collected(listing, ranks, upto),
        0 <= upto < listing.rows(),
        upto <= usize::MAX,
    ensures
        listing.lists(upto) ==> collected(listing, ranks.push(listing.rank(upto)), upto + 1),
        !listing.lists(upto) ==> collected(listing, ranks, upto + 1),
{
    listing.lemma_rank_position(upto);
    if listing.lists(upto) {
        let grown = ranks.push(listing.rank(upto));
        assert forall|k: int| 0 <= k < grown.len() implies {
            &&& (#[trigger] grown[k]).position < upto + 1
            &&& listing.lists(grown[k].position as int)
            &&& grown[k] == listing.rank(grown[k].position as int)
        } by {
        }
        assert forall|p: int| 0 <= p < upto + 1 && #[trigger] listing.lists(p) implies grown.contains(
            listing.rank(p),
        ) by {
            if p < upto {
                let k = choose|k: int| 0 <= k < ranks.len() && ranks[k] == listing.rank(p);
                assert(grown[k] == ranks[k]);
            } else {
                assert(grown[ranks.len() as int] == listing.rank(p));
            }
        }
    }
}

/// Sorts the places that were collected from a whole table into the order
/// of the listing.
pub(crate) fn put_in_order<L: Listing>(
    ranks: &Vec<Rank>,
    Ghost(listing): Ghost<L>,
) -> (order: Vec<Rank>)
    requires
        collected(listing, ranks@, listing.rows() as int),
    ensures
        is_order_of(listing, order@),
        order@ == order_of(listing),
{
    let sorted = sort_ranks(ranks);
    proof {
        lemma_sorted_same_ranks(ranks@, sorted@);
        assert forall|k: int| 0 <= k < sorted.len() implies {
            &&& (#[trigger] sorted[k]).position < listing.rows()
            &&& listing.lists(sorted[k].position as int)
            &&& sorted[k] == listing.rank(sorted[k].position as int)
        } by {
        }
        lemma_order_unique(listing, sorted@);
    }
    sorted
}

} // verus!
