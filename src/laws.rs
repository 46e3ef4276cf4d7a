//! Properties of the engine that relate several states or calls.
use vstd::prelude::*;
use crate::bid_book::{book_insert, book_ok, has_bidder, lemma_book_insert_ok, rank, rank_from, without_bidder, Bid};
use crate::model::{bid_spec, listing_index, MarketView};
use crate::registry::AssetId;
use crate::types::Origin;

verus! {

/// Bids only go up: a bid accepted on an asset is strictly greater than
/// that asset's previous highest bid, and becomes the new highest bid,
/// held by its bidder.
pub proof fn accepted_bids_increase(v: MarketView, origin: Origin, a: AssetId, amount: u128)
    ensures
        bid_spec(v, origin, a, amount) is Ok ==> {
            let i = listing_index(v.listings, a);
            let w = bid_spec(v, origin, a, amount)->Ok_0;
            &&& 0 <= i < v.listings.len()
            &&& amount > v.listings[i].info.highest_bid
            &&& w.listings[i].info.highest_bid == amount
            &&& w.listings[i].info.highest_bidder == Some(origin->Signed_0)
        },
{
}

/// A bid book never grows beyond its capacity: entering a bid into a
/// valid book leaves a valid book, or refuses the bid.
pub proof fn book_stays_within_capacity(s: Seq<Bid>, cap: nat, bidder: u64, amount: u128)
    requires
        book_ok(s, cap),
    ensures
        book_insert(s, cap, bidder, amount) is Some ==> book_ok(book_insert(s, cap, bidder, amount)->Some_0, cap),
{
    lemma_book_insert_ok(s, cap, bidder, amount);
}

proof fn lemma_rank_past_larger(s: Seq<Bid>, amount: u128, i: int)
    requires
        0 <= i <= s.len(),
        forall|k: int| 0 <= k < s.len() ==> #[trigger] s[k].amount > amount,
    ensures
        rank_from(s, amount, i) == s.len(),
    decreases s.len() - i,
{
    if i < s.len() {
        lemma_rank_past_larger(s, amount, i + 1);
    }
}

/// A full book refuses a new bidder whose bid is below every entry.
pub proof fn full_book_refuses_lowest_bid(s: Seq<Bid>, cap: nat, bidder: u64, amount: u128)
    requires
        s.len() == cap,
        !has_bidder(s, bidder),
        forall|k: int| 0 <= k < s.len() ==> #[trigger] s[k].amount > amount,
    ensures
        book_insert(s, cap, bidder, amount) is None,
{
    crate::bid_book::lemma_without_absent_bidder(s, bidder);
    assert(without_bidder(s, bidder) == s);
    lemma_rank_past_larger(s, amount, 0);
    assert(rank(s, amount) == s.len());
}

} // verus!
