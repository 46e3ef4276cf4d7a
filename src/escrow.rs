//! Escrow accounting: every account's reserved balance is exactly the sum
//! of the highest bids it holds in auctions that have not ended.
use vstd::prelude::*;
use crate::ledger::{deposit_spec, reserve_spec, reserved_of, withdraw_spec, AccountData};
use crate::model::{
    auto_resolve_spec, bid_spec, fail_spec, fallback_spec, finalize_spec, list_spec, listing_index,
    pay_royalty, put_listing, release_escrow, resolve_spec, set_fee_spec, settle_funds, sweep_from,
    sweep_spec, withdraw_fees_spec, ListingView, MarketView,
};
use crate::registry::AssetId;
use crate::types::{AuctionInfo, Origin};

verus! {

/// What an auction holds in escrow for `who`.
pub open spec fn escrow_share(info: AuctionInfo, who: u64) -> int {
    if !info.ended && info.highest_bidder == Some(who) {
        info.highest_bid as int
    } else {
        0
    }
}

/// What all auctions together hold in escrow for `who`.
pub open spec fn escrow_total(s: Seq<ListingView>, who: u64) -> int
    decreases s.len(),
{
    if s.len() == 0 {
        0
    } else {
        escrow_total(s.drop_last(), who) + escrow_share(s.last().info, who)
    }
}

/// Reserved balances are exactly the escrow of the auctions.
pub open spec fn escrow_ok(v: MarketView) -> bool {
    forall|who: u64| #[trigger] reserved_of(v.ledger, who) == escrow_total(v.listings, who)
}

proof fn lemma_total_update(s: Seq<ListingView>, i: int, l: ListingView, who: u64)
    requires
        0 <= i < s.len(),
    ensures
        escrow_total(s.update(i, l), who) == escrow_total(s, who) - escrow_share(s[i].info, who)
            + escrow_share(l.info, who),
    decreases s.len(),
{
    let u = s.update(i, l);
    if i == s.len() - 1 {
        assert(u.drop_last() =~= s.drop_last());
    } else {
        lemma_total_update(s.drop_last(), i, l, who);
        assert(u.drop_last() =~= s.drop_last().update(i, l));
    }
}

proof fn lemma_total_push(s: Seq<ListingView>, l: ListingView, who: u64)
    ensures
        escrow_total(s.push(l), who) == escrow_total(s, who) + escrow_share(l.info, who),
{
    assert(s.push(l).drop_last() =~= s);
}

proof fn lemma_total_covers(s: Seq<ListingView>, i: int, who: u64)
    requires
        0 <= i < s.len(),
    ensures
        escrow_total(s, who) >= escrow_share(s[i].info, who),
        escrow_total(s, who) >= 0,
    decreases s.len(),
{
    lemma_total_nonneg(s.drop_last(), who);
    if i < s.len() - 1 {
        lemma_total_covers(s.drop_last(), i, who);
    }
}

proof fn lemma_total_nonneg(s: Seq<ListingView>, who: u64)
    ensures
        escrow_total(s, who) >= 0,
    decreases s.len(),
{
    if s.len() > 0 {
        lemma_total_nonneg(s.drop_last(), who);
    }
}

/// Replacing record `i` keeps escrow exact when the ledger's reserved
/// balances move by the change in that record's escrow.
proof fn lemma_replace_keeps_escrow(v: MarketView, i: int, l: ListingView, m: Map<u64, AccountData>)
    requires
        0 <= i < v.listings.len(),
        escrow_ok(v),
        forall|who: u64|
            #[trigger] reserved_of(m, who) == reserved_of(v.ledger, who) - escrow_share(
                v.listings[i].info,
                who,
            ) + escrow_share(l.info, who),
    ensures
        forall|who: u64| #[trigger] reserved_of(m, who) == escrow_total(v.listings.update(i, l), who),
{
    assert forall|who: u64| #[trigger] reserved_of(m, who) == escrow_total(v.listings.update(i, l), who) by {
        lemma_total_update(v.listings, i, l, who);
        assert(reserved_of(v.ledger, who) == escrow_total(v.listings, who));
    }
}

/// Giving back an auction's escrow lowers its bidder's reserved balance by
/// exactly that escrow.
proof fn lemma_release(v: MarketView, i: int)
    requires
        0 <= i < v.listings.len(),
        escrow_ok(v),
        !v.listings[i].info.ended,
    ensures
        forall|who: u64|
            #[trigger] reserved_of(release_escrow(v.ledger, v.listings[i].info), who) == reserved_of(
                v.ledger,
                who,
            ) - escrow_share(v.listings[i].info, who),
{
    let info = v.listings[i].info;
    if let Some(b) = info.highest_bidder {
        lemma_total_covers(v.listings, i, b);
        assert(reserved_of(v.ledger, b) == escrow_total(v.listings, b));
    }
}

/// Escrow stays exact through a settlement.
pub proof fn lemma_finalize_keeps_escrow(v: MarketView, a: AssetId, buyer: u64, amount: u128)
    requires
        escrow_ok(v),
    ensures
        finalize_spec(v, a, buyer, amount) is Ok ==> escrow_ok(finalize_spec(v, a, buyer, amount)->Ok_0),
{
    let r = finalize_spec(v, a, buyer, amount);
    if r is Ok {
        let i = listing_index(v.listings, a);
        let info = v.listings[i].info;
        let m = settle_funds(v, info, a, buyer, amount)->Ok_0;
        lemma_release(v, i);
        let m0 = release_escrow(v.ledger, info);
        let m1 = withdraw_spec(m0, buyer, amount)->Some_0;
        let fee = crate::fees::percent_of(amount, v.fee_percent) as u128;
        let royalty = crate::fees::percent_of(amount, v.config.royalty_percent) as u128;
        let m2 = pay_royalty(m1, v.registry, a, royalty)->Some_0;
        let m3 = deposit_spec(m2, info.owner, (amount - fee) as u128)->Some_0;
        assert forall|who: u64| #[trigger] reserved_of(m, who) == reserved_of(v.ledger, who) - escrow_share(
            info,
            who,
        ) + escrow_share(r->Ok_0.listings[i].info, who) by {
            assert(reserved_of(m1, who) == reserved_of(m0, who));
            assert(reserved_of(m2, who) == reserved_of(m1, who));
            assert(reserved_of(m3, who) == reserved_of(m2, who));
        }
        lemma_replace_keeps_escrow(v, i, r->Ok_0.listings[i], m);
        let w = r->Ok_0;
        assert(w.ledger == m);
        assert(w.listings =~= v.listings.update(i, w.listings[i]));
        assert forall|who: u64| #[trigger] reserved_of(w.ledger, who) == escrow_total(w.listings, who) by {
            assert(reserved_of(m, who) == escrow_total(v.listings.update(i, w.listings[i]), who));
        }
    }
}

/// Escrow stays exact through a bid.
pub(crate) proof fn lemma_bid_keeps_escrow(v: MarketView, origin: Origin, a: AssetId, amount: u128)
    requires
        escrow_ok(v),
        crate::ledger::ledger_ok(v.ledger),
    ensures
        bid_spec(v, origin, a, amount) is Ok ==> escrow_ok(bid_spec(v, origin, a, amount)->Ok_0),
{
    let r = bid_spec(v, origin, a, amount);
    if r is Ok {
        let w = r->Ok_0;
        let bidder = origin->Signed_0;
        let i = listing_index(v.listings, a);
        let info = v.listings[i].info;
        let m = reserve_spec(v.ledger, bidder, amount)->Some_0;
        let d = crate::ledger::account_of(v.ledger, bidder);
        assert(d.free + d.reserved <= u128::MAX);
        assert(reserved_of(m, bidder) == reserved_of(v.ledger, bidder) + amount);
        assert forall|who: u64| #[trigger] reserved_of(w.ledger, who) == reserved_of(v.ledger, who)
            - escrow_share(info, who) + escrow_share(w.listings[i].info, who) by {
            if let Some(p) = info.highest_bidder {
                lemma_total_covers(v.listings, i, p);
                assert(reserved_of(v.ledger, p) == escrow_total(v.listings, p));
                assert(reserved_of(m, p) >= info.highest_bid);
            }
        }
        lemma_replace_keeps_escrow(v, i, w.listings[i], w.ledger);
        assert(w.listings =~= v.listings.update(i, w.listings[i]));
    }
}

/// Escrow stays exact through a listing.
pub(crate) proof fn lemma_list_keeps_escrow(v: MarketView, origin: Origin, a: AssetId)
    requires
        escrow_ok(v),
    ensures
        list_spec(v, origin, a) is Ok ==> escrow_ok(list_spec(v, origin, a)->Ok_0),
{
    let r = list_spec(v, origin, a);
    if r is Ok {
        let w = r->Ok_0;
        let i = listing_index(v.listings, a);
        let l = ListingView {
            asset: a,
            info: crate::model::fresh_info(origin->Signed_0, v.now),
            bids: Seq::empty(),
        };
        assert(w.listings == put_listing(v.listings, l));
        if i >= 0 {
            lemma_replace_keeps_escrow(v, i, l, v.ledger);
        } else {
            assert forall|who: u64| #[trigger] reserved_of(w.ledger, who) == escrow_total(w.listings, who) by {
                lemma_total_push(v.listings, l, who);
            }
        }
    }
}

/// Escrow stays exact when an active auction fails.
pub(crate) proof fn lemma_fail_keeps_escrow(v: MarketView, i: int)
    requires
        escrow_ok(v),
        0 <= i < v.listings.len(),
        !v.listings[i].info.ended,
    ensures
        escrow_ok(fail_spec(v, i)),
{
    let w = fail_spec(v, i);
    lemma_release(v, i);
    lemma_replace_keeps_escrow(v, i, w.listings[i], w.ledger);
    assert(w.listings =~= v.listings.update(i, w.listings[i]));
}

proof fn lemma_fallback_keeps_escrow(v: MarketView, i: int, highest: u64, j: int)
    requires
        escrow_ok(v),
        0 <= i < v.listings.len(),
        !v.listings[i].info.ended,
    ensures
        escrow_ok(fallback_spec(v, i, highest, j)),
    decreases v.listings[i].bids.len() - j,
{
    let l = v.listings[i];
    if j < 0 || j >= l.bids.len() {
        lemma_fail_keeps_escrow(v, i);
    } else {
        let b = l.bids[j];
        lemma_finalize_keeps_escrow(v, l.asset, b.bidder, b.amount);
        lemma_fallback_keeps_escrow(v, i, highest, j + 1);
    }
}

proof fn lemma_auto_resolve_keeps_escrow(v: MarketView, i: int)
    requires
        escrow_ok(v),
        0 <= i < v.listings.len(),
        !v.listings[i].info.ended,
    ensures
        escrow_ok(auto_resolve_spec(v, i)),
{
    let l = v.listings[i];
    match l.info.highest_bidder {
        None => lemma_fail_keeps_escrow(v, i),
        Some(h) => {
            lemma_finalize_keeps_escrow(v, l.asset, h, l.info.highest_bid);
            lemma_fallback_keeps_escrow(v, i, h, 0);
        },
    }
}

proof fn lemma_sweep_keeps_escrow(v: MarketView, now: u64, i: int, end: int, budget: nat)
    requires
        escrow_ok(v),
    ensures
        escrow_ok(sweep_from(v, now, i, end, budget)),
    decreases end - i,
{
    if 0 <= i < end && i < v.listings.len() && budget > 0 {
        if crate::model::overdue(v.listings[i], now, v.config.timeout_blocks) {
            lemma_auto_resolve_keeps_escrow(v, i);
            lemma_sweep_keeps_escrow(auto_resolve_spec(v, i), now, i + 1, end, (budget - 1) as nat);
        } else {
            lemma_sweep_keeps_escrow(v, now, i + 1, end, budget);
        }
    }
}

pub(crate) proof fn lemma_withdraw_keeps_escrow(v: MarketView, origin: Origin, to: u64)
    requires
        escrow_ok(v),
    ensures
        withdraw_fees_spec(v, origin, to) is Ok ==> escrow_ok(withdraw_fees_spec(v, origin, to)->Ok_0),
{
    let r = withdraw_fees_spec(v, origin, to);
    if r is Ok {
        let w = r->Ok_0;
        assert forall|who: u64| #[trigger] reserved_of(w.ledger, who) == escrow_total(w.listings, who) by {
            assert(reserved_of(w.ledger, who) == reserved_of(v.ledger, who));
        }
    }
}

/// Escrow is exact after every call and every sweep: whenever each
/// account's reserved balance equals the sum of the highest bids it holds
/// in active auctions, it does so again after any call that succeeds, and
/// after the sweep of any block. (A refused call changes nothing.)
pub proof fn escrow_invariant(
    v: MarketView,
    origin: Origin,
    a: AssetId,
    amount: u128,
    buyer: u64,
    fee: u8,
    now: u64,
)
    requires
        escrow_ok(v),
        crate::model::market_ok(v),
    ensures
        list_spec(v, origin, a) is Ok ==> escrow_ok(list_spec(v, origin, a)->Ok_0),
        bid_spec(v, origin, a, amount) is Ok ==> escrow_ok(bid_spec(v, origin, a, amount)->Ok_0),
        resolve_spec(v, origin, a) is Ok ==> escrow_ok(resolve_spec(v, origin, a)->Ok_0),
        finalize_spec(v, a, buyer, amount) is Ok ==> escrow_ok(finalize_spec(v, a, buyer, amount)->Ok_0),
        set_fee_spec(v, origin, fee) is Ok ==> escrow_ok(set_fee_spec(v, origin, fee)->Ok_0),
        withdraw_fees_spec(v, origin, buyer) is Ok ==> escrow_ok(withdraw_fees_spec(v, origin, buyer)->Ok_0),
        escrow_ok(sweep_spec(v, now)),
{
    lemma_list_keeps_escrow(v, origin, a);
    lemma_bid_keeps_escrow(v, origin, a, amount);
    lemma_finalize_keeps_escrow(v, a, buyer, amount);
    let i = listing_index(v.listings, a);
    if resolve_spec(v, origin, a) is Ok {
        let info = v.listings[i].info;
        lemma_finalize_keeps_escrow(v, a, info.highest_bidder->Some_0, info.highest_bid);
    }
    lemma_withdraw_keeps_escrow(v, origin, buyer);
    lemma_sweep_keeps_escrow(v, now, 0, v.listings.len() as int, v.config.max_resolutions_per_block as nat);
}

proof fn lemma_total_single(s: Seq<ListingView>, i: int, who: u64)
    requires
        0 <= i < s.len(),
        forall|j: int| 0 <= j < s.len() && j != i ==> escrow_share(#[trigger] s[j].info, who) == 0,
    ensures
        escrow_total(s, who) == escrow_share(s[i].info, who),
    decreases s.len(),
{
    if i < s.len() - 1 {
        lemma_total_single(s.drop_last(), i, who);
    } else {
        lemma_total_zero(s.drop_last(), who);
    }
}

proof fn lemma_total_zero(s: Seq<ListingView>, who: u64)
    requires
        forall|j: int| 0 <= j < s.len() ==> escrow_share(#[trigger] s[j].info, who) == 0,
    ensures
        escrow_total(s, who) == 0,
    decreases s.len(),
{
    if s.len() > 0 {
        lemma_total_zero(s.drop_last(), who);
    }
}

/// In a state whose escrow is exact, the highest bidder of an active
/// auction who leads no other active auction has exactly the highest bid
/// reserved.
pub proof fn highest_bid_is_reserved(v: MarketView, i: int)
    requires
        escrow_ok(v),
        0 <= i < v.listings.len(),
        !v.listings[i].info.ended,
        v.listings[i].info.highest_bidder is Some,
        forall|j: int|
            0 <= j < v.listings.len() && j != i ==> (#[trigger] v.listings[j]).info.ended
                || v.listings[j].info.highest_bidder != v.listings[i].info.highest_bidder,
    ensures
        reserved_of(v.ledger, v.listings[i].info.highest_bidder->Some_0) == v.listings[i].info.highest_bid,
{
    let b = v.listings[i].info.highest_bidder->Some_0;
    assert forall|j: int| 0 <= j < v.listings.len() && j != i implies escrow_share(
        #[trigger] v.listings[j].info,
        b,
    ) == 0 by {
        assert(v.listings[j].info.ended || v.listings[j].info.highest_bidder != Some(b));
    }
    lemma_total_single(v.listings, i, b);
    assert(reserved_of(v.ledger, b) == escrow_total(v.listings, b));
}

} // verus!
