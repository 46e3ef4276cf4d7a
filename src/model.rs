//! The engine's state as plain values, and each call as a transition on it.
use vstd::prelude::*;
use crate::bid_book::{book_insert, Bid};
use crate::fees::percent_of;
use crate::ledger::{
    deposit_spec, free_of, reserve_spec, transfer_spec, unreserve_spec, withdraw_spec, AccountData,
    LedgerError,
};
use crate::registry::{admin_spec, owner_spec, thaw_spec, freeze_spec, AssetId, RegistryView};
use crate::registry;
use crate::types::{AuctionInfo, Error, Event, Config, Origin};

verus! {

/// An asset's auction record together with its bid book.
pub struct ListingView {
    pub asset: AssetId,
    pub info: AuctionInfo,
    pub bids: Seq<Bid>,
}

/// The whole engine with its ledger and registry.
pub struct MarketView {
    pub ledger: Map<u64, AccountData>,
    pub registry: RegistryView,
    /// Auction records in the order the assets were first listed.
    pub listings: Seq<ListingView>,
    pub fee_percent: u8,
    pub accumulated_fees: u128,
    /// The current block.
    pub now: u64,
    pub events: Seq<Event>,
    pub config: Config,
}

/// The index of the record for `a`, or -1.
pub open spec fn listing_index(s: Seq<ListingView>, a: AssetId) -> int {
    if exists|i: int| 0 <= i < s.len() && s[i].asset == a {
        choose|i: int| 0 <= i < s.len() && s[i].asset == a
    } else {
        -1
    }
}

/// No asset has two records.
pub open spec fn assets_unique(s: Seq<ListingView>) -> bool {
    forall|i: int, j: int| 0 <= i < j < s.len() ==> s[i].asset != s[j].asset
}

/// `a` is under an auction that has not ended.
pub open spec fn in_auction(v: MarketView, a: AssetId) -> bool {
    let i = listing_index(v.listings, a);
    i >= 0 && !v.listings[i].info.ended
}

/// The record of a fresh listing by `owner` at block `now`.
pub open spec fn fresh_info(owner: u64, now: u64) -> AuctionInfo {
    AuctionInfo { owner, start_block: now, highest_bid: 0, highest_bidder: None, ended: false }
}

/// Stores `l` in the record of its asset, or appends it.
pub open spec fn put_listing(s: Seq<ListingView>, l: ListingView) -> Seq<ListingView> {
    let i = listing_index(s, l.asset);
    if i >= 0 {
        s.update(i, l)
    } else {
        s.push(l)
    }
}

/// Listing an asset: its owner freezes it and a fresh record is stored.
pub open spec fn list_spec(v: MarketView, origin: Origin, a: AssetId) -> Result<MarketView, Error> {
    match origin {
        Origin::Root => Err(Error::BadOrigin),
        Origin::Signed(who) => match owner_spec(v.registry, a) {
            None => Err(Error::NftNotFound),
            Some(o) => if o != who {
                Err(Error::NotNftOwner)
            } else if in_auction(v, a) {
                Err(Error::NftAlreadyInAuction)
            } else {
                match freeze_spec(v.registry, a) {
                    Err(e) => Err(Error::Registry(e)),
                    Ok(reg) => Ok(
                        MarketView {
                            registry: reg,
                            listings: put_listing(
                                v.listings,
                                ListingView { asset: a, info: fresh_info(who, v.now), bids: Seq::empty() },
                            ),
                            events: v.events.push(Event::NftListed(a, who)),
                            ..v
                        },
                    ),
                }
            },
        },
    }
}

/// The ledger after the previous highest bidder's escrow is given back.
pub open spec fn release_escrow(m: Map<u64, AccountData>, info: AuctionInfo) -> Map<u64, AccountData> {
    match info.highest_bidder {
        Some(b) => unreserve_spec(m, b, info.highest_bid),
        None => m,
    }
}

/// Placing a bid: checks, then escrow of the new amount, release of the
/// previous highest bid, and entry into the bid book.
pub open spec fn bid_spec(v: MarketView, origin: Origin, a: AssetId, amount: u128) -> Result<
    MarketView,
    Error,
> {
    let i = listing_index(v.listings, a);
    let l = v.listings[i];
    let info = l.info;
    match origin {
        Origin::Root => Err(Error::BadOrigin),
        Origin::Signed(bidder) => if i < 0 {
            Err(Error::AuctionNotFound)
        } else if info.ended {
            Err(Error::AuctionEnded)
        } else if bidder == info.owner {
            Err(Error::CannotBidOnOwnAuction)
        } else if amount <= info.highest_bid {
            Err(Error::BidTooLow)
        } else {
            match reserve_spec(v.ledger, bidder, amount) {
                None => Err(Error::Ledger(LedgerError::InsufficientBalance)),
                Some(m) => match book_insert(l.bids, v.config.max_bids as nat, bidder, amount) {
                    None => Err(Error::BidTooLow),
                    Some(book) => Ok(
                        MarketView {
                            ledger: release_escrow(m, info),
                            listings: v.listings.update(
                                i,
                                ListingView {
                                    asset: a,
                                    info: AuctionInfo {
                                        highest_bid: amount,
                                        highest_bidder: Some(bidder),
                                        ..info
                                    },
                                    bids: book,
                                },
                            ),
                            events: v.events.push(Event::BidPlaced(a, bidder, amount)),
                            ..v
                        },
                    ),
                },
            }
        },
    }
}

/// The royalty of a sale reaches the collection's admin, if there is one
/// and the royalty is positive.
pub open spec fn pay_royalty(m: Map<u64, AccountData>, reg: RegistryView, a: AssetId, royalty: u128) -> Option<
    Map<u64, AccountData>,
> {
    match admin_spec(reg, a.collection) {
        Some(admin) => if royalty > 0 {
            deposit_spec(m, admin, royalty)
        } else {
            Some(m)
        },
        None => Some(m),
    }
}

/// The money of a settlement: the auction's escrow is released, the buyer
/// pays `amount` out of free balance, then royalty, payout and fee are paid.
pub open spec fn settle_funds(v: MarketView, info: AuctionInfo, a: AssetId, buyer: u64, amount: u128) -> Result<
    Map<u64, AccountData>,
    Error,
> {
    let fee = percent_of(amount, v.fee_percent) as u128;
    let royalty = percent_of(amount, v.config.royalty_percent) as u128;
    match withdraw_spec(release_escrow(v.ledger, info), buyer, amount) {
        None => Err(Error::NoValidBuyer),
        Some(m1) => match pay_royalty(m1, v.registry, a, royalty) {
            None => Err(Error::Ledger(LedgerError::Overflow)),
            Some(m2) => match deposit_spec(m2, info.owner, (amount - fee) as u128) {
                None => Err(Error::Ledger(LedgerError::Overflow)),
                Some(m3) => match deposit_spec(m3, v.config.treasury, fee) {
                    None => Err(Error::Ledger(LedgerError::Overflow)),
                    Some(m4) => Ok(m4),
                },
            },
        },
    }
}

/// The asset of a settlement: thawed, then handed to the buyer.
pub open spec fn settle_asset(reg: RegistryView, a: AssetId, buyer: u64) -> Result<RegistryView, Error> {
    match thaw_spec(reg, a) {
        Err(e) => Err(Error::Registry(e)),
        Ok(r1) => match registry::transfer_spec(r1, a, buyer) {
            Err(e) => Err(Error::Registry(e)),
            Ok(r2) => Ok(r2),
        },
    }
}

/// Settling the auction of `a` with `buyer` at `amount`, as one unit.
pub open spec fn finalize_spec(v: MarketView, a: AssetId, buyer: u64, amount: u128) -> Result<
    MarketView,
    Error,
> {
    let i = listing_index(v.listings, a);
    let info = v.listings[i].info;
    let fee = percent_of(amount, v.fee_percent) as u128;
    if i < 0 {
        Err(Error::AuctionNotFound)
    } else if info.ended {
        Err(Error::AuctionEnded)
    } else {
        match owner_spec(v.registry, a) {
            None => Err(Error::NftNotFound),
            Some(o) => if o != info.owner {
                Err(Error::NotNftOwner)
            } else {
                match settle_funds(v, info, a, buyer, amount) {
                    Err(e) => Err(e),
                    Ok(m) => if v.accumulated_fees + fee > u128::MAX {
                        Err(Error::Ledger(LedgerError::Overflow))
                    } else {
                        match settle_asset(v.registry, a, buyer) {
                            Err(e) => Err(e),
                            Ok(reg) => Ok(
                                MarketView {
                                    ledger: m,
                                    registry: reg,
                                    listings: v.listings.update(
                                        i,
                                        ListingView {
                                            asset: a,
                                            info: AuctionInfo {
                                                highest_bidder: Some(buyer),
                                                ended: true,
                                                ..info
                                            },
                                            bids: Seq::empty(),
                                        },
                                    ),
                                    accumulated_fees: (v.accumulated_fees + fee) as u128,
                                    events: v.events.push(Event::AuctionResolved(a, buyer, amount)),
                                    ..v
                                },
                            ),
                        }
                    },
                }
            },
        }
    }
}

/// Resolution by the owner, with the highest bidder as buyer.
pub open spec fn resolve_spec(v: MarketView, origin: Origin, a: AssetId) -> Result<MarketView, Error> {
    let i = listing_index(v.listings, a);
    let info = v.listings[i].info;
    match origin {
        Origin::Root => Err(Error::BadOrigin),
        Origin::Signed(who) => if i < 0 {
            Err(Error::AuctionNotFound)
        } else if info.ended {
            Err(Error::AuctionEnded)
        } else if who != info.owner {
            Err(Error::NotNftOwner)
        } else {
            match info.highest_bidder {
                None => Err(Error::NoValidBuyer),
                Some(b) => finalize_spec(v, a, b, info.highest_bid),
            }
        },
    }
}

/// An auction that found no buyer: it ends, its escrow is released, its
/// book is cleared and the asset is thawed for its owner.
pub open spec fn fail_spec(v: MarketView, i: int) -> MarketView {
    let l = v.listings[i];
    MarketView {
        ledger: release_escrow(v.ledger, l.info),
        registry: match thaw_spec(v.registry, l.asset) {
            Ok(r) => r,
            Err(_) => v.registry,
        },
        listings: v.listings.update(
            i,
            ListingView { asset: l.asset, info: AuctionInfo { ended: true, ..l.info }, bids: Seq::empty() },
        ),
        events: v.events.push(Event::AuctionFailed(l.asset)),
        ..v
    }
}

/// After the highest bidder could not settle: the book's other bidders
/// from position `j` on are tried in order; the first that settles wins.
pub open spec fn fallback_spec(v: MarketView, i: int, highest: u64, j: int) -> MarketView
    decreases v.listings[i].bids.len() - j,
{
    let l = v.listings[i];
    if j < 0 || j >= l.bids.len() {
        fail_spec(v, i)
    } else {
        let b = l.bids[j];
        if b.bidder != highest && finalize_spec(v, l.asset, b.bidder, b.amount) is Ok {
            finalize_spec(v, l.asset, b.bidder, b.amount)->Ok_0
        } else {
            fallback_spec(v, i, highest, j + 1)
        }
    }
}

/// Settlement of an overdue auction at index `i`.
pub open spec fn auto_resolve_spec(v: MarketView, i: int) -> MarketView {
    let l = v.listings[i];
    match l.info.highest_bidder {
        None => fail_spec(v, i),
        Some(h) => match finalize_spec(v, l.asset, h, l.info.highest_bid) {
            Ok(v2) => v2,
            Err(_) => fallback_spec(v, i, h, 0),
        },
    }
}

/// The auction is active and its time ran out at block `now`.
pub open spec fn overdue(l: ListingView, now: u64, timeout: u64) -> bool {
    !l.info.ended && now >= l.info.start_block + timeout
}

/// The sweep over records `i` to `end`, with `budget` settlements left this block.
pub open spec fn sweep_from(v: MarketView, now: u64, i: int, end: int, budget: nat) -> MarketView
    decreases end - i,
{
    if i < 0 || i >= end || i >= v.listings.len() || budget == 0 {
        v
    } else if overdue(v.listings[i], now, v.config.timeout_blocks) {
        sweep_from(auto_resolve_spec(v, i), now, i + 1, end, (budget - 1) as nat)
    } else {
        sweep_from(v, now, i + 1, end, budget)
    }
}

/// The sweep run at the start of block `now`.
pub open spec fn sweep_spec(v: MarketView, now: u64) -> MarketView {
    sweep_from(v, now, 0, v.listings.len() as int, v.config.max_resolutions_per_block as nat)
}

pub open spec fn set_fee_spec(v: MarketView, origin: Origin, fee: u8) -> Result<MarketView, Error> {
    if origin != Origin::Root {
        Err(Error::BadOrigin)
    } else if fee > 100 {
        Err(Error::InvalidFee)
    } else {
        Ok(MarketView { fee_percent: fee, events: v.events.push(Event::FeePercentageSet(fee)), ..v })
    }
}

pub open spec fn withdraw_fees_spec(v: MarketView, origin: Origin, to: u64) -> Result<MarketView, Error> {
    let total = v.accumulated_fees;
    if origin != Origin::Root {
        Err(Error::BadOrigin)
    } else if total == 0 {
        Err(Error::NoFeesAvailable)
    } else {
        match transfer_spec(v.ledger, v.config.treasury, to, total) {
            None => Err(
                Error::Ledger(
                    if free_of(v.ledger, v.config.treasury) < total {
                        LedgerError::InsufficientBalance
                    } else {
                        LedgerError::Overflow
                    },
                ),
            ),
            Some(m) => Ok(
                MarketView {
                    ledger: m,
                    accumulated_fees: 0,
                    events: v.events.push(Event::FeesWithdrawn(to, total)),
                    ..v
                },
            ),
        }
    }
}

} // verus!

verus! {

/// What every state of the engine satisfies.
pub open spec fn market_ok(v: MarketView) -> bool {
    &&& crate::ledger::ledger_ok(v.ledger)
    &&& v.fee_percent <= 100
    &&& v.config.royalty_percent <= 100
    &&& assets_unique(v.listings)
    &&& forall|i: int|
        0 <= i < v.listings.len() ==> crate::bid_book::book_ok(
            #[trigger] v.listings[i].bids,
            v.config.max_bids as nat,
        )
}

/// In a state whose assets are unique, the record found for an asset is the one at `i`.
pub proof fn lemma_listing_index(s: Seq<ListingView>, a: AssetId, i: int)
    requires
        assets_unique(s),
        0 <= i < s.len(),
        s[i].asset == a,
    ensures
        listing_index(s, a) == i,
{
    let j = listing_index(s, a);
    if j != i {
        if j < i {
            assert(s[j].asset != s[i].asset);
        } else {
            assert(s[i].asset != s[j].asset);
        }
    }
}

} // verus!
