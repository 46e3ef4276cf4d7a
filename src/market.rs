//! The auction engine: listing, bidding, resolution, the timeout sweep
//! and the fee treasury, each proved to follow its transition in `model`.
use vstd::prelude::*;
use crate::bid_book::{BidBook, Bid, BookError};
use crate::fees::{settlement_amounts, SettlementAmounts};
use crate::ledger::{AccountData, Ledger, LedgerError};
use crate::model::{
    auto_resolve_spec, bid_spec, fail_spec, fallback_spec, finalize_spec, in_auction,
    lemma_listing_index, list_spec, listing_index, market_ok, overdue, resolve_spec,
    set_fee_spec, settle_asset, settle_funds, sweep_from, sweep_spec, withdraw_fees_spec, fresh_info,
    ListingView, MarketView,
};
use crate::registry::{asset_code, with_item, AssetId, CollectionData, ItemData, Registry, RegistryError, RegistryView};
use crate::types::{AuctionInfo, Error, Event, Config, Origin};

verus! {

struct Listing {
    asset: AssetId,
    info: AuctionInfo,
    bids: BidBook,
}

spec fn listing_view(l: Listing) -> ListingView {
    ListingView { asset: l.asset, info: l.info, bids: l.bids@ }
}

/// The auction engine, together with the ledger and registry it works on.
pub struct Pallet {
    ledger: Ledger,
    registry: Registry,
    listings: Vec<Listing>,
    fee_percent: u8,
    accumulated_fees: u128,
    now: u64,
    events: Vec<Event>,
    config: Config,
}

impl View for Pallet {
    type V = MarketView;

    closed spec fn view(&self) -> MarketView {
        MarketView {
            ledger: self.ledger@,
            registry: self.registry@,
            listings: self.listings@.map_values(|l: Listing| listing_view(l)),
            fee_percent: self.fee_percent,
            accumulated_fees: self.accumulated_fees,
            now: self.now,
            events: self.events@,
            config: self.config,
        }
    }
}

impl Pallet {
    /// The engine's invariant.
    pub closed spec fn wf(&self) -> bool {
        &&& market_ok(self@)
        &&& crate::escrow::escrow_ok(self@)
        &&& forall|i: int|
            0 <= i < self.listings@.len() ==> (#[trigger] self.listings@[i]).bids.wf()
                && self.listings@[i].bids.capacity_spec() == self.config.max_bids as nat
    }

    /// An engine with empty ledger and registry, no auctions, a zero fee
    /// rate, at block zero.
    pub fn new(config: Config) -> (r: Pallet)
        requires
            config.royalty_percent <= 100,
        ensures
            r.wf(),
            r@.ledger == Map::<u64, AccountData>::empty(),
            r@.registry.items.is_empty(),
            r@.registry.collections.is_empty(),
            r@.listings.len() == 0,
            r@.fee_percent == 0,
            r@.accumulated_fees == 0,
            r@.now == 0,
            r@.events.len() == 0,
            r@.config == config,
    {
        let r = Pallet {
            ledger: Ledger::new(),
            registry: Registry::new(),
            listings: Vec::new(),
            fee_percent: 0,
            accumulated_fees: 0,
            now: 0,
            events: Vec::new(),
            config,
        };
        assert(r@.listings =~= Seq::<ListingView>::empty());
        assert forall|who: u64| #[trigger] crate::ledger::reserved_of(r@.ledger, who)
            == crate::escrow::escrow_total(r@.listings, who) by {}
        r
    }

    /// The position of the record for `a`.
    fn find(&self, a: AssetId) -> (r: Option<usize>)
        requires
            self.wf(),
        ensures
            match r {
                Some(i) => i < self@.listings.len() && listing_index(self@.listings, a) == i,
                None => listing_index(self@.listings, a) == -1,
            },
    {
        let mut i: usize = 0;
        while i < self.listings.len()
            invariant
                self.wf(),
                i <= self.listings@.len(),
                forall|k: int| 0 <= k < i ==> (#[trigger] self@.listings[k]).asset != a,
            decreases self.listings@.len() - i,
        {
            if self.listings[i].asset == a {
                proof {
                    lemma_listing_index(self@.listings, a, i as int);
                }
                return Some(i);
            }
            i = i + 1;
        }
        None
    }

    /// Lists asset `a` for auction by its owner: the asset is frozen and a
    /// fresh record is stored at the current block.
    pub fn list_nft_for_auction(&mut self, origin: Origin, a: AssetId) -> (r: Result<(), Error>)
        requires
            old(self).wf(),
        ensures
            final(self).wf(),
            match list_spec(old(self)@, origin, a) {
                Ok(v) => r is Ok && final(self)@ == v,
                Err(e) => r == Err::<(), Error>(e) && final(self)@ == old(self)@,
            },
    {
        proof {
            crate::escrow::lemma_list_keeps_escrow(self@, origin, a);
        }
        let who = match origin {
            Origin::Root => {
                return Err(Error::BadOrigin);
            },
            Origin::Signed(w) => w,
        };
        match self.registry.owner(a) {
            None => {
                return Err(Error::NftNotFound);
            },
            Some(o) => {
                if o != who {
                    return Err(Error::NotNftOwner);
                }
            },
        }
        let found = self.find(a);
        if let Some(i) = found {
            if !self.listings[i].info.ended {
                return Err(Error::NftAlreadyInAuction);
            }
        }
        match self.registry.freeze(a) {
            Err(e) => {
                return Err(Error::Registry(e));
            },
            Ok(()) => {},
        }
        let ghost s0 = self@.listings;
        let listing = Listing {
            asset: a,
            info: AuctionInfo {
                owner: who,
                start_block: self.now,
                highest_bid: 0,
                highest_bidder: None,
                ended: false,
            },
            bids: BidBook::new(self.config.max_bids),
        };
        assert(listing_view(listing) == ListingView { asset: a, info: fresh_info(who, self.now), bids: Seq::empty() });
        match found {
            Some(i) => {
                self.listings.set(i, listing);
                assert(self@.listings =~= s0.update(i as int, listing_view(listing)));
            },
            None => {
                self.listings.push(listing);
                assert(self@.listings =~= s0.push(listing_view(listing)));
                assert forall|x: int, y: int| 0 <= x < y < self@.listings.len() implies
                    self@.listings[x].asset != self@.listings[y].asset by {
                    if y == s0.len() {
                        assert(self@.listings[x] == s0[x]);
                        assert(s0[x].asset != a);
                    }
                }
            },
        }
        self.events.push(Event::NftListed(a, who));
        Ok(())
    }

    /// Places a bid of `amount` on asset `a`.
    pub fn place_bid(&mut self, origin: Origin, a: AssetId, amount: u128) -> (r: Result<(), Error>)
        requires
            old(self).wf(),
        ensures
            final(self).wf(),
            match bid_spec(old(self)@, origin, a, amount) {
                Ok(v) => r is Ok && final(self)@ == v,
                Err(e) => r == Err::<(), Error>(e) && final(self)@ == old(self)@,
            },
    {
        proof {
            crate::escrow::lemma_bid_keeps_escrow(self@, origin, a, amount);
        }
        let bidder = match origin {
            Origin::Root => {
                return Err(Error::BadOrigin);
            },
            Origin::Signed(w) => w,
        };
        let i = match self.find(a) {
            None => {
                return Err(Error::AuctionNotFound);
            },
            Some(i) => i,
        };
        let info = self.listings[i].info;
        if info.ended {
            return Err(Error::AuctionEnded);
        }
        if bidder == info.owner {
            return Err(Error::CannotBidOnOwnAuction);
        }
        if amount <= info.highest_bid {
            return Err(Error::BidTooLow);
        }
        if self.ledger.free_balance(bidder) < amount {
            return Err(Error::Ledger(LedgerError::InsufficientBalance));
        }
        let mut book = self.listings[i].bids.duplicate();
        match book.insert(bidder, amount) {
            Err(BookError::BidTooLow) => {
                return Err(Error::BidTooLow);
            },
            Ok(()) => {},
        }
        let ghost s0 = self@.listings;
        let reserved = self.ledger.reserve(bidder, amount);
        assert(reserved is Ok);
        if let Some(prev) = info.highest_bidder {
            self.ledger.unreserve(prev, info.highest_bid);
        }
        let new_info = AuctionInfo { highest_bid: amount, highest_bidder: Some(bidder), ..info };
        let listing = Listing { asset: a, info: new_info, bids: book };
        self.listings.set(i, listing);
        assert(self@.listings =~= s0.update(i as int, listing_view(listing)));
        self.events.push(Event::BidPlaced(a, bidder, amount));
        Ok(())
    }

    /// The ledger after the money of a settlement moved, staged on a copy.
    fn stage_funds(&self, info: AuctionInfo, a: AssetId, buyer: u64, amount: u128, split: SettlementAmounts) -> (r:
        Result<Ledger, Error>)
        requires
            self.wf(),
            split.fee as int == crate::fees::percent_of(amount, self@.fee_percent),
            split.royalty as int == crate::fees::percent_of(amount, self@.config.royalty_percent),
            split.payout == amount - split.fee,
        ensures
            match settle_funds(self@, info, a, buyer, amount) {
                Ok(m) => r is Ok && r->Ok_0@ == m && crate::ledger::ledger_ok(m),
                Err(e) => r == Err::<Ledger, Error>(e),
            },
    {
        let mut ledger = self.ledger.snapshot();
        if let Some(prev) = info.highest_bidder {
            ledger.unreserve(prev, info.highest_bid);
        }
        if ledger.withdraw(buyer, amount).is_err() {
            return Err(Error::NoValidBuyer);
        }
        if let Some(admin) = self.registry.collection_admin(a.collection) {
            if split.royalty > 0 {
                if let Err(e) = ledger.deposit(admin, split.royalty) {
                    return Err(Error::Ledger(e));
                }
            }
        }
        if let Err(e) = ledger.deposit(info.owner, split.payout) {
            return Err(Error::Ledger(e));
        }
        if let Err(e) = ledger.deposit(self.config.treasury, split.fee) {
            return Err(Error::Ledger(e));
        }
        Ok(ledger)
    }

    /// The registry after the asset of a settlement moved, staged on a copy.
    fn stage_asset(&self, a: AssetId, buyer: u64) -> (r: Result<Registry, Error>)
        ensures
            match settle_asset(self@.registry, a, buyer) {
                Ok(g) => r is Ok && r->Ok_0@ == g,
                Err(e) => r == Err::<Registry, Error>(e),
            },
    {
        let mut registry = self.registry.snapshot();
        if let Err(e) = registry.thaw(a) {
            return Err(Error::Registry(e));
        }
        if let Err(e) = registry.transfer(a, buyer) {
            return Err(Error::Registry(e));
        }
        Ok(registry)
    }

    /// Settles the auction of `a` with `buyer` paying `amount`: escrow
    /// released, buyer charged, royalty, payout and fee paid, asset thawed
    /// and handed over, record ended, book cleared. On any refusal nothing
    /// has changed.
    pub fn finalize_auction(&mut self, a: AssetId, buyer: u64, amount: u128) -> (r: Result<(), Error>)
        requires
            old(self).wf(),
        ensures
            final(self).wf(),
            match finalize_spec(old(self)@, a, buyer, amount) {
                Ok(v) => r is Ok && final(self)@ == v,
                Err(e) => r == Err::<(), Error>(e) && final(self)@ == old(self)@,
            },
            r is Err ==> final(self)@ == old(self)@,
            final(self)@.listings.len() == old(self)@.listings.len(),
            final(self)@.config == old(self)@.config,
    {
        proof {
            crate::escrow::lemma_finalize_keeps_escrow(self@, a, buyer, amount);
        }
        let i = match self.find(a) {
            None => {
                return Err(Error::AuctionNotFound);
            },
            Some(i) => i,
        };
        let info = self.listings[i].info;
        if info.ended {
            return Err(Error::AuctionEnded);
        }
        match self.registry.owner(a) {
            None => {
                return Err(Error::NftNotFound);
            },
            Some(o) => {
                if o != info.owner {
                    return Err(Error::NotNftOwner);
                }
            },
        }
        let split = settlement_amounts(amount, self.fee_percent, self.config.royalty_percent);
        let ledger = match self.stage_funds(info, a, buyer, amount, split) {
            Err(e) => {
                return Err(e);
            },
            Ok(l) => l,
        };
        if split.fee > u128::MAX - self.accumulated_fees {
            return Err(Error::Ledger(LedgerError::Overflow));
        }
        let registry = match self.stage_asset(a, buyer) {
            Err(e) => {
                return Err(e);
            },
            Ok(g) => g,
        };
        let ghost s0 = self@.listings;
        self.ledger = ledger;
        self.registry = registry;
        let listing = Listing {
            asset: a,
            info: AuctionInfo { highest_bidder: Some(buyer), ended: true, ..info },
            bids: BidBook::new(self.config.max_bids),
        };
        self.listings.set(i, listing);
        assert(self@.listings =~= s0.update(i as int, listing_view(listing)));
        self.accumulated_fees = self.accumulated_fees + split.fee;
        self.events.push(Event::AuctionResolved(a, buyer, amount));
        Ok(())
    }

    /// Resolution by the owner: settles with the highest bidder at the highest bid.
    pub fn resolve_auction(&mut self, origin: Origin, a: AssetId) -> (r: Result<(), Error>)
        requires
            old(self).wf(),
        ensures
            final(self).wf(),
            match resolve_spec(old(self)@, origin, a) {
                Ok(v) => r is Ok && final(self)@ == v,
                Err(e) => r == Err::<(), Error>(e) && final(self)@ == old(self)@,
            },
    {
        let who = match origin {
            Origin::Root => {
                return Err(Error::BadOrigin);
            },
            Origin::Signed(w) => w,
        };
        let i = match self.find(a) {
            None => {
                return Err(Error::AuctionNotFound);
            },
            Some(i) => i,
        };
        let info = self.listings[i].info;
        if info.ended {
            return Err(Error::AuctionEnded);
        }
        if who != info.owner {
            return Err(Error::NotNftOwner);
        }
        match info.highest_bidder {
            None => Err(Error::NoValidBuyer),
            Some(b) => self.finalize_auction(a, b, info.highest_bid),
        }
    }

    /// Ends the auction at `i` without a buyer.
    fn fail_auction(&mut self, i: usize)
        requires
            old(self).wf(),
            i < old(self)@.listings.len(),
            !old(self)@.listings[i as int].info.ended,
        ensures
            final(self).wf(),
            final(self)@ == fail_spec(old(self)@, i as int),
            final(self)@.listings.len() == old(self)@.listings.len(),
            final(self)@.config == old(self)@.config,
    {
        proof {
            crate::escrow::lemma_fail_keeps_escrow(self@, i as int);
        }
        let ghost s0 = self@.listings;
        let asset = self.listings[i].asset;
        let info = self.listings[i].info;
        if let Some(prev) = info.highest_bidder {
            self.ledger.unreserve(prev, info.highest_bid);
        }
        let _ = self.registry.thaw(asset);
        let listing = Listing {
            asset,
            info: AuctionInfo { ended: true, ..info },
            bids: BidBook::new(self.config.max_bids),
        };
        self.listings.set(i, listing);
        assert(self@.listings =~= s0.update(i as int, listing_view(listing)));
        self.events.push(Event::AuctionFailed(asset));
    }

    /// Settles the overdue auction at `i`: with its highest bidder, else
    /// with the other bidders of its book in order, else it fails.
    fn auto_resolve_auction(&mut self, i: usize)
        requires
            old(self).wf(),
            i < old(self)@.listings.len(),
            !old(self)@.listings[i as int].info.ended,
        ensures
            final(self).wf(),
            final(self)@ == auto_resolve_spec(old(self)@, i as int),
            final(self)@.listings.len() == old(self)@.listings.len(),
            final(self)@.config == old(self)@.config,
    {
        let ghost start = self@;
        assert(start == old(self)@);
        let asset = self.listings[i].asset;
        let info = self.listings[i].info;
        let highest = match info.highest_bidder {
            None => {
                self.fail_auction(i);
                return;
            },
            Some(h) => h,
        };
        if self.finalize_auction(asset, highest, info.highest_bid).is_ok() {
            return;
        }
        let ghost v0 = self@;
        assert(v0 == start);
        assert(auto_resolve_spec(start, i as int) == fallback_spec(v0, i as int, highest, 0));
        let n = self.listings[i].bids.len();
        let mut j: usize = 0;
        while j < n
            invariant
                self.wf(),
                self@ == v0,
                i < v0.listings.len(),
                n == v0.listings[i as int].bids.len(),
                j <= n,
                asset == v0.listings[i as int].asset,
                fallback_spec(v0, i as int, highest, j as int) == fallback_spec(v0, i as int, highest, 0),
                auto_resolve_spec(start, i as int) == fallback_spec(v0, i as int, highest, 0),
                start == old(self)@,
                v0 == start,
            decreases n - j,
        {
            let b = self.listings[i].bids.get(j);
            assert(b == v0.listings[i as int].bids[j as int]);
            if b.bidder != highest {
                let ghost attempt = finalize_spec(v0, asset, b.bidder, b.amount);
                if self.finalize_auction(asset, b.bidder, b.amount).is_ok() {
                    assert(attempt is Ok);
                    assert(fallback_spec(v0, i as int, highest, j as int) == attempt->Ok_0);
                    return;
                }
            }
            j = j + 1;
        }
        self.fail_auction(i);
    }

    /// The sweep at the start of block `now`: every overdue auction, in
    /// listing order, is settled or failed, up to the per-block budget.
    /// One auction's failure does not stop the others.
    pub fn on_initialize(&mut self, now: u64)
        requires
            old(self).wf(),
        ensures
            final(self).wf(),
            final(self)@ == sweep_spec(old(self)@, now),
    {
        let ghost start = self@;
        let n = self.listings.len();
        let mut budget = self.config.max_resolutions_per_block;
        let mut i: usize = 0;
        while i < n && budget > 0
            invariant
                self.wf(),
                self@.listings.len() == n,
                self@.config == start.config,
                i <= n,
                sweep_from(self@, now, i as int, n as int, budget as nat) == sweep_spec(start, now),
            decreases n - i,
        {
            let info = self.listings[i].info;
            if !info.ended && now >= info.start_block && now - info.start_block
                >= self.config.timeout_blocks {
                self.auto_resolve_auction(i);
                budget = budget - 1;
            }
            i = i + 1;
        }
    }

    /// Sets the fee rate for settlements from now on; root only, at most 100.
    pub fn set_fee_percentage(&mut self, origin: Origin, fee: u8) -> (r: Result<(), Error>)
        requires
            old(self).wf(),
        ensures
            final(self).wf(),
            match set_fee_spec(old(self)@, origin, fee) {
                Ok(v) => r is Ok && final(self)@ == v,
                Err(e) => r == Err::<(), Error>(e) && final(self)@ == old(self)@,
            },
    {
        if origin != Origin::Root {
            return Err(Error::BadOrigin);
        }
        if fee > 100 {
            return Err(Error::InvalidFee);
        }
        self.fee_percent = fee;
        self.events.push(Event::FeePercentageSet(fee));
        Ok(())
    }

    /// Pays all accumulated fees from the treasury to `to`; root only.
    pub fn withdraw_fees(&mut self, origin: Origin, to: u64) -> (r: Result<(), Error>)
        requires
            old(self).wf(),
        ensures
            final(self).wf(),
            match withdraw_fees_spec(old(self)@, origin, to) {
                Ok(v) => r is Ok && final(self)@ == v,
                Err(e) => r == Err::<(), Error>(e) && final(self)@ == old(self)@,
            },
    {
        proof {
            crate::escrow::lemma_withdraw_keeps_escrow(self@, origin, to);
        }
        if origin != Origin::Root {
            return Err(Error::BadOrigin);
        }
        let total = self.accumulated_fees;
        if total == 0 {
            return Err(Error::NoFeesAvailable);
        }
        if let Err(e) = self.ledger.transfer(self.config.treasury, to, total) {
            return Err(Error::Ledger(e));
        }
        self.accumulated_fees = 0;
        self.events.push(Event::FeesWithdrawn(to, total));
        Ok(())
    }

    /// The account that holds collected fees.
    pub fn account_id(&self) -> (r: u64)
        ensures
            r == self@.config.treasury,
    {
        self.config.treasury
    }

    /// Credits `amount` to `who`, as at genesis.
    pub fn endow(&mut self, who: u64, amount: u128) -> (r: Result<(), Error>)
        requires
            old(self).wf(),
        ensures
            final(self).wf(),
            match crate::ledger::deposit_spec(old(self)@.ledger, who, amount) {
                Some(m) => r is Ok && final(self)@ == (MarketView { ledger: m, ..old(self)@ }),
                None => r == Err::<(), Error>(Error::Ledger(LedgerError::Overflow)) && final(self)@
                    == old(self)@,
            },
    {
        let ghost before = self@;
        if let Err(e) = self.ledger.deposit(who, amount) {
            return Err(Error::Ledger(e));
        }
        assert forall|x: u64| #[trigger] crate::ledger::reserved_of(self@.ledger, x)
            == crate::escrow::escrow_total(self@.listings, x) by {
            assert(crate::ledger::reserved_of(self@.ledger, x) == crate::ledger::reserved_of(before.ledger, x));
        }
        Ok(())
    }

    /// Opens a collection in the registry.
    pub fn create_collection(&mut self, c: u32, admin: u64) -> (r: Result<(), RegistryError>)
        requires
            old(self).wf(),
        ensures
            final(self).wf(),
            if old(self)@.registry.collections.contains_key(c) {
                r == Err::<(), RegistryError>(RegistryError::AlreadyExists) && final(self)@ == old(self)@
            } else {
                r is Ok && final(self)@ == (MarketView {
                    registry: RegistryView {
                        items: old(self)@.registry.items,
                        collections: old(self)@.registry.collections.insert(
                            c,
                            CollectionData { admin, frozen: false },
                        ),
                    },
                    ..old(self)@
                })
            },
    {
        self.registry.create_collection(c, admin)
    }

    /// Creates an item in the registry, held by `owner`.
    pub fn mint(&mut self, a: AssetId, owner: u64) -> (r: Result<(), RegistryError>)
        requires
            old(self).wf(),
        ensures
            final(self).wf(),
            if !old(self)@.registry.collections.contains_key(a.collection) {
                r == Err::<(), RegistryError>(RegistryError::UnknownCollection) && final(self)@ == old(self)@
            } else if old(self)@.registry.items.contains_key(asset_code(a)) {
                r == Err::<(), RegistryError>(RegistryError::AlreadyExists) && final(self)@ == old(self)@
            } else {
                r is Ok && final(self)@ == (MarketView {
                    registry: with_item(old(self)@.registry, a, ItemData { owner, frozen: false }),
                    ..old(self)@
                })
            },
    {
        self.registry.mint(a, owner)
    }

    /// Blocks or unblocks transfers of a collection's items.
    pub fn set_collection_frozen(&mut self, c: u32, frozen: bool) -> (r: Result<(), RegistryError>)
        requires
            old(self).wf(),
        ensures
            final(self).wf(),
            if !old(self)@.registry.collections.contains_key(c) {
                r == Err::<(), RegistryError>(RegistryError::UnknownCollection) && final(self)@ == old(self)@
            } else {
                r is Ok && final(self)@ == (MarketView {
                    registry: RegistryView {
                        items: old(self)@.registry.items,
                        collections: old(self)@.registry.collections.insert(
                            c,
                            CollectionData { admin: old(self)@.registry.collections[c].admin, frozen },
                        ),
                    },
                    ..old(self)@
                })
            },
    {
        self.registry.set_collection_frozen(c, frozen)
    }

    /// Moves the clock to block `n`.
    pub fn set_block_number(&mut self, n: u64)
        requires
            old(self).wf(),
        ensures
            final(self).wf(),
            final(self)@ == (MarketView { now: n, ..old(self)@ }),
    {
        self.now = n;
    }

    pub fn block_number(&self) -> (r: u64)
        ensures
            r == self@.now,
    {
        self.now
    }

    /// The record of `a`'s auction, also after it ended.
    pub fn auctions(&self, a: AssetId) -> (r: Option<AuctionInfo>)
        requires
            self.wf(),
        ensures
            r == (if listing_index(self@.listings, a) >= 0 {
                Some(self@.listings[listing_index(self@.listings, a)].info)
            } else {
                None
            }),
    {
        match self.find(a) {
            Some(i) => Some(self.listings[i].info),
            None => None,
        }
    }

    /// The bid book of `a`, highest first; empty when there is none.
    pub fn bids(&self, a: AssetId) -> (r: Vec<Bid>)
        requires
            self.wf(),
        ensures
            r@ == (if listing_index(self@.listings, a) >= 0 {
                self@.listings[listing_index(self@.listings, a)].bids
            } else {
                Seq::empty()
            }),
    {
        match self.find(a) {
            Some(i) => self.listings[i].bids.to_vec(),
            None => Vec::new(),
        }
    }

    /// Whether `a` is under an auction that has not ended.
    pub fn is_in_auction(&self, a: AssetId) -> (r: bool)
        requires
            self.wf(),
        ensures
            r == in_auction(self@, a),
    {
        match self.find(a) {
            Some(i) => !self.listings[i].info.ended,
            None => false,
        }
    }

    pub fn fee_percentage(&self) -> (r: u8)
        ensures
            r == self@.fee_percent,
    {
        self.fee_percent
    }

    pub fn accumulated_fees(&self) -> (r: u128)
        ensures
            r == self@.accumulated_fees,
    {
        self.accumulated_fees
    }

    pub fn free_balance(&self, who: u64) -> (r: u128)
        ensures
            r == crate::ledger::free_of(self@.ledger, who),
    {
        self.ledger.free_balance(who)
    }

    pub fn reserved_balance(&self, who: u64) -> (r: u128)
        ensures
            r == crate::ledger::reserved_of(self@.ledger, who),
    {
        self.ledger.reserved_balance(who)
    }

    /// Who holds asset `a`, per the registry.
    pub fn owner(&self, a: AssetId) -> (r: Option<u64>)
        ensures
            r == crate::registry::owner_spec(self@.registry, a),
    {
        self.registry.owner(a)
    }

    /// The admin of collection `c`, who receives royalties.
    pub fn collection_owner(&self, c: u32) -> (r: Option<u64>)
        ensures
            r == crate::registry::admin_spec(self@.registry, c),
    {
        self.registry.collection_admin(c)
    }

    /// The most recent event.
    pub fn last_event(&self) -> (r: Option<Event>)
        ensures
            r == (if self@.events.len() > 0 {
                Some(self@.events.last())
            } else {
                None
            }),
    {
        let n = self.events.len();
        if n == 0 {
            None
        } else {
            Some(self.events[n - 1])
        }
    }

    /// Whether `e` was ever emitted.
    pub fn has_event(&self, e: Event) -> (r: bool)
        ensures
            r == self@.events.contains(e),
    {
        let mut i: usize = 0;
        while i < self.events.len()
            invariant
                i <= self.events@.len(),
                forall|k: int| 0 <= k < i ==> self.events@[k] != e,
            decreases self.events@.len() - i,
        {
            if self.events[i] == e {
                assert(self@.events[i as int] == e);
                return true;
            }
            i = i + 1;
        }
        false
    }

    pub fn event_count(&self) -> (r: usize)
        ensures
            r == self@.events.len(),
    {
        self.events.len()
    }
}

} // verus!
