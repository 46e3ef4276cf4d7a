use nft_auction::market::Pallet;
use nft_auction::registry::{AssetId, RegistryError};
use nft_auction::types::{Config, Error, Event, Origin};

const MILLI_UNIT: u128 = 1_000_000_000;
const TREASURY: u64 = 999;

fn config() -> Config {
    Config {
        max_bids: 10,
        timeout_blocks: 100,
        royalty_percent: 10,
        treasury: TREASURY,
        max_resolutions_per_block: 64,
    }
}

fn new_test_ext() -> Pallet {
    let mut p = Pallet::new(config());
    for (who, units) in [(1u64, 1000u128), (2, 2000), (3, 3000), (4, 4000), (5, 5000)] {
        assert_eq!(p.endow(who, units * MILLI_UNIT), Ok(()));
    }
    p.set_block_number(1);
    p
}

fn signed(who: u64) -> Origin {
    Origin::Signed(who)
}

/// Creates collection 1 administered by the owner and mints item 1 to it.
fn setup_nft(p: &mut Pallet, owner: u64) -> AssetId {
    let asset = AssetId { collection: 1, item: 1 };
    assert_eq!(p.create_collection(asset.collection, owner), Ok(()));
    assert_eq!(p.mint(asset, owner), Ok(()));
    assert_eq!(p.owner(asset), Some(owner));
    asset
}

#[test]
fn list_nft_for_auction_works() {
    let mut p = new_test_ext();
    let owner = 1;
    let asset = setup_nft(&mut p, owner);

    assert_eq!(p.list_nft_for_auction(signed(owner), asset), Ok(()));

    let auction = p.auctions(asset).unwrap();
    assert_eq!(auction.owner, owner);
    assert_eq!(auction.highest_bid, 0);
    assert_eq!(auction.highest_bidder, None);
    assert_eq!(auction.ended, false);

    assert!(p.is_in_auction(asset));
    assert_eq!(p.last_event(), Some(Event::NftListed(asset, owner)));
}

#[test]
fn cant_list_asset_twice() {
    let mut p = new_test_ext();
    let owner = 1;
    let asset = setup_nft(&mut p, owner);

    assert_eq!(p.list_nft_for_auction(signed(owner), asset), Ok(()));
    let events = p.event_count();
    assert_eq!(p.list_nft_for_auction(signed(owner), asset), Err(Error::NftAlreadyInAuction));
    assert_eq!(p.event_count(), events);
}

#[test]
fn place_bid_works() {
    let mut p = new_test_ext();
    let owner = 1;
    let asset = setup_nft(&mut p, owner);
    assert_eq!(p.list_nft_for_auction(signed(owner), asset), Ok(()));

    assert_eq!(p.place_bid(signed(2), asset, 50), Ok(()));

    let auction = p.auctions(asset).unwrap();
    assert_eq!(auction.highest_bid, 50);
    assert_eq!(auction.highest_bidder, Some(2));
    assert_eq!(p.last_event(), Some(Event::BidPlaced(asset, 2, 50)));
    assert_eq!(p.reserved_balance(2), 50);
}

#[test]
fn cant_bid_on_own_auction() {
    let mut p = new_test_ext();
    let owner = 1;
    let asset = setup_nft(&mut p, owner);
    assert_eq!(p.list_nft_for_auction(signed(owner), asset), Ok(()));

    assert_eq!(p.place_bid(signed(1), asset, 50), Err(Error::CannotBidOnOwnAuction));
    assert_eq!(p.reserved_balance(1), 0);
    assert_eq!(p.auctions(asset).unwrap().highest_bidder, None);
}

#[test]
fn must_bid_higher() {
    let mut p = new_test_ext();
    let owner = 1;
    let asset = setup_nft(&mut p, owner);
    assert_eq!(p.list_nft_for_auction(signed(owner), asset), Ok(()));
    assert_eq!(p.place_bid(signed(2), asset, 50), Ok(()));

    assert_eq!(p.place_bid(signed(3), asset, 40), Err(Error::BidTooLow));
    assert_eq!(p.place_bid(signed(3), asset, 50), Err(Error::BidTooLow));
    assert_eq!(p.reserved_balance(3), 0);
    assert_eq!(p.auctions(asset).unwrap().highest_bid, 50);
}

#[test]
fn increase_own_bid_works() {
    let mut p = new_test_ext();
    let owner = 1;
    let asset = setup_nft(&mut p, owner);
    assert_eq!(p.list_nft_for_auction(signed(owner), asset), Ok(()));

    assert_eq!(p.place_bid(signed(2), asset, 50), Ok(()));
    assert_eq!(p.place_bid(signed(2), asset, 70), Ok(()));

    let auction = p.auctions(asset).unwrap();
    assert_eq!(auction.highest_bid, 70);
    assert_eq!(auction.highest_bidder, Some(2));
    assert_eq!(p.reserved_balance(2), 70);
}

#[test]
fn outbid_works_and_unreserves_previous_bid() {
    let mut p = new_test_ext();
    let owner = 1;
    let asset = setup_nft(&mut p, owner);
    assert_eq!(p.list_nft_for_auction(signed(owner), asset), Ok(()));

    assert_eq!(p.place_bid(signed(2), asset, 50), Ok(()));
    assert_eq!(p.place_bid(signed(3), asset, 60), Ok(()));

    let auction = p.auctions(asset).unwrap();
    assert_eq!(auction.highest_bid, 60);
    assert_eq!(auction.highest_bidder, Some(3));
    assert_eq!(p.reserved_balance(2), 0);
    assert_eq!(p.reserved_balance(3), 60);
}

#[test]
fn choose_buyer_works() {
    let mut p = new_test_ext();
    let owner = 1;
    let asset = setup_nft(&mut p, owner);
    assert_eq!(p.list_nft_for_auction(signed(owner), asset), Ok(()));
    assert_eq!(p.place_bid(signed(2), asset, 50), Ok(()));
    assert_eq!(p.place_bid(signed(3), asset, 60), Ok(()));

    assert_eq!(p.resolve_auction(signed(1), asset), Ok(()));

    let auction = p.auctions(asset).unwrap();
    assert_eq!(auction.ended, true);
    assert_eq!(p.reserved_balance(2), 0);
    assert_eq!(p.reserved_balance(3), 0);
    assert_eq!(p.last_event(), Some(Event::AuctionResolved(asset, 3, 60)));
}

#[test]
fn only_owner_can_choose_buyer() {
    let mut p = new_test_ext();
    let owner = 1;
    let asset = setup_nft(&mut p, owner);
    assert_eq!(p.list_nft_for_auction(signed(owner), asset), Ok(()));
    assert_eq!(p.place_bid(signed(2), asset, 50), Ok(()));

    assert_eq!(p.resolve_auction(signed(3), asset), Err(Error::NotNftOwner));
    assert_eq!(p.auctions(asset).unwrap().ended, false);
    assert_eq!(p.reserved_balance(2), 50);
}

#[test]
fn auto_resolve_auction_after_timeout() {
    let mut p = new_test_ext();
    p.set_block_number(1);
    let owner = 1;
    let asset = setup_nft(&mut p, owner);
    assert_eq!(p.list_nft_for_auction(signed(owner), asset), Ok(()));
    assert_eq!(p.place_bid(signed(2), asset, 50), Ok(()));
    assert_eq!(p.place_bid(signed(3), asset, 60), Ok(()));

    p.set_block_number(101);
    p.on_initialize(101);

    let auction = p.auctions(asset).unwrap();
    assert_eq!(auction.ended, true);
    assert_eq!(p.reserved_balance(2), 0);
    assert_eq!(p.reserved_balance(3), 0);
    assert!(p.has_event(Event::AuctionResolved(asset, 3, 60)));
}

#[test]
fn cant_bid_on_ended_auction() {
    let mut p = new_test_ext();
    let owner = 1;
    let asset = setup_nft(&mut p, owner);
    assert_eq!(p.list_nft_for_auction(signed(owner), asset), Ok(()));
    assert_eq!(p.place_bid(signed(2), asset, 50), Ok(()));
    assert_eq!(p.resolve_auction(signed(1), asset), Ok(()));

    assert_eq!(p.place_bid(signed(3), asset, 60), Err(Error::AuctionEnded));
    assert_eq!(p.reserved_balance(3), 0);
}

#[test]
fn cant_choose_buyer_for_ended_auction() {
    let mut p = new_test_ext();
    let owner = 1;
    let asset = setup_nft(&mut p, owner);
    assert_eq!(p.list_nft_for_auction(signed(owner), asset), Ok(()));
    assert_eq!(p.place_bid(signed(2), asset, 50), Ok(()));
    assert_eq!(p.place_bid(signed(3), asset, 60), Ok(()));
    assert_eq!(p.resolve_auction(signed(1), asset), Ok(()));

    let events = p.event_count();
    assert_eq!(p.resolve_auction(signed(1), asset), Err(Error::AuctionEnded));
    assert_eq!(p.event_count(), events);
}

#[test]
fn auction_with_no_bids_fails_on_timeout() {
    let mut p = new_test_ext();
    let owner = 1;
    let asset = setup_nft(&mut p, owner);
    assert_eq!(p.list_nft_for_auction(signed(owner), asset), Ok(()));

    p.set_block_number(101);
    p.on_initialize(101);

    let auction = p.auctions(asset).unwrap();
    assert_eq!(auction.ended, true);
    assert!(p.has_event(Event::AuctionFailed(asset)));
}

#[test]
fn outbid_then_owner_resolves() {
    let mut p = new_test_ext();
    let asset = setup_nft(&mut p, 1);
    assert_eq!(p.list_nft_for_auction(signed(1), asset), Ok(()));
    assert_eq!(p.place_bid(signed(2), asset, 50), Ok(()));
    assert_eq!(p.place_bid(signed(3), asset, 60), Ok(()));
    assert_eq!(p.resolve_auction(signed(1), asset), Ok(()));
    assert_eq!(p.last_event(), Some(Event::AuctionResolved(asset, 3, 60)));
    assert_eq!(p.reserved_balance(2), 0);
    assert_eq!(p.reserved_balance(3), 0);
    assert_eq!(p.owner(asset), Some(3));
    assert!(!p.is_in_auction(asset));
    assert!(p.bids(asset).is_empty());
    assert_eq!(p.free_balance(3), 3000 * MILLI_UNIT - 60);
}

#[test]
fn timeout_without_bids_keeps_owner() {
    let mut p = new_test_ext();
    let asset = setup_nft(&mut p, 1);
    assert_eq!(p.list_nft_for_auction(signed(1), asset), Ok(()));
    p.on_initialize(100);
    assert_eq!(p.auctions(asset).unwrap().ended, false);
    p.on_initialize(101);
    assert_eq!(p.last_event(), Some(Event::AuctionFailed(asset)));
    assert_eq!(p.owner(asset), Some(1));
    assert_eq!(p.auctions(asset).unwrap().ended, true);
    assert!(!p.is_in_auction(asset));
    // The asset is free again and can be listed anew.
    assert_eq!(p.list_nft_for_auction(signed(1), asset), Ok(()));
}

#[test]
fn raised_bid_keeps_one_entry() {
    let mut p = new_test_ext();
    let asset = setup_nft(&mut p, 1);
    assert_eq!(p.list_nft_for_auction(signed(1), asset), Ok(()));
    assert_eq!(p.place_bid(signed(2), asset, 50), Ok(()));
    assert_eq!(p.place_bid(signed(2), asset, 70), Ok(()));
    assert_eq!(p.reserved_balance(2), 70);
    let book = p.bids(asset);
    assert_eq!(book.len(), 1);
    assert_eq!(book[0].bidder, 2);
    assert_eq!(book[0].amount, 70);
}

#[test]
fn withdraw_without_fees_fails() {
    let mut p = new_test_ext();
    let events = p.event_count();
    assert_eq!(p.withdraw_fees(Origin::Root, 7), Err(Error::NoFeesAvailable));
    assert_eq!(p.accumulated_fees(), 0);
    assert_eq!(p.free_balance(7), 0);
    assert_eq!(p.event_count(), events);
}

#[test]
fn fees_royalty_and_payout_of_a_sale() {
    let mut p = new_test_ext();
    // Collection admin 4 receives royalties; the seller is 1.
    let asset = AssetId { collection: 2, item: 9 };
    assert_eq!(p.create_collection(2, 4), Ok(()));
    assert_eq!(p.mint(asset, 1), Ok(()));
    assert_eq!(p.set_fee_percentage(Origin::Root, 5), Ok(()));
    assert_eq!(p.last_event(), Some(Event::FeePercentageSet(5)));
    assert_eq!(p.list_nft_for_auction(signed(1), asset), Ok(()));
    assert_eq!(p.place_bid(signed(2), asset, 100), Ok(()));
    assert_eq!(p.resolve_auction(signed(1), asset), Ok(()));
    assert_eq!(p.free_balance(1), 1000 * MILLI_UNIT + 95);
    assert_eq!(p.free_balance(4), 4000 * MILLI_UNIT + 10);
    assert_eq!(p.free_balance(2), 2000 * MILLI_UNIT - 100);
    assert_eq!(p.free_balance(TREASURY), 5);
    assert_eq!(p.accumulated_fees(), 5);

    assert_eq!(p.withdraw_fees(signed(1), 7), Err(Error::BadOrigin));
    assert_eq!(p.withdraw_fees(Origin::Root, 7), Ok(()));
    assert_eq!(p.last_event(), Some(Event::FeesWithdrawn(7, 5)));
    assert_eq!(p.free_balance(7), 5);
    assert_eq!(p.free_balance(TREASURY), 0);
    assert_eq!(p.accumulated_fees(), 0);
}

#[test]
fn settlement_failure_changes_nothing() {
    let mut p = new_test_ext();
    let asset = setup_nft(&mut p, 1);
    assert_eq!(p.set_fee_percentage(Origin::Root, 5), Ok(()));
    assert_eq!(p.list_nft_for_auction(signed(1), asset), Ok(()));
    assert_eq!(p.place_bid(signed(2), asset, 100), Ok(()));
    // Transfers out of the collection are blocked: the last step of settlement fails.
    assert_eq!(p.set_collection_frozen(1, true), Ok(()));
    let events = p.event_count();
    assert_eq!(p.resolve_auction(signed(1), asset), Err(Error::Registry(RegistryError::Frozen)));
    assert_eq!(p.reserved_balance(2), 100);
    assert_eq!(p.free_balance(2), 2000 * MILLI_UNIT - 100);
    assert_eq!(p.free_balance(1), 1000 * MILLI_UNIT);
    assert_eq!(p.free_balance(TREASURY), 0);
    assert_eq!(p.accumulated_fees(), 0);
    assert_eq!(p.owner(asset), Some(1));
    assert!(p.is_in_auction(asset));
    assert_eq!(p.event_count(), events);
}

#[test]
fn sweep_fails_auction_whose_asset_cannot_move() {
    let mut p = new_test_ext();
    let asset = setup_nft(&mut p, 1);
    assert_eq!(p.list_nft_for_auction(signed(1), asset), Ok(()));
    assert_eq!(p.place_bid(signed(2), asset, 50), Ok(()));
    assert_eq!(p.place_bid(signed(3), asset, 60), Ok(()));
    assert_eq!(p.set_collection_frozen(1, true), Ok(()));
    p.on_initialize(101);
    assert_eq!(p.last_event(), Some(Event::AuctionFailed(asset)));
    assert_eq!(p.auctions(asset).unwrap().ended, true);
    assert_eq!(p.reserved_balance(3), 0);
    assert_eq!(p.free_balance(3), 3000 * MILLI_UNIT);
    assert_eq!(p.owner(asset), Some(1));
}

#[test]
fn sweep_settles_each_overdue_auction_within_budget() {
    let mut p = Pallet::new(Config { max_resolutions_per_block: 1, ..config() });
    assert_eq!(p.endow(2, 1000), Ok(()));
    assert_eq!(p.create_collection(1, 1), Ok(()));
    let a = AssetId { collection: 1, item: 1 };
    let b = AssetId { collection: 1, item: 2 };
    assert_eq!(p.mint(a, 1), Ok(()));
    assert_eq!(p.mint(b, 1), Ok(()));
    assert_eq!(p.list_nft_for_auction(signed(1), a), Ok(()));
    assert_eq!(p.list_nft_for_auction(signed(1), b), Ok(()));
    assert_eq!(p.place_bid(signed(2), a, 10), Ok(()));
    assert_eq!(p.place_bid(signed(2), b, 20), Ok(()));
    assert_eq!(p.reserved_balance(2), 30);
    p.on_initialize(100);
    assert_eq!(p.owner(a), Some(2));
    assert_eq!(p.owner(b), Some(1));
    assert_eq!(p.reserved_balance(2), 20);
    p.on_initialize(101);
    assert_eq!(p.owner(b), Some(2));
    assert_eq!(p.reserved_balance(2), 0);
    assert_eq!(p.free_balance(2), 970);
}

#[test]
fn listing_and_bidding_errors() {
    let mut p = new_test_ext();
    let asset = setup_nft(&mut p, 1);
    let missing = AssetId { collection: 1, item: 2 };
    assert_eq!(p.list_nft_for_auction(Origin::Root, asset), Err(Error::BadOrigin));
    assert_eq!(p.list_nft_for_auction(signed(1), missing), Err(Error::NftNotFound));
    assert_eq!(p.list_nft_for_auction(signed(2), asset), Err(Error::NotNftOwner));
    assert_eq!(p.place_bid(signed(2), asset, 5), Err(Error::AuctionNotFound));
    assert_eq!(p.resolve_auction(signed(1), asset), Err(Error::AuctionNotFound));
    assert_eq!(p.list_nft_for_auction(signed(1), asset), Ok(()));
    assert_eq!(p.resolve_auction(signed(1), asset), Err(Error::NoValidBuyer));
    assert_eq!(
        p.place_bid(signed(6), asset, 5),
        Err(Error::Ledger(nft_auction::ledger::LedgerError::InsufficientBalance))
    );
    assert_eq!(p.set_fee_percentage(Origin::Root, 101), Err(Error::InvalidFee));
    assert_eq!(p.set_fee_percentage(signed(1), 5), Err(Error::BadOrigin));
    assert_eq!(p.fee_percentage(), 0);
}

#[test]
fn failed_finalize_then_next_bidder_is_not_charged_twice() {
    let mut p = new_test_ext();
    let asset = setup_nft(&mut p, 1);
    assert_eq!(p.list_nft_for_auction(signed(1), asset), Ok(()));
    assert_eq!(p.place_bid(signed(2), asset, 50), Ok(()));
    // A settlement with a buyer that cannot pay is refused and changes nothing.
    assert_eq!(p.finalize_auction(asset, 6, 50), Err(Error::NoValidBuyer));
    assert_eq!(p.reserved_balance(2), 50);
    assert_eq!(p.finalize_auction(asset, 2, 50), Ok(()));
    assert_eq!(p.owner(asset), Some(2));
    assert_eq!(p.free_balance(2), 2000 * MILLI_UNIT - 50);
}
