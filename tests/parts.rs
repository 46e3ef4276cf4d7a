use nft_auction::bid_book::{BidBook, BookError};
use nft_auction::fees::{percent_of_amount, settlement_amounts};
use nft_auction::ledger::{Ledger, LedgerError};
use nft_auction::proxy::ProxyType;
use nft_auction::rpc::AuctionRpc;
use nft_auction::storage_key::decode_auction_key;
use std::sync::Arc;

#[test]
fn fee_split_of_one_hundred_at_five_percent() {
    let s = settlement_amounts(100, 5, 10);
    assert_eq!(s.fee, 5);
    assert_eq!(s.payout, 95);
    assert_eq!(s.royalty, 10);
}

#[test]
fn fee_split_rounds_down_and_handles_the_largest_bid() {
    let s = settlement_amounts(199, 5, 3);
    assert_eq!(s.fee, 9);
    assert_eq!(s.royalty, 5);
    assert_eq!(s.payout, 190);
    assert_eq!(percent_of_amount(u128::MAX, 100), u128::MAX);
    assert_eq!(percent_of_amount(u128::MAX, 50), u128::MAX / 2);
    assert_eq!(percent_of_amount(7, 0), 0);
}

#[test]
fn book_is_sorted_and_bounded() {
    let mut b = BidBook::new(2);
    assert_eq!(b.insert(1, 50), Ok(()));
    assert_eq!(b.insert(2, 70), Ok(()));
    assert_eq!(b.len(), 2);
    assert_eq!(b.get(0).bidder, 2);
    assert_eq!(b.get(1).bidder, 1);
    // Full, and ranks below every entry: refused, book unchanged.
    assert_eq!(b.insert(3, 40), Err(BookError::BidTooLow));
    assert_eq!(b.len(), 2);
    assert_eq!(b.get(1).amount, 50);
    // Full, but beats the lowest: the lowest is evicted.
    assert_eq!(b.insert(3, 60), Ok(()));
    assert_eq!(b.len(), 2);
    assert_eq!(b.get(0).amount, 70);
    assert_eq!(b.get(1).bidder, 3);
    // A bidder's new bid replaces the old one.
    assert_eq!(b.insert(3, 90), Ok(()));
    assert_eq!(b.len(), 2);
    assert_eq!(b.get(0).bidder, 3);
    assert_eq!(b.get(1).bidder, 2);
}

#[test]
fn ledger_moves_and_refusals() {
    let mut l = Ledger::new();
    assert_eq!(l.deposit(1, 100), Ok(()));
    assert_eq!(l.reserve(1, 150), Err(LedgerError::InsufficientBalance));
    assert_eq!(l.reserve(1, 60), Ok(()));
    assert_eq!(l.free_balance(1), 40);
    assert_eq!(l.reserved_balance(1), 60);
    assert_eq!(l.unreserve(1, 100), 40);
    assert_eq!(l.reserved_balance(1), 0);
    assert_eq!(l.free_balance(1), 100);
    assert_eq!(l.deposit(1, u128::MAX), Err(LedgerError::Overflow));
    assert_eq!(l.transfer(1, 2, 30), Ok(()));
    assert_eq!(l.free_balance(2), 30);
    assert_eq!(l.withdraw(2, 31), Err(LedgerError::InsufficientBalance));
}

#[test]
fn decode_auction_key_reads_both_ids() {
    let mut key = vec![0u8; 48];
    key.extend_from_slice(&[1, 0, 0, 0, 0x2a, 0x01, 0, 0]);
    assert_eq!(decode_auction_key(&key), Ok((1, 298)));
    assert_eq!(decode_auction_key(&[0u8; 10]), Err("Key too short for Blake2_128Concat"));
    assert_eq!(decode_auction_key(&[0u8; 50]), Err("Insufficient data for (u32, u32) tuple"));
}

#[test]
fn proxy_types_nest() {
    assert!(ProxyType::Any.is_superset(&ProxyType::Nomination));
    assert!(!ProxyType::Staking.is_superset(&ProxyType::NonTransfer));
    assert!(ProxyType::Staking.is_superset(&ProxyType::Nomination));
    assert!(ProxyType::Nomination.is_superset(&ProxyType::Nomination));
    assert_eq!(ProxyType::default(), ProxyType::Any);
}

#[test]
fn rpc_handle_keeps_its_client() {
    let client = Arc::new(7u32);
    let rpc: AuctionRpc<u32, ()> = AuctionRpc::new(client.clone());
    assert_eq!(**rpc.client(), 7);
}
