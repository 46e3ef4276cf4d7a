//! Request and response records of the HTTP gateway, as plain values.
use vstd::prelude::*;

verus! {

/// A transfer of `amount` to the account with address `to`.
pub struct TransferRequest {
    pub to: String,
    pub amount: u128,
}

/// A remark to record on chain.
pub struct RemarkRequest {
    pub remark: String,
}

/// Lists an asset for auction.
pub struct ListNftRequest {
    pub collection_id: u32,
    pub item_id: u32,
}

/// Bids `bid_amount` on an asset.
pub struct PlaceBidRequest {
    pub collection_id: u32,
    pub item_id: u32,
    pub bid_amount: u128,
}

/// The transaction hash of an auction call.
pub struct AuctionResponse {
    pub tx_hash: String,
}

/// The hash and status of a submitted transaction.
pub struct TransactionResponse {
    pub tx_hash: String,
    pub status: String,
}

/// The balances of an account.
pub struct BalanceResponse {
    pub account: String,
    pub free_balance: u128,
    pub reserved_balance: u128,
}

/// A failure, in words.
#[derive(Debug)]
pub struct ErrorResponse {
    pub error: String,
}

/// Query options of a call.
pub struct QueryParams {
    pub wait_for_finalization: Option<bool>,
}

} // verus!
