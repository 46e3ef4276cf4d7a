//! Records, events, errors and configuration of the auction engine.
use vstd::prelude::*;
use crate::ledger::LedgerError;
use crate::registry::{AssetId, RegistryError};

verus! {

/// Who makes a call: the privileged root, or a signed account.
#[derive(Clone, Copy, Debug, PartialEq, Eq, Structural)]
pub enum Origin {
    Root,
    Signed(u64),
}

/// The record of an asset's auction.
#[derive(Clone, Copy, Debug, PartialEq, Eq, Structural)]
pub struct AuctionInfo {
    /// Who listed the asset.
    pub owner: u64,
    /// The block at which the asset was listed.
    pub start_block: u64,
    /// The highest bid so far; zero before any bid.
    pub highest_bid: u128,
    /// Who placed the highest bid; after settlement, the buyer.
    pub highest_bidder: Option<u64>,
    /// Whether the auction is over.
    pub ended: bool,
}

/// What the engine reports, one event per change of state.
#[derive(Clone, Copy, Debug, PartialEq, Eq, Structural)]
pub enum Event {
    /// An asset was listed by its owner.
    NftListed(AssetId, u64),
    /// A bid was accepted: bidder and amount.
    BidPlaced(AssetId, u64, u128),
    /// An auction was settled: buyer and amount paid.
    AuctionResolved(AssetId, u64, u128),
    /// An auction timed out without a buyer.
    AuctionFailed(AssetId),
    /// The fee rate was changed.
    FeePercentageSet(u8),
    /// The fee treasury was drained: recipient and amount.
    FeesWithdrawn(u64, u128),
}

/// Why a call was refused. A refused call changes nothing.
#[derive(Clone, Copy, Debug, PartialEq, Eq, Structural)]
pub enum Error {
    /// The call needs another kind of origin.
    BadOrigin,
    NftAlreadyInAuction,
    AuctionNotFound,
    NotNftOwner,
    AuctionEnded,
    BidTooLow,
    CannotBidOnOwnAuction,
    TooManyBids,
    NoValidBuyer,
    NftNotFound,
    InvalidFee,
    NoFeesAvailable,
    /// The currency ledger refused a step.
    Ledger(LedgerError),
    /// The ownership registry refused a step.
    Registry(RegistryError),
}

/// Fixed parameters of an engine.
#[derive(Clone, Copy, Debug, PartialEq, Eq, Structural)]
pub struct Config {
    /// Capacity of each bid book.
    pub max_bids: usize,
    /// Blocks after listing at which an auction is overdue.
    pub timeout_blocks: u64,
    /// Percentage of each sale paid to the collection's admin (0 to 100).
    pub royalty_percent: u8,
    /// The account that holds collected fees.
    pub treasury: u64,
    /// At most this many overdue auctions are settled per block; the rest
    /// wait for the next block.
    pub max_resolutions_per_block: usize,
}

} // verus!
