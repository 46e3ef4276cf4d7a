//! A deterministic auction engine for unique assets: listing, escrowed
//! bidding over a bounded bid book, manual and timed-out resolution with
//! all-or-nothing settlement, and a fee treasury.
pub mod ledger;
pub mod registry;
pub mod bid_book;
pub mod fees;
pub mod types;
pub mod model;
pub mod market;
pub mod escrow;
pub mod laws;
pub mod storage_key;
pub mod rpc;
pub mod proxy;
pub mod api;
