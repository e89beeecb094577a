//! An English auction of a single asset, as a verified state machine.
//!
//! The seller puts the asset in the auction's custody and opens a bidding window of one
//! week. Each bid has to exceed the one before; a bidder who is outbid may withdraw the bid
//! that stood. Once the window has elapsed the auction ends: the asset goes to the highest
//! bidder and the highest bid to the seller.
//!
//! The auction moves no asset and no currency itself. Its operations take the caller and
//! the time as arguments, decide, and hand back what the host has to transfer and announce.

pub mod address;
pub mod auction;
pub mod laws;
pub mod ledger;
pub mod uint256;

pub use address::Address;
pub use auction::{
    EnglishAuction, EnglishAuctionError, Notification, Payout, Phase, Settlement, Withdrawal,
};
pub use ledger::RefundLedger;
pub use uint256::Uint256;
