//! Custodial token escrow ("airdrop"): an initializer locks tokens in a custody
//! slot controlled by a key-less program authority; a taker may claim a fixed
//! amount once, or the initializer may cancel and take the deposit back.
//!
//! The host ledger and its token program are outside this library: every
//! instruction here decides, from plain snapshots of the accounts involved,
//! whether it may proceed and which token-ledger calls it must issue.
pub mod address;
pub mod authority;
pub mod ledger;
pub mod escrow;
pub mod lifecycle;
