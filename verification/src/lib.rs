//! On-ledger core of a crowdfunding-via-staking protocol.
//!
//! A project owner opens a funding campaign, defines a catalog of
//! contribution tiers, and contributors deposit value into a pooled staking
//! facility in exchange for a uniquely minted receipt token bound to the
//! tier they funded. Every persistent record lives at a deterministic
//! address derived from stable seeds, so creation, lookup and uniqueness
//! enforcement need no external index.

pub mod errors;
pub mod records;
pub mod addressing;
pub mod ledger;
pub mod ops;
pub mod instructions;
pub mod laws;
