//! A peer-to-peer energy-trading ledger: residents mint tokens for the
//! kilowatt-hours they produce, and a marketplace matches buy and sell
//! orders and settles them with a simulated yield.
//!
//! Every state change is validated in full before anything is written, so a
//! call that fails leaves its store exactly as it found it.
pub mod auth;
pub mod community;
pub mod governance;
pub mod incentives;
pub mod ledger;
pub mod marketplace;
