//! A deterministic custodial escrow between a depositor and a recipient.
//!
//! Funds move through a custody vault whose sole transfer authority is the
//! escrow entry that owns it. The entry's state machine has three transitions,
//! `deposit` (open), `withdraw` (settle) and `cancel` (reverse), plus a
//! delegated-call extension, each verified against an exact contract over the
//! entry's fields and the balances it touches.

pub mod account;
pub mod delegate;
pub mod derivation;
pub mod entry;
pub mod errors;
pub mod events;
pub mod fees;
pub mod laws;
pub mod layout;
pub mod ops;
pub mod registry;
