//! A small family of permissioned ledger components: a fungible token ledger
//! with role-gated transfer, mint and burn; a minting controller that puts a
//! per-account issuance cap in front of a mint capability; and a poll registry
//! gated by the same role system.
//!
//! Each component is a state machine over plain values. The host environment
//! supplies the caller identity and the current block timestamp as arguments,
//! keeps the state between calls, and appends the event that each mutating
//! operation returns to its log; nothing here performs I/O.

pub mod account;
pub mod account_map;
pub mod governance;
pub mod minting;
pub mod roles;
pub mod token;
