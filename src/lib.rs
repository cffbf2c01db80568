//! Shade: a payment protocol for merchants.
//!
//! The crate holds the protocol's state machine: invoices with fee splitting,
//! partial payments and bounded refunds, signed invoice creation with
//! per-merchant nonces, recurring subscriptions with interval-enforced pull
//! charges, role-based administration and a global pause switch.
//!
//! Host capabilities are supplied by the caller of this library: the
//! authenticated caller address, the ledger time and the contract's own
//! address travel in as plain values, and token movements come back out as
//! [`types::Transfer`] records for the caller to carry out.
pub mod types;
pub mod errors;
pub mod signature;
pub mod shade;
pub mod admin;
pub mod merchant;
pub mod invoice;
pub mod subscription;
pub mod laws;
pub mod account;
