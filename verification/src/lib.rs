//! An automated market maker for creator tokens.
//!
//! Each creator token trades against a reserve asset on its own bonding
//! curve under a virtual-reserve model. The crate provides the pure pricing
//! functions, the per-curve trade transitions, the deployment registry with
//! its agent allow-list, and a router that chains a sell on one curve with a
//! buy on another into a single atomic swap.
//!
//! The engine is deliberately free of any ledger or transfer machinery: every
//! operation takes the balances it depends on as plain values and returns a
//! receipt describing the transfers, mints and burns the host must perform.

pub mod config;
pub mod curve;
pub mod errors;
pub mod pricing;
pub mod registry;
pub mod swap;
