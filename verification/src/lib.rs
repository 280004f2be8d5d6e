//! Accounting core of a two-asset constant-product liquidity pool.
//!
//! The library models a pool that custodies two asset reserves and an
//! outstanding supply of claim tokens. It computes, with overflow-checked
//! fixed-width arithmetic, the amounts moved by pool initialization,
//! liquidity provisioning, liquidity redemption and swaps, and enforces the
//! slippage, price-impact and constant-product guards. All token transfers,
//! persistence and access control are left to the surrounding environment:
//! every operation here is a pure, all-or-nothing state transition.

pub mod error;
pub mod math;
pub mod asset;
pub mod state;
pub mod initialize_pool;
pub mod add_liquidity;
pub mod remove_liquidity;
pub mod swap;
pub mod laws;
