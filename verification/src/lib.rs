//! Delegated-authority signing and cross-program call composition for an
//! automated market maker that shares its liquidity with an order-book venue.
//!
//! The library derives the signer-seed set of the program's own authority,
//! builds the instruction of each custody and order-book operation together
//! with the ordered list of accounts the call needs, and hands both out as an
//! [`invocation::Invocation`] for the runtime to perform.

pub mod account;
pub mod authority;
pub mod bridge;
pub mod dex;

pub mod invocation;
pub mod invokers;

pub mod log;
pub mod token;
pub mod wire;
