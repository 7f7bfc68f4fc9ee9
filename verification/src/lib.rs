//! Capability references and the refund-purse protocol.
//!
//! A capability reference names a resource and says what its holder may do
//! with it. This crate holds the reference and its access rights, the way
//! from a registered name to a contract that can be called, the contract
//! that keeps the refund purse and shows its identity and nothing more, and
//! a probe that holds such a contract to its word.
//!
//! The platform (registry, storage, purses, calls between contracts) is not
//! part of the crate. Whatever needs it is written as a decision on values
//! that the platform has handed over: see `resolve` and `probe`.

pub mod dispatch;
pub mod holder;
pub mod key;
pub mod platform;
pub mod probe;
pub mod purse;
pub mod reference;
pub mod resolve;
pub mod rights;
