//! Storage resource accounting and lifecycle hook composition for metered,
//! extensible stateful services.
//!
//! The heart of the crate is the [`nep145`] storage accounting engine: a
//! per-account ledger of total versus available storage balance, with
//! deposit, withdraw, lock, unlock, unregister and forced-unregister
//! operations, overflow-checked arithmetic and contract-wide balance bounds.
//! Every operation carries a full contract, and the ledger maintains the
//! invariant that no account's available balance exceeds its total.
//!
//! Cross-cutting behaviour attaches to mutating operations through the
//! [`hook`] protocol: a hook wraps a guarded mutation, works before and after
//! it, or vetoes it, and an ordered pair of hooks composes into one hook with
//! strict nesting. The accounting engine uses the same protocol for its own
//! forced-unregister path.
//!
//! Around the core stand the action and event-log data types of the token
//! standards built on top of it: [`nep171`] and [`nep178`] actions, the
//! [`nep297`] event envelope, and [`nep148`] token metadata.

pub mod account;
pub mod colour;
pub mod hook;
pub mod nep145;
pub mod nep148;
pub mod nep171;
pub mod nep178;
pub mod nep297;
