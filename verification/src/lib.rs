//! Logic core of a time-locked custodial vault.
//!
//! A designated owner funds the vault, the funds stay locked until a
//! configured release time, and a designated beneficiary may then withdraw
//! them in full. The owner keeps an emergency override that bypasses the
//! time lock. The hosting environment supplies the current time,
//! authenticates callers, and moves the actual asset; this crate holds the
//! authorization and state-transition rules, verified.

pub mod store;
pub mod auth;
pub mod vault;
pub mod laws;
