//! Verified core of the scenic review platform: the state of its accounts
//! (configuration, scenic spot registry, users, reviews, coupons) and the
//! rules by which each instruction moves that state forward.
//!
//! Each instruction is a function from the accounts it reads and writes, its
//! arguments and what it reads of the chain (signers, balances, the clock)
//! to the accounts' new values, the token movements to make and the events
//! to emit. A refused instruction changes nothing.

pub mod access;
pub mod address;
pub mod constants;
pub mod coupon;
pub mod detail;
pub mod error;
pub mod events;
pub mod laws;
pub mod lookup;
pub mod registry;
pub mod review;
pub mod state;
pub mod text;
pub mod user;
