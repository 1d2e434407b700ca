//! An on-chain handler that takes an investor's stable-coin deposit and issues
//! the same number of fund shares from a pre-funded treasury account.
//!
//! The library decodes the instruction payload, validates the positional
//! accounts against pinned identities, and plans the two token transfers that
//! the host then performs.
use vstd::prelude::*;

pub mod account;
pub mod error;
pub mod instruction;
pub mod processor;
