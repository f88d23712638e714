//! Authorisation and settlement rules for minting path names under a single
//! custodied root name, with an optional per-mint payment and a claim window
//! reserved for the owners of the matching top-level names.
use vstd::prelude::*;

pub mod contract;
pub mod error;
pub mod laws;
pub mod msg;
pub mod state;

verus! {

} // verus!
