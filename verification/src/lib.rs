//! A verified core for a TON-family smart-contract deployment tool.
//!
//! The tool reads a JSON configuration, resolves the compiled contract image,
//! its ABI, the constructor parameters and the key material, computes the
//! deployment address, and submits a signed deployment message through the
//! blockchain SDK. This crate holds everything that decides and marshals:
//! the configuration model, the input resolution rules, and the deployment
//! flow as an explicit state machine from events to actions. The surrounding
//! binary performs the actions (file reads, SDK calls) and feeds the outcomes
//! back as events.

pub mod errors;
pub mod json;
pub mod model;
pub mod resolve;
pub mod flow;

use vstd::prelude::*;

verus! {

/// The workchain every deployment of this tool targets.
pub const WORKCHAIN: i32 = 0;

} // verus!
