//! A bounded, recency-ranked history of connection addresses behind a
//! single-owner data actor, with its schema migrator and query protocol.
use vstd::prelude::*;

pub mod history;
pub mod schema;
pub mod access;
pub mod autocomplete;
pub mod cli;
pub mod settings;

verus! {

} // verus!
