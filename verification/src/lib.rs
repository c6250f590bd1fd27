//! Decision core for a rotating set of trusted network participants
//! ("validators") and for a periodic background pipeline that fetches and
//! publishes content on their behalf against a remote content-addressable
//! store, gated by ledger balance checks.
//!
//! Everything here is pure logic over plain values.  The host environment
//! (consensus engine, ledger, remote store, local key-value storage, signed
//! transaction submitter) is driven from outside: it feeds events in and
//! carries the actions this core decides on back out.

pub mod bootstrap;
pub mod errors;
pub mod offence;
pub mod pipeline;
pub mod registry;
pub mod session;
pub mod store;

use vstd::prelude::*;

verus! {

/// Opaque comparable identity of a network participant (an account).
pub type ValidatorId = u64;

/// Identity of an account on the ledger (same identity space as validators).
pub type AccountId = u64;

/// Identifier of an asset class on the ledger, representing ownership of or
/// access rights over a piece of content.
pub type AssetId = u64;

} // verus!
