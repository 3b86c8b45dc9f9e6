//! A gateway that anchors content records on a ledger: it encodes each record
//! as a program instruction, builds and signs the transaction that carries it,
//! and decides from the ledger's answers what the caller is told.
use vstd::prelude::*;

pub mod blockchain;
pub mod builder;
pub mod codec;
pub mod gateway;
pub mod health;
pub mod identity;
pub mod provider;
pub mod submitter;

verus! {

} // verus!
