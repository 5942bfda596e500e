//! Verified core of a carbon-credit registry and marketplace.
//!
//! Three cooperating state machines manage the lifecycle of carbon credits:
//! a credit registry (issue, verify, transfer, retire), a verification
//! workflow (submit, assign, approve or reject), and a marketplace
//! (list, buy, cancel, with fee-splitting settlement against a fungible
//! payment ledger).
//!
//! The surrounding host is responsible for durable storage, for proving
//! that each call is authorized by the actor it names, for the clock, and
//! for delivering notifications.  The core therefore works on explicit
//! state values: every mutating operation takes the acting [`Identity`]
//! (already proven by the host's authorization primitive) and, where a
//! record carries a timestamp, the current time as a plain integer.
//! Every operation either commits all of its state changes or returns an
//! error having changed nothing.

use vstd::prelude::*;

pub mod market;
pub mod registry;
pub mod token;
pub mod verification;

verus! {

/// An actor in the system: an issuer, owner, verifier, buyer or
/// administrator.  The host's authorization layer proves that a call is
/// made by the identity it names before the core is entered; within the
/// core, authorization is the comparison of identities against the
/// recorded admin, owner, seller or assigned verifier.
#[derive(Clone, Copy, PartialEq, Eq, Structural, Debug)]
pub struct Identity {
    pub id: u64,
}

} // verus!
