//! The verification workflow: requests to verify a credit are submitted,
//! assigned to a verifier, and approved or rejected by that verifier.
//!
//! The workflow records decisions; the credit registry's verification
//! flag is flipped by a separate `update_verification` call made by the
//! configured verification authority.  The two components are
//! deliberately decoupled: approval here announces the decision, and
//! the authority carries it into the registry.

use std::collections::HashMap;
use vstd::prelude::*;

use crate::Identity;

pub use crate::registry::VerificationStatus;

verus! {

broadcast use vstd::std_specs::hash::group_hash_axioms;

/// Lifecycle of a verification request.  `Approved` and `Rejected` are
/// the terminal decisions; a decision is only ever taken by the
/// verifier assigned while the request was put `UnderReview`.
#[derive(Clone, Copy, PartialEq, Eq, Structural, Debug)]
pub enum RequestStatus {
    Pending,
    UnderReview,
    Approved,
    Rejected,
}

/// Why a workflow operation was refused.  Every failure leaves the
/// workflow exactly as it was.
#[derive(Clone, Copy, PartialEq, Eq, Structural, Debug)]
pub enum VerificationError {
    /// `initialize` was called on an already-initialized workflow.
    AlreadyInitialized,
    /// No request exists for the named credit.
    NotFound,
    /// The acting identity is neither the admin nor a verifier.
    NotAuthorized,
    /// The acting identity is not the verifier assigned to the request.
    NotAssignedVerifier,
}

/// One verification request, keyed by the credit it concerns.  A
/// resubmission for the same credit overwrites the previous request.
#[derive(Debug)]
pub struct VerificationRequest {
    pub credit_id: u64,
    pub requester: Identity,
    pub project_id: String,
    pub evidence_uri: String,
    pub status: RequestStatus,
    pub verifier: Option<Identity>,
    pub verified_at: Option<u64>,
    pub notes: String,
}

/// A request is internally consistent: a `Pending` request has neither
/// a verifier nor a decision time, any request past `Pending` has an
/// assigned verifier, and a decided request has a decision time.
pub open spec fn request_wf(r: VerificationRequest) -> bool {
    &&& r.status == RequestStatus::Pending ==> r.verifier is None && r.verified_at is None
    &&& r.status != RequestStatus::Pending ==> r.verifier is Some
    &&& (r.status == RequestStatus::Approved || r.status == RequestStatus::Rejected)
        ==> r.verified_at is Some
}

/// The sequence with every occurrence of `x` removed, order otherwise
/// kept.
pub open spec fn seq_remove_all(s: Seq<Identity>, x: Identity) -> Seq<Identity> {
    s.filter(|v: Identity| v != x)
}

/// The workflow's whole state: configuration, the verifier roster, and
/// the request records keyed by credit id.
pub struct VerificationContract {
    inited: bool,
    admin: Identity,
    credit_registry: Identity,
    verifiers: Vec<Identity>,
    requests: HashMap<u64, VerificationRequest>,
}

impl VerificationContract {
    /// Whether `initialize` has run.
    pub closed spec fn initialized(self) -> bool {
        self.inited
    }

    /// The administrator recorded at initialization.
    pub closed spec fn admin(self) -> Identity {
        self.admin
    }

    /// The credit registry this workflow reports to.
    pub closed spec fn registry_ref(self) -> Identity {
        self.credit_registry
    }

    /// The verifier roster, in the order verifiers were added.
    pub closed spec fn verifiers(self) -> Seq<Identity> {
        self.verifiers@
    }

    /// Whether an identity is on the verifier roster.
    pub open spec fn is_verifier_spec(self, a: Identity) -> bool {
        self.verifiers().contains(a)
    }

    /// Whether a request exists for this credit.
    pub closed spec fn has_request(self, credit_id: u64) -> bool {
        self.requests@.contains_key(credit_id)
    }

    /// The request recorded for this credit.
    pub closed spec fn request_of(self, credit_id: u64) -> VerificationRequest {
        self.requests@[credit_id]
    }

    /// Whether the caller may assign verifiers: the admin and every
    /// rostered verifier may.
    pub open spec fn may_assign(self, caller: Identity) -> bool {
        caller == self.admin() || self.is_verifier_spec(caller)
    }

    /// Well-formedness: each record is keyed by its own credit id and
    /// internally consistent, and nothing is configured before
    /// initialization.
    pub closed spec fn wf(self) -> bool {
        &&& forall|id: u64| #[trigger]
            self.requests@.contains_key(id) ==> self.requests@[id].credit_id == id && request_wf(
                self.requests@[id],
            )
        &&& !self.inited ==> self.verifiers@.len() == 0
    }

    /// A fresh, uninitialized workflow with no verifiers and no
    /// requests.
    pub fn new() -> (s: Self)
        ensures
            s.wf(),
            !s.initialized(),
            s.verifiers() == Seq::<Identity>::empty(),
            forall|id: u64| !s.has_request(id),
    {
        VerificationContract {
            inited: false,
            admin: Identity { id: 0 },
            credit_registry: Identity { id: 0 },
            verifiers: Vec::new(),
            requests: HashMap::new(),
        }
    }

    /// Records the administrator and the registry reference; the
    /// verifier roster starts empty.  Fails if called twice.
    pub fn initialize(&mut self, admin: Identity, credit_registry: Identity) -> (r: Result<
        (),
        VerificationError,
    >)
        requires
            old(self).wf(),
        ensures
            final(self).wf(),
            r is Err <==> old(self).initialized(),
            r is Err ==> r == Err::<(), VerificationError>(VerificationError::AlreadyInitialized)
                && *final(self) == *old(self),
            r is Ok ==> final(self).initialized() && final(self).admin() == admin
                && final(self).registry_ref() == credit_registry
                && final(self).verifiers() == Seq::<Identity>::empty(),
            forall|id: u64| final(self).has_request(id) == old(self).has_request(id),
            forall|id: u64|
                old(self).has_request(id) ==> final(self).request_of(id) == old(self).request_of(
                    id,
                ),
    {
        if self.inited {
            return Err(VerificationError::AlreadyInitialized);
        }
        self.inited = true;
        self.admin = admin;
        self.credit_registry = credit_registry;
        Ok(())
    }

    /// Adds an identity to the verifier roster.  Only the stored admin
    /// may do so; duplicates are not prevented.
    pub fn add_verifier(&mut self, admin: Identity, verifier: Identity) -> (r: Result<
        (),
        VerificationError,
    >)
        requires
            old(self).wf(),
            old(self).initialized(),
        ensures
            final(self).wf(),
            final(self).initialized(),
            final(self).admin() == old(self).admin(),
            final(self).registry_ref() == old(self).registry_ref(),
            r is Err <==> admin != old(self).admin(),
            r is Err ==> r == Err::<(), VerificationError>(VerificationError::NotAuthorized)
                && *final(self) == *old(self),
            r is Ok ==> final(self).verifiers() == old(self).verifiers().push(verifier),
            r is Ok ==> final(self).is_verifier_spec(verifier),
            r is Ok ==> forall|a: Identity|
                final(self).is_verifier_spec(a) <==> (old(self).is_verifier_spec(a) || a
                    == verifier),
            forall|id: u64| final(self).has_request(id) == old(self).has_request(id),
            forall|id: u64|
                old(self).has_request(id) ==> final(self).request_of(id) == old(self).request_of(
                    id,
                ),
    {
        if admin != self.admin {
            return Err(VerificationError::NotAuthorized);
        }
        self.verifiers.push(verifier);
        proof {
            let vs = self.verifiers@;
            assert(vs[vs.len() - 1] == verifier);
            assert forall|a: Identity|
                old(self).verifiers@.contains(a) implies self.verifiers@.contains(a) by {
                let i = choose|i: int| 0 <= i < old(self).verifiers@.len() && old(
                    self,
                ).verifiers@[i] == a;
                assert(vs[i] == a);
            }
        }
        Ok(())
    }

    /// Removes every occurrence of an identity from the verifier
    /// roster.  Only the stored admin may do so; removing an identity
    /// that is not rostered leaves the roster as it was.
    pub fn remove_verifier(&mut self, admin: Identity, verifier: Identity) -> (r: Result<
        (),
        VerificationError,
    >)
        requires
            old(self).wf(),
            old(self).initialized(),
        ensures
            final(self).wf(),
            final(self).initialized(),
            final(self).admin() == old(self).admin(),
            final(self).registry_ref() == old(self).registry_ref(),
            r is Err <==> admin != old(self).admin(),
            r is Err ==> r == Err::<(), VerificationError>(VerificationError::NotAuthorized)
                && *final(self) == *old(self),
            r is Ok ==> final(self).verifiers() == seq_remove_all(
                old(self).verifiers(),
                verifier,
            ),
            r is Ok ==> !final(self).is_verifier_spec(verifier),
            r is Ok ==> forall|a: Identity|
                final(self).is_verifier_spec(a) <==> (old(self).is_verifier_spec(a) && a
                    != verifier),
            forall|id: u64| final(self).has_request(id) == old(self).has_request(id),
            forall|id: u64|
                old(self).has_request(id) ==> final(self).request_of(id) == old(self).request_of(
                    id,
                ),
    {
        if admin != self.admin {
            return Err(VerificationError::NotAuthorized);
        }
        let ghost pre = self.verifiers@;
        let mut kept: Vec<Identity> = Vec::new();
        let n = self.verifiers.len();
        let mut i: usize = 0;
        while i < n
            invariant
                n == self.verifiers.len(),
                i <= n,
                self.verifiers@ == pre,
                kept@ == seq_remove_all(pre.take(i as int), verifier),
            decreases n - i,
        {
            broadcast use vstd::prelude::Seq::lemma_filter_push;

            let v = self.verifiers[i];
            proof {
                assert(pre.take(i as int + 1) =~= pre.take(i as int).push(pre[i as int]));
            }
            if v != verifier {
                kept.push(v);
            }
            i += 1;
        }
        proof {
            assert(pre.take(n as int) =~= pre);
        }
        self.verifiers = kept;
        proof {
            broadcast use vstd::seq_lib::group_filter_ensures;
            broadcast use vstd::prelude::Seq::lemma_filter_contains_rev;

            assert forall|a: Identity|
                self.verifiers@.contains(a) implies (pre.contains(a) && a != verifier) by {
                let i = choose|i: int| 0 <= i < self.verifiers@.len() && self.verifiers@[i] == a;
            }
        }
        Ok(())
    }

    /// Creates (or, on resubmission, overwrites) the request for a
    /// credit: status `Pending`, no verifier, no decision, empty notes.
    pub fn submit_verification(
        &mut self,
        requester: Identity,
        credit_id: u64,
        project_id: String,
        evidence_uri: String,
    )
        requires
            old(self).wf(),
        ensures
            final(self).wf(),
            final(self).initialized() == old(self).initialized(),
            final(self).admin() == old(self).admin(),
            final(self).registry_ref() == old(self).registry_ref(),
            final(self).verifiers() == old(self).verifiers(),
            final(self).has_request(credit_id),
            final(self).request_of(credit_id).credit_id == credit_id,
            final(self).request_of(credit_id).requester == requester,
            final(self).request_of(credit_id).project_id == project_id,
            final(self).request_of(credit_id).evidence_uri == evidence_uri,
            final(self).request_of(credit_id).status == RequestStatus::Pending,
            final(self).request_of(credit_id).verifier is None,
            final(self).request_of(credit_id).verified_at is None,
            final(self).request_of(credit_id).notes@ == Seq::<char>::empty(),
            forall|id: u64|
                id != credit_id ==> final(self).has_request(id) == old(self).has_request(id),
            forall|id: u64|
                id != credit_id && old(self).has_request(id) ==> final(self).request_of(id) == old(
                    self,
                ).request_of(id),
    {
        let request = VerificationRequest {
            credit_id,
            requester,
            project_id,
            evidence_uri,
            status: RequestStatus::Pending,
            verifier: None,
            verified_at: None,
            notes: String::new(),
        };
        self.requests.insert(credit_id, request);
    }

    /// Puts a request under review by the named verifier.  The caller
    /// must be the admin or a rostered verifier.
    pub fn assign_verifier(&mut self, caller: Identity, credit_id: u64, verifier: Identity) -> (r:
        Result<(), VerificationError>)
        requires
            old(self).wf(),
            old(self).initialized(),
        ensures
            final(self).wf(),
            final(self).initialized(),
            final(self).admin() == old(self).admin(),
            final(self).registry_ref() == old(self).registry_ref(),
            final(self).verifiers() == old(self).verifiers(),
            r == Err::<(), VerificationError>(VerificationError::NotAuthorized) <==> !old(
                self).may_assign(caller),
            r == Err::<(), VerificationError>(VerificationError::NotFound) <==> old(
                self).may_assign(caller) && !old(self).has_request(credit_id),
            r is Ok <==> old(self).may_assign(caller) && old(self).has_request(credit_id),
            r is Err ==> *final(self) == *old(self),
            r is Ok ==> final(self).request_of(credit_id) == (VerificationRequest {
                status: RequestStatus::UnderReview,
                verifier: Some(verifier),
                ..old(self).request_of(credit_id)
            }),
            forall|id: u64| final(self).has_request(id) == old(self).has_request(id),
            r is Ok ==> forall|id: u64|
                id != credit_id && old(self).has_request(id) ==> final(self).request_of(id) == old(
                    self,
                ).request_of(id),
    {
        let authorized = caller == self.admin || self.is_verifier(caller);
        if !authorized {
            return Err(VerificationError::NotAuthorized);
        }
        match self.requests.get(&credit_id) {
            None => Err(VerificationError::NotFound),
            Some(req) => {
                let updated = VerificationRequest {
                    credit_id: req.credit_id,
                    requester: req.requester,
                    project_id: req.project_id.clone(),
                    evidence_uri: req.evidence_uri.clone(),
                    status: RequestStatus::UnderReview,
                    verifier: Some(verifier),
                    verified_at: req.verified_at,
                    notes: req.notes.clone(),
                };
                self.requests.insert(credit_id, updated);
                Ok(())
            },
        }
    }

    /// Approves a request.  Only the verifier assigned to it may
    /// decide; `now` is recorded as the decision time.
    pub fn approve_verification(
        &mut self,
        verifier: Identity,
        credit_id: u64,
        notes: String,
        now: u64,
    ) -> (r: Result<(), VerificationError>)
        requires
            old(self).wf(),
            old(self).initialized(),
        ensures
            final(self).wf(),
            final(self).initialized(),
            final(self).admin() == old(self).admin(),
            final(self).registry_ref() == old(self).registry_ref(),
            final(self).verifiers() == old(self).verifiers(),
            r == Err::<(), VerificationError>(VerificationError::NotFound) <==> !old(
                self).has_request(credit_id),
            r == Err::<(), VerificationError>(VerificationError::NotAssignedVerifier) <==> old(
                self).has_request(credit_id) && old(self).request_of(credit_id).verifier != Some(
                verifier,
            ),
            r is Ok <==> old(self).has_request(credit_id) && old(self).request_of(
                credit_id,
            ).verifier == Some(verifier),
            r is Ok ==> old(self).request_of(credit_id).status != RequestStatus::Pending,
            r is Err ==> *final(self) == *old(self),
            r is Ok ==> final(self).request_of(credit_id) == (VerificationRequest {
                status: RequestStatus::Approved,
                verified_at: Some(now),
                notes: notes,
                ..old(self).request_of(credit_id)
            }),
            forall|id: u64| final(self).has_request(id) == old(self).has_request(id),
            r is Ok ==> forall|id: u64|
                id != credit_id && old(self).has_request(id) ==> final(self).request_of(id) == old(
                    self,
                ).request_of(id),
    {
        self.decide(verifier, credit_id, notes, now, RequestStatus::Approved)
    }

    /// Rejects a request, recording the reason.  Only the verifier
    /// assigned to it may decide; `now` is recorded as the decision
    /// time.
    pub fn reject_verification(
        &mut self,
        verifier: Identity,
        credit_id: u64,
        reason: String,
        now: u64,
    ) -> (r: Result<(), VerificationError>)
        requires
            old(self).wf(),
            old(self).initialized(),
        ensures
            final(self).wf(),
            final(self).initialized(),
            final(self).admin() == old(self).admin(),
            final(self).registry_ref() == old(self).registry_ref(),
            final(self).verifiers() == old(self).verifiers(),
            r == Err::<(), VerificationError>(VerificationError::NotFound) <==> !old(
                self).has_request(credit_id),
            r == Err::<(), VerificationError>(VerificationError::NotAssignedVerifier) <==> old(
                self).has_request(credit_id) && old(self).request_of(credit_id).verifier != Some(
                verifier,
            ),
            r is Ok <==> old(self).has_request(credit_id) && old(self).request_of(
                credit_id,
            ).verifier == Some(verifier),
            r is Ok ==> old(self).request_of(credit_id).status != RequestStatus::Pending,
            r is Err ==> *final(self) == *old(self),
            r is Ok ==> final(self).request_of(credit_id) == (VerificationRequest {
                status: RequestStatus::Rejected,
                verified_at: Some(now),
                notes: reason,
                ..old(self).request_of(credit_id)
            }),
            forall|id: u64| final(self).has_request(id) == old(self).has_request(id),
            r is Ok ==> forall|id: u64|
                id != credit_id && old(self).has_request(id) ==> final(self).request_of(id) == old(
                    self,
                ).request_of(id),
    {
        self.decide(verifier, credit_id, reason, now, RequestStatus::Rejected)
    }

    /// Shared body of the two decisions: check the assigned verifier,
    /// then record the terminal status, the decision time and the notes.
    fn decide(
        &mut self,
        verifier: Identity,
        credit_id: u64,
        notes: String,
        now: u64,
        decision: RequestStatus,
    ) -> (r: Result<(), VerificationError>)
        requires
            old(self).wf(),
            old(self).initialized(),
            decision == RequestStatus::Approved || decision == RequestStatus::Rejected,
        ensures
            final(self).wf(),
            final(self).initialized(),
            final(self).admin() == old(self).admin(),
            final(self).registry_ref() == old(self).registry_ref(),
            final(self).verifiers() == old(self).verifiers(),
            r == Err::<(), VerificationError>(VerificationError::NotFound) <==> !old(
                self).has_request(credit_id),
            r == Err::<(), VerificationError>(VerificationError::NotAssignedVerifier) <==> old(
                self).has_request(credit_id) && old(self).request_of(credit_id).verifier != Some(
                verifier,
            ),
            r is Ok <==> old(self).has_request(credit_id) && old(self).request_of(
                credit_id,
            ).verifier == Some(verifier),
            r is Ok ==> old(self).request_of(credit_id).status != RequestStatus::Pending,
            r is Err ==> *final(self) == *old(self),
            r is Ok ==> final(self).request_of(credit_id) == (VerificationRequest {
                status: decision,
                verified_at: Some(now),
                notes: notes,
                ..old(self).request_of(credit_id)
            }),
            forall|id: u64| final(self).has_request(id) == old(self).has_request(id),
            r is Ok ==> forall|id: u64|
                id != credit_id && old(self).has_request(id) ==> final(self).request_of(id) == old(
                    self,
                ).request_of(id),
    {
        let assigned = match self.requests.get(&credit_id) {
            None => {
                return Err(VerificationError::NotFound);
            },
            Some(req) => match req.verifier {
                Some(v) => v == verifier,
                None => false,
            },
        };
        if !assigned {
            return Err(VerificationError::NotAssignedVerifier);
        }
        match self.requests.get(&credit_id) {
            None => {
                proof {
                    assert(false);
                }
                Err(VerificationError::NotFound)
            },
            Some(req) => {
                let updated = VerificationRequest {
                    credit_id: req.credit_id,
                    requester: req.requester,
                    project_id: req.project_id.clone(),
                    evidence_uri: req.evidence_uri.clone(),
                    status: decision,
                    verifier: req.verifier,
                    verified_at: Some(now),
                    notes,
                };
                self.requests.insert(credit_id, updated);
                Ok(())
            },
        }
    }

    /// Returns a copy of the request for a credit, or `NotFound`.
    pub fn get_request(&self, credit_id: u64) -> (r: Result<
        VerificationRequest,
        VerificationError,
    >)
        ensures
            r is Ok <==> self.has_request(credit_id),
            match r {
                Ok(req) => req == self.request_of(credit_id),
                Err(e) => e == VerificationError::NotFound,
            },
    {
        match self.requests.get(&credit_id) {
            None => Err(VerificationError::NotFound),
            Some(req) => Ok(
                VerificationRequest {
                    credit_id: req.credit_id,
                    requester: req.requester,
                    project_id: req.project_id.clone(),
                    evidence_uri: req.evidence_uri.clone(),
                    status: req.status,
                    verifier: req.verifier,
                    verified_at: req.verified_at,
                    notes: req.notes.clone(),
                },
            ),
        }
    }

    /// Whether an identity is on the verifier roster.
    pub fn is_verifier(&self, address: Identity) -> (r: bool)
        requires
            self.initialized(),
        ensures
            r == self.is_verifier_spec(address),
    {
        let n = self.verifiers.len();
        let mut i: usize = 0;
        while i < n
            invariant
                n == self.verifiers.len(),
                i <= n,
                forall|j: int| 0 <= j < i ==> self.verifiers@[j] != address,
            decreases n - i,
        {
            if self.verifiers[i] == address {
                proof {
                    assert(self.verifiers@.contains(address)) by {
                        assert(self.verifiers@[i as int] == address);
                    }
                }
                return true;
            }
            i += 1;
        }
        false
    }

    /// The verifier roster, in order of addition.
    pub fn get_verifiers(&self) -> (r: Vec<Identity>)
        requires
            self.initialized(),
        ensures
            r@ == self.verifiers(),
    {
        let n = self.verifiers.len();
        let mut out: Vec<Identity> = Vec::new();
        let mut i: usize = 0;
        while i < n
            invariant
                n == self.verifiers.len(),
                i <= n,
                out@ == self.verifiers@.take(i as int),
            decreases n - i,
        {
            out.push(self.verifiers[i]);
            proof {
                assert(self.verifiers@.take(i as int + 1) =~= self.verifiers@.take(i as int).push(
                    self.verifiers@[i as int],
                ));
            }
            i += 1;
        }
        proof {
            assert(self.verifiers@.take(n as int) =~= self.verifiers@);
        }
        out
    }
}

/// Law: a `Pending` request has no assigned verifier, while approval
/// and rejection demand that the caller equal the assigned verifier.
/// No decision is therefore ever taken on a `Pending` request: a
/// request's status advances to `Approved` or `Rejected` only after an
/// assignment has put it `UnderReview`.
pub proof fn lemma_pending_request_cannot_be_decided(s: VerificationContract, credit_id: u64)
    requires
        s.wf(),
        s.has_request(credit_id),
        s.request_of(credit_id).status == RequestStatus::Pending,
    ensures
        s.request_of(credit_id).verifier is None,
{
}

/// Law: a request that has an assigned verifier but no decision yet is
/// exactly `UnderReview`.  Together with the decision contracts — which
/// succeed only for the assigned verifier — this pins the lifecycle:
/// a request is decided only out of `UnderReview`.
pub proof fn lemma_decision_only_after_review(s: VerificationContract, credit_id: u64)
    requires
        s.wf(),
        s.has_request(credit_id),
        s.request_of(credit_id).verifier is Some,
        s.request_of(credit_id).status != RequestStatus::Approved,
        s.request_of(credit_id).status != RequestStatus::Rejected,
    ensures
        s.request_of(credit_id).status == RequestStatus::UnderReview,
{
}

} // verus!
