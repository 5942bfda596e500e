//! The credit registry: issuance, verification flag, ownership transfer
//! and permanent retirement of carbon credits.
//!
//! A credit's metadata is kept forever; its entry in the owner map is
//! what places it in circulation.  Removing that entry retires the
//! credit, and no operation ever puts an owner back: retirement is final.

use std::collections::HashMap;
use vstd::prelude::*;

use crate::Identity;

verus! {

broadcast use vstd::std_specs::hash::group_hash_axioms;

/// Verification state of a credit, as recorded by the registry.  It is
/// flipped only by [`CarbonCreditContract::update_verification`], which
/// the configured verification authority alone may call.
#[derive(Clone, Copy, PartialEq, Eq, Structural, Debug)]
pub enum VerificationStatus {
    Pending,
    Verified,
    Rejected,
}

/// Why a registry operation was refused.  Every failure leaves the
/// registry exactly as it was.
#[derive(Clone, Copy, PartialEq, Eq, Structural, Debug)]
pub enum CreditError {
    /// `initialize` was called on an already-initialized registry.
    AlreadyInitialized,
    /// The named credit does not exist, or has no owner any more.
    NotFound,
    /// The acting identity is not the credit's current owner.
    NotOwner,
    /// Only a credit whose status is `Verified` may be retired.
    NotVerified,
    /// The acting identity is not the configured verification authority.
    NotAuthorized,
}

/// Immutable description of one issued credit, plus its verification
/// status.  `amount_tons` is the quantity of CO2-equivalent tons the
/// credit represents and never changes after issuance.
#[derive(Debug)]
pub struct CreditMetadata {
    pub credit_id: u64,
    pub project_id: String,
    pub project_name: String,
    pub vintage_year: u32,
    pub amount_tons: u64,
    pub verification_status: VerificationStatus,
    pub issuer: Identity,
    pub created_at: u64,
}

/// The registry's whole state: configuration, the metadata of every
/// credit ever issued, and the current-owner map.  Credit ids are
/// assigned from a counter starting at 1 and are never reused.
pub struct CarbonCreditContract {
    inited: bool,
    admin: Identity,
    authority: Identity,
    next_id: u64,
    credits: HashMap<u64, CreditMetadata>,
    owners: HashMap<u64, Identity>,
}

impl CarbonCreditContract {
    /// Whether `initialize` has run.
    pub closed spec fn initialized(self) -> bool {
        self.inited
    }

    /// The administrator recorded at initialization.
    pub closed spec fn admin(self) -> Identity {
        self.admin
    }

    /// The identity trusted to call `update_verification`.
    pub closed spec fn authority(self) -> Identity {
        self.authority
    }

    /// The id the next issuance will return.
    pub closed spec fn next_id(self) -> u64 {
        self.next_id
    }

    /// Whether a credit with this id has been issued.
    pub closed spec fn has_credit(self, credit_id: u64) -> bool {
        self.credits@.contains_key(credit_id)
    }

    /// The metadata of an issued credit.
    pub closed spec fn credit_of(self, credit_id: u64) -> CreditMetadata {
        self.credits@[credit_id]
    }

    /// The current owner of a credit, or `None` if the credit is unknown
    /// or has been retired.
    pub closed spec fn owner_of(self, credit_id: u64) -> Option<Identity> {
        if self.owners@.contains_key(credit_id) {
            Some(self.owners@[credit_id])
        } else {
            None
        }
    }

    /// A credit that was issued but has no owner entry any more is
    /// retired: permanently out of circulation.
    pub open spec fn retired(self, credit_id: u64) -> bool {
        self.has_credit(credit_id) && self.owner_of(credit_id) is None
    }

    /// Well-formedness: ids issued so far are exactly `1 .. next_id`,
    /// each record carries its own id, and only issued credits have an
    /// owner entry.
    pub closed spec fn wf(self) -> bool {
        &&& forall|id: u64| #[trigger] self.credits@.contains_key(id) <==> 1 <= id < self.next_id
        &&& forall|id: u64| #[trigger] self.credits@.contains_key(id)
            ==> self.credits@[id].credit_id == id
        &&& forall|id: u64| #[trigger] self.owners@.contains_key(id)
            ==> self.credits@.contains_key(id)
        &&& self.inited ==> 1 <= self.next_id
        &&& !self.inited ==> self.next_id == 0
    }

    /// A fresh, uninitialized registry with no credits.
    pub fn new() -> (s: Self)
        ensures
            s.wf(),
            !s.initialized(),
            forall|id: u64| !s.has_credit(id),
            forall|id: u64| s.owner_of(id) is None,
    {
        CarbonCreditContract {
            inited: false,
            admin: Identity { id: 0 },
            authority: Identity { id: 0 },
            next_id: 0,
            credits: HashMap::new(),
            owners: HashMap::new(),
        }
    }

    /// Records the administrator and the verification authority and
    /// starts the id counter at 1.  Fails if called twice.
    pub fn initialize(&mut self, admin: Identity, verification_authority: Identity) -> (r: Result<
        (),
        CreditError,
    >)
        requires
            old(self).wf(),
        ensures
            final(self).wf(),
            r is Err <==> old(self).initialized(),
            r is Err ==> r == Err::<(), CreditError>(CreditError::AlreadyInitialized)
                && *final(self) == *old(self),
            r is Ok ==> final(self).initialized() && final(self).admin() == admin
                && final(self).authority() == verification_authority
                && final(self).next_id() == 1,
            r is Ok ==> forall|id: u64| !final(self).has_credit(id),
            r is Ok ==> forall|id: u64| final(self).owner_of(id) is None,
    {
        if self.inited {
            return Err(CreditError::AlreadyInitialized);
        }
        self.inited = true;
        self.admin = admin;
        self.authority = verification_authority;
        self.next_id = 1;
        Ok(())
    }

    /// Issues a new credit to `issuer`: the next id is assigned, the
    /// metadata is stored with status `Pending`, and the issuer becomes
    /// the owner.  `now` is the host clock's current timestamp.
    pub fn issue_credit(
        &mut self,
        issuer: Identity,
        project_id: String,
        project_name: String,
        vintage_year: u32,
        amount_tons: u64,
        now: u64,
    ) -> (credit_id: u64)
        requires
            old(self).wf(),
            old(self).initialized(),
            old(self).next_id() < u64::MAX,
        ensures
            final(self).wf(),
            final(self).initialized(),
            final(self).admin() == old(self).admin(),
            final(self).authority() == old(self).authority(),
            credit_id == old(self).next_id(),
            final(self).next_id() == old(self).next_id() + 1,
            final(self).has_credit(credit_id),
            final(self).credit_of(credit_id) == (CreditMetadata {
                credit_id,
                project_id,
                project_name,
                vintage_year,
                amount_tons,
                verification_status: VerificationStatus::Pending,
                issuer,
                created_at: now,
            }),
            final(self).owner_of(credit_id) == Some(issuer),
            forall|id: u64|
                id != credit_id ==> final(self).has_credit(id) == old(self).has_credit(id),
            forall|id: u64|
                old(self).has_credit(id) ==> final(self).credit_of(id) == old(self).credit_of(id),
            forall|id: u64| id != credit_id ==> final(self).owner_of(id) == old(self).owner_of(id),
            forall|id: u64| old(self).retired(id) ==> final(self).retired(id),
    {
        let credit_id = self.next_id;
        let meta = CreditMetadata {
            credit_id,
            project_id,
            project_name,
            vintage_year,
            amount_tons,
            verification_status: VerificationStatus::Pending,
            issuer,
            created_at: now,
        };
        self.credits.insert(credit_id, meta);
        self.owners.insert(credit_id, issuer);
        self.next_id = credit_id + 1;
        credit_id
    }

    /// Overwrites a credit's verification status.  Only the configured
    /// verification authority may do this; the caller's identity has
    /// already been proven by the host.
    pub fn update_verification(
        &mut self,
        caller: Identity,
        credit_id: u64,
        status: VerificationStatus,
    ) -> (r: Result<(), CreditError>)
        requires
            old(self).wf(),
            old(self).initialized(),
        ensures
            final(self).wf(),
            final(self).initialized(),
            final(self).admin() == old(self).admin(),
            final(self).authority() == old(self).authority(),
            final(self).next_id() == old(self).next_id(),
            r == Err::<(), CreditError>(CreditError::NotAuthorized) <==> caller != old(
                self).authority(),
            r == Err::<(), CreditError>(CreditError::NotFound) <==> caller == old(self).authority()
                && !old(self).has_credit(credit_id),
            r is Ok <==> caller == old(self).authority() && old(self).has_credit(credit_id),
            r is Err ==> *final(self) == *old(self),
            r is Ok ==> final(self).credit_of(credit_id) == (CreditMetadata {
                verification_status: status,
                ..old(self).credit_of(credit_id)
            }),
            forall|id: u64| final(self).has_credit(id) == old(self).has_credit(id),
            r is Ok ==> forall|id: u64|
                id != credit_id ==> final(self).credit_of(id) == old(self).credit_of(id),
            forall|id: u64| final(self).owner_of(id) == old(self).owner_of(id),
            forall|id: u64| old(self).retired(id) ==> final(self).retired(id),
    {
        if caller != self.authority {
            return Err(CreditError::NotAuthorized);
        }
        match self.credits.get(&credit_id) {
            None => Err(CreditError::NotFound),
            Some(m) => {
                let updated = CreditMetadata {
                    credit_id: m.credit_id,
                    project_id: m.project_id.clone(),
                    project_name: m.project_name.clone(),
                    vintage_year: m.vintage_year,
                    amount_tons: m.amount_tons,
                    verification_status: status,
                    issuer: m.issuer,
                    created_at: m.created_at,
                };
                self.credits.insert(credit_id, updated);
                Ok(())
            },
        }
    }

    /// Moves ownership of a credit from `from` to `to`.  Fails with
    /// `NotFound` if the credit has no owner (unknown or retired) and
    /// with `NotOwner` if `from` is not the recorded owner.
    pub fn transfer(&mut self, from: Identity, to: Identity, credit_id: u64) -> (r: Result<
        (),
        CreditError,
    >)
        requires
            old(self).wf(),
        ensures
            final(self).wf(),
            final(self).initialized() == old(self).initialized(),
            final(self).admin() == old(self).admin(),
            final(self).authority() == old(self).authority(),
            final(self).next_id() == old(self).next_id(),
            r == Err::<(), CreditError>(CreditError::NotFound) <==> old(self).owner_of(credit_id)
                is None,
            r == Err::<(), CreditError>(CreditError::NotOwner) <==> (old(self).owner_of(credit_id)
                is Some && old(self).owner_of(credit_id) != Some(from)),
            r is Ok <==> old(self).owner_of(credit_id) == Some(from),
            r is Err ==> *final(self) == *old(self),
            r is Ok ==> final(self).owner_of(credit_id) == Some(to),
            forall|id: u64| id != credit_id ==> final(self).owner_of(id) == old(self).owner_of(id),
            forall|id: u64| final(self).has_credit(id) == old(self).has_credit(id),
            forall|id: u64|
                old(self).has_credit(id) ==> final(self).credit_of(id) == old(self).credit_of(id),
            forall|id: u64| old(self).retired(id) ==> final(self).retired(id),
    {
        let cur_opt = match self.owners.get(&credit_id) {
            Some(o) => Some(*o),
            None => None,
        };
        match cur_opt {
            None => Err(CreditError::NotFound),
            Some(cur) => {
                if cur != from {
                    Err(CreditError::NotOwner)
                } else {
                    self.owners.insert(credit_id, to);
                    Ok(())
                }
            },
        }
    }

    /// Permanently retires a credit: its owner entry is removed and can
    /// never be restored.  Only the current owner of a `Verified` credit
    /// may retire it.
    pub fn retire_credit(&mut self, owner: Identity, credit_id: u64) -> (r: Result<
        (),
        CreditError,
    >)
        requires
            old(self).wf(),
        ensures
            final(self).wf(),
            final(self).initialized() == old(self).initialized(),
            final(self).admin() == old(self).admin(),
            final(self).authority() == old(self).authority(),
            final(self).next_id() == old(self).next_id(),
            r == Err::<(), CreditError>(CreditError::NotFound) <==> old(self).owner_of(credit_id)
                is None,
            r == Err::<(), CreditError>(CreditError::NotOwner) <==> (old(self).owner_of(credit_id)
                is Some && old(self).owner_of(credit_id) != Some(owner)),
            r == Err::<(), CreditError>(CreditError::NotVerified) <==> (old(self).owner_of(
                credit_id,
            ) == Some(owner) && old(self).credit_of(credit_id).verification_status
                != VerificationStatus::Verified),
            r is Ok <==> old(self).owner_of(credit_id) == Some(owner) && old(self).credit_of(
                credit_id,
            ).verification_status == VerificationStatus::Verified,
            r is Err ==> *final(self) == *old(self),
            r is Ok ==> final(self).owner_of(credit_id) is None && final(self).retired(credit_id),
            forall|id: u64| id != credit_id ==> final(self).owner_of(id) == old(self).owner_of(id),
            forall|id: u64| final(self).has_credit(id) == old(self).has_credit(id),
            forall|id: u64|
                old(self).has_credit(id) ==> final(self).credit_of(id) == old(self).credit_of(id),
            forall|id: u64| old(self).retired(id) ==> final(self).retired(id),
    {
        let cur_opt = match self.owners.get(&credit_id) {
            Some(o) => Some(*o),
            None => None,
        };
        match cur_opt {
            None => Err(CreditError::NotFound),
            Some(cur) => {
                if cur != owner {
                    Err(CreditError::NotOwner)
                } else {
                    let verified = match self.credits.get(&credit_id) {
                        Some(m) => m.verification_status == VerificationStatus::Verified,
                        None => {
                            proof {
                                assert(false);
                            }
                            false
                        },
                    };
                    if !verified {
                        Err(CreditError::NotVerified)
                    } else {
                        self.owners.remove(&credit_id);
                        Ok(())
                    }
                }
            },
        }
    }

    /// Returns a copy of a credit's metadata, or `NotFound`.
    pub fn get_credit(&self, credit_id: u64) -> (r: Result<CreditMetadata, CreditError>)
        ensures
            r is Ok <==> self.has_credit(credit_id),
            match r {
                Ok(m) => m == self.credit_of(credit_id),
                Err(e) => e == CreditError::NotFound,
            },
    {
        match self.credits.get(&credit_id) {
            None => Err(CreditError::NotFound),
            Some(m) => Ok(
                CreditMetadata {
                    credit_id: m.credit_id,
                    project_id: m.project_id.clone(),
                    project_name: m.project_name.clone(),
                    vintage_year: m.vintage_year,
                    amount_tons: m.amount_tons,
                    verification_status: m.verification_status,
                    issuer: m.issuer,
                    created_at: m.created_at,
                },
            ),
        }
    }

    /// The current owner, or `None` for an unknown or retired credit.
    /// Absence is meaningful here, not an error.
    pub fn get_owner(&self, credit_id: u64) -> (r: Option<Identity>)
        ensures
            r == self.owner_of(credit_id),
    {
        match self.owners.get(&credit_id) {
            Some(o) => Some(*o),
            None => None,
        }
    }

    /// Whether a credit's status is `Verified`, or `NotFound`.
    pub fn is_verified(&self, credit_id: u64) -> (r: Result<bool, CreditError>)
        ensures
            r is Ok <==> self.has_credit(credit_id),
            match r {
                Ok(b) => b == (self.credit_of(credit_id).verification_status
                    == VerificationStatus::Verified),
                Err(e) => e == CreditError::NotFound,
            },
    {
        match self.credits.get(&credit_id) {
            None => Err(CreditError::NotFound),
            Some(m) => Ok(m.verification_status == VerificationStatus::Verified),
        }
    }
}

/// Law: sequential issuances return strictly increasing credit ids,
/// and the first id an initialized registry hands out is at least 1.
/// The states `s0`, `s1`, `s2` are the registry before, between and
/// after two issuances whose results are `id1` and `id2`, related as
/// `issue_credit`'s contract states.
pub proof fn lemma_issue_ids_strictly_increase(
    s0: CarbonCreditContract,
    id1: u64,
    s1: CarbonCreditContract,
    id2: u64,
    s2: CarbonCreditContract,
)
    requires
        s0.wf(),
        s0.initialized(),
        id1 == s0.next_id(),
        s1.next_id() == s0.next_id() + 1,
        id2 == s1.next_id(),
        s2.next_id() == s1.next_id() + 1,
    ensures
        1 <= id1,
        id1 < id2,
{
}

} // verus!
