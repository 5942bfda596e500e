use carbon_market::verification::{RequestStatus, VerificationContract, VerificationError};
use carbon_market::Identity;

fn ident(id: u64) -> Identity {
    Identity { id }
}

#[test]
fn test_initialize_and_add_verifier() {
    let mut workflow = VerificationContract::new();

    let admin = ident(1);
    let carbon_credit_contract = ident(2);
    let verifier = ident(3);

    workflow.initialize(admin, carbon_credit_contract).unwrap();

    workflow.add_verifier(admin, verifier).unwrap();

    assert!(workflow.is_verifier(verifier));

    let verifiers = workflow.get_verifiers();
    assert_eq!(verifiers.len(), 1);
}

#[test]
fn test_submit_and_approve_verification() {
    let mut workflow = VerificationContract::new();

    let admin = ident(1);
    let carbon_credit_contract = ident(2);
    let verifier = ident(3);
    let requester = ident(4);

    workflow.initialize(admin, carbon_credit_contract).unwrap();

    workflow.add_verifier(admin, verifier).unwrap();

    let credit_id = 1u64;
    workflow.submit_verification(
        requester,
        credit_id,
        "PROJ-001".to_string(),
        "https://evidence.example.com/proj001".to_string(),
    );

    workflow.assign_verifier(admin, credit_id, verifier).unwrap();

    workflow
        .approve_verification(
            verifier,
            credit_id,
            "All documentation verified".to_string(),
            0,
        )
        .unwrap();

    let request = workflow.get_request(credit_id).unwrap();
    assert_eq!(request.status, RequestStatus::Approved);
}

#[test]
fn test_reject_verification() {
    let mut workflow = VerificationContract::new();

    let admin = ident(1);
    let carbon_credit_contract = ident(2);
    let verifier = ident(3);
    let requester = ident(4);

    workflow.initialize(admin, carbon_credit_contract).unwrap();

    workflow.add_verifier(admin, verifier).unwrap();

    let credit_id = 2u64;
    workflow.submit_verification(
        requester,
        credit_id,
        "PROJ-002".to_string(),
        "https://evidence.example.com/proj002".to_string(),
    );

    workflow.assign_verifier(admin, credit_id, verifier).unwrap();

    workflow
        .reject_verification(
            verifier,
            credit_id,
            "Insufficient documentation".to_string(),
            0,
        )
        .unwrap();

    let request = workflow.get_request(credit_id).unwrap();
    assert_eq!(request.status, RequestStatus::Rejected);
}

#[test]
fn test_workflow_initialize_twice_fails() {
    let mut workflow = VerificationContract::new();
    workflow.initialize(ident(1), ident(2)).unwrap();
    assert_eq!(
        workflow.initialize(ident(1), ident(2)),
        Err(VerificationError::AlreadyInitialized)
    );
}

#[test]
fn test_add_verifier_not_admin_fails() {
    let mut workflow = VerificationContract::new();
    workflow.initialize(ident(1), ident(2)).unwrap();
    assert_eq!(
        workflow.add_verifier(ident(9), ident(3)),
        Err(VerificationError::NotAuthorized)
    );
    assert_eq!(
        workflow.remove_verifier(ident(9), ident(3)),
        Err(VerificationError::NotAuthorized)
    );
}

#[test]
fn test_remove_verifier_is_idempotent() {
    let mut workflow = VerificationContract::new();
    let admin = ident(1);
    workflow.initialize(admin, ident(2)).unwrap();
    let first = ident(3);
    let second = ident(4);
    workflow.add_verifier(admin, first).unwrap();
    workflow.add_verifier(admin, second).unwrap();

    workflow.remove_verifier(admin, first).unwrap();
    assert!(!workflow.is_verifier(first));
    assert!(workflow.is_verifier(second));
    assert_eq!(workflow.get_verifiers().len(), 1);

    // Removing an identity that is not rostered changes nothing.
    workflow.remove_verifier(admin, first).unwrap();
    assert!(workflow.is_verifier(second));
    assert_eq!(workflow.get_verifiers().len(), 1);
}

#[test]
fn test_assign_requires_request() {
    let mut workflow = VerificationContract::new();
    let admin = ident(1);
    workflow.initialize(admin, ident(2)).unwrap();
    assert_eq!(
        workflow.assign_verifier(admin, 5, ident(3)),
        Err(VerificationError::NotFound)
    );
}

#[test]
fn test_assign_requires_authorization() {
    let mut workflow = VerificationContract::new();
    let admin = ident(1);
    workflow.initialize(admin, ident(2)).unwrap();
    workflow.submit_verification(ident(4), 5, "P".to_string(), "u".to_string());
    // A stranger may not assign; a rostered verifier may.
    assert_eq!(
        workflow.assign_verifier(ident(9), 5, ident(3)),
        Err(VerificationError::NotAuthorized)
    );
    let verifier = ident(3);
    workflow.add_verifier(admin, verifier).unwrap();
    workflow.assign_verifier(verifier, 5, verifier).unwrap();
    let request = workflow.get_request(5).unwrap();
    assert_eq!(request.status, RequestStatus::UnderReview);
    assert_eq!(request.verifier, Some(verifier));
}

#[test]
fn test_decision_by_unassigned_fails() {
    let mut workflow = VerificationContract::new();
    let admin = ident(1);
    let verifier = ident(3);
    let other = ident(7);
    workflow.initialize(admin, ident(2)).unwrap();
    workflow.add_verifier(admin, verifier).unwrap();
    workflow.submit_verification(ident(4), 5, "P".to_string(), "u".to_string());

    // No verifier assigned yet: nobody may decide a Pending request.
    assert_eq!(
        workflow.approve_verification(verifier, 5, "ok".to_string(), 0),
        Err(VerificationError::NotAssignedVerifier)
    );

    workflow.assign_verifier(admin, 5, verifier).unwrap();
    // Only the assigned verifier may decide.
    assert_eq!(
        workflow.approve_verification(other, 5, "ok".to_string(), 0),
        Err(VerificationError::NotAssignedVerifier)
    );
    assert_eq!(
        workflow.reject_verification(other, 5, "no".to_string(), 0),
        Err(VerificationError::NotAssignedVerifier)
    );
    // Deciding an unknown request is NotFound.
    assert_eq!(
        workflow.approve_verification(verifier, 6, "ok".to_string(), 0),
        Err(VerificationError::NotFound)
    );
}

#[test]
fn test_status_progression() {
    let mut workflow = VerificationContract::new();
    let admin = ident(1);
    let verifier = ident(3);
    workflow.initialize(admin, ident(2)).unwrap();
    workflow.add_verifier(admin, verifier).unwrap();

    workflow.submit_verification(ident(4), 8, "P".to_string(), "u".to_string());
    let submitted = workflow.get_request(8).unwrap();
    assert_eq!(submitted.status, RequestStatus::Pending);
    assert_eq!(submitted.verifier, None);
    assert_eq!(submitted.verified_at, None);
    assert_eq!(submitted.notes, "");

    workflow.assign_verifier(admin, 8, verifier).unwrap();
    let under_review = workflow.get_request(8).unwrap();
    assert_eq!(under_review.status, RequestStatus::UnderReview);
    assert_eq!(under_review.verifier, Some(verifier));

    workflow
        .approve_verification(verifier, 8, "fine".to_string(), 42)
        .unwrap();
    let approved = workflow.get_request(8).unwrap();
    assert_eq!(approved.status, RequestStatus::Approved);
    assert_eq!(approved.verified_at, Some(42));
    assert_eq!(approved.notes, "fine");
}

#[test]
fn test_resubmission_resets_request() {
    let mut workflow = VerificationContract::new();
    let admin = ident(1);
    let verifier = ident(3);
    workflow.initialize(admin, ident(2)).unwrap();
    workflow.add_verifier(admin, verifier).unwrap();

    workflow.submit_verification(ident(4), 9, "P1".to_string(), "u1".to_string());
    workflow.assign_verifier(admin, 9, verifier).unwrap();
    workflow
        .reject_verification(verifier, 9, "missing data".to_string(), 5)
        .unwrap();

    // Resubmitting overwrites the rejected request with a fresh one.
    workflow.submit_verification(ident(4), 9, "P1".to_string(), "u2".to_string());
    let fresh = workflow.get_request(9).unwrap();
    assert_eq!(fresh.status, RequestStatus::Pending);
    assert_eq!(fresh.verifier, None);
    assert_eq!(fresh.verified_at, None);
    assert_eq!(fresh.evidence_uri, "u2");
}

#[test]
fn test_get_request_not_found() {
    let workflow = VerificationContract::new();
    assert_eq!(workflow.get_request(1).unwrap_err(), VerificationError::NotFound);
}
