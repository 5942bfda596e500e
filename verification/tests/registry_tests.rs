use carbon_market::registry::{CarbonCreditContract, CreditError, VerificationStatus};
use carbon_market::Identity;

fn ident(id: u64) -> Identity {
    Identity { id }
}

#[test]
fn test_issue_and_get_credit() {
    let mut registry = CarbonCreditContract::new();

    let admin = ident(1);
    let issuer = ident(2);
    let verification_contract = ident(3);

    registry.initialize(admin, verification_contract).unwrap();

    let credit_id = registry.issue_credit(
        issuer,
        "PROJ-001".to_string(),
        "Solar Farm Project".to_string(),
        2024,
        1000,
        0,
    );

    assert_eq!(credit_id, 1);

    let metadata = registry.get_credit(credit_id).unwrap();
    assert_eq!(metadata.amount_tons, 1000);
    assert_eq!(metadata.vintage_year, 2024);
    assert_eq!(metadata.verification_status, VerificationStatus::Pending);

    let owner = registry.get_owner(credit_id);
    assert_eq!(owner, Some(issuer));
}

#[test]
fn test_transfer_credit() {
    let mut registry = CarbonCreditContract::new();

    let admin = ident(1);
    let issuer = ident(2);
    let buyer = ident(3);
    let verification_contract = ident(4);

    registry.initialize(admin, verification_contract).unwrap();

    let credit_id = registry.issue_credit(
        issuer,
        "PROJ-001".to_string(),
        "Wind Farm".to_string(),
        2024,
        500,
        0,
    );

    registry.transfer(issuer, buyer, credit_id).unwrap();

    let owner = registry.get_owner(credit_id);
    assert_eq!(owner, Some(buyer));
}

#[test]
fn test_verification_update() {
    let mut registry = CarbonCreditContract::new();

    let admin = ident(1);
    let issuer = ident(2);
    let verification_contract = ident(3);

    registry.initialize(admin, verification_contract).unwrap();

    let credit_id = registry.issue_credit(
        issuer,
        "PROJ-001".to_string(),
        "Reforestation".to_string(),
        2024,
        2000,
        0,
    );

    registry
        .update_verification(verification_contract, credit_id, VerificationStatus::Verified)
        .unwrap();

    assert!(registry.is_verified(credit_id).unwrap());
}

#[test]
fn test_initialize_twice_fails() {
    let mut registry = CarbonCreditContract::new();
    registry.initialize(ident(1), ident(2)).unwrap();
    let second = registry.initialize(ident(1), ident(2));
    assert_eq!(second, Err(CreditError::AlreadyInitialized));
}

#[test]
fn test_credit_ids_increase_sequentially() {
    let mut registry = CarbonCreditContract::new();
    registry.initialize(ident(1), ident(2)).unwrap();
    let issuer = ident(3);
    let first = registry.issue_credit(issuer, "A".to_string(), "A".to_string(), 2020, 1, 0);
    let second = registry.issue_credit(issuer, "B".to_string(), "B".to_string(), 2021, 2, 0);
    let third = registry.issue_credit(issuer, "C".to_string(), "C".to_string(), 2022, 3, 0);
    assert_eq!(first, 1);
    assert_eq!(second, 2);
    assert_eq!(third, 3);
}

#[test]
fn test_retire_unverified_fails() {
    let mut registry = CarbonCreditContract::new();
    let authority = ident(2);
    registry.initialize(ident(1), authority).unwrap();
    let issuer = ident(3);
    let credit_id =
        registry.issue_credit(issuer, "P".to_string(), "P".to_string(), 2024, 10, 0);

    // Still Pending: retirement is refused.
    assert_eq!(registry.retire_credit(issuer, credit_id), Err(CreditError::NotVerified));

    // Rejected is just as unacceptable as Pending.
    registry
        .update_verification(authority, credit_id, VerificationStatus::Rejected)
        .unwrap();
    assert_eq!(registry.retire_credit(issuer, credit_id), Err(CreditError::NotVerified));

    // Only Verified allows retirement.
    registry
        .update_verification(authority, credit_id, VerificationStatus::Verified)
        .unwrap();
    registry.retire_credit(issuer, credit_id).unwrap();
    assert_eq!(registry.get_owner(credit_id), None);
}

#[test]
fn test_transfer_by_non_owner_fails() {
    let mut registry = CarbonCreditContract::new();
    registry.initialize(ident(1), ident(2)).unwrap();
    let issuer = ident(3);
    let stranger = ident(4);
    let credit_id =
        registry.issue_credit(issuer, "P".to_string(), "P".to_string(), 2024, 10, 0);

    assert_eq!(registry.transfer(stranger, ident(5), credit_id), Err(CreditError::NotOwner));
    assert_eq!(registry.retire_credit(stranger, credit_id), Err(CreditError::NotOwner));
    // An id that was never issued has no owner at all.
    assert_eq!(registry.transfer(issuer, ident(5), 99), Err(CreditError::NotFound));
    assert_eq!(registry.retire_credit(issuer, 99), Err(CreditError::NotFound));
}

#[test]
fn test_retired_credit_stays_retired() {
    let mut registry = CarbonCreditContract::new();
    let authority = ident(2);
    registry.initialize(ident(1), authority).unwrap();
    let issuer = ident(3);
    let credit_id =
        registry.issue_credit(issuer, "P".to_string(), "P".to_string(), 2024, 10, 0);
    registry
        .update_verification(authority, credit_id, VerificationStatus::Verified)
        .unwrap();
    registry.retire_credit(issuer, credit_id).unwrap();

    assert_eq!(registry.get_owner(credit_id), None);
    assert_eq!(registry.get_owner(credit_id), None);
    // A retired credit can be neither transferred nor retired again.
    assert_eq!(registry.transfer(issuer, ident(4), credit_id), Err(CreditError::NotFound));
    assert_eq!(registry.retire_credit(issuer, credit_id), Err(CreditError::NotFound));
    // Its metadata is still on record.
    assert_eq!(registry.get_credit(credit_id).unwrap().amount_tons, 10);
    assert_eq!(registry.get_owner(credit_id), None);
}

#[test]
fn test_queries_on_unknown_credit() {
    let mut registry = CarbonCreditContract::new();
    registry.initialize(ident(1), ident(2)).unwrap();
    assert_eq!(registry.get_credit(7).unwrap_err(), CreditError::NotFound);
    assert_eq!(registry.is_verified(7).unwrap_err(), CreditError::NotFound);
    assert_eq!(registry.get_owner(7), None);
}

#[test]
fn test_update_verification_wrong_caller() {
    let mut registry = CarbonCreditContract::new();
    let authority = ident(2);
    registry.initialize(ident(1), authority).unwrap();
    let issuer = ident(3);
    let credit_id =
        registry.issue_credit(issuer, "P".to_string(), "P".to_string(), 2024, 10, 0);
    // Not even the admin may flip the flag: only the configured authority.
    assert_eq!(
        registry.update_verification(ident(1), credit_id, VerificationStatus::Verified),
        Err(CreditError::NotAuthorized)
    );
    // The authority on an unknown credit gets NotFound.
    assert_eq!(
        registry.update_verification(authority, 42, VerificationStatus::Verified),
        Err(CreditError::NotFound)
    );
    assert!(!registry.is_verified(credit_id).unwrap());
}
