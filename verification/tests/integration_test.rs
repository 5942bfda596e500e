//! The whole lifecycle in one pass: issue, verify, list, buy, retire.

use carbon_market::market::{ListingStatus, MarketplaceContract};
use carbon_market::registry::{CarbonCreditContract, VerificationStatus};
use carbon_market::token::TokenLedger;
use carbon_market::verification::{RequestStatus, VerificationContract};
use carbon_market::Identity;

#[test]
fn test_full_carbon_credit_workflow() {
    // Actors, and identities standing for the deployed components.
    let admin = Identity { id: 1 };
    let issuer = Identity { id: 2 };
    let verifier = Identity { id: 3 };
    let buyer = Identity { id: 4 };
    let carbon_credit_id = Identity { id: 10 };
    let verification_id = Identity { id: 11 };
    let payment_token = Identity { id: 12 };

    // Payment asset, funded for the buyer.
    let mut ledger = TokenLedger::new();
    ledger.mint(buyer, 1000000).unwrap();

    // Initialize the three components.
    let mut registry = CarbonCreditContract::new();
    let mut workflow = VerificationContract::new();
    let mut market = MarketplaceContract::new();
    registry.initialize(admin, verification_id).unwrap();
    workflow.initialize(admin, carbon_credit_id).unwrap();
    market.initialize(admin, carbon_credit_id, payment_token, 250).unwrap();

    // Step 1: issue a carbon credit.
    let credit_id = registry.issue_credit(
        issuer,
        "WIND-2024-001".to_string(),
        "Texas Wind Farm Project".to_string(),
        2024,
        5000,
        0,
    );
    let credit = registry.get_credit(credit_id).unwrap();
    assert_eq!(credit.amount_tons, 5000);
    assert_eq!(credit.vintage_year, 2024);

    // Step 2: roster a verifier.
    workflow.add_verifier(admin, verifier).unwrap();
    assert!(workflow.is_verifier(verifier));

    // Step 3: submit the verification request.
    workflow.submit_verification(
        issuer,
        credit_id,
        "WIND-2024-001".to_string(),
        "https://evidence.example.com/wind-001".to_string(),
    );
    let request = workflow.get_request(credit_id).unwrap();
    assert_eq!(request.status, RequestStatus::Pending);

    // Step 4: assign and approve.
    workflow.assign_verifier(admin, credit_id, verifier).unwrap();
    workflow
        .approve_verification(
            verifier,
            credit_id,
            "Project documentation verified. Wind farm operational.".to_string(),
            1,
        )
        .unwrap();
    let request = workflow.get_request(credit_id).unwrap();
    assert_eq!(request.status, RequestStatus::Approved);

    // Step 5: the verification authority updates the registry's flag.
    registry
        .update_verification(verification_id, credit_id, VerificationStatus::Verified)
        .unwrap();
    assert!(registry.is_verified(credit_id).unwrap());

    // Step 6: list the credit at 50 per ton.
    let listing_id = market.create_listing(issuer, credit_id, 50, 5000, 2).unwrap();
    let listing = market.get_listing(listing_id).unwrap();
    assert_eq!(listing.price_per_ton, 50);
    assert_eq!(listing.status, ListingStatus::Active);

    // Step 7: purchase.  Total 250000; the 2.5 percent fee is 6250.
    let buyer_balance_before = ledger.balance(buyer);
    assert_eq!(buyer_balance_before, 1000000);

    market.buy_credit(&mut registry, &mut ledger, buyer, listing_id).unwrap();

    let listing = market.get_listing(listing_id).unwrap();
    assert_eq!(listing.status, ListingStatus::Sold);

    assert_eq!(ledger.balance(buyer), 750000);
    assert_eq!(ledger.balance(issuer), 243750);
    assert_eq!(ledger.balance(admin), 6250);

    // Step 8: custody moved with the sale.
    let new_owner = registry.get_owner(credit_id);
    assert_eq!(new_owner, Some(buyer));

    // Step 9: the buyer retires the credit for good.
    registry.retire_credit(buyer, credit_id).unwrap();
    let retired_owner = registry.get_owner(credit_id);
    assert_eq!(retired_owner, None);
}
