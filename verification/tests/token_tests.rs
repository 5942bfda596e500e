use carbon_market::token::{TokenError, TokenLedger};
use carbon_market::Identity;

fn ident(id: u64) -> Identity {
    Identity { id }
}

#[test]
fn test_mint_and_balance() {
    let mut ledger = TokenLedger::new();
    let holder = ident(1);
    assert_eq!(ledger.balance(holder), 0);
    ledger.mint(holder, 500).unwrap();
    assert_eq!(ledger.balance(holder), 500);
    ledger.mint(holder, 250).unwrap();
    assert_eq!(ledger.balance(holder), 750);
    assert_eq!(ledger.mint(holder, -1), Err(TokenError::NegativeAmount));
    assert_eq!(ledger.mint(holder, i128::MAX), Err(TokenError::BalanceOverflow));
    assert_eq!(ledger.balance(holder), 750);
}

#[test]
fn test_transfer_moves_funds() {
    let mut ledger = TokenLedger::new();
    let from = ident(1);
    let to = ident(2);
    ledger.mint(from, 100).unwrap();
    ledger.transfer(from, to, 60).unwrap();
    assert_eq!(ledger.balance(from), 40);
    assert_eq!(ledger.balance(to), 60);
    // A self-transfer settles and changes nothing.
    ledger.transfer(from, from, 40).unwrap();
    assert_eq!(ledger.balance(from), 40);
}

#[test]
fn test_transfer_failures_change_nothing() {
    let mut ledger = TokenLedger::new();
    let from = ident(1);
    let to = ident(2);
    ledger.mint(from, 100).unwrap();
    assert_eq!(ledger.transfer(from, to, -5), Err(TokenError::NegativeAmount));
    assert_eq!(ledger.transfer(from, to, 101), Err(TokenError::InsufficientBalance));
    ledger.mint(to, i128::MAX).unwrap();
    assert_eq!(ledger.transfer(from, to, 1), Err(TokenError::BalanceOverflow));
    assert_eq!(ledger.balance(from), 100);
    assert_eq!(ledger.balance(to), i128::MAX);
}
