//! A fungible payment ledger: balances per identity, with mint and
//! transfer.
//!
//! This models the payment asset the marketplace settles against.  A
//! transfer either moves the full amount or fails and moves nothing;
//! balances never go negative.

use std::collections::HashMap;
use vstd::prelude::*;

use crate::Identity;

verus! {

broadcast use vstd::std_specs::hash::group_hash_axioms;

/// Why a ledger operation was refused.  Every failure leaves the
/// ledger exactly as it was.
#[derive(Clone, Copy, PartialEq, Eq, Structural, Debug)]
pub enum TokenError {
    /// A negative amount was passed.
    NegativeAmount,
    /// The sender's balance does not cover the amount.
    InsufficientBalance,
    /// The recipient's balance would exceed the representable maximum.
    BalanceOverflow,
}

/// Balances of the payment asset, keyed by identity.  An identity with
/// no entry holds a balance of zero.
pub struct TokenLedger {
    balances: HashMap<u64, i128>,
}

impl TokenLedger {
    /// The balance held by an identity; zero if it holds no entry.
    pub closed spec fn bal(self, a: Identity) -> int {
        if self.balances@.contains_key(a.id) {
            self.balances@[a.id] as int
        } else {
            0
        }
    }

    /// Whether a transfer of `amount` from `from` to `to` can settle:
    /// the amount is non-negative, the sender covers it, and the
    /// recipient's balance stays representable.
    pub open spec fn can_transfer(self, from: Identity, to: Identity, amount: int) -> bool {
        &&& 0 <= amount
        &&& amount <= self.bal(from)
        &&& from == to || self.bal(to) + amount <= i128::MAX
    }

    /// Well-formedness: no recorded balance is negative.
    pub closed spec fn wf(self) -> bool {
        forall|k: u64| #[trigger] self.balances@.contains_key(k) ==> 0 <= self.balances@[k]
    }

    /// A fresh ledger in which every identity holds zero.
    pub fn new() -> (s: Self)
        ensures
            s.wf(),
            forall|a: Identity| s.bal(a) == 0,
    {
        TokenLedger { balances: HashMap::new() }
    }

    /// The balance held by an identity.
    pub fn balance(&self, a: Identity) -> (r: i128)
        ensures
            r as int == self.bal(a),
    {
        match self.balances.get(&a.id) {
            Some(b) => *b,
            None => 0,
        }
    }

    /// Creates `amount` new units on `to`'s balance.
    pub fn mint(&mut self, to: Identity, amount: i128) -> (r: Result<(), TokenError>)
        requires
            old(self).wf(),
        ensures
            final(self).wf(),
            r == Err::<(), TokenError>(TokenError::NegativeAmount) <==> amount < 0,
            r == Err::<(), TokenError>(TokenError::BalanceOverflow) <==> 0 <= amount && old(
                self).bal(to) + amount > i128::MAX,
            r is Ok <==> 0 <= amount && old(self).bal(to) + amount <= i128::MAX,
            r is Err ==> *final(self) == *old(self),
            r is Ok ==> forall|a: Identity|
                final(self).bal(a) == old(self).bal(a) + (if a == to {
                    amount as int
                } else {
                    0
                }),
    {
        if amount < 0 {
            return Err(TokenError::NegativeAmount);
        }
        let cur = self.balance(to);
        match cur.checked_add(amount) {
            None => Err(TokenError::BalanceOverflow),
            Some(nb) => {
                self.balances.insert(to.id, nb);
                Ok(())
            },
        }
    }

    /// Moves `amount` from `from` to `to`: all of it, or nothing.
    pub fn transfer(&mut self, from: Identity, to: Identity, amount: i128) -> (r: Result<
        (),
        TokenError,
    >)
        requires
            old(self).wf(),
        ensures
            final(self).wf(),
            r == Err::<(), TokenError>(TokenError::NegativeAmount) <==> amount < 0,
            r == Err::<(), TokenError>(TokenError::InsufficientBalance) <==> 0 <= amount && old(
                self).bal(from) < amount,
            r == Err::<(), TokenError>(TokenError::BalanceOverflow) <==> 0 <= amount <= old(
                self).bal(from) && from != to && old(self).bal(to) + amount > i128::MAX,
            r is Ok <==> old(self).can_transfer(from, to, amount as int),
            r is Err ==> *final(self) == *old(self),
            r is Ok ==> forall|a: Identity|
                final(self).bal(a) == old(self).bal(a) - (if a == from {
                    amount as int
                } else {
                    0
                }) + (if a == to {
                    amount as int
                } else {
                    0
                }),
    {
        if amount < 0 {
            return Err(TokenError::NegativeAmount);
        }
        let fb = self.balance(from);
        if fb < amount {
            return Err(TokenError::InsufficientBalance);
        }
        if from == to {
            return Ok(());
        }
        let tb = self.balance(to);
        match tb.checked_add(amount) {
            None => Err(TokenError::BalanceOverflow),
            Some(tn) => {
                self.balances.insert(from.id, fb - amount);
                self.balances.insert(to.id, tn);
                Ok(())
            },
        }
    }
}

/// Law: in a well-formed ledger every balance lies in the payment
/// asset's representable range.
pub proof fn lemma_balance_in_range(l: TokenLedger, a: Identity)
    requires
        l.wf(),
    ensures
        0 <= l.bal(a) <= i128::MAX,
{
}

} // verus!
