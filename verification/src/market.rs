//! The marketplace: listings of credits at a fixed per-ton price, and
//! fee-splitting settlement of a sale against the payment ledger.
//!
//! A sale settles atomically: the buyer pays the seller the price net
//! of the marketplace fee, the fee (when positive) goes to the admin,
//! and — when the seller is the recorded owner — custody of the credit
//! passes to the buyer in the registry, all in one operation or not at
//! all.  Listings may be created without an ownership or verification
//! check: that permissive policy is deliberate, and a listing whose
//! seller does not hold the credit settles as payment only.

use std::collections::HashMap;
use vstd::prelude::*;

use crate::registry::CarbonCreditContract;
use crate::token::TokenLedger;
use crate::Identity;

verus! {

broadcast use vstd::std_specs::hash::group_hash_axioms;

/// Lifecycle of a listing.  `Sold` and `Cancelled` are terminal: a
/// listing that has left `Active` never changes again.
#[derive(Clone, Copy, PartialEq, Eq, Structural, Debug)]
pub enum ListingStatus {
    Active,
    Sold,
    Cancelled,
}

/// Why a marketplace operation was refused.  Every failure leaves the
/// marketplace, the registry and the ledger with unchanged balances.
#[derive(Clone, Copy, PartialEq, Eq, Structural, Debug)]
pub enum MarketError {
    /// `initialize` was called on an already-initialized marketplace.
    AlreadyInitialized,
    /// The named listing does not exist.
    NotFound,
    /// A listing's price must be strictly positive.
    InvalidPrice,
    /// A listing's quantity must be strictly positive.
    InvalidAmount,
    /// The acting identity is not the listing's seller.
    NotSeller,
    /// The listing is no longer (or not yet) purchasable.
    ListingNotActive,
    /// The acting identity is not the stored admin.
    NotAuthorized,
    /// The marketplace fee is capped at 1000 basis points.
    FeeTooHigh,
    /// The sale price does not fit the payment asset's arithmetic.
    Overflow,
    /// The payment legs of the sale could not settle.
    PaymentFailed,
}

/// One offer to sell a credit's tonnage at a fixed per-ton price, in
/// the smallest unit of the payment asset.
#[derive(Clone, Copy, PartialEq, Eq, Structural, Debug)]
pub struct Listing {
    pub listing_id: u64,
    pub credit_id: u64,
    pub seller: Identity,
    pub price_per_ton: i128,
    pub amount_tons: u64,
    pub status: ListingStatus,
    pub created_at: u64,
}

/// The full price of a listing: price per ton times tonnage, in exact
/// integer arithmetic.
pub open spec fn total_price(l: Listing) -> int {
    l.price_per_ton * (l.amount_tons as int)
}

/// The marketplace fee on a total: `fee_bps` basis points, rounded
/// down.
pub open spec fn fee_amount(total: int, fee_bps: u32) -> int {
    total * (fee_bps as int) / 10000
}

/// Whether settling this listing would leave the payment asset's
/// arithmetic range: the total must fit a signed 128-bit amount and
/// the fee numerator an unsigned one.
pub open spec fn settlement_overflows(l: Listing, fee_bps: u32) -> bool {
    ||| total_price(l) > i128::MAX
    ||| total_price(l) * (fee_bps as int) > u128::MAX
}

/// An identity's balance after the seller leg of a sale: the buyer has
/// paid `seller_amount` to the seller.
pub open spec fn bal_after_seller_leg(
    led: TokenLedger,
    buyer: Identity,
    seller: Identity,
    seller_amount: int,
    a: Identity,
) -> int {
    led.bal(a) - (if a == buyer {
        seller_amount
    } else {
        0
    }) + (if a == seller {
        seller_amount
    } else {
        0
    })
}

/// Whether both payment legs of a sale can settle on this ledger: the
/// seller leg as a transfer, and then — when a fee is due — the fee leg
/// from the buyer's remaining balance to the admin.
pub open spec fn settlement_pays(
    led: TokenLedger,
    buyer: Identity,
    seller: Identity,
    admin: Identity,
    seller_amount: int,
    fee: int,
) -> bool {
    &&& led.can_transfer(buyer, seller, seller_amount)
    &&& fee > 0 ==> {
        &&& bal_after_seller_leg(led, buyer, seller, seller_amount, buyer) >= fee
        &&& buyer == admin || bal_after_seller_leg(led, buyer, seller, seller_amount, admin) + fee
            <= i128::MAX
    }
}

/// The sequence with every occurrence of `x` removed, order otherwise
/// kept.
pub open spec fn seq_remove_id(s: Seq<u64>, x: u64) -> Seq<u64> {
    s.filter(|v: u64| v != x)
}

/// The marketplace's whole state: configuration, every listing ever
/// created, and the ids of the listings currently purchasable.
pub struct MarketplaceContract {
    inited: bool,
    admin: Identity,
    credit_registry: Identity,
    payment_token: Identity,
    fee_bps: u32,
    next_listing_id: u64,
    listings: HashMap<u64, Listing>,
    active: Vec<u64>,
}

impl MarketplaceContract {
    /// Whether `initialize` has run.
    pub closed spec fn initialized(self) -> bool {
        self.inited
    }

    /// The administrator, who collects the marketplace fee.
    pub closed spec fn admin(self) -> Identity {
        self.admin
    }

    /// The credit registry sales settle against.
    pub closed spec fn registry_ref(self) -> Identity {
        self.credit_registry
    }

    /// The payment asset listings are priced in.
    pub closed spec fn payment_token(self) -> Identity {
        self.payment_token
    }

    /// The marketplace fee in basis points.
    pub closed spec fn fee_bps(self) -> u32 {
        self.fee_bps
    }

    /// The id the next listing will receive.
    pub closed spec fn next_listing_id(self) -> u64 {
        self.next_listing_id
    }

    /// Whether a listing with this id has been created.
    pub closed spec fn has_listing(self, listing_id: u64) -> bool {
        self.listings@.contains_key(listing_id)
    }

    /// The listing recorded under this id.
    pub closed spec fn listing_of(self, listing_id: u64) -> Listing {
        self.listings@[listing_id]
    }

    /// The ids of the currently purchasable listings, oldest first.
    pub closed spec fn active_ids(self) -> Seq<u64> {
        self.active@
    }

    /// Well-formedness: ids created so far are exactly
    /// `1 .. next_listing_id`, each record carries its own id and a
    /// positive price and quantity, and the active list holds exactly
    /// the ids whose listing is `Active`.
    pub closed spec fn wf(self) -> bool {
        &&& forall|id: u64| #[trigger]
            self.listings@.contains_key(id) <==> 1 <= id < self.next_listing_id
        &&& forall|id: u64| #[trigger]
            self.listings@.contains_key(id) ==> self.listings@[id].listing_id == id
                && self.listings@[id].price_per_ton > 0 && self.listings@[id].amount_tons > 0
        &&& forall|i: int|
            0 <= i < self.active@.len() ==> self.listings@.contains_key(
                #[trigger] self.active@[i],
            ) && self.listings@[self.active@[i]].status == ListingStatus::Active
        &&& forall|id: u64| #[trigger]
            self.listings@.contains_key(id) && self.listings@[id].status == ListingStatus::Active
                ==> self.active@.contains(id)
        &&& self.inited ==> 1 <= self.next_listing_id
        &&& !self.inited ==> self.next_listing_id == 0
    }

    /// A fresh, uninitialized marketplace with no listings.
    pub fn new() -> (s: Self)
        ensures
            s.wf(),
            !s.initialized(),
            forall|id: u64| !s.has_listing(id),
            s.active_ids() == Seq::<u64>::empty(),
    {
        MarketplaceContract {
            inited: false,
            admin: Identity { id: 0 },
            credit_registry: Identity { id: 0 },
            payment_token: Identity { id: 0 },
            fee_bps: 0,
            next_listing_id: 0,
            listings: HashMap::new(),
            active: Vec::new(),
        }
    }

    /// Records the configuration and starts the id counter at 1.  Fails
    /// if called twice.  The fee is deliberately not validated here:
    /// only later `update_marketplace_fee` calls are held to the cap.
    pub fn initialize(
        &mut self,
        admin: Identity,
        credit_registry: Identity,
        payment_token: Identity,
        marketplace_fee: u32,
    ) -> (r: Result<(), MarketError>)
        requires
            old(self).wf(),
        ensures
            final(self).wf(),
            r is Err <==> old(self).initialized(),
            r is Err ==> r == Err::<(), MarketError>(MarketError::AlreadyInitialized) && *final(
                self) == *old(self),
            r is Ok ==> final(self).initialized() && final(self).admin() == admin
                && final(self).registry_ref() == credit_registry
                && final(self).payment_token() == payment_token
                && final(self).fee_bps() == marketplace_fee
                && final(self).next_listing_id() == 1
                && final(self).active_ids() == Seq::<u64>::empty(),
            r is Ok ==> forall|id: u64| !final(self).has_listing(id),
    {
        if self.inited {
            return Err(MarketError::AlreadyInitialized);
        }
        self.inited = true;
        self.admin = admin;
        self.credit_registry = credit_registry;
        self.payment_token = payment_token;
        self.fee_bps = marketplace_fee;
        self.next_listing_id = 1;
        proof {
            if self.active@.len() > 0 {
                assert(self.listings@.contains_key(self.active@[0]));
            }
            assert(self.active@ =~= Seq::<u64>::empty());
        }
        Ok(())
    }

    /// Creates a listing for `credit_id` at a strictly positive price
    /// and quantity.  Whether the seller owns or has verified the
    /// credit is deliberately not checked here.
    pub fn create_listing(
        &mut self,
        seller: Identity,
        credit_id: u64,
        price_per_ton: i128,
        amount_tons: u64,
        now: u64,
    ) -> (r: Result<u64, MarketError>)
        requires
            old(self).wf(),
            old(self).initialized(),
            old(self).next_listing_id() < u64::MAX,
        ensures
            final(self).wf(),
            final(self).initialized(),
            final(self).admin() == old(self).admin(),
            final(self).registry_ref() == old(self).registry_ref(),
            final(self).payment_token() == old(self).payment_token(),
            final(self).fee_bps() == old(self).fee_bps(),
            r == Err::<u64, MarketError>(MarketError::InvalidPrice) <==> price_per_ton <= 0,
            r == Err::<u64, MarketError>(MarketError::InvalidAmount) <==> price_per_ton > 0
                && amount_tons == 0,
            r is Ok <==> price_per_ton > 0 && amount_tons > 0,
            r is Err ==> *final(self) == *old(self),
            r is Ok ==> r == Ok::<u64, MarketError>(old(self).next_listing_id()) && final(
                self).next_listing_id() == old(self).next_listing_id() + 1,
            r is Ok ==> final(self).has_listing(old(self).next_listing_id()) && final(
                self).listing_of(old(self).next_listing_id()) == (Listing {
                listing_id: old(self).next_listing_id(),
                credit_id,
                seller,
                price_per_ton,
                amount_tons,
                status: ListingStatus::Active,
                created_at: now,
            }),
            r is Ok ==> final(self).active_ids() == old(self).active_ids().push(
                old(self).next_listing_id(),
            ),
            r is Ok ==> forall|id: u64|
                id != old(self).next_listing_id() ==> final(self).has_listing(id) == old(
                    self).has_listing(id),
            forall|id: u64|
                old(self).has_listing(id) ==> final(self).listing_of(id) == old(self).listing_of(
                    id,
                ),
            forall|id: u64|
                old(self).has_listing(id) && old(self).listing_of(id).status
                    != ListingStatus::Active ==> final(self).listing_of(id) == old(
                    self).listing_of(id),
    {
        if price_per_ton <= 0 {
            return Err(MarketError::InvalidPrice);
        }
        if amount_tons == 0 {
            return Err(MarketError::InvalidAmount);
        }
        let listing_id = self.next_listing_id;
        let listing = Listing {
            listing_id,
            credit_id,
            seller,
            price_per_ton,
            amount_tons,
            status: ListingStatus::Active,
            created_at: now,
        };
        self.listings.insert(listing_id, listing);
        self.active.push(listing_id);
        self.next_listing_id = listing_id + 1;
        proof {
            let post = self.active@;
            let pre = old(self).active@;
            assert forall|id: u64|
                self.listings@.contains_key(id) && self.listings@[id].status
                    == ListingStatus::Active implies post.contains(id) by {
                if id == listing_id {
                    assert(post[post.len() - 1] == id);
                } else {
                    let i = choose|i: int| 0 <= i < pre.len() && pre[i] == id;
                    assert(post[i] == id);
                }
            }
        }
        Ok(listing_id)
    }

    /// Settles a sale atomically.  The buyer pays `total_price` split
    /// into the seller's share and the admin's fee; when the seller is
    /// the recorded owner of the credit, custody passes to the buyer in
    /// the same operation.  On any failure nothing changes: a failing
    /// fee leg is compensated by returning the seller leg.
    pub fn buy_credit(
        &mut self,
        registry: &mut CarbonCreditContract,
        ledger: &mut TokenLedger,
        buyer: Identity,
        listing_id: u64,
    ) -> (r: Result<(), MarketError>)
        requires
            old(self).wf(),
            old(self).initialized(),
            old(registry).wf(),
            old(ledger).wf(),
        ensures
            final(self).wf(),
            final(registry).wf(),
            final(ledger).wf(),
            final(self).initialized(),
            final(self).admin() == old(self).admin(),
            final(self).registry_ref() == old(self).registry_ref(),
            final(self).payment_token() == old(self).payment_token(),
            final(self).fee_bps() == old(self).fee_bps(),
            final(self).next_listing_id() == old(self).next_listing_id(),
            r == Err::<(), MarketError>(MarketError::NotFound) <==> !old(self).has_listing(
                listing_id,
            ),
            r == Err::<(), MarketError>(MarketError::ListingNotActive) <==> old(self).has_listing(
                listing_id,
            ) && old(self).listing_of(listing_id).status != ListingStatus::Active,
            r == Err::<(), MarketError>(MarketError::Overflow) <==> old(self).has_listing(
                listing_id,
            ) && old(self).listing_of(listing_id).status == ListingStatus::Active
                && settlement_overflows(old(self).listing_of(listing_id), old(self).fee_bps()),
            r == Err::<(), MarketError>(MarketError::PaymentFailed) <==> old(self).has_listing(
                listing_id,
            ) && old(self).listing_of(listing_id).status == ListingStatus::Active
                && !settlement_overflows(old(self).listing_of(listing_id), old(self).fee_bps())
                && !settlement_pays(
                *old(ledger),
                buyer,
                old(self).listing_of(listing_id).seller,
                old(self).admin(),
                total_price(old(self).listing_of(listing_id)) - fee_amount(
                    total_price(old(self).listing_of(listing_id)),
                    old(self).fee_bps(),
                ),
                fee_amount(total_price(old(self).listing_of(listing_id)), old(self).fee_bps()),
            ),
            r is Ok <==> old(self).has_listing(listing_id) && old(self).listing_of(
                listing_id,
            ).status == ListingStatus::Active && !settlement_overflows(
                old(self).listing_of(listing_id),
                old(self).fee_bps(),
            ) && settlement_pays(
                *old(ledger),
                buyer,
                old(self).listing_of(listing_id).seller,
                old(self).admin(),
                total_price(old(self).listing_of(listing_id)) - fee_amount(
                    total_price(old(self).listing_of(listing_id)),
                    old(self).fee_bps(),
                ),
                fee_amount(total_price(old(self).listing_of(listing_id)), old(self).fee_bps()),
            ),
            r is Err ==> *final(self) == *old(self) && *final(registry) == *old(registry),
            r is Err ==> forall|a: Identity| final(ledger).bal(a) == old(ledger).bal(a),
            r is Ok ==> forall|a: Identity|
                final(ledger).bal(a) == old(ledger).bal(a) - (if a == buyer {
                    total_price(old(self).listing_of(listing_id))
                } else {
                    0
                }) + (if a == old(self).listing_of(listing_id).seller {
                    total_price(old(self).listing_of(listing_id)) - fee_amount(
                        total_price(old(self).listing_of(listing_id)),
                        old(self).fee_bps(),
                    )
                } else {
                    0
                }) + (if a == old(self).admin() {
                    fee_amount(total_price(old(self).listing_of(listing_id)), old(self).fee_bps())
                } else {
                    0
                }),
            r is Ok ==> final(self).listing_of(listing_id) == (Listing {
                status: ListingStatus::Sold,
                ..old(self).listing_of(listing_id)
            }),
            r is Ok ==> final(self).active_ids() == seq_remove_id(
                old(self).active_ids(),
                listing_id,
            ),
            r is Ok ==> (if old(registry).owner_of(old(self).listing_of(listing_id).credit_id)
                == Some(old(self).listing_of(listing_id).seller) {
                final(registry).owner_of(old(self).listing_of(listing_id).credit_id) == Some(buyer)
            } else {
                *final(registry) == *old(registry)
            }),
            forall|id: u64| final(self).has_listing(id) == old(self).has_listing(id),
            r is Ok ==> forall|id: u64|
                id != listing_id && old(self).has_listing(id) ==> final(self).listing_of(id) == old(
                    self).listing_of(id),
            forall|id: u64|
                old(self).has_listing(id) && old(self).listing_of(id).status
                    != ListingStatus::Active ==> final(self).listing_of(id) == old(
                    self).listing_of(id),
            forall|id: u64|
                final(registry).has_credit(id) == old(registry).has_credit(id) && (old(
                    registry).has_credit(id) ==> final(registry).credit_of(id) == old(
                    registry).credit_of(id)),
            forall|id: u64|
                id != old(self).listing_of(listing_id).credit_id ==> final(registry).owner_of(id)
                    == old(registry).owner_of(id),
            forall|id: u64| old(registry).retired(id) ==> final(registry).retired(id),
            final(registry).initialized() == old(registry).initialized(),
            final(registry).admin() == old(registry).admin(),
            final(registry).authority() == old(registry).authority(),
            final(registry).next_id() == old(registry).next_id(),
    {
        let l = match self.listings.get(&listing_id) {
            None => {
                return Err(MarketError::NotFound);
            },
            Some(l) => *l,
        };
        if l.status != ListingStatus::Active {
            return Err(MarketError::ListingNotActive);
        }
        let total = match l.price_per_ton.checked_mul(l.amount_tons as i128) {
            None => {
                return Err(MarketError::Overflow);
            },
            Some(t) => t,
        };
        let numerator = match (total as u128).checked_mul(self.fee_bps as u128) {
            None => {
                return Err(MarketError::Overflow);
            },
            Some(p) => p,
        };
        let fee_wide = numerator / 10000u128;
        proof {
            vstd::arithmetic::div_mod::lemma_div_is_ordered(
                numerator as int,
                u128::MAX as int,
                10000,
            );
        }
        let fee = fee_wide as i128;
        let seller_amount = total - fee;
        let seller = l.seller;
        let admin = self.admin;
        match ledger.transfer(buyer, seller, seller_amount) {
            Err(_) => {
                return Err(MarketError::PaymentFailed);
            },
            Ok(()) => {},
        }
        if fee > 0 {
            match ledger.transfer(buyer, admin, fee) {
                Err(_) => {
                    proof {
                        crate::token::lemma_balance_in_range(*old(ledger), seller);
                        crate::token::lemma_balance_in_range(*old(ledger), buyer);
                    }
                    let back = ledger.transfer(seller, buyer, seller_amount);
                    proof {
                        assert(back is Ok);
                    }
                    return Err(MarketError::PaymentFailed);
                },
                Ok(()) => {},
            }
        }
        let owner_now = registry.get_owner(l.credit_id);
        let seller_owns = match owner_now {
            Some(o) => o == seller,
            None => false,
        };
        if seller_owns {
            let moved = registry.transfer(seller, buyer, l.credit_id);
            proof {
                assert(moved is Ok);
            }
        }
        let sold = Listing { status: ListingStatus::Sold, ..l };
        self.listings.insert(listing_id, sold);
        self.remove_from_active_listings(listing_id);
        proof {
            self.lemma_active_consistent_after_close(*old(self), listing_id);
        }
        Ok(())
    }

    /// Cancels an active listing.  Only its seller may do so.
    pub fn cancel_listing(&mut self, seller: Identity, listing_id: u64) -> (r: Result<
        (),
        MarketError,
    >)
        requires
            old(self).wf(),
            old(self).initialized(),
        ensures
            final(self).wf(),
            final(self).initialized(),
            final(self).admin() == old(self).admin(),
            final(self).registry_ref() == old(self).registry_ref(),
            final(self).payment_token() == old(self).payment_token(),
            final(self).fee_bps() == old(self).fee_bps(),
            final(self).next_listing_id() == old(self).next_listing_id(),
            r == Err::<(), MarketError>(MarketError::NotFound) <==> !old(self).has_listing(
                listing_id,
            ),
            r == Err::<(), MarketError>(MarketError::NotSeller) <==> old(self).has_listing(
                listing_id,
            ) && old(self).listing_of(listing_id).seller != seller,
            r == Err::<(), MarketError>(MarketError::ListingNotActive) <==> old(self).has_listing(
                listing_id,
            ) && old(self).listing_of(listing_id).seller == seller && old(self).listing_of(
                listing_id,
            ).status != ListingStatus::Active,
            r is Ok <==> old(self).has_listing(listing_id) && old(self).listing_of(
                listing_id,
            ).seller == seller && old(self).listing_of(listing_id).status == ListingStatus::Active,
            r is Err ==> *final(self) == *old(self),
            r is Ok ==> final(self).listing_of(listing_id) == (Listing {
                status: ListingStatus::Cancelled,
                ..old(self).listing_of(listing_id)
            }),
            r is Ok ==> final(self).active_ids() == seq_remove_id(
                old(self).active_ids(),
                listing_id,
            ),
            forall|id: u64| final(self).has_listing(id) == old(self).has_listing(id),
            r is Ok ==> forall|id: u64|
                id != listing_id && old(self).has_listing(id) ==> final(self).listing_of(id) == old(
                    self).listing_of(id),
            forall|id: u64|
                old(self).has_listing(id) && old(self).listing_of(id).status
                    != ListingStatus::Active ==> final(self).listing_of(id) == old(
                    self).listing_of(id),
    {
        let l = match self.listings.get(&listing_id) {
            None => {
                return Err(MarketError::NotFound);
            },
            Some(l) => *l,
        };
        if l.seller != seller {
            return Err(MarketError::NotSeller);
        }
        if l.status != ListingStatus::Active {
            return Err(MarketError::ListingNotActive);
        }
        let cancelled = Listing { status: ListingStatus::Cancelled, ..l };
        self.listings.insert(listing_id, cancelled);
        self.remove_from_active_listings(listing_id);
        proof {
            self.lemma_active_consistent_after_close(*old(self), listing_id);
        }
        Ok(())
    }

    /// Changes the price of an active listing.  Only its seller may do
    /// so, and only to a strictly positive price.
    pub fn update_price(&mut self, seller: Identity, listing_id: u64, new_price: i128) -> (r:
        Result<(), MarketError>)
        requires
            old(self).wf(),
            old(self).initialized(),
        ensures
            final(self).wf(),
            final(self).initialized(),
            final(self).admin() == old(self).admin(),
            final(self).registry_ref() == old(self).registry_ref(),
            final(self).payment_token() == old(self).payment_token(),
            final(self).fee_bps() == old(self).fee_bps(),
            final(self).next_listing_id() == old(self).next_listing_id(),
            r == Err::<(), MarketError>(MarketError::InvalidPrice) <==> new_price <= 0,
            r == Err::<(), MarketError>(MarketError::NotFound) <==> new_price > 0 && !old(
                self).has_listing(listing_id),
            r == Err::<(), MarketError>(MarketError::NotSeller) <==> new_price > 0 && old(
                self).has_listing(listing_id) && old(self).listing_of(listing_id).seller != seller,
            r == Err::<(), MarketError>(MarketError::ListingNotActive) <==> new_price > 0 && old(
                self).has_listing(listing_id) && old(self).listing_of(listing_id).seller == seller
                && old(self).listing_of(listing_id).status != ListingStatus::Active,
            r is Ok <==> new_price > 0 && old(self).has_listing(listing_id) && old(
                self).listing_of(listing_id).seller == seller && old(self).listing_of(
                listing_id,
            ).status == ListingStatus::Active,
            r is Err ==> *final(self) == *old(self),
            r is Ok ==> final(self).listing_of(listing_id) == (Listing {
                price_per_ton: new_price,
                ..old(self).listing_of(listing_id)
            }),
            final(self).active_ids() == old(self).active_ids(),
            forall|id: u64| final(self).has_listing(id) == old(self).has_listing(id),
            r is Ok ==> forall|id: u64|
                id != listing_id && old(self).has_listing(id) ==> final(self).listing_of(id) == old(
                    self).listing_of(id),
            forall|id: u64|
                old(self).has_listing(id) && old(self).listing_of(id).status
                    != ListingStatus::Active ==> final(self).listing_of(id) == old(
                    self).listing_of(id),
    {
        if new_price <= 0 {
            return Err(MarketError::InvalidPrice);
        }
        let l = match self.listings.get(&listing_id) {
            None => {
                return Err(MarketError::NotFound);
            },
            Some(l) => *l,
        };
        if l.seller != seller {
            return Err(MarketError::NotSeller);
        }
        if l.status != ListingStatus::Active {
            return Err(MarketError::ListingNotActive);
        }
        let updated = Listing { price_per_ton: new_price, ..l };
        self.listings.insert(listing_id, updated);
        proof {
            let pre = old(self).active@;
            assert forall|id: u64|
                self.listings@.contains_key(id) && self.listings@[id].status
                    == ListingStatus::Active implies self.active@.contains(id) by {
                let i = choose|i: int| 0 <= i < pre.len() && pre[i] == id;
                assert(self.active@[i] == id);
            }
        }
        Ok(())
    }

    /// Returns a copy of a listing, or `NotFound`.
    pub fn get_listing(&self, listing_id: u64) -> (r: Result<Listing, MarketError>)
        ensures
            r is Ok <==> self.has_listing(listing_id),
            match r {
                Ok(l) => l == self.listing_of(listing_id),
                Err(e) => e == MarketError::NotFound,
            },
    {
        match self.listings.get(&listing_id) {
            None => Err(MarketError::NotFound),
            Some(l) => Ok(*l),
        }
    }

    /// The ids of the currently purchasable listings, oldest first.
    pub fn get_active_listings(&self) -> (r: Vec<u64>)
        requires
            self.initialized(),
        ensures
            r@ == self.active_ids(),
    {
        let n = self.active.len();
        let mut out: Vec<u64> = Vec::new();
        let mut i: usize = 0;
        while i < n
            invariant
                n == self.active.len(),
                i <= n,
                out@ == self.active@.take(i as int),
            decreases n - i,
        {
            out.push(self.active[i]);
            proof {
                assert(self.active@.take(i as int + 1) =~= self.active@.take(i as int).push(
                    self.active@[i as int],
                ));
            }
            i += 1;
        }
        proof {
            assert(self.active@.take(n as int) =~= self.active@);
        }
        out
    }

    /// The marketplace fee in basis points.
    pub fn get_marketplace_fee(&self) -> (r: u32)
        requires
            self.initialized(),
        ensures
            r == self.fee_bps(),
    {
        self.fee_bps
    }

    /// Changes the marketplace fee.  Only the stored admin may do so,
    /// and the fee is capped at 1000 basis points (10 percent).
    pub fn update_marketplace_fee(&mut self, admin: Identity, new_fee: u32) -> (r: Result<
        (),
        MarketError,
    >)
        requires
            old(self).wf(),
            old(self).initialized(),
        ensures
            final(self).wf(),
            final(self).initialized(),
            final(self).admin() == old(self).admin(),
            final(self).registry_ref() == old(self).registry_ref(),
            final(self).payment_token() == old(self).payment_token(),
            final(self).next_listing_id() == old(self).next_listing_id(),
            r == Err::<(), MarketError>(MarketError::NotAuthorized) <==> admin != old(self).admin(),
            r == Err::<(), MarketError>(MarketError::FeeTooHigh) <==> admin == old(self).admin()
                && new_fee > 1000,
            r is Ok <==> admin == old(self).admin() && new_fee <= 1000,
            r is Err ==> *final(self) == *old(self),
            r is Ok ==> final(self).fee_bps() == new_fee,
            final(self).active_ids() == old(self).active_ids(),
            forall|id: u64| final(self).has_listing(id) == old(self).has_listing(id),
            forall|id: u64|
                old(self).has_listing(id) ==> final(self).listing_of(id) == old(self).listing_of(
                    id,
                ),
            forall|id: u64|
                old(self).has_listing(id) && old(self).listing_of(id).status
                    != ListingStatus::Active ==> final(self).listing_of(id) == old(
                    self).listing_of(id),
    {
        if admin != self.admin {
            return Err(MarketError::NotAuthorized);
        }
        if new_fee > 1000 {
            return Err(MarketError::FeeTooHigh);
        }
        self.fee_bps = new_fee;
        Ok(())
    }

    /// Rebuilds the active list without `listing_id`, keeping the
    /// order of the other ids.
    fn remove_from_active_listings(&mut self, listing_id: u64)
        ensures
            final(self).active@ == seq_remove_id(old(self).active@, listing_id),
            final(self).listings@ == old(self).listings@,
            final(self).inited == old(self).inited,
            final(self).admin == old(self).admin,
            final(self).credit_registry == old(self).credit_registry,
            final(self).payment_token == old(self).payment_token,
            final(self).fee_bps == old(self).fee_bps,
            final(self).next_listing_id == old(self).next_listing_id,
    {
        let ghost pre = self.active@;
        let mut kept: Vec<u64> = Vec::new();
        let n = self.active.len();
        let mut i: usize = 0;
        while i < n
            invariant
                n == self.active.len(),
                i <= n,
                self.active@ == pre,
                kept@ == seq_remove_id(pre.take(i as int), listing_id),
            decreases n - i,
        {
            broadcast use vstd::prelude::Seq::lemma_filter_push;

            let v = self.active[i];
            proof {
                assert(pre.take(i as int + 1) =~= pre.take(i as int).push(pre[i as int]));
            }
            if v != listing_id {
                kept.push(v);
            }
            i += 1;
        }
        proof {
            assert(pre.take(n as int) =~= pre);
        }
        self.active = kept;
    }

    /// After a listing has been recorded as `Sold` or `Cancelled` and
    /// its id filtered out of the active list, the active list is again
    /// consistent with the statuses: exactly the `Active` ids remain.
    proof fn lemma_active_consistent_after_close(self, pre: Self, listing_id: u64)
        requires
            pre.wf(),
            pre.has_listing(listing_id),
            self.listings@ == pre.listings@.insert(listing_id, self.listings@[listing_id]),
            self.listings@.contains_key(listing_id),
            self.listings@[listing_id].status != ListingStatus::Active,
            self.active@ == seq_remove_id(pre.active@, listing_id),
        ensures
            forall|i: int|
                0 <= i < self.active@.len() ==> self.listings@.contains_key(
                    #[trigger] self.active@[i],
                ) && self.listings@[self.active@[i]].status == ListingStatus::Active,
            forall|id: u64| #[trigger]
                self.listings@.contains_key(id) && self.listings@[id].status
                    == ListingStatus::Active ==> self.active@.contains(id),
    {
        broadcast use vstd::prelude::Seq::lemma_filter_pred;
        broadcast use vstd::prelude::Seq::lemma_filter_contains;
        broadcast use vstd::prelude::Seq::lemma_filter_contains_rev;

        assert forall|i: int| 0 <= i < self.active@.len() implies self.listings@.contains_key(
            #[trigger] self.active@[i],
        ) && self.listings@[self.active@[i]].status == ListingStatus::Active by {
            let id = self.active@[i];
            assert(self.active@.contains(id));
            assert(pre.active@.contains(id) && id != listing_id);
            let j = choose|j: int| 0 <= j < pre.active@.len() && pre.active@[j] == id;
            assert(pre.listings@.contains_key(pre.active@[j]));
        }
        assert forall|id: u64| #[trigger]
            self.listings@.contains_key(id) && self.listings@[id].status
                == ListingStatus::Active implies self.active@.contains(id) by {
            assert(id != listing_id);
            assert(pre.listings@.contains_key(id));
            assert(pre.active@.contains(id));
            let j = choose|j: int| 0 <= j < pre.active@.len() && pre.active@[j] == id;
        }
    }
}

} // verus!
