use vstd::prelude::*;

use crate::errors::ErrorCode;
use crate::ids::AccountId;

verus! {

/// Who may end up financing a unit of this listing.
///
/// `FunderOnly` listings are open to third-party funders paying the full
/// price up front; `VendorOnly` listings are financed by the vendor in
/// installments; `Either` accepts both until the timeout elapses.
#[derive(Clone, Copy, Debug)]
pub enum PaymentPreference {
    FunderOnly,
    VendorOnly,
    Either { timeout: i64 },
}

#[derive(Clone, Copy, Debug, PartialEq, Eq, Structural)]
pub enum EquipmentStatus {
    Available,
    Funded,
    PartiallySold,
    Sold,
    Reserved,
}

#[derive(Clone, Copy, Debug, PartialEq, Eq, Structural)]
pub enum DeliveryStatus {
    Pending,
    Shipped,
    Delivered,
    Disputed,
}

/// One funding offer: a third party's commitment to finance `quantity`
/// units under its own deposit and duration terms.  The offer may be bound
/// to a particular borrower for pre-arranged deals, and it keeps a
/// reference to the escrow holding the funder's payment (absent when the
/// funder paid the vendor directly).
#[derive(Clone, Copy, Debug)]
pub struct FunderInfo {
    pub funder: AccountId,
    pub quantity: u64,
    pub minimum_deposit: u64,
    pub duration_seconds: i64,
    pub funder_price: u64,
    pub borrower: Option<AccountId>,
    pub escrow: Option<AccountId>,
}

/// An equipment listing with its inventory ledger.  The total quantity is
/// partitioned into vendor-addressable units (`total - funded`) of which
/// `sold_quantity` have been sold, and funder-committed units
/// (`funded_quantity`) of which `funded_sold_quantity` have been sold.
#[derive(Clone, Debug)]
pub struct Equipment {
    pub vendor: AccountId,
    pub asset: AccountId,
    pub unique_id: AccountId,
    pub name: String,
    pub uri: String,
    pub price: u64,
    pub minimum_deposit: u64,
    pub max_duration_seconds: i64,
    pub payment_preference: PaymentPreference,
    pub total_quantity: u64,
    pub funded_quantity: u64,
    pub sold_quantity: u64,
    pub funded_sold_quantity: u64,
    pub status: EquipmentStatus,
    pub funders: Vec<FunderInfo>,
    pub delivery_status: DeliveryStatus,
}

/// An offer can serve a sale for `funder_id` when it was made by that
/// funder and commits at least one unit.
pub open spec fn offer_matches(f: FunderInfo, funder_id: AccountId) -> bool {
    f.funder == funder_id && f.quantity > 0
}

/// `i` is the position of the first offer in `s` that can serve a sale for
/// `funder_id`.  Offers are kept in insertion order and ties go to the
/// earliest commitment.
pub open spec fn is_first_matching_offer(s: Seq<FunderInfo>, funder_id: AccountId, i: int) -> bool {
    &&& 0 <= i < s.len()
    &&& offer_matches(s[i], funder_id)
    &&& forall|j: int| 0 <= j < i ==> !offer_matches(s[j], funder_id)
}

/// Some offer in `s` can serve a sale for `funder_id`.
pub open spec fn matching_offer_exists(s: Seq<FunderInfo>, funder_id: AccountId) -> bool {
    exists|j: int| 0 <= j < s.len() && offer_matches(#[trigger] s[j], funder_id)
}

/// The first offer in `s` that can serve a sale for `funder_id`.
/// Meaningful only when such an offer exists.
pub open spec fn first_matching_offer(s: Seq<FunderInfo>, funder_id: AccountId) -> FunderInfo {
    s[choose|i: int| is_first_matching_offer(s, funder_id, i)]
}

/// The offer was made by `funder_id`, live or exhausted.
pub open spec fn offer_by(f: FunderInfo, funder_id: AccountId) -> bool {
    f.funder == funder_id
}

/// `i` is the position of the first offer in `s` made by `funder_id`.
pub open spec fn is_first_offer_by(s: Seq<FunderInfo>, funder_id: AccountId, i: int) -> bool {
    &&& 0 <= i < s.len()
    &&& offer_by(s[i], funder_id)
    &&& forall|j: int| 0 <= j < i ==> !offer_by(s[j], funder_id)
}

/// Some offer in `s` was made by `funder_id`.
pub open spec fn offer_by_exists(s: Seq<FunderInfo>, funder_id: AccountId) -> bool {
    exists|j: int| 0 <= j < s.len() && offer_by(#[trigger] s[j], funder_id)
}

/// The first offer in `s` made by `funder_id`.  Meaningful only when
/// such an offer exists.
pub open spec fn first_offer_by(s: Seq<FunderInfo>, funder_id: AccountId) -> FunderInfo {
    s[choose|i: int| is_first_offer_by(s, funder_id, i)]
}

/// The offer is the one whose funding payment sits in the escrow
/// `escrow_key`.
pub open spec fn offer_for_escrow(f: FunderInfo, escrow_key: AccountId) -> bool {
    f.escrow == Some(escrow_key)
}

/// `i` is the position of the first offer in `s` linked to `escrow_key`.
pub open spec fn is_first_escrow_offer(s: Seq<FunderInfo>, escrow_key: AccountId, i: int) -> bool {
    &&& 0 <= i < s.len()
    &&& offer_for_escrow(s[i], escrow_key)
    &&& forall|j: int| 0 <= j < i ==> !offer_for_escrow(s[j], escrow_key)
}

/// Some offer in `s` is linked to `escrow_key`.
pub open spec fn escrow_offer_exists(s: Seq<FunderInfo>, escrow_key: AccountId) -> bool {
    exists|j: int| 0 <= j < s.len() && offer_for_escrow(#[trigger] s[j], escrow_key)
}

/// The first offer in `s` linked to `escrow_key`.  Meaningful only when
/// such an offer exists.
pub open spec fn first_escrow_offer(s: Seq<FunderInfo>, escrow_key: AccountId) -> FunderInfo {
    s[choose|i: int| is_first_escrow_offer(s, escrow_key, i)]
}

/// All fields of `b` agree with `a` except the funding ledger
/// (`funded_quantity` and the offer list).
pub open spec fn unchanged_except_funding(a: Equipment, b: Equipment) -> bool {
    &&& b.vendor == a.vendor
    &&& b.asset == a.asset
    &&& b.unique_id == a.unique_id
    &&& b.name == a.name
    &&& b.uri == a.uri
    &&& b.price == a.price
    &&& b.minimum_deposit == a.minimum_deposit
    &&& b.max_duration_seconds == a.max_duration_seconds
    &&& b.payment_preference == a.payment_preference
    &&& b.total_quantity == a.total_quantity
    &&& b.sold_quantity == a.sold_quantity
    &&& b.funded_sold_quantity == a.funded_sold_quantity
    &&& b.status == a.status
    &&& b.delivery_status == a.delivery_status
}

/// Listing status after a unit was sold: once every vendor-addressable
/// unit is gone but funder capacity remains open the listing is
/// `PartiallySold`; once every unit of the total is gone it is `Sold`;
/// otherwise the status keeps its previous value.
pub open spec fn status_after_sale(e: Equipment) -> EquipmentStatus {
    if e.sold_quantity == e.total_quantity - e.funded_quantity && e.funded_quantity
        > e.funded_sold_quantity {
        EquipmentStatus::PartiallySold
    } else if e.sold_quantity + e.funded_sold_quantity == e.total_quantity {
        EquipmentStatus::Sold
    } else {
        e.status
    }
}

impl Equipment {
    /// Inventory soundness: funder-committed units never exceed the total,
    /// vendor sales never exceed the vendor-addressable capacity, and
    /// funder-backed sales never exceed the funder-committed capacity.
    /// Together these bound `sold + funded_sold` by the total quantity, so
    /// no unit is ever sold twice.
    pub open spec fn wf(&self) -> bool {
        &&& self.funded_quantity <= self.total_quantity
        &&& self.sold_quantity <= self.total_quantity - self.funded_quantity
        &&& self.funded_sold_quantity <= self.funded_quantity
    }

    /// Units the vendor may still sell directly.
    pub open spec fn vendor_capacity(&self) -> int {
        self.total_quantity - self.funded_quantity
    }

    /// Units sold so far, over both tiers.
    pub open spec fn units_sold(&self) -> int {
        self.sold_quantity + self.funded_sold_quantity
    }

    /// Sell one vendor-addressable unit.  Fails with `OutOfStock` when the
    /// vendor-addressable capacity is exhausted; never touches the
    /// funder-committed tier.
    pub fn reserve_for_vendor_sale(&mut self) -> (r: Result<(), ErrorCode>)
        requires
            old(self).wf(),
        ensures
            final(self).wf(),
            r is Ok <==> old(self).sold_quantity < old(self).vendor_capacity(),
            r matches Ok(()) ==> *final(self) == (Equipment {
                sold_quantity: (old(self).sold_quantity + 1) as u64,
                ..*old(self)
            }),
            r is Err ==> r == Err::<(), ErrorCode>(ErrorCode::OutOfStock) && *final(self) == *old(
                self,
            ),
    {
        let vendor_quantity = self.total_quantity - self.funded_quantity;
        if self.sold_quantity < vendor_quantity {
            self.sold_quantity = self.sold_quantity + 1;
            Ok(())
        } else {
            Err(ErrorCode::OutOfStock)
        }
    }

    /// Find the first offer made by `funder_id` that commits at least one
    /// unit, without touching the ledger.
    pub fn find_matching_offer(&self, funder_id: AccountId) -> (r: Option<usize>)
        ensures
            r matches Some(i) ==> is_first_matching_offer(self.funders@, funder_id, i as int),
            r is None ==> forall|j: int|
                0 <= j < self.funders@.len() ==> !offer_matches(
                    #[trigger] self.funders@[j],
                    funder_id,
                ),
    {
        let n = self.funders.len();
        let mut i: usize = 0;
        while i < n
            invariant
                n == self.funders@.len(),
                i <= n,
                forall|j: int| 0 <= j < i ==> !offer_matches(
                    #[trigger] self.funders@[j],
                    funder_id,
                ),
            decreases n - i,
        {
            let f = &self.funders[i];
            if f.funder == funder_id && f.quantity > 0 {
                return Some(i);
            }
            i = i + 1;
        }
        None
    }

    /// Find the first offer made by `funder_id`, live or exhausted,
    /// without touching the ledger.
    pub fn find_offer_by_funder(&self, funder_id: AccountId) -> (r: Option<usize>)
        ensures
            r matches Some(i) ==> is_first_offer_by(self.funders@, funder_id, i as int),
            r is None ==> forall|j: int|
                0 <= j < self.funders@.len() ==> !offer_by(#[trigger] self.funders@[j], funder_id),
    {
        let n = self.funders.len();
        let mut i: usize = 0;
        while i < n
            invariant
                n == self.funders@.len(),
                i <= n,
                forall|j: int| 0 <= j < i ==> !offer_by(#[trigger] self.funders@[j], funder_id),
            decreases n - i,
        {
            if self.funders[i].funder == funder_id {
                return Some(i);
            }
            i = i + 1;
        }
        None
    }

    /// Find the first offer whose funding payment sits in the escrow
    /// `escrow_key`, without touching the ledger.
    pub fn find_offer_by_escrow(&self, escrow_key: AccountId) -> (r: Option<usize>)
        ensures
            r matches Some(i) ==> is_first_escrow_offer(self.funders@, escrow_key, i as int),
            r is None ==> forall|j: int|
                0 <= j < self.funders@.len() ==> !offer_for_escrow(
                    #[trigger] self.funders@[j],
                    escrow_key,
                ),
    {
        let n = self.funders.len();
        let mut i: usize = 0;
        while i < n
            invariant
                n == self.funders@.len(),
                i <= n,
                forall|j: int| 0 <= j < i ==> !offer_for_escrow(
                    #[trigger] self.funders@[j],
                    escrow_key,
                ),
            decreases n - i,
        {
            let f = &self.funders[i];
            if match f.escrow {
                Some(k) => k == escrow_key,
                None => false,
            } {
                return Some(i);
            }
            i = i + 1;
        }
        None
    }

    /// Sell one funder-committed unit against the first offer made by
    /// `funder_id` that commits at least one unit, returning that offer's
    /// position.  Fails with `NoFundedUnitsAvailable` when every
    /// funder-committed unit is already sold, and with `NoAvailableFunder`
    /// when the funder has no live offer on this listing.
    pub fn reserve_for_funder_sale(&mut self, funder_id: AccountId) -> (r: Result<
        usize,
        ErrorCode,
    >)
        requires
            old(self).wf(),
        ensures
            final(self).wf(),
            r is Err ==> *final(self) == *old(self),
            old(self).funded_quantity <= old(self).funded_sold_quantity ==> r == Err::<
                usize,
                ErrorCode,
            >(ErrorCode::NoFundedUnitsAvailable),
            old(self).funded_quantity > old(self).funded_sold_quantity && (forall|j: int|
                0 <= j < old(self).funders@.len() ==> !offer_matches(
                    #[trigger] old(self).funders@[j],
                    funder_id,
                )) ==> r == Err::<usize, ErrorCode>(ErrorCode::NoAvailableFunder),
            old(self).funded_quantity > old(self).funded_sold_quantity && (exists|j: int|
                0 <= j < old(self).funders@.len() && offer_matches(
                    #[trigger] old(self).funders@[j],
                    funder_id,
                )) ==> r is Ok,
            r matches Ok(i) ==> {
                &&& is_first_matching_offer(old(self).funders@, funder_id, i as int)
                &&& *final(self) == (Equipment {
                    funded_sold_quantity: (old(self).funded_sold_quantity + 1) as u64,
                    ..*old(self)
                })
            },
    {
        if self.funded_quantity <= self.funded_sold_quantity {
            return Err(ErrorCode::NoFundedUnitsAvailable);
        }
        let n = self.funders.len();
        let mut i: usize = 0;
        while i < n
            invariant
                *self == *old(self),
                old(self).wf(),
                old(self).funded_quantity > old(self).funded_sold_quantity,
                n == self.funders@.len(),
                i <= n,
                forall|j: int| 0 <= j < i ==> !offer_matches(
                    #[trigger] self.funders@[j],
                    funder_id,
                ),
            decreases n - i,
        {
            let f = &self.funders[i];
            if f.funder == funder_id && f.quantity > 0 {
                self.funded_sold_quantity = self.funded_sold_quantity + 1;
                return Ok(i);
            }
            i = i + 1;
        }
        Err(ErrorCode::NoAvailableFunder)
    }

    /// Record a funding commitment: check the uncommitted capacity and the
    /// listing status, then add the offer's quantity to the funded tier and
    /// append the offer.  Fails with `InsufficientQuantity` when the offer
    /// asks for more units than remain uncommitted and unsold, and with
    /// `EquipmentNotAvailable` when the listing is in a terminal status.
    pub fn commit_funding(&mut self, offer: FunderInfo) -> (r: Result<(), ErrorCode>)
        requires
            old(self).wf(),
        ensures
            final(self).wf(),
            r is Err ==> *final(self) == *old(self),
            r is Ok <==> {
                &&& offer.quantity <= old(self).total_quantity - old(self).funded_quantity - old(
                    self,
                ).sold_quantity
                &&& (old(self).status == EquipmentStatus::Available || old(self).status
                    == EquipmentStatus::Funded || old(self).status == EquipmentStatus::Reserved)
            },
            offer.quantity > old(self).total_quantity - old(self).funded_quantity - old(
                self,
            ).sold_quantity ==> r == Err::<(), ErrorCode>(ErrorCode::InsufficientQuantity),
            r is Err && offer.quantity <= old(self).total_quantity - old(self).funded_quantity
                - old(self).sold_quantity ==> r == Err::<(), ErrorCode>(
                ErrorCode::EquipmentNotAvailable,
            ),
            r is Ok ==> {
                &&& final(self).funded_quantity == old(self).funded_quantity + offer.quantity
                &&& final(self).funders@ == old(self).funders@.push(offer)
                &&& unchanged_except_funding(*old(self), *final(self))
            },
    {
        let available_to_fund = self.total_quantity - self.funded_quantity - self.sold_quantity;
        if offer.quantity > available_to_fund {
            return Err(ErrorCode::InsufficientQuantity);
        }
        match self.status {
            EquipmentStatus::Available | EquipmentStatus::Funded | EquipmentStatus::Reserved => {},
            _ => {
                return Err(ErrorCode::EquipmentNotAvailable);
            },
        }
        self.funded_quantity = self.funded_quantity + offer.quantity;
        self.funders.push(offer);
        Ok(())
    }

    /// Re-derive the listing status after a sale and mark the unit's
    /// delivery as pending confirmation.
    pub fn recompute_status_after_sale(&mut self)
        requires
            old(self).wf(),
        ensures
            final(self).wf(),
            *final(self) == (Equipment {
                status: status_after_sale(*old(self)),
                delivery_status: DeliveryStatus::Pending,
                ..*old(self)
            }),
    {
        self.delivery_status = DeliveryStatus::Pending;
        let vendor_quantity = self.total_quantity - self.funded_quantity;
        if self.sold_quantity == vendor_quantity && self.funded_quantity
            > self.funded_sold_quantity {
            self.status = EquipmentStatus::PartiallySold;
        } else if self.sold_quantity + self.funded_sold_quantity == self.total_quantity {
            self.status = EquipmentStatus::Sold;
        }
    }
}

/// No sequence of reservations can oversell a listing: inventory soundness
/// bounds the units sold, over both tiers, by the total quantity.
pub proof fn lemma_no_double_spend(e: Equipment)
    requires
        e.wf(),
    ensures
        e.units_sold() <= e.total_quantity,
{
}

} // verus!
