use vstd::prelude::*;

use crate::error::StoreError;
use crate::model::get_payment_method::GetPaymentMethod;
use crate::model::membership_kind::{Kind, spec_membership_price_cents};
use crate::model::payment_method::PaymentMethod;
use crate::to_model::ToModel;

verus! {

/// The membership form as the operator fills it in: the kind and the
/// payment method start unchosen.
#[derive(Clone, Copy, Debug)]
pub struct Membership {
    pub kind: Option<Kind>,
    pub payment_method: Option<PaymentMethod>,
    pub quantity: u16,
}

/// One edit of the membership form.
#[derive(Clone, Copy, Debug)]
pub enum Message {
    Kind(Kind),
    PaymentMethod(PaymentMethod),
    Quantity(u16),
}

/// Whether the draft can become an entity: a kind and a payment method are
/// chosen and at least one unit is sold.
pub open spec fn spec_membership_draft_valid(m: Membership) -> bool {
    m.kind is Some && m.payment_method is Some && m.quantity >= 1
}

/// What one edit does to the draft.
pub open spec fn spec_membership_update(m: Membership, msg: Message) -> Membership {
    match msg {
        Message::Kind(k) => Membership { kind: Some(k), ..m },
        Message::PaymentMethod(p) => Membership { payment_method: Some(p), ..m },
        Message::Quantity(q) => Membership { quantity: q, ..m },
    }
}

impl Membership {
    /// Applies one edit to the draft.
    pub fn update(&mut self, message: Message)
        ensures
            *final(self) == spec_membership_update(*old(self), message),
    {
        match message {
            Message::Kind(k) => self.kind = Some(k),
            Message::PaymentMethod(p) => self.payment_method = Some(p),
            Message::Quantity(q) => self.quantity = q,
        }
    }

    /// Whether the chosen kind is the given one; false while none is chosen.
    pub fn matches_type(&self, kind: Kind) -> (r: bool)
        ensures
            r == (self.kind == Some(kind)),
    {
        let own = match &self.kind {
            None => {
                return false;
            },
            Some(k) => *k,
        };
        own == kind
    }

    /// The cost of the draft in cents: the chosen kind's unit price times
    /// the quantity. A draft without a chosen kind has no meaningful cost,
    /// so one must be chosen first.
    pub fn compute_total_cost(&self) -> (r: u64)
        requires
            self.kind is Some,
        ensures
            r == spec_membership_price_cents(self.kind.unwrap()) * self.quantity,
    {
        let kind = match &self.kind {
            None => {
                return 0;
            },
            Some(k) => *k,
        };
        let price = kind.price_cents();
        proof {
            assert(price * self.quantity <= 75000 * 0xffff) by (nonlinear_arith)
                requires
                    price <= 75000,
                    self.quantity <= 0xffff,
            ;
        }
        price * (self.quantity as u64)
    }

    /// Whether the draft can become an entity.
    pub fn is_valid(&self) -> (r: bool)
        ensures
            r == spec_membership_draft_valid(*self),
    {
        self.kind.is_some() && self.payment_method.is_some() && self.quantity >= 1
    }
}

impl Default for Membership {
    /// An empty form for one unit.
    fn default() -> (r: Membership)
        ensures
            r.kind is None,
            r.payment_method is None,
            r.quantity == 1,
    {
        Membership { kind: None, payment_method: None, quantity: 1 }
    }
}

impl GetPaymentMethod for Membership {
    open spec fn spec_get_payment_method(&self) -> Option<PaymentMethod> {
        self.payment_method
    }

    fn get_payment_method(&self) -> (r: Option<PaymentMethod>) {
        self.payment_method
    }
}

impl ToModel for Membership {
    type ModelType = crate::model::membership::Membership;

    /// A valid draft becomes the membership sale it describes; an invalid
    /// one is refused with a validation error.
    open spec fn spec_to_model(&self) -> Result<crate::model::membership::Membership, StoreError> {
        if spec_membership_draft_valid(*self) {
            Ok(
                crate::model::membership::Membership {
                    kind: self.kind.unwrap(),
                    payment_method: self.payment_method.unwrap(),
                    quantity: self.quantity,
                },
            )
        } else {
            Err(StoreError::ValidationError)
        }
    }

    fn to_model(&self) -> (r: Result<crate::model::membership::Membership, StoreError>) {
        let kind = match &self.kind {
            None => {
                return Err(StoreError::ValidationError);
            },
            Some(k) => *k,
        };
        let payment_method = match &self.payment_method {
            None => {
                return Err(StoreError::ValidationError);
            },
            Some(p) => *p,
        };
        if self.quantity < 1 {
            return Err(StoreError::ValidationError);
        }
        Ok(crate::model::membership::Membership { kind, payment_method, quantity: self.quantity })
    }
}

} // verus!
