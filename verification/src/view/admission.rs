use vstd::prelude::*;

use crate::error::StoreError;
use crate::model::admission_kind::{Kind, spec_admission_cost_cents};
use crate::model::get_payment_method::GetPaymentMethod;
use crate::model::payment_method::PaymentMethod;
use crate::to_model::ToModel;

verus! {

/// The admission form as the operator fills it in: the kind and the
/// payment method start unchosen.
#[derive(Clone, Copy, Debug)]
pub struct Admission {
    pub kind: Option<Kind>,
    pub payment_method: Option<PaymentMethod>,
    pub quantity: u16,
}

/// One edit of the admission form.
#[derive(Clone, Copy, Debug)]
pub enum Message {
    KindSet(Kind),
    PaymentMethodSet(PaymentMethod),
    QuantitySet(u16),
}

/// Whether the draft, as it stands, owes a payment method: a kind has been
/// chosen and it is not free.
pub open spec fn spec_needs_payment(a: Admission) -> bool {
    match a.kind {
        None => false,
        Some(k) => spec_admission_cost_cents(k) != 0,
    }
}

/// Whether the draft can become an entity: a kind is chosen, a payment
/// method is chosen wherever one is owed, and at least one visitor is
/// admitted.
pub open spec fn spec_admission_draft_valid(a: Admission) -> bool {
    a.kind is Some && (spec_needs_payment(a) ==> a.payment_method is Some) && a.quantity > 0
}

/// What one edit does to the draft.
pub open spec fn spec_admission_update(a: Admission, m: Message) -> Admission {
    match m {
        Message::KindSet(k) => Admission { kind: Some(k), ..a },
        Message::PaymentMethodSet(p) => Admission { payment_method: Some(p), ..a },
        Message::QuantitySet(q) => Admission { quantity: q, ..a },
    }
}

impl Admission {
    /// Whether the draft, as it stands, owes a payment method.
    pub fn needs_payment(&self) -> (r: bool)
        ensures
            r == spec_needs_payment(*self),
    {
        let kind = match &self.kind {
            None => {
                return false;
            },
            Some(k) => k,
        };
        !kind.is_free()
    }

    /// Applies one edit to the draft.
    pub fn update(&mut self, message: Message)
        ensures
            *final(self) == spec_admission_update(*old(self), message),
    {
        match message {
            Message::KindSet(k) => self.kind = Some(k),
            Message::PaymentMethodSet(p) => self.payment_method = Some(p),
            Message::QuantitySet(q) => self.quantity = q,
        }
    }

    /// Whether the chosen kind is the given one; false while none is chosen.
    pub fn matches_admission_type(&self, kind: Kind) -> (r: bool)
        ensures
            r == (self.kind == Some(kind)),
    {
        let own = match &self.kind {
            None => {
                return false;
            },
            Some(k) => *k,
        };
        own == kind
    }

    /// The cost of the draft in cents: the chosen kind's price times the
    /// quantity, and nothing while no kind is chosen.
    pub fn compute_total_cost(&self) -> (r: u64)
        ensures
            r == (match self.kind {
                Some(k) => spec_admission_cost_cents(k) * self.quantity,
                None => 0,
            }),
    {
        let kind = match &self.kind {
            None => {
                return 0;
            },
            Some(k) => *k,
        };
        let cost = kind.cost_cents();
        proof {
            assert(cost * self.quantity <= 800 * 0xffff) by (nonlinear_arith)
                requires
                    cost <= 800,
                    self.quantity <= 0xffff,
            ;
        }
        cost * (self.quantity as u64)
    }

    /// Whether the draft can become an entity.
    pub fn is_valid(&self) -> (r: bool)
        ensures
            r == spec_admission_draft_valid(*self),
    {
        let payment_ok = if self.needs_payment() {
            self.payment_method.is_some()
        } else {
            true
        };
        self.kind.is_some() && payment_ok && self.quantity > 0
    }
}

impl Default for Admission {
    /// An empty form for one visitor.
    fn default() -> (r: Admission)
        ensures
            r.kind is None,
            r.payment_method is None,
            r.quantity == 1,
    {
        Admission { kind: None, payment_method: None, quantity: 1 }
    }
}

impl GetPaymentMethod for Admission {
    open spec fn spec_get_payment_method(&self) -> Option<PaymentMethod> {
        self.payment_method
    }

    fn get_payment_method(&self) -> (r: Option<PaymentMethod>) {
        self.payment_method
    }
}

impl ToModel for Admission {
    type ModelType = crate::model::admission::Admission;

    /// A valid draft becomes the admission it describes; an invalid one is
    /// refused with a validation error.
    open spec fn spec_to_model(&self) -> Result<crate::model::admission::Admission, StoreError> {
        if spec_admission_draft_valid(*self) {
            Ok(
                crate::model::admission::Admission {
                    kind: self.kind.unwrap(),
                    payment_method: self.payment_method,
                    quantity: self.quantity,
                },
            )
        } else {
            Err(StoreError::ValidationError)
        }
    }

    fn to_model(&self) -> (r: Result<crate::model::admission::Admission, StoreError>) {
        if !self.is_valid() {
            return Err(StoreError::ValidationError);
        }
        let kind = match &self.kind {
            None => {
                return Err(StoreError::ValidationError);
            },
            Some(k) => *k,
        };
        Ok(
            crate::model::admission::Admission {
                kind,
                payment_method: self.payment_method,
                quantity: self.quantity,
            },
        )
    }
}

} // verus!
