use vstd::prelude::*;

use crate::error::StoreError;
use crate::model::get_payment_method::GetPaymentMethod;
use crate::model::payment_method::PaymentMethod;
use crate::to_model::ToModel;

verus! {

/// The donation form as the operator fills it in: the payment method starts
/// unchosen, the amount is in cents.
#[derive(Clone, Copy, Debug)]
pub struct Donation {
    pub payment_method: Option<PaymentMethod>,
    pub price: u64,
}

/// One edit of the donation form.
#[derive(Clone, Copy, Debug)]
pub enum Message {
    SetPaymentMethod(PaymentMethod),
    Price(u64),
}

/// Whether the draft can become an entity: a payment method is chosen.
pub open spec fn spec_donation_draft_valid(d: Donation) -> bool {
    d.payment_method is Some
}

/// What one edit does to the draft.
pub open spec fn spec_donation_update(d: Donation, m: Message) -> Donation {
    match m {
        Message::SetPaymentMethod(p) => Donation { payment_method: Some(p), ..d },
        Message::Price(c) => Donation { price: c, ..d },
    }
}

impl Donation {
    /// Applies one edit to the draft.
    pub fn update(&mut self, message: Message)
        ensures
            *final(self) == spec_donation_update(*old(self), message),
    {
        match message {
            Message::SetPaymentMethod(p) => self.payment_method = Some(p),
            Message::Price(c) => self.price = c,
        }
    }

    /// The amount given, in cents.
    pub fn amount(&self) -> (r: u64)
        ensures
            r == self.price,
    {
        self.price
    }

    /// Whether the draft can become an entity.
    pub fn is_valid(&self) -> (r: bool)
        ensures
            r == spec_donation_draft_valid(*self),
    {
        self.payment_method.is_some()
    }
}

impl Default for Donation {
    /// An empty form giving nothing.
    fn default() -> (r: Donation)
        ensures
            r.payment_method is None,
            r.price == 0,
    {
        Donation { payment_method: None, price: 0 }
    }
}

impl GetPaymentMethod for Donation {
    open spec fn spec_get_payment_method(&self) -> Option<PaymentMethod> {
        self.payment_method
    }

    fn get_payment_method(&self) -> (r: Option<PaymentMethod>) {
        self.payment_method
    }
}

impl ToModel for Donation {
    type ModelType = crate::model::donation::Donation;

    /// A valid draft becomes the donation it describes; an invalid one is
    /// refused with a validation error.
    open spec fn spec_to_model(&self) -> Result<crate::model::donation::Donation, StoreError> {
        if spec_donation_draft_valid(*self) {
            Ok(
                crate::model::donation::Donation {
                    payment_method: self.payment_method.unwrap(),
                    price: self.price,
                },
            )
        } else {
            Err(StoreError::ValidationError)
        }
    }

    fn to_model(&self) -> (r: Result<crate::model::donation::Donation, StoreError>) {
        let payment_method = match &self.payment_method {
            None => {
                return Err(StoreError::ValidationError);
            },
            Some(p) => *p,
        };
        Ok(crate::model::donation::Donation { payment_method, price: self.price })
    }
}

} // verus!
