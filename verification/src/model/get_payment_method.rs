use vstd::prelude::*;

use crate::model::payment_method::PaymentMethod;

verus! {

/// A draft form that may already carry a chosen payment method.
pub trait GetPaymentMethod {
    /// The chosen payment method, if any.
    spec fn spec_get_payment_method(&self) -> Option<PaymentMethod>;

    /// The chosen payment method, if any.
    fn get_payment_method(&self) -> (r: Option<PaymentMethod>)
        ensures
            r == self.spec_get_payment_method(),
    ;
}

} // verus!
