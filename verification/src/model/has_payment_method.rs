use vstd::prelude::*;

use crate::model::payment_method::PaymentMethod;

verus! {

/// Anything that may carry a payment method.
pub trait HasPaymentMethod {
    /// The carried payment method, if any.
    spec fn spec_payment_method(&self) -> Option<PaymentMethod>;

    /// The carried payment method, if any.
    fn payment_method(&self) -> (r: Option<PaymentMethod>)
        ensures
            r == self.spec_payment_method(),
    ;

    /// Whether the carried payment method is present and is `method`.
    fn matches_payment_method(&self, method: PaymentMethod) -> (r: bool)
        ensures
            r == (self.spec_payment_method() == Some(method)),
    {
        let pm = self.payment_method();
        match pm {
            None => false,
            Some(p) => p == method,
        }
    }
}

} // verus!
