use vstd::prelude::*;

use crate::error::MarshalError;
use crate::value::{FieldValue, SpecField, SpecStored, StoredValue};

verus! {

/// How a sale was paid.
#[derive(Clone, Copy, Debug, PartialEq, Eq, Structural)]
pub enum PaymentMethod {
    Cash,
    CreditCard,
}

/// The canonical display name of a payment method.
pub open spec fn spec_payment_method_name(pm: PaymentMethod) -> Seq<char> {
    match pm {
        PaymentMethod::Cash => "Cash"@,
        PaymentMethod::CreditCard => "Credit Card"@,
    }
}

/// The payment method a display name denotes.
pub open spec fn spec_parse_payment_method(s: Seq<char>) -> Result<PaymentMethod, MarshalError> {
    if s == "Cash"@ {
        Ok(PaymentMethod::Cash)
    } else if s == "Credit Card"@ {
        Ok(PaymentMethod::CreditCard)
    } else {
        Err(MarshalError::UnknownVariant)
    }
}

/// How a payment method is read back from a stored column value.
pub open spec fn spec_decode_payment_method(v: SpecStored) -> Result<PaymentMethod, MarshalError> {
    match v {
        SpecStored::Text(s) => spec_parse_payment_method(s),
        _ => Err(MarshalError::WrongColumnType),
    }
}

impl PaymentMethod {
    /// The canonical display name.
    pub fn name(&self) -> (r: String)
        ensures
            r@ == spec_payment_method_name(*self),
    {
        match self {
            PaymentMethod::Cash => "Cash".to_owned(),
            PaymentMethod::CreditCard => "Credit Card".to_owned(),
        }
    }

    /// The field value a payment method encodes to: its name as text.
    pub fn to_field(&self) -> (r: FieldValue)
        ensures
            r@ == SpecField::Text(spec_payment_method_name(*self)),
    {
        FieldValue::Text(self.name())
    }

    /// Reads a payment method from its display name.
    pub fn parse_name(s: &str) -> (r: Result<PaymentMethod, MarshalError>)
        ensures
            r == spec_parse_payment_method(s@),
    {
        let candidate = s.to_owned();
        if candidate == "Cash".to_owned() {
            Ok(PaymentMethod::Cash)
        } else if candidate == "Credit Card".to_owned() {
            Ok(PaymentMethod::CreditCard)
        } else {
            Err(MarshalError::UnknownVariant)
        }
    }

    /// Reads a payment method back from a stored column value.
    pub fn decode(v: &StoredValue) -> (r: Result<PaymentMethod, MarshalError>)
        ensures
            r == spec_decode_payment_method(v@),
    {
        match v {
            StoredValue::Text(s) => PaymentMethod::parse_name(s.as_str()),
            _ => Err(MarshalError::WrongColumnType),
        }
    }
}

impl Default for PaymentMethod {
    /// Cash, as forms start out.
    fn default() -> (r: PaymentMethod)
        ensures
            r == PaymentMethod::Cash,
    {
        PaymentMethod::Cash
    }
}

/// How an optional payment method is read back: `NULL` means absence, as
/// the generic optional decode treats it, and text is parsed as a name.
pub open spec fn spec_decode_opt_payment_method(v: SpecStored) -> Result<
    Option<PaymentMethod>,
    MarshalError,
> {
    match v {
        SpecStored::Null => Ok(None),
        SpecStored::Text(s) => match spec_parse_payment_method(s) {
            Ok(p) => Ok(Some(p)),
            Err(e) => Err(e),
        },
        _ => Err(MarshalError::WrongColumnType),
    }
}

impl PaymentMethod {
    /// Reads an optional payment method back, treating `NULL` as absence.
    pub fn decode_opt(v: &StoredValue) -> (r: Result<Option<PaymentMethod>, MarshalError>)
        ensures
            r == spec_decode_opt_payment_method(v@),
    {
        match v {
            StoredValue::Null => Ok(None),
            StoredValue::Text(s) => match PaymentMethod::parse_name(s.as_str()) {
                Ok(p) => Ok(Some(p)),
                Err(e) => Err(e),
            },
            _ => Err(MarshalError::WrongColumnType),
        }
    }
}

/// Reading a payment method's name back yields the same payment method.
pub proof fn lemma_payment_method_roundtrip(pm: PaymentMethod)
    ensures
        spec_parse_payment_method(spec_payment_method_name(pm)) == Ok::<
            PaymentMethod,
            MarshalError,
        >(pm),
{
    reveal_strlit("Cash");
    reveal_strlit("Credit Card");
    assert("Cash"@.len() == 4);
    assert("Credit Card"@.len() == 11);
}

} // verus!
