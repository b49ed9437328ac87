use vstd::prelude::*;

use crate::error::MarshalError;
use crate::value::{FieldValue, SpecField, SpecStored, StoredValue};

verus! {

/// The coarse service-window bucket an entry's clock hour falls into.
/// Clock hours outside the mapped ones fall into the last bucket.
#[derive(Clone, Copy, Debug, PartialEq, Eq, Structural)]
pub enum Hour {
    ElevenToTwelve,
    TwelveToOne,
    OneToTwo,
    TwoToThree,
    ThreeToFour,
}

/// The bucket a clock hour (0 to 23) falls into.
pub open spec fn spec_hour_of_clock(h: u32) -> Hour {
    if h == 10 {
        Hour::ElevenToTwelve
    } else if h == 11 {
        Hour::TwelveToOne
    } else if h == 12 {
        Hour::OneToTwo
    } else if h == 13 {
        Hour::TwoToThree
    } else {
        Hour::ThreeToFour
    }
}

/// The stable small-integer code a bucket is stored as.
pub open spec fn spec_hour_code(h: Hour) -> i8 {
    match h {
        Hour::ElevenToTwelve => 10,
        Hour::TwelveToOne => 11,
        Hour::OneToTwo => 12,
        Hour::TwoToThree => 13,
        Hour::ThreeToFour => 14,
    }
}

/// How a bucket is read back from a stored column value: an integer between
/// 10 and 14 inclusive.
pub open spec fn spec_decode_hour(v: SpecStored) -> Result<Hour, MarshalError> {
    match v {
        SpecStored::Integer(n) => if 10 <= n <= 14 {
            Ok(spec_hour_of_clock(n as u32))
        } else {
            Err(MarshalError::OutOfRange)
        },
        _ => Err(MarshalError::WrongColumnType),
    }
}

impl Hour {
    /// The bucket a clock hour falls into.
    pub fn from_clock(h: u32) -> (r: Hour)
        ensures
            r == spec_hour_of_clock(h),
    {
        match h {
            10 => Hour::ElevenToTwelve,
            11 => Hour::TwelveToOne,
            12 => Hour::OneToTwo,
            13 => Hour::TwoToThree,
            _ => Hour::ThreeToFour,
        }
    }

    /// The stable small-integer code this bucket is stored as.
    pub fn code(&self) -> (r: i8)
        ensures
            r == spec_hour_code(*self),
    {
        match self {
            Hour::ElevenToTwelve => 10,
            Hour::TwelveToOne => 11,
            Hour::OneToTwo => 12,
            Hour::TwoToThree => 13,
            Hour::ThreeToFour => 14,
        }
    }

    /// The field value a bucket encodes to: its code as a `TINYINT`.
    pub fn to_field(&self) -> (r: FieldValue)
        ensures
            r@ == SpecField::TinyInt(spec_hour_code(*self)),
    {
        FieldValue::TinyInt(self.code())
    }

    /// Reads a bucket back from a stored column value.
    pub fn decode(v: &StoredValue) -> (r: Result<Hour, MarshalError>)
        ensures
            r == spec_decode_hour(v@),
    {
        match v {
            StoredValue::Integer(n) => {
                if 10 <= *n && *n <= 14 {
                    Ok(Hour::from_clock(*n as u32))
                } else {
                    Err(MarshalError::OutOfRange)
                }
            },
            _ => Err(MarshalError::WrongColumnType),
        }
    }
}

/// Reading a bucket's stored code back yields the same bucket.
pub proof fn lemma_hour_roundtrip(h: Hour)
    ensures
        spec_decode_hour(SpecStored::Integer(spec_hour_code(h) as i64)) == Ok::<
            Hour,
            MarshalError,
        >(h),
{
}

} // verus!
