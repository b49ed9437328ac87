use vstd::prelude::*;

use crate::error::MarshalError;
use crate::value::{SpecStored, StoredValue};

verus! {

/// The kinds of membership the venue sells, each at a fixed unit price.
#[derive(Clone, Copy, Debug, PartialEq, Eq, Structural)]
pub enum Kind {
    Family,
    Individual,
    SeniorFamily,
    SeniorIndividual,
    LifetimeMember,
}

/// The fixed unit price of a membership kind, in cents.
pub open spec fn spec_membership_price_cents(k: Kind) -> u64 {
    match k {
        Kind::Family => 4000,
        Kind::Individual => 2500,
        Kind::SeniorFamily => 1500,
        Kind::SeniorIndividual => 2500,
        Kind::LifetimeMember => 75000,
    }
}

/// The canonical display name of a membership kind.
pub open spec fn spec_membership_kind_name(k: Kind) -> Seq<char> {
    match k {
        Kind::Family => "Family"@,
        Kind::Individual => "Individual"@,
        Kind::SeniorFamily => "Senior Family (60+)"@,
        Kind::SeniorIndividual => "Senior Individual (60+)"@,
        Kind::LifetimeMember => "Life Member"@,
    }
}

/// The membership kind a display name denotes.
pub open spec fn spec_parse_membership_kind(s: Seq<char>) -> Result<Kind, MarshalError> {
    if s == "Family"@ {
        Ok(Kind::Family)
    } else if s == "Individual"@ {
        Ok(Kind::Individual)
    } else if s == "Senior Family (60+)"@ {
        Ok(Kind::SeniorFamily)
    } else if s == "Senior Individual (60+)"@ {
        Ok(Kind::SeniorIndividual)
    } else if s == "Life Member"@ {
        Ok(Kind::LifetimeMember)
    } else {
        Err(MarshalError::UnknownVariant)
    }
}

/// How a membership kind is read back from a stored column value.
pub open spec fn spec_decode_membership_kind(v: SpecStored) -> Result<Kind, MarshalError> {
    match v {
        SpecStored::Text(s) => spec_parse_membership_kind(s),
        _ => Err(MarshalError::WrongColumnType),
    }
}

impl Kind {
    /// The fixed unit price of this kind, in cents.
    pub fn price_cents(&self) -> (r: u64)
        ensures
            r == spec_membership_price_cents(*self),
    {
        match self {
            Kind::Family => 4000,
            Kind::Individual => 2500,
            Kind::SeniorFamily => 1500,
            Kind::SeniorIndividual => 2500,
            Kind::LifetimeMember => 75000,
        }
    }

    /// The canonical display name.
    pub fn name(&self) -> (r: String)
        ensures
            r@ == spec_membership_kind_name(*self),
    {
        match self {
            Kind::Family => "Family".to_owned(),
            Kind::Individual => "Individual".to_owned(),
            Kind::SeniorFamily => "Senior Family (60+)".to_owned(),
            Kind::SeniorIndividual => "Senior Individual (60+)".to_owned(),
            Kind::LifetimeMember => "Life Member".to_owned(),
        }
    }

    /// Reads a membership kind from its display name.
    pub fn parse_name(s: &str) -> (r: Result<Kind, MarshalError>)
        ensures
            r == spec_parse_membership_kind(s@),
    {
        let candidate = s.to_owned();
        if candidate == "Family".to_owned() {
            Ok(Kind::Family)
        } else if candidate == "Individual".to_owned() {
            Ok(Kind::Individual)
        } else if candidate == "Senior Family (60+)".to_owned() {
            Ok(Kind::SeniorFamily)
        } else if candidate == "Senior Individual (60+)".to_owned() {
            Ok(Kind::SeniorIndividual)
        } else if candidate == "Life Member".to_owned() {
            Ok(Kind::LifetimeMember)
        } else {
            Err(MarshalError::UnknownVariant)
        }
    }

    /// Reads a membership kind back from a stored column value.
    pub fn decode(v: &StoredValue) -> (r: Result<Kind, MarshalError>)
        ensures
            r == spec_decode_membership_kind(v@),
    {
        match v {
            StoredValue::Text(s) => Kind::parse_name(s.as_str()),
            _ => Err(MarshalError::WrongColumnType),
        }
    }
}

impl Default for Kind {
    /// Family, as forms start out.
    fn default() -> (r: Kind)
        ensures
            r == Kind::Family,
    {
        Kind::Family
    }
}

/// Reading a membership kind's name back yields the same kind.
pub proof fn lemma_membership_kind_roundtrip(k: Kind)
    ensures
        spec_parse_membership_kind(spec_membership_kind_name(k)) == Ok::<Kind, MarshalError>(k),
{
    reveal_strlit("Family");
    reveal_strlit("Individual");
    reveal_strlit("Senior Family (60+)");
    reveal_strlit("Senior Individual (60+)");
    reveal_strlit("Life Member");
    assert("Family"@.len() == 6);
    assert("Individual"@.len() == 10);
    assert("Senior Family (60+)"@.len() == 19);
    assert("Senior Individual (60+)"@.len() == 23);
    assert("Life Member"@.len() == 11);
}

} // verus!
