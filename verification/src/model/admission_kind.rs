use vstd::prelude::*;

use crate::error::MarshalError;
use crate::value::{SpecStored, StoredValue};

verus! {

/// The kinds of admission the venue sells, each at a fixed price.
#[derive(Clone, Copy, Debug, PartialEq, Eq, Hash, Structural)]
pub enum Kind {
    Adult,
    Senior,
    ChildUnderThirteen,
    ChildUnderSix,
    PfspMember,
    Resident,
}

/// The fixed price of an admission kind, in cents.
pub open spec fn spec_admission_cost_cents(k: Kind) -> u64 {
    match k {
        Kind::Adult => 800,
        Kind::Senior => 500,
        Kind::ChildUnderThirteen => 300,
        Kind::ChildUnderSix => 0,
        Kind::PfspMember => 0,
        Kind::Resident => 0,
    }
}

/// The canonical display name of an admission kind.
pub open spec fn spec_admission_kind_name(k: Kind) -> Seq<char> {
    match k {
        Kind::Adult => "Adult"@,
        Kind::Senior => "Senior"@,
        Kind::ChildUnderThirteen => "Child (6-12)"@,
        Kind::ChildUnderSix => "Child (Under 6)"@,
        Kind::PfspMember => "PFSP Member"@,
        Kind::Resident => "Silver Plume Resident"@,
    }
}

/// The listing description of an admission kind: its name with its price.
pub open spec fn spec_admission_kind_description(k: Kind) -> Seq<char> {
    match k {
        Kind::Adult => "Adult - $8.00"@,
        Kind::Senior => "Adult - $5.00"@,
        Kind::ChildUnderThirteen => "Child (6-12) - $3.00"@,
        Kind::ChildUnderSix => "Child (Under 6) - Free"@,
        Kind::PfspMember => "PFSP Member - Free"@,
        Kind::Resident => "Resident - Free"@,
    }
}

/// The admission kind a display name denotes.
pub open spec fn spec_parse_admission_kind(s: Seq<char>) -> Result<Kind, MarshalError> {
    if s == "Adult"@ {
        Ok(Kind::Adult)
    } else if s == "Senior"@ {
        Ok(Kind::Senior)
    } else if s == "Child (6-12)"@ {
        Ok(Kind::ChildUnderThirteen)
    } else if s == "Child (Under 6)"@ {
        Ok(Kind::ChildUnderSix)
    } else if s == "PFSP Member"@ {
        Ok(Kind::PfspMember)
    } else if s == "Silver Plume Resident"@ {
        Ok(Kind::Resident)
    } else {
        Err(MarshalError::UnknownVariant)
    }
}

/// How an admission kind is read back from a stored column value.
pub open spec fn spec_decode_admission_kind(v: SpecStored) -> Result<Kind, MarshalError> {
    match v {
        SpecStored::Text(s) => spec_parse_admission_kind(s),
        _ => Err(MarshalError::WrongColumnType),
    }
}

impl Kind {
    /// The fixed price of this kind, in cents.
    pub fn cost_cents(&self) -> (r: u64)
        ensures
            r == spec_admission_cost_cents(*self),
    {
        match self {
            Kind::Adult => 800,
            Kind::Senior => 500,
            Kind::ChildUnderThirteen => 300,
            Kind::ChildUnderSix => 0,
            Kind::PfspMember => 0,
            Kind::Resident => 0,
        }
    }

    /// Whether this kind costs nothing, so that no payment method is owed.
    pub fn is_free(&self) -> (r: bool)
        ensures
            r == (spec_admission_cost_cents(*self) == 0),
    {
        self.cost_cents() == 0
    }

    /// The canonical display name.
    pub fn name(&self) -> (r: String)
        ensures
            r@ == spec_admission_kind_name(*self),
    {
        match self {
            Kind::Adult => "Adult".to_owned(),
            Kind::Senior => "Senior".to_owned(),
            Kind::ChildUnderThirteen => "Child (6-12)".to_owned(),
            Kind::ChildUnderSix => "Child (Under 6)".to_owned(),
            Kind::PfspMember => "PFSP Member".to_owned(),
            Kind::Resident => "Silver Plume Resident".to_owned(),
        }
    }

    /// The listing description: the name with the price.
    pub fn as_description(&self) -> (r: String)
        ensures
            r@ == spec_admission_kind_description(*self),
    {
        match self {
            Kind::Adult => "Adult - $8.00".to_owned(),
            Kind::Senior => "Adult - $5.00".to_owned(),
            Kind::ChildUnderThirteen => "Child (6-12) - $3.00".to_owned(),
            Kind::ChildUnderSix => "Child (Under 6) - Free".to_owned(),
            Kind::PfspMember => "PFSP Member - Free".to_owned(),
            Kind::Resident => "Resident - Free".to_owned(),
        }
    }

    /// Reads an admission kind from its display name.
    pub fn parse_name(s: &str) -> (r: Result<Kind, MarshalError>)
        ensures
            r == spec_parse_admission_kind(s@),
    {
        let candidate = s.to_owned();
        if candidate == "Adult".to_owned() {
            Ok(Kind::Adult)
        } else if candidate == "Senior".to_owned() {
            Ok(Kind::Senior)
        } else if candidate == "Child (6-12)".to_owned() {
            Ok(Kind::ChildUnderThirteen)
        } else if candidate == "Child (Under 6)".to_owned() {
            Ok(Kind::ChildUnderSix)
        } else if candidate == "PFSP Member".to_owned() {
            Ok(Kind::PfspMember)
        } else if candidate == "Silver Plume Resident".to_owned() {
            Ok(Kind::Resident)
        } else {
            Err(MarshalError::UnknownVariant)
        }
    }

    /// Reads an admission kind back from a stored column value.
    pub fn decode(v: &StoredValue) -> (r: Result<Kind, MarshalError>)
        ensures
            r == spec_decode_admission_kind(v@),
    {
        match v {
            StoredValue::Text(s) => Kind::parse_name(s.as_str()),
            _ => Err(MarshalError::WrongColumnType),
        }
    }
}

impl Default for Kind {
    /// Adult, as forms start out.
    fn default() -> (r: Kind)
        ensures
            r == Kind::Adult,
    {
        Kind::Adult
    }
}

/// Reading an admission kind's name back yields the same kind.
pub proof fn lemma_admission_kind_roundtrip(k: Kind)
    ensures
        spec_parse_admission_kind(spec_admission_kind_name(k)) == Ok::<Kind, MarshalError>(k),
{
    reveal_strlit("Adult");
    reveal_strlit("Senior");
    reveal_strlit("Child (6-12)");
    reveal_strlit("Child (Under 6)");
    reveal_strlit("PFSP Member");
    reveal_strlit("Silver Plume Resident");
    assert("Adult"@.len() == 5);
    assert("Senior"@.len() == 6);
    assert("Child (6-12)"@.len() == 12);
    assert("Child (Under 6)"@.len() == 15);
    assert("PFSP Member"@.len() == 11);
    assert("Silver Plume Resident"@.len() == 21);
}

} // verus!
