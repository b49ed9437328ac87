use vstd::prelude::*;

verus! {

/// Why a stored value could not be read back into its typed form.
#[derive(Clone, Copy, Debug, PartialEq, Eq, Structural)]
pub enum MarshalError {
    /// The column holds a value of another underlying storage type.
    WrongColumnType,
    /// The row has no column of the requested name.
    MissingColumn,
    /// The stored string names no known variant of the expected enumeration.
    UnknownVariant,
    /// The stored number does not fit the field it was read for.
    OutOfRange,
    /// The stored text does not parse as the expected representation.
    Unparseable,
}

/// Failures of the persistence layer.
#[derive(Clone, Copy, Debug, PartialEq, Eq, Structural)]
pub enum StoreError {
    /// The backing store could not be opened or created.
    StoreUnavailable,
    /// A `CREATE TABLE` statement failed at startup.
    SchemaCreationFailed,
    /// A value could not be round-tripped through its stored form.
    Marshal(MarshalError),
    /// An entity failed its own validity predicate.
    ValidationError,
    /// An archive rename or marker write failed during rotation.
    RotationIOError,
}

/// The wording of each marshal failure.
pub open spec fn spec_marshal_error_text(e: MarshalError) -> Seq<char> {
    match e {
        MarshalError::WrongColumnType => "value is of another underlying storage type"@,
        MarshalError::MissingColumn => "the row has no column of that name"@,
        MarshalError::UnknownVariant => "the stored string names no known variant"@,
        MarshalError::OutOfRange => "the stored number does not fit the field"@,
        MarshalError::Unparseable => "the stored text does not parse"@,
    }
}

impl MarshalError {
    /// A sentence naming the failure.
    pub fn describe(&self) -> (r: String)
        ensures
            r@ == spec_marshal_error_text(*self),
    {
        match self {
            MarshalError::WrongColumnType => "value is of another underlying storage type".to_owned(),
            MarshalError::MissingColumn => "the row has no column of that name".to_owned(),
            MarshalError::UnknownVariant => "the stored string names no known variant".to_owned(),
            MarshalError::OutOfRange => "the stored number does not fit the field".to_owned(),
            MarshalError::Unparseable => "the stored text does not parse".to_owned(),
        }
    }
}

/// The wording of each persistence failure.
pub open spec fn spec_store_error_text(e: StoreError) -> Seq<char> {
    match e {
        StoreError::StoreUnavailable => "the backing store cannot be opened or created"@,
        StoreError::SchemaCreationFailed => "a schema could not be created at startup"@,
        StoreError::Marshal(m) => spec_marshal_error_text(m),
        StoreError::ValidationError => "the entity failed its own validity predicate"@,
        StoreError::RotationIOError => "an archive rename or marker write failed"@,
    }
}

impl StoreError {
    /// A sentence naming the failure.
    pub fn describe(&self) -> (r: String)
        ensures
            r@ == spec_store_error_text(*self),
    {
        match self {
            StoreError::StoreUnavailable => "the backing store cannot be opened or created".to_owned(),
            StoreError::SchemaCreationFailed => "a schema could not be created at startup".to_owned(),
            StoreError::Marshal(m) => m.describe(),
            StoreError::ValidationError => "the entity failed its own validity predicate".to_owned(),
            StoreError::RotationIOError => "an archive rename or marker write failed".to_owned(),
        }
    }
}

} // verus!
