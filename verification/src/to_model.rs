use vstd::prelude::*;

use crate::error::StoreError;

verus! {

/// A draft form that can be converted into a validated domain entity. The
/// conversion succeeds exactly on drafts that pass validation, and is the
/// only way a draft reaches the persistence layer. The contract is stated
/// over the entity's mathematical view.
pub trait ToModel {
    /// The domain entity the draft converts to.
    type ModelType: View;

    /// What the conversion yields, including exactly when it is refused.
    spec fn spec_to_model(&self) -> Result<<Self::ModelType as View>::V, StoreError>;

    /// Converts the draft into its validated domain entity.
    fn to_model(&self) -> (r: Result<Self::ModelType, StoreError>)
        ensures
            match r {
                Ok(v) => self.spec_to_model() == Ok::<<Self::ModelType as View>::V, StoreError>(
                    v@,
                ),
                Err(e) => self.spec_to_model() == Err::<<Self::ModelType as View>::V, StoreError>(
                    e,
                ),
            },
    ;
}

} // verus!
