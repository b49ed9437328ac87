use vstd::prelude::*;

use crate::model::transaction_record::{TransactionKind, TransactionRecord};

verus! {

/// An entity that can summarize itself as a normalized transaction record.
/// The record's total cost is always derived from the entity's own prices,
/// never stored independently; conversion is only owed for entities that
/// pass their own validity predicate.
pub trait AsTransactionRecord: Sized {
    /// The entity's validity predicate: a payment method is present
    /// whenever the entity's cost is not zero, and the quantity is positive.
    spec fn spec_is_valid(&self) -> bool;

    /// The kind of the derived record.
    spec fn spec_record_kind(&self) -> TransactionKind;

    /// The human-readable description of the derived record.
    spec fn spec_record_description(&self) -> Seq<char>;

    /// The unit count of the derived record.
    spec fn spec_record_quantity(&self) -> u16;

    /// The derived total cost in cents, as unbounded arithmetic.
    spec fn spec_record_total(&self) -> int;

    /// Whether the entity passes its own validity predicate.
    fn is_valid(&self) -> (r: bool)
        ensures
            r == self.spec_is_valid(),
    ;

    /// The normalized record summarizing this entity.
    fn as_transaction_record(&self) -> (r: TransactionRecord)
        requires
            self.spec_is_valid(),
            0 <= self.spec_record_total() <= u64::MAX,
        ensures
            r.kind == self.spec_record_kind(),
            r.description@ == self.spec_record_description(),
            r.quantity == self.spec_record_quantity(),
            r.total_cost == self.spec_record_total(),
    ;
}

} // verus!
