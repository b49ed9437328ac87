use vstd::prelude::*;

use crate::database::object_mapper::{ObjectMapper, lemma_find_field_absent};
use crate::database::storable::{CanBuildObjectMapper, Duplicable, FromSql, TimingColumnsFree};
use crate::error::MarshalError;
use crate::model::admission_kind::{
    Kind, spec_admission_cost_cents, spec_admission_kind_description, spec_admission_kind_name,
    spec_decode_admission_kind,
};
use crate::model::as_transaction_record::AsTransactionRecord;
use crate::model::has_payment_method::HasPaymentMethod;
use crate::model::has_total_cost::HasTotalCost;
use crate::model::payment_method::{
    PaymentMethod, spec_decode_opt_payment_method, spec_payment_method_name,
};
use crate::model::transaction_record::{TransactionKind, TransactionRecord};
use crate::value::{
    FieldValue, Row, SpecField, SpecStored, spec_lookup, lookup, spec_decode_u16, decode_u16,
};

verus! {

/// One admission sale: what kind of visitor, how it was paid — absent for
/// the free kinds — and how many visitors.
#[derive(Clone, Copy, Debug)]
pub struct Admission {
    pub kind: Kind,
    pub payment_method: Option<PaymentMethod>,
    pub quantity: u16,
}

impl View for Admission {
    type V = Admission;

    /// An admission carries only plain values, so it is its own model.
    open spec fn view(&self) -> Admission {
        *self
    }
}

impl Duplicable for Admission {
    fn duplicate(&self) -> (r: Admission) {
        Admission { kind: self.kind, payment_method: self.payment_method, quantity: self.quantity }
    }
}

impl Admission {
    /// Builds an admission from its parts.
    pub fn new(kind: Kind, payment_method: Option<PaymentMethod>, quantity: u16) -> (r: Admission)
        ensures
            r.kind == kind,
            r.payment_method == payment_method,
            r.quantity == quantity,
    {
        Admission { kind, payment_method, quantity }
    }
}

impl Default for Admission {
    /// An adult admission of no visitors and no payment method.
    fn default() -> (r: Admission)
        ensures
            r.kind == Kind::Adult,
            r.payment_method is None,
            r.quantity == 0,
    {
        Admission { kind: Kind::Adult, payment_method: None, quantity: 0 }
    }
}

impl HasTotalCost for Admission {
    /// Unit price of the kind times the quantity.
    open spec fn spec_total_cost(&self) -> int {
        spec_admission_cost_cents(self.kind) * self.quantity
    }

    proof fn lemma_total_cost_nonneg(&self) {
        assert(spec_admission_cost_cents(self.kind) * self.quantity >= 0) by (nonlinear_arith);
    }

    fn total_cost(&self) -> (r: u64) {
        let cost = self.kind.cost_cents();
        proof {
            assert(cost * self.quantity <= 800 * 0xffff) by (nonlinear_arith)
                requires
                    cost <= 800,
                    self.quantity <= 0xffff,
            ;
        }
        cost * (self.quantity as u64)
    }
}

impl HasPaymentMethod for Admission {
    open spec fn spec_payment_method(&self) -> Option<PaymentMethod> {
        self.payment_method
    }

    fn payment_method(&self) -> (r: Option<PaymentMethod>) {
        self.payment_method
    }
}

impl AsTransactionRecord for Admission {
    /// Valid when a payment method is present unless the kind is free, and
    /// at least one visitor is admitted.
    open spec fn spec_is_valid(&self) -> bool {
        (spec_admission_cost_cents(self.kind) == 0 || self.payment_method is Some)
            && self.quantity >= 1
    }

    open spec fn spec_record_kind(&self) -> TransactionKind {
        TransactionKind::Admission
    }

    open spec fn spec_record_description(&self) -> Seq<char> {
        spec_admission_kind_description(self.kind)
    }

    open spec fn spec_record_quantity(&self) -> u16 {
        self.quantity
    }

    open spec fn spec_record_total(&self) -> int {
        self.spec_total_cost()
    }

    fn is_valid(&self) -> (r: bool) {
        (self.kind.is_free() || self.payment_method.is_some()) && self.quantity >= 1
    }

    fn as_transaction_record(&self) -> (r: TransactionRecord) {
        TransactionRecord::new(
            TransactionKind::Admission,
            self.kind.as_description(),
            self.quantity,
            self.total_cost(),
        )
    }
}

/// The admission's ordered field list: kind, payment method, quantity.
pub open spec fn spec_admission_fields(a: Admission) -> Seq<(Seq<char>, SpecField)> {
    seq![
        ("kind"@, SpecField::Text(spec_admission_kind_name(a.kind))),
        (
            "payment_method"@,
            SpecField::OptText(
                match a.payment_method {
                    Some(p) => Some(spec_payment_method_name(p)),
                    None => None,
                },
            ),
        ),
        ("quantity"@, SpecField::Int(a.quantity as i32)),
    ]
}

impl CanBuildObjectMapper for Admission {
    open spec fn spec_table_name() -> Seq<char> {
        "admissions"@
    }

    open spec fn spec_fields(&self) -> Seq<(Seq<char>, SpecField)> {
        spec_admission_fields(*self)
    }

    open spec fn fields_wf(&self) -> bool {
        true
    }

    fn table_name() -> (r: String) {
        "admissions".to_owned()
    }

    fn build_object_mapper(&self) -> (r: ObjectMapper) {
        proof {
            reveal_strlit("kind");
            reveal_strlit("payment_method");
            reveal_strlit("quantity");
            assert("kind"@.len() == 4);
            assert("payment_method"@.len() == 14);
            assert("quantity"@.len() == 8);
        }
        let mut mapper = ObjectMapper::new("admissions");
        mapper.add_field("kind", FieldValue::Text(self.kind.name()));
        proof {
            assert(mapper.fields_view() =~= spec_admission_fields(*self).take(1));
        }
        let pm_text = match &self.payment_method {
            Some(p) => Some(p.name()),
            None => None,
        };
        mapper.add_field("payment_method", FieldValue::OptText(pm_text));
        proof {
            lemma_find_field_absent(spec_admission_fields(*self).take(1), "payment_method"@);
            assert(mapper.fields_view() =~= spec_admission_fields(*self).take(2));
        }
        mapper.add_field("quantity", FieldValue::Int(self.quantity as i32));
        proof {
            lemma_find_field_absent(spec_admission_fields(*self).take(2), "quantity"@);
            assert(mapper.fields_view() =~= spec_admission_fields(*self));
        }
        mapper
    }
}

impl TimingColumnsFree for Admission {
    proof fn lemma_timing_columns_free(&self) {
        reveal_strlit("kind");
        reveal_strlit("payment_method");
        reveal_strlit("quantity");
        reveal_strlit("date_time");
        reveal_strlit("hour");
        assert("kind"@.len() == 4);
        assert("payment_method"@.len() == 14);
        assert("quantity"@.len() == 8);
        assert("date_time"@.len() == 9);
        assert("hour"@.len() == 4);
        assert("kind"@[0] == 'k');
        assert("hour"@[0] == 'h');
        lemma_find_field_absent(self.spec_fields(), "date_time"@);
        lemma_find_field_absent(self.spec_fields(), "hour"@);
    }
}

impl FromSql for Admission {
    /// Columns are read in field order: kind, payment method, quantity.
    open spec fn spec_from_sql(row: Seq<(Seq<char>, SpecStored)>) -> Result<Admission, MarshalError> {
        match spec_lookup(row, "kind"@) {
            None => Err(MarshalError::MissingColumn),
            Some(kv) => match spec_decode_admission_kind(kv) {
                Err(e) => Err(e),
                Ok(kind) => match spec_lookup(row, "payment_method"@) {
                    None => Err(MarshalError::MissingColumn),
                    Some(pv) => match spec_decode_opt_payment_method(pv) {
                        Err(e) => Err(e),
                        Ok(payment_method) => match spec_lookup(row, "quantity"@) {
                            None => Err(MarshalError::MissingColumn),
                            Some(qv) => match spec_decode_u16(qv) {
                                Err(e) => Err(e),
                                Ok(quantity) => Ok(Admission { kind, payment_method, quantity }),
                            },
                        },
                    },
                },
            },
        }
    }

    fn from_sql(row: &Row) -> (r: Result<Self, MarshalError>) {
        let kv = match lookup(row, "kind") {
            None => {
                return Err(MarshalError::MissingColumn);
            },
            Some(v) => v,
        };
        let kind = match Kind::decode(&kv) {
            Err(e) => {
                return Err(e);
            },
            Ok(k) => k,
        };
        let pv = match lookup(row, "payment_method") {
            None => {
                return Err(MarshalError::MissingColumn);
            },
            Some(v) => v,
        };
        let payment_method = match PaymentMethod::decode_opt(&pv) {
            Err(e) => {
                return Err(e);
            },
            Ok(p) => p,
        };
        let qv = match lookup(row, "quantity") {
            None => {
                return Err(MarshalError::MissingColumn);
            },
            Some(v) => v,
        };
        let quantity = match decode_u16(&qv) {
            Err(e) => {
                return Err(e);
            },
            Ok(q) => q,
        };
        Ok(Admission { kind, payment_method, quantity })
    }
}


/// Reading an admission back out of the row its own fields store is the
/// identity: the decoded entity is the one that was encoded.
pub proof fn lemma_admission_row_roundtrip(a: Admission)
    ensures
        Admission::spec_from_sql(crate::value::spec_stored_row(spec_admission_fields(a))) == Ok::<
            Admission,
            MarshalError,
        >(a),
{
    reveal_strlit("kind");
    reveal_strlit("payment_method");
    reveal_strlit("quantity");
    assert("kind"@.len() == 4);
    assert("payment_method"@.len() == 14);
    assert("quantity"@.len() == 8);
    let row = crate::value::spec_stored_row(spec_admission_fields(a));
    let kind_stored = crate::value::spec_stored(spec_admission_fields(a)[0].1);
    let pm_stored = crate::value::spec_stored(spec_admission_fields(a)[1].1);
    let q_stored = crate::value::spec_stored(spec_admission_fields(a)[2].1);
    assert(row =~= seq![
        ("kind"@, kind_stored),
        ("payment_method"@, pm_stored),
        ("quantity"@, q_stored),
    ]);
    crate::value::lemma_lookup_head(row, "kind"@);
    crate::value::lemma_lookup_skip(row, "payment_method"@);
    assert(row.drop_first() =~= seq![("payment_method"@, pm_stored), ("quantity"@, q_stored)]);
    crate::value::lemma_lookup_head(row.drop_first(), "payment_method"@);
    crate::value::lemma_lookup_skip(row, "quantity"@);
    crate::value::lemma_lookup_skip(row.drop_first(), "quantity"@);
    assert(row.drop_first().drop_first() =~= seq![("quantity"@, q_stored)]);
    crate::value::lemma_lookup_head(row.drop_first().drop_first(), "quantity"@);
    crate::model::admission_kind::lemma_admission_kind_roundtrip(a.kind);
    if a.payment_method is Some {
        crate::model::payment_method::lemma_payment_method_roundtrip(a.payment_method.unwrap());
    }
}

} // verus!
