use vstd::prelude::*;

use crate::database::object_mapper::{ObjectMapper, lemma_find_field_absent};
use crate::database::storable::{CanBuildObjectMapper, Duplicable, FromSql, TimingColumnsFree};
use crate::error::MarshalError;
use crate::model::as_transaction_record::AsTransactionRecord;
use crate::model::has_payment_method::HasPaymentMethod;
use crate::model::has_total_cost::HasTotalCost;
use crate::model::membership_kind::{
    Kind, spec_decode_membership_kind, spec_membership_kind_name, spec_membership_price_cents,
};
use crate::model::payment_method::{
    PaymentMethod, spec_decode_payment_method, spec_payment_method_name,
};
use crate::model::transaction_record::{TransactionKind, TransactionRecord};
use crate::value::{
    FieldValue, Row, SpecField, SpecStored, spec_lookup, lookup, spec_decode_u16, decode_u16,
};

verus! {

/// One membership sale: which membership, how it was paid, and how many.
#[derive(Clone, Copy, Debug)]
pub struct Membership {
    pub kind: Kind,
    pub payment_method: PaymentMethod,
    pub quantity: u16,
}

impl View for Membership {
    type V = Membership;

    /// A membership sale carries only plain values, so it is its own model.
    open spec fn view(&self) -> Membership {
        *self
    }
}

impl Duplicable for Membership {
    fn duplicate(&self) -> (r: Membership) {
        Membership { kind: self.kind, payment_method: self.payment_method, quantity: self.quantity }
    }
}

impl Membership {
    /// Builds a membership sale from its parts.
    pub fn new(kind: Kind, payment_method: PaymentMethod, quantity: u16) -> (r: Membership)
        ensures
            r.kind == kind,
            r.payment_method == payment_method,
            r.quantity == quantity,
    {
        Membership { kind, payment_method, quantity }
    }

    /// Whether this sale is of the given membership kind.
    pub fn matches_type(&self, kind: Kind) -> (r: bool)
        ensures
            r == (self.kind == kind),
    {
        self.kind == kind
    }
}

impl Default for Membership {
    /// A family membership of no units, paid in cash.
    fn default() -> (r: Membership)
        ensures
            r.kind == Kind::Family,
            r.payment_method == PaymentMethod::Cash,
            r.quantity == 0,
    {
        Membership { kind: Kind::Family, payment_method: PaymentMethod::Cash, quantity: 0 }
    }
}

impl HasTotalCost for Membership {
    /// Unit price of the kind times the quantity.
    open spec fn spec_total_cost(&self) -> int {
        spec_membership_price_cents(self.kind) * self.quantity
    }

    proof fn lemma_total_cost_nonneg(&self) {
        assert(spec_membership_price_cents(self.kind) * self.quantity >= 0) by (nonlinear_arith);
    }

    fn total_cost(&self) -> (r: u64) {
        let price = self.kind.price_cents();
        proof {
            assert(price * self.quantity <= 75000 * 0xffff) by (nonlinear_arith)
                requires
                    price <= 75000,
                    self.quantity <= 0xffff,
            ;
        }
        price * (self.quantity as u64)
    }
}

impl HasPaymentMethod for Membership {
    open spec fn spec_payment_method(&self) -> Option<PaymentMethod> {
        Some(self.payment_method)
    }

    fn payment_method(&self) -> (r: Option<PaymentMethod>) {
        Some(self.payment_method)
    }
}

impl AsTransactionRecord for Membership {
    /// A membership always carries its payment method; it is valid when at
    /// least one unit is sold.
    open spec fn spec_is_valid(&self) -> bool {
        self.quantity >= 1
    }

    open spec fn spec_record_kind(&self) -> TransactionKind {
        TransactionKind::Membership
    }

    open spec fn spec_record_description(&self) -> Seq<char> {
        spec_membership_kind_name(self.kind)
    }

    open spec fn spec_record_quantity(&self) -> u16 {
        self.quantity
    }

    open spec fn spec_record_total(&self) -> int {
        self.spec_total_cost()
    }

    fn is_valid(&self) -> (r: bool) {
        self.quantity >= 1
    }

    fn as_transaction_record(&self) -> (r: TransactionRecord) {
        TransactionRecord::new(
            TransactionKind::Membership,
            self.kind.name(),
            self.quantity,
            self.total_cost(),
        )
    }
}

/// The membership's ordered field list: kind, payment method, quantity.
pub open spec fn spec_membership_fields(m: Membership) -> Seq<(Seq<char>, SpecField)> {
    seq![
        ("kind"@, SpecField::Text(spec_membership_kind_name(m.kind))),
        ("payment_method"@, SpecField::Text(spec_payment_method_name(m.payment_method))),
        ("quantity"@, SpecField::Int(m.quantity as i32)),
    ]
}

impl CanBuildObjectMapper for Membership {
    open spec fn spec_table_name() -> Seq<char> {
        "memberships"@
    }

    open spec fn spec_fields(&self) -> Seq<(Seq<char>, SpecField)> {
        spec_membership_fields(*self)
    }

    open spec fn fields_wf(&self) -> bool {
        true
    }

    fn table_name() -> (r: String) {
        "memberships".to_owned()
    }

    fn build_object_mapper(&self) -> (r: ObjectMapper) {
        proof {
            reveal_strlit("kind");
            reveal_strlit("payment_method");
            reveal_strlit("quantity");
            assert("kind"@.len() == 4);
            assert("payment_method"@.len() == 14);
            assert("quantity"@.len() == 8);
        }
        let mut mapper = ObjectMapper::new("memberships");
        mapper.add_field("kind", FieldValue::Text(self.kind.name()));
        proof {
            assert(mapper.fields_view() =~= spec_membership_fields(*self).take(1));
        }
        mapper.add_field("payment_method", self.payment_method.to_field());
        proof {
            lemma_find_field_absent(spec_membership_fields(*self).take(1), "payment_method"@);
            assert(mapper.fields_view() =~= spec_membership_fields(*self).take(2));
        }
        mapper.add_field("quantity", FieldValue::Int(self.quantity as i32));
        proof {
            lemma_find_field_absent(spec_membership_fields(*self).take(2), "quantity"@);
            assert(mapper.fields_view() =~= spec_membership_fields(*self));
        }
        mapper
    }
}

impl TimingColumnsFree for Membership {
    proof fn lemma_timing_columns_free(&self) {
        reveal_strlit("kind");
        reveal_strlit("payment_method");
        reveal_strlit("quantity");
        reveal_strlit("date_time");
        reveal_strlit("hour");
        assert("kind"@.len() == 4);
        assert("payment_method"@.len() == 14);
        assert("quantity"@.len() == 8);
        assert("date_time"@.len() == 9);
        assert("hour"@.len() == 4);
        assert("kind"@[0] == 'k');
        assert("hour"@[0] == 'h');
        lemma_find_field_absent(self.spec_fields(), "date_time"@);
        lemma_find_field_absent(self.spec_fields(), "hour"@);
    }
}

impl FromSql for Membership {
    /// Columns are read in field order: kind, payment method, quantity.
    open spec fn spec_from_sql(row: Seq<(Seq<char>, SpecStored)>) -> Result<Membership, MarshalError> {
        match spec_lookup(row, "kind"@) {
            None => Err(MarshalError::MissingColumn),
            Some(kv) => match spec_decode_membership_kind(kv) {
                Err(e) => Err(e),
                Ok(kind) => match spec_lookup(row, "payment_method"@) {
                    None => Err(MarshalError::MissingColumn),
                    Some(pv) => match spec_decode_payment_method(pv) {
                        Err(e) => Err(e),
                        Ok(payment_method) => match spec_lookup(row, "quantity"@) {
                            None => Err(MarshalError::MissingColumn),
                            Some(qv) => match spec_decode_u16(qv) {
                                Err(e) => Err(e),
                                Ok(quantity) => Ok(Membership { kind, payment_method, quantity }),
                            },
                        },
                    },
                },
            },
        }
    }

    fn from_sql(row: &Row) -> (r: Result<Self, MarshalError>) {
        let kv = match lookup(row, "kind") {
            None => {
                return Err(MarshalError::MissingColumn);
            },
            Some(v) => v,
        };
        let kind = match Kind::decode(&kv) {
            Err(e) => {
                return Err(e);
            },
            Ok(k) => k,
        };
        let pv = match lookup(row, "payment_method") {
            None => {
                return Err(MarshalError::MissingColumn);
            },
            Some(v) => v,
        };
        let payment_method = match PaymentMethod::decode(&pv) {
            Err(e) => {
                return Err(e);
            },
            Ok(p) => p,
        };
        let qv = match lookup(row, "quantity") {
            None => {
                return Err(MarshalError::MissingColumn);
            },
            Some(v) => v,
        };
        let quantity = match decode_u16(&qv) {
            Err(e) => {
                return Err(e);
            },
            Ok(q) => q,
        };
        Ok(Membership { kind, payment_method, quantity })
    }
}


/// Reading a membership sale back out of the row its own fields store is
/// the identity: the decoded entity is the one that was encoded.
pub proof fn lemma_membership_row_roundtrip(m: Membership)
    ensures
        Membership::spec_from_sql(crate::value::spec_stored_row(spec_membership_fields(m)))
            == Ok::<Membership, MarshalError>(m),
{
    reveal_strlit("kind");
    reveal_strlit("payment_method");
    reveal_strlit("quantity");
    assert("kind"@.len() == 4);
    assert("payment_method"@.len() == 14);
    assert("quantity"@.len() == 8);
    let row = crate::value::spec_stored_row(spec_membership_fields(m));
    let kind_stored = crate::value::spec_stored(spec_membership_fields(m)[0].1);
    let pm_stored = crate::value::spec_stored(spec_membership_fields(m)[1].1);
    let q_stored = crate::value::spec_stored(spec_membership_fields(m)[2].1);
    assert(row =~= seq![
        ("kind"@, kind_stored),
        ("payment_method"@, pm_stored),
        ("quantity"@, q_stored),
    ]);
    crate::value::lemma_lookup_head(row, "kind"@);
    crate::value::lemma_lookup_skip(row, "payment_method"@);
    assert(row.drop_first() =~= seq![("payment_method"@, pm_stored), ("quantity"@, q_stored)]);
    crate::value::lemma_lookup_head(row.drop_first(), "payment_method"@);
    crate::value::lemma_lookup_skip(row, "quantity"@);
    crate::value::lemma_lookup_skip(row.drop_first(), "quantity"@);
    assert(row.drop_first().drop_first() =~= seq![("quantity"@, q_stored)]);
    crate::value::lemma_lookup_head(row.drop_first().drop_first(), "quantity"@);
    crate::model::membership_kind::lemma_membership_kind_roundtrip(m.kind);
    crate::model::payment_method::lemma_payment_method_roundtrip(m.payment_method);
}

} // verus!
