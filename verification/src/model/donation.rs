use vstd::prelude::*;

use crate::database::object_mapper::{ObjectMapper, lemma_find_field_absent};
use crate::database::storable::{CanBuildObjectMapper, Duplicable, FromSql, TimingColumnsFree};
use crate::error::MarshalError;
use crate::model::as_transaction_record::AsTransactionRecord;
use crate::model::has_payment_method::HasPaymentMethod;
use crate::model::has_total_cost::HasTotalCost;
use crate::model::payment_method::{
    PaymentMethod, spec_decode_payment_method, spec_payment_method_name,
};
use crate::model::transaction_record::{TransactionKind, TransactionRecord};
use crate::value::{
    FieldValue, Row, SpecField, SpecStored, spec_lookup, lookup, spec_decode_cents, decode_cents,
};

verus! {

/// One donation: how it was paid and the amount given, in cents.
#[derive(Clone, Copy, Debug)]
pub struct Donation {
    pub payment_method: PaymentMethod,
    pub price: u64,
}

impl View for Donation {
    type V = Donation;

    /// A donation carries only plain values, so it is its own model.
    open spec fn view(&self) -> Donation {
        *self
    }
}

impl Duplicable for Donation {
    fn duplicate(&self) -> (r: Donation) {
        Donation { payment_method: self.payment_method, price: self.price }
    }
}

impl Default for Donation {
    /// A cash donation of nothing.
    fn default() -> (r: Donation)
        ensures
            r.payment_method == PaymentMethod::Cash,
            r.price == 0,
    {
        Donation { payment_method: PaymentMethod::Cash, price: 0 }
    }
}

impl HasTotalCost for Donation {
    /// The amount given.
    open spec fn spec_total_cost(&self) -> int {
        self.price as int
    }

    proof fn lemma_total_cost_nonneg(&self) {
    }

    fn total_cost(&self) -> (r: u64) {
        self.price
    }
}

impl HasPaymentMethod for Donation {
    open spec fn spec_payment_method(&self) -> Option<PaymentMethod> {
        Some(self.payment_method)
    }

    fn payment_method(&self) -> (r: Option<PaymentMethod>) {
        Some(self.payment_method)
    }
}

impl AsTransactionRecord for Donation {
    /// A donation always carries its payment method and needs no quantity,
    /// so it is always valid.
    open spec fn spec_is_valid(&self) -> bool {
        true
    }

    open spec fn spec_record_kind(&self) -> TransactionKind {
        TransactionKind::Donation
    }

    open spec fn spec_record_description(&self) -> Seq<char> {
        "Donation"@
    }

    open spec fn spec_record_quantity(&self) -> u16 {
        1
    }

    open spec fn spec_record_total(&self) -> int {
        self.price as int
    }

    fn is_valid(&self) -> (r: bool) {
        true
    }

    fn as_transaction_record(&self) -> (r: TransactionRecord) {
        TransactionRecord::new(TransactionKind::Donation, "Donation".to_owned(), 1, self.price)
    }
}

/// The donation's ordered field list: payment method, price.
pub open spec fn spec_donation_fields(d: Donation) -> Seq<(Seq<char>, SpecField)> {
    seq![
        ("payment_method"@, SpecField::Text(spec_payment_method_name(d.payment_method))),
        ("price"@, SpecField::Money(d.price)),
    ]
}

impl CanBuildObjectMapper for Donation {
    open spec fn spec_table_name() -> Seq<char> {
        "donations"@
    }

    open spec fn spec_fields(&self) -> Seq<(Seq<char>, SpecField)> {
        spec_donation_fields(*self)
    }

    open spec fn fields_wf(&self) -> bool {
        true
    }

    fn table_name() -> (r: String) {
        "donations".to_owned()
    }

    fn build_object_mapper(&self) -> (r: ObjectMapper) {
        proof {
            reveal_strlit("payment_method");
            reveal_strlit("price");
            assert("payment_method"@.len() == 14);
            assert("price"@.len() == 5);
        }
        let mut mapper = ObjectMapper::new("donations");
        mapper.add_field("payment_method", self.payment_method.to_field());
        proof {
            assert(mapper.fields_view() =~= spec_donation_fields(*self).take(1));
        }
        mapper.add_field("price", FieldValue::Money(self.price));
        proof {
            lemma_find_field_absent(spec_donation_fields(*self).take(1), "price"@);
            assert(mapper.fields_view() =~= spec_donation_fields(*self));
        }
        mapper
    }
}

impl TimingColumnsFree for Donation {
    proof fn lemma_timing_columns_free(&self) {
        reveal_strlit("payment_method");
        reveal_strlit("price");
        reveal_strlit("date_time");
        reveal_strlit("hour");
        assert("payment_method"@.len() == 14);
        assert("price"@.len() == 5);
        assert("date_time"@.len() == 9);
        assert("hour"@.len() == 4);
        lemma_find_field_absent(self.spec_fields(), "date_time"@);
        lemma_find_field_absent(self.spec_fields(), "hour"@);
    }
}

impl FromSql for Donation {
    /// Columns are read in field order: payment method, price.
    open spec fn spec_from_sql(row: Seq<(Seq<char>, SpecStored)>) -> Result<Donation, MarshalError> {
        match spec_lookup(row, "payment_method"@) {
            None => Err(MarshalError::MissingColumn),
            Some(pv) => match spec_decode_payment_method(pv) {
                Err(e) => Err(e),
                Ok(payment_method) => match spec_lookup(row, "price"@) {
                    None => Err(MarshalError::MissingColumn),
                    Some(cv) => match spec_decode_cents(cv) {
                        Err(e) => Err(e),
                        Ok(price) => Ok(Donation { payment_method, price }),
                    },
                },
            },
        }
    }

    fn from_sql(row: &Row) -> (r: Result<Self, MarshalError>) {
        let pv = match lookup(row, "payment_method") {
            None => {
                return Err(MarshalError::MissingColumn);
            },
            Some(v) => v,
        };
        let payment_method = match PaymentMethod::decode(&pv) {
            Err(e) => {
                return Err(e);
            },
            Ok(p) => p,
        };
        let cv = match lookup(row, "price") {
            None => {
                return Err(MarshalError::MissingColumn);
            },
            Some(v) => v,
        };
        let price = match decode_cents(&cv) {
            Err(e) => {
                return Err(e);
            },
            Ok(c) => c,
        };
        Ok(Donation { payment_method, price })
    }
}


/// Reading a donation back out of the row its own fields store is the
/// identity: the decoded entity is the one that was encoded.
pub proof fn lemma_donation_row_roundtrip(d: Donation)
    ensures
        Donation::spec_from_sql(crate::value::spec_stored_row(spec_donation_fields(d))) == Ok::<
            Donation,
            MarshalError,
        >(d),
{
    reveal_strlit("payment_method");
    reveal_strlit("price");
    assert("payment_method"@.len() == 14);
    assert("price"@.len() == 5);
    let row = crate::value::spec_stored_row(spec_donation_fields(d));
    let pm_stored = crate::value::spec_stored(spec_donation_fields(d)[0].1);
    let price_stored = crate::value::spec_stored(spec_donation_fields(d)[1].1);
    assert(row =~= seq![("payment_method"@, pm_stored), ("price"@, price_stored)]);
    crate::value::lemma_lookup_head(row, "payment_method"@);
    crate::value::lemma_lookup_skip(row, "price"@);
    assert(row.drop_first() =~= seq![("price"@, price_stored)]);
    crate::value::lemma_lookup_head(row.drop_first(), "price"@);
    crate::model::payment_method::lemma_payment_method_roundtrip(d.payment_method);
}

} // verus!
