use vstd::prelude::*;

use crate::database::object_mapper::{ObjectMapper, lemma_find_field_absent};
use crate::database::storable::{CanBuildObjectMapper, Duplicable, FromSql, TimingColumnsFree};
use crate::error::MarshalError;
use crate::value::{
    FieldValue, Row, SpecField, SpecStored, StoredValue, spec_lookup, lookup, spec_decode_u16,
    decode_u16, spec_decode_cents, decode_cents, spec_decode_text, decode_text,
};

verus! {

/// The kind of sale a normalized transaction record summarizes.
#[derive(Clone, Copy, Debug, PartialEq, Eq, Structural)]
pub enum TransactionKind {
    Admission,
    Membership,
    Donation,
    GiftShopSale,
}

/// The canonical display name of a transaction kind.
pub open spec fn spec_transaction_kind_name(k: TransactionKind) -> Seq<char> {
    match k {
        TransactionKind::Admission => "Admission"@,
        TransactionKind::Membership => "Membership"@,
        TransactionKind::Donation => "Donation"@,
        TransactionKind::GiftShopSale => "Gift Shop Sales"@,
    }
}

/// The transaction kind a display name denotes.
pub open spec fn spec_parse_transaction_kind(s: Seq<char>) -> Result<TransactionKind, MarshalError> {
    if s == "Admission"@ {
        Ok(TransactionKind::Admission)
    } else if s == "Membership"@ {
        Ok(TransactionKind::Membership)
    } else if s == "Donation"@ {
        Ok(TransactionKind::Donation)
    } else if s == "Gift Shop Sales"@ {
        Ok(TransactionKind::GiftShopSale)
    } else {
        Err(MarshalError::UnknownVariant)
    }
}

/// How a transaction kind is read back from a stored column value.
pub open spec fn spec_decode_transaction_kind(v: SpecStored) -> Result<
    TransactionKind,
    MarshalError,
> {
    match v {
        SpecStored::Text(s) => spec_parse_transaction_kind(s),
        _ => Err(MarshalError::WrongColumnType),
    }
}

impl TransactionKind {
    /// The canonical display name.
    pub fn name(&self) -> (r: String)
        ensures
            r@ == spec_transaction_kind_name(*self),
    {
        match self {
            TransactionKind::Admission => "Admission".to_owned(),
            TransactionKind::Membership => "Membership".to_owned(),
            TransactionKind::Donation => "Donation".to_owned(),
            TransactionKind::GiftShopSale => "Gift Shop Sales".to_owned(),
        }
    }

    /// Reads a transaction kind from its display name.
    pub fn parse_name(s: &str) -> (r: Result<TransactionKind, MarshalError>)
        ensures
            r == spec_parse_transaction_kind(s@),
    {
        let candidate = s.to_owned();
        if candidate == "Admission".to_owned() {
            Ok(TransactionKind::Admission)
        } else if candidate == "Membership".to_owned() {
            Ok(TransactionKind::Membership)
        } else if candidate == "Donation".to_owned() {
            Ok(TransactionKind::Donation)
        } else if candidate == "Gift Shop Sales".to_owned() {
            Ok(TransactionKind::GiftShopSale)
        } else {
            Err(MarshalError::UnknownVariant)
        }
    }

    /// Reads a transaction kind back from a stored column value.
    pub fn decode(v: &StoredValue) -> (r: Result<TransactionKind, MarshalError>)
        ensures
            r == spec_decode_transaction_kind(v@),
    {
        match v {
            StoredValue::Text(s) => TransactionKind::parse_name(s.as_str()),
            _ => Err(MarshalError::WrongColumnType),
        }
    }
}

impl Default for TransactionKind {
    /// Admission, the first kind.
    fn default() -> (r: TransactionKind)
        ensures
            r == TransactionKind::Admission,
    {
        TransactionKind::Admission
    }
}

/// Reading a transaction kind's name back yields the same kind.
pub proof fn lemma_transaction_kind_roundtrip(k: TransactionKind)
    ensures
        spec_parse_transaction_kind(spec_transaction_kind_name(k)) == Ok::<
            TransactionKind,
            MarshalError,
        >(k),
{
    reveal_strlit("Admission");
    reveal_strlit("Membership");
    reveal_strlit("Donation");
    reveal_strlit("Gift Shop Sales");
    assert("Admission"@.len() == 9);
    assert("Membership"@.len() == 10);
    assert("Donation"@.len() == 8);
    assert("Gift Shop Sales"@.len() == 15);
}

/// The normalized projection of any sale: what kind it was, a human-readable
/// description, how many units, and the derived total cost in cents.
#[derive(Clone, Debug)]
pub struct TransactionRecord {
    pub kind: TransactionKind,
    pub description: String,
    pub quantity: u16,
    pub total_cost: u64,
}

/// The mathematical model of a transaction record.
pub struct SpecTransactionRecord {
    pub kind: TransactionKind,
    pub description: Seq<char>,
    pub quantity: u16,
    pub total_cost: u64,
}

impl View for TransactionRecord {
    type V = SpecTransactionRecord;

    open spec fn view(&self) -> SpecTransactionRecord {
        SpecTransactionRecord {
            kind: self.kind,
            description: self.description@,
            quantity: self.quantity,
            total_cost: self.total_cost,
        }
    }
}

impl crate::model::has_total_cost::HasTotalCost for TransactionRecord {
    /// The derived total cost the record carries.
    open spec fn spec_total_cost(&self) -> int {
        self.total_cost as int
    }

    proof fn lemma_total_cost_nonneg(&self) {
    }

    fn total_cost(&self) -> (r: u64) {
        self.total_cost
    }
}

impl Duplicable for TransactionRecord {
    fn duplicate(&self) -> (r: TransactionRecord) {
        TransactionRecord {
            kind: self.kind,
            description: self.description.clone(),
            quantity: self.quantity,
            total_cost: self.total_cost,
        }
    }
}

/// The record's ordered field list: kind, description, quantity, total cost.
pub open spec fn spec_transaction_record_fields(t: SpecTransactionRecord) -> Seq<
    (Seq<char>, SpecField),
> {
    seq![
        ("kind"@, SpecField::Text(spec_transaction_kind_name(t.kind))),
        ("description"@, SpecField::Text(t.description)),
        ("quantity"@, SpecField::Int(t.quantity as i32)),
        ("total_cost"@, SpecField::Money(t.total_cost)),
    ]
}

impl CanBuildObjectMapper for TransactionRecord {
    open spec fn spec_table_name() -> Seq<char> {
        "transaction_records"@
    }

    open spec fn spec_fields(&self) -> Seq<(Seq<char>, SpecField)> {
        spec_transaction_record_fields(self@)
    }

    open spec fn fields_wf(&self) -> bool {
        true
    }

    fn table_name() -> (r: String) {
        "transaction_records".to_owned()
    }

    fn build_object_mapper(&self) -> (r: ObjectMapper) {
        proof {
            reveal_strlit("kind");
            reveal_strlit("description");
            reveal_strlit("quantity");
            reveal_strlit("total_cost");
            assert("kind"@.len() == 4);
            assert("description"@.len() == 11);
            assert("quantity"@.len() == 8);
            assert("total_cost"@.len() == 10);
        }
        let mut mapper = ObjectMapper::new("transaction_records");
        mapper.add_field("kind", FieldValue::Text(self.kind.name()));
        proof {
            assert(mapper.fields_view() =~= spec_transaction_record_fields(self@).take(1));
        }
        mapper.add_field("description", FieldValue::Text(self.description.clone()));
        proof {
            lemma_find_field_absent(spec_transaction_record_fields(self@).take(1), "description"@);
            assert(mapper.fields_view() =~= spec_transaction_record_fields(self@).take(2));
        }
        mapper.add_field("quantity", FieldValue::Int(self.quantity as i32));
        proof {
            lemma_find_field_absent(spec_transaction_record_fields(self@).take(2), "quantity"@);
            assert(mapper.fields_view() =~= spec_transaction_record_fields(self@).take(3));
        }
        mapper.add_field("total_cost", FieldValue::Money(self.total_cost));
        proof {
            lemma_find_field_absent(spec_transaction_record_fields(self@).take(3), "total_cost"@);
            assert(mapper.fields_view() =~= spec_transaction_record_fields(self@));
        }
        mapper
    }
}

impl TimingColumnsFree for TransactionRecord {
    proof fn lemma_timing_columns_free(&self) {
        reveal_strlit("kind");
        reveal_strlit("description");
        reveal_strlit("quantity");
        reveal_strlit("total_cost");
        reveal_strlit("date_time");
        reveal_strlit("hour");
        assert("kind"@.len() == 4);
        assert("description"@.len() == 11);
        assert("quantity"@.len() == 8);
        assert("total_cost"@.len() == 10);
        assert("date_time"@.len() == 9);
        assert("hour"@.len() == 4);
        assert("kind"@[0] == 'k');
        assert("hour"@[0] == 'h');
        lemma_find_field_absent(self.spec_fields(), "date_time"@);
        lemma_find_field_absent(self.spec_fields(), "hour"@);
    }
}

impl FromSql for TransactionRecord {
    /// Columns are read in field order: kind, description, quantity, total
    /// cost.
    open spec fn spec_from_sql(row: Seq<(Seq<char>, SpecStored)>) -> Result<
        SpecTransactionRecord,
        MarshalError,
    > {
        match spec_lookup(row, "kind"@) {
            None => Err(MarshalError::MissingColumn),
            Some(kv) => match spec_decode_transaction_kind(kv) {
                Err(e) => Err(e),
                Ok(kind) => match spec_lookup(row, "description"@) {
                    None => Err(MarshalError::MissingColumn),
                    Some(dv) => match spec_decode_text(dv) {
                        Err(e) => Err(e),
                        Ok(description) => match spec_lookup(row, "quantity"@) {
                            None => Err(MarshalError::MissingColumn),
                            Some(qv) => match spec_decode_u16(qv) {
                                Err(e) => Err(e),
                                Ok(quantity) => match spec_lookup(row, "total_cost"@) {
                                    None => Err(MarshalError::MissingColumn),
                                    Some(cv) => match spec_decode_cents(cv) {
                                        Err(e) => Err(e),
                                        Ok(total_cost) => Ok(
                                            SpecTransactionRecord {
                                                kind,
                                                description,
                                                quantity,
                                                total_cost,
                                            },
                                        ),
                                    },
                                },
                            },
                        },
                    },
                },
            },
        }
    }

    fn from_sql(row: &Row) -> (r: Result<Self, MarshalError>) {
        let kv = match lookup(row, "kind") {
            None => {
                return Err(MarshalError::MissingColumn);
            },
            Some(v) => v,
        };
        let kind = match TransactionKind::decode(&kv) {
            Err(e) => {
                return Err(e);
            },
            Ok(k) => k,
        };
        let dv = match lookup(row, "description") {
            None => {
                return Err(MarshalError::MissingColumn);
            },
            Some(v) => v,
        };
        let description = match decode_text(&dv) {
            Err(e) => {
                return Err(e);
            },
            Ok(s) => s,
        };
        let qv = match lookup(row, "quantity") {
            None => {
                return Err(MarshalError::MissingColumn);
            },
            Some(v) => v,
        };
        let quantity = match decode_u16(&qv) {
            Err(e) => {
                return Err(e);
            },
            Ok(q) => q,
        };
        let cv = match lookup(row, "total_cost") {
            None => {
                return Err(MarshalError::MissingColumn);
            },
            Some(v) => v,
        };
        let total_cost = match decode_cents(&cv) {
            Err(e) => {
                return Err(e);
            },
            Ok(c) => c,
        };
        Ok(TransactionRecord { kind, description, quantity, total_cost })
    }
}

impl TransactionRecord {
    /// Builds a record from its parts; the total cost is handed in by the
    /// originating entity, which derives it from its own prices.
    pub fn new(kind: TransactionKind, description: String, quantity: u16, amount: u64) -> (r:
        TransactionRecord)
        ensures
            r.kind == kind,
            r.description@ == description@,
            r.quantity == quantity,
            r.total_cost == amount,
    {
        TransactionRecord { kind, description, quantity, total_cost: amount }
    }
}

impl Default for TransactionRecord {
    /// An empty admission record of no units and no cost.
    fn default() -> (r: TransactionRecord)
        ensures
            r.kind == TransactionKind::Admission,
            r.description@ == Seq::<char>::empty(),
            r.quantity == 0,
            r.total_cost == 0,
    {
        let description = String::new();
        TransactionRecord { kind: TransactionKind::Admission, description, quantity: 0, total_cost: 0 }
    }
}


/// Reading a transaction record back out of the row its own fields store is
/// the identity: the decoded record is the one that was encoded.
pub proof fn lemma_transaction_record_row_roundtrip(t: SpecTransactionRecord)
    ensures
        TransactionRecord::spec_from_sql(
            crate::value::spec_stored_row(spec_transaction_record_fields(t)),
        ) == Ok::<SpecTransactionRecord, MarshalError>(t),
{
    reveal_strlit("kind");
    reveal_strlit("description");
    reveal_strlit("quantity");
    reveal_strlit("total_cost");
    assert("kind"@.len() == 4);
    assert("description"@.len() == 11);
    assert("quantity"@.len() == 8);
    assert("total_cost"@.len() == 10);
    let fs = spec_transaction_record_fields(t);
    let row = crate::value::spec_stored_row(fs);
    let stored = |i: int| crate::value::spec_stored(fs[i].1);
    assert(row =~= seq![
        ("kind"@, stored(0)),
        ("description"@, stored(1)),
        ("quantity"@, stored(2)),
        ("total_cost"@, stored(3)),
    ]);
    let r1 = row.drop_first();
    let r2 = r1.drop_first();
    let r3 = r2.drop_first();
    assert(r1 =~= seq![
        ("description"@, stored(1)),
        ("quantity"@, stored(2)),
        ("total_cost"@, stored(3)),
    ]);
    assert(r2 =~= seq![("quantity"@, stored(2)), ("total_cost"@, stored(3))]);
    assert(r3 =~= seq![("total_cost"@, stored(3))]);
    crate::value::lemma_lookup_head(row, "kind"@);
    crate::value::lemma_lookup_skip(row, "description"@);
    crate::value::lemma_lookup_head(r1, "description"@);
    crate::value::lemma_lookup_skip(row, "quantity"@);
    crate::value::lemma_lookup_skip(r1, "quantity"@);
    crate::value::lemma_lookup_head(r2, "quantity"@);
    crate::value::lemma_lookup_skip(row, "total_cost"@);
    crate::value::lemma_lookup_skip(r1, "total_cost"@);
    crate::value::lemma_lookup_skip(r2, "total_cost"@);
    crate::value::lemma_lookup_head(r3, "total_cost"@);
    lemma_transaction_kind_roundtrip(t.kind);
}

} // verus!
