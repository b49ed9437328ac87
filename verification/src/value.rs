use vstd::prelude::*;

use crate::error::MarshalError;
use crate::text::{dec_text_of, fixed2_text_of, i64_to_dec, fixed2_to_dec};
use crate::time::{rfc3339_of, rfc3339_millis_of, ts_in_range, format_rfc3339, parse_rfc3339};

verus! {

/// The column types the schema descriptor can declare.
#[derive(Clone, Copy, Debug, PartialEq, Eq, Structural)]
pub enum SqlType {
    TinyInt,
    Int,
    BigInt,
    Real,
    Text,
}

/// What the store holds in one column of a retrieved row.
#[derive(Debug)]
pub enum StoredValue {
    /// An integer column value.
    Integer(i64),
    /// A `REAL` column value, held as a count of hundredths.
    Cents(u64),
    /// A text column value.
    Text(String),
    /// A SQL `NULL`.
    Null,
}

/// The mathematical model of a stored column value.
pub enum SpecStored {
    Integer(i64),
    Cents(u64),
    Text(Seq<char>),
    Null,
}

impl View for StoredValue {
    type V = SpecStored;

    open spec fn view(&self) -> SpecStored {
        match self {
            StoredValue::Integer(n) => SpecStored::Integer(*n),
            StoredValue::Cents(c) => SpecStored::Cents(*c),
            StoredValue::Text(s) => SpecStored::Text(s@),
            StoredValue::Null => SpecStored::Null,
        }
    }
}

impl StoredValue {
    /// A copy of this stored value.
    pub fn duplicate(&self) -> (r: StoredValue)
        ensures
            r@ == self@,
    {
        match self {
            StoredValue::Integer(n) => StoredValue::Integer(*n),
            StoredValue::Cents(c) => StoredValue::Cents(*c),
            StoredValue::Text(s) => StoredValue::Text(s.clone()),
            StoredValue::Null => StoredValue::Null,
        }
    }
}

/// One typed value of a record's field: the closed union of the kinds of
/// values the system stores.
#[derive(Debug)]
pub enum FieldValue {
    /// Declared `TINYINT`; encoded as `TRUE` or `FALSE`.
    Bool(bool),
    /// Declared `TINYINT`.
    TinyInt(i8),
    /// Declared `INT`.
    Int(i32),
    /// Declared `BIGINT`.
    BigInt(i64),
    /// Declared `TEXT`; encoded in single quotes.
    Text(String),
    /// Declared `TEXT` without `NOT NULL`; an absent value encodes as `NULL`.
    OptText(Option<String>),
    /// A count of hundredths, declared `REAL`, encoded as a two-decimal literal.
    Money(u64),
    /// An epoch-millisecond instant, declared `TEXT`, encoded as a quoted
    /// RFC 3339 string.
    Timestamp(i64),
}

/// The mathematical model of a field value.
pub enum SpecField {
    Bool(bool),
    TinyInt(i8),
    Int(i32),
    BigInt(i64),
    Text(Seq<char>),
    OptText(Option<Seq<char>>),
    Money(u64),
    Timestamp(i64),
}

impl View for FieldValue {
    type V = SpecField;

    open spec fn view(&self) -> SpecField {
        match self {
            FieldValue::Bool(b) => SpecField::Bool(*b),
            FieldValue::TinyInt(n) => SpecField::TinyInt(*n),
            FieldValue::Int(n) => SpecField::Int(*n),
            FieldValue::BigInt(n) => SpecField::BigInt(*n),
            FieldValue::Text(s) => SpecField::Text(s@),
            FieldValue::OptText(o) => SpecField::OptText(
                match o {
                    Some(s) => Some(s@),
                    None => None,
                },
            ),
            FieldValue::Money(c) => SpecField::Money(*c),
            FieldValue::Timestamp(m) => SpecField::Timestamp(*m),
        }
    }
}

/// Whether a field value is within the ranges the encoders accept.
pub open spec fn spec_field_wf(f: SpecField) -> bool {
    match f {
        SpecField::Timestamp(m) => ts_in_range(m as int),
        _ => true,
    }
}

/// The column type a field value is declared with.
pub open spec fn spec_sql_type(f: SpecField) -> SqlType {
    match f {
        SpecField::Bool(_) => SqlType::TinyInt,
        SpecField::TinyInt(_) => SqlType::TinyInt,
        SpecField::Int(_) => SqlType::Int,
        SpecField::BigInt(_) => SqlType::BigInt,
        SpecField::Text(_) => SqlType::Text,
        SpecField::OptText(_) => SqlType::Text,
        SpecField::Money(_) => SqlType::Real,
        SpecField::Timestamp(_) => SqlType::Text,
    }
}

/// Whether a field's column admits `NULL`.
pub open spec fn spec_nullable(f: SpecField) -> bool {
    match f {
        SpecField::OptText(_) => true,
        _ => false,
    }
}

/// The keyword a column type is declared with.
pub open spec fn spec_type_name(t: SqlType) -> Seq<char> {
    match t {
        SqlType::TinyInt => "TINYINT"@,
        SqlType::Int => "INT"@,
        SqlType::BigInt => "BIGINT"@,
        SqlType::Real => "REAL"@,
        SqlType::Text => "TEXT"@,
    }
}

/// `s` wrapped in single quotes.
pub open spec fn spec_quote(s: Seq<char>) -> Seq<char> {
    seq!['\''] + s + seq!['\'']
}

/// The SQL literal a field value encodes to.
pub open spec fn spec_literal(f: SpecField) -> Seq<char> {
    match f {
        SpecField::Bool(b) => if b { "TRUE"@ } else { "FALSE"@ },
        SpecField::TinyInt(n) => dec_text_of(n as int),
        SpecField::Int(n) => dec_text_of(n as int),
        SpecField::BigInt(n) => dec_text_of(n as int),
        SpecField::Text(s) => spec_quote(s),
        SpecField::OptText(o) => match o {
            Some(s) => spec_quote(s),
            None => "NULL"@,
        },
        SpecField::Money(c) => fixed2_text_of(c as nat),
        SpecField::Timestamp(m) => spec_quote(rfc3339_of(m)),
    }
}

/// What the store holds after the literal of `f` is inserted into a column
/// declared for it.
pub open spec fn spec_stored(f: SpecField) -> SpecStored {
    match f {
        SpecField::Bool(b) => SpecStored::Integer(if b { 1 } else { 0 }),
        SpecField::TinyInt(n) => SpecStored::Integer(n as i64),
        SpecField::Int(n) => SpecStored::Integer(n as i64),
        SpecField::BigInt(n) => SpecStored::Integer(n),
        SpecField::Text(s) => SpecStored::Text(s),
        SpecField::OptText(o) => match o {
            Some(s) => SpecStored::Text(s),
            None => SpecStored::Null,
        },
        SpecField::Money(c) => SpecStored::Cents(c),
        SpecField::Timestamp(m) => SpecStored::Text(rfc3339_of(m)),
    }
}

/// The column declaration for a field: name, type keyword, and `NOT NULL`
/// exactly where the field is not optional.
pub open spec fn spec_column_decl(name: Seq<char>, f: SpecField) -> Seq<char> {
    name + seq![' '] + spec_type_name(spec_sql_type(f)) + (if spec_nullable(f) {
        Seq::<char>::empty()
    } else {
        " NOT NULL"@
    })
}

/// Wraps `s` in single quotes.
pub fn quote(s: &str) -> (r: String)
    ensures
        r@ == spec_quote(s@),
{
    proof {
        reveal_strlit("'");
    }
    let mut out = "'".to_owned();
    out.append(s);
    out.append("'");
    proof {
        assert(out@ =~= spec_quote(s@));
    }
    out
}

impl FieldValue {
    /// The column type this value is declared with.
    pub fn sql_type(&self) -> (r: SqlType)
        ensures
            r == spec_sql_type(self@),
    {
        match self {
            FieldValue::Bool(_) => SqlType::TinyInt,
            FieldValue::TinyInt(_) => SqlType::TinyInt,
            FieldValue::Int(_) => SqlType::Int,
            FieldValue::BigInt(_) => SqlType::BigInt,
            FieldValue::Text(_) => SqlType::Text,
            FieldValue::OptText(_) => SqlType::Text,
            FieldValue::Money(_) => SqlType::Real,
            FieldValue::Timestamp(_) => SqlType::Text,
        }
    }

    /// Whether this value's column admits `NULL`.
    pub fn is_nullable(&self) -> (r: bool)
        ensures
            r == spec_nullable(self@),
    {
        match self {
            FieldValue::OptText(_) => true,
            _ => false,
        }
    }

    /// The SQL literal this value encodes to.
    pub fn literal(&self) -> (r: String)
        requires
            spec_field_wf(self@),
        ensures
            r@ == spec_literal(self@),
    {
        match self {
            FieldValue::Bool(b) => {
                proof {
                    reveal_strlit("TRUE");
                    reveal_strlit("FALSE");
                }
                if *b {
                    "TRUE".to_owned()
                } else {
                    "FALSE".to_owned()
                }
            },
            FieldValue::TinyInt(n) => i64_to_dec(*n as i64),
            FieldValue::Int(n) => i64_to_dec(*n as i64),
            FieldValue::BigInt(n) => i64_to_dec(*n),
            FieldValue::Text(s) => quote(s.as_str()),
            FieldValue::OptText(o) => match o {
                Some(s) => quote(s.as_str()),
                None => {
                    proof {
                        reveal_strlit("NULL");
                    }
                    "NULL".to_owned()
                },
            },
            FieldValue::Money(c) => fixed2_to_dec(*c),
            FieldValue::Timestamp(m) => {
                let text = format_rfc3339(*m);
                quote(text.as_str())
            },
        }
    }

    /// What the store holds after this value's literal is inserted.
    pub fn stored(&self) -> (r: StoredValue)
        requires
            spec_field_wf(self@),
        ensures
            r@ == spec_stored(self@),
            self@ matches SpecField::Timestamp(m) ==> spec_decode_timestamp(r@) == Ok::<
                i64,
                MarshalError,
            >(m),
    {
        match self {
            FieldValue::Bool(b) => StoredValue::Integer(if *b { 1 } else { 0 }),
            FieldValue::TinyInt(n) => StoredValue::Integer(*n as i64),
            FieldValue::Int(n) => StoredValue::Integer(*n as i64),
            FieldValue::BigInt(n) => StoredValue::Integer(*n),
            FieldValue::Text(s) => StoredValue::Text(s.clone()),
            FieldValue::OptText(o) => match o {
                Some(s) => StoredValue::Text(s.clone()),
                None => StoredValue::Null,
            },
            FieldValue::Money(c) => StoredValue::Cents(*c),
            FieldValue::Timestamp(m) => StoredValue::Text(format_rfc3339(*m)),
        }
    }

    /// The column declaration for this value under `name`.
    pub fn column_decl(&self, name: &str) -> (r: String)
        ensures
            r@ == spec_column_decl(name@, self@),
    {
        proof {
            reveal_strlit(" ");
            reveal_strlit(" NOT NULL");
            reveal_strlit("TINYINT");
            reveal_strlit("INT");
            reveal_strlit("BIGINT");
            reveal_strlit("REAL");
            reveal_strlit("TEXT");
        }
        let mut out = name.to_owned();
        out.append(" ");
        let keyword = match self.sql_type() {
            SqlType::TinyInt => "TINYINT",
            SqlType::Int => "INT",
            SqlType::BigInt => "BIGINT",
            SqlType::Real => "REAL",
            SqlType::Text => "TEXT",
        };
        out.append(keyword);
        if !self.is_nullable() {
            out.append(" NOT NULL");
        }
        proof {
            assert(seq![' '] =~= " "@);
            assert(out@ =~= spec_column_decl(name@, self@));
        }
        out
    }
}

/// A retrieved row: column names with their stored values, in column order.
pub type Row = Vec<(String, StoredValue)>;

/// The mathematical model of a retrieved row.
pub open spec fn row_view(row: Row) -> Seq<(Seq<char>, SpecStored)> {
    row@.map_values(|p: (String, StoredValue)| (p.0@, p.1@))
}

/// The stored value under the first column of the given name, if any.
pub open spec fn spec_lookup(row: Seq<(Seq<char>, SpecStored)>, name: Seq<char>) -> Option<
    SpecStored,
>
    decreases row.len(),
{
    if row.len() == 0 {
        None
    } else if row[0].0 == name {
        Some(row[0].1)
    } else {
        spec_lookup(row.drop_first(), name)
    }
}

/// Finds the first column of the given name and copies its stored value.
pub fn lookup(row: &Row, name: &str) -> (r: Option<StoredValue>)
    ensures
        match r {
            Some(v) => spec_lookup(row_view(*row), name@) == Some(v@),
            None => spec_lookup(row_view(*row), name@) is None,
        },
{
    let ghost model = row_view(*row);
    proof {
        assert(model.skip(0) =~= model);
    }
    let mut i: usize = 0;
    while i < row.len()
        invariant
            i <= row.len(),
            model == row_view(*row),
            spec_lookup(model, name@) == spec_lookup(model.skip(i as int), name@),
        decreases row.len() - i,
    {
        let eq = {
            let a = row[i].0.as_str().to_owned();
            let b = name.to_owned();
            a == b
        };
        proof {
            assert(model.skip(i as int)[0] == model[i as int]);
        }
        if eq {
            let v = row[i].1.duplicate();
            return Some(v);
        }
        proof {
            assert(model.skip(i as int).drop_first() =~= model.skip(i + 1));
        }
        i = i + 1;
    }
    proof {
        assert(model.skip(row@.len() as int) =~= Seq::<(Seq<char>, SpecStored)>::empty());
    }
    None
}

/// How an `i64` is read back from a stored value.
pub open spec fn spec_decode_i64(v: SpecStored) -> Result<i64, MarshalError> {
    match v {
        SpecStored::Integer(n) => Ok(n),
        _ => Err(MarshalError::WrongColumnType),
    }
}

/// Reads an `i64` back from a stored value; fails on any non-integer column.
pub fn decode_i64(v: &StoredValue) -> (r: Result<i64, MarshalError>)
    ensures
        r == spec_decode_i64(v@),
{
    match v {
        StoredValue::Integer(n) => Ok(*n),
        _ => Err(MarshalError::WrongColumnType),
    }
}

/// How a `u16` is read back from a stored value.
pub open spec fn spec_decode_u16(v: SpecStored) -> Result<u16, MarshalError> {
    match v {
        SpecStored::Integer(n) => if 0 <= n <= u16::MAX {
            Ok(n as u16)
        } else {
            Err(MarshalError::OutOfRange)
        },
        _ => Err(MarshalError::WrongColumnType),
    }
}

/// Reads a `u16` back from a stored value; fails on non-integer columns and
/// on integers outside the `u16` range.
pub fn decode_u16(v: &StoredValue) -> (r: Result<u16, MarshalError>)
    ensures
        r == spec_decode_u16(v@),
{
    match v {
        StoredValue::Integer(n) => {
            if 0 <= *n && *n <= u16::MAX as i64 {
                Ok(*n as u16)
            } else {
                Err(MarshalError::OutOfRange)
            }
        },
        _ => Err(MarshalError::WrongColumnType),
    }
}

/// How a text column is read back from a stored value.
pub open spec fn spec_decode_text(v: SpecStored) -> Result<Seq<char>, MarshalError> {
    match v {
        SpecStored::Text(s) => Ok(s),
        _ => Err(MarshalError::WrongColumnType),
    }
}

/// Reads a text column back; fails on any non-text column.
pub fn decode_text(v: &StoredValue) -> (r: Result<String, MarshalError>)
    ensures
        match r {
            Ok(s) => spec_decode_text(v@) == Ok::<Seq<char>, MarshalError>(s@),
            Err(e) => spec_decode_text(v@) == Err::<Seq<char>, MarshalError>(e),
        },
{
    match v {
        StoredValue::Text(s) => Ok(s.clone()),
        _ => Err(MarshalError::WrongColumnType),
    }
}

/// How an optional text column is read back: `NULL` means absence.
pub open spec fn spec_decode_opt_text(v: SpecStored) -> Result<Option<Seq<char>>, MarshalError> {
    match v {
        SpecStored::Null => Ok(None),
        SpecStored::Text(s) => Ok(Some(s)),
        _ => Err(MarshalError::WrongColumnType),
    }
}

/// Reads an optional text column back, treating `NULL` as absence.
pub fn decode_opt_text(v: &StoredValue) -> (r: Result<Option<String>, MarshalError>)
    ensures
        match r {
            Ok(Some(s)) => spec_decode_opt_text(v@) == Ok::<Option<Seq<char>>, MarshalError>(
                Some(s@),
            ),
            Ok(None) => spec_decode_opt_text(v@) == Ok::<Option<Seq<char>>, MarshalError>(None),
            Err(e) => spec_decode_opt_text(v@) == Err::<Option<Seq<char>>, MarshalError>(e),
        },
{
    match v {
        StoredValue::Null => Ok(None),
        StoredValue::Text(s) => Ok(Some(s.clone())),
        _ => Err(MarshalError::WrongColumnType),
    }
}

/// How a `REAL` money column is read back from a stored value.
pub open spec fn spec_decode_cents(v: SpecStored) -> Result<u64, MarshalError> {
    match v {
        SpecStored::Cents(c) => Ok(c),
        _ => Err(MarshalError::WrongColumnType),
    }
}

/// Reads a count of hundredths back from a `REAL` column.
pub fn decode_cents(v: &StoredValue) -> (r: Result<u64, MarshalError>)
    ensures
        r == spec_decode_cents(v@),
{
    match v {
        StoredValue::Cents(c) => Ok(*c),
        _ => Err(MarshalError::WrongColumnType),
    }
}

/// How a timestamp column is read back: the text must parse as RFC 3339 and
/// denote an instant in the library's accepted range.
pub open spec fn spec_decode_timestamp(v: SpecStored) -> Result<i64, MarshalError> {
    match v {
        SpecStored::Text(s) => match rfc3339_millis_of(s) {
            Some(m) => if ts_in_range(m as int) {
                Ok(m)
            } else {
                Err(MarshalError::OutOfRange)
            },
            None => Err(MarshalError::Unparseable),
        },
        _ => Err(MarshalError::WrongColumnType),
    }
}

/// Reads an epoch-millisecond timestamp back from a stored RFC 3339 string.
pub fn decode_timestamp(v: &StoredValue) -> (r: Result<i64, MarshalError>)
    ensures
        r == spec_decode_timestamp(v@),
{
    match v {
        StoredValue::Text(s) => match parse_rfc3339(s.as_str()) {
            Some(m) => {
                if 0 <= m && m <= crate::time::MAX_TIMESTAMP_MILLIS {
                    Ok(m)
                } else {
                    Err(MarshalError::OutOfRange)
                }
            },
            None => Err(MarshalError::Unparseable),
        },
        _ => Err(MarshalError::WrongColumnType),
    }
}

/// Reading back the stored form of a well-formed field value recovers the
/// value: wide integers, text, optional text, and money round-trip exactly.
/// Timestamps round-trip too; their law rides on the encoder itself, whose
/// contract carries the read-back clause.
pub proof fn lemma_stored_roundtrip(f: SpecField)
    requires
        spec_field_wf(f),
    ensures
        f matches SpecField::BigInt(n) ==> spec_decode_i64(spec_stored(f)) == Ok::<
            i64,
            MarshalError,
        >(n),
        f matches SpecField::Text(s) ==> spec_decode_text(spec_stored(f)) == Ok::<
            Seq<char>,
            MarshalError,
        >(s),
        f matches SpecField::OptText(o) ==> spec_decode_opt_text(spec_stored(f)) == Ok::<
            Option<Seq<char>>,
            MarshalError,
        >(o),
        f matches SpecField::Money(c) ==> spec_decode_cents(spec_stored(f)) == Ok::<
            u64,
            MarshalError,
        >(c),
{
}

/// The row the store holds after a field list's literals are inserted:
/// each field's name with its stored form, in field order.
pub open spec fn spec_stored_row(fs: Seq<(Seq<char>, SpecField)>) -> Seq<(Seq<char>, SpecStored)> {
    fs.map_values(|p: (Seq<char>, SpecField)| (p.0, spec_stored(p.1)))
}

/// A lookup finds the first column when its name matches.
pub proof fn lemma_lookup_head(row: Seq<(Seq<char>, SpecStored)>, name: Seq<char>)
    requires
        row.len() > 0,
        row[0].0 == name,
    ensures
        spec_lookup(row, name) == Some(row[0].1),
{
}

/// A lookup passes over the first column when its name differs.
pub proof fn lemma_lookup_skip(row: Seq<(Seq<char>, SpecStored)>, name: Seq<char>)
    requires
        row.len() > 0,
        row[0].0 != name,
    ensures
        spec_lookup(row, name) == spec_lookup(row.drop_first(), name),
{
}

/// Reading back the stored form of a quantity recovers it: every `u16`
/// fits the range check of the decoder.
pub proof fn lemma_quantity_roundtrip(q: u16)
    ensures
        spec_decode_u16(spec_stored(SpecField::Int(q as i32))) == Ok::<u16, MarshalError>(q),
{
}

/// Reading back the stored form of an hour bucket's field recovers the
/// bucket.
pub proof fn lemma_hour_field_roundtrip(h: crate::model::hour::Hour)
    ensures
        crate::model::hour::spec_decode_hour(
            spec_stored(SpecField::TinyInt(crate::model::hour::spec_hour_code(h))),
        ) == Ok::<crate::model::hour::Hour, MarshalError>(h),
{
}


/// Anything that encodes itself as a SQL literal.
pub trait ToSql {
    /// The literal this value encodes to.
    spec fn spec_to_sql(&self) -> Seq<char>;

    /// Whether the value is within the encoder's range.
    spec fn to_sql_wf(&self) -> bool;

    /// Produces the SQL literal for this value.
    fn to_sql(&self) -> (r: String)
        requires
            self.to_sql_wf(),
        ensures
            r@ == self.spec_to_sql(),
    ;
}

impl ToSql for FieldValue {
    open spec fn spec_to_sql(&self) -> Seq<char> {
        spec_literal(self@)
    }

    open spec fn to_sql_wf(&self) -> bool {
        spec_field_wf(self@)
    }

    fn to_sql(&self) -> (r: String) {
        self.literal()
    }
}

impl ToSql for crate::model::payment_method::PaymentMethod {
    /// A payment method encodes as its quoted display name.
    open spec fn spec_to_sql(&self) -> Seq<char> {
        spec_quote(crate::model::payment_method::spec_payment_method_name(*self))
    }

    open spec fn to_sql_wf(&self) -> bool {
        true
    }

    fn to_sql(&self) -> (r: String) {
        quote(self.name().as_str())
    }
}

impl ToSql for crate::model::hour::Hour {
    /// An hour bucket encodes as its bare stored code.
    open spec fn spec_to_sql(&self) -> Seq<char> {
        crate::text::dec_text_of(crate::model::hour::spec_hour_code(*self) as int)
    }

    open spec fn to_sql_wf(&self) -> bool {
        true
    }

    fn to_sql(&self) -> (r: String) {
        i64_to_dec(self.code() as i64)
    }
}

/// What the record mapper asks of a held field: a column declaration under
/// a name, and the value's literal.
pub trait Mappable {
    /// The column declaration this value takes under `field_name`.
    spec fn spec_schema(&self, field_name: Seq<char>) -> Seq<char>;

    /// The literal this value encodes to.
    spec fn spec_mapped_literal(&self) -> Seq<char>;

    /// Whether the value is within the encoders' ranges.
    spec fn mappable_wf(&self) -> bool;

    /// The column declaration this value takes under `field_name`.
    fn schema(&self, field_name: &str) -> (r: String)
        ensures
            r@ == self.spec_schema(field_name@),
    ;

    /// Produces the SQL literal for this value.
    fn mapped_literal(&self) -> (r: String)
        requires
            self.mappable_wf(),
        ensures
            r@ == self.spec_mapped_literal(),
    ;
}

impl Mappable for FieldValue {
    open spec fn spec_schema(&self, field_name: Seq<char>) -> Seq<char> {
        spec_column_decl(field_name, self@)
    }

    open spec fn spec_mapped_literal(&self) -> Seq<char> {
        spec_literal(self@)
    }

    open spec fn mappable_wf(&self) -> bool {
        spec_field_wf(self@)
    }

    fn schema(&self, field_name: &str) -> (r: String) {
        self.column_decl(field_name)
    }

    fn mapped_literal(&self) -> (r: String) {
        self.literal()
    }
}


/// A type with a fixed column declaration: its SQL type, always `NOT NULL`.
/// Optional columns come from the closed union's optional field kind.
pub trait HasSchema {
    /// The SQL type this Rust type is declared with.
    spec fn spec_schema_type() -> SqlType;

    /// The column declaration for a field of this type under `field_name`.
    fn schema(field_name: &str) -> (r: String)
        ensures
            r@ == field_name@ + seq![' '] + spec_type_name(Self::spec_schema_type())
                + " NOT NULL"@,
    ;
}

fn schema_decl(field_name: &str, keyword: &str) -> (r: String)
    ensures
        r@ == field_name@ + seq![' '] + keyword@ + " NOT NULL"@,
{
    proof {
        reveal_strlit(" ");
        reveal_strlit(" NOT NULL");
        assert(" "@ =~= seq![' ']);
    }
    let mut out = field_name.to_owned();
    out.append(" ");
    out.append(keyword);
    out.append(" NOT NULL");
    out
}

impl HasSchema for bool {
    open spec fn spec_schema_type() -> SqlType {
        SqlType::TinyInt
    }

    fn schema(field_name: &str) -> (r: String) {
        proof {
            reveal_strlit("TINYINT");
        }
        schema_decl(field_name, "TINYINT")
    }
}

impl HasSchema for i8 {
    open spec fn spec_schema_type() -> SqlType {
        SqlType::TinyInt
    }

    fn schema(field_name: &str) -> (r: String) {
        proof {
            reveal_strlit("TINYINT");
        }
        schema_decl(field_name, "TINYINT")
    }
}

impl HasSchema for i32 {
    open spec fn spec_schema_type() -> SqlType {
        SqlType::Int
    }

    fn schema(field_name: &str) -> (r: String) {
        proof {
            reveal_strlit("INT");
        }
        schema_decl(field_name, "INT")
    }
}

impl HasSchema for i64 {
    open spec fn spec_schema_type() -> SqlType {
        SqlType::BigInt
    }

    fn schema(field_name: &str) -> (r: String) {
        proof {
            reveal_strlit("BIGINT");
        }
        schema_decl(field_name, "BIGINT")
    }
}

impl HasSchema for String {
    open spec fn spec_schema_type() -> SqlType {
        SqlType::Text
    }

    fn schema(field_name: &str) -> (r: String) {
        proof {
            reveal_strlit("TEXT");
        }
        schema_decl(field_name, "TEXT")
    }
}

impl ToSql for bool {
    /// A boolean encodes as the bare keyword.
    open spec fn spec_to_sql(&self) -> Seq<char> {
        if *self {
            "TRUE"@
        } else {
            "FALSE"@
        }
    }

    open spec fn to_sql_wf(&self) -> bool {
        true
    }

    fn to_sql(&self) -> (r: String) {
        proof {
            reveal_strlit("TRUE");
            reveal_strlit("FALSE");
        }
        if *self {
            "TRUE".to_owned()
        } else {
            "FALSE".to_owned()
        }
    }
}

impl ToSql for i64 {
    /// An integer encodes as its decimal text.
    open spec fn spec_to_sql(&self) -> Seq<char> {
        dec_text_of(*self as int)
    }

    open spec fn to_sql_wf(&self) -> bool {
        true
    }

    fn to_sql(&self) -> (r: String) {
        i64_to_dec(*self)
    }
}

impl ToSql for String {
    /// Text encodes wrapped in quotes.
    open spec fn spec_to_sql(&self) -> Seq<char> {
        spec_quote(self@)
    }

    open spec fn to_sql_wf(&self) -> bool {
        true
    }

    fn to_sql(&self) -> (r: String) {
        quote(self.as_str())
    }
}

impl<T: ToSql> ToSql for Option<T> {
    /// An absent value encodes as `NULL`; a present one delegates.
    open spec fn spec_to_sql(&self) -> Seq<char> {
        match self {
            Some(v) => v.spec_to_sql(),
            None => "NULL"@,
        }
    }

    open spec fn to_sql_wf(&self) -> bool {
        match self {
            Some(v) => v.to_sql_wf(),
            None => true,
        }
    }

    fn to_sql(&self) -> (r: String) {
        match self {
            Some(v) => v.to_sql(),
            None => {
                proof {
                    reveal_strlit("NULL");
                }
                "NULL".to_owned()
            },
        }
    }
}

} // verus!
