use vstd::prelude::*;

use crate::database::object_mapper::{ObjectMapper, spec_find_field};
use crate::error::MarshalError;
use crate::model::hour::{Hour, spec_decode_hour, spec_hour_code};
use crate::time::{ts_in_range, local_hour_of};
use crate::value::{
    FieldValue, Row, SpecField, SpecStored, row_view, spec_lookup, lookup, spec_decode_timestamp,
    decode_timestamp,
};

verus! {

/// An entity that can hand the record mapper its table name and its ordered
/// field list.
pub trait CanBuildObjectMapper: Sized {
    /// The name of the table this entity's rows live in.
    spec fn spec_table_name() -> Seq<char>;

    /// The entity's ordered field list.
    spec fn spec_fields(&self) -> Seq<(Seq<char>, SpecField)>;

    /// Whether the entity's field values are within the encoders' ranges.
    spec fn fields_wf(&self) -> bool;

    /// The name of the table this entity's rows live in.
    fn table_name() -> (r: String)
        ensures
            r@ == Self::spec_table_name(),
    ;

    /// Builds the mapper holding this entity's fields, in order.
    fn build_object_mapper(&self) -> (r: ObjectMapper)
        requires
            self.fields_wf(),
        ensures
            r.table() == Self::spec_table_name(),
            r.fields_view() == self.spec_fields(),
            r.wf(),
    ;
}

/// A bare entity whose own field names leave the two timing columns free,
/// so the timestamp envelope can append them. The envelope itself does not
/// qualify: its field list ends in those very columns.
pub trait TimingColumnsFree: CanBuildObjectMapper {
    /// The entity's own field names never include the timing columns.
    proof fn lemma_timing_columns_free(&self)
        ensures
            spec_find_field(self.spec_fields(), "date_time"@) is None,
            spec_find_field(self.spec_fields(), "hour"@) is None,
    ;
}

/// An entity that can be read back out of a retrieved row. The contract is
/// stated over the entity's mathematical view.
pub trait FromSql: Sized + View {
    /// How the entity is read from a row's columns, including every way
    /// that reading fails.
    spec fn spec_from_sql(row: Seq<(Seq<char>, SpecStored)>) -> Result<Self::V, MarshalError>;

    /// Reads the entity back from a retrieved row.
    fn from_sql(row: &Row) -> (r: Result<Self, MarshalError>)
        ensures
            match r {
                Ok(v) => Self::spec_from_sql(row_view(*row)) == Ok::<Self::V, MarshalError>(v@),
                Err(e) => Self::spec_from_sql(row_view(*row)) == Err::<Self::V, MarshalError>(e),
            },
    ;
}

/// A value that can be copied so that the copy has the same view.
pub trait Duplicable: View + Sized {
    /// A copy of this value.
    fn duplicate(&self) -> (r: Self)
        ensures
            r@ == self@,
    ;
}

/// Decorates an entity with its creation instant and the derived hour
/// bucket, assigned once when the envelope is made. This is the only place
/// date and time semantics exist; entities themselves are timeless.
#[derive(Clone, Copy, Debug)]
pub struct DateTimeWrapper<T> {
    pub element: T,
    /// The creation instant, in epoch milliseconds.
    pub date_time: i64,
    /// The service-window bucket of the creation instant's local clock hour.
    pub hour: Hour,
}

impl<T: View> View for DateTimeWrapper<T> {
    type V = DateTimeWrapper<T::V>;

    open spec fn view(&self) -> DateTimeWrapper<T::V> {
        DateTimeWrapper { element: self.element@, date_time: self.date_time, hour: self.hour }
    }
}

impl<T: Duplicable> Duplicable for DateTimeWrapper<T> {
    fn duplicate(&self) -> (r: Self) {
        DateTimeWrapper {
            element: self.element.duplicate(),
            date_time: self.date_time,
            hour: self.hour,
        }
    }
}

impl<T> DateTimeWrapper<T> {
    /// Stamps `element` with the given creation instant. The hour bucket is
    /// derived from the instant's clock hour in the machine's local time zone.
    pub fn new(element: T, now_millis: i64) -> (r: DateTimeWrapper<T>)
        requires
            ts_in_range(now_millis as int),
        ensures
            r.element == element,
            r.date_time == now_millis,
    {
        let clock_hour = local_hour_of(now_millis);
        let hour = Hour::from_clock(clock_hour);
        DateTimeWrapper { element, date_time: now_millis, hour }
    }
}

/// Anything sized can be wrapped with a creation timestamp.
pub trait WrapInDateTime: Sized {
    /// Stamps `self` with the given creation instant.
    fn wrapped_in_date_time(self, now_millis: i64) -> (r: DateTimeWrapper<Self>)
        requires
            ts_in_range(now_millis as int),
        ensures
            r.element == self,
            r.date_time == now_millis,
    ;
}

impl<T> WrapInDateTime for T {
    fn wrapped_in_date_time(self, now_millis: i64) -> (r: DateTimeWrapper<T>) {
        DateTimeWrapper::new(self, now_millis)
    }
}

/// The wrapped entity's fields followed by the two timing fields.
pub open spec fn spec_wrapped_fields<T: TimingColumnsFree>(w: DateTimeWrapper<T>) -> Seq<
    (Seq<char>, SpecField),
> {
    w.element.spec_fields().push(("date_time"@, SpecField::Timestamp(w.date_time))).push(
        ("hour"@, SpecField::TinyInt(spec_hour_code(w.hour))),
    )
}

impl<T: TimingColumnsFree> CanBuildObjectMapper for DateTimeWrapper<T> {
    /// The wrapper stores its rows in the wrapped entity's table.
    open spec fn spec_table_name() -> Seq<char> {
        T::spec_table_name()
    }

    open spec fn spec_fields(&self) -> Seq<(Seq<char>, SpecField)> {
        spec_wrapped_fields(*self)
    }

    open spec fn fields_wf(&self) -> bool {
        self.element.fields_wf() && ts_in_range(self.date_time as int)
    }

    fn table_name() -> (r: String) {
        T::table_name()
    }

    /// Proxies field mapping to the wrapped entity, appending the
    /// `date_time` and `hour` fields after whatever the entity contributed.
    fn build_object_mapper(&self) -> (r: ObjectMapper) {
        let mut mapper = self.element.build_object_mapper();
        proof {
            self.element.lemma_timing_columns_free();
        }
        mapper.add_field("date_time", FieldValue::Timestamp(self.date_time));
        proof {
            reveal_strlit("date_time");
            reveal_strlit("hour");
            assert("date_time"@.len() == 9);
            assert("hour"@.len() == 4);
            assert("date_time"@ != "hour"@);
            lemma_find_field_push_other(
                self.element.spec_fields(),
                "date_time"@,
                SpecField::Timestamp(self.date_time),
                "hour"@,
            );
        }
        mapper.add_field("hour", self.hour.to_field());
        proof {
            assert(mapper.fields_view() == spec_wrapped_fields(*self));
        }
        mapper
    }
}

/// Finding a name in a list extended by a field of another name finds it in
/// the original list, one way or the other.
pub proof fn lemma_find_field_push_other(
    fs: Seq<(Seq<char>, SpecField)>,
    pushed: Seq<char>,
    value: SpecField,
    sought: Seq<char>,
)
    requires
        pushed != sought,
        spec_find_field(fs, sought) is None,
    ensures
        spec_find_field(fs.push((pushed, value)), sought) is None,
    decreases fs.len(),
{
    assert(fs.push((pushed, value))[0] == if fs.len() == 0 {
        (pushed, value)
    } else {
        fs[0]
    });
    if fs.len() == 0 {
        assert(fs.push((pushed, value)).drop_first() =~= Seq::<(Seq<char>, SpecField)>::empty());
        assert(spec_find_field(Seq::<(Seq<char>, SpecField)>::empty(), sought) is None);
    } else {
        assert(fs[0].0 != sought);
        assert(fs.push((pushed, value)).drop_first() =~= fs.drop_first().push((pushed, value)));
        lemma_find_field_push_other(fs.drop_first(), pushed, value, sought);
    }
}

impl<T: FromSql> FromSql for DateTimeWrapper<T> {
    /// The envelope first reads the two timing columns, then delegates the
    /// remaining columns to the wrapped entity's decoder.
    open spec fn spec_from_sql(row: Seq<(Seq<char>, SpecStored)>) -> Result<
        DateTimeWrapper<T::V>,
        MarshalError,
    > {
        match spec_lookup(row, "date_time"@) {
            None => Err(MarshalError::MissingColumn),
            Some(v) => match spec_decode_timestamp(v) {
                Err(e) => Err(e),
                Ok(date_time) => match spec_lookup(row, "hour"@) {
                    None => Err(MarshalError::MissingColumn),
                    Some(hv) => match spec_decode_hour(hv) {
                        Err(e) => Err(e),
                        Ok(hour) => match T::spec_from_sql(row) {
                            Err(e) => Err(e),
                            Ok(element) => Ok(DateTimeWrapper { element, date_time, hour }),
                        },
                    },
                },
            },
        }
    }

    fn from_sql(row: &Row) -> (r: Result<Self, MarshalError>) {
        let dt_value = match lookup(row, "date_time") {
            None => {
                return Err(MarshalError::MissingColumn);
            },
            Some(v) => v,
        };
        let date_time = match decode_timestamp(&dt_value) {
            Err(e) => {
                return Err(e);
            },
            Ok(m) => m,
        };
        let hour_value = match lookup(row, "hour") {
            None => {
                return Err(MarshalError::MissingColumn);
            },
            Some(v) => v,
        };
        let hour = match Hour::decode(&hour_value) {
            Err(e) => {
                return Err(e);
            },
            Ok(h) => h,
        };
        let element = match T::from_sql(row) {
            Err(e) => {
                return Err(e);
            },
            Ok(x) => x,
        };
        Ok(DateTimeWrapper { element, date_time, hour })
    }
}


/// Reading a stamped admission back out of the row its wrapped fields store
/// is the identity: the envelope recovers the creation instant, the hour
/// bucket, and the wrapped entity that were encoded. The timestamp
/// hypothesis is exactly what the RFC 3339 encoder's contract gives any
/// caller that produced the stored text.
pub proof fn lemma_stamped_admission_row_roundtrip(
    w: DateTimeWrapper<crate::model::admission::Admission>,
)
    requires
        ts_in_range(w.date_time as int),
        crate::time::rfc3339_millis_of(crate::time::rfc3339_of(w.date_time)) == Some(w.date_time),
    ensures
        DateTimeWrapper::<crate::model::admission::Admission>::spec_from_sql(
            crate::value::spec_stored_row(spec_wrapped_fields(w)),
        ) == Ok::<DateTimeWrapper<crate::model::admission::Admission>, MarshalError>(w@),
{
    reveal_strlit("kind");
    reveal_strlit("payment_method");
    reveal_strlit("quantity");
    reveal_strlit("date_time");
    reveal_strlit("hour");
    assert("kind"@.len() == 4);
    assert("payment_method"@.len() == 14);
    assert("quantity"@.len() == 8);
    assert("date_time"@.len() == 9);
    assert("hour"@.len() == 4);
    assert("kind"@[0] == 'k');
    assert("hour"@[0] == 'h');
    let fs = spec_wrapped_fields(w);
    let row = crate::value::spec_stored_row(fs);
    let stored = |i: int| crate::value::spec_stored(fs[i].1);
    assert(fs =~= crate::model::admission::spec_admission_fields(w.element).push(
        ("date_time"@, SpecField::Timestamp(w.date_time)),
    ).push(("hour"@, SpecField::TinyInt(spec_hour_code(w.hour)))));
    assert(row =~= seq![
        ("kind"@, stored(0)),
        ("payment_method"@, stored(1)),
        ("quantity"@, stored(2)),
        ("date_time"@, stored(3)),
        ("hour"@, stored(4)),
    ]);
    let r1 = row.drop_first();
    let r2 = r1.drop_first();
    let r3 = r2.drop_first();
    let r4 = r3.drop_first();
    assert(r1 =~= seq![
        ("payment_method"@, stored(1)),
        ("quantity"@, stored(2)),
        ("date_time"@, stored(3)),
        ("hour"@, stored(4)),
    ]);
    assert(r2 =~= seq![
        ("quantity"@, stored(2)),
        ("date_time"@, stored(3)),
        ("hour"@, stored(4)),
    ]);
    assert(r3 =~= seq![("date_time"@, stored(3)), ("hour"@, stored(4))]);
    assert(r4 =~= seq![("hour"@, stored(4))]);
    crate::value::lemma_lookup_skip(row, "date_time"@);
    crate::value::lemma_lookup_skip(r1, "date_time"@);
    crate::value::lemma_lookup_skip(r2, "date_time"@);
    crate::value::lemma_lookup_head(r3, "date_time"@);
    crate::value::lemma_lookup_skip(row, "hour"@);
    crate::value::lemma_lookup_skip(r1, "hour"@);
    crate::value::lemma_lookup_skip(r2, "hour"@);
    crate::value::lemma_lookup_skip(r3, "hour"@);
    crate::value::lemma_lookup_head(r4, "hour"@);
    crate::model::hour::lemma_hour_roundtrip(w.hour);
    crate::value::lemma_lookup_head(row, "kind"@);
    crate::value::lemma_lookup_skip(row, "payment_method"@);
    crate::value::lemma_lookup_head(r1, "payment_method"@);
    crate::value::lemma_lookup_skip(row, "quantity"@);
    crate::value::lemma_lookup_skip(r1, "quantity"@);
    crate::value::lemma_lookup_head(r2, "quantity"@);
    crate::model::admission_kind::lemma_admission_kind_roundtrip(w.element.kind);
    if w.element.payment_method is Some {
        crate::model::payment_method::lemma_payment_method_roundtrip(
            w.element.payment_method.unwrap(),
        );
    }
}

} // verus!
