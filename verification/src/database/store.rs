use vstd::prelude::*;

use crate::database::object_mapper::{spec_insert_statement, spec_schema_statement};
use crate::database::storable::{
    CanBuildObjectMapper, DateTimeWrapper, Duplicable, FromSql, spec_wrapped_fields,
};
use crate::model::admission::Admission;
use crate::model::admission_kind::{spec_admission_cost_cents, spec_admission_kind_description};
use crate::model::as_transaction_record::AsTransactionRecord;
use crate::model::donation::Donation;
use crate::model::gift_shop_sale::{GiftShopSale, spec_gift_shop_total};
use crate::model::hour::Hour;
use crate::model::membership::Membership;
use crate::model::membership_kind::{spec_membership_kind_name, spec_membership_price_cents};
use crate::model::transaction_record::{SpecTransactionRecord, TransactionKind, TransactionRecord};
use crate::time::{DAY_MILLIS, ts_in_range};
use crate::value::{Row, SpecStored, row_view};

verus! {

/// The views of a list of values.
pub open spec fn views<T: View>(items: Seq<T>) -> Seq<T::V> {
    items.map_values(|x: T| x@)
}

/// The rows whose creation instant lies strictly after the cutoff.
pub open spec fn spec_window<V>(rows: Seq<DateTimeWrapper<V>>, cutoff: int) -> Seq<
    DateTimeWrapper<V>,
> {
    rows.filter(|w: DateTimeWrapper<V>| w.date_time > cutoff)
}

/// The wrapped entities of a list of rows, timing stripped.
pub open spec fn elements_of<V>(rows: Seq<DateTimeWrapper<V>>) -> Seq<V> {
    rows.map_values(|w: DateTimeWrapper<V>| w.element)
}

/// Returns exactly the rows whose creation instant lies strictly after
/// `now - lookback`; a row exactly at the boundary is excluded.
pub fn select_since<T: Duplicable>(
    rows: &Vec<DateTimeWrapper<T>>,
    now_millis: i64,
    lookback_millis: i64,
) -> (r: Vec<DateTimeWrapper<T>>)
    requires
        ts_in_range(now_millis as int),
        0 <= lookback_millis,
    ensures
        views(r@) == spec_window(views(rows@), now_millis - lookback_millis),
{
    let cutoff = now_millis - lookback_millis;
    let ghost model = views(rows@);
    let mut out: Vec<DateTimeWrapper<T>> = Vec::new();
    proof {
        reveal(Seq::filter);
        assert(model.take(0) =~= Seq::<DateTimeWrapper<T::V>>::empty());
        assert(views(out@) =~= spec_window(model.take(0), cutoff as int));
    }
    let mut i: usize = 0;
    while i < rows.len()
        invariant
            i <= rows.len(),
            model == views(rows@),
            cutoff == now_millis - lookback_millis,
            views(out@) == spec_window(model.take(i as int), cutoff as int),
        decreases rows.len() - i,
    {
        proof {
            reveal(Seq::filter);
            assert(model.take(i + 1).drop_last() =~= model.take(i as int));
            assert(model.take(i + 1).last() == model[i as int]);
            assert(model[i as int] == rows@[i as int]@);
        }
        if rows[i].date_time > cutoff {
            let copy = rows[i].duplicate();
            out.push(copy);
            proof {
                assert(views(out@) =~= spec_window(model.take(i as int), cutoff as int).push(
                    model[i as int],
                ));
            }
        }
        i = i + 1;
    }
    proof {
        assert(model.take(rows@.len() as int) =~= model);
    }
    out
}

/// Copies the entities of the rows whose creation instant lies strictly
/// after the cutoff, in store order.
pub fn windowed_elements<T: Duplicable>(rows: &Vec<DateTimeWrapper<T>>, cutoff: i64) -> (r: Vec<
    T,
>)
    ensures
        views(r@) == elements_of(spec_window(views(rows@), cutoff as int)),
{
    let ghost model = views(rows@);
    let mut out: Vec<T> = Vec::new();
    proof {
        reveal(Seq::filter);
        assert(model.take(0) =~= Seq::<DateTimeWrapper<T::V>>::empty());
        assert(views(out@) =~= elements_of(spec_window(model.take(0), cutoff as int)));
    }
    let mut i: usize = 0;
    while i < rows.len()
        invariant
            i <= rows.len(),
            model == views(rows@),
            views(out@) == elements_of(spec_window(model.take(i as int), cutoff as int)),
        decreases rows.len() - i,
    {
        proof {
            reveal(Seq::filter);
            assert(model.take(i + 1).drop_last() =~= model.take(i as int));
            assert(model.take(i + 1).last() == model[i as int]);
            assert(model[i as int] == rows@[i as int]@);
        }
        if rows[i].date_time > cutoff {
            let copy = rows[i].element.duplicate();
            out.push(copy);
            proof {
                assert(elements_of(spec_window(model.take(i + 1), cutoff as int)) =~= elements_of(
                    spec_window(model.take(i as int), cutoff as int),
                ).push(model[i as int].element));
                assert(views(out@) =~= elements_of(
                    spec_window(model.take(i as int), cutoff as int),
                ).push(model[i as int].element));
            }
        } else {
            proof {
                assert(elements_of(spec_window(model.take(i + 1), cutoff as int)) =~= elements_of(
                    spec_window(model.take(i as int), cutoff as int),
                ));
            }
        }
        i = i + 1;
    }
    proof {
        assert(model.take(rows@.len() as int) =~= model);
    }
    out
}

/// The entities of the rows that decode, in row order; rows that fail to
/// decode are skipped, not failed on.
pub open spec fn spec_decoded_ok<T: FromSql>(rows: Seq<Seq<(Seq<char>, SpecStored)>>) -> Seq<
    T::V,
>
    decreases rows.len(),
{
    if rows.len() == 0 {
        Seq::empty()
    } else {
        match T::spec_from_sql(rows.last()) {
            Ok(v) => spec_decoded_ok::<T>(rows.drop_last()).push(v),
            Err(_) => spec_decoded_ok::<T>(rows.drop_last()),
        }
    }
}

/// Decodes every retrieved row, skipping — not failing the whole call on —
/// the rows that do not decode. This drop-and-continue policy is the
/// windowed select's deliberate choice.
pub fn decode_rows<T: FromSql>(rows: &Vec<Row>) -> (r: Vec<T>)
    ensures
        views(r@) == spec_decoded_ok::<T>(rows@.map_values(|row: Row| row_view(row))),
{
    let ghost model = rows@.map_values(|row: Row| row_view(row));
    let mut out: Vec<T> = Vec::new();
    proof {
        assert(model.take(0) =~= Seq::<Seq<(Seq<char>, SpecStored)>>::empty());
        assert(views(out@) =~= spec_decoded_ok::<T>(model.take(0)));
    }
    let mut i: usize = 0;
    while i < rows.len()
        invariant
            i <= rows.len(),
            model == rows@.map_values(|row: Row| row_view(row)),
            views(out@) == spec_decoded_ok::<T>(model.take(i as int)),
        decreases rows.len() - i,
    {
        proof {
            assert(model.take(i + 1).drop_last() =~= model.take(i as int));
            assert(model.take(i + 1).last() == model[i as int]);
            assert(model[i as int] == row_view(rows@[i as int]));
        }
        match T::from_sql(&rows[i]) {
            Ok(v) => {
                out.push(v);
                proof {
                    assert(views(out@) =~= spec_decoded_ok::<T>(model.take(i as int)).push(v@));
                }
            },
            Err(_) => {},
        }
        i = i + 1;
    }
    proof {
        assert(model.take(rows@.len() as int) =~= model);
    }
    out
}

/// The parameterized windowed query for a table; the caller binds the
/// cutoff instant to `:max_age` before executing it.
pub fn select_since_query(table_name: &str) -> (r: String)
    ensures
        r@ == "SELECT * FROM "@ + table_name@ + " WHERE date_time >:max_age"@,
{
    proof {
        reveal_strlit("SELECT * FROM ");
        reveal_strlit(" WHERE date_time >:max_age");
    }
    let mut out = "SELECT * FROM ".to_owned();
    out.append(table_name);
    out.append(" WHERE date_time >:max_age");
    out
}


/// The rows whose creation instant lies at most one day before `now`,
/// boundary included.
pub open spec fn spec_recent<V>(rows: Seq<DateTimeWrapper<V>>, now: int) -> Seq<
    DateTimeWrapper<V>,
> {
    rows.filter(|w: DateTimeWrapper<V>| now - w.date_time <= DAY_MILLIS)
}

/// Copies the entities of the rows created at most one day before `now`,
/// boundary included, in store order.
pub fn recent_elements<T: Duplicable>(rows: &Vec<DateTimeWrapper<T>>, now_millis: i64) -> (r: Vec<
    T,
>)
    requires
        ts_in_range(now_millis as int),
    ensures
        views(r@) == elements_of(spec_recent(views(rows@), now_millis as int)),
{
    let ghost model = views(rows@);
    let mut out: Vec<T> = Vec::new();
    proof {
        reveal(Seq::filter);
        assert(model.take(0) =~= Seq::<DateTimeWrapper<T::V>>::empty());
        assert(views(out@) =~= elements_of(spec_recent(model.take(0), now_millis as int)));
    }
    let mut i: usize = 0;
    while i < rows.len()
        invariant
            i <= rows.len(),
            ts_in_range(now_millis as int),
            model == views(rows@),
            views(out@) == elements_of(spec_recent(model.take(i as int), now_millis as int)),
        decreases rows.len() - i,
    {
        proof {
            reveal(Seq::filter);
            assert(model.take(i + 1).drop_last() =~= model.take(i as int));
            assert(model.take(i + 1).last() == model[i as int]);
            assert(model[i as int] == rows@[i as int]@);
        }
        if rows[i].date_time >= now_millis - DAY_MILLIS {
            let copy = rows[i].element.duplicate();
            out.push(copy);
            proof {
                assert(elements_of(spec_recent(model.take(i + 1), now_millis as int))
                    =~= elements_of(spec_recent(model.take(i as int), now_millis as int)).push(
                    model[i as int].element,
                ));
                assert(views(out@) =~= elements_of(
                    spec_recent(model.take(i as int), now_millis as int),
                ).push(model[i as int].element));
            }
        } else {
            proof {
                assert(elements_of(spec_recent(model.take(i + 1), now_millis as int))
                    =~= elements_of(spec_recent(model.take(i as int), now_millis as int)));
            }
        }
        i = i + 1;
    }
    proof {
        assert(model.take(rows@.len() as int) =~= model);
    }
    out
}

/// One timestamp-wrapped row bound for a particular table.
#[derive(Debug)]
pub enum StampedRecord {
    Admission(DateTimeWrapper<Admission>),
    Membership(DateTimeWrapper<Membership>),
    Donation(DateTimeWrapper<Donation>),
    GiftShopSale(DateTimeWrapper<GiftShopSale>),
    Transaction(DateTimeWrapper<TransactionRecord>),
}

impl StampedRecord {
    /// The creation instant of the wrapped row.
    pub open spec fn spec_date_time(&self) -> i64 {
        match self {
            StampedRecord::Admission(w) => w.date_time,
            StampedRecord::Membership(w) => w.date_time,
            StampedRecord::Donation(w) => w.date_time,
            StampedRecord::GiftShopSale(w) => w.date_time,
            StampedRecord::Transaction(w) => w.date_time,
        }
    }
}

/// How a startup settled the dataset: a brand-new one where no marker was
/// found, the existing one loaded where it was young enough, or a fresh one
/// after the old dataset was rotated out for being over the maximum age.
#[derive(Clone, Copy, Debug, PartialEq, Eq, Structural)]
pub enum StartupOutcome {
    Fresh,
    Loaded,
    Rotated,
}

/// What a startup decides from the marker it found, the current instant,
/// and the configured maximum dataset age.
pub open spec fn spec_startup_decision(marker: Option<i64>, now: int, max_age: int) -> StartupOutcome {
    match marker {
        None => StartupOutcome::Fresh,
        Some(c) => if now - c <= max_age {
            StartupOutcome::Loaded
        } else {
            StartupOutcome::Rotated
        },
    }
}

/// The prior dataset's rows, as the caller decoded them from the backing
/// store before startup.
pub struct DatasetSnapshot {
    pub admissions: Vec<DateTimeWrapper<Admission>>,
    pub memberships: Vec<DateTimeWrapper<Membership>>,
    pub donations: Vec<DateTimeWrapper<Donation>>,
    pub gift_shop_sales: Vec<DateTimeWrapper<GiftShopSale>>,
    pub transactions: Vec<DateTimeWrapper<TransactionRecord>>,
}

impl DatasetSnapshot {
    /// A snapshot with no rows.
    pub fn empty() -> (r: DatasetSnapshot)
        ensures
            r.admissions@ == Seq::<DateTimeWrapper<Admission>>::empty(),
            r.memberships@ == Seq::<DateTimeWrapper<Membership>>::empty(),
            r.donations@ == Seq::<DateTimeWrapper<Donation>>::empty(),
            r.gift_shop_sales@ == Seq::<DateTimeWrapper<GiftShopSale>>::empty(),
            r.transactions@ == Seq::<DateTimeWrapper<TransactionRecord>>::empty(),
    {
        DatasetSnapshot {
            admissions: Vec::new(),
            memberships: Vec::new(),
            donations: Vec::new(),
            gift_shop_sales: Vec::new(),
            transactions: Vec::new(),
        }
    }
}

/// Whether a daily cache holds exactly the entities of the store rows newer
/// than the cutoff, in store order.
pub open spec fn cache_consistent<T: View>(
    store: Seq<DateTimeWrapper<T>>,
    cache: Seq<T>,
    cutoff: int,
) -> bool {
    views(cache) == elements_of(spec_window(views(store), cutoff))
}

/// The persistence facade: it owns the dataset's rows — the in-memory model
/// of the durable store — and one rolling daily snapshot per entity kind,
/// refreshed after every write by re-querying the rows for the trailing day.
/// The caller executes each returned statement against the durable store.
#[derive(Debug)]
pub struct Database {
    created: i64,
    refreshed_at: i64,
    admissions: Vec<DateTimeWrapper<Admission>>,
    memberships: Vec<DateTimeWrapper<Membership>>,
    donations: Vec<DateTimeWrapper<Donation>>,
    gift_shop_sales: Vec<DateTimeWrapper<GiftShopSale>>,
    transactions: Vec<DateTimeWrapper<TransactionRecord>>,
    daily_admissions: Vec<Admission>,
    daily_memberships: Vec<Membership>,
    daily_donations: Vec<Donation>,
    daily_gift_shop_sales: Vec<GiftShopSale>,
    daily_transactions: Vec<TransactionRecord>,
}

impl Database {
    /// The instant the current dataset was created.
    pub closed spec fn spec_created(&self) -> i64 {
        self.created
    }

    /// The instant of the last cache refresh.
    pub closed spec fn spec_refreshed_at(&self) -> i64 {
        self.refreshed_at
    }

    /// The stored admission rows.
    pub closed spec fn spec_admissions(&self) -> Seq<DateTimeWrapper<Admission>> {
        self.admissions@
    }

    /// The stored membership rows.
    pub closed spec fn spec_memberships(&self) -> Seq<DateTimeWrapper<Membership>> {
        self.memberships@
    }

    /// The stored donation rows.
    pub closed spec fn spec_donations(&self) -> Seq<DateTimeWrapper<Donation>> {
        self.donations@
    }

    /// The stored gift-shop-sale rows.
    pub closed spec fn spec_gift_shop_sales(&self) -> Seq<DateTimeWrapper<GiftShopSale>> {
        self.gift_shop_sales@
    }

    /// The stored transaction-record rows.
    pub closed spec fn spec_transactions(&self) -> Seq<DateTimeWrapper<TransactionRecord>> {
        self.transactions@
    }

    /// The daily admission snapshot.
    pub closed spec fn spec_daily_admissions(&self) -> Seq<Admission> {
        self.daily_admissions@
    }

    /// The daily membership snapshot.
    pub closed spec fn spec_daily_memberships(&self) -> Seq<Membership> {
        self.daily_memberships@
    }

    /// The daily donation snapshot.
    pub closed spec fn spec_daily_donations(&self) -> Seq<Donation> {
        self.daily_donations@
    }

    /// The daily gift-shop-sale snapshot.
    pub closed spec fn spec_daily_gift_shop_sales(&self) -> Seq<GiftShopSale> {
        self.daily_gift_shop_sales@
    }

    /// The daily transaction snapshot.
    pub closed spec fn spec_daily_transactions(&self) -> Seq<TransactionRecord> {
        self.daily_transactions@
    }

    /// The facade's invariant: the instants are in range, and every daily
    /// cache holds exactly what a windowed query of the trailing day over
    /// its store would return, as of the last refresh.
    pub open spec fn wf(&self) -> bool {
        &&& ts_in_range(self.spec_created() as int)
        &&& ts_in_range(self.spec_refreshed_at() as int)
        &&& cache_consistent(
            self.spec_admissions(),
            self.spec_daily_admissions(),
            self.spec_refreshed_at() - DAY_MILLIS,
        )
        &&& cache_consistent(
            self.spec_memberships(),
            self.spec_daily_memberships(),
            self.spec_refreshed_at() - DAY_MILLIS,
        )
        &&& cache_consistent(
            self.spec_donations(),
            self.spec_daily_donations(),
            self.spec_refreshed_at() - DAY_MILLIS,
        )
        &&& cache_consistent(
            self.spec_gift_shop_sales(),
            self.spec_daily_gift_shop_sales(),
            self.spec_refreshed_at() - DAY_MILLIS,
        )
        &&& cache_consistent(
            self.spec_transactions(),
            self.spec_daily_transactions(),
            self.spec_refreshed_at() - DAY_MILLIS,
        )
    }

    /// A fresh, empty dataset created at the given instant.
    pub fn new(now_millis: i64) -> (r: Database)
        requires
            ts_in_range(now_millis as int),
        ensures
            r.wf(),
            r.spec_created() == now_millis,
            r.spec_refreshed_at() == now_millis,
            r.spec_admissions() == Seq::<DateTimeWrapper<Admission>>::empty(),
            r.spec_memberships() == Seq::<DateTimeWrapper<Membership>>::empty(),
            r.spec_donations() == Seq::<DateTimeWrapper<Donation>>::empty(),
            r.spec_gift_shop_sales() == Seq::<DateTimeWrapper<GiftShopSale>>::empty(),
            r.spec_transactions() == Seq::<DateTimeWrapper<TransactionRecord>>::empty(),
            r.spec_daily_admissions() == Seq::<Admission>::empty(),
            r.spec_daily_memberships() == Seq::<Membership>::empty(),
            r.spec_daily_donations() == Seq::<Donation>::empty(),
            r.spec_daily_gift_shop_sales() == Seq::<GiftShopSale>::empty(),
            r.spec_daily_transactions() == Seq::<TransactionRecord>::empty(),
    {
        let r = Database {
            created: now_millis,
            refreshed_at: now_millis,
            admissions: Vec::new(),
            memberships: Vec::new(),
            donations: Vec::new(),
            gift_shop_sales: Vec::new(),
            transactions: Vec::new(),
            daily_admissions: Vec::new(),
            daily_memberships: Vec::new(),
            daily_donations: Vec::new(),
            daily_gift_shop_sales: Vec::new(),
            daily_transactions: Vec::new(),
        };
        proof {
            reveal(Seq::filter);
            lemma_empty_cache_consistent::<Admission>(now_millis - DAY_MILLIS);
            lemma_empty_cache_consistent::<Membership>(now_millis - DAY_MILLIS);
            lemma_empty_cache_consistent::<Donation>(now_millis - DAY_MILLIS);
            lemma_empty_cache_consistent::<GiftShopSale>(now_millis - DAY_MILLIS);
            lemma_empty_cache_consistent::<TransactionRecord>(now_millis - DAY_MILLIS);
        }
        r
    }

    /// The daily admissions snapshot.
    pub fn daily_admissions(&self) -> (r: &Vec<Admission>)
        ensures
            r@ == self.spec_daily_admissions(),
    {
        &self.daily_admissions
    }

    /// The daily memberships snapshot.
    pub fn daily_memberships(&self) -> (r: &Vec<Membership>)
        ensures
            r@ == self.spec_daily_memberships(),
    {
        &self.daily_memberships
    }

    /// The daily donations snapshot.
    pub fn daily_donations(&self) -> (r: &Vec<Donation>)
        ensures
            r@ == self.spec_daily_donations(),
    {
        &self.daily_donations
    }

    /// The daily gift-shop-sales snapshot.
    pub fn daily_gift_shop_sales(&self) -> (r: &Vec<GiftShopSale>)
        ensures
            r@ == self.spec_daily_gift_shop_sales(),
    {
        &self.daily_gift_shop_sales
    }

    /// The daily transactions snapshot.
    pub fn daily_transactions(&self) -> (r: &Vec<TransactionRecord>)
        ensures
            r@ == self.spec_daily_transactions(),
    {
        &self.daily_transactions
    }

    /// The instant the current dataset was created.
    pub fn created(&self) -> (r: i64)
        ensures
            r == self.spec_created(),
    {
        self.created
    }

    /// Re-queries every store for the rows of the trailing day and replaces
    /// all five daily snapshots with the results. Deliberately a full
    /// re-query, not an incremental append: the caches can never diverge
    /// from what the store would return for the same window.
    pub fn read_entire_day(&mut self)
        requires
            ts_in_range(old(self).spec_refreshed_at() as int),
        ensures
            final(self).spec_created() == old(self).spec_created(),
            final(self).spec_refreshed_at() == old(self).spec_refreshed_at(),
            final(self).spec_admissions() == old(self).spec_admissions(),
            final(self).spec_memberships() == old(self).spec_memberships(),
            final(self).spec_donations() == old(self).spec_donations(),
            final(self).spec_gift_shop_sales() == old(self).spec_gift_shop_sales(),
            final(self).spec_transactions() == old(self).spec_transactions(),
            cache_consistent(
                final(self).spec_admissions(),
                final(self).spec_daily_admissions(),
                final(self).spec_refreshed_at() - DAY_MILLIS,
            ),
            cache_consistent(
                final(self).spec_memberships(),
                final(self).spec_daily_memberships(),
                final(self).spec_refreshed_at() - DAY_MILLIS,
            ),
            cache_consistent(
                final(self).spec_donations(),
                final(self).spec_daily_donations(),
                final(self).spec_refreshed_at() - DAY_MILLIS,
            ),
            cache_consistent(
                final(self).spec_gift_shop_sales(),
                final(self).spec_daily_gift_shop_sales(),
                final(self).spec_refreshed_at() - DAY_MILLIS,
            ),
            cache_consistent(
                final(self).spec_transactions(),
                final(self).spec_daily_transactions(),
                final(self).spec_refreshed_at() - DAY_MILLIS,
            ),
            ts_in_range(final(self).spec_created() as int) ==> final(self).wf(),
    {
        let cutoff = self.refreshed_at - DAY_MILLIS;
        self.daily_admissions = windowed_elements(&self.admissions, cutoff);
        self.daily_memberships = windowed_elements(&self.memberships, cutoff);
        self.daily_donations = windowed_elements(&self.donations, cutoff);
        self.daily_gift_shop_sales = windowed_elements(&self.gift_shop_sales, cutoff);
        self.daily_transactions = windowed_elements(&self.transactions, cutoff);
    }

    /// Appends the row to its table's store, refreshes every daily
    /// snapshot, and returns the `INSERT` statement for the caller to
    /// execute against the durable store. The caches are only refreshed
    /// here, after the row is in the store.
    pub fn insert(&mut self, object: StampedRecord, now_millis: i64) -> (r: String)
        requires
            old(self).wf(),
            ts_in_range(now_millis as int),
            ts_in_range(object.spec_date_time() as int),
        ensures
            final(self).wf(),
            final(self).spec_created() == old(self).spec_created(),
            final(self).spec_refreshed_at() == now_millis,
            match object {
                StampedRecord::Admission(w) => {
                    &&& final(self).spec_admissions() == old(self).spec_admissions().push(w)
                    &&& final(self).spec_memberships() == old(self).spec_memberships()
                    &&& final(self).spec_donations() == old(self).spec_donations()
                    &&& final(self).spec_gift_shop_sales() == old(self).spec_gift_shop_sales()
                    &&& final(self).spec_transactions() == old(self).spec_transactions()
                    &&& r@ == spec_insert_statement("admissions"@, spec_wrapped_fields(w))
                },
                StampedRecord::Membership(w) => {
                    &&& final(self).spec_memberships() == old(self).spec_memberships().push(w)
                    &&& final(self).spec_admissions() == old(self).spec_admissions()
                    &&& final(self).spec_donations() == old(self).spec_donations()
                    &&& final(self).spec_gift_shop_sales() == old(self).spec_gift_shop_sales()
                    &&& final(self).spec_transactions() == old(self).spec_transactions()
                    &&& r@ == spec_insert_statement("memberships"@, spec_wrapped_fields(w))
                },
                StampedRecord::Donation(w) => {
                    &&& final(self).spec_donations() == old(self).spec_donations().push(w)
                    &&& final(self).spec_admissions() == old(self).spec_admissions()
                    &&& final(self).spec_memberships() == old(self).spec_memberships()
                    &&& final(self).spec_gift_shop_sales() == old(self).spec_gift_shop_sales()
                    &&& final(self).spec_transactions() == old(self).spec_transactions()
                    &&& r@ == spec_insert_statement("donations"@, spec_wrapped_fields(w))
                },
                StampedRecord::GiftShopSale(w) => {
                    &&& final(self).spec_gift_shop_sales() == old(self).spec_gift_shop_sales().push(
                        w,
                    )
                    &&& final(self).spec_admissions() == old(self).spec_admissions()
                    &&& final(self).spec_memberships() == old(self).spec_memberships()
                    &&& final(self).spec_donations() == old(self).spec_donations()
                    &&& final(self).spec_transactions() == old(self).spec_transactions()
                    &&& r@ == spec_insert_statement("gift_shop_sales"@, spec_wrapped_fields(w))
                },
                StampedRecord::Transaction(w) => {
                    &&& final(self).spec_transactions() == old(self).spec_transactions().push(w)
                    &&& final(self).spec_admissions() == old(self).spec_admissions()
                    &&& final(self).spec_memberships() == old(self).spec_memberships()
                    &&& final(self).spec_donations() == old(self).spec_donations()
                    &&& final(self).spec_gift_shop_sales() == old(self).spec_gift_shop_sales()
                    &&& r@ == spec_insert_statement("transaction_records"@, spec_wrapped_fields(w))
                },
            },
    {
        let statement = match &object {
            StampedRecord::Admission(w) => w.build_object_mapper().insert(),
            StampedRecord::Membership(w) => w.build_object_mapper().insert(),
            StampedRecord::Donation(w) => w.build_object_mapper().insert(),
            StampedRecord::GiftShopSale(w) => w.build_object_mapper().insert(),
            StampedRecord::Transaction(w) => w.build_object_mapper().insert(),
        };
        match object {
            StampedRecord::Admission(w) => self.admissions.push(w),
            StampedRecord::Membership(w) => self.memberships.push(w),
            StampedRecord::Donation(w) => self.donations.push(w),
            StampedRecord::GiftShopSale(w) => self.gift_shop_sales.push(w),
            StampedRecord::Transaction(w) => self.transactions.push(w),
        }
        self.refreshed_at = now_millis;
        self.read_entire_day();
        statement
    }

    /// Inserts one admission sale and, right after it, the normalized
    /// transaction record derived from it, so that heterogeneous sales stay
    /// queryable uniformly. Returns the two `INSERT` statements, in order.
    pub fn add_admission(&mut self, admission: Admission, now_millis: i64) -> (r: Vec<String>)
        requires
            old(self).wf(),
            ts_in_range(now_millis as int),
            admission.spec_is_valid(),
        ensures
            final(self).wf(),
            final(self).spec_created() == old(self).spec_created(),
            final(self).spec_refreshed_at() == now_millis,
            final(self).spec_admissions().drop_last() == old(self).spec_admissions(),
            final(self).spec_admissions().last().element == admission,
            final(self).spec_admissions().last().date_time == now_millis,
            final(self).spec_transactions().drop_last() == old(self).spec_transactions(),
            final(self).spec_transactions().last().element@ == (SpecTransactionRecord {
                kind: TransactionKind::Admission,
                description: spec_admission_kind_description(admission.kind),
                quantity: admission.quantity,
                total_cost: (spec_admission_cost_cents(admission.kind) * admission.quantity) as u64,
            }),
            final(self).spec_transactions().last().date_time == now_millis,
            final(self).spec_memberships() == old(self).spec_memberships(),
            final(self).spec_donations() == old(self).spec_donations(),
            final(self).spec_gift_shop_sales() == old(self).spec_gift_shop_sales(),
            r@.len() == 2,
            r@[0]@ == spec_insert_statement(
                "admissions"@,
                spec_wrapped_fields(final(self).spec_admissions().last()),
            ),
            r@[1]@ == spec_insert_statement(
                "transaction_records"@,
                spec_wrapped_fields(final(self).spec_transactions().last()),
            ),
    {
        proof {
            assert(spec_admission_cost_cents(admission.kind) * admission.quantity <= 800 * 0xffff)
                by (nonlinear_arith)
                requires
                    spec_admission_cost_cents(admission.kind) <= 800,
                    admission.quantity <= 0xffff,
            ;
        }
        let record = admission.as_transaction_record();
        let row = DateTimeWrapper::new(admission, now_millis);
        let first = self.insert(StampedRecord::Admission(row), now_millis);
        let record_row = DateTimeWrapper::new(record, now_millis);
        let second = self.insert(StampedRecord::Transaction(record_row), now_millis);
        proof {
            assert(final(self).spec_admissions().drop_last() =~= old(self).spec_admissions());
            assert(final(self).spec_transactions().drop_last() =~= old(self).spec_transactions());
        }
        let mut statements: Vec<String> = Vec::new();
        statements.push(first);
        statements.push(second);
        statements
    }

    /// Inserts one donation and its derived transaction record. Returns the
    /// two `INSERT` statements, in order.
    pub fn add_donation(&mut self, donation: Donation, now_millis: i64) -> (r: Vec<String>)
        requires
            old(self).wf(),
            ts_in_range(now_millis as int),
        ensures
            final(self).wf(),
            final(self).spec_created() == old(self).spec_created(),
            final(self).spec_refreshed_at() == now_millis,
            final(self).spec_donations().drop_last() == old(self).spec_donations(),
            final(self).spec_donations().last().element == donation,
            final(self).spec_donations().last().date_time == now_millis,
            final(self).spec_transactions().drop_last() == old(self).spec_transactions(),
            final(self).spec_transactions().last().element@ == (SpecTransactionRecord {
                kind: TransactionKind::Donation,
                description: "Donation"@,
                quantity: 1,
                total_cost: donation.price,
            }),
            final(self).spec_transactions().last().date_time == now_millis,
            final(self).spec_admissions() == old(self).spec_admissions(),
            final(self).spec_memberships() == old(self).spec_memberships(),
            final(self).spec_gift_shop_sales() == old(self).spec_gift_shop_sales(),
            r@.len() == 2,
            r@[0]@ == spec_insert_statement(
                "donations"@,
                spec_wrapped_fields(final(self).spec_donations().last()),
            ),
            r@[1]@ == spec_insert_statement(
                "transaction_records"@,
                spec_wrapped_fields(final(self).spec_transactions().last()),
            ),
    {
        let record = donation.as_transaction_record();
        let row = DateTimeWrapper::new(donation, now_millis);
        let first = self.insert(StampedRecord::Donation(row), now_millis);
        let record_row = DateTimeWrapper::new(record, now_millis);
        let second = self.insert(StampedRecord::Transaction(record_row), now_millis);
        proof {
            assert(final(self).spec_donations().drop_last() =~= old(self).spec_donations());
            assert(final(self).spec_transactions().drop_last() =~= old(self).spec_transactions());
        }
        let mut statements: Vec<String> = Vec::new();
        statements.push(first);
        statements.push(second);
        statements
    }

    /// Inserts one membership sale and its derived transaction record.
    /// Returns the two `INSERT` statements, in order.
    pub fn add_membership(&mut self, membership: Membership, now_millis: i64) -> (r: Vec<String>)
        requires
            old(self).wf(),
            ts_in_range(now_millis as int),
            membership.spec_is_valid(),
        ensures
            final(self).wf(),
            final(self).spec_created() == old(self).spec_created(),
            final(self).spec_refreshed_at() == now_millis,
            final(self).spec_memberships().drop_last() == old(self).spec_memberships(),
            final(self).spec_memberships().last().element == membership,
            final(self).spec_memberships().last().date_time == now_millis,
            final(self).spec_transactions().drop_last() == old(self).spec_transactions(),
            final(self).spec_transactions().last().element@ == (SpecTransactionRecord {
                kind: TransactionKind::Membership,
                description: spec_membership_kind_name(membership.kind),
                quantity: membership.quantity,
                total_cost: (spec_membership_price_cents(membership.kind)
                    * membership.quantity) as u64,
            }),
            final(self).spec_transactions().last().date_time == now_millis,
            final(self).spec_admissions() == old(self).spec_admissions(),
            final(self).spec_donations() == old(self).spec_donations(),
            final(self).spec_gift_shop_sales() == old(self).spec_gift_shop_sales(),
            r@.len() == 2,
            r@[0]@ == spec_insert_statement(
                "memberships"@,
                spec_wrapped_fields(final(self).spec_memberships().last()),
            ),
            r@[1]@ == spec_insert_statement(
                "transaction_records"@,
                spec_wrapped_fields(final(self).spec_transactions().last()),
            ),
    {
        proof {
            assert(spec_membership_price_cents(membership.kind) * membership.quantity <= 75000
                * 0xffff) by (nonlinear_arith)
                requires
                    spec_membership_price_cents(membership.kind) <= 75000,
                    membership.quantity <= 0xffff,
            ;
        }
        let record = membership.as_transaction_record();
        let row = DateTimeWrapper::new(membership, now_millis);
        let first = self.insert(StampedRecord::Membership(row), now_millis);
        let record_row = DateTimeWrapper::new(record, now_millis);
        let second = self.insert(StampedRecord::Transaction(record_row), now_millis);
        proof {
            assert(final(self).spec_memberships().drop_last() =~= old(self).spec_memberships());
            assert(final(self).spec_transactions().drop_last() =~= old(self).spec_transactions());
        }
        let mut statements: Vec<String> = Vec::new();
        statements.push(first);
        statements.push(second);
        statements
    }

    /// Inserts one gift-shop sale and its derived transaction record; each
    /// entity kind's rows go to that kind's own store. Returns the two
    /// `INSERT` statements, in order.
    pub fn add_gift_shop_sale(&mut self, sale: GiftShopSale, now_millis: i64) -> (r: Vec<String>)
        requires
            old(self).wf(),
            ts_in_range(now_millis as int),
            sale.spec_is_valid(),
            spec_gift_shop_total(sale@) <= u64::MAX,
        ensures
            final(self).wf(),
            final(self).spec_created() == old(self).spec_created(),
            final(self).spec_refreshed_at() == now_millis,
            final(self).spec_gift_shop_sales().drop_last() == old(self).spec_gift_shop_sales(),
            final(self).spec_gift_shop_sales().last().element@ == sale@,
            final(self).spec_gift_shop_sales().last().date_time == now_millis,
            final(self).spec_transactions().drop_last() == old(self).spec_transactions(),
            final(self).spec_transactions().last().element@ == (SpecTransactionRecord {
                kind: TransactionKind::GiftShopSale,
                description: sale@.item_description,
                quantity: sale@.quantity,
                total_cost: spec_gift_shop_total(sale@) as u64,
            }),
            final(self).spec_transactions().last().date_time == now_millis,
            final(self).spec_admissions() == old(self).spec_admissions(),
            final(self).spec_memberships() == old(self).spec_memberships(),
            final(self).spec_donations() == old(self).spec_donations(),
            r@.len() == 2,
            r@[0]@ == spec_insert_statement(
                "gift_shop_sales"@,
                spec_wrapped_fields(final(self).spec_gift_shop_sales().last()),
            ),
            r@[1]@ == spec_insert_statement(
                "transaction_records"@,
                spec_wrapped_fields(final(self).spec_transactions().last()),
            ),
    {
        proof {
            crate::model::gift_shop_sale::lemma_gift_shop_parts_fit(sale@);
        }
        let record = sale.as_transaction_record();
        let row = DateTimeWrapper::new(sale, now_millis);
        let first = self.insert(StampedRecord::GiftShopSale(row), now_millis);
        let record_row = DateTimeWrapper::new(record, now_millis);
        let second = self.insert(StampedRecord::Transaction(record_row), now_millis);
        proof {
            assert(final(self).spec_gift_shop_sales().drop_last() == old(
                self,
            ).spec_gift_shop_sales());
            assert(final(self).spec_transactions().drop_last() =~= old(self).spec_transactions());
        }
        let mut statements: Vec<String> = Vec::new();
        statements.push(first);
        statements.push(second);
        statements
    }

    /// The transaction records created within the last day, boundary
    /// included, in store order.
    pub fn todays_transactions(&self, now_millis: i64) -> (r: Vec<TransactionRecord>)
        requires
            ts_in_range(now_millis as int),
        ensures
            views(r@) == elements_of(
                spec_recent(views(self.spec_transactions()), now_millis as int),
            ),
    {
        recent_elements(&self.transactions, now_millis)
    }

    /// The transaction records of one kind created within the last day.
    pub fn todays_transactions_of_kind(&self, kind: TransactionKind, now_millis: i64) -> (r: Vec<
        TransactionRecord,
    >)
        requires
            ts_in_range(now_millis as int),
        ensures
            views(r@) == elements_of(
                spec_recent(views(self.spec_transactions()), now_millis as int),
            ).filter(|t: SpecTransactionRecord| t.kind == kind),
    {
        let all = self.todays_transactions(now_millis);
        let ghost model = views(all@);
        let mut out: Vec<TransactionRecord> = Vec::new();
        proof {
            reveal(Seq::filter);
            assert(model.take(0) =~= Seq::<SpecTransactionRecord>::empty());
            assert(views(out@) =~= model.take(0).filter(
                |t: SpecTransactionRecord| t.kind == kind,
            ));
        }
        let mut i: usize = 0;
        while i < all.len()
            invariant
                i <= all.len(),
                model == views(all@),
                views(out@) == model.take(i as int).filter(
                    |t: SpecTransactionRecord| t.kind == kind,
                ),
            decreases all.len() - i,
        {
            proof {
                reveal(Seq::filter);
                assert(model.take(i + 1).drop_last() =~= model.take(i as int));
                assert(model.take(i + 1).last() == model[i as int]);
                assert(model[i as int] == all@[i as int]@);
            }
            if all[i].kind == kind {
                let copy = all[i].duplicate();
                out.push(copy);
                proof {
                    assert(views(out@) =~= model.take(i as int).filter(
                        |t: SpecTransactionRecord| t.kind == kind,
                    ).push(model[i as int]));
                }
            }
            i = i + 1;
        }
        proof {
            assert(model.take(all@.len() as int) =~= model);
        }
        out
    }

    /// Settles the dataset at startup. No marker means a brand-new dataset;
    /// a marker within the maximum age loads the prior rows; an older
    /// marker rotates the dataset out — the new dataset starts empty, its
    /// marker is the current instant, and no previously inserted row
    /// remains in any daily snapshot.
    pub fn startup(
        marker: Option<i64>,
        prior: DatasetSnapshot,
        now_millis: i64,
        max_age_millis: i64,
    ) -> (r: (Database, StartupOutcome))
        requires
            ts_in_range(now_millis as int),
            0 <= max_age_millis,
            marker matches Some(c) ==> ts_in_range(c as int),
        ensures
            r.0.wf(),
            r.0.spec_refreshed_at() == now_millis,
            r.1 == spec_startup_decision(marker, now_millis as int, max_age_millis as int),
            marker is None ==> r.1 == StartupOutcome::Fresh,
            r.1 == StartupOutcome::Loaded ==> {
                &&& r.0.spec_created() == marker.unwrap()
                &&& r.0.spec_admissions() == prior.admissions@
                &&& r.0.spec_memberships() == prior.memberships@
                &&& r.0.spec_donations() == prior.donations@
                &&& r.0.spec_gift_shop_sales() == prior.gift_shop_sales@
                &&& r.0.spec_transactions() == prior.transactions@
            },
            r.1 != StartupOutcome::Loaded ==> {
                &&& r.0.spec_created() == now_millis
                &&& r.0.spec_admissions() == Seq::<DateTimeWrapper<Admission>>::empty()
                &&& r.0.spec_memberships() == Seq::<DateTimeWrapper<Membership>>::empty()
                &&& r.0.spec_donations() == Seq::<DateTimeWrapper<Donation>>::empty()
                &&& r.0.spec_gift_shop_sales() == Seq::<DateTimeWrapper<GiftShopSale>>::empty()
                &&& r.0.spec_transactions() == Seq::<DateTimeWrapper<TransactionRecord>>::empty()
                &&& r.0.spec_daily_admissions() == Seq::<Admission>::empty()
                &&& r.0.spec_daily_memberships() == Seq::<Membership>::empty()
                &&& r.0.spec_daily_donations() == Seq::<Donation>::empty()
                &&& r.0.spec_daily_gift_shop_sales() == Seq::<GiftShopSale>::empty()
                &&& r.0.spec_daily_transactions() == Seq::<TransactionRecord>::empty()
            },
    {
        match marker {
            None => (Database::new(now_millis), StartupOutcome::Fresh),
            Some(created) => {
                if now_millis - created <= max_age_millis {
                    let mut db = Database {
                        created,
                        refreshed_at: now_millis,
                        admissions: prior.admissions,
                        memberships: prior.memberships,
                        donations: prior.donations,
                        gift_shop_sales: prior.gift_shop_sales,
                        transactions: prior.transactions,
                        daily_admissions: Vec::new(),
                        daily_memberships: Vec::new(),
                        daily_donations: Vec::new(),
                        daily_gift_shop_sales: Vec::new(),
                        daily_transactions: Vec::new(),
                    };
                    db.read_entire_day();
                    (db, StartupOutcome::Loaded)
                } else {
                    (Database::new(now_millis), StartupOutcome::Rotated)
                }
            },
        }
    }
}

/// The wrapped placeholder rows whose field lists shape the five schemas:
/// the statements depend only on the field names and types, so empty
/// placeholder entities stamped at the epoch serve.
pub open spec fn spec_schema_placeholder<T>(element: T) -> DateTimeWrapper<T> {
    DateTimeWrapper { element, date_time: 0, hour: Hour::ElevenToTwelve }
}

/// The five idempotent `CREATE TABLE` statements the store is set up with
/// at startup: one per entity kind and one for the transaction records,
/// each with the two timing columns appended after the entity's own fields.
pub fn create_schema_statements() -> (r: Vec<String>)
    ensures
        r@.len() == 5,
        r@[0]@ == spec_schema_statement(
            "admissions"@,
            spec_wrapped_fields(
                spec_schema_placeholder(
                    Admission {
                        kind: crate::model::admission_kind::Kind::Adult,
                        payment_method: None,
                        quantity: 0,
                    },
                ),
            ),
        ),
        r@[1]@ == spec_schema_statement(
            "donations"@,
            spec_wrapped_fields(
                spec_schema_placeholder(
                    Donation {
                        payment_method: crate::model::payment_method::PaymentMethod::Cash,
                        price: 0,
                    },
                ),
            ),
        ),
        r@[2]@ == spec_schema_statement(
            "gift_shop_sales"@,
            crate::model::gift_shop_sale::spec_gift_shop_fields(
                crate::model::gift_shop_sale::SpecGiftShopSale {
                    item_description: Seq::empty(),
                    price: 0,
                    payment_method: crate::model::payment_method::PaymentMethod::Cash,
                    quantity: 0,
                    sales_tax: 855,
                },
            ).push(("date_time"@, crate::value::SpecField::Timestamp(0))).push(
                ("hour"@, crate::value::SpecField::TinyInt(10)),
            ),
        ),
        r@[3]@ == spec_schema_statement(
            "memberships"@,
            spec_wrapped_fields(
                spec_schema_placeholder(
                    Membership {
                        kind: crate::model::membership_kind::Kind::Family,
                        payment_method: crate::model::payment_method::PaymentMethod::Cash,
                        quantity: 0,
                    },
                ),
            ),
        ),
        r@[4]@ == spec_schema_statement(
            "transaction_records"@,
            crate::model::transaction_record::spec_transaction_record_fields(
                SpecTransactionRecord {
                    kind: TransactionKind::Admission,
                    description: Seq::empty(),
                    quantity: 0,
                    total_cost: 0,
                },
            ).push(("date_time"@, crate::value::SpecField::Timestamp(0))).push(
                ("hour"@, crate::value::SpecField::TinyInt(10)),
            ),
        ),
{
    let admission = DateTimeWrapper {
        element: Admission {
            kind: crate::model::admission_kind::Kind::Adult,
            payment_method: None,
            quantity: 0,
        },
        date_time: 0i64,
        hour: Hour::ElevenToTwelve,
    };
    let donation = DateTimeWrapper {
        element: Donation {
            payment_method: crate::model::payment_method::PaymentMethod::Cash,
            price: 0,
        },
        date_time: 0i64,
        hour: Hour::ElevenToTwelve,
    };
    let sale = DateTimeWrapper {
        element: GiftShopSale {
            item_description: String::new(),
            price: 0,
            payment_method: crate::model::payment_method::PaymentMethod::Cash,
            quantity: 0,
            sales_tax: 855,
        },
        date_time: 0i64,
        hour: Hour::ElevenToTwelve,
    };
    let membership = DateTimeWrapper {
        element: Membership {
            kind: crate::model::membership_kind::Kind::Family,
            payment_method: crate::model::payment_method::PaymentMethod::Cash,
            quantity: 0,
        },
        date_time: 0i64,
        hour: Hour::ElevenToTwelve,
    };
    let record = DateTimeWrapper {
        element: TransactionRecord {
            kind: TransactionKind::Admission,
            description: String::new(),
            quantity: 0,
            total_cost: 0,
        },
        date_time: 0i64,
        hour: Hour::ElevenToTwelve,
    };
    let mut out: Vec<String> = Vec::new();
    out.push(admission.build_object_mapper().schema());
    out.push(donation.build_object_mapper().schema());
    out.push(sale.build_object_mapper().schema());
    out.push(membership.build_object_mapper().schema());
    out.push(record.build_object_mapper().schema());
    out
}

/// Appending a row whose creation instant lies inside the window extends
/// the windowed snapshot by exactly that row, at the end: a snapshot read
/// right after the insert includes the just-inserted row exactly once.
pub proof fn lemma_inserted_row_in_window<V>(
    rows: Seq<DateTimeWrapper<V>>,
    w: DateTimeWrapper<V>,
    cutoff: int,
)
    requires
        w.date_time > cutoff,
    ensures
        spec_window(rows.push(w), cutoff) == spec_window(rows, cutoff).push(w),
        elements_of(spec_window(rows.push(w), cutoff)) == elements_of(
            spec_window(rows, cutoff),
        ).push(w.element),
{
    reveal(Seq::filter);
    assert(rows.push(w).drop_last() =~= rows);
    assert(spec_window(rows.push(w), cutoff) == spec_window(rows, cutoff).push(w));
    assert(elements_of(spec_window(rows, cutoff).push(w)) =~= elements_of(
        spec_window(rows, cutoff),
    ).push(w.element));
}

/// A row whose creation instant lies at or before the cutoff is excluded:
/// the windowed snapshot after appending it is unchanged.
pub proof fn lemma_stale_row_not_in_window<V>(
    rows: Seq<DateTimeWrapper<V>>,
    w: DateTimeWrapper<V>,
    cutoff: int,
)
    requires
        w.date_time <= cutoff,
    ensures
        spec_window(rows.push(w), cutoff) == spec_window(rows, cutoff),
{
    reveal(Seq::filter);
    assert(rows.push(w).drop_last() =~= rows);
}

/// Inserting an admission and immediately reading the daily snapshot
/// includes the just-inserted row exactly once, at the end: the snapshot is
/// the windowed view of the prior rows extended by exactly that row.
pub proof fn lemma_daily_snapshot_includes_fresh_insert(db: Database, w: DateTimeWrapper<Admission>)
    requires
        db.wf(),
        db.spec_admissions().len() > 0,
        db.spec_admissions().last() == w,
        w.date_time > db.spec_refreshed_at() - DAY_MILLIS,
    ensures
        views(db.spec_daily_admissions()) == elements_of(
            spec_window(
                views(db.spec_admissions().drop_last()),
                db.spec_refreshed_at() - DAY_MILLIS,
            ),
        ).push(w.element@),
{
    let cutoff = db.spec_refreshed_at() - DAY_MILLIS;
    let prior = views(db.spec_admissions().drop_last());
    assert(views(db.spec_admissions()) =~= prior.push(w@));
    lemma_inserted_row_in_window(prior, w@, cutoff);
    assert(elements_of(spec_window(prior, cutoff)).push(w@.element) =~= elements_of(
        spec_window(prior, cutoff),
    ).push(w.element@));
}

/// An empty store windows to an empty cache.
proof fn lemma_empty_cache_consistent<T: View>(cutoff: int)
    ensures
        cache_consistent(
            Seq::<DateTimeWrapper<T>>::empty(),
            Seq::<T>::empty(),
            cutoff,
        ),
{
    reveal(Seq::filter);
    assert(views(Seq::<DateTimeWrapper<T>>::empty())
        =~= Seq::<DateTimeWrapper<T::V>>::empty());
    assert(spec_window(Seq::<DateTimeWrapper<T::V>>::empty(), cutoff)
        =~= Seq::<DateTimeWrapper<T::V>>::empty());
    assert(views(Seq::<T>::empty()) =~= Seq::<T::V>::empty());
    assert(elements_of(Seq::<DateTimeWrapper<T::V>>::empty()) =~= Seq::<T::V>::empty());
}

} // verus!
