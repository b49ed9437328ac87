use museum_pos::database::storable::{DateTimeWrapper, FromSql};
use museum_pos::database::store::{
    create_schema_statements, decode_rows, select_since, select_since_query, Database,
    DatasetSnapshot, StampedRecord, StartupOutcome,
};
use museum_pos::model::admission::Admission;
use museum_pos::model::admission_kind::Kind as AdmissionKind;
use museum_pos::model::hour::Hour;
use museum_pos::model::payment_method::PaymentMethod;
use museum_pos::model::transaction_record::TransactionKind;
use museum_pos::time::DAY_MILLIS;
use museum_pos::value::StoredValue;

fn stamped(quantity: u16, date_time: i64) -> DateTimeWrapper<Admission> {
    DateTimeWrapper {
        element: Admission::new(AdmissionKind::Adult, Some(PaymentMethod::Cash), quantity),
        date_time,
        hour: Hour::ElevenToTwelve,
    }
}

#[test]
fn windowed_select_excludes_the_boundary_row() {
    let now = 10 * DAY_MILLIS;
    let rows = vec![
        stamped(1, now - DAY_MILLIS - 1),
        stamped(2, now - DAY_MILLIS),
        stamped(3, now - DAY_MILLIS + 1),
        stamped(4, now),
    ];
    let selected = select_since(&rows, now, DAY_MILLIS);
    let quantities: Vec<u16> = selected.iter().map(|w| w.element.quantity).collect();
    assert_eq!(quantities, vec![3, 4]);
}

#[test]
fn windowed_select_query_text() {
    assert_eq!(
        select_since_query("admissions"),
        "SELECT * FROM admissions WHERE date_time >:max_age"
    );
}

#[test]
fn inserting_refreshes_the_daily_snapshot_exactly_once() {
    let now = 40 * DAY_MILLIS;
    let mut db = Database::new(now);
    let row = stamped(2, now);
    let statement = db.insert(StampedRecord::Admission(row), now);
    assert!(statement.starts_with("INSERT INTO admissions "));
    assert_eq!(db.daily_admissions().len(), 1);
    assert_eq!(db.daily_admissions()[0].quantity, 2);
    assert_eq!(db.daily_admissions()[0].kind, AdmissionKind::Adult);
}

#[test]
fn stale_rows_drop_out_of_the_snapshot_on_refresh() {
    let day_one = 10 * DAY_MILLIS;
    let mut db = Database::new(day_one);
    db.insert(StampedRecord::Admission(stamped(1, day_one)), day_one);
    assert_eq!(db.daily_admissions().len(), 1);
    let much_later = 20 * DAY_MILLIS;
    db.insert(StampedRecord::Admission(stamped(2, much_later)), much_later);
    let quantities: Vec<u16> = db.daily_admissions().iter().map(|a| a.quantity).collect();
    assert_eq!(quantities, vec![2]);
}

#[test]
fn add_admission_also_records_the_transaction() {
    let now = 40 * DAY_MILLIS;
    let mut db = Database::new(now);
    let admission = Admission::new(AdmissionKind::Senior, Some(PaymentMethod::CreditCard), 2);
    let statements = db.add_admission(admission, now);
    assert_eq!(statements.len(), 2);
    assert!(statements[0].starts_with("INSERT INTO admissions "));
    assert!(statements[1].starts_with("INSERT INTO transaction_records "));
    assert_eq!(db.daily_admissions().len(), 1);
    assert_eq!(db.daily_transactions().len(), 1);
    let record = &db.daily_transactions()[0];
    assert_eq!(record.kind, TransactionKind::Admission);
    assert_eq!(record.description, "Adult - $5.00");
    assert_eq!(record.quantity, 2);
    assert_eq!(record.total_cost, 1000);
}

#[test]
fn startup_without_a_marker_is_fresh() {
    let now = 5 * DAY_MILLIS;
    let (db, outcome) = Database::startup(None, DatasetSnapshot::empty(), now, DAY_MILLIS);
    assert_eq!(outcome, StartupOutcome::Fresh);
    assert_eq!(db.created(), now);
    assert!(db.daily_admissions().is_empty());
}

#[test]
fn startup_loads_a_young_dataset() {
    let created = 10 * DAY_MILLIS;
    let now = created + DAY_MILLIS / 2;
    let mut prior = DatasetSnapshot::empty();
    prior.admissions.push(stamped(3, now - 1000));
    let (db, outcome) = Database::startup(Some(created), prior, now, 30 * DAY_MILLIS);
    assert_eq!(outcome, StartupOutcome::Loaded);
    assert_eq!(db.created(), created);
    assert_eq!(db.daily_admissions().len(), 1);
    assert_eq!(db.daily_admissions()[0].quantity, 3);
}

#[test]
fn decode_rows_skips_rows_that_fail_to_parse() {
    let good = |q: i64| -> Vec<(String, StoredValue)> {
        vec![
            ("kind".to_string(), StoredValue::Text("Adult".to_string())),
            ("payment_method".to_string(), StoredValue::Null),
            ("quantity".to_string(), StoredValue::Integer(q)),
        ]
    };
    let bad = vec![
        ("kind".to_string(), StoredValue::Text("Nobody".to_string())),
        ("payment_method".to_string(), StoredValue::Null),
        ("quantity".to_string(), StoredValue::Integer(1)),
    ];
    let rows = vec![good(1), bad, good(2)];
    let decoded: Vec<Admission> = decode_rows(&rows);
    let quantities: Vec<u16> = decoded.iter().map(|a| a.quantity).collect();
    assert_eq!(quantities, vec![1, 2]);
}

#[test]
fn schema_statements_cover_all_five_tables() {
    let statements = create_schema_statements();
    assert_eq!(statements.len(), 5);
    assert_eq!(
        statements[0],
        "CREATE TABLE IF NOT EXISTS admissions (\n\tkind TEXT NOT NULL,\n\tpayment_method TEXT,\n\tquantity INT NOT NULL,\n\tdate_time TEXT NOT NULL,\n\thour TINYINT NOT NULL\n);"
    );
    assert_eq!(
        statements[1],
        "CREATE TABLE IF NOT EXISTS donations (\n\tpayment_method TEXT NOT NULL,\n\tprice REAL NOT NULL,\n\tdate_time TEXT NOT NULL,\n\thour TINYINT NOT NULL\n);"
    );
    assert_eq!(
        statements[2],
        "CREATE TABLE IF NOT EXISTS gift_shop_sales (\n\titem_description TEXT NOT NULL,\n\tprice REAL NOT NULL,\n\tpayment_method TEXT NOT NULL,\n\tquantity INT NOT NULL,\n\tsales_tax REAL NOT NULL,\n\tdate_time TEXT NOT NULL,\n\thour TINYINT NOT NULL\n);"
    );
    assert_eq!(
        statements[3],
        "CREATE TABLE IF NOT EXISTS memberships (\n\tkind TEXT NOT NULL,\n\tpayment_method TEXT NOT NULL,\n\tquantity INT NOT NULL,\n\tdate_time TEXT NOT NULL,\n\thour TINYINT NOT NULL\n);"
    );
    assert_eq!(
        statements[4],
        "CREATE TABLE IF NOT EXISTS transaction_records (\n\tkind TEXT NOT NULL,\n\tdescription TEXT NOT NULL,\n\tquantity INT NOT NULL,\n\ttotal_cost REAL NOT NULL,\n\tdate_time TEXT NOT NULL,\n\thour TINYINT NOT NULL\n);"
    );
}

#[test]
fn full_round_trip_through_rows_restores_the_entity() {
    let row = vec![
        ("kind".to_string(), StoredValue::Text("Adult".to_string())),
        (
            "payment_method".to_string(),
            StoredValue::Text("Credit Card".to_string()),
        ),
        ("quantity".to_string(), StoredValue::Integer(4)),
        (
            "date_time".to_string(),
            StoredValue::Text("2000-01-12T01:02:03.004+00:00".to_string()),
        ),
        ("hour".to_string(), StoredValue::Integer(14)),
    ];
    let wrapped = DateTimeWrapper::<Admission>::from_sql(&row).unwrap();
    assert_eq!(wrapped.date_time, 947638923004);
    assert_eq!(wrapped.hour, Hour::ThreeToFour);
    assert_eq!(wrapped.element.kind, AdmissionKind::Adult);
    assert_eq!(wrapped.element.payment_method, Some(PaymentMethod::CreditCard));
    assert_eq!(wrapped.element.quantity, 4);
}
