use museum_pos::append_str;
use museum_pos::database::rotation::{
    archive_file_name, archive_label, marker_text, month_name, parse_marker, previous_month,
};
use museum_pos::database::store::{Database, DatasetSnapshot, StampedRecord, StartupOutcome};
use museum_pos::database::storable::DateTimeWrapper;
use museum_pos::model::admission::Admission;
use museum_pos::model::admission_kind::Kind as AdmissionKind;
use museum_pos::model::hour::Hour;
use museum_pos::model::payment_method::PaymentMethod;
use museum_pos::time::DAY_MILLIS;

#[test]
fn markers_round_trip_and_corruption_reads_as_absence() {
    assert_eq!(marker_text(947638923004), "947638923004");
    assert_eq!(parse_marker("947638923004"), Some(947638923004));
    assert_eq!(parse_marker(""), None);
    assert_eq!(parse_marker("12a4"), None);
    assert_eq!(parse_marker("-5"), None);
    assert_eq!(parse_marker("999999999999999999999999"), None);
}

#[test]
fn month_names_and_wrapping() {
    assert_eq!(month_name(1), "January");
    assert_eq!(month_name(12), "December");
    assert_eq!(previous_month(1), 12);
    assert_eq!(previous_month(7), 6);
}

#[test]
fn archive_names_carry_the_previous_month_and_the_year() {
    // The epoch instant falls in January 1970 UTC.
    assert_eq!(archive_label(0), "December_1970");
    assert_eq!(
        archive_file_name("Transactions", 0),
        "Transactions_December_1970"
    );
    // 2000-01-12 UTC: the previous month is December, the year is 2000.
    assert_eq!(archive_label(947638923004), "December_2000");
    // 2022-09-11 UTC.
    assert_eq!(archive_label(1662921288000), "August_2022");
}

#[test]
fn append_str_concatenates() {
    assert_eq!(append_str("data/Admissions", ".csv"), "data/Admissions.csv");
}

#[test]
fn an_old_marker_rotates_to_a_fresh_dataset() {
    let created = 10 * DAY_MILLIS;
    let now = created + 40 * DAY_MILLIS;
    let mut prior = DatasetSnapshot::empty();
    prior.admissions.push(DateTimeWrapper {
        element: Admission::new(AdmissionKind::Adult, Some(PaymentMethod::Cash), 5),
        date_time: now - 1000,
        hour: Hour::ElevenToTwelve,
    });
    let (db, outcome) = Database::startup(Some(created), prior, now, 30 * DAY_MILLIS);
    assert_eq!(outcome, StartupOutcome::Rotated);
    // The new marker's age is zero: the dataset was created at this instant.
    assert_eq!(db.created(), now);
    // No previously inserted row remains in the fresh dataset's caches.
    assert!(db.daily_admissions().is_empty());
    assert!(db.daily_memberships().is_empty());
    assert!(db.daily_donations().is_empty());
    assert!(db.daily_gift_shop_sales().is_empty());
    assert!(db.daily_transactions().is_empty());
}

#[test]
fn a_marker_right_at_the_maximum_age_still_loads() {
    let created = 10 * DAY_MILLIS;
    let max_age = 30 * DAY_MILLIS;
    let now = created + max_age;
    let (_, outcome) = Database::startup(Some(created), DatasetSnapshot::empty(), now, max_age);
    assert_eq!(outcome, StartupOutcome::Loaded);
    let (db, outcome) =
        Database::startup(Some(created), DatasetSnapshot::empty(), now + 1, max_age);
    assert_eq!(outcome, StartupOutcome::Rotated);
    assert_eq!(db.created(), now + 1);
}

#[test]
fn inserts_after_rotation_build_the_new_dataset() {
    let now = 50 * DAY_MILLIS;
    let (mut db, outcome) =
        Database::startup(Some(0), DatasetSnapshot::empty(), now, 30 * DAY_MILLIS);
    assert_eq!(outcome, StartupOutcome::Rotated);
    db.insert(
        StampedRecord::Admission(DateTimeWrapper {
            element: Admission::new(AdmissionKind::Adult, Some(PaymentMethod::Cash), 1),
            date_time: now,
            hour: Hour::TwelveToOne,
        }),
        now,
    );
    assert_eq!(db.daily_admissions().len(), 1);
}
