use museum_pos::database::store::Database;
use museum_pos::model::admission::Admission;
use museum_pos::model::admission_kind::Kind as AdmissionKind;
use museum_pos::model::donation::Donation;
use museum_pos::model::gift_shop_sale::GiftShopSale;
use museum_pos::model::membership::Membership;
use museum_pos::model::membership_kind::Kind as MembershipKind;
use museum_pos::model::payment_method::PaymentMethod;
use museum_pos::time::DAY_MILLIS;
use museum_pos::view::summary::{
    attendance_total, ff, filter_by_payment_and_sum, sum_over_admission_kind,
    sum_over_membership_sale, total_cost_sum, total_money_by_payment_method, SummaryDicts,
};

#[test]
fn ff_renders_zero_bare_and_cents_with_two_decimals() {
    assert_eq!(ff("$", 0), "$0");
    assert_eq!(ff("$", 2171), "$21.71");
    assert_eq!(ff("$", 800), "$8.00");
    assert_eq!(ff("", 5), "0.05");
}

fn sample_database() -> Database {
    let now = 40 * DAY_MILLIS;
    let mut db = Database::new(now);
    db.add_admission(
        Admission::new(AdmissionKind::Adult, Some(PaymentMethod::Cash), 2),
        now,
    );
    db.add_admission(Admission::new(AdmissionKind::ChildUnderSix, None, 1), now);
    db.add_donation(
        Donation { payment_method: PaymentMethod::CreditCard, price: 500 },
        now,
    );
    db.add_membership(
        Membership::new(MembershipKind::Family, PaymentMethod::Cash, 1),
        now,
    );
    db.add_gift_shop_sale(
        GiftShopSale::new("poster".to_string(), 1000, PaymentMethod::Cash, 2, 855),
        now,
    );
    db
}

#[test]
fn sums_follow_kind_and_payment_method() {
    let db = sample_database();
    assert_eq!(attendance_total(db.daily_admissions()), 3);
    assert_eq!(
        sum_over_admission_kind(db.daily_admissions(), AdmissionKind::Adult),
        2
    );
    assert_eq!(
        sum_over_admission_kind(db.daily_admissions(), AdmissionKind::ChildUnderSix),
        1
    );
    assert_eq!(
        sum_over_admission_kind(db.daily_admissions(), AdmissionKind::Senior),
        0
    );
    assert_eq!(
        sum_over_membership_sale(db.daily_memberships(), MembershipKind::Family),
        1
    );
    assert_eq!(
        sum_over_membership_sale(db.daily_memberships(), MembershipKind::Individual),
        0
    );
    assert_eq!(total_cost_sum(db.daily_admissions()), 1600);
    assert_eq!(total_cost_sum(db.daily_donations()), 500);
    assert_eq!(total_cost_sum(db.daily_memberships()), 4000);
    assert_eq!(total_cost_sum(db.daily_gift_shop_sales()), 2171);
    // One record per inserted entity, each carrying its derived total.
    assert_eq!(total_cost_sum(db.daily_transactions()), 1600 + 500 + 4000 + 2171);
    assert_eq!(
        filter_by_payment_and_sum(db.daily_admissions(), PaymentMethod::Cash),
        1600
    );
    assert_eq!(
        filter_by_payment_and_sum(db.daily_admissions(), PaymentMethod::CreditCard),
        0
    );
    assert_eq!(
        total_money_by_payment_method(&db, PaymentMethod::Cash),
        1600 + 4000 + 2171
    );
    assert_eq!(total_money_by_payment_method(&db, PaymentMethod::CreditCard), 500);
}

#[test]
fn the_report_lists_every_aggregate_in_display_order() {
    let db = sample_database();
    let dicts = SummaryDicts::new(&db);
    let summary: Vec<(&str, &str)> = dicts
        .summary
        .iter()
        .map(|(k, v)| (k.as_str(), v.as_str()))
        .collect();
    assert_eq!(
        summary,
        vec![
            ("Total Attendance", "3"),
            ("Admissions Revenue", "$16.00"),
            ("Total Donations", "$5.00"),
            ("Membership Sales", "$40.00"),
            ("Gift Shop Sales", "$21.71"),
            ("Sales Tax Collected", "$1.71"),
            ("Total Daily Revenue", "$82.71"),
        ]
    );
    let payments: Vec<(&str, &str)> = dicts
        .payments
        .iter()
        .map(|(k, v)| (k.as_str(), v.as_str()))
        .collect();
    assert_eq!(
        payments,
        vec![
            ("Cash - Admissions", "$16.00"),
            ("Credit Card - Admissions", "$0"),
            ("Free - Admissions", "2"),
            ("Cash - Donations", "$0"),
            ("Credit Card - Donations", "$5.00"),
            ("Cash - Memberships", "$40.00"),
            ("Credit Card - Memberships", "$0"),
            ("Cash - Shop Sales", "$21.71"),
            ("Credit Card - Shop Sales", "$0"),
            ("Total Cash", "$77.71"),
            ("Total Credit Card", "$5.00"),
        ]
    );
    let admissions: Vec<(&str, &str)> = dicts
        .admissions
        .iter()
        .map(|(k, v)| (k.as_str(), v.as_str()))
        .collect();
    assert_eq!(
        admissions,
        vec![
            ("Adults", "2"),
            ("Seniors", "0"),
            ("Children (6-12)", "0"),
            ("Children (Under 6)", "1"),
            ("PFSP Members", "0"),
        ]
    );
    let memberships: Vec<(&str, &str)> = dicts
        .memberships
        .iter()
        .map(|(k, v)| (k.as_str(), v.as_str()))
        .collect();
    assert_eq!(
        memberships,
        vec![
            ("Family", "1"),
            ("Individual", "0"),
            ("Senior Family", "0"),
            ("Senior Individual", "0"),
            ("Lifetime Member", "0"),
        ]
    );
}

#[test]
fn an_empty_day_reports_zeros() {
    let db = Database::new(40 * DAY_MILLIS);
    let dicts = SummaryDicts::new(&db);
    assert_eq!(dicts.summary[0], ("Total Attendance".to_string(), "0".to_string()));
    assert_eq!(dicts.summary[1], ("Admissions Revenue".to_string(), "$0".to_string()));
    assert_eq!(
        dicts.summary[5],
        ("Sales Tax Collected".to_string(), "$0.00".to_string())
    );
    assert_eq!(dicts.payments[9], ("Total Cash".to_string(), "$0".to_string()));
}
