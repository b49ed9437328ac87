use museum_pos::database::storable::{CanBuildObjectMapper, DateTimeWrapper, FromSql, WrapInDateTime};
use museum_pos::error::{MarshalError, StoreError};
use museum_pos::model::admission::Admission;
use museum_pos::model::admission_kind::Kind as AdmissionKind;
use museum_pos::model::as_transaction_record::AsTransactionRecord;
use museum_pos::model::donation::Donation;
use museum_pos::model::gift_shop_sale::GiftShopSale;
use museum_pos::model::has_payment_method::HasPaymentMethod;
use museum_pos::model::has_total_cost::HasTotalCost;
use museum_pos::model::hour::Hour;
use museum_pos::model::membership::Membership;
use museum_pos::model::membership_kind::Kind as MembershipKind;
use museum_pos::model::payment_method::PaymentMethod;
use museum_pos::model::transaction_record::TransactionKind;
use museum_pos::to_model::ToModel;
use museum_pos::value::StoredValue;

#[test]
fn free_admission_is_valid_without_payment_method() {
    let free = Admission::new(AdmissionKind::ChildUnderSix, None, 1);
    assert!(free.is_valid());
    let unpaid_adult = Admission::new(AdmissionKind::Adult, None, 1);
    assert!(!unpaid_adult.is_valid());
    let paid_adult = Admission::new(AdmissionKind::Adult, Some(PaymentMethod::Cash), 1);
    assert!(paid_adult.is_valid());
    let none_admitted = Admission::new(AdmissionKind::ChildUnderSix, None, 0);
    assert!(!none_admitted.is_valid());
}

#[test]
fn free_draft_admission_is_valid_without_payment_method() {
    let mut draft = museum_pos::view::admission::Admission::default();
    draft.update(museum_pos::view::admission::Message::KindSet(AdmissionKind::PfspMember));
    assert!(!draft.needs_payment());
    assert!(draft.is_valid());
    draft.update(museum_pos::view::admission::Message::KindSet(AdmissionKind::Adult));
    assert!(draft.needs_payment());
    assert!(!draft.is_valid());
    draft.update(museum_pos::view::admission::Message::PaymentMethodSet(PaymentMethod::Cash));
    assert!(draft.is_valid());
    let model = draft.to_model().unwrap();
    assert_eq!(model.kind, AdmissionKind::Adult);
    assert_eq!(model.quantity, 1);
}

#[test]
fn invalid_draft_admission_is_refused() {
    let draft = museum_pos::view::admission::Admission::default();
    assert_eq!(draft.to_model().unwrap_err(), StoreError::ValidationError);
}

#[test]
fn membership_draft_converts_once_complete() {
    let mut draft = museum_pos::view::membership::Membership::default();
    assert_eq!(draft.to_model().unwrap_err(), StoreError::ValidationError);
    draft.update(museum_pos::view::membership::Message::Kind(MembershipKind::SeniorFamily));
    draft.update(museum_pos::view::membership::Message::PaymentMethod(
        PaymentMethod::CreditCard,
    ));
    draft.update(museum_pos::view::membership::Message::Quantity(3));
    assert!(draft.is_valid());
    assert!(draft.matches_type(MembershipKind::SeniorFamily));
    assert_eq!(draft.compute_total_cost(), 4500);
    let model = draft.to_model().unwrap();
    assert_eq!(model.kind, MembershipKind::SeniorFamily);
    assert_eq!(model.payment_method, PaymentMethod::CreditCard);
    assert_eq!(model.quantity, 3);
}

#[test]
fn gift_shop_sale_total_includes_tax() {
    let sale = GiftShopSale::new(
        "poster".to_string(),
        1000,
        PaymentMethod::Cash,
        2,
        855,
    );
    assert_eq!(sale.pre_tax_cost(), 2000);
    assert_eq!(sale.compute_tax(), 171);
    assert_eq!(sale.compute_total_cost(), 2171);
}

#[test]
fn admission_cost_is_price_times_quantity() {
    let admission = Admission::new(AdmissionKind::Adult, Some(PaymentMethod::Cash), 3);
    assert_eq!(admission.total_cost(), 2400);
    assert_eq!(AdmissionKind::Senior.cost_cents(), 500);
    assert!(AdmissionKind::Resident.is_free());
    assert!(!AdmissionKind::ChildUnderThirteen.is_free());
}

#[test]
fn derived_records_summarize_their_entities() {
    let admission = Admission::new(AdmissionKind::Adult, Some(PaymentMethod::Cash), 2);
    let record = admission.as_transaction_record();
    assert_eq!(record.kind, TransactionKind::Admission);
    assert_eq!(record.description, "Adult - $8.00");
    assert_eq!(record.quantity, 2);
    assert_eq!(record.total_cost, 1600);

    let donation = Donation { payment_method: PaymentMethod::CreditCard, price: 1234 };
    let record = donation.as_transaction_record();
    assert_eq!(record.kind, TransactionKind::Donation);
    assert_eq!(record.description, "Donation");
    assert_eq!(record.quantity, 1);
    assert_eq!(record.total_cost, 1234);

    let membership = Membership::new(MembershipKind::LifetimeMember, PaymentMethod::Cash, 1);
    let record = membership.as_transaction_record();
    assert_eq!(record.kind, TransactionKind::Membership);
    assert_eq!(record.description, "Life Member");
    assert_eq!(record.total_cost, 75000);

    let sale = GiftShopSale::new("mug".to_string(), 1000, PaymentMethod::Cash, 2, 855);
    let record = sale.as_transaction_record();
    assert_eq!(record.kind, TransactionKind::GiftShopSale);
    assert_eq!(record.description, "mug");
    assert_eq!(record.total_cost, 2171);
}

#[test]
fn matches_payment_method_requires_a_present_match() {
    let unpaid = Admission::new(AdmissionKind::ChildUnderSix, None, 1);
    assert!(!unpaid.matches_payment_method(PaymentMethod::Cash));
    let paid = Admission::new(AdmissionKind::Adult, Some(PaymentMethod::Cash), 1);
    assert!(paid.matches_payment_method(PaymentMethod::Cash));
    assert!(!paid.matches_payment_method(PaymentMethod::CreditCard));
}

fn admission_row(kind: &str, payment: StoredValue, quantity: i64) -> Vec<(String, StoredValue)> {
    vec![
        ("kind".to_string(), StoredValue::Text(kind.to_string())),
        ("payment_method".to_string(), payment),
        ("quantity".to_string(), StoredValue::Integer(quantity)),
        (
            "date_time".to_string(),
            StoredValue::Text("1970-01-01T00:00:00+00:00".to_string()),
        ),
        ("hour".to_string(), StoredValue::Integer(12)),
    ]
}

#[test]
fn entities_decode_from_rows() {
    let row = admission_row("Adult", StoredValue::Text("Cash".to_string()), 2);
    let admission = Admission::from_sql(&row).unwrap();
    assert_eq!(admission.kind, AdmissionKind::Adult);
    assert_eq!(admission.payment_method, Some(PaymentMethod::Cash));
    assert_eq!(admission.quantity, 2);

    let row = admission_row("Silver Plume Resident", StoredValue::Null, 1);
    let admission = Admission::from_sql(&row).unwrap();
    assert_eq!(admission.kind, AdmissionKind::Resident);
    assert_eq!(admission.payment_method, None);
}

#[test]
fn the_envelope_reads_timing_then_delegates() {
    let row = admission_row("Adult", StoredValue::Null, 1);
    let wrapped = DateTimeWrapper::<Admission>::from_sql(&row).unwrap();
    assert_eq!(wrapped.date_time, 0);
    assert_eq!(wrapped.hour, Hour::OneToTwo);
    assert_eq!(wrapped.element.kind, AdmissionKind::Adult);
}

#[test]
fn decoding_surfaces_missing_and_malformed_columns() {
    let empty: Vec<(String, StoredValue)> = Vec::new();
    assert_eq!(Admission::from_sql(&empty).unwrap_err(), MarshalError::MissingColumn);
    let row = admission_row("Nobody", StoredValue::Null, 1);
    assert_eq!(Admission::from_sql(&row).unwrap_err(), MarshalError::UnknownVariant);
    let row = admission_row("Adult", StoredValue::Null, 123456);
    assert_eq!(Admission::from_sql(&row).unwrap_err(), MarshalError::OutOfRange);
}

#[test]
fn the_envelope_appends_the_timing_fields() {
    let wrapped = DateTimeWrapper {
        element: Admission::new(AdmissionKind::Adult, Some(PaymentMethod::Cash), 2),
        date_time: 0,
        hour: Hour::ElevenToTwelve,
    };
    assert_eq!(
        wrapped.build_object_mapper().insert(),
        "INSERT INTO admissions (kind, payment_method, quantity, date_time, hour)\nVALUES ('Adult', 'Cash', 2, '1970-01-01T00:00:00+00:00', 10);"
    );
}

#[test]
fn the_largest_admission_still_totals_exactly() {
    let admission = Admission::new(AdmissionKind::Adult, Some(PaymentMethod::Cash), u16::MAX);
    assert_eq!(admission.total_cost(), 65535u64 * 800);
}

#[test]
fn stamping_records_the_given_instant() {
    let now = museum_pos::time::now_millis();
    assert!(now > 0);
    let wrapped = Admission::new(AdmissionKind::Adult, Some(PaymentMethod::Cash), 1)
        .wrapped_in_date_time(now);
    assert_eq!(wrapped.date_time, now);
}

#[test]
fn errors_describe_themselves() {
    assert_eq!(
        StoreError::ValidationError.describe(),
        "the entity failed its own validity predicate"
    );
    assert_eq!(
        MarshalError::UnknownVariant.describe(),
        "the stored string names no known variant"
    );
}
