use museum_pos::error::MarshalError;
use museum_pos::model::admission_kind::Kind as AdmissionKind;
use museum_pos::model::hour::Hour;
use museum_pos::model::membership_kind::Kind as MembershipKind;
use museum_pos::model::payment_method::PaymentMethod;
use museum_pos::model::transaction_record::TransactionKind;
use museum_pos::time::{format_rfc3339, parse_rfc3339};
use museum_pos::value::{
    decode_cents, decode_i64, decode_opt_text, decode_text, decode_timestamp, decode_u16,
    FieldValue, HasSchema, Mappable, StoredValue, ToSql,
};

#[test]
fn payment_method_round_trips_through_its_name() {
    for pm in [PaymentMethod::Cash, PaymentMethod::CreditCard] {
        assert_eq!(PaymentMethod::parse_name(&pm.name()), Ok(pm));
    }
    assert_eq!(PaymentMethod::CreditCard.name(), "Credit Card");
}

#[test]
fn admission_kind_round_trips_through_its_name() {
    for kind in [
        AdmissionKind::Adult,
        AdmissionKind::Senior,
        AdmissionKind::ChildUnderThirteen,
        AdmissionKind::ChildUnderSix,
        AdmissionKind::PfspMember,
        AdmissionKind::Resident,
    ] {
        assert_eq!(AdmissionKind::parse_name(&kind.name()), Ok(kind));
    }
    assert_eq!(AdmissionKind::ChildUnderThirteen.name(), "Child (6-12)");
}

#[test]
fn membership_kind_round_trips_through_its_name() {
    for kind in [
        MembershipKind::Family,
        MembershipKind::Individual,
        MembershipKind::SeniorFamily,
        MembershipKind::SeniorIndividual,
        MembershipKind::LifetimeMember,
    ] {
        assert_eq!(MembershipKind::parse_name(&kind.name()), Ok(kind));
    }
    assert_eq!(MembershipKind::LifetimeMember.name(), "Life Member");
}

#[test]
fn transaction_kind_round_trips_through_its_name() {
    for kind in [
        TransactionKind::Admission,
        TransactionKind::Membership,
        TransactionKind::Donation,
        TransactionKind::GiftShopSale,
    ] {
        assert_eq!(TransactionKind::parse_name(&kind.name()), Ok(kind));
    }
    assert_eq!(TransactionKind::GiftShopSale.name(), "Gift Shop Sales");
}

#[test]
fn hour_round_trips_through_its_code() {
    for hour in [
        Hour::ElevenToTwelve,
        Hour::TwelveToOne,
        Hour::OneToTwo,
        Hour::TwoToThree,
        Hour::ThreeToFour,
    ] {
        let code = hour.code();
        assert_eq!(Hour::decode(&StoredValue::Integer(code as i64)), Ok(hour));
    }
}

#[test]
fn hour_rejects_codes_outside_the_window() {
    assert_eq!(
        Hour::decode(&StoredValue::Integer(9)),
        Err(MarshalError::OutOfRange)
    );
    assert_eq!(
        Hour::decode(&StoredValue::Integer(15)),
        Err(MarshalError::OutOfRange)
    );
    assert_eq!(
        Hour::decode(&StoredValue::Text("10".to_string())),
        Err(MarshalError::WrongColumnType)
    );
}

#[test]
fn stored_values_round_trip_for_every_field_kind() {
    assert_eq!(decode_i64(&FieldValue::BigInt(-77).stored()), Ok(-77));
    assert_eq!(decode_u16(&FieldValue::Int(42).stored()), Ok(42u16));
    assert_eq!(
        decode_text(&FieldValue::Text("abc".to_string()).stored()),
        Ok("abc".to_string())
    );
    assert_eq!(
        decode_opt_text(&FieldValue::OptText(Some("x".to_string())).stored()),
        Ok(Some("x".to_string()))
    );
    assert_eq!(decode_opt_text(&FieldValue::OptText(None).stored()), Ok(None));
    assert_eq!(decode_cents(&FieldValue::Money(2171).stored()), Ok(2171));
    assert_eq!(
        decode_timestamp(&FieldValue::Timestamp(947638923004).stored()),
        Ok(947638923004)
    );
}

#[test]
fn decoders_report_wrong_column_types() {
    assert_eq!(
        decode_i64(&StoredValue::Text("1".to_string())),
        Err(MarshalError::WrongColumnType)
    );
    assert_eq!(decode_text(&StoredValue::Null), Err(MarshalError::WrongColumnType));
    assert_eq!(
        decode_cents(&StoredValue::Integer(5)),
        Err(MarshalError::WrongColumnType)
    );
    assert_eq!(
        decode_timestamp(&StoredValue::Integer(5)),
        Err(MarshalError::WrongColumnType)
    );
    assert_eq!(
        PaymentMethod::decode(&StoredValue::Integer(0)),
        Err(MarshalError::WrongColumnType)
    );
}

#[test]
fn decoders_report_unknown_variants_and_bad_values() {
    assert_eq!(
        PaymentMethod::decode(&StoredValue::Text("Barter".to_string())),
        Err(MarshalError::UnknownVariant)
    );
    assert_eq!(
        AdmissionKind::decode(&StoredValue::Text("Child".to_string())),
        Err(MarshalError::UnknownVariant)
    );
    assert_eq!(decode_u16(&StoredValue::Integer(70000)), Err(MarshalError::OutOfRange));
    assert_eq!(decode_u16(&StoredValue::Integer(-1)), Err(MarshalError::OutOfRange));
    assert_eq!(
        decode_timestamp(&StoredValue::Text("not a date".to_string())),
        Err(MarshalError::Unparseable)
    );
}

#[test]
fn timestamps_render_as_rfc3339_and_parse_back() {
    assert_eq!(format_rfc3339(0), "1970-01-01T00:00:00+00:00");
    assert_eq!(parse_rfc3339("1970-01-01T00:00:00+00:00"), Some(0));
    let stamp = 1700000000123_i64;
    let text = format_rfc3339(stamp);
    assert_eq!(parse_rfc3339(&text), Some(stamp));
    assert_eq!(parse_rfc3339("2000-01-12T01:02:03.004+00:00"), Some(947638923004));
}

#[test]
fn literals_encode_each_field_kind() {
    assert_eq!(FieldValue::Bool(true).literal(), "TRUE");
    assert_eq!(FieldValue::Bool(false).literal(), "FALSE");
    assert_eq!(FieldValue::Int(-12).literal(), "-12");
    assert_eq!(FieldValue::Text("hi".to_string()).literal(), "'hi'");
    assert_eq!(FieldValue::OptText(None).literal(), "NULL");
    assert_eq!(FieldValue::Money(2171).literal(), "21.71");
    assert_eq!(FieldValue::Money(800).literal(), "8.00");
    assert_eq!(FieldValue::Money(5).literal(), "0.05");
    assert_eq!(
        FieldValue::Timestamp(0).literal(),
        "'1970-01-01T00:00:00+00:00'"
    );
}

#[test]
fn the_codec_traits_mirror_the_field_kinds() {
    assert_eq!(<bool as HasSchema>::schema("flag"), "flag TINYINT NOT NULL");
    assert_eq!(<i32 as HasSchema>::schema("age"), "age INT NOT NULL");
    assert_eq!(<i64 as HasSchema>::schema("birthday"), "birthday BIGINT NOT NULL");
    assert_eq!(<String as HasSchema>::schema("name"), "name TEXT NOT NULL");
    assert_eq!(true.to_sql(), "TRUE");
    assert_eq!((-42i64).to_sql(), "-42");
    assert_eq!("Sally".to_string().to_sql(), "'Sally'");
    assert_eq!(Some("x".to_string()).to_sql(), "'x'");
    assert_eq!((None as Option<String>).to_sql(), "NULL");
    assert_eq!(PaymentMethod::CreditCard.to_sql(), "'Credit Card'");
    assert_eq!(Hour::TwoToThree.to_sql(), "13");
    let field = FieldValue::Money(800);
    assert_eq!(field.schema("price"), "price REAL NOT NULL");
    assert_eq!(field.mapped_literal(), "8.00");
}
