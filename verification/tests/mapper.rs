use museum_pos::database::object_mapper::ObjectMapper;
use museum_pos::value::FieldValue;

fn demo() -> ObjectMapper {
    let mut mapper = ObjectMapper::new("test");
    mapper.add_field("name", FieldValue::Text("Sally".to_string()));
    mapper.add_field("age", FieldValue::Int(24));
    mapper.add_field("birthday", FieldValue::BigInt(1351683413616383413_i64));
    mapper
}

#[test]
fn schema() {
    assert_eq!(
        demo().schema(),
        "CREATE TABLE IF NOT EXISTS test (
\tname TEXT NOT NULL,
\tage INT NOT NULL,
\tbirthday BIGINT NOT NULL
);"
    );
}

#[test]
fn insert() {
    assert_eq!(
        demo().insert(),
        "INSERT INTO test (name, age, birthday)\nVALUES ('Sally', 24, 1351683413616383413);"
    );
}

#[test]
fn schema_omits_not_null_for_optional_fields() {
    let mut mapper = ObjectMapper::new("t");
    mapper.add_field("a", FieldValue::OptText(Some("x".to_string())));
    mapper.add_field("b", FieldValue::OptText(None));
    mapper.add_field("c", FieldValue::Money(123));
    assert_eq!(
        mapper.schema(),
        "CREATE TABLE IF NOT EXISTS t (\n\ta TEXT,\n\tb TEXT,\n\tc REAL NOT NULL\n);"
    );
}

#[test]
fn schema_keeps_insertion_order() {
    let mut mapper = ObjectMapper::new("ordered");
    mapper.add_field("zulu", FieldValue::Int(1));
    mapper.add_field("alpha", FieldValue::Int(2));
    mapper.add_field("mike", FieldValue::Int(3));
    assert_eq!(
        mapper.schema(),
        "CREATE TABLE IF NOT EXISTS ordered (\n\tzulu INT NOT NULL,\n\talpha INT NOT NULL,\n\tmike INT NOT NULL\n);"
    );
}

#[test]
fn insert_aligns_names_and_values() {
    let mut mapper = ObjectMapper::new("t");
    mapper.add_field("flag", FieldValue::Bool(true));
    mapper.add_field("off", FieldValue::Bool(false));
    mapper.add_field("opt", FieldValue::OptText(None));
    mapper.add_field("tiny", FieldValue::TinyInt(-3));
    assert_eq!(
        mapper.insert(),
        "INSERT INTO t (flag, off, opt, tiny)\nVALUES (TRUE, FALSE, NULL, -3);"
    );
}

#[test]
fn add_field_replaces_in_place_under_a_present_name() {
    let mut mapper = ObjectMapper::new("t");
    mapper.add_field("a", FieldValue::Int(1));
    mapper.add_field("b", FieldValue::Int(2));
    mapper.add_field("a", FieldValue::Int(9));
    assert_eq!(mapper.insert(), "INSERT INTO t (a, b)\nVALUES (9, 2);");
}
