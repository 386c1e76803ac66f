use render_core::json::{get_field, parse_document, str_eq, JsonNumber, JsonValue};

#[test]
fn parse_document_builds_the_tree() {
    let doc = parse_document("{\"type\":\"raster\",\"slot\":3}").unwrap();
    // serde_json's default map keeps keys sorted.
    let expected = JsonValue::Obj(vec![
        (String::from("slot"), JsonValue::Num(JsonNumber::UInt(3))),
        (String::from("type"), JsonValue::Str(String::from("raster"))),
    ]);
    assert_eq!(doc, expected);
}

#[test]
fn parse_document_number_kinds() {
    let doc = parse_document("[18446744073709551615, -7, 0.5]").unwrap();
    let expected = JsonValue::Arr(vec![
        JsonValue::Num(JsonNumber::UInt(u64::MAX)),
        JsonValue::Num(JsonNumber::Int(-7)),
        JsonValue::Num(JsonNumber::Decimal(String::from("0.5"))),
    ]);
    assert_eq!(doc, expected);
}

#[test]
fn parse_document_null_bool_nesting() {
    let doc = parse_document("{\"a\":null,\"b\":[true,false]}").unwrap();
    let expected = JsonValue::Obj(vec![
        (String::from("a"), JsonValue::Null),
        (
            String::from("b"),
            JsonValue::Arr(vec![JsonValue::Bool(true), JsonValue::Bool(false)]),
        ),
    ]);
    assert_eq!(doc, expected);
}

#[test]
fn parse_document_rejects_invalid_text() {
    assert!(parse_document("{\"type\": raster}").is_none());
    assert!(parse_document("").is_none());
}

#[test]
fn get_field_finds_first_match() {
    let doc = JsonValue::Obj(vec![
        (String::from("x"), JsonValue::Bool(true)),
        (String::from("y"), JsonValue::Null),
    ]);
    assert_eq!(get_field(&doc, "y"), Some(&JsonValue::Null));
    assert!(get_field(&doc, "z").is_none());
    assert!(get_field(&JsonValue::Null, "x").is_none());
}

#[test]
fn str_eq_compares_contents() {
    assert!(str_eq("vertex", "vertex"));
    assert!(!str_eq("vertex", "fragment"));
    assert!(!str_eq("", "a"));
    assert!(str_eq("", ""));
}
