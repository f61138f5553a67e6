use redisjson_api::path::{parse_path, resolve_first, str_eq, PathStep};
use redisjson_api::value::{json_type, type_code, JSONType, JsonValue};

fn sample() -> JsonValue {
    // {"a": {"b": [true, "s", 2.5, null]}, "n": 7}
    JsonValue::Object(vec![
        (
            String::from("a"),
            JsonValue::Object(vec![(
                String::from("b"),
                JsonValue::Array(vec![
                    JsonValue::Bool(true),
                    JsonValue::String(String::from("s")),
                    JsonValue::Float(2.5f64.to_bits()),
                    JsonValue::Null,
                ]),
            )]),
        ),
        (String::from("n"), JsonValue::Int(7)),
    ])
}

fn resolve<'a>(doc: &'a JsonValue, path: &str) -> Option<&'a JsonValue> {
    let steps = parse_path(path)?;
    resolve_first(doc, &steps)
}

#[test]
fn parse_accepts_root_alone() {
    let steps = parse_path("$").expect("root is a valid path");
    assert!(steps.is_empty());
}

#[test]
fn parse_accepts_fields_and_indices() {
    let steps = parse_path("$.a.b[10]").expect("valid path");
    assert_eq!(steps.len(), 3);
    assert!(matches!(&steps[0], PathStep::Field(f) if f.as_str() == "a"));
    assert!(matches!(&steps[1], PathStep::Field(f) if f.as_str() == "b"));
    assert!(matches!(&steps[2], PathStep::Index(10)));
}

#[test]
fn parse_reads_decimal_with_leading_zeros() {
    let steps = parse_path("$[007]").expect("valid index");
    assert!(matches!(&steps[0], PathStep::Index(7)));
}

#[test]
fn parse_rejects_malformed_text() {
    assert!(parse_path("").is_none());
    assert!(parse_path("a").is_none());
    assert!(parse_path("$.").is_none());
    assert!(parse_path("$..a").is_none());
    assert!(parse_path("$[]").is_none());
    assert!(parse_path("$[1x]").is_none());
    assert!(parse_path("$[2").is_none());
    assert!(parse_path("$]").is_none());
    assert!(parse_path("$.a]").is_none());
}

#[test]
fn parse_rejects_oversized_index() {
    // the largest accepted index literal, then the first rejected one
    assert!(parse_path("$[4294967295]").is_some());
    assert!(parse_path("$[4294967296]").is_none());
}

#[test]
fn resolve_root_returns_whole_document() {
    let doc = sample();
    let v = resolve(&doc, "$").expect("root resolves");
    assert!(matches!(json_type(v), JSONType::Object));
}

#[test]
fn resolve_descends_objects_and_arrays() {
    let doc = sample();
    assert!(matches!(resolve(&doc, "$.n"), Some(JsonValue::Int(7))));
    assert!(matches!(resolve(&doc, "$.a.b[0]"), Some(JsonValue::Bool(true))));
    assert!(matches!(resolve(&doc, "$.a.b[1]"), Some(JsonValue::String(_))));
    assert!(matches!(resolve(&doc, "$.a.b[2]"), Some(JsonValue::Float(_))));
    assert!(matches!(resolve(&doc, "$.a.b[3]"), Some(JsonValue::Null)));
}

#[test]
fn resolve_misses_return_none() {
    let doc = sample();
    assert!(resolve(&doc, "$.zzz").is_none());
    assert!(resolve(&doc, "$.a.b[4]").is_none());
    assert!(resolve(&doc, "$.n[0]").is_none());
    assert!(resolve(&doc, "$.n.m").is_none());
}

#[test]
fn resolve_takes_first_matching_member() {
    // a repeated member name selects the first occurrence in order
    let doc = JsonValue::Object(vec![
        (String::from("k"), JsonValue::Int(1)),
        (String::from("k"), JsonValue::Bool(false)),
    ]);
    assert!(matches!(resolve(&doc, "$.k"), Some(JsonValue::Int(1))));
}

#[test]
fn type_codes_follow_the_wire_encoding() {
    assert_eq!(type_code(JSONType::String), 0);
    assert_eq!(type_code(JSONType::Int), 1);
    assert_eq!(type_code(JSONType::Float), 2);
    assert_eq!(type_code(JSONType::Bool), 3);
    assert_eq!(type_code(JSONType::Object), 4);
    assert_eq!(type_code(JSONType::Array), 5);
    assert_eq!(type_code(JSONType::Null), 6);
    assert_eq!(type_code(JSONType::Error), 7);
}

#[test]
fn str_eq_compares_contents() {
    assert!(str_eq("", ""));
    assert!(str_eq("path", "path"));
    assert!(!str_eq("path", "path "));
    assert!(!str_eq("a", "b"));
    assert!(str_eq("ünïcode", "ünïcode"));
    assert!(!str_eq("ünïcode", "unicode"));
}
