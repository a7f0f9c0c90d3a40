use tracker::extract::{AlignmentKeyExtractor, AutoExtractor, JsonPathExtractor};
use tracker::json::{parse_json, JsonVal};

fn obj(fields: Vec<(&str, JsonVal)>) -> JsonVal {
    JsonVal::Obj(
        fields
            .into_iter()
            .map(|(k, v)| (String::from(k), v))
            .collect(),
    )
}

#[test]
fn path_extracts_nested_string() {
    let event = obj(vec![(
        "message",
        obj(vec![("phase", JsonVal::Str(String::from("A")))]),
    )]);
    let extractor = JsonPathExtractor::new("message.phase");
    assert_eq!(extractor.extract_key(&event), Some(String::from("A")));
}

#[test]
fn path_missing_field_yields_no_key() {
    let event = obj(vec![(
        "message",
        obj(vec![("phase", JsonVal::Str(String::from("A")))]),
    )]);
    let extractor = JsonPathExtractor::new("message.missing");
    assert_eq!(extractor.extract_key(&event), None);
}

#[test]
fn path_canonicalizes_number_to_string() {
    let event = obj(vec![("type", JsonVal::Num(String::from("42")))]);
    let extractor = JsonPathExtractor::new("type");
    assert_eq!(extractor.extract_key(&event), Some(String::from("42")));
}

#[test]
fn path_extraction_through_parsed_json() {
    // The same three checks, through the real parser.
    let event = parse_json("{\"message\":{\"phase\":\"A\"}}").unwrap();
    assert_eq!(
        JsonPathExtractor::new("message.phase").extract_key(&event),
        Some(String::from("A"))
    );
    assert_eq!(
        JsonPathExtractor::new("message.missing").extract_key(&event),
        None
    );
    let event = parse_json("{\"type\":42}").unwrap();
    assert_eq!(
        JsonPathExtractor::new("type").extract_key(&event),
        Some(String::from("42"))
    );
}

#[test]
fn path_canonicalizes_boolean() {
    let event = obj(vec![("flag", JsonVal::Bool(true))]);
    assert_eq!(
        JsonPathExtractor::new("flag").extract_key(&event),
        Some(String::from("true"))
    );
    let event = obj(vec![("flag", JsonVal::Bool(false))]);
    assert_eq!(
        JsonPathExtractor::new("flag").extract_key(&event),
        Some(String::from("false"))
    );
}

#[test]
fn path_stops_at_non_scalar_leaf() {
    let event = obj(vec![("data", obj(vec![]))]);
    assert_eq!(JsonPathExtractor::new("data").extract_key(&event), None);
    let event = obj(vec![("items", JsonVal::Arr(vec![]))]);
    assert_eq!(JsonPathExtractor::new("items").extract_key(&event), None);
    let event = obj(vec![("nothing", JsonVal::Null)]);
    assert_eq!(JsonPathExtractor::new("nothing").extract_key(&event), None);
}

#[test]
fn path_on_non_object_yields_no_key() {
    let extractor = JsonPathExtractor::new("type");
    assert_eq!(extractor.extract_key(&JsonVal::Null), None);
    assert_eq!(
        extractor.extract_key(&JsonVal::Str(String::from("x"))),
        None
    );
}

#[test]
fn auto_extractor_tries_fields_in_order() {
    let auto = AutoExtractor::default();
    let event = obj(vec![
        ("phase", JsonVal::Str(String::from("late"))),
        ("type", JsonVal::Str(String::from("first"))),
    ]);
    assert_eq!(auto.extract_key(&event), Some(String::from("first")));
    let event = obj(vec![("phase", JsonVal::Str(String::from("only")))]);
    assert_eq!(auto.extract_key(&event), Some(String::from("only")));
}

#[test]
fn auto_extractor_skips_non_scalar_match() {
    let auto = AutoExtractor::default();
    let event = obj(vec![
        ("type", obj(vec![])),
        ("phase", JsonVal::Str(String::from("fallback"))),
    ]);
    assert_eq!(auto.extract_key(&event), Some(String::from("fallback")));
}

#[test]
fn auto_extractor_yields_nothing_without_known_fields() {
    let auto = AutoExtractor::default();
    let event = obj(vec![("unrelated", JsonVal::Str(String::from("x")))]);
    assert_eq!(auto.extract_key(&event), None);
}

#[test]
fn extractor_enum_dispatches() {
    let event = obj(vec![("type", JsonVal::Str(String::from("T")))]);
    let path = AlignmentKeyExtractor::Path(JsonPathExtractor::new("type"));
    assert_eq!(path.extract_key(&event), Some(String::from("T")));
    let auto = AlignmentKeyExtractor::Auto(AutoExtractor::default());
    assert_eq!(auto.extract_key(&event), Some(String::from("T")));
}

#[test]
fn empty_path_fields_are_kept() {
    // "a..b" has an empty middle field, which can never match.
    let event = obj(vec![("a", obj(vec![("b", JsonVal::Bool(true))]))]);
    assert_eq!(JsonPathExtractor::new("a..b").extract_key(&event), None);
}
