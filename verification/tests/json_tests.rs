use tracker::json::{node_eq, parse_json, JsonVal};

#[test]
fn parse_json_accepts_valid_text() {
    let v = parse_json("{\"a\": [1, true, null, \"s\"]}").expect("valid JSON must parse");
    match v {
        JsonVal::Obj(fields) => {
            assert_eq!(fields.len(), 1);
            assert_eq!(fields[0].0, "a");
            match &fields[0].1 {
                JsonVal::Arr(items) => {
                    assert_eq!(items.len(), 4);
                    assert!(matches!(&items[0], JsonVal::Num(n) if n == "1"));
                    assert!(matches!(&items[1], JsonVal::Bool(true)));
                    assert!(matches!(&items[2], JsonVal::Null));
                    assert!(matches!(&items[3], JsonVal::Str(s) if s == "s"));
                }
                _ => panic!("expected an array"),
            }
        }
        _ => panic!("expected an object"),
    }
}

#[test]
fn parse_json_rejects_malformed_text() {
    assert!(parse_json("not json").is_none());
    assert!(parse_json("{\"a\":").is_none());
    assert!(parse_json("").is_none());
}

#[test]
fn parse_json_delivers_fields_in_map_order() {
    // serde_json's map keeps keys sorted; the library preserves what the
    // parser delivers.
    let v = parse_json("{\"b\": 1, \"a\": 2}").unwrap();
    match v {
        JsonVal::Obj(fields) => {
            let names: Vec<&str> = fields.iter().map(|(k, _)| k.as_str()).collect();
            assert_eq!(names, vec!["a", "b"]);
        }
        _ => panic!("expected an object"),
    }
}

#[test]
fn node_eq_is_deep() {
    let a = parse_json("{\"x\": {\"y\": [1, 2]}}").unwrap();
    let b = parse_json("{\"x\": {\"y\": [1, 2]}}").unwrap();
    let c = parse_json("{\"x\": {\"y\": [1, 3]}}").unwrap();
    assert!(node_eq(&a, &b));
    assert!(!node_eq(&a, &c));
    assert!(!node_eq(&a, &JsonVal::Null));
    assert!(node_eq(&JsonVal::Null, &JsonVal::Null));
}

#[test]
fn get_field_finds_first_occurrence() {
    let v = JsonVal::Obj(vec![
        (String::from("k"), JsonVal::Num(String::from("1"))),
        (String::from("k"), JsonVal::Num(String::from("2"))),
    ]);
    match v.get_field(&String::from("k")) {
        Some(JsonVal::Num(n)) => assert_eq!(n, "1"),
        _ => panic!("expected the first field"),
    }
    assert!(v.get_field(&String::from("missing")).is_none());
    assert!(JsonVal::Null.get_field(&String::from("k")).is_none());
}

#[test]
fn scalar_string_canonicalizes() {
    assert_eq!(
        JsonVal::Str(String::from("s")).scalar_string(),
        Some(String::from("s"))
    );
    assert_eq!(
        JsonVal::Num(String::from("3.5")).scalar_string(),
        Some(String::from("3.5"))
    );
    assert_eq!(
        JsonVal::Bool(true).scalar_string(),
        Some(String::from("true"))
    );
    assert_eq!(JsonVal::Null.scalar_string(), None);
    assert_eq!(JsonVal::Arr(vec![]).scalar_string(), None);
    assert_eq!(JsonVal::Obj(vec![]).scalar_string(), None);
}

#[test]
fn duplicate_is_deep_and_equal() {
    let v = parse_json("{\"a\": [1, {\"b\": false}], \"c\": \"text\"}").unwrap();
    let copy = v.duplicate();
    assert!(node_eq(&v, &copy));
}
