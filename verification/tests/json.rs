use external_control::adapter::{parse_jsonrpc_message, write_input};
use external_control::json::{JsonNumber, JsonValue};
use external_control::json_eq::same_json;
use external_control::protocol::UserInput;

fn text(t: &str) -> JsonValue {
    JsonValue::Text(t.to_string())
}

fn number(n: u64) -> JsonValue {
    JsonValue::Number(JsonNumber::PosInt(n))
}

fn object(members: Vec<(&str, JsonValue)>) -> JsonValue {
    JsonValue::Object(members.into_iter().map(|(n, v)| (n.to_string(), v)).collect())
}

fn read(json: &str) -> JsonValue {
    let message = parse_jsonrpc_message(&format!("{{\"result\":{json}}}")).unwrap();
    message.get("result").unwrap().clone()
}

#[test]
fn values_are_read_from_text() {
    assert_eq!(read("null"), JsonValue::Null);
    assert_eq!(read("true"), JsonValue::Bool(true));
    assert_eq!(read("7"), number(7));
    assert_eq!(read("-7"), JsonValue::Number(JsonNumber::NegInt(-7)));
    assert_eq!(read("\"a\\n\\u00e9\""), text("a\n\u{e9}"));
    assert_eq!(read("[1, []]"), JsonValue::Array(vec![number(1), JsonValue::Array(vec![])]));
    assert_eq!(read("{\"b\": 1, \"a\": {}}"), object(vec![("a", object(vec![])), ("b", number(1))]));
}

#[test]
fn numbers_that_are_no_integers_keep_their_text() {
    match read("1.50") {
        JsonValue::Number(JsonNumber::Float(f)) => assert_eq!(f.text(), "1.5"),
        other => panic!("{:?}", other),
    }
    match read("1e3") {
        JsonValue::Number(JsonNumber::Float(f)) => assert_eq!(f.text(), "1000.0"),
        other => panic!("{:?}", other),
    }
    assert_eq!(read("2.5").clone(), read("2.5"));
    assert_ne!(read("2.5"), read("2.25"));
}

#[test]
fn members_are_found_by_name() {
    let value = object(vec![("a", number(1)), ("b", text("x"))]);
    assert_eq!(value.get("a"), Some(&number(1)));
    assert_eq!(value.get("c"), None);
    assert_eq!(value.get_text("b"), Some("x".to_string()));
    assert_eq!(value.get_text("a"), None);
    assert_eq!(value.get_text_or_empty("b"), "x");
    assert_eq!(value.get_text_or_empty("a"), "");
    assert_eq!(text("a").get("a"), None);
    assert_eq!(JsonValue::Array(vec![number(1)]).get("0"), None);
}

#[test]
fn the_last_member_of_a_name_counts() {
    let value = object(vec![("a", number(1)), ("b", number(2)), ("a", number(3))]);
    assert_eq!(value.get("a"), Some(&number(3)));
    assert_eq!(read("{\"a\":1,\"b\":2,\"a\":3}"), value);
    assert!(same_json(&value, &object(vec![("b", number(2)), ("a", number(3))])));
    assert!(!same_json(&value, &object(vec![("b", number(2)), ("a", number(1))])));
}

#[test]
fn equality_looks_all_the_way_down() {
    let a = object(vec![("x", JsonValue::Array(vec![number(1), JsonValue::Null])), ("y", text(""))]);
    let b = object(vec![("y", text("")), ("x", JsonValue::Array(vec![number(1), JsonValue::Null]))]);
    assert!(same_json(&a, &b));
    let c = object(vec![("y", text("")), ("x", JsonValue::Array(vec![JsonValue::Null, number(1)]))]);
    assert!(!same_json(&a, &c));
    let d = object(vec![("y", text(""))]);
    assert!(!same_json(&a, &d));
    assert!(!same_json(&d, &a));
    assert!(same_json(&number(5), &JsonValue::Number(JsonNumber::NegInt(5))));
    assert!(!same_json(&number(u64::MAX), &JsonValue::Number(JsonNumber::NegInt(-1))));
    assert!(!same_json(&JsonValue::Array(vec![]), &JsonValue::Null));
}

#[test]
fn copies_are_equal() {
    let value = read("{\"a\":[1,-2,3.5,\"x\",null,true,{\"b\":{}}],\"a b\":[]}");
    assert_eq!(value.clone(), value);
}

#[test]
fn values_may_be_nested_to_a_limit() {
    let nested = |depth: usize| format!("{{\"id\":{}{}}}", "[".repeat(depth - 1), "]".repeat(depth - 1));
    assert!(parse_jsonrpc_message(&nested(127)).is_some());
    assert!(parse_jsonrpc_message(&nested(128)).is_none());
}

#[test]
fn the_sign_of_a_zero_does_not_matter() {
    assert_eq!(read("0.0"), read("-0.0"));
    assert_eq!(read("[{\"a\":-0.0}]"), read("[{\"a\":0.0}]"));
    assert_ne!(read("0.0"), number(0));
    assert_ne!(read("0.0"), read("0.5"));
}

#[test]
fn the_last_member_of_a_name_is_written() {
    let repeated = object(vec![("k", JsonValue::Null), ("j", number(1)), ("k", JsonValue::Bool(true))]);
    let item = UserInput::Text { text: String::new(), text_elements: vec![repeated] };
    assert_eq!(
        write_input(&vec![item]),
        r#"[{"type":"text","text":"","text_elements":[{"j":1,"k":true}]}]"#
    );
}

#[test]
fn numbers_are_read_back_from_what_is_written() {
    let written = |json: &str| {
        let item = UserInput::Text { text: String::new(), text_elements: vec![read(json)] };
        let line = write_input(&vec![item]);
        let start = line.find("\"text_elements\":[").unwrap() + "\"text_elements\":[".len();
        line[start..line.len() - 3].to_string()
    };
    for json in [
        "0.25", "-0.0", "123456789.12345", "0.0001", "99999999999999.5", "-7", "1e-7", "1.5e20",
        "1.2345e-10", "1.23456789012345e16", "9e22",
    ] {
        assert_eq!(read(&written(json)), read(json));
    }
    assert_eq!(written("1.5e300"), "1.5e+300");
    match read(&written("1.2345678901234567e300")) {
        JsonValue::Number(JsonNumber::Float(_)) => {}
        other => panic!("{:?}", other),
    }
}
