use comic_universe::json::{copy_items, JsonNumber, JsonObject, JsonValue};

#[test]
fn parse_reads_an_object() {
    let v = JsonValue::parse("{\"b\": [1, -2, 1.5, true, null], \"a\": \"x\"}").unwrap();
    assert_eq!(v.get("a"), Some(&JsonValue::String("x".to_string())));
    let items = v.get("b").unwrap().as_array().unwrap();
    assert_eq!(items.len(), 5);
    assert_eq!(items[0], JsonValue::Number(JsonNumber::Unsigned(1)));
    assert_eq!(items[1], JsonValue::Number(JsonNumber::Signed(-2)));
    assert_eq!(items[2].to_text(), "1.5");
    assert_eq!(items[3], JsonValue::Bool(true));
    assert_eq!(items[4], JsonValue::Null);
    assert_eq!(v.to_text(), "{\"a\":\"x\",\"b\":[1,-2,1.5,true,null]}");
}

#[test]
fn parse_reports_an_error() {
    let e = JsonValue::parse("{\"a\": ").unwrap_err();
    assert_eq!(e, "EOF while parsing a value at line 1 column 6");
}

#[test]
fn parse_of_plain_text_is_an_error() {
    assert!(JsonValue::parse("hello").is_err());
    assert!(JsonValue::parse("").is_err());
}

#[test]
fn decimal_numbers_keep_their_digits() {
    let v = JsonValue::parse("[0.1, -2.5e10, 1e300, 18446744073709551615, -9223372036854775808]")
        .unwrap();
    let items = v.as_array().unwrap();
    match &items[0] {
        JsonValue::Number(JsonNumber::Decimal(d)) => assert_eq!(d.as_str(), "0.1"),
        other => panic!("not a decimal: {:?}", other),
    }
    assert_eq!(items[3], JsonValue::Number(JsonNumber::Unsigned(u64::MAX)));
    assert_eq!(items[4], JsonValue::Number(JsonNumber::Signed(i64::MIN)));
    assert_eq!(
        v.to_text(),
        "[0.1,-25000000000.0,1e+300,18446744073709551615,-9223372036854775808]"
    );
}

#[test]
fn text_of_a_parsed_document_parses_to_the_same_document() {
    let text = "{\"list\":[{\"n\":1.25,\"s\":\"a\\\"b\"},[],{}],\"z\":null}";
    let v = JsonValue::parse(text).unwrap();
    assert_eq!(v.to_text(), text);
    assert_eq!(JsonValue::parse(&v.to_text()).unwrap(), v);
}

#[test]
fn to_text_escapes_strings() {
    assert_eq!(JsonValue::text("a\"b\n").to_text(), "\"a\\\"b\\n\"");
    assert_eq!(JsonValue::Null.to_text(), "null");
    assert_eq!(JsonValue::Bool(false).to_text(), "false");
    assert_eq!(JsonValue::integer(-7).to_text(), "-7");
    assert_eq!(JsonValue::integer(7).to_text(), "7");
    assert_eq!(JsonValue::Number(JsonNumber::Signed(7)).to_text(), "7");
}

#[test]
fn to_text_writes_the_fields_in_the_order_of_their_keys() {
    let mut o = JsonObject::new();
    o.insert("zeta", JsonValue::integer(1));
    o.insert("alpha", JsonValue::integer(2));
    assert_eq!(JsonValue::object(o).to_text(), "{\"alpha\":2,\"zeta\":1}");
}

#[test]
fn insert_replaces_a_field() {
    let mut o = JsonObject::new();
    o.insert("k", JsonValue::integer(1));
    o.insert("j", JsonValue::text("two"));
    o.insert("k", JsonValue::integer(-3));
    assert_eq!(o.get("k"), Some(&JsonValue::Number(JsonNumber::Signed(-3))));
    assert_eq!(JsonValue::integer(3), JsonValue::Number(JsonNumber::Unsigned(3)));
    assert_eq!(o.get("j"), Some(&JsonValue::text("two")));
    assert_eq!(o.get("missing"), None);
    assert_eq!(JsonValue::Object(o).to_text(), "{\"j\":\"two\",\"k\":-3}");
}

#[test]
fn get_finds_fields_of_objects_only() {
    let v = JsonValue::parse("{\"a\": {\"b\": \"c\"}}").unwrap();
    assert_eq!(v.get("a").unwrap().get("b"), Some(&JsonValue::text("c")));
    assert_eq!(v.get("a").unwrap().text_field("b"), Some("c"));
    assert_eq!(v.get("b"), None);
    assert_eq!(JsonValue::text("a").get("a"), None);
    assert_eq!(JsonValue::array(vec![JsonValue::Null]).get("0"), None);
    assert_eq!(v.text_field("a"), None);
}

#[test]
fn as_str_and_as_array_tell_the_kinds_apart() {
    assert_eq!(JsonValue::text("a").as_str(), Some("a"));
    assert_eq!(JsonValue::integer(1).as_str(), None);
    assert_eq!(JsonValue::Null.as_array(), None);
    let items = vec![JsonValue::integer(1), JsonValue::text("b")];
    assert_eq!(JsonValue::array(copy_items(&items)).as_array(), Some(&items));
}

#[test]
fn set_field_turns_null_into_an_object() {
    let mut v = JsonValue::Null;
    assert!(v.set_field("a", JsonValue::integer(1)));
    assert_eq!(v.to_text(), "{\"a\":1}");
    assert!(v.set_field("a", JsonValue::text("b")));
    assert!(v.set_field("c", JsonValue::Bool(true)));
    assert_eq!(v.to_text(), "{\"a\":\"b\",\"c\":true}");
}

#[test]
fn set_field_leaves_other_kinds_as_they_are() {
    let mut v = JsonValue::text("plain");
    assert!(!v.set_field("a", JsonValue::integer(1)));
    assert_eq!(v, JsonValue::text("plain"));
    let mut n = JsonValue::array(vec![]);
    assert!(!n.set_field("a", JsonValue::integer(1)));
    assert_eq!(n.to_text(), "[]");
}

#[test]
fn clone_copies_the_whole_document() {
    let v = JsonValue::parse("{\"a\": [1, {\"b\": [2.5, \"x\"]}], \"c\": null}").unwrap();
    let w = v.clone();
    assert_eq!(v, w);
    assert_eq!(w.to_text(), "{\"a\":[1,{\"b\":[2.5,\"x\"]}],\"c\":null}");
}

#[test]
fn same_as_ignores_the_order_of_fields() {
    let parsed = JsonValue::parse("{\"a\": 1, \"b\": [true, {\"x\": null, \"y\": 2}]}").unwrap();
    let mut inner = JsonObject::new();
    inner.insert("y", JsonValue::Number(JsonNumber::Signed(2)));
    inner.insert("x", JsonValue::Null);
    let mut built = JsonObject::new();
    built.insert("b", JsonValue::array(vec![JsonValue::Bool(true), JsonValue::object(inner)]));
    built.insert("a", JsonValue::integer(1));
    let built = JsonValue::object(built);
    assert_ne!(parsed, built);
    assert!(parsed.same_as(&built));
    assert!(built.same_as(&parsed));
    assert_eq!(parsed.to_text(), built.to_text());
}

#[test]
fn same_as_tells_different_documents_apart() {
    let a = JsonValue::parse("{\"a\": 1, \"b\": 2}").unwrap();
    assert!(!a.same_as(&JsonValue::parse("{\"a\": 1}").unwrap()));
    assert!(!JsonValue::parse("{\"a\": 1}").unwrap().same_as(&a));
    assert!(!a.same_as(&JsonValue::parse("{\"a\": 1, \"b\": 3}").unwrap()));
    assert!(!a.same_as(&JsonValue::parse("{\"a\": 1, \"c\": 2}").unwrap()));
    assert!(!a.same_as(&JsonValue::Null));
    let list = JsonValue::parse("[1, 2]").unwrap();
    assert!(!list.same_as(&JsonValue::parse("[2, 1]").unwrap()));
    assert!(!list.same_as(&JsonValue::parse("[1]").unwrap()));
    assert!(list.same_as(&JsonValue::parse(" [ 1 , 2 ] ").unwrap()));
    assert!(!JsonValue::text("1").same_as(&JsonValue::integer(1)));
    assert!(!JsonValue::Bool(true).same_as(&JsonValue::Bool(false)));
}

#[test]
fn same_as_compares_numbers_by_value() {
    let one = JsonNumber::Unsigned(1);
    assert!(one.same_as(&JsonNumber::Signed(1)));
    assert!(JsonNumber::Signed(1).same_as(&one));
    assert!(!one.same_as(&JsonNumber::Signed(-1)));
    assert!(!JsonNumber::Unsigned(u64::MAX).same_as(&JsonNumber::Signed(-1)));
    let decimal = JsonValue::parse("1.0").unwrap();
    assert!(!decimal.same_as(&JsonValue::integer(1)));
    assert!(decimal.same_as(&JsonValue::parse("1.0").unwrap()));
    assert!(!decimal.same_as(&JsonValue::parse("1.5").unwrap()));
}

#[test]
fn keys_lists_every_field_once() {
    let v = JsonValue::parse("{\"b\": 1, \"a\": 2, \"c\": {\"d\": 3}}").unwrap();
    match &v {
        JsonValue::Object(o) => {
            let mut keys = o.keys();
            keys.sort();
            assert_eq!(keys, vec!["a".to_string(), "b".to_string(), "c".to_string()]);
        }
        other => panic!("not an object: {:?}", other),
    }
    assert_eq!(JsonObject::new().keys(), Vec::<String>::new());
}

#[test]
fn a_document_of_many_levels_goes_through() {
    let mut text = String::new();
    for _ in 0..60 {
        text.push_str("{\"a\":[");
    }
    text.push_str("1.5");
    for _ in 0..60 {
        text.push_str("]}");
    }
    let v = JsonValue::parse(&text).unwrap();
    assert_eq!(v.to_text(), text);
    assert!(v.same_as(&v.clone()));
}
