use ryu_recipes::text::{
    at_most, chars_of, is_white_space, numeral, parse_u16, same_text, text_of, trim,
};
use ryu_recipes::{Error, Json, JsonObject};

fn doc(text: &str) -> Json {
    Json::parse(text).unwrap()
}

#[test]
fn white_space_is_that_of_the_standard_library() {
    for c in '\0'..=char::MAX {
        assert_eq!(is_white_space(c), c.is_whitespace(), "{c:?}");
    }
}

#[test]
fn trim_takes_white_space_off_both_ends() {
    for text in ["", " ", " a ", "\u{2003}a b\u{85}", "a", "\n\t"] {
        assert_eq!(trim(text), text.trim());
    }
}

#[test]
fn numerals_read_back() {
    for n in [0, 1, 9, 10, 99, 100, 7999, 65535] {
        assert_eq!(numeral(n), n.to_string());
        assert_eq!(parse_u16(&numeral(n)), Some(n));
    }
    for text in ["", "+", "+7", "++7", "-0", "00012", "65535", "65536", "1a", " 1", "\u{661}"] {
        assert_eq!(parse_u16(text), text.parse::<u16>().ok(), "{text:?}");
    }
}

#[test]
fn texts_are_taken_apart_and_put_together() {
    let chars = chars_of("h\u{e9}llo");
    assert_eq!(chars, ['h', '\u{e9}', 'l', 'l', 'o']);
    assert_eq!(text_of(&chars, 1, 3), "\u{e9}l");
    assert!(same_text("a", "a"));
    assert!(!same_text("a", "ab"));
    assert!(!same_text("a", "b"));
    assert!(at_most("a", "a"));
    assert!(at_most("a", "ab"));
    assert!(!at_most("b", "ab"));
}

#[test]
fn objects_hold_each_key_once() {
    let mut object = JsonObject::new();
    assert_eq!(object.len(), 0);
    object.insert("b".to_string(), Json::natural(1));
    object.insert("a".to_string(), Json::natural(2));
    object.insert("b".to_string(), Json::natural(3));
    assert_eq!(object.len(), 2);
    assert_eq!(object.get("b"), Some(&Json::natural(3)));
    assert_eq!(object.get("a"), Some(&Json::natural(2)));
    assert_eq!(object.get("c"), None);
    let other = JsonObject::new()
        .with("b", Json::natural(3))
        .with("a", Json::natural(2));
    assert_eq!(object, other);
}

#[test]
fn merging_prefers_the_other_object() {
    let mut object = JsonObject::new()
        .with("a", Json::natural(1))
        .with("b", Json::natural(2));
    object.merge(&JsonObject::new().with("b", Json::Null).with("c", Json::Bool(true)));
    assert_eq!(
        Json::Object(object),
        doc(r#"{ "a": 1, "b": null, "c": true }"#)
    );
}

#[test]
fn values_are_read_by_their_kind() {
    let value = doc(r#"{ "s": "x", "b": true, "a": [1, 2], "o": {} }"#);
    assert_eq!(value.get("s").unwrap().as_str(), Some("x"));
    assert_eq!(value.get("s").unwrap().as_bool(), None);
    assert_eq!(value.get("b").unwrap().as_bool(), Some(true));
    assert_eq!(value.get("a").unwrap().at(1), Some(&Json::natural(2)));
    assert_eq!(value.get("a").unwrap().at(2), None);
    assert_eq!(value.get("a").unwrap().get("0"), None);
    assert_eq!(value.at(0), None);
    assert_eq!(value.as_array(), None);
    assert_eq!(value.get("o").unwrap().as_object(), Some(&JsonObject::new()));
    assert_eq!(Json::Null.as_str(), None);
    assert_eq!(Json::text_or_null(&None), Json::Null);
    assert_eq!(Json::text_or_null(&Some("t".to_string())), Json::text("t"));
}

#[test]
fn a_copy_is_equal() {
    let value = doc(r#"{ "a": [1, -2, 2.5, null, { "b": ["x"] }], "c": false }"#);
    assert_eq!(value.clone(), value);
}

#[test]
fn documents_cross_to_serde_json_and_back() {
    let text = r#"{"a":[1,-2,2.5,null,true,{"b":"\"x\""}],"c":{}}"#;
    let theirs: serde_json::Value = serde_json::from_str(text).unwrap();
    let ours = Json::from_value(theirs.clone());
    assert_eq!(ours, doc(text));
    assert_eq!(ours.to_value(), theirs);
    assert_eq!(ours.to_text(), text);
    assert_eq!(ours.get("a").unwrap().at(0), Some(&Json::natural(1)));
}

#[test]
fn only_documents_parse() {
    assert!(Json::parse("").is_none());
    assert!(Json::parse("not json").is_none());
    assert!(Json::parse("{\"a\":1} x").is_none());
    assert_eq!(Json::parse(" \"x\" "), Some(Json::text("x")));
}

#[test]
fn errors_are_wrapped_in_context() {
    let cause = Error::new("why");
    assert_eq!(Error::wrap("what: ", &cause).message, "what: why");
}

#[test]
fn the_first_host_stays() {
    let mut slot: Option<u8> = None;
    assert_eq!(
        ryu_recipes::host::host(&slot).unwrap_err().message,
        "recipes host not initialized"
    );
    ryu_recipes::set_global_host(&mut slot, 1);
    ryu_recipes::set_global_host(&mut slot, 2);
    assert_eq!(ryu_recipes::host::host(&slot), Ok(&1));
}
