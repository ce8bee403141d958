use ryu_recipes::json::JsonObject;
use ryu_recipes::replay::payload_or_text;
use ryu_recipes::{extract_mcp_json, run, Error, Json};

fn doc(text: &str) -> Json {
    Json::parse(text).unwrap()
}

#[test]
fn extract_unwraps_text_json() {
    let env = doc(r#"{ "content": [{ "type": "text", "text": "{\"a\":1}" }] }"#);
    assert_eq!(extract_mcp_json(&env).unwrap(), doc(r#"{ "a": 1 }"#));
}

#[test]
fn extract_surfaces_is_error() {
    let env = doc(r#"{ "content": [{ "type": "text", "text": "Error: boom" }], "isError": true }"#);
    let err = extract_mcp_json(&env).unwrap_err().message;
    assert!(err.contains("boom"), "unexpected error: {err}");
}

#[test]
fn extract_falls_back_to_plain_text() {
    let env = doc(r#"{ "content": [{ "type": "text", "text": "not json" }] }"#);
    assert_eq!(extract_mcp_json(&env).unwrap(), Json::text("not json"));
}

#[test]
fn extract_without_text_names_a_tool_error() {
    let env = doc(r#"{ "isError": true }"#);
    assert_eq!(extract_mcp_json(&env).unwrap_err(), Error::new("tool error"));
}

#[test]
fn extract_reads_only_a_true_flag_as_an_error() {
    let env = doc(r#"{ "content": [{ "text": "7" }], "isError": false }"#);
    assert_eq!(extract_mcp_json(&env).unwrap(), Json::natural(7));
    let env = doc(r#"{ "content": [{ "text": "7" }], "isError": "true" }"#);
    assert_eq!(extract_mcp_json(&env).unwrap(), Json::natural(7));
}

#[test]
fn extract_hands_back_a_reply_without_text() {
    for text in [
        "null",
        "[1,2]",
        r#"{"content":[]}"#,
        r#"{"content":{"0":{"text":"x"}}}"#,
        r#"{"content":[{"text":5}]}"#,
        r#"{"content":["text"]}"#,
    ] {
        let env = doc(text);
        assert_eq!(extract_mcp_json(&env).unwrap(), env);
    }
}

#[test]
fn payload_is_the_document_or_the_text() {
    assert_eq!(payload_or_text("x", Some(Json::Bool(true))), Json::Bool(true));
    assert_eq!(payload_or_text("x", None), Json::text("x"));
}

#[test]
fn run_unwraps_the_reply_and_names_a_failed_replay() {
    let env = doc(r#"{ "content": [{ "type": "text", "text": "{\"done\":1}" }] }"#);
    assert_eq!(run(Ok(env)).unwrap(), doc(r#"{ "done": 1 }"#));
    assert_eq!(
        run(Err(Error::new("ghost down"))).unwrap_err().message,
        "recipe replay failed: ghost down"
    );
    let flagged = doc(r#"{ "content": [{ "text": "no such recipe" }], "isError": true }"#);
    assert_eq!(run(Ok(flagged)).unwrap_err().message, "no such recipe");
}

fn wrapped(text: &str) -> Json {
    let item = JsonObject::new()
        .with("type", Json::text("text"))
        .with("text", Json::text(text));
    Json::Object(JsonObject::new().with("content", Json::Array(vec![Json::Object(item)])))
}

#[test]
fn unwrapping_undoes_wrapping() {
    for text in [
        "null",
        "true",
        "false",
        "0",
        "18446744073709551615",
        "-1",
        "-9223372036854775808",
        r#""""#,
        r#""null""#,
        r#""{\"a\":1}""#,
        r#""\u0000\u001f \" \\ / \u007f \u00e9 \ud83d\ude00""#,
        "[]",
        "{}",
        r#"{"":{"b":[1,-2,{"c":null}],"a":"x"}}"#,
        // The raw key is taken for what it is where another key comes before it.
        r##"{"#":1,"$serde_json::private::RawValue":"2"}"##,
    ] {
        let value = doc(text);
        assert_eq!(extract_mcp_json(&wrapped(&value.to_text())).unwrap(), value, "{text}");
    }
}

#[test]
fn unwrapping_goes_as_deep_as_the_parser() {
    let mut value = Json::Null;
    for _ in 0..127 {
        value = Json::Array(vec![value]);
    }
    assert_eq!(extract_mcp_json(&wrapped(&value.to_text())).unwrap(), value);
    // One level more is no document to the parser, and comes back as text.
    let deeper = Json::Array(vec![value]);
    let text = deeper.to_text();
    assert_eq!(extract_mcp_json(&wrapped(&text)).unwrap(), Json::text(&text));
}

#[test]
fn an_object_that_starts_with_the_raw_key_is_read_as_a_raw_document() {
    let key = "$serde_json::private::RawValue";
    let value = Json::Object(JsonObject::new().with(key, Json::text("[1]")));
    assert_eq!(Json::parse(&value.to_text()), Some(doc("[1]")));
    let value = Json::Object(JsonObject::new().with(key, Json::Null));
    assert_eq!(Json::parse(&value.to_text()), None);
}
