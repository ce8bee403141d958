use ryu_recipes::callback::{
    decoded, port_from, read_reply, token_from, CoreCallback, CoreReply, DEFAULT_CORE_PORT,
    DEFAULT_PORT, HDR_PLUGIN_ID, RECIPES_PLUGIN_ID,
};
use ryu_recipes::{Error, Json};

fn doc(text: &str) -> Json {
    Json::parse(text).unwrap()
}

#[test]
fn core_callback_new_uses_defaults_without_env() {
    let cb = CoreCallback::new(None, None);
    assert_eq!(cb.core_base, format!("http://127.0.0.1:{DEFAULT_CORE_PORT}"));
    assert!(cb.ext_token.is_none());
}

#[test]
fn core_callback_new_reads_port_and_token_from_env() {
    let cb = CoreCallback::new(Some("  9123  "), Some("  tok123  "));
    assert_eq!(cb.core_base, "http://127.0.0.1:9123");
    assert_eq!(cb.ext_token.as_deref(), Some("tok123"));
}

#[test]
fn core_callback_new_ignores_empty_token() {
    let cb = CoreCallback::new(None, Some("   "));
    assert!(cb.ext_token.is_none());
}

#[test]
fn ports_fall_back_where_the_setting_is_none() {
    assert_eq!(DEFAULT_PORT, 7999);
    assert_eq!(DEFAULT_CORE_PORT, 7980);
    assert_eq!(port_from(None, 7), 7);
    assert_eq!(port_from(Some(""), 7), 7);
    assert_eq!(port_from(Some("+"), 7), 7);
    assert_eq!(port_from(Some("-1"), 7), 7);
    assert_eq!(port_from(Some("65536"), 7), 7);
    assert_eq!(port_from(Some("99999999999999999999"), 7), 7);
    assert_eq!(port_from(Some("80 80"), 7), 7);
    assert_eq!(port_from(Some("\t65535\n"), 7), 65535);
    assert_eq!(port_from(Some("+0080"), 7), 80);
    assert_eq!(port_from(Some("0"), 7), 0);
}

#[test]
fn tokens_are_trimmed() {
    assert_eq!(token_from(None), None);
    assert_eq!(token_from(Some("\u{3000}\n")), None);
    assert_eq!(token_from(Some("\u{a0}a b ")).as_deref(), Some("a b"));
}

#[test]
fn callback_run_returns_raw_envelope_and_stamps_auth() {
    let cb = CoreCallback::new(Some("9123"), Some("testtok"));
    let request = cb.call_ghost_run("myrecipe", doc(r#"{ "n": 2 }"#)).unwrap();
    assert_eq!(request.bearer, "testtok");
    assert_eq!(request.plugin_id, RECIPES_PLUGIN_ID);
    assert_eq!(RECIPES_PLUGIN_ID, "com.ryu.recipes");
    assert_eq!(HDR_PLUGIN_ID, "x-ryu-plugin-id");
    assert_eq!(request.url, "http://127.0.0.1:9123/api/host/recipes/run");
    assert_eq!(
        request.body,
        doc(r#"{ "recipe": "myrecipe", "params": { "n": 2 } }"#)
    );

    let envelope = doc(r#"{ "content": [{ "type": "text", "text": "{\"ok\":1}" }] }"#);
    let reply = CoreReply {
        status: 200,
        body: Some(envelope.clone()),
    };
    assert_eq!(CoreCallback::finish(Ok(reply)).unwrap(), envelope);
}

#[test]
fn callback_recorder_start_parses_and_hits_right_path() {
    let cb = CoreCallback::new(Some("1"), Some("tok"));
    let request = cb.recorder_start("demo").unwrap();
    assert_eq!(request.url, "http://127.0.0.1:1/api/host/recipes/record-start");
    assert_eq!(request.body, doc(r#"{ "task": "demo" }"#));
}

#[test]
fn callback_recorder_polls_and_stops() {
    let cb = CoreCallback::new(Some("1"), Some("tok"));
    let request = cb.recorder_status().unwrap();
    assert_eq!(request.url, "http://127.0.0.1:1/api/host/recipes/record-status");
    assert_eq!(request.body, doc("{}"));
    let request = cb.recorder_stop().unwrap();
    assert_eq!(request.url, "http://127.0.0.1:1/api/host/recipes/record-stop");
    assert_eq!(request.body, doc("{}"));
}

#[test]
fn callback_surfaces_core_error_body() {
    let reply = CoreReply {
        status: 500,
        body: Some(doc(r#"{ "error": "kaboom" }"#)),
    };
    let err = CoreCallback::finish(Ok(reply)).unwrap_err().message;
    assert!(err.contains("kaboom"), "unexpected: {err}");
}

#[test]
fn callback_names_the_status_where_core_says_nothing() {
    for body in [None, Some(doc("{}")), Some(doc(r#"{ "error": 5 }"#))] {
        let err = CoreCallback::finish(Ok(CoreReply { status: 500, body })).unwrap_err();
        assert_eq!(
            err.message,
            "core callback failed: HTTP 500 Internal Server Error"
        );
    }
    let odd = CoreReply { status: 199, body: None };
    assert_eq!(
        CoreCallback::finish(Ok(odd)).unwrap_err().message,
        "core callback failed: HTTP 199 <unknown status code>"
    );
}

#[test]
fn callback_reads_an_answer_by_its_status() {
    let reply = |status: u16| CoreReply { status, body: None };
    assert_eq!(read_reply(reply(200), "200").unwrap(), Json::Null);
    assert_eq!(read_reply(reply(299), "299").unwrap(), Json::Null);
    assert_eq!(
        read_reply(reply(300), "300 line").unwrap_err().message,
        "core callback failed: HTTP 300 line"
    );
    assert_eq!(
        CoreCallback::finish(Err(Error::new("refused"))).unwrap_err().message,
        "core callback not reachable: refused"
    );
}

#[test]
fn callback_malformed_started_payload_errors() {
    let read: Result<u8, Error> = Err(Error::new("invalid type"));
    let err = decoded("RecorderStarted", read).unwrap_err().message;
    assert_eq!(err, "malformed RecorderStarted from Core: invalid type");
    assert_eq!(decoded("RecorderStarted", Ok(3u8)), Ok(3u8));
}

#[test]
fn callback_post_is_fail_closed_without_token() {
    let cb = CoreCallback::new(None, None);
    let err = cb
        .post("/api/host/recipes/run", doc("{}"))
        .unwrap_err()
        .message;
    assert!(err.contains("no RYU_EXT_TOKEN"), "unexpected: {err}");
    assert!(cb.call_ghost_run("r", Json::Null).is_err());
    assert!(cb.recorder_start("t").is_err());
    assert!(cb.recorder_status().is_err());
    assert!(cb.recorder_stop().is_err());
}
