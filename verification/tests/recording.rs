use ryu_recipes::recording::stop_report;
use ryu_recipes::{
    record_start, record_status, record_stop, Error, Json, RecorderStarted, RecorderStatus,
    RecorderStopped,
};

fn doc(text: &str) -> Json {
    Json::parse(text).unwrap()
}

fn stopped(payload: &str) -> RecorderStopped {
    RecorderStopped {
        task: "Add Numbers".to_string(),
        started_at: "t0".to_string(),
        payload: doc(payload),
    }
}

#[test]
fn record_start_reports_the_session() {
    let started = RecorderStarted {
        started_at: "t0".to_string(),
        info: doc(r#"{ "pid": 7 }"#),
    };
    assert_eq!(
        record_start("do it", Ok(started)).unwrap(),
        doc(r#"{ "recording": true, "task": "do it", "started_at": "t0", "info": { "pid": 7 } }"#)
    );
    assert_eq!(
        record_start("do it", Err(Error::new("already recording"))).unwrap_err().message,
        "already recording"
    );
}

#[test]
fn record_status_reports_whether_a_session_runs() {
    assert_eq!(record_status(Ok(None)).unwrap(), doc(r#"{ "recording": false }"#));
    let running = RecorderStatus {
        task: "t".to_string(),
        started_at: "t0".to_string(),
        status: doc(r#"{ "event_count": 3 }"#),
    };
    assert_eq!(
        record_status(Ok(Some(running))).unwrap(),
        doc(r#"{ "recording": true, "task": "t", "started_at": "t0",
                 "status": { "event_count": 3 } }"#)
    );
    assert_eq!(
        record_status(Err(Error::new("poll failed"))).unwrap_err().message,
        "poll failed"
    );
}

#[test]
fn record_stop_flattens_the_payload() {
    let report = record_stop(Ok(stopped(
        r#"{ "recording": false, "event_count": 1, "suggestion": "s",
             "events": [{ "event_type": "press", "key": "a" }] }"#,
    )))
    .unwrap();
    assert_eq!(report.get("task").unwrap(), &Json::text("Add Numbers"));
    assert_eq!(report.get("started_at").unwrap(), &Json::text("t0"));
    assert_eq!(report.get("recording").unwrap(), &Json::Bool(false));
    assert_eq!(report.get("event_count").unwrap(), &Json::natural(1));
    assert_eq!(report.get("suggestion").unwrap(), &Json::text("s"));
    assert_eq!(report.get("events").unwrap().as_array().unwrap().len(), 1);
    let draft = report.get("draft").unwrap();
    assert_eq!(draft.get("name").unwrap(), &Json::text("add-numbers"));
    assert_eq!(draft.get("steps").unwrap().as_array().unwrap().len(), 1);
}

#[test]
fn record_stop_lets_the_payload_override_the_session_but_not_the_draft() {
    let report = record_stop(Ok(stopped(
        r#"{ "recording": true, "task": "other", "draft": "mine", "events": "none" }"#,
    )))
    .unwrap();
    assert_eq!(report.get("recording").unwrap(), &Json::Bool(true));
    assert_eq!(report.get("task").unwrap(), &Json::text("other"));
    let draft = report.get("draft").unwrap();
    // The draft is named after the session's own task.
    assert_eq!(draft.get("name").unwrap(), &Json::text("add-numbers"));
    assert_eq!(draft.get("steps").unwrap(), &Json::Array(vec![]));
}

#[test]
fn record_stop_has_a_draft_without_an_object_payload() {
    let report = record_stop(Ok(stopped("null"))).unwrap();
    assert!(report.get("events").is_none());
    assert_eq!(
        report.get("draft").unwrap().get("steps").unwrap(),
        &Json::Array(vec![])
    );
    assert_eq!(report.as_object().unwrap().len(), 4);
    assert_eq!(
        record_stop(Err(Error::new("no session"))).unwrap_err().message,
        "no session"
    );
}

#[test]
fn stop_report_names_the_draft_as_told() {
    let report = stop_report(stopped("{}"), "my-name".to_string());
    assert_eq!(
        report.get("draft").unwrap().get("name").unwrap(),
        &Json::text("my-name")
    );
}
