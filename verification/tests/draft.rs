use ryu_recipes::draft::{draft_with_name, step_from_event};
use ryu_recipes::slug::slug_from_lowercase;
use ryu_recipes::{draft_from_events, slugify_task, Json};

fn doc(text: &str) -> Json {
    Json::parse(text).unwrap()
}

fn events(text: &str) -> Vec<Json> {
    match doc(text) {
        Json::Array(items) => items,
        other => panic!("not an array: {other:?}"),
    }
}

#[test]
fn slugify_task_is_safe() {
    assert_eq!(slugify_task("Open the App!"), "open-the-app");
    assert_eq!(slugify_task("  "), "recorded-recipe");
}

#[test]
fn slugify_task_joins_runs_and_trims() {
    assert_eq!(slugify_task("--A  &  b--"), "a-b");
    assert_eq!(slugify_task(""), "recorded-recipe");
    assert_eq!(slugify_task("---"), "recorded-recipe");
    assert_eq!(slugify_task("v2.0 (beta)"), "v2-0-beta");
}

#[test]
fn slugify_task_lowers_beyond_ascii() {
    // The Kelvin sign lowers to an ASCII k; other letters become hyphens.
    assert_eq!(slugify_task("\u{212A}ey"), "key");
    assert_eq!(slugify_task("\u{c9}tude No"), "tude-no");
}

#[test]
fn slugify_task_keeps_a_safe_name() {
    for task in ["Open the App!", "x", "A__B", "\u{c9}"] {
        let name = slugify_task(task);
        assert_eq!(slugify_task(&name), name);
    }
}

#[test]
fn slug_from_lowercase_takes_the_text_as_it_is() {
    assert_eq!(slug_from_lowercase("open the app!"), "open-the-app");
    assert_eq!(slug_from_lowercase("Open"), "Open");
}

#[test]
fn draft_maps_events_to_steps() {
    let events = events(
        r#"[
            { "event_type": "app_switch", "app_name": "Calculator" },
            { "event_type": "click", "element_name": "Seven", "element_role": "button" },
            { "event_type": "type", "key": "42", "element_name": "Field" },
            { "event_type": "scroll" }
        ]"#,
    );
    let draft = draft_from_events("Add numbers", &events);
    assert_eq!(draft.get("schema_version").unwrap(), &Json::natural(2));
    assert_eq!(draft.get("name").unwrap(), &Json::text("add-numbers"));
    assert_eq!(draft.get("app").unwrap(), &Json::text("Calculator"));
    let steps = draft.get("steps").unwrap().as_array().unwrap();
    assert_eq!(steps.len(), 4);
    assert_eq!(steps[0].get("action").unwrap(), &Json::text("focus"));
    assert_eq!(
        steps[0].get("params").unwrap().get("app").unwrap(),
        &Json::text("Calculator")
    );
    assert_eq!(steps[1].get("action").unwrap(), &Json::text("click"));
    assert_eq!(
        steps[1].get("target").unwrap().get("query").unwrap(),
        &Json::text("Seven")
    );
    assert_eq!(steps[2].get("action").unwrap(), &Json::text("type"));
    assert_eq!(
        steps[2].get("params").unwrap().get("text").unwrap(),
        &Json::text("42")
    );
    assert_eq!(steps[3].get("action").unwrap(), &Json::text("scroll"));
    assert_eq!(
        steps[3].get("params").unwrap().get("direction").unwrap(),
        &Json::text("down")
    );
}

#[test]
fn draft_document_is_exact() {
    let events = events(r#"[{ "event_type": "click", "element_name": "OK" }]"#);
    assert_eq!(
        draft_from_events("", &events),
        doc(r#"{
            "schema_version": 2,
            "name": "recorded-recipe",
            "description": "Recorded workflow",
            "app": null,
            "params": {},
            "steps": [{
                "id": 1,
                "action": "click",
                "target": { "query": "OK", "role": null, "identifier": null, "app": null },
                "note": "OK"
            }],
            "on_failure": "abort"
        }"#)
    );
    let empty = draft_with_name("t", "n".to_string(), &[]);
    assert_eq!(empty.get("steps").unwrap(), &Json::Array(vec![]));
    assert_eq!(empty.get("description").unwrap(), &Json::text("t"));
}

#[test]
fn each_kind_of_event_has_its_step() {
    let cases = [
        (
            r#"{ "event_type": "type", "key": "hi" }"#,
            r#"{ "id": 3, "action": "type", "target": null, "params": { "text": "hi" } }"#,
        ),
        (
            r#"{ "event_type": "type", "key": "" }"#,
            r#"{ "id": 3, "action": "type", "target": null, "params": { "text": "" } }"#,
        ),
        (
            r#"{ "event_type": "press", "key": "Return", "element_name": "F" }"#,
            r#"{ "id": 3, "action": "press", "params": { "key": "Return" } }"#,
        ),
        (
            r#"{ "event_type": "hotkey", "key": "cmd+s" }"#,
            r#"{ "id": 3, "action": "hotkey", "params": { "keys": "cmd+s" } }"#,
        ),
        (
            r#"{ "event_type": "scroll", "key": "up" }"#,
            r#"{ "id": 3, "action": "scroll", "params": { "direction": "up" } }"#,
        ),
        (
            r#"{ "event_type": "app_switch" }"#,
            r#"{ "id": 3, "action": "focus", "params": { "app": "" } }"#,
        ),
        (
            r#"{ "event_type": "drag", "element_id": "e1", "app_name": "Mail" }"#,
            r#"{ "id": 3, "action": "click", "note": null,
                 "target": { "query": null, "role": null, "identifier": "e1", "app": "Mail" } }"#,
        ),
        (
            r#"{ "event_type": 5 }"#,
            r#"{ "id": 3, "action": "click", "note": null, "target": null }"#,
        ),
        (
            r#""not an object""#,
            r#"{ "id": 3, "action": "click", "note": null, "target": null }"#,
        ),
    ];
    for (event, step) in cases {
        assert_eq!(step_from_event(3, &doc(event)), doc(step), "{event}");
    }
}

#[test]
fn draft_numbers_steps_and_takes_the_first_named_app() {
    let events = events(
        r#"[ {}, { "app_name": "" }, { "app_name": "Mail" }, { "app_name": "Notes" } ]"#,
    );
    let draft = draft_from_events("x", &events);
    assert_eq!(draft.get("app").unwrap(), &Json::text("Mail"));
    let steps = draft.get("steps").unwrap().as_array().unwrap();
    for (i, step) in steps.iter().enumerate() {
        assert_eq!(step.get("id").unwrap(), &Json::natural(i as u64 + 1));
    }
}

#[test]
fn a_draft_is_a_recipe_that_the_store_reads() {
    let events = events(
        r#"[
            { "event_type": "app_switch", "app_name": "Mail" },
            { "event_type": "type", "key": "hello", "element_role": "field" },
            { "event_type": "hotkey", "key": "cmd+s" },
            { "event_type": "click" }
        ]"#,
    );
    let text = draft_from_events("Write a mail", &events).to_text();
    let recipe: ghost_core::types::Recipe = serde_json::from_str(&text).unwrap();
    assert_eq!(recipe.name, "write-a-mail");
    assert_eq!(recipe.schema_version, 2);
    assert_eq!(recipe.app.as_deref(), Some("Mail"));
    assert_eq!(recipe.steps.len(), 4);
    assert_eq!(recipe.steps[1].params.as_ref().unwrap()["text"], "hello");
    assert_eq!(recipe.on_failure.as_deref(), Some("abort"));
}
