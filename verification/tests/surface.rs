use ryu_recipes::api::{
    delete_recipe, err, get_recipe, health, list_recipes, record_start, record_status,
    record_stop, record_task, run_params, run_recipe, save_recipe, save_recipe_reply,
    RecordStartBody, RunRecipeBody, SaveRecipeBody, SavedRecipe,
};
use ryu_recipes::{list, run, Error, Json, Recipe, RecipesCtx};

fn doc(text: &str) -> Json {
    Json::parse(text).unwrap()
}

fn recipe(name: &str) -> Recipe {
    Recipe {
        name: name.to_string(),
        description: format!("desc for {name}"),
        app: None,
        params: None,
        step_count: 0,
    }
}

#[test]
fn the_context_is_the_only_one() {
    assert_eq!(RecipesCtx::new(), RecipesCtx);
}

#[test]
fn list_recipes_returns_saved_rows() {
    let reply = list_recipes(Ok(list(vec![recipe("alpha")])));
    assert_eq!(reply.status, 200);
    let rows = reply.body.get("recipes").unwrap().as_array().unwrap();
    assert_eq!(rows.len(), 1);
    assert_eq!(rows[0].get("name").unwrap(), &Json::text("alpha"));
}

#[test]
fn list_recipes_writes_every_column() {
    let full = Recipe {
        app: Some("Mail".to_string()),
        params: Some(vec!["to".to_string(), "cc".to_string()]),
        step_count: 3,
        ..recipe("full")
    };
    let reply = list_recipes(Ok(list(vec![full, recipe("bare")])));
    assert_eq!(
        reply.body,
        doc(r#"{ "recipes": [
            { "name": "bare", "description": "desc for bare", "app": null,
              "params": [], "step_count": 0 },
            { "name": "full", "description": "desc for full", "app": "Mail",
              "params": ["cc", "to"], "step_count": 3 }
        ] }"#)
    );
    let reply = list_recipes(Err(Error::new("disk")));
    assert_eq!(reply.status, 500);
    assert_eq!(reply.body, doc(r#"{ "error": "disk" }"#));
}

#[test]
fn get_recipe_ok_and_not_found() {
    let reply = get_recipe(Ok(doc(r#"{ "name": "shown" }"#)));
    assert_eq!(reply.status, 200);
    assert_eq!(reply.body, doc(r#"{ "recipe": { "name": "shown" } }"#));

    let reply = get_recipe(Err(Error::new("Recipe 'absent' not found")));
    assert_eq!(reply.status, 404);
    assert!(reply.body.get("error").unwrap().as_str().unwrap().contains("absent"));
}

#[test]
fn save_recipe_accepts_object_body() {
    let document = r#"{"description":"d","name":"objsave","schema_version":2,"steps":[]}"#;
    let body = SaveRecipeBody {
        recipe: Some(doc(document)),
        recipe_json: None,
    };
    let text = save_recipe(body).unwrap();
    assert_eq!(text, document);

    let reply = save_recipe_reply(Ok(SavedRecipe {
        name: "objsave".to_string(),
        document: doc(document),
    }));
    assert_eq!(reply.status, 200);
    assert_eq!(reply.body.get("saved").unwrap(), &Json::Bool(true));
    assert_eq!(reply.body.get("name").unwrap(), &Json::text("objsave"));
    assert_eq!(reply.body.get("recipe").unwrap(), &doc(document));
}

#[test]
fn save_recipe_accepts_stringified_body() {
    let body = SaveRecipeBody {
        recipe: None,
        recipe_json: Some(" {\"name\": \"strsave\"} ".to_string()),
    };
    assert_eq!(save_recipe(body).unwrap(), " {\"name\": \"strsave\"} ");
}

#[test]
fn save_recipe_prefers_the_object() {
    let body = SaveRecipeBody {
        recipe: Some(doc(r#"{ "a": [1, 2.5, "x"] }"#)),
        recipe_json: Some("other".to_string()),
    };
    assert_eq!(save_recipe(body).unwrap(), r#"{"a":[1,2.5,"x"]}"#);
}

#[test]
fn save_recipe_rejects_empty_body() {
    let body = SaveRecipeBody {
        recipe: None,
        recipe_json: None,
    };
    let reply = save_recipe(body).unwrap_err();
    assert_eq!(reply.status, 400);
    assert_eq!(
        reply.body,
        doc(r#"{ "error": "provide `recipe` (object) or `recipe_json` (string)" }"#)
    );
}

#[test]
fn save_recipe_rejects_malformed_recipe() {
    let reply = save_recipe_reply(Err(Error::new("Invalid recipe JSON")));
    assert_eq!(reply.status, 400);
    assert_eq!(reply.body, doc(r#"{ "error": "Invalid recipe JSON" }"#));
}

#[test]
fn delete_recipe_ok_and_not_found() {
    let reply = delete_recipe("temp", Ok(()));
    assert_eq!(reply.status, 200);
    assert_eq!(reply.body, doc(r#"{ "deleted": true, "name": "temp" }"#));

    let reply = delete_recipe("temp", Err(Error::new("Recipe 'temp' not found")));
    assert_eq!(reply.status, 404);
    assert!(reply.body.get("error").unwrap().as_str().is_some());
}

#[test]
fn run_recipe_ok_and_default_params() {
    let params = run_params(Some(RunRecipeBody {
        params: doc(r#"{ "n": 1 }"#),
    }));
    assert_eq!(params, doc(r#"{ "n": 1 }"#));
    assert_eq!(run_params(None), Json::Null);
    assert_eq!(RunRecipeBody::default().params, Json::Null);

    let envelope = doc(r#"{ "content": [{ "type": "text", "text": "{\"done\":1}" }] }"#);
    let reply = run_recipe(run(Ok(envelope)));
    assert_eq!(reply.status, 200);
    assert_eq!(reply.body.get("result").unwrap(), &doc(r#"{ "done": 1 }"#));
}

#[test]
fn run_recipe_maps_host_error_to_500() {
    let reply = run_recipe(run(Err(Error::new("ghost down"))));
    assert_eq!(reply.status, 500);
    assert!(reply.body.get("error").unwrap().as_str().unwrap().contains("ghost down"));
}

#[test]
fn record_start_handler_ok_and_conflict() {
    let task = record_task(Some(RecordStartBody {
        task: "do it".to_string(),
    }));
    assert_eq!(task, "do it");
    assert_eq!(record_task(None), "");

    let report = doc(r#"{ "recording": true, "task": "do it" }"#);
    let reply = record_start(Ok(report.clone()));
    assert_eq!(reply.status, 200);
    assert_eq!(reply.body, report);

    let reply = record_start(Err(Error::new("already recording")));
    assert_eq!(reply.status, 409);
    assert_eq!(reply.body, doc(r#"{ "error": "already recording" }"#));
}

#[test]
fn record_status_handler_ok() {
    let reply = record_status(ryu_recipes::record_status(Ok(None)));
    assert_eq!(reply.status, 200);
    assert_eq!(reply.body.get("recording").unwrap(), &Json::Bool(false));
}

#[test]
fn record_status_handler_maps_error_to_500() {
    let reply = record_status(ryu_recipes::record_status(Err(Error::new("poll failed"))));
    assert_eq!(reply.status, 500);
    assert!(reply.body.get("error").unwrap().as_str().unwrap().contains("poll failed"));
}

#[test]
fn record_stop_handler_ok_and_bad_request() {
    let stopped = ryu_recipes::RecorderStopped {
        task: "t".to_string(),
        started_at: "t0".to_string(),
        payload: doc(r#"{ "recording": false, "events": [] }"#),
    };
    let reply = record_stop(ryu_recipes::record_stop(Ok(stopped)));
    assert_eq!(reply.status, 200);
    assert!(reply.body.get("draft").unwrap().as_object().is_some());

    let reply = record_stop(ryu_recipes::record_stop(Err(Error::new("no session"))));
    assert_eq!(reply.status, 400);
    assert!(reply.body.get("error").unwrap().as_str().unwrap().contains("no session"));
}

#[test]
fn health_reports_ok_and_recipe_count() {
    let reply = health(Ok(vec![]));
    assert_eq!(reply.status, 200);
    assert_eq!(reply.body.get("ok").unwrap(), &Json::Bool(true));
    assert_eq!(reply.body.get("recipeCount").unwrap(), &Json::natural(0));

    let reply = health(Ok(list(vec![recipe("a"), recipe("b")])));
    assert_eq!(reply.body.get("recipeCount").unwrap(), &Json::natural(2));

    let reply = health(Err(Error::new("disk")));
    assert_eq!(reply.status, 503);
    assert_eq!(reply.body, doc(r#"{ "ok": false, "error": "disk" }"#));
}

#[test]
fn a_failure_is_told_under_error() {
    let reply = err(418, &Error::new("why"));
    assert_eq!(reply.status, 418);
    assert_eq!(reply.body, doc(r#"{ "error": "why" }"#));
}
