//! The HTTP surface for recipes: what each request asks for and what it is answered.

use crate::catalog::{summary_json, RecipeSummary};
use crate::error::Error;
use crate::json::{Json, JsonObject, JsonTree};
use vstd::prelude::*;

verus! {

/// Router state for the recipes surface. Empty: no request carries state of its own.
#[derive(Clone, Copy, Debug, Default, PartialEq, Eq)]
pub struct RecipesCtx;

impl RecipesCtx {
    pub fn new() -> (ctx: Self)
        ensures
            ctx == RecipesCtx,
    {
        RecipesCtx
    }
}

/// An answer: its status and its body.
#[derive(Debug, PartialEq)]
pub struct Reply {
    pub status: u16,
    pub body: Json,
}

impl View for Reply {
    type V = (u16, JsonTree);

    open spec fn view(&self) -> (u16, JsonTree) {
        (self.status, self.body@)
    }
}

/// Body of a request to save a recipe: the document itself, or its text.
#[derive(Debug, PartialEq)]
pub struct SaveRecipeBody {
    /// The recipe document.
    pub recipe: Option<Json>,
    /// The same document as text. Read only where `recipe` is not given.
    pub recipe_json: Option<String>,
}

/// Body of a request to replay a recipe: values for its `{{placeholder}}` slots.
#[derive(Debug, PartialEq)]
pub struct RunRecipeBody {
    pub params: Json,
}

impl Default for RunRecipeBody {
    fn default() -> (body: Self)
        ensures
            body.params@ == JsonTree::Null,
    {
        RunRecipeBody { params: Json::Null }
    }
}

/// Body of a request to start recording: the task being demonstrated.
#[derive(Debug, PartialEq, Eq)]
pub struct RecordStartBody {
    pub task: String,
}

/// A recipe that the store has taken in.
#[derive(Debug, PartialEq)]
pub struct SavedRecipe {
    pub name: String,
    pub document: Json,
}

/// The body that tells of a failure.
pub open spec fn error_tree(message: Seq<char>) -> JsonTree {
    JsonTree::Object(map!["error"@ => JsonTree::Text(message)])
}

/// The answer to a request that came to `outcome`: its value with status 200, or its message
/// with the status `failure`.
pub open spec fn answered(outcome: Result<JsonTree, Seq<char>>, failure: u16) -> (u16, JsonTree) {
    match outcome {
        Ok(body) => (200u16, body),
        Err(message) => (failure, error_tree(message)),
    }
}

/// A document with one member.
pub open spec fn single(key: Seq<char>, value: JsonTree) -> JsonTree {
    JsonTree::Object(map![key => value])
}

/// The answer that tells of a failure.
pub fn err(status: u16, error: &Error) -> (reply: Reply)
    ensures
        reply@ == (status, error_tree(error@)),
{
    Reply {
        status,
        body: Json::Object(JsonObject::new().with("error", Json::text(error.message.as_str()))),
    }
}

fn ok(body: Json) -> (reply: Reply)
    ensures
        reply@ == (200u16, body@),
{
    Reply { status: 200, body }
}

/// The documents of a listing.
pub open spec fn summary_trees(rows: Seq<RecipeSummary>) -> Seq<JsonTree> {
    rows.map_values(|row: RecipeSummary| crate::catalog::summary_tree(row))
}

/// Answers a request for the list of recipes.
pub fn list_recipes(listed: Result<Vec<RecipeSummary>, Error>) -> (reply: Reply)
    ensures
        reply@ == answered(
            match listed {
                Ok(rows) => Ok(single("recipes"@, JsonTree::Array(summary_trees(rows@)))),
                Err(error) => Err(error@),
            },
            500,
        ),
{
    match listed {
        Ok(rows) => {
            let mut items: Vec<Json> = Vec::new();
            let mut i: usize = 0;
            while i < rows.len()
                invariant
                    i <= rows@.len(),
                    items@.len() == i,
                    forall|k: int|
                        0 <= k < i ==> #[trigger] items@[k]@ == crate::catalog::summary_tree(
                            rows@[k],
                        ),
                decreases rows@.len() - i,
            {
                items.push(summary_json(&rows[i]));
                i = i + 1;
            }
            proof {
                crate::json::array_tree(items);
                assert(crate::json::trees(items@) =~= summary_trees(rows@));
            }
            ok(Json::Object(JsonObject::new().with("recipes", Json::Array(items))))
        },
        Err(error) => err(500, &error),
    }
}

/// Answers a request for one recipe.
pub fn get_recipe(found: Result<Json, Error>) -> (reply: Reply)
    ensures
        reply@ == answered(
            match found {
                Ok(document) => Ok(single("recipe"@, document@)),
                Err(error) => Err(error@),
            },
            404,
        ),
{
    match found {
        Ok(document) => ok(Json::Object(JsonObject::new().with("recipe", document))),
        Err(error) => err(404, &error),
    }
}

/// The text of the recipe to save, or what a request that brings none is answered.
pub open spec fn text_to_save(body: SaveRecipeBody) -> Result<Seq<char>, (u16, JsonTree)> {
    match (body.recipe, body.recipe_json) {
        (Some(document), _) => Ok(crate::json::codec::printed(document@)),
        (None, Some(text)) => Ok(text@),
        (None, None) => Err(
            (400u16, error_tree("provide `recipe` (object) or `recipe_json` (string)"@)),
        ),
    }
}

/// Takes the text of the recipe out of a request to save one. A request that brings neither
/// the document nor its text is turned away.
pub fn save_recipe(body: SaveRecipeBody) -> (text: Result<String, Reply>)
    ensures
        match text {
            Ok(s) => text_to_save(body) == Ok::<Seq<char>, (u16, JsonTree)>(s@),
            Err(reply) => text_to_save(body) == Err::<Seq<char>, (u16, JsonTree)>(reply@),
        },
        body.recipe matches Some(document) ==> crate::json::codec::reads_back(document@)
            ==> text is Ok && crate::json::codec::parsed(text->Ok_0@) == Some(document@),
{
    match (body.recipe, body.recipe_json) {
        (Some(document), _) => Ok(document.to_text()),
        (None, Some(text)) => Ok(text),
        (None, None) => Err(
            err(400, &Error::new("provide `recipe` (object) or `recipe_json` (string)")),
        ),
    }
}

/// The body that tells of a saved recipe.
pub open spec fn saved_tree(saved: SavedRecipe) -> JsonTree {
    JsonTree::Object(
        map![
            "saved"@ => JsonTree::Bool(true),
            "name"@ => JsonTree::Text(saved.name@),
            "recipe"@ => saved.document@,
        ],
    )
}

/// Answers a request to save a recipe, given what the store made of it.
pub fn save_recipe_reply(saved: Result<SavedRecipe, Error>) -> (reply: Reply)
    ensures
        reply@ == answered(
            match saved {
                Ok(recipe) => Ok(saved_tree(recipe)),
                Err(error) => Err(error@),
            },
            400,
        ),
{
    match saved {
        Ok(recipe) => ok(
            Json::Object(
                JsonObject::new().with("saved", Json::Bool(true)).with(
                    "name",
                    Json::Text(recipe.name),
                ).with("recipe", recipe.document),
            ),
        ),
        Err(error) => err(400, &error),
    }
}

/// Answers a request to remove a recipe.
pub fn delete_recipe(name: &str, deleted: Result<(), Error>) -> (reply: Reply)
    ensures
        reply@ == answered(
            match deleted {
                Ok(_) => Ok(
                    JsonTree::Object(
                        map!["deleted"@ => JsonTree::Bool(true), "name"@ => JsonTree::Text(name@)],
                    ),
                ),
                Err(error) => Err(error@),
            },
            404,
        ),
{
    match deleted {
        Ok(_) => ok(
            Json::Object(
                JsonObject::new().with("deleted", Json::Bool(true)).with("name", Json::text(name)),
            ),
        ),
        Err(error) => err(404, &error),
    }
}

/// The parameters that a request to replay a recipe brings, null where it brings none.
pub fn run_params(body: Option<RunRecipeBody>) -> (params: Json)
    ensures
        params@ == match body {
            Some(run) => run.params@,
            None => JsonTree::Null,
        },
{
    match body {
        Some(run) => run.params,
        None => Json::Null,
    }
}

/// Answers a request to replay a recipe, given what the replay came to.
pub fn run_recipe(replayed: Result<Json, Error>) -> (reply: Reply)
    ensures
        reply@ == answered(
            match replayed {
                Ok(result) => Ok(single("result"@, result@)),
                Err(error) => Err(error@),
            },
            500,
        ),
{
    match replayed {
        Ok(result) => ok(Json::Object(JsonObject::new().with("result", result))),
        Err(error) => err(500, &error),
    }
}

/// The task that a request to start recording names, empty where it names none.
pub fn record_task(body: Option<RecordStartBody>) -> (task: String)
    ensures
        task@ == match body {
            Some(start) => start.task@,
            None => Seq::empty(),
        },
{
    match body {
        Some(start) => start.task,
        None => String::new(),
    }
}

/// Answers a request to start recording.
pub fn record_start(report: Result<Json, Error>) -> (reply: Reply)
    ensures
        reply@ == answered(crate::error::outcome(report), 409),
{
    match report {
        Ok(body) => ok(body),
        Err(error) => err(409, &error),
    }
}

/// Answers a request to poll the recording.
pub fn record_status(report: Result<Json, Error>) -> (reply: Reply)
    ensures
        reply@ == answered(crate::error::outcome(report), 500),
{
    match report {
        Ok(body) => ok(body),
        Err(error) => err(500, &error),
    }
}

/// Answers a request to stop recording.
pub fn record_stop(report: Result<Json, Error>) -> (reply: Reply)
    ensures
        reply@ == answered(crate::error::outcome(report), 400),
{
    match report {
        Ok(body) => ok(body),
        Err(error) => err(400, &error),
    }
}

/// Answers a health probe: whether the store can be listed, and how many recipes it holds.
pub fn health(listed: Result<Vec<RecipeSummary>, Error>) -> (reply: Reply)
    ensures
        reply@ == match listed {
            Ok(rows) => (
                200u16,
                JsonTree::Object(
                    map![
                        "ok"@ => JsonTree::Bool(true),
                        "recipeCount"@ => JsonTree::Natural(rows@.len()),
                    ],
                ),
            ),
            Err(error) => (
                503u16,
                JsonTree::Object(
                    map!["ok"@ => JsonTree::Bool(false), "error"@ => JsonTree::Text(error@)],
                ),
            ),
        },
{
    match listed {
        Ok(rows) => ok(
            Json::Object(
                JsonObject::new().with("ok", Json::Bool(true)).with(
                    "recipeCount",
                    Json::natural(rows.len() as u64),
                ),
            ),
        ),
        Err(error) => Reply {
            status: 503,
            body: Json::Object(
                JsonObject::new().with("ok", Json::Bool(false)).with(
                    "error",
                    Json::text(error.message.as_str()),
                ),
            ),
        },
    }
}

/// A request is answered with status 200 exactly where it came to something, and a failure
/// is told under `error`, word for word.
pub proof fn failure_is_told(outcome: Result<JsonTree, Seq<char>>, failure: u16)
    requires
        failure != 200,
    ensures
        answered(outcome, failure).0 == 200 <==> outcome is Ok,
        outcome matches Err(message) ==> answered(outcome, failure).1.field("error"@) == Some(
            JsonTree::Text(message),
        ),
{
}

} // verus!
