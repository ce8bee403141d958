//! What each request is answered.

use crate::api::{
    delete_recipe, err, get_recipe, health, list_recipes, record_start, record_status, record_stop,
    record_task, run_params, run_recipe, save_recipe, save_recipe_reply, RecordStartBody, Reply,
    RunRecipeBody, SaveRecipeBody, SavedRecipe,
};
use crate::catalog::{summary_json, RecipeSummary};
use crate::error::Error;
use crate::json::{Json, JsonTree};
use vstd::prelude::*;

verus! {

/// A failure is answered with the status it is given and its message under `error`, and with
/// nothing else.
pub proof fn failure_is_answered_by_its_message(status: u16, error: Error, reply: Reply)
    requires
        call_ensures(err, (status, &error), reply),
    ensures
        reply.status == status,
        reply.body@ == JsonTree::Object(map!["error"@ => JsonTree::Text(error.message@)]),
{
}

/// The list of recipes is answered with every row, in order, as it is written by itself.
pub proof fn rows_are_answered_in_order(
    rows: Vec<RecipeSummary>,
    reply: Reply,
    i: int,
    row: RecipeSummary,
    document: Json,
)
    requires
        call_ensures(list_recipes, (Ok::<Vec<RecipeSummary>, Error>(rows),), reply),
        0 <= i < rows@.len(),
        row == rows@[i],
        call_ensures(summary_json, (&row,), document),
    ensures
        reply.status == 200,
        reply.body@.field("recipes"@) is Some,
        reply.body@.field("recipes"@)->Some_0 is Array,
        reply.body@.field("recipes"@)->Some_0->Array_0.len() == rows@.len(),
        reply.body@.field("recipes"@)->Some_0->Array_0[i] == document@,
{
}

/// The list of recipes is answered with as many documents as there are rows and with nothing
/// else, or, where there is no list, with the failure and status 500.
pub proof fn listing_is_answered(listed: Result<Vec<RecipeSummary>, Error>, reply: Reply)
    requires
        call_ensures(list_recipes, (listed,), reply),
    ensures
        listed is Ok ==> {
            &&& reply.status == 200
            &&& reply.body@ is Object
            &&& reply.body@->Object_0.dom() == set!["recipes"@]
            &&& reply.body@->Object_0["recipes"@] is Array
            &&& reply.body@->Object_0["recipes"@]->Array_0.len() == listed->Ok_0@.len()
        },
        listed is Err ==> reply.status == 500 && reply.body@ == JsonTree::Object(
            map!["error"@ => JsonTree::Text(listed->Err_0.message@)],
        ),
{
    if listed is Ok {
        assert(reply.body@->Object_0.dom() =~= set!["recipes"@]);
    }
}

/// A recipe that is found is answered under `recipe`; one that is not, with the failure and
/// status 404.
pub proof fn recipe_is_answered(found: Result<Json, Error>, reply: Reply)
    requires
        call_ensures(get_recipe, (found,), reply),
    ensures
        found is Ok ==> reply.status == 200 && reply.body@ == JsonTree::Object(
            map!["recipe"@ => found->Ok_0@],
        ),
        found is Err ==> reply.status == 404 && reply.body@ == JsonTree::Object(
            map!["error"@ => JsonTree::Text(found->Err_0.message@)],
        ),
{
}

/// The text to save is the compact text of the document that a request brings, else the text
/// that it brings. A request that brings neither is turned away with status 400, and no other.
pub proof fn request_to_save_brings_a_text(
    body: SaveRecipeBody,
    text: Result<String, Reply>,
    document: Json,
    printed: String,
)
    requires
        call_ensures(save_recipe, (body,), text),
        call_ensures(Json::to_text, (&document,), printed),
    ensures
        text is Err <==> body.recipe is None && body.recipe_json is None,
        body.recipe is Some && body.recipe->Some_0@ == document@ ==> text->Ok_0@ == printed@,
        body.recipe is None && body.recipe_json is Some ==> text->Ok_0@
            == body.recipe_json->Some_0@,
        text is Err ==> text->Err_0.status == 400 && text->Err_0.body@ == JsonTree::Object(
            map![
                "error"@ => JsonTree::Text(
                    "provide `recipe` (object) or `recipe_json` (string)"@,
                ),
            ],
        ),
{
}

/// A recipe that was saved is answered as saved, with its name and the document that was taken
/// in, and nothing else; one that was not, with the failure and status 400.
pub proof fn saved_recipe_is_answered(saved: Result<SavedRecipe, Error>, reply: Reply)
    requires
        call_ensures(save_recipe_reply, (saved,), reply),
    ensures
        saved is Ok ==> {
            &&& reply.status == 200
            &&& reply.body@.field("saved"@) == Some(JsonTree::Bool(true))
            &&& reply.body@.field("name"@) == Some(JsonTree::Text(saved->Ok_0.name@))
            &&& reply.body@.field("recipe"@) == Some(saved->Ok_0.document@)
            &&& reply.body@ is Object
            &&& reply.body@->Object_0.dom() == set!["saved"@, "name"@, "recipe"@]
        },
        saved is Err ==> reply.status == 400 && reply.body@ == JsonTree::Object(
            map!["error"@ => JsonTree::Text(saved->Err_0.message@)],
        ),
{
    reveal_strlit("saved");
    reveal_strlit("name");
    reveal_strlit("recipe");
    assert("saved"@.len() == 5 && "name"@.len() == 4 && "recipe"@.len() == 6);
    if saved is Ok {
        assert(reply.body@->Object_0.dom() =~= set!["saved"@, "name"@, "recipe"@]);
    }
}

/// A recipe that was removed is answered as deleted, under the name that was asked for, and
/// nothing else; one that was not, with the failure and status 404.
pub proof fn deleted_recipe_is_answered(name: &str, deleted: Result<(), Error>, reply: Reply)
    requires
        call_ensures(delete_recipe, (name, deleted), reply),
    ensures
        deleted is Ok ==> {
            &&& reply.status == 200
            &&& reply.body@.field("deleted"@) == Some(JsonTree::Bool(true))
            &&& reply.body@.field("name"@) == Some(JsonTree::Text(name@))
            &&& reply.body@ is Object
            &&& reply.body@->Object_0.dom() == set!["deleted"@, "name"@]
        },
        deleted is Err ==> reply.status == 404 && reply.body@ == JsonTree::Object(
            map!["error"@ => JsonTree::Text(deleted->Err_0.message@)],
        ),
{
    reveal_strlit("deleted");
    reveal_strlit("name");
    assert("deleted"@.len() == 7 && "name"@.len() == 4);
    if deleted is Ok {
        assert(reply.body@->Object_0.dom() =~= set!["deleted"@, "name"@]);
    }
}

/// A replay gets the parameters that the request brings, null where it brings no body, and its
/// whole outcome is answered under `result`, or the failure with status 500.
pub proof fn replay_is_answered(
    body: RunRecipeBody,
    params: Json,
    none: Json,
    replayed: Result<Json, Error>,
    reply: Reply,
)
    requires
        call_ensures(run_params, (Some(body),), params),
        call_ensures(run_params, (None::<RunRecipeBody>,), none),
        call_ensures(run_recipe, (replayed,), reply),
    ensures
        params@ == body.params@,
        none@ == JsonTree::Null,
        replayed is Ok ==> reply.status == 200 && reply.body@ == JsonTree::Object(
            map!["result"@ => replayed->Ok_0@],
        ),
        replayed is Err ==> reply.status == 500 && reply.body@ == JsonTree::Object(
            map!["error"@ => JsonTree::Text(replayed->Err_0.message@)],
        ),
{
}

/// A body that brings no parameters has null in their place.
pub proof fn missing_parameters_are_null(body: RunRecipeBody)
    requires
        call_ensures(<RunRecipeBody as Default>::default, (), body),
    ensures
        body.params@ == JsonTree::Null,
{
}

/// A recording is for the task that the request names, the empty one where it brings no body.
pub proof fn recording_is_for_the_task(body: RecordStartBody, task: String, none: String)
    requires
        call_ensures(record_task, (Some(body),), task),
        call_ensures(record_task, (None::<RecordStartBody>,), none),
    ensures
        task@ == body.task@,
        none@.len() == 0,
{
}

/// The report on a recording is answered as it is. Where there is none, the failure is: with
/// status 409 when a recording was to start, 500 when it was polled, 400 when it was to stop.
pub proof fn recording_is_answered(
    report: Result<Json, Error>,
    started: Reply,
    polled: Reply,
    stopped: Reply,
)
    requires
        call_ensures(record_start, (report,), started),
        call_ensures(record_status, (report,), polled),
        call_ensures(record_stop, (report,), stopped),
    ensures
        report is Ok ==> {
            &&& started.status == 200 && started.body@ == report->Ok_0@
            &&& polled.status == 200 && polled.body@ == report->Ok_0@
            &&& stopped.status == 200 && stopped.body@ == report->Ok_0@
        },
        report is Err ==> {
            let told = JsonTree::Object(
                map!["error"@ => JsonTree::Text(report->Err_0.message@)],
            );
            &&& started.status == 409 && started.body@ == told
            &&& polled.status == 500 && polled.body@ == told
            &&& stopped.status == 400 && stopped.body@ == told
        },
{
}

/// A probe is answered with how many recipes there are, and nothing of them, or, where they
/// cannot be listed, with the failure and status 503.
pub proof fn probe_is_answered(listed: Result<Vec<RecipeSummary>, Error>, reply: Reply)
    requires
        call_ensures(health, (listed,), reply),
    ensures
        reply.body@ is Object,
        listed is Ok ==> {
            &&& reply.status == 200
            &&& reply.body@.field("ok"@) == Some(JsonTree::Bool(true))
            &&& reply.body@.field("recipeCount"@) == Some(JsonTree::Natural(listed->Ok_0@.len()))
            &&& reply.body@->Object_0.dom() == set!["ok"@, "recipeCount"@]
        },
        listed is Err ==> {
            &&& reply.status == 503
            &&& reply.body@.field("ok"@) == Some(JsonTree::Bool(false))
            &&& reply.body@.field("error"@) == Some(JsonTree::Text(listed->Err_0.message@))
            &&& reply.body@->Object_0.dom() == set!["ok"@, "error"@]
        },
{
    reveal_strlit("ok");
    reveal_strlit("recipeCount");
    reveal_strlit("error");
    assert("ok"@.len() == 2 && "recipeCount"@.len() == 11 && "error"@.len() == 5);
    if listed is Ok {
        assert(reply.body@->Object_0.dom() =~= set!["ok"@, "recipeCount"@]);
    } else {
        assert(reply.body@->Object_0.dom() =~= set!["ok"@, "error"@]);
    }
}

} // verus!
