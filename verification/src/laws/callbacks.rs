//! Calls back into Core: what is sent and how the answers are read.

use crate::callback::{
    decoded, port_from, read_reply, token_from, CallbackRequest, CoreCallback, CoreReply,
};
use crate::error::Error;
use crate::json::{Json, JsonTree};
use crate::text::{numeral, parse_u16, trim};
use vstd::prelude::*;

verus! {

/// An answer is a success exactly where its status is from 200 to 299. It then comes to its
/// body, null where it has none. Every other answer is a failure: what the body says under
/// `error`, where that is a string, else one that names the status.
pub proof fn answer_is_read_by_status(
    reply: CoreReply,
    value: Result<Json, Error>,
    message: Seq<char>,
)
    requires
        call_ensures(CoreCallback::finish, (Ok::<CoreReply, Error>(reply),), value),
    ensures
        value is Ok <==> 200 <= reply.status <= 299,
        value is Ok ==> value->Ok_0@ == (match reply.body {
            Some(body) => body@,
            None => JsonTree::Null,
        }),
        value is Err && reply.body is Some && reply.body->Some_0@.field("error"@) == Some(
            JsonTree::Text(message),
        ) ==> value->Err_0@ == message,
        value is Err && !(reply.body is Some && reply.body->Some_0@.field("error"@) is Some
            && reply.body->Some_0@.field("error"@)->Some_0 is Text) ==> value->Err_0@
            == "core callback failed: HTTP "@ + crate::callback::status_line(reply.status),
{
}

/// The message of a failure that Core does not name starts with the status in decimal.
pub proof fn unnamed_failure_tells_the_status(
    reply: CoreReply,
    value: Result<Json, Error>,
    code: String,
)
    requires
        call_ensures(CoreCallback::finish, (Ok::<CoreReply, Error>(reply),), value),
        reply.status < 200 || 299 < reply.status,
        reply.body is None || reply.body->Some_0@.field("error"@) is None,
        call_ensures(numeral, (reply.status,), code),
    ensures
        value is Err,
        ("core callback failed: HTTP "@ + code@ + seq![' ']).is_prefix_of(value->Err_0@),
{
    assert("core callback failed: HTTP "@ + code@ + seq![' ']
        =~= crate::callback::failure_start(reply.status));
}

/// Given how a status reads, an answer is read in the same way.
pub proof fn answer_is_read_with_its_status_line(
    reply: CoreReply,
    line: &str,
    value: Result<Json, Error>,
    message: Seq<char>,
)
    requires
        call_ensures(read_reply, (reply, line), value),
    ensures
        value is Ok <==> 200 <= reply.status <= 299,
        value is Ok ==> value->Ok_0@ == (match reply.body {
            Some(body) => body@,
            None => JsonTree::Null,
        }),
        value is Err && reply.body is Some && reply.body->Some_0@.field("error"@) == Some(
            JsonTree::Text(message),
        ) ==> value->Err_0@ == message,
        value is Err && !(reply.body is Some && reply.body->Some_0@.field("error"@) is Some
            && reply.body->Some_0@.field("error"@)->Some_0 is Text) ==> value->Err_0@
            == "core callback failed: HTTP "@ + line@,
{
}

/// A call that was not answered is a failure which says that Core was not reached and why.
pub proof fn unanswered_call_fails(cause: Error, value: Result<Json, Error>)
    requires
        call_ensures(CoreCallback::finish, (Err::<CoreReply, Error>(cause),), value),
    ensures
        value is Err,
        value->Err_0@ == "core callback not reachable: "@ + cause@,
{
}

/// With a token, a call posts the body to the path below Core's base URL, with the token and
/// the identifier of the recipes app. Without one, nothing is sent.
pub proof fn call_carries_the_token(
    callback: CoreCallback,
    path: &str,
    body: Json,
    request: Result<CallbackRequest, Error>,
)
    requires
        call_ensures(CoreCallback::post, (&callback, path, body), request),
    ensures
        request is Ok <==> callback.ext_token is Some,
        request is Ok ==> {
            let call = request->Ok_0;
            &&& call.url@ == callback.core_base@ + path@
            &&& call.bearer@ == callback.ext_token->Some_0@
            &&& call.plugin_id@ == "com.ryu.recipes"@
            &&& call.body@ == body@
        },
        request is Err ==> request->Err_0@ == "no RYU_EXT_TOKEN configured for Core callback"@,
{
}

/// A call that replays a recipe names the recipe and its parameters; one that starts the
/// recorder names the task; those that poll and stop it carry nothing. Each goes to a path of
/// its own, and none is made without a token.
pub proof fn engine_is_called_on_its_paths(
    callback: CoreCallback,
    recipe: &str,
    params: Json,
    task: &str,
    run: Result<CallbackRequest, Error>,
    start: Result<CallbackRequest, Error>,
    status: Result<CallbackRequest, Error>,
    stop: Result<CallbackRequest, Error>,
)
    requires
        call_ensures(CoreCallback::call_ghost_run, (&callback, recipe, params), run),
        call_ensures(CoreCallback::recorder_start, (&callback, task), start),
        call_ensures(CoreCallback::recorder_status, (&callback,), status),
        call_ensures(CoreCallback::recorder_stop, (&callback,), stop),
    ensures
        run is Ok <==> callback.ext_token is Some,
        start is Ok <==> callback.ext_token is Some,
        status is Ok <==> callback.ext_token is Some,
        stop is Ok <==> callback.ext_token is Some,
        run is Ok ==> {
            let call = run->Ok_0;
            &&& call.url@ == callback.core_base@ + "/api/host/recipes/run"@
            &&& call.bearer@ == callback.ext_token->Some_0@
            &&& call.plugin_id@ == "com.ryu.recipes"@
            &&& call.body@.field("recipe"@) == Some(JsonTree::Text(recipe@))
            &&& call.body@.field("params"@) == Some(params@)
            &&& call.body@ is Object
            &&& call.body@->Object_0.dom() == set!["recipe"@, "params"@]
        },
        start is Ok ==> {
            let call = start->Ok_0;
            &&& call.url@ == callback.core_base@ + "/api/host/recipes/record-start"@
            &&& call.bearer@ == callback.ext_token->Some_0@
            &&& call.plugin_id@ == "com.ryu.recipes"@
            &&& call.body@ == JsonTree::Object(map!["task"@ => JsonTree::Text(task@)])
        },
        status is Ok ==> {
            let call = status->Ok_0;
            &&& call.url@ == callback.core_base@ + "/api/host/recipes/record-status"@
            &&& call.bearer@ == callback.ext_token->Some_0@
            &&& call.plugin_id@ == "com.ryu.recipes"@
            &&& call.body@ == JsonTree::Object(Map::empty())
        },
        stop is Ok ==> {
            let call = stop->Ok_0;
            &&& call.url@ == callback.core_base@ + "/api/host/recipes/record-stop"@
            &&& call.bearer@ == callback.ext_token->Some_0@
            &&& call.plugin_id@ == "com.ryu.recipes"@
            &&& call.body@ == JsonTree::Object(Map::empty())
        },
{
    reveal_strlit("recipe");
    reveal_strlit("params");
    assert("recipe"@[0] == 'r' && "params"@[0] == 'p');
    if run is Ok {
        assert(run->Ok_0.body@->Object_0.dom() =~= set!["recipe"@, "params"@]);
    }
}

/// A port setting names the port that its text spells between white space; where there is no
/// setting, or it spells none, the default stands.
pub proof fn port_is_what_the_setting_spells(
    setting: &str,
    default: u16,
    port: u16,
    unset: u16,
    kept: String,
    spelled: &str,
    number: Option<u16>,
)
    requires
        call_ensures(port_from, (Some(setting), default), port),
        call_ensures(port_from, (None::<&str>, default), unset),
        call_ensures(trim, (setting,), kept),
        spelled@ == kept@,
        call_ensures(parse_u16, (spelled,), number),
    ensures
        unset == default,
        number is Some ==> port == number->Some_0,
        number is None ==> port == default,
{
}

/// A token setting holds its text without the white space around it, and none where nothing is
/// left of it or there is no setting.
pub proof fn token_is_what_the_setting_holds(
    setting: &str,
    token: Option<String>,
    unset: Option<String>,
    kept: String,
)
    requires
        call_ensures(token_from, (Some(setting),), token),
        call_ensures(token_from, (None::<&str>,), unset),
        call_ensures(trim, (setting,), kept),
    ensures
        unset is None,
        token is Some <==> kept@.len() > 0,
        token is Some ==> token->Some_0@ == kept@,
{
}

/// Core is called on the loopback address, at the port that its setting names, or 7980, with
/// the token that the other setting holds.
pub proof fn callback_is_made_from_its_settings(
    core_port: Option<&str>,
    ext_token: Option<&str>,
    callback: CoreCallback,
    port: u16,
    code: String,
    token: Option<String>,
)
    requires
        call_ensures(CoreCallback::new, (core_port, ext_token), callback),
        call_ensures(port_from, (core_port, 7980u16), port),
        call_ensures(numeral, (port,), code),
        call_ensures(token_from, (ext_token,), token),
    ensures
        callback.core_base@ == "http://127.0.0.1:"@ + code@,
        callback.ext_token is Some <==> token is Some,
        token is Some ==> callback.ext_token->Some_0@ == token->Some_0@,
{
}

/// The ports and the identifiers that stand where nothing else is configured.
pub proof fn defaults_are_agreed_on()
    ensures
        crate::callback::DEFAULT_PORT == 7999,
        crate::callback::DEFAULT_CORE_PORT == 7980,
        crate::callback::RECIPES_PLUGIN_ID@ == "com.ryu.recipes"@,
        crate::callback::HDR_PLUGIN_ID@ == "x-ryu-plugin-id"@,
{
}

/// An answer that could be read is handed on as it is; one that could not is a failure which
/// says what was expected and why it was not that.
pub proof fn unreadable_answer_is_told<T>(
    kind: &str,
    answer: T,
    read: Result<T, Error>,
    cause: Error,
    unread: Result<T, Error>,
)
    requires
        call_ensures(decoded::<T>, (kind, Ok::<T, Error>(answer)), read),
        call_ensures(decoded::<T>, (kind, Err::<T, Error>(cause)), unread),
    ensures
        read == Ok::<T, Error>(answer),
        unread is Err,
        unread->Err_0@ == "malformed "@ + kind@ + " from Core: "@ + cause@,
{
}

} // verus!
