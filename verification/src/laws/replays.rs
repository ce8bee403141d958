//! Replays: what a tool reply comes to.

use crate::error::Error;
use crate::json::{Json, JsonTree};
use crate::replay::{extract_mcp_json, payload_or_text, run};
use vstd::prelude::*;

verus! {

/// A reply that says with a true `isError` that the tool failed is a failure, told by the text
/// of its first content item, or as a tool error where it has none. No other reply fails.
pub proof fn flagged_reply_fails(
    reply: Json,
    value: Result<Json, Error>,
    content: Seq<JsonTree>,
    message: Seq<char>,
)
    requires
        call_ensures(extract_mcp_json, (&reply,), value),
    ensures
        value is Err <==> reply@.field("isError"@) == Some(JsonTree::Bool(true)),
        value is Err && reply@.field("content"@) == Some(JsonTree::Array(content)) && content.len()
            > 0 && content[0].field("text"@) == Some(JsonTree::Text(message)) ==> value->Err_0@
            == message,
        value is Err && !(reply@.field("content"@) matches Some(JsonTree::Array(items))
            && items.len() > 0 && items[0].field("text"@) is Some
            && items[0].field("text"@)->Some_0 is Text) ==> value->Err_0@ == "tool error"@,
{
}

/// A reply that is not flagged comes to the whole document which the text of its first content
/// item spells, to that text where it spells none, and to the reply itself where there is no
/// such text.
pub proof fn unflagged_reply_is_unwrapped(
    reply: Json,
    value: Result<Json, Error>,
    content: Seq<JsonTree>,
    text: Seq<char>,
)
    requires
        call_ensures(extract_mcp_json, (&reply,), value),
        reply@.field("isError"@) != Some(JsonTree::Bool(true)),
    ensures
        value is Ok,
        reply@.field("content"@) == Some(JsonTree::Array(content)) && content.len() > 0
            && content[0].field("text"@) == Some(JsonTree::Text(text)) ==> value->Ok_0@ == (
        match crate::json::codec::parsed(text) {
            Some(document) => document,
            None => JsonTree::Text(text),
        }),
        !(reply@.field("content"@) matches Some(JsonTree::Array(items)) && items.len() > 0
            && items[0].field("text"@) is Some && items[0].field("text"@)->Some_0 is Text)
            ==> value->Ok_0@ == reply@,
{
}

/// A replay that the engine answered comes to exactly what unwrapping its reply comes to: the
/// same value, or the same failure. A replay that it did not answer is a failure which says so
/// and why.
pub proof fn replay_is_the_unwrapped_reply(
    reply: Json,
    unwrapped: Result<Json, Error>,
    replayed: Result<Json, Error>,
    cause: Error,
    failed: Result<Json, Error>,
)
    requires
        call_ensures(extract_mcp_json, (&reply,), unwrapped),
        call_ensures(run, (Ok::<Json, Error>(reply),), replayed),
        call_ensures(run, (Err::<Json, Error>(cause),), failed),
    ensures
        replayed is Ok <==> unwrapped is Ok,
        unwrapped is Ok ==> replayed->Ok_0@ == unwrapped->Ok_0@,
        unwrapped is Err ==> replayed->Err_0@ == unwrapped->Err_0@,
        failed is Err,
        failed->Err_0@ == "recipe replay failed: "@ + cause@,
{
}

/// A replay whose reply wraps the compact text of a value comes to that very value, whatever
/// members it has, and so does unwrapping the reply. The value is one that reads back from its
/// text.
pub proof fn replay_gives_the_wrapped_value(
    value: Json,
    text: String,
    reply: Json,
    content: Seq<JsonTree>,
    unwrapped: Result<Json, Error>,
    replayed: Result<Json, Error>,
)
    requires
        call_ensures(Json::to_text, (&value,), text),
        crate::json::codec::reads_back(value@),
        reply@.field("isError"@) != Some(JsonTree::Bool(true)),
        reply@.field("content"@) == Some(JsonTree::Array(content)),
        content.len() > 0,
        content[0].field("text"@) == Some(JsonTree::Text(text@)),
        call_ensures(extract_mcp_json, (&reply,), unwrapped),
        call_ensures(run, (Ok::<Json, Error>(reply),), replayed),
    ensures
        unwrapped is Ok,
        unwrapped->Ok_0@ == value@,
        replayed is Ok,
        replayed->Ok_0@ == value@,
{
}

/// What a text spells is taken where it spells something, else the text itself.
pub proof fn payload_is_document_or_text(text: &str, document: Json, read: Json, kept: Json)
    requires
        call_ensures(payload_or_text, (text, Some(document)), read),
        call_ensures(payload_or_text, (text, None::<Json>), kept),
    ensures
        read@ == document@,
        kept@ == JsonTree::Text(text@),
{
}

} // verus!
