//! Replaying a recipe: reading what the engine answers.

use crate::error::Error;
use crate::json::{Json, JsonTree};
use vstd::prelude::*;

verus! {

/// The text of the first content item of a tool reply.
pub open spec fn envelope_text(envelope: JsonTree) -> Option<Seq<char>> {
    match envelope.field("content"@) {
        Some(content) => match content.element(0) {
            Some(first) => match first.field("text"@) {
                Some(text) => text.text(),
                None => None,
            },
            None => None,
        },
        None => None,
    }
}

/// Whether a tool reply says that the tool failed.
pub open spec fn envelope_failed(envelope: JsonTree) -> bool {
    match envelope.field("isError"@) {
        Some(flag) => flag.truth() == Some(true),
        None => false,
    }
}

/// What a text stands for, given the document it spells: that document, or the text itself.
pub open spec fn payload(text: Seq<char>, document: Option<JsonTree>) -> JsonTree {
    match document {
        Some(tree) => tree,
        None => JsonTree::Text(text),
    }
}

/// What a tool reply comes to.
pub open spec fn extracted(envelope: JsonTree) -> Result<JsonTree, Seq<char>> {
    let text = envelope_text(envelope);
    if envelope_failed(envelope) {
        match text {
            Some(message) => Err(message),
            None => Err("tool error"@),
        }
    } else {
        match text {
            Some(chars) => Ok(payload(chars, crate::json::codec::parsed(chars))),
            None => Ok(envelope),
        }
    }
}

/// What the engine's answer to a replay comes to.
pub open spec fn replayed(reply: Result<JsonTree, Seq<char>>) -> Result<JsonTree, Seq<char>> {
    match reply {
        Ok(envelope) => extracted(envelope),
        Err(message) => Err("recipe replay failed: "@ + message),
    }
}

fn text_in(envelope: &Json) -> (text: Option<&str>)
    ensures
        text is Some <==> envelope_text(envelope@) is Some,
        text matches Some(s) ==> envelope_text(envelope@) == Some(s@),
{
    match envelope.get("content") {
        Some(content) => match content.at(0) {
            Some(first) => match first.get("text") {
                Some(text) => text.as_str(),
                None => None,
            },
            None => None,
        },
        None => None,
    }
}

/// The document that a text spells, or the text itself where it spells none.
pub fn payload_or_text(text: &str, document: Option<Json>) -> (value: Json)
    ensures
        value@ == payload(
            text@,
            match document {
                Some(json) => Some(json@),
                None => None,
            },
        ),
{
    match document {
        Some(json) => json,
        None => Json::text(text),
    }
}

/// Unwraps a tool reply: the document in the text of its first content item, that text
/// where it is no document, the reply itself where it has no text, and a failure where the
/// reply says that the tool failed.
pub fn extract_mcp_json(result: &Json) -> (value: Result<Json, Error>)
    ensures
        crate::error::outcome(value) == extracted(result@),
{
    let text = text_in(result);
    let failed = match result.get("isError") {
        Some(flag) => match flag.as_bool() {
            Some(b) => b,
            None => false,
        },
        None => false,
    };
    if failed {
        return Err(
            Error::new(
                match text {
                    Some(message) => message,
                    None => "tool error",
                },
            ),
        );
    }
    match text {
        Some(t) => Ok(payload_or_text(t, Json::parse(t))),
        None => Ok(result.clone()),
    }
}

/// What a replay comes to, given the engine's answer: the unwrapped reply, or a failure
/// that says that the replay failed and why.
pub fn run(reply: Result<Json, Error>) -> (value: Result<Json, Error>)
    ensures
        crate::error::outcome(value) == replayed(crate::error::outcome(reply)),
{
    match reply {
        Ok(envelope) => extract_mcp_json(&envelope),
        Err(error) => Err(Error::wrap("recipe replay failed: ", &error)),
    }
}

/// A tool reply is a failure exactly where it says that the tool failed.
pub proof fn reply_fails_iff_flagged(envelope: JsonTree)
    ensures
        extracted(envelope) is Err <==> envelope_failed(envelope),
{
}

/// A replay succeeds exactly where the engine answered and did not flag its reply.
pub proof fn replay_succeeds_iff_answered(reply: Result<JsonTree, Seq<char>>)
    ensures
        replayed(reply) is Ok <==> (reply is Ok && !envelope_failed(reply->Ok_0)),
{
}

/// The reply of a tool that hands out `text`.
pub open spec fn enveloped(text: Seq<char>) -> JsonTree {
    let item = JsonTree::Object(
        map!["type"@ => JsonTree::Text("text"@), "text"@ => JsonTree::Text(text)],
    );
    JsonTree::Object(map!["content"@ => JsonTree::Array(seq![item])])
}

/// Unwrapping undoes wrapping: a reply that is not flagged and whose text is the compact text
/// of a value comes to that value, whatever its kind. The value is one that reads back from
/// its text: without fractions, without an object that starts with the raw key, and no deeper
/// than the parser goes.
pub proof fn unwrapping_undoes_wrapping(value: Json, text: String)
    requires
        call_ensures(Json::to_text, (&value,), text),
        crate::json::codec::reads_back(value@),
    ensures
        extracted(enveloped(text@)) == Ok::<JsonTree, Seq<char>>(value@),
        forall|envelope: JsonTree|
            !envelope_failed(envelope) && envelope_text(envelope) == Some(text@)
                ==> #[trigger] extracted(envelope) == Ok::<JsonTree, Seq<char>>(value@),
{
    reveal_strlit("content");
    reveal_strlit("isError");
    assert("content"@[0] == 'c' && "isError"@[0] == 'i');
    assert(envelope_text(enveloped(text@)) == Some(text@));
}

/// A reply without text that is not flagged comes back as it is.
pub proof fn textless_reply_is_kept(envelope: JsonTree)
    requires
        !envelope_failed(envelope),
        envelope_text(envelope) is None,
    ensures
        extracted(envelope) == Ok::<JsonTree, Seq<char>>(envelope),
{
}

} // verus!
