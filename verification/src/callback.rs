//! Calls back into Core, which runs the live engine: where they go, what they carry and what
//! the answers come to.

use crate::error::Error;
use crate::json::{Json, JsonObject, JsonTree};
use crate::text::{numeral, parse_u16, trim};
use vstd::prelude::*;

verus! {

/// The port that the recipes surface listens on where none is configured.
pub const DEFAULT_PORT: u16 = 7999;

/// The port that Core listens on where none is configured.
pub const DEFAULT_CORE_PORT: u16 = 7980;

/// The identifier of the recipes app.
pub const RECIPES_PLUGIN_ID: &'static str = "com.ryu.recipes";

/// The header that carries the identifier of the calling app.
pub const HDR_PLUGIN_ID: &'static str = "x-ryu-plugin-id";

/// The port that a setting names, or `default` where it names none.
pub open spec fn port_or(setting: Option<Seq<char>>, default: u16) -> u16 {
    match setting {
        Some(text) => match crate::text::read_u16(crate::text::trimmed_text(text)) {
            Some(port) => port,
            None => default,
        },
        None => default,
    }
}

/// The token that a setting holds, if it holds more than white space.
pub open spec fn token_in(setting: Option<Seq<char>>) -> Option<Seq<char>> {
    match setting {
        Some(text) => if crate::text::trimmed_text(text).len() > 0 {
            Some(crate::text::trimmed_text(text))
        } else {
            None
        },
        None => None,
    }
}

/// Reads a port setting.
pub fn port_from(setting: Option<&str>, default: u16) -> (port: u16)
    ensures
        port == port_or(crate::text::str_view(setting), default),
{
    match setting {
        Some(text) => match parse_u16(trim(text).as_str()) {
            Some(port) => port,
            None => default,
        },
        None => default,
    }
}

/// Reads a token setting.
pub fn token_from(setting: Option<&str>) -> (token: Option<String>)
    ensures
        crate::text::string_view(token) == token_in(crate::text::str_view(setting)),
{
    match setting {
        Some(text) => {
            let token = trim(text);
            if token.as_str().is_empty() {
                None
            } else {
                Some(token)
            }
        },
        None => None,
    }
}

/// The way back into Core.
#[derive(Debug, PartialEq, Eq)]
pub struct CoreCallback {
    /// Core's loopback base URL.
    pub core_base: String,
    /// The bearer presented on every call; without one no call is made.
    pub ext_token: Option<String>,
}

/// A call to make: a POST of `body` to `url` with a bearer and the plugin's identifier.
#[derive(Debug, PartialEq)]
pub struct CallbackRequest {
    pub url: String,
    pub bearer: String,
    pub plugin_id: String,
    pub body: Json,
}

/// Core's answer: its status, and its body where that is a document.
#[derive(Debug, PartialEq)]
pub struct CoreReply {
    pub status: u16,
    pub body: Option<Json>,
}

/// What the request posts to `path` for a callback with this base and token.
pub open spec fn is_request(
    request: CallbackRequest,
    callback: CoreCallback,
    path: Seq<char>,
    body: JsonTree,
) -> bool {
    &&& callback.ext_token matches Some(token)
    &&& request.bearer@ == token@
    &&& request.url@ == callback.core_base@ + path
    &&& request.plugin_id@ == RECIPES_PLUGIN_ID@
    &&& request.body@ == body
}

/// What posting to `path` comes to before it is sent: a request, or a failure where there is
/// no token.
pub open spec fn posts(
    request: Result<CallbackRequest, Error>,
    callback: CoreCallback,
    path: Seq<char>,
    body: JsonTree,
) -> bool {
    match request {
        Ok(call) => is_request(call, callback, path, body),
        Err(error) => callback.ext_token is None && error@
            == "no RYU_EXT_TOKEN configured for Core callback"@,
    }
}

/// What `reqwest::StatusCode` displays as.
pub uninterp spec fn status_line(code: u16) -> Seq<char>;

/// `reqwest::StatusCode::from_u16` and its `to_string`: the code in decimal, a space, and a
/// phrase that depends on the code alone and is not spelled out.
#[verifier::external_body]
fn status_text(code: u16) -> (text: String)
    requires
        100 <= code < 1000,
    ensures
        text@ == status_line(code),
        crate::text::decimal(code as nat).push(' ').is_prefix_of(text@),
{
    reqwest::StatusCode::from_u16(code).unwrap().to_string()
}

/// Whether a status says that the call was carried out.
pub open spec fn is_success(status: u16) -> bool {
    200 <= status < 300
}

/// The body of an answer, null where it has none.
pub open spec fn body_tree(reply: CoreReply) -> JsonTree {
    match reply.body {
        Some(json) => json@,
        None => JsonTree::Null,
    }
}

/// What Core says in its answer when a call fails, if it says something.
pub open spec fn core_error(body: JsonTree) -> Option<Seq<char>> {
    match body.field("error"@) {
        Some(error) => error.text(),
        None => None,
    }
}

/// How the message of a failure that Core does not name starts: with the status in decimal.
pub open spec fn failure_start(status: u16) -> Seq<char> {
    "core callback failed: HTTP "@ + crate::text::decimal(status as nat).push(' ')
}

/// What an answer comes to, given how its status reads.
pub open spec fn reply_outcome(reply: CoreReply, line: Seq<char>) -> Result<JsonTree, Seq<char>> {
    if is_success(reply.status) {
        Ok(body_tree(reply))
    } else {
        match core_error(body_tree(reply)) {
            Some(message) => Err(message),
            None => Err("core callback failed: HTTP "@ + line),
        }
    }
}

/// What a call comes to, given the answer or why there was none.
pub open spec fn call_outcome(sent: Result<CoreReply, Error>) -> Result<JsonTree, Seq<char>> {
    match sent {
        Ok(reply) => reply_outcome(reply, status_line(reply.status)),
        Err(error) => Err("core callback not reachable: "@ + error@),
    }
}

/// Reads an answer of Core, given how its status reads: its body where the status says
/// success, else the failure that Core named, else one that names the status.
pub fn read_reply(reply: CoreReply, line: &str) -> (value: Result<Json, Error>)
    ensures
        crate::error::outcome(value) == reply_outcome(reply, line@),
{
    let body = match reply.body {
        Some(json) => json,
        None => Json::Null,
    };
    if 200 <= reply.status && reply.status < 300 {
        return Ok(body);
    }
    let named = match body.get("error") {
        Some(error) => error.as_str(),
        None => None,
    };
    match named {
        Some(message) => Err(Error::new(message)),
        None => Err(
            Error { message: "core callback failed: HTTP ".to_string().concat(line) },
        ),
    }
}

impl CoreCallback {
    /// The callback that the settings for Core's port and the token describe.
    pub fn new(core_port: Option<&str>, ext_token: Option<&str>) -> (callback: Self)
        ensures
            callback.core_base@ == "http://127.0.0.1:"@ + crate::text::decimal(
                port_or(crate::text::str_view(core_port), DEFAULT_CORE_PORT) as nat,
            ),
            crate::text::string_view(callback.ext_token) == token_in(
                crate::text::str_view(ext_token),
            ),
    {
        let port: u16 = port_from(core_port, DEFAULT_CORE_PORT);
        CoreCallback {
            core_base: "http://127.0.0.1:".to_string().concat(numeral(port).as_str()),
            ext_token: token_from(ext_token),
        }
    }

    /// The call that posts `body` to `path`. Without a token nothing is sent.
    pub fn post(&self, path: &str, body: Json) -> (request: Result<CallbackRequest, Error>)
        ensures
            posts(request, *self, path@, body@),
    {
        match &self.ext_token {
            Some(token) => Ok(
                CallbackRequest {
                    url: self.core_base.clone().concat(path),
                    bearer: token.clone(),
                    plugin_id: RECIPES_PLUGIN_ID.to_string(),
                    body,
                },
            ),
            None => Err(Error::new("no RYU_EXT_TOKEN configured for Core callback")),
        }
    }

    /// What a call comes to, given the answer or why there was none. A failure that Core does
    /// not name is told with the status in decimal and its reason phrase.
    pub fn finish(sent: Result<CoreReply, Error>) -> (value: Result<Json, Error>)
        requires
            sent matches Ok(reply) ==> 100 <= reply.status < 1000,
        ensures
            crate::error::outcome(value) == call_outcome(sent),
            sent matches Ok(reply) ==> !is_success(reply.status) && core_error(
                body_tree(reply),
            ) is None ==> value is Err && failure_start(reply.status).is_prefix_of(value->Err_0@),
    {
        match sent {
            Ok(reply) => {
                let line = status_text(reply.status);
                read_reply(reply, line.as_str())
            },
            Err(error) => Err(Error::wrap("core callback not reachable: ", &error)),
        }
    }

    /// The call that replays a recipe.
    pub fn call_ghost_run(&self, recipe: &str, params: Json) -> (request: Result<
        CallbackRequest,
        Error,
    >)
        ensures
            posts(
                request,
                *self,
                "/api/host/recipes/run"@,
                JsonTree::Object(
                    map!["recipe"@ => JsonTree::Text(recipe@), "params"@ => params@],
                ),
            ),
    {
        self.post(
            "/api/host/recipes/run",
            Json::Object(
                JsonObject::new().with("recipe", Json::text(recipe)).with("params", params),
            ),
        )
    }

    /// The call that starts the recorder.
    pub fn recorder_start(&self, task: &str) -> (request: Result<CallbackRequest, Error>)
        ensures
            posts(
                request,
                *self,
                "/api/host/recipes/record-start"@,
                JsonTree::Object(map!["task"@ => JsonTree::Text(task@)]),
            ),
    {
        self.post(
            "/api/host/recipes/record-start",
            Json::Object(JsonObject::new().with("task", Json::text(task))),
        )
    }

    /// The call that polls the recorder.
    pub fn recorder_status(&self) -> (request: Result<CallbackRequest, Error>)
        ensures
            posts(
                request,
                *self,
                "/api/host/recipes/record-status"@,
                JsonTree::Object(Map::empty()),
            ),
    {
        self.post("/api/host/recipes/record-status", Json::Object(JsonObject::new()))
    }

    /// The call that stops the recorder.
    pub fn recorder_stop(&self) -> (request: Result<CallbackRequest, Error>)
        ensures
            posts(
                request,
                *self,
                "/api/host/recipes/record-stop"@,
                JsonTree::Object(Map::empty()),
            ),
    {
        self.post("/api/host/recipes/record-stop", Json::Object(JsonObject::new()))
    }
}

/// Says which answer of Core could not be read, where one could not.
pub fn decoded<T>(kind: &str, read: Result<T, Error>) -> (value: Result<T, Error>)
    ensures
        match read {
            Ok(answer) => value == Ok::<T, Error>(answer),
            Err(error) => value matches Err(e) && e@ == "malformed "@ + kind@ + " from Core: "@
                + error@,
        },
{
    match read {
        Ok(answer) => Ok(answer),
        Err(error) => Err(
            Error {
                message: "malformed ".to_string().concat(kind).concat(" from Core: ").concat(
                    error.message.as_str(),
                ),
            },
        ),
    }
}

/// Without a token no call is made.
pub proof fn callback_is_fail_closed(
    request: Result<CallbackRequest, Error>,
    callback: CoreCallback,
    path: Seq<char>,
    body: JsonTree,
)
    requires
        posts(request, callback, path, body),
        callback.ext_token is None,
    ensures
        request is Err,
{
}

/// Whether a text is nothing but white space.
pub open spec fn is_blank(text: Seq<char>) -> bool {
    forall|i: int| 0 <= i < text.len() ==> crate::text::white_space(#[trigger] text[i])
}

/// A setting that spells a port in decimal, with any white space around it, names that port.
pub proof fn port_setting_reads_back(left: Seq<char>, port: u16, right: Seq<char>, default: u16)
    requires
        is_blank(left),
        is_blank(right),
    ensures
        port_or(Some(left + crate::text::decimal(port as nat) + right), default) == port,
{
    let numeral = crate::text::decimal(port as nat);
    crate::text::numeral_round_trip(port);
    crate::text::decimal_reads_back(port as nat);
    assert(crate::text::is_digit(numeral[0]));
    assert(crate::text::is_digit(numeral[numeral.len() - 1]));
    crate::text::trimmed_takes_padding(
        left,
        numeral,
        right,
        |c: char| crate::text::white_space(c),
    );
}

/// A token setting is read without the white space around it, and a blank one holds none.
pub proof fn token_setting_reads_back(left: Seq<char>, token: Seq<char>, right: Seq<char>)
    requires
        is_blank(left),
        is_blank(right),
        token.len() > 0 ==> !crate::text::white_space(token[0]) && !crate::text::white_space(
            token.last(),
        ),
    ensures
        token_in(Some(left + token + right)) == if token.len() > 0 {
            Some(token)
        } else {
            None
        },
{
    let drop = |c: char| crate::text::white_space(c);
    let setting = left + token + right;
    if token.len() > 0 {
        crate::text::trimmed_takes_padding(left, token, right, drop);
    } else {
        assert(setting =~= left + right);
        let (from, to) = crate::text::trimmed_keeps_middle(setting, drop);
        assert(crate::text::trimmed_text(setting) =~= setting.subrange(from, to));
        if from < to {
            assert(drop(setting[from]));
        }
    }
}

} // verus!
