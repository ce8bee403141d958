//! Recording sessions: what is reported when one starts, runs and stops.

use crate::draft::draft_with_name;
use crate::error::Error;
use crate::json::{Json, JsonObject, JsonTree};
use crate::slug::slugify_task;
use vstd::prelude::*;

verus! {

/// What the recorder says when a session starts.
#[derive(Debug, Clone, PartialEq)]
pub struct RecorderStarted {
    pub started_at: String,
    pub info: Json,
}

/// What the recorder says of the session that runs.
#[derive(Debug, Clone, PartialEq)]
pub struct RecorderStatus {
    pub task: String,
    pub started_at: String,
    pub status: Json,
}

/// What the recorder says when a session stops.
#[derive(Debug, Clone, PartialEq)]
pub struct RecorderStopped {
    pub task: String,
    pub started_at: String,
    pub payload: Json,
}

/// The report on a session for `task` that has started.
pub open spec fn started_tree(task: Seq<char>, started: RecorderStarted) -> JsonTree {
    JsonTree::Object(
        map![
            "recording"@ => JsonTree::Bool(true),
            "task"@ => JsonTree::Text(task),
            "started_at"@ => JsonTree::Text(started.started_at@),
            "info"@ => started.info@,
        ],
    )
}

/// The report on the session that runs, if one does.
pub open spec fn status_tree(status: Option<RecorderStatus>) -> JsonTree {
    match status {
        None => JsonTree::Object(map!["recording"@ => JsonTree::Bool(false)]),
        Some(running) => JsonTree::Object(
            map![
                "recording"@ => JsonTree::Bool(true),
                "task"@ => JsonTree::Text(running.task@),
                "started_at"@ => JsonTree::Text(running.started_at@),
                "status"@ => running.status@,
            ],
        ),
    }
}

/// The session's own members, with those of the recorder's payload over them.
pub open spec fn flattened(task: Seq<char>, started_at: Seq<char>, payload: JsonTree) -> Map<
    Seq<char>,
    JsonTree,
> {
    let own = map![
        "task"@ => JsonTree::Text(task),
        "started_at"@ => JsonTree::Text(started_at),
        "recording"@ => JsonTree::Bool(false),
    ];
    match payload.members() {
        Some(members) => own.union_prefer_right(members),
        None => own,
    }
}

/// The captured events of a report: none where its `events` are no array.
pub open spec fn events_of(members: Map<Seq<char>, JsonTree>) -> Seq<JsonTree> {
    match JsonTree::Object(members).field("events"@) {
        Some(events) => match events.items() {
            Some(items) => items,
            None => Seq::empty(),
        },
        None => Seq::empty(),
    }
}

/// The report on a stopped session, with a draft named `name`.
pub open spec fn stopped_tree(stopped: RecorderStopped, name: Seq<char>) -> JsonTree {
    let members = flattened(stopped.task@, stopped.started_at@, stopped.payload@);
    JsonTree::Object(
        members.insert(
            "draft"@,
            crate::draft::draft_tree(stopped.task@, name, events_of(members)),
        ),
    )
}

/// Reports that a session for `task` has started, or why it could not.
pub fn record_start(task: &str, started: Result<RecorderStarted, Error>) -> (report: Result<
    Json,
    Error,
>)
    ensures
        match started {
            Ok(session) => report matches Ok(json) && json@ == started_tree(task@, session),
            Err(error) => report matches Err(e) && e@ == error@,
        },
{
    match started {
        Ok(session) => Ok(
            Json::Object(
                JsonObject::new().with("recording", Json::Bool(true)).with(
                    "task",
                    Json::text(task),
                ).with("started_at", Json::Text(session.started_at)).with("info", session.info),
            ),
        ),
        Err(error) => Err(error),
    }
}

/// Reports on the session that runs, that none does, or why that is not known.
pub fn record_status(status: Result<Option<RecorderStatus>, Error>) -> (report: Result<Json, Error>)
    ensures
        match status {
            Ok(session) => report matches Ok(json) && json@ == status_tree(session),
            Err(error) => report matches Err(e) && e@ == error@,
        },
{
    match status {
        Ok(None) => Ok(Json::Object(JsonObject::new().with("recording", Json::Bool(false)))),
        Ok(Some(running)) => Ok(
            Json::Object(
                JsonObject::new().with("recording", Json::Bool(true)).with(
                    "task",
                    Json::Text(running.task),
                ).with("started_at", Json::Text(running.started_at)).with(
                    "status",
                    running.status,
                ),
            ),
        ),
        Err(error) => Err(error),
    }
}

/// Reports on a stopped session, with a draft named `name` made from its events.
pub fn stop_report(stopped: RecorderStopped, name: String) -> (report: Json)
    ensures
        report@ == stopped_tree(stopped, name@),
{
    let mut out: JsonObject = JsonObject::new().with("task", Json::text(stopped.task.as_str())).with(
        "started_at",
        Json::text(stopped.started_at.as_str()),
    ).with("recording", Json::Bool(false));
    if let Some(members) = stopped.payload.as_object() {
        out.merge(members);
    }
    let none: Vec<Json> = Vec::new();
    let draft = {
        let events = match out.get("events") {
            Some(value) => match value.as_array() {
                Some(items) => items,
                None => &none,
            },
            None => &none,
        };
        proof {
            assert(crate::json::trees(none@) =~= Seq::empty());
            assert(crate::json::trees(events@) == events_of(out@));
        }
        draft_with_name(stopped.task.as_str(), name, events.as_slice())
    };
    out.insert("draft".to_string(), draft);
    Json::Object(out)
}

/// Reports on a stopped session: the session's task and start, everything the recorder
/// captured, and an editable draft; or why there is nothing to report.
pub fn record_stop(stopped: Result<RecorderStopped, Error>) -> (report: Result<Json, Error>)
    ensures
        match stopped {
            Ok(session) => report matches Ok(json) && json@ == stopped_tree(
                session,
                crate::slug::slug_of(crate::text::lowered(session.task@)),
            ),
            Err(error) => report matches Err(e) && e@ == error@,
        },
        stopped matches Ok(session) ==> crate::text::is_ascii_text(session.task@) ==> report is Ok
            && report->Ok_0@ == stopped_tree(
            session,
            crate::slug::slug_of(crate::text::ascii_lowered(session.task@)),
        ),
{
    match stopped {
        Ok(session) => {
            let name = slugify_task(session.task.as_str());
            Ok(stop_report(session, name))
        },
        Err(error) => Err(error),
    }
}

/// Whatever the recorder's payload holds stands unchanged in the report, but for a member
/// `draft`, which gives way to the draft.
pub proof fn stop_report_keeps_payload(
    stopped: RecorderStopped,
    name: Seq<char>,
    key: Seq<char>,
)
    requires
        stopped.payload@.field(key) is Some,
        key != "draft"@,
    ensures
        stopped_tree(stopped, name).field(key) == stopped.payload@.field(key),
{
}

/// The draft of a report is made from the session's task and the report's own events.
pub proof fn stop_report_has_draft(stopped: RecorderStopped, name: Seq<char>)
    ensures
        stopped_tree(stopped, name).field("draft"@) == Some(
            crate::draft::draft_tree(
                stopped.task@,
                name,
                events_of(stopped_tree(stopped, name)->Object_0),
            ),
        ),
{
    reveal_strlit("draft");
    reveal_strlit("events");
    assert("draft"@.len() == 5 && "events"@.len() == 6);
}

/// The session's task and start stand in the report unless the payload says otherwise, and
/// the report says that nothing is being recorded unless the payload says otherwise.
pub proof fn stop_report_has_session(stopped: RecorderStopped, name: Seq<char>)
    ensures
        stopped.payload@.field("task"@) is None ==> stopped_tree(stopped, name).field("task"@)
            == Some(JsonTree::Text(stopped.task@)),
        stopped.payload@.field("started_at"@) is None ==> stopped_tree(stopped, name).field(
            "started_at"@,
        ) == Some(JsonTree::Text(stopped.started_at@)),
        stopped.payload@.field("recording"@) is None ==> stopped_tree(stopped, name).field(
            "recording"@,
        ) == Some(JsonTree::Bool(false)),
{
    reveal_strlit("draft");
    reveal_strlit("task");
    reveal_strlit("started_at");
    reveal_strlit("recording");
    assert("draft"@.len() == 5 && "task"@.len() == 4);
    assert("started_at"@.len() == 10 && "recording"@.len() == 9);
}

} // verus!
