//! Recording sessions: what is reported of them.

use crate::draft::{draft_from_events, step_from_event};
use crate::error::Error;
use crate::json::{Json, JsonTree};
use crate::recording::{
    record_start, record_status, record_stop, stop_report, RecorderStarted, RecorderStatus,
    RecorderStopped,
};
use vstd::prelude::*;

verus! {

proof fn report_words()
    ensures
        "recording"@.len() == 9,
        "task"@.len() == 4 && "task"@[0] == 't',
        "started_at"@.len() == 10,
        "info"@.len() == 4 && "info"@[0] == 'i',
        "status"@.len() == 6 && "status"@[0] == 's',
        "events"@.len() == 6 && "events"@[0] == 'e',
        "draft"@.len() == 5 && "draft"@[0] == 'd',
        "steps"@.len() == 5 && "steps"@[0] == 's',
        "on_failure"@.len() == 10,
{
    reveal_strlit("recording");
    reveal_strlit("task");
    reveal_strlit("started_at");
    reveal_strlit("info");
    reveal_strlit("status");
    reveal_strlit("events");
    reveal_strlit("draft");
    reveal_strlit("steps");
    reveal_strlit("on_failure");
}

/// A session that started is reported as recording, with its task, its start and what the
/// recorder said, and nothing else. One that did not is reported by the recorder's failure.
pub proof fn start_is_reported(
    task: &str,
    started: Result<RecorderStarted, Error>,
    report: Result<Json, Error>,
)
    requires
        call_ensures(record_start, (task, started), report),
    ensures
        report is Ok <==> started is Ok,
        started is Err ==> report->Err_0@ == started->Err_0@,
        started is Ok ==> {
            let tree = report->Ok_0@;
            &&& tree.field("recording"@) == Some(JsonTree::Bool(true))
            &&& tree.field("task"@) == Some(JsonTree::Text(task@))
            &&& tree.field("started_at"@) == Some(JsonTree::Text(started->Ok_0.started_at@))
            &&& tree.field("info"@) == Some(started->Ok_0.info@)
            &&& tree is Object
            &&& tree->Object_0.dom() == set!["recording"@, "task"@, "started_at"@, "info"@]
        },
{
    report_words();
    if started is Ok {
        assert(report->Ok_0@->Object_0.dom() =~= set![
            "recording"@,
            "task"@,
            "started_at"@,
            "info"@,
        ]);
    }
}

/// The session that runs is reported as recording, with its task, its start and what the
/// recorder said, and nothing else. Where none runs, the report says only that. Where the
/// recorder cannot be asked, its failure is the report.
pub proof fn status_is_reported(
    status: Result<Option<RecorderStatus>, Error>,
    report: Result<Json, Error>,
)
    requires
        call_ensures(record_status, (status,), report),
    ensures
        report is Ok <==> status is Ok,
        status is Err ==> report->Err_0@ == status->Err_0@,
        status is Ok && status->Ok_0 is None ==> report->Ok_0@ == JsonTree::Object(
            map!["recording"@ => JsonTree::Bool(false)],
        ),
        status is Ok && status->Ok_0 is Some ==> {
            let tree = report->Ok_0@;
            let running = status->Ok_0->Some_0;
            &&& tree.field("recording"@) == Some(JsonTree::Bool(true))
            &&& tree.field("task"@) == Some(JsonTree::Text(running.task@))
            &&& tree.field("started_at"@) == Some(JsonTree::Text(running.started_at@))
            &&& tree.field("status"@) == Some(running.status@)
            &&& tree is Object
            &&& tree->Object_0.dom() == set!["recording"@, "task"@, "started_at"@, "status"@]
        },
{
    report_words();
    if status is Ok && status->Ok_0 is Some {
        assert(report->Ok_0@->Object_0.dom() =~= set![
            "recording"@,
            "task"@,
            "started_at"@,
            "status"@,
        ]);
    }
}

/// Stopping succeeds exactly where the recorder stopped, and hands on its failure otherwise.
pub proof fn stop_succeeds_with_the_recorder(
    stopped: Result<RecorderStopped, Error>,
    report: Result<Json, Error>,
)
    requires
        call_ensures(record_stop, (stopped,), report),
    ensures
        report is Ok <==> stopped is Ok,
        stopped is Err ==> report->Err_0@ == stopped->Err_0@,
{
}

/// The report on a stopped session is the recorder's payload laid over the session's task and
/// start and the word that nothing is being recorded, with a draft laid over all of it.
pub proof fn stop_flattens_the_payload(
    stopped: RecorderStopped,
    report: Result<Json, Error>,
    key: Seq<char>,
)
    requires
        call_ensures(record_stop, (Ok::<RecorderStopped, Error>(stopped),), report),
        key != "draft"@,
    ensures
        report is Ok,
        ({
            let told = stopped.payload@.field(key);
            let found = report->Ok_0@.field(key);
            &&& told is Some ==> found == told
            &&& told is None && key == "task"@ ==> found == Some(JsonTree::Text(stopped.task@))
            &&& told is None && key == "started_at"@ ==> found == Some(
                JsonTree::Text(stopped.started_at@),
            )
            &&& told is None && key == "recording"@ ==> found == Some(JsonTree::Bool(false))
            &&& told is None && key != "task"@ && key != "started_at"@ && key != "recording"@
                ==> found is None
        }),
{
    report_words();
}

/// The draft in the report has one step for each element of the payload's own array of events,
/// and each is the step which that element becomes with the number of its place, from one.
pub proof fn stop_drafts_every_event(
    stopped: RecorderStopped,
    report: Result<Json, Error>,
    i: int,
    id: u64,
    event: Json,
    step: Json,
)
    requires
        call_ensures(record_stop, (Ok::<RecorderStopped, Error>(stopped),), report),
        stopped.payload@.field("events"@) is Some,
        stopped.payload@.field("events"@)->Some_0 is Array,
        0 <= i < stopped.payload@.field("events"@)->Some_0->Array_0.len(),
        id == i + 1,
        event@ == stopped.payload@.field("events"@)->Some_0->Array_0[i],
        call_ensures(step_from_event, (id, &event), step),
    ensures
        report is Ok,
        report->Ok_0@.field("draft"@) is Some,
        ({
            let events = stopped.payload@.field("events"@)->Some_0->Array_0;
            let steps = report->Ok_0@.field("draft"@)->Some_0.field("steps"@);
            &&& steps is Some
            &&& steps->Some_0 is Array
            &&& steps->Some_0->Array_0.len() == events.len()
            &&& steps->Some_0->Array_0[i] == step@
        }),
{
    report_words();
}

/// The draft in the report has no steps where the payload holds no array of events.
pub proof fn stop_without_events_drafts_no_steps(
    stopped: RecorderStopped,
    report: Result<Json, Error>,
)
    requires
        call_ensures(record_stop, (Ok::<RecorderStopped, Error>(stopped),), report),
        !(stopped.payload@.field("events"@) matches Some(JsonTree::Array(events)) && events.len()
            > 0),
    ensures
        report is Ok,
        report->Ok_0@.field("draft"@) is Some,
        report->Ok_0@.field("draft"@)->Some_0.field("steps"@) == Some(
            JsonTree::Array(Seq::empty()),
        ),
{
    report_words();
    let steps = report->Ok_0@.field("draft"@)->Some_0.field("steps"@);
    assert(steps->Some_0->Array_0 =~= Seq::empty());
}

/// The draft in the report is the one that the session's task and the payload's own events
/// make, none where the payload holds no array of events.
pub proof fn stop_drafts_the_task(
    stopped: RecorderStopped,
    report: Result<Json, Error>,
    task: &str,
    events: &[Json],
    draft: Json,
)
    requires
        call_ensures(record_stop, (Ok::<RecorderStopped, Error>(stopped),), report),
        task@ == stopped.task@,
        match stopped.payload@.field("events"@) {
            Some(JsonTree::Array(items)) => events@.len() == items.len() && forall|i: int|
                0 <= i < items.len() ==> (#[trigger] events@[i])@ == items[i],
            _ => events@.len() == 0,
        },
        call_ensures(draft_from_events, (task, events), draft),
    ensures
        report is Ok,
        report->Ok_0@.field("draft"@) == Some(draft@),
{
    report_words();
    let members = crate::recording::flattened(
        stopped.task@,
        stopped.started_at@,
        stopped.payload@,
    );
    assert(crate::json::trees(events@) =~= crate::recording::events_of(members));
}

/// A report made with a given name differs from the one that the task gets in nothing but the
/// name of the draft.
pub proof fn stop_report_differs_only_in_name(
    stopped: RecorderStopped,
    own: Result<Json, Error>,
    name: String,
    named: Json,
    key: Seq<char>,
)
    requires
        call_ensures(record_stop, (Ok::<RecorderStopped, Error>(stopped),), own),
        call_ensures(stop_report, (stopped, name), named),
    ensures
        own is Ok,
        key != "draft"@ ==> named@.field(key) == own->Ok_0@.field(key),
        named@.field("draft"@) is Some,
        own->Ok_0@.field("draft"@) is Some,
        named@.field("draft"@)->Some_0.field("name"@) == Some(JsonTree::Text(name@)),
        key != "name"@ ==> named@.field("draft"@)->Some_0.field(key) == own->Ok_0@.field(
            "draft"@,
        )->Some_0.field(key),
{
    report_words();
    reveal_strlit("name");
    reveal_strlit("description");
    reveal_strlit("app");
    reveal_strlit("params");
    assert("name"@.len() == 4 && "description"@.len() == 11 && "app"@.len() == 3);
    assert("params"@.len() == 6);
}

} // verus!
