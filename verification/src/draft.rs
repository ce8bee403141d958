//! Editable recipe drafts made from captured actions.

use crate::json::{Json, JsonObject, JsonTree};
use crate::slug::slugify_task;
use crate::text::same_text;
use vstd::prelude::*;

verus! {

/// The string member `key` of an event, where there is one and it is not empty.
pub open spec fn str_field(event: JsonTree, key: Seq<char>) -> Option<Seq<char>> {
    match event.field(key) {
        Some(value) => match value.text() {
            Some(text) => if text.len() > 0 {
                Some(text)
            } else {
                None
            },
            None => None,
        },
        None => None,
    }
}

/// The kind of an event: its `event_type`, where that is a string.
pub open spec fn event_kind(event: JsonTree) -> Option<Seq<char>> {
    match event.field("event_type"@) {
        Some(value) => value.text(),
        None => None,
    }
}

/// A text, or the empty text where there is none.
pub open spec fn or_empty(text: Option<Seq<char>>) -> Seq<char> {
    match text {
        Some(chars) => chars,
        None => Seq::empty(),
    }
}

/// Where an event happened: its element's name, role and identifier and its app, or null
/// where none of them is known.
pub open spec fn target_tree(event: JsonTree) -> JsonTree {
    let name = str_field(event, "element_name"@);
    let role = str_field(event, "element_role"@);
    let id = str_field(event, "element_id"@);
    let app = str_field(event, "app_name"@);
    if name is Some || role is Some || id is Some || app is Some {
        JsonTree::Object(
            map![
                "query"@ => crate::json::text_or_null(name),
                "role"@ => crate::json::text_or_null(role),
                "identifier"@ => crate::json::text_or_null(id),
                "app"@ => crate::json::text_or_null(app),
            ],
        )
    } else {
        JsonTree::Null
    }
}

/// The members of a step with one string parameter and no target.
pub open spec fn plain_step(
    id: nat,
    action: Seq<char>,
    param: Seq<char>,
    value: Seq<char>,
) -> JsonTree {
    JsonTree::Object(
        map![
            "id"@ => JsonTree::Natural(id),
            "action"@ => JsonTree::Text(action),
            "params"@ => JsonTree::Object(map![param => JsonTree::Text(value)]),
        ],
    )
}

/// The step that replays an event.
pub open spec fn step_tree(id: nat, event: JsonTree) -> JsonTree {
    let kind = event_kind(event);
    let key = or_empty(str_field(event, "key"@));
    if kind == Some("type"@) {
        JsonTree::Object(
            map![
                "id"@ => JsonTree::Natural(id),
                "action"@ => JsonTree::Text("type"@),
                "target"@ => target_tree(event),
                "params"@ => JsonTree::Object(map!["text"@ => JsonTree::Text(key)]),
            ],
        )
    } else if kind == Some("press"@) {
        plain_step(id, "press"@, "key"@, key)
    } else if kind == Some("hotkey"@) {
        plain_step(id, "hotkey"@, "keys"@, key)
    } else if kind == Some("scroll"@) {
        plain_step(
            id,
            "scroll"@,
            "direction"@,
            if key.len() == 0 {
                "down"@
            } else {
                key
            },
        )
    } else if kind == Some("app_switch"@) {
        plain_step(id, "focus"@, "app"@, or_empty(str_field(event, "app_name"@)))
    } else {
        JsonTree::Object(
            map![
                "id"@ => JsonTree::Natural(id),
                "action"@ => JsonTree::Text("click"@),
                "target"@ => target_tree(event),
                "note"@ => crate::json::text_or_null(str_field(event, "element_name"@)),
            ],
        )
    }
}

/// One step for each event, numbered from one.
pub open spec fn steps_tree(events: Seq<JsonTree>) -> Seq<JsonTree> {
    events.map(|i: int, event: JsonTree| step_tree((i + 1) as nat, event))
}

/// The app of the first event that names one.
pub open spec fn first_app(events: Seq<JsonTree>) -> Option<Seq<char>>
    decreases events.len(),
{
    if events.len() == 0 {
        None
    } else if str_field(events[0], "app_name"@) is Some {
        str_field(events[0], "app_name"@)
    } else {
        first_app(events.drop_first())
    }
}

/// What a draft says of itself: the task, or a stock phrase where the task is empty.
pub open spec fn description_of(task: Seq<char>) -> Seq<char> {
    if task.len() == 0 {
        "Recorded workflow"@
    } else {
        task
    }
}

/// The draft named `name` for `task` and `events`.
pub open spec fn draft_tree(task: Seq<char>, name: Seq<char>, events: Seq<JsonTree>) -> JsonTree {
    JsonTree::Object(
        map![
            "schema_version"@ => JsonTree::Natural(2),
            "name"@ => JsonTree::Text(name),
            "description"@ => JsonTree::Text(description_of(task)),
            "app"@ => crate::json::text_or_null(first_app(events)),
            "params"@ => JsonTree::Object(Map::empty()),
            "steps"@ => JsonTree::Array(steps_tree(events)),
            "on_failure"@ => JsonTree::Text("abort"@),
        ],
    )
}

fn read_field(event: &Json, key: &str) -> (found: Option<String>)
    ensures
        crate::text::string_view(found) == str_field(event@, key@),
{
    match event.get(key) {
        Some(value) => match value.as_str() {
            Some(text) => if text.is_empty() {
                None
            } else {
                Some(text.to_string())
            },
            None => None,
        },
        None => None,
    }
}

fn read_or_empty(event: &Json, key: &str) -> (text: String)
    ensures
        text@ == or_empty(str_field(event@, key@)),
{
    match read_field(event, key) {
        Some(s) => s,
        None => String::new(),
    }
}

fn is_kind(event: &Json, kind: &str) -> (same: bool)
    ensures
        same == (event_kind(event@) == Some(kind@)),
{
    match event.get("event_type") {
        Some(value) => match value.as_str() {
            Some(text) => same_text(text, kind),
            None => false,
        },
        None => false,
    }
}

fn target_of(event: &Json) -> (target: Json)
    ensures
        target@ == target_tree(event@),
{
    let name = read_field(event, "element_name");
    let role = read_field(event, "element_role");
    let id = read_field(event, "element_id");
    let app = read_field(event, "app_name");
    if name.is_some() || role.is_some() || id.is_some() || app.is_some() {
        Json::Object(
            JsonObject::new().with("query", Json::text_or_null(&name)).with(
                "role",
                Json::text_or_null(&role),
            ).with("identifier", Json::text_or_null(&id)).with("app", Json::text_or_null(&app)),
        )
    } else {
        Json::Null
    }
}

fn plain(id: u64, action: &str, param: &str, value: String) -> (step: Json)
    ensures
        step@ == plain_step(id as nat, action@, param@, value@),
{
    Json::Object(
        JsonObject::new().with("id", Json::natural(id)).with("action", Json::text(action)).with(
            "params",
            Json::Object(JsonObject::new().with(param, Json::Text(value))),
        ),
    )
}

/// Makes the step that replays an event.
pub fn step_from_event(id: u64, event: &Json) -> (step: Json)
    ensures
        step@ == step_tree(id as nat, event@),
{
    let key = read_or_empty(event, "key");
    if is_kind(event, "type") {
        Json::Object(
            JsonObject::new().with("id", Json::natural(id)).with("action", Json::text("type")).with(
                "target",
                target_of(event),
            ).with("params", Json::Object(JsonObject::new().with("text", Json::Text(key)))),
        )
    } else if is_kind(event, "press") {
        plain(id, "press", "key", key)
    } else if is_kind(event, "hotkey") {
        plain(id, "hotkey", "keys", key)
    } else if is_kind(event, "scroll") {
        let direction = if key.as_str().is_empty() {
            "down".to_string()
        } else {
            key
        };
        plain(id, "scroll", "direction", direction)
    } else if is_kind(event, "app_switch") {
        plain(id, "focus", "app", read_or_empty(event, "app_name"))
    } else {
        let name = read_field(event, "element_name");
        Json::Object(
            JsonObject::new().with("id", Json::natural(id)).with(
                "action",
                Json::text("click"),
            ).with("target", target_of(event)).with("note", Json::text_or_null(&name)),
        )
    }
}

fn app_of_first(events: &[Json]) -> (app: Option<String>)
    ensures
        crate::text::string_view(app) == first_app(crate::json::trees(events@)),
{
    let ghost all = crate::json::trees(events@);
    let mut i: usize = 0;
    assert(all.skip(0) =~= all);
    while i < events.len()
        invariant
            i <= events@.len(),
            all == crate::json::trees(events@),
            first_app(all) == first_app(all.skip(i as int)),
        decreases events@.len() - i,
    {
        let app = read_field(&events[i], "app_name");
        assert(all.skip(i as int)[0] == events@[i as int]@);
        if app.is_some() {
            return app;
        }
        assert(all.skip(i as int).drop_first() =~= all.skip(i + 1));
        i = i + 1;
    }
    None
}

/// Builds the draft named `name`: one step for each event, numbered from one.
pub fn draft_with_name(task: &str, name: String, events: &[Json]) -> (draft: Json)
    ensures
        draft@ == draft_tree(task@, name@, crate::json::trees(events@)),
{
    let ghost all = crate::json::trees(events@);
    let mut steps: Vec<Json> = Vec::new();
    let mut i: usize = 0;
    while i < events.len()
        invariant
            i <= events@.len(),
            all == crate::json::trees(events@),
            steps@.len() == i,
            forall|k: int| 0 <= k < i ==> #[trigger] steps@[k]@ == steps_tree(all)[k],
        decreases events@.len() - i,
    {
        let step = step_from_event(i as u64 + 1, &events[i]);
        steps.push(step);
        i = i + 1;
    }
    proof {
        crate::json::array_tree(steps);
        assert(crate::json::trees(steps@) =~= steps_tree(all));
    }
    let app = app_of_first(events);
    let description = if task.is_empty() {
        "Recorded workflow"
    } else {
        task
    };
    Json::Object(
        JsonObject::new().with("schema_version", Json::natural(2)).with(
            "name",
            Json::Text(name),
        ).with("description", Json::text(description)).with("app", Json::text_or_null(&app)).with(
            "params",
            Json::Object(JsonObject::new()),
        ).with("steps", Json::Array(steps)).with("on_failure", Json::text("abort")),
    )
}

/// Builds an editable recipe draft from a captured action sequence.
pub fn draft_from_events(task: &str, events: &[Json]) -> (draft: Json)
    ensures
        draft@ == draft_tree(
            task@,
            crate::slug::slug_of(crate::text::lowered(task@)),
            crate::json::trees(events@),
        ),
        crate::text::is_ascii_text(task@) ==> draft@ == draft_tree(
            task@,
            crate::slug::slug_of(crate::text::ascii_lowered(task@)),
            crate::json::trees(events@),
        ),
        draft@.field("name"@) matches Some(JsonTree::Text(name)) && crate::slug::is_slug(name),
{
    let name = slugify_task(task);
    proof {
        draft_keys_differ();
    }
    draft_with_name(task, name, events)
}

/// The action that replays an event of a given kind.
pub open spec fn action_of(kind: Option<Seq<char>>) -> Seq<char> {
    if kind == Some("type"@) {
        "type"@
    } else if kind == Some("press"@) {
        "press"@
    } else if kind == Some("hotkey"@) {
        "hotkey"@
    } else if kind == Some("scroll"@) {
        "scroll"@
    } else if kind == Some("app_switch"@) {
        "focus"@
    } else {
        "click"@
    }
}

proof fn step_keys_differ()
    ensures
        "id"@ != "action"@,
        "id"@ != "target"@,
        "id"@ != "params"@,
        "id"@ != "note"@,
        "action"@ != "target"@,
        "action"@ != "params"@,
        "action"@ != "note"@,
        "target"@ != "params"@,
        "target"@ != "note"@,
{
    reveal_strlit("id");
    reveal_strlit("action");
    reveal_strlit("target");
    reveal_strlit("params");
    reveal_strlit("note");
    assert("id"@.len() == 2 && "note"@.len() == 4);
    assert("action"@.len() == 6 && "target"@.len() == 6 && "params"@.len() == 6);
    assert("action"@[0] == 'a' && "target"@[0] == 't' && "params"@[0] == 'p');
}

/// A step carries its number and the action that replays its event.
pub proof fn step_number_and_action(id: nat, event: JsonTree)
    ensures
        step_tree(id, event).field("id"@) == Some(JsonTree::Natural(id)),
        step_tree(id, event).field("action"@) == Some(
            JsonTree::Text(action_of(event_kind(event))),
        ),
{
    step_keys_differ();
}

/// A step that clicks or types is aimed by the event's context; no other step has a target.
pub proof fn step_target(id: nat, event: JsonTree)
    ensures
        ({
            let action = action_of(event_kind(event));
            step_tree(id, event).field("target"@) == if action == "click"@ || action == "type"@ {
                Some(target_tree(event))
            } else {
                None
            }
        }),
{
    step_keys_differ();
    actions_differ();
}

/// The parameter `name` of a step.
pub open spec fn param_of(step: JsonTree, name: Seq<char>) -> Option<JsonTree> {
    match step.field("params"@) {
        Some(params) => params.field(name),
        None => None,
    }
}

/// A step that types or presses carries the key of its event, so does a step that scrolls,
/// which goes down without one, and a step that focuses carries the event's app.
pub proof fn step_carries_param(id: nat, event: JsonTree)
    ensures
        ({
            let kind = event_kind(event);
            let key = or_empty(str_field(event, "key"@));
            let step = step_tree(id, event);
            let direction = if key.len() == 0 {
                "down"@
            } else {
                key
            };
            let app = or_empty(str_field(event, "app_name"@));
            &&& kind == Some("type"@) ==> param_of(step, "text"@) == Some(JsonTree::Text(key))
            &&& kind == Some("press"@) ==> param_of(step, "key"@) == Some(JsonTree::Text(key))
            &&& kind == Some("hotkey"@) ==> param_of(step, "keys"@) == Some(JsonTree::Text(key))
            &&& kind == Some("scroll"@) ==> param_of(step, "direction"@) == Some(
                JsonTree::Text(direction),
            )
            &&& kind == Some("app_switch"@) ==> param_of(step, "app"@) == Some(
                JsonTree::Text(app),
            )
        }),
{
    kinds_differ();
}

proof fn kinds_differ()
    ensures
        "press"@ != "type"@,
        "hotkey"@ != "type"@,
        "hotkey"@ != "press"@,
        "scroll"@ != "type"@,
        "scroll"@ != "press"@,
        "scroll"@ != "hotkey"@,
        "app_switch"@ != "type"@,
        "app_switch"@ != "press"@,
        "app_switch"@ != "hotkey"@,
        "app_switch"@ != "scroll"@,
{
    reveal_strlit("type");
    reveal_strlit("press");
    reveal_strlit("hotkey");
    reveal_strlit("scroll");
    reveal_strlit("app_switch");
    assert("type"@.len() == 4 && "press"@.len() == 5 && "app_switch"@.len() == 10);
    assert("hotkey"@.len() == 6 && "scroll"@.len() == 6);
    assert("hotkey"@[0] == 'h' && "scroll"@[0] == 's');
}

proof fn actions_differ()
    ensures
        "type"@ != "press"@,
        "type"@ != "hotkey"@,
        "type"@ != "scroll"@,
        "type"@ != "focus"@,
        "click"@ != "press"@,
        "click"@ != "hotkey"@,
        "click"@ != "scroll"@,
        "click"@ != "focus"@,
{
    reveal_strlit("type");
    reveal_strlit("press");
    reveal_strlit("hotkey");
    reveal_strlit("scroll");
    reveal_strlit("focus");
    reveal_strlit("click");
    assert("type"@.len() == 4);
    assert("press"@.len() == 5 && "focus"@.len() == 5 && "click"@.len() == 5);
    assert("hotkey"@.len() == 6 && "scroll"@.len() == 6);
    assert("press"@[0] == 'p' && "focus"@[0] == 'f' && "click"@[0] == 'c');
}

proof fn draft_keys_differ()
    ensures
        "name"@ != "description"@,
        "name"@ != "app"@,
        "name"@ != "params"@,
        "name"@ != "steps"@,
        "name"@ != "on_failure"@,
        "steps"@ != "on_failure"@,
        "app"@ != "params"@,
        "app"@ != "steps"@,
        "app"@ != "on_failure"@,
{
    reveal_strlit("name");
    reveal_strlit("description");
    reveal_strlit("app");
    reveal_strlit("params");
    reveal_strlit("steps");
    reveal_strlit("on_failure");
    assert("name"@.len() == 4 && "description"@.len() == 11 && "app"@.len() == 3);
    assert("params"@.len() == 6 && "steps"@.len() == 5 && "on_failure"@.len() == 10);
}

/// A draft has one step for each event, in the order of the events, numbered from one.
pub proof fn draft_has_step_per_event(task: Seq<char>, name: Seq<char>, events: Seq<JsonTree>)
    ensures
        draft_tree(task, name, events).field("steps"@) == Some(
            JsonTree::Array(steps_tree(events)),
        ),
        steps_tree(events).len() == events.len(),
        forall|i: int|
            0 <= i < events.len() ==> (#[trigger] steps_tree(events)[i]).field("id"@) == Some(
                JsonTree::Natural((i + 1) as nat),
            ) && steps_tree(events)[i].field("action"@) == Some(
                JsonTree::Text(action_of(event_kind(events[i]))),
            ),
{
    draft_keys_differ();
    assert forall|i: int| 0 <= i < events.len() implies (#[trigger] steps_tree(events)[i]).field(
        "id"@,
    ) == Some(JsonTree::Natural((i + 1) as nat)) && steps_tree(events)[i].field("action"@) == Some(
        JsonTree::Text(action_of(event_kind(events[i]))),
    ) by {
        step_number_and_action((i + 1) as nat, events[i]);
    }
}

/// A draft's app is that of the earliest event that names one, and null where none does.
pub proof fn draft_app_is_first_named(
    task: Seq<char>,
    name: Seq<char>,
    events: Seq<JsonTree>,
    i: int,
)
    requires
        0 <= i <= events.len(),
        forall|k: int| 0 <= k < i ==> str_field(#[trigger] events[k], "app_name"@) is None,
        i < events.len() ==> str_field(events[i], "app_name"@) is Some,
    ensures
        draft_tree(task, name, events).field("app"@) == Some(
            crate::json::text_or_null(
                if i < events.len() {
                    str_field(events[i], "app_name"@)
                } else {
                    None
                },
            ),
        ),
{
    draft_keys_differ();
    first_app_skips(events, i);
}

proof fn first_app_skips(events: Seq<JsonTree>, i: int)
    requires
        0 <= i <= events.len(),
        forall|k: int| 0 <= k < i ==> str_field(#[trigger] events[k], "app_name"@) is None,
        i < events.len() ==> str_field(events[i], "app_name"@) is Some,
    ensures
        first_app(events) == if i < events.len() {
            str_field(events[i], "app_name"@)
        } else {
            None
        },
    decreases i,
{
    if i > 0 {
        assert(str_field(events[0], "app_name"@) is None);
        let rest = events.drop_first();
        assert forall|k: int| 0 <= k < i - 1 implies str_field(
            #[trigger] rest[k],
            "app_name"@,
        ) is None by {
            assert(rest[k] == events[k + 1]);
        }
        first_app_skips(rest, i - 1);
    }
}

} // verus!
