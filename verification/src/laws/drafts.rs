//! Drafts: what a captured event becomes, and what a draft holds.

use crate::draft::{draft_from_events, draft_with_name, step_from_event};
use crate::json::{Json, JsonTree};
use crate::slug::slugify_task;
use vstd::prelude::*;

verus! {

proof fn step_words()
    ensures
        "id"@.len() == 2,
        "action"@.len() == 6 && "action"@[0] == 'a',
        "target"@.len() == 6 && "target"@[0] == 't',
        "params"@.len() == 6 && "params"@[0] == 'p',
        "note"@.len() == 4 && "note"@[0] == 'n',
        "query"@.len() == 5,
        "role"@.len() == 4,
        "identifier"@.len() == 10,
        "app"@.len() == 3,
{
    reveal_strlit("id");
    reveal_strlit("action");
    reveal_strlit("target");
    reveal_strlit("params");
    reveal_strlit("note");
    reveal_strlit("query");
    reveal_strlit("role");
    reveal_strlit("identifier");
    reveal_strlit("app");
}

proof fn kind_words()
    ensures
        "type"@.len() == 4,
        "press"@.len() == 5,
        "hotkey"@.len() == 6 && "hotkey"@[0] == 'h',
        "scroll"@.len() == 6 && "scroll"@[0] == 's',
        "app_switch"@.len() == 10,
{
    reveal_strlit("type");
    reveal_strlit("press");
    reveal_strlit("hotkey");
    reveal_strlit("scroll");
    reveal_strlit("app_switch");
}

proof fn draft_words()
    ensures
        "schema_version"@.len() == 14,
        "name"@.len() == 4,
        "description"@.len() == 11,
        "app"@.len() == 3,
        "params"@.len() == 6,
        "steps"@.len() == 5,
        "on_failure"@.len() == 10,
{
    reveal_strlit("schema_version");
    reveal_strlit("name");
    reveal_strlit("description");
    reveal_strlit("app");
    reveal_strlit("params");
    reveal_strlit("steps");
    reveal_strlit("on_failure");
}

/// A step carries the number it is made with, and the action that repeats its event. An event
/// of any kind but the five that are known, or of none, is a click.
pub proof fn step_repeats_its_event(id: u64, event: Json, step: Json)
    requires
        call_ensures(step_from_event, (id, &event), step),
    ensures
        step@.field("id"@) == Some(JsonTree::Natural(id as nat)),
        ({
            let kind = event@.field("event_type"@);
            let action = step@.field("action"@);
            &&& kind == Some(JsonTree::Text("type"@)) ==> action == Some(JsonTree::Text("type"@))
            &&& kind == Some(JsonTree::Text("press"@)) ==> action == Some(JsonTree::Text("press"@))
            &&& kind == Some(JsonTree::Text("hotkey"@)) ==> action == Some(
                JsonTree::Text("hotkey"@),
            )
            &&& kind == Some(JsonTree::Text("scroll"@)) ==> action == Some(
                JsonTree::Text("scroll"@),
            )
            &&& kind == Some(JsonTree::Text("app_switch"@)) ==> action == Some(
                JsonTree::Text("focus"@),
            )
            &&& kind != Some(JsonTree::Text("type"@)) && kind != Some(JsonTree::Text("press"@))
                && kind != Some(JsonTree::Text("hotkey"@)) && kind != Some(
                JsonTree::Text("scroll"@),
            ) && kind != Some(JsonTree::Text("app_switch"@)) ==> action == Some(
                JsonTree::Text("click"@),
            )
        }),
{
    step_words();
    kind_words();
}

/// A step that clicks or types is aimed by its event's context, each piece of it under a key
/// of its own: a piece that the event tells stands there word for word, one that it does not
/// tell is null, and there is no aim at all exactly where the event tells none of the four.
pub proof fn step_is_aimed_by_context(
    id: u64,
    event: Json,
    step: Json,
    piece: Seq<char>,
    key: Seq<char>,
)
    requires
        call_ensures(step_from_event, (id, &event), step),
        step@.field("action"@) == Some(JsonTree::Text("click"@)) || step@.field("action"@) == Some(
            JsonTree::Text("type"@),
        ),
        ({
            ||| piece == "element_name"@ && key == "query"@
            ||| piece == "element_role"@ && key == "role"@
            ||| piece == "element_id"@ && key == "identifier"@
            ||| piece == "app_name"@ && key == "app"@
        }),
    ensures
        step@.field("target"@) is Some,
        ({
            let target = step@.field("target"@)->Some_0;
            let told = event@.field(piece);
            &&& (told matches Some(JsonTree::Text(text)) && text.len() > 0) ==> target.field(key)
                == told
            &&& !(told matches Some(JsonTree::Text(text)) && text.len() > 0) ==> target
                == JsonTree::Null || target.field(key) == Some(JsonTree::Null)
            &&& target == JsonTree::Null <==> {
                &&& !(event@.field("element_name"@) matches Some(JsonTree::Text(t)) && t.len() > 0)
                &&& !(event@.field("element_role"@) matches Some(JsonTree::Text(t)) && t.len() > 0)
                &&& !(event@.field("element_id"@) matches Some(JsonTree::Text(t)) && t.len() > 0)
                &&& !(event@.field("app_name"@) matches Some(JsonTree::Text(t)) && t.len() > 0)
            }
            &&& target != JsonTree::Null ==> target is Object && target->Object_0.dom()
                == set!["query"@, "role"@, "identifier"@, "app"@]
        }),
{
    step_words();
    kind_words();
    action_words();
    let target = step@.field("target"@)->Some_0;
    if target is Object {
        assert(target->Object_0.dom() =~= set!["query"@, "role"@, "identifier"@, "app"@]);
    }
}

proof fn action_words()
    ensures
        "click"@.len() == 5 && "click"@[0] == 'c',
        "focus"@.len() == 5 && "focus"@[0] == 'f',
        "press"@[0] == 'p',
{
    reveal_strlit("click");
    reveal_strlit("focus");
    reveal_strlit("press");
}

/// A step that neither clicks nor types has one parameter and no aim. What it is set to is
/// what the event captured, word for word; where the event captured nothing it is empty, but
/// for a scroll, which then goes down. A step that types has the same one parameter.
pub proof fn step_has_what_was_captured(
    id: u64,
    event: Json,
    step: Json,
    kind: Seq<char>,
    source: Seq<char>,
    param: Seq<char>,
)
    requires
        call_ensures(step_from_event, (id, &event), step),
        event@.field("event_type"@) == Some(JsonTree::Text(kind)),
        ({
            ||| kind == "type"@ && source == "key"@ && param == "text"@
            ||| kind == "press"@ && source == "key"@ && param == "key"@
            ||| kind == "hotkey"@ && source == "key"@ && param == "keys"@
            ||| kind == "scroll"@ && source == "key"@ && param == "direction"@
            ||| kind == "app_switch"@ && source == "app_name"@ && param == "app"@
        }),
    ensures
        ({
            let told = event@.field(source);
            let params = step@.field("params"@);
            &&& (told matches Some(JsonTree::Text(text)) && text.len() > 0) ==> params == Some(
                JsonTree::Object(map![param => told->Some_0]),
            )
            &&& !(told matches Some(JsonTree::Text(text)) && text.len() > 0) ==> params == Some(
                JsonTree::Object(
                    map![
                        param => JsonTree::Text(
                            if kind == "scroll"@ {
                                "down"@
                            } else {
                                Seq::empty()
                            },
                        ),
                    ],
                ),
            )
            &&& kind != "type"@ ==> step@.field("target"@) is None
        }),
{
    step_words();
    kind_words();
}

/// A step that clicks is noted by the name of what was clicked, where the event tells one, and
/// no other step has a note.
pub proof fn step_is_noted_by_name(id: u64, event: Json, step: Json)
    requires
        call_ensures(step_from_event, (id, &event), step),
    ensures
        ({
            let name = event@.field("element_name"@);
            let told = name matches Some(JsonTree::Text(text)) && text.len() > 0;
            if step@.field("action"@) == Some(JsonTree::Text("click"@)) {
                step@.field("note"@) == if told {
                    name
                } else {
                    Some(JsonTree::Null)
                }
            } else {
                step@.field("note"@) is None
            }
        }),
{
    step_words();
    kind_words();
    action_words();
}

/// A step has no member but its number, its action, and as its action asks for them a target,
/// parameters and a note.
pub proof fn step_has_no_other_member(id: u64, event: Json, step: Json, key: Seq<char>)
    requires
        call_ensures(step_from_event, (id, &event), step),
    ensures
        step@ is Object,
        step@.field(key) is Some <==> {
            let click = step@.field("action"@) == Some(JsonTree::Text("click"@));
            let typed = step@.field("action"@) == Some(JsonTree::Text("type"@));
            ||| key == "id"@
            ||| key == "action"@
            ||| key == "target"@ && (click || typed)
            ||| key == "params"@ && !click
            ||| key == "note"@ && click
        },
{
    step_words();
    kind_words();
    action_words();
}

/// The steps of a draft are its events, one by one: as many as there are events, and each the
/// step that its event becomes with the number of its place, counted from one.
pub proof fn draft_repeats_every_event(
    task: &str,
    events: &[Json],
    draft: Json,
    i: int,
    id: u64,
    event: Json,
    step: Json,
)
    requires
        call_ensures(draft_from_events, (task, events), draft),
        0 <= i < events@.len(),
        id == i + 1,
        event@ == events@[i]@,
        call_ensures(step_from_event, (id, &event), step),
    ensures
        draft@.field("steps"@) is Some,
        draft@.field("steps"@)->Some_0 is Array,
        draft@.field("steps"@)->Some_0->Array_0.len() == events@.len(),
        draft@.field("steps"@)->Some_0->Array_0[i] == step@,
{
    draft_words();
}

/// What a draft says of itself: a name made from the task, the task itself or a stock phrase
/// in its place, no parameters, and that a failed step ends the replay.
pub proof fn draft_is_named_and_described(task: &str, events: &[Json], draft: Json, name: String)
    requires
        call_ensures(draft_from_events, (task, events), draft),
        call_ensures(slugify_task, (task,), name),
    ensures
        draft@.field("name"@) == Some(JsonTree::Text(name@)),
        draft@.field("description"@) == Some(
            JsonTree::Text(
                if task@.len() == 0 {
                    "Recorded workflow"@
                } else {
                    task@
                },
            ),
        ),
        draft@.field("schema_version"@) == Some(JsonTree::Natural(2)),
        draft@.field("params"@) == Some(JsonTree::Object(Map::empty())),
        draft@.field("on_failure"@) == Some(JsonTree::Text("abort"@)),
        draft@.field("steps"@) is Some,
        draft@.field("steps"@)->Some_0 is Array,
        draft@.field("steps"@)->Some_0->Array_0.len() == events@.len(),
        draft@ is Object,
        draft@->Object_0.dom() == set![
            "schema_version"@,
            "name"@,
            "description"@,
            "app"@,
            "params"@,
            "steps"@,
            "on_failure"@,
        ],
{
    draft_words();
    assert(draft@->Object_0.dom() =~= set![
        "schema_version"@,
        "name"@,
        "description"@,
        "app"@,
        "params"@,
        "steps"@,
        "on_failure"@,
    ]);
}

/// A draft's app is what the earliest event tells that tells one, and null where none does.
pub proof fn draft_is_for_the_first_app(task: &str, events: &[Json], draft: Json, i: int)
    requires
        call_ensures(draft_from_events, (task, events), draft),
        0 <= i <= events@.len(),
        forall|k: int|
            0 <= k < i ==> !((#[trigger] events@[k])@.field("app_name"@) matches Some(
                JsonTree::Text(app),
            ) && app.len() > 0),
        i < events@.len() ==> (events@[i]@.field("app_name"@) matches Some(JsonTree::Text(app))
            && app.len() > 0),
    ensures
        draft@.field("app"@) == if i < events@.len() {
            events@[i]@.field("app_name"@)
        } else {
            Some(JsonTree::Null)
        },
{
    draft_words();
    let all = crate::json::trees(events@);
    assert forall|k: int| 0 <= k < i implies crate::draft::str_field(
        #[trigger] all[k],
        "app_name"@,
    ) is None by {
        assert(all[k] == events@[k]@);
    }
    crate::draft::draft_app_is_first_named(
        task@,
        crate::slug::slug_of(crate::text::lowered(task@)),
        all,
        i,
    );
}

/// A draft under a given name is the draft that the task gets, but for its name.
pub proof fn draft_differs_only_in_name(
    task: &str,
    events: &[Json],
    own: Json,
    name: String,
    named: Json,
    key: Seq<char>,
)
    requires
        call_ensures(draft_from_events, (task, events), own),
        call_ensures(draft_with_name, (task, name, events), named),
    ensures
        named@.field("name"@) == Some(JsonTree::Text(name@)),
        key != "name"@ ==> named@.field(key) == own@.field(key),
{
    draft_words();
}

} // verus!
