//! Values: what they stand for, and what reading, setting, merging, copying, printing and
//! parsing make of them.

use crate::error::Error;
use crate::host::{host, set_global_host};
use crate::json::codec::ValueParts;
use crate::json::{Json, JsonObject, JsonTree};
use vstd::prelude::*;

verus! {

/// What a document is asked for is what stands there: the member of an object, the element of
/// an array, the characters, the truth value, the elements or the members, and nothing where
/// the document is of another kind or has none.
pub proof fn documents_are_read_by_kind(tree: JsonTree, key: Seq<char>, index: int)
    ensures
        tree.field(key) is Some <==> tree is Object && tree->Object_0.contains_key(key),
        tree.field(key) is Some ==> tree.field(key)->Some_0 == tree->Object_0[key],
        tree.element(index) is Some <==> tree is Array && 0 <= index < tree->Array_0.len(),
        tree.element(index) is Some ==> tree.element(index)->Some_0 == tree->Array_0[index],
        tree.text() is Some <==> tree is Text,
        tree is Text ==> tree.text() == Some(tree->Text_0),
        tree.truth() is Some <==> tree is Bool,
        tree is Bool ==> tree.truth() == Some(tree->Bool_0),
        tree.items() is Some <==> tree is Array,
        tree is Array ==> tree.items() == Some(tree->Array_0),
        tree.members() is Some <==> tree is Object,
        tree is Object ==> tree.members() == Some(tree->Object_0),
{
}

/// A value stands for the document of its own kind.
pub proof fn values_stand_for_documents(
    b: bool,
    s: String,
    n: serde_json::Number,
    items: Vec<Json>,
    object: JsonObject,
)
    ensures
        Json::Null@ == JsonTree::Null,
        Json::Bool(b)@ == JsonTree::Bool(b),
        Json::Text(s)@ == JsonTree::Text(s@),
        Json::Object(object)@ == JsonTree::Object(object@),
        Json::Array(items)@ is Array,
        Json::Array(items)@->Array_0.len() == items@.len(),
        forall|i: int|
            0 <= i < items@.len() ==> #[trigger] Json::Array(items)@->Array_0[i] == items@[i]@,
        Json::Number(n)@ == (match crate::json::integer(n) {
            Some(k) => if k < 0 {
                JsonTree::Negative(k)
            } else {
                JsonTree::Natural(k as nat)
            },
            None => JsonTree::OtherNumber(n),
        }),
{
    crate::json::array_tree(items);
}

/// The trees of a run of values are their documents, one by one.
pub proof fn runs_stand_for_documents(items: Seq<Json>)
    ensures
        crate::json::trees(items).len() == items.len(),
        forall|i: int|
            0 <= i < items.len() ==> #[trigger] crate::json::trees(items)[i] == items[i]@,
{
}

/// Values are made of what they are made from.
pub proof fn values_are_made(
    s: &str,
    text: Json,
    n: u64,
    number: Json,
    some: String,
    told: Json,
    untold: Json,
)
    requires
        call_ensures(Json::text, (s,), text),
        call_ensures(Json::natural, (n,), number),
        call_ensures(Json::text_or_null, (&Some(some),), told),
        call_ensures(Json::text_or_null, (&None::<String>,), untold),
    ensures
        text@ == JsonTree::Text(s@),
        number@ == JsonTree::Natural(n as nat),
        told@ == JsonTree::Text(some@),
        untold@ == JsonTree::Null,
{
}

/// A value gives out the member or the element that it has, as it is, and nothing where it has
/// none.
pub proof fn values_give_out_their_parts(
    value: Json,
    key: &str,
    member: Option<&Json>,
    index: usize,
    element: Option<&Json>,
)
    requires
        call_ensures(Json::get, (&value, key), member),
        call_ensures(Json::at, (&value, index), element),
    ensures
        member is Some <==> value@ is Object && value@->Object_0.contains_key(key@),
        member is Some ==> member->Some_0@ == value@->Object_0[key@],
        element is Some <==> value@ is Array && index < value@->Array_0.len(),
        element is Some ==> element->Some_0@ == value@->Array_0[index as int],
{
}

/// A value is read as a string, a truth value, an array or an object exactly where it is one,
/// and what is read is all of it.
pub proof fn values_are_read_as_their_kind(
    value: Json,
    text: Option<&str>,
    truth: Option<bool>,
    items: Option<&Vec<Json>>,
    object: Option<&JsonObject>,
)
    requires
        call_ensures(Json::as_str, (&value,), text),
        call_ensures(Json::as_bool, (&value,), truth),
        call_ensures(Json::as_array, (&value,), items),
        call_ensures(Json::as_object, (&value,), object),
    ensures
        text is Some <==> value@ is Text,
        text is Some ==> text->Some_0@ == value@->Text_0,
        truth is Some <==> value@ is Bool,
        truth is Some ==> truth->Some_0 == value@->Bool_0,
        items is Some <==> value@ is Array,
        items is Some ==> items->Some_0@.len() == value@->Array_0.len(),
        items is Some ==> forall|i: int|
            0 <= i < value@->Array_0.len() ==> #[trigger] items->Some_0@[i]@ == value@->Array_0[i],
        object is Some <==> value@ is Object,
        object is Some ==> object->Some_0@ == value@->Object_0,
{
    if items is Some {
        assert(value@->Array_0 == crate::json::trees(items->Some_0@));
    }
}

/// An object gives out under a key what was set there last, and setting one key leaves every
/// other as it was.
pub proof fn objects_hold_what_is_set(
    object: JsonObject,
    key: &str,
    value: Json,
    set: JsonObject,
    asked: &str,
    before: Option<&Json>,
    after: Option<&Json>,
    none: JsonObject,
    nothing: Option<&Json>,
)
    requires
        call_ensures(JsonObject::with, (object, key, value), set),
        call_ensures(JsonObject::get, (&object, asked), before),
        call_ensures(JsonObject::get, (&set, asked), after),
        call_ensures(JsonObject::new, (), none),
        call_ensures(JsonObject::get, (&none, asked), nothing),
    ensures
        asked@ == key@ ==> after is Some && after->Some_0@ == value@,
        asked@ != key@ ==> (after is Some <==> before is Some),
        asked@ != key@ && before is Some ==> after->Some_0@ == before->Some_0@,
        nothing is None,
{
}

/// Setting a member in place is setting it in a copy.
pub proof fn inserting_sets_in_place(
    object: &mut JsonObject,
    key: String,
    word: &str,
    value: Json,
    set: JsonObject,
)
    requires
        call_ensures(JsonObject::insert, (object, key, value), ()),
        word@ == key@,
        call_ensures(JsonObject::with, (*old(object), word, value), set),
    ensures
        final(object)@ == set@,
{
}

/// Merging gives each key what the other object has there, and leaves the rest as it was.
pub proof fn merging_prefers_the_other(object: &mut JsonObject, other: JsonObject, key: Seq<char>)
    requires
        call_ensures(JsonObject::merge, (object, &other), ()),
    ensures
        final(object)@.contains_key(key) <==> old(object)@.contains_key(key)
            || other@.contains_key(key),
        other@.contains_key(key) ==> final(object)@[key] == other@[key],
        old(object)@.contains_key(key) && !other@.contains_key(key) ==> final(object)@[key]
            == old(object)@[key],
{
}

/// An object has as many members as it has keys.
pub proof fn objects_count_their_keys(object: JsonObject, n: usize)
    requires
        call_ensures(JsonObject::len, (&object,), n),
    ensures
        object@.dom().finite(),
        n == object@.dom().len(),
{
}

/// A copy stands for the same document.
pub proof fn copies_stand_for_the_same(
    value: Json,
    copy: Json,
    object: JsonObject,
    twin: JsonObject,
)
    requires
        call_ensures(<Json as Clone>::clone, (&value,), copy),
        call_ensures(<JsonObject as Clone>::clone, (&object,), twin),
    ensures
        copy@ == value@,
        twin@ == object@,
{
}

/// One level of a `serde_json` value stands for the document of its own kind, made of what the
/// level below stands for; the entries of an object stand each under its key.
pub proof fn levels_stand_for_documents(
    b: bool,
    s: String,
    n: serde_json::Number,
    items: Vec<serde_json::Value>,
    entries: Vec<(String, serde_json::Value)>,
    i: int,
    key: Seq<char>,
)
    requires
        forall|j: int, k: int|
            0 <= j < k < entries@.len() ==> #[trigger] entries@[j].0@ != #[trigger] entries@[k].0@,
    ensures
        crate::json::codec::parts_tree(ValueParts::Null) == JsonTree::Null,
        crate::json::codec::parts_tree(ValueParts::Bool(b)) == JsonTree::Bool(b),
        crate::json::codec::parts_tree(ValueParts::Text(s)) == JsonTree::Text(s@),
        crate::json::codec::parts_tree(ValueParts::Number(n)) == Json::Number(n)@,
        ({
            let tree = crate::json::codec::parts_tree(ValueParts::Array(items));
            &&& tree is Array
            &&& tree->Array_0.len() == items@.len()
            &&& 0 <= i < items@.len() ==> tree->Array_0[i] == crate::json::codec::value_tree(
                items@[i],
            )
        }),
        ({
            let tree = crate::json::codec::parts_tree(ValueParts::Object(entries));
            &&& tree is Object
            &&& 0 <= i < entries@.len() ==> tree->Object_0.contains_key(entries@[i].0@)
                && tree->Object_0[entries@[i].0@] == crate::json::codec::value_tree(entries@[i].1)
            &&& (forall|k: int| 0 <= k < entries@.len() ==> #[trigger] entries@[k].0@ != key)
                ==> !tree->Object_0.contains_key(key)
        }),
{
    entries_stand_under_their_keys(entries@, i, key);
}

proof fn entries_stand_under_their_keys(
    entries: Seq<(String, serde_json::Value)>,
    i: int,
    key: Seq<char>,
)
    requires
        forall|j: int, k: int|
            0 <= j < k < entries.len() ==> #[trigger] entries[j].0@ != #[trigger] entries[k].0@,
    ensures
        ({
            let members = crate::json::codec::members_map(entries);
            &&& 0 <= i < entries.len() ==> members.contains_key(entries[i].0@)
                && members[entries[i].0@] == crate::json::codec::value_tree(entries[i].1)
            &&& (forall|k: int| 0 <= k < entries.len() ==> #[trigger] entries[k].0@ != key)
                ==> !members.contains_key(key)
        }),
    decreases entries.len(),
{
    if entries.len() > 0 {
        let shorter = entries.drop_last();
        assert(forall|k: int| 0 <= k < shorter.len() ==> shorter[k] == #[trigger] entries[k]);
        entries_stand_under_their_keys(shorter, i, key);
        if 0 <= i < shorter.len() {
            assert(entries[i].0@ != entries[entries.len() - 1].0@);
        }
        if forall|k: int| 0 <= k < entries.len() ==> #[trigger] entries[k].0@ != key {
            assert(entries[entries.len() - 1].0@ != key);
        }
    }
}

/// Crossing over and back gives a value that stands for the same document.
pub proof fn crossing_over_and_back_keeps_the_document(
    value: Json,
    crossed: serde_json::Value,
    back: Json,
)
    requires
        call_ensures(Json::to_value, (&value,), crossed),
        call_ensures(Json::from_value, (crossed,), back),
    ensures
        back@ == value@,
{
}

/// Parsing the compact text of a value that reads back gives a value for the same document.
pub proof fn parsing_undoes_printing(
    value: Json,
    text: String,
    word: &str,
    read: Option<Json>,
)
    requires
        call_ensures(Json::to_text, (&value,), text),
        word@ == text@,
        call_ensures(Json::parse, (word,), read),
        crate::json::codec::reads_back(value@),
    ensures
        read is Some,
        read->Some_0@ == value@,
{
}

/// A document reads back where it nests at most 127 arrays and objects inside one another and
/// is plain: null, a truth value, an integer or a string is; a fraction is not; an array is
/// where its elements are, and an object where its members are, unless the first of its keys
/// is the one that marks a raw document.
pub proof fn plain_documents_read_back(tree: JsonTree, room: nat)
    ensures
        crate::json::codec::reads_back(tree) <==> crate::json::codec::is_plain(tree, 127),
        tree is Null || tree is Bool || tree is Natural || tree is Negative || tree is Text
            ==> crate::json::codec::is_plain(tree, room),
        tree is OtherNumber ==> !crate::json::codec::is_plain(tree, room),
        tree is Array ==> (crate::json::codec::is_plain(tree, room) <==> room > 0 && forall|i: int|
            0 <= i < tree->Array_0.len() ==> crate::json::codec::is_plain(
                #[trigger] tree->Array_0[i],
                (room - 1) as nat,
            )),
        tree is Object && tree->Object_0.dom().finite() ==> (crate::json::codec::is_plain(
            tree,
            room,
        ) <==> {
            let members = tree->Object_0;
            let raw = "$serde_json::private::RawValue"@;
            &&& room > 0
            &&& !(members.contains_key(raw) && forall|key: Seq<char>| #[trigger]
                members.contains_key(key) ==> crate::text::text_le(raw, key))
            &&& forall|key: Seq<char>| #[trigger]
                members.contains_key(key) ==> crate::json::codec::is_plain(
                    members[key],
                    (room - 1) as nat,
                )
        }),
{
}

/// A failure says what it was made with, and one that wraps another puts its context first.
pub proof fn failures_say_what_they_were_made_with(
    message: &str,
    error: Error,
    context: &str,
    cause: Error,
    wrapped: Error,
)
    requires
        call_ensures(Error::new, (message,), error),
        call_ensures(Error::wrap, (context, &cause), wrapped),
    ensures
        error.message@ == message@,
        error@ == message@,
        wrapped.message@ == context@ + cause.message@,
        wrapped@ == context@ + cause@,
{
}

/// An outcome tells a value from a failure, and which.
pub proof fn outcomes_tell_values_from_failures(value: Json, error: Error)
    ensures
        crate::error::outcome(Ok::<Json, Error>(value)) == Ok::<JsonTree, Seq<char>>(value@),
        crate::error::outcome(Err::<Json, Error>(error)) == Err::<JsonTree, Seq<char>>(
            error.message@,
        ),
{
}

/// The host that is installed first stays, and is the one that is handed out; before any is
/// installed there is none.
pub proof fn first_host_stays<H>(
    slot: &mut Option<H>,
    newcomer: H,
    before: Result<&H, Error>,
    after: Result<&H, Error>,
)
    requires
        call_ensures(host::<H>, (&*old(slot),), before),
        call_ensures(set_global_host::<H>, (slot, newcomer), ()),
        call_ensures(host::<H>, (&*final(slot),), after),
    ensures
        after is Ok,
        before is Ok ==> *after->Ok_0 == *before->Ok_0,
        before is Err ==> *after->Ok_0 == newcomer,
        before is Ok <==> *old(slot) is Some,
        before is Err ==> before->Err_0@ == "recipes host not initialized"@,
{
}

} // verus!
