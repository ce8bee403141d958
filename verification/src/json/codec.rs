//! The bridge to `serde_json`: its values, its parser and its printer.

use super::{Json, JsonObject, JsonTree};
use vstd::prelude::*;

verus! {

/// `serde_json::Value`, a parsed JSON document.
#[verifier::external_type_specification]
#[verifier::external_body]
pub struct ExValue(serde_json::Value);

/// The document that a `serde_json::Value` holds.
pub uninterp spec fn value_tree(value: serde_json::Value) -> JsonTree;

/// One level of a `serde_json::Value`.
pub enum ValueParts {
    Null,
    Bool(bool),
    Number(serde_json::Number),
    Text(String),
    Array(Vec<serde_json::Value>),
    Object(Vec<(String, serde_json::Value)>),
}

/// The members that a run of entries spells out, a later entry over an earlier one.
pub open spec fn members_map(entries: Seq<(String, serde_json::Value)>) -> Map<
    Seq<char>,
    JsonTree,
>
    decreases entries.len(),
{
    if entries.len() == 0 {
        Map::empty()
    } else {
        members_map(entries.drop_last()).insert(entries.last().0@, value_tree(entries.last().1))
    }
}

/// Whether no key occurs twice.
pub open spec fn keys_differ(entries: Seq<(String, serde_json::Value)>) -> bool {
    forall|i: int, j: int|
        0 <= i < j < entries.len() ==> #[trigger] entries[i].0@ != #[trigger] entries[j].0@
}

/// The document that one level of a value spells out.
pub open spec fn parts_tree(parts: ValueParts) -> JsonTree {
    match parts {
        ValueParts::Null => JsonTree::Null,
        ValueParts::Bool(b) => JsonTree::Bool(b),
        ValueParts::Number(n) => super::number_tree(n),
        ValueParts::Text(s) => JsonTree::Text(s@),
        ValueParts::Array(items) => JsonTree::Array(
            items@.map_values(|item: serde_json::Value| value_tree(item)),
        ),
        ValueParts::Object(entries) => JsonTree::Object(members_map(entries@)),
    }
}

/// Takes a `serde_json::Value` apart by its variant: the parts spell out what it holds,
/// and the entries of an object come with each key once.
#[verifier::external_body]
fn value_parts(value: serde_json::Value) -> (parts: ValueParts)
    ensures
        parts_tree(parts) == value_tree(value),
        parts matches ValueParts::Object(entries) ==> keys_differ(entries@),
{
    match value {
        serde_json::Value::Null => ValueParts::Null,
        serde_json::Value::Bool(b) => ValueParts::Bool(b),
        serde_json::Value::Number(n) => ValueParts::Number(n),
        serde_json::Value::String(s) => ValueParts::Text(s),
        serde_json::Value::Array(items) => ValueParts::Array(items),
        serde_json::Value::Object(map) => ValueParts::Object(map.into_iter().collect()),
    }
}

/// Makes the `serde_json::Value` whose variant the parts name: it holds what they spell out.
#[verifier::external_body]
fn value_of_parts(parts: ValueParts) -> (value: serde_json::Value)
    requires
        parts matches ValueParts::Object(entries) ==> keys_differ(entries@),
    ensures
        value_tree(value) == parts_tree(parts),
{
    match parts {
        ValueParts::Null => serde_json::Value::Null,
        ValueParts::Bool(b) => serde_json::Value::Bool(b),
        ValueParts::Number(n) => serde_json::Value::Number(n),
        ValueParts::Text(s) => serde_json::Value::String(s),
        ValueParts::Array(items) => serde_json::Value::Array(items),
        ValueParts::Object(entries) => serde_json::Value::Object(entries.into_iter().collect()),
    }
}

proof fn members_map_at(entries: Seq<(String, serde_json::Value)>, i: int)
    requires
        keys_differ(entries),
        0 <= i < entries.len(),
    ensures
        members_map(entries).dom().finite(),
        members_map(entries).contains_key(entries[i].0@),
        members_map(entries)[entries[i].0@] == value_tree(entries[i].1),
    decreases entries.len(),
{
    members_map_finite(entries);
    if i < entries.len() - 1 {
        members_map_at(entries.drop_last(), i);
        assert(entries.drop_last()[i] == entries[i]);
        assert(entries[i].0@ != entries[entries.len() - 1].0@);
    }
}

proof fn members_map_finite(entries: Seq<(String, serde_json::Value)>)
    ensures
        members_map(entries).dom().finite(),
    decreases entries.len(),
{
    if entries.len() > 0 {
        members_map_finite(entries.drop_last());
    }
}

impl Json {
    /// The value that holds what `value` holds.
    pub fn from_value(value: serde_json::Value) -> (json: Json)
        ensures
            json@ == value_tree(value),
        decreases value_tree(value),
    {
        match value_parts(value) {
            ValueParts::Null => Json::Null,
            ValueParts::Bool(b) => Json::Bool(b),
            ValueParts::Number(n) => Json::Number(n),
            ValueParts::Text(s) => Json::Text(s),
            ValueParts::Array(items) => {
                let ghost elements = value_tree(value)->Array_0;
                let mut out: Vec<Json> = Vec::new();
                for item in it: items
                    invariant
                        value_tree(value) is Array,
                        elements == value_tree(value)->Array_0,
                        elements == it.seq().map_values(
                            |item: serde_json::Value| value_tree(item),
                        ),
                        super::trees(out@) == elements.take(it.index() as int),
                {
                    assert(value_tree(item) == elements[it.index() as int]);
                    assert(decreases_to!(value_tree(value) => elements));
                    assert(decreases_to!(elements => elements[it.index() as int]));
                    let ghost done = out@;
                    out.push(Json::from_value(item));
                    assert(super::trees(out@) =~= super::trees(done).push(out@.last()@));
                    assert(elements.take(it.index() + 1) =~= elements.take(
                        it.index() as int,
                    ).push(elements[it.index() as int]));
                }
                proof {
                    assert(elements.take(elements.len() as int) =~= elements);
                    super::array_tree(out);
                }
                Json::Array(out)
            },
            ValueParts::Object(entries) => {
                let ghost members = value_tree(value)->Object_0;
                let ghost all = entries@;
                let mut out: JsonObject = JsonObject::new();
                for entry in it: entries
                    invariant
                        value_tree(value) is Object,
                        members == value_tree(value)->Object_0,
                        it.seq() == all,
                        keys_differ(all),
                        members == members_map(all),
                        out@ == members_map(all.take(it.index() as int)),
                {
                    let ghost i = it.index() as int;
                    proof {
                        members_map_at(all, i);
                        assert(decreases_to!(value_tree(value) => members));
                        assert(decreases_to!(members => members[all[i].0@]));
                        assert(all.take(i + 1).drop_last() =~= all.take(i));
                    }
                    let (key, inner) = entry;
                    out.insert(key, Json::from_value(inner));
                }
                assert(all.take(all.len() as int) =~= all);
                Json::Object(out)
            },
        }
    }

    /// The `serde_json::Value` that holds what this value holds.
    pub fn to_value(&self) -> (value: serde_json::Value)
        ensures
            value_tree(value) == self@,
        decreases self,
    {
        match self {
            Json::Null => value_of_parts(ValueParts::Null),
            Json::Bool(b) => value_of_parts(ValueParts::Bool(*b)),
            Json::Number(n) => value_of_parts(ValueParts::Number(n.clone())),
            Json::Text(s) => value_of_parts(ValueParts::Text(s.clone())),
            Json::Array(items) => {
                let mut out: Vec<serde_json::Value> = Vec::new();
                let mut i: usize = 0;
                while i < items.len()
                    invariant
                        *self is Array,
                        self->Array_0 == *items,
                        i <= items@.len(),
                        out@.len() == i,
                        forall|k: int| 0 <= k < i ==> value_tree(#[trigger] out@[k]) == items@[k]@,
                    decreases items@.len() - i,
                {
                    assert(decreases_to!(self->Array_0 => self->Array_0@[i as int]));
                    let value = items[i].to_value();
                    out.push(value);
                    i = i + 1;
                }
                proof {
                    super::array_tree(*items);
                    assert(out@.map_values(|item: serde_json::Value| value_tree(item))
                        =~= super::trees(items@));
                }
                value_of_parts(ValueParts::Array(out))
            },
            Json::Object(object) => {
                assert(decreases_to!(*self => self->Object_0));
                object.to_value()
            },
        }
    }

    /// The document that `text` spells, if `text` is one.
    pub fn parse(text: &str) -> (json: Option<Json>)
        ensures
            json is Some <==> parsed(text@) is Some,
            json matches Some(value) ==> parsed(text@) == Some(value@),
    {
        match parse_value(text) {
            Some(value) => Some(Json::from_value(value)),
            None => None,
        }
    }

    /// The compact text of this value.
    pub fn to_text(&self) -> (text: String)
        ensures
            text@ == printed(self@),
            reads_back(self@) ==> parsed(text@) == Some(self@),
    {
        let value = self.to_value();
        value_text(&value)
    }
}

impl JsonObject {
    fn to_value(&self) -> (value: serde_json::Value)
        ensures
            value_tree(value) == JsonTree::Object(self@),
        decreases self,
    {
        proof {
            use_type_invariant(self);
        }
        let mut out: Vec<(String, serde_json::Value)> = Vec::new();
        let mut i: usize = 0;
        while i < self.entries.len()
            invariant
                i <= self.entries@.len(),
                out@.len() == i,
                forall|k: int| 0 <= k < i ==> (#[trigger] out@[k]).0@ == self.entries@[k].0@,
                members_map(out@) == super::entries_map(self.entries@.take(i as int)),
            decreases self.entries@.len() - i,
        {
            let ghost done = out@;
            let key = self.entries[i].0.clone();
            let value = self.entries[i].1.to_value();
            out.push((key, value));
            proof {
                assert(out@.drop_last() =~= done);
                assert(self.entries@.take(i + 1).drop_last() =~= self.entries@.take(i as int));
            }
            i = i + 1;
        }
        proof {
            assert(self.entries@.take(self.entries@.len() as int) =~= self.entries@);
            assert forall|a: int, b: int| 0 <= a < b < out@.len() implies #[trigger] out@[a].0@
                != #[trigger] out@[b].0@ by {
                assert(super::before(self.entries@[a].0@, self.entries@[b].0@));
            }
        }
        value_of_parts(ValueParts::Object(out))
    }
}

/// What `serde_json::from_str` reads from a text: nothing where the text is no document.
pub uninterp spec fn parsed(text: Seq<char>) -> Option<JsonTree>;

/// `serde_json::from_str::<serde_json::Value>`: the parse is a function of the text alone.
/// The grammar, and which part of a text breaks it, are not spelled out.
#[verifier::external_body]
fn parse_value(text: &str) -> (value: Option<serde_json::Value>)
    ensures
        value is Some <==> parsed(text@) is Some,
        value matches Some(v) ==> parsed(text@) == Some(value_tree(v)),
{
    serde_json::from_str::<serde_json::Value>(text).ok()
}

/// How many arrays and objects the parser takes inside one another.
pub open spec fn deepest() -> nat {
    127
}

/// The key that makes `serde_json`, with its feature `raw_value`, take an object for a raw
/// document, where it stands first.
pub open spec fn raw_key() -> Seq<char> {
    "$serde_json::private::RawValue"@
}

/// Whether the raw key is the first of an object's keys.
pub open spec fn starts_raw(members: Map<Seq<char>, JsonTree>) -> bool {
    &&& members.contains_key(raw_key())
    &&& forall|key: Seq<char>| #[trigger]
        members.contains_key(key) ==> crate::text::text_le(raw_key(), key)
}

/// Whether a document has no fraction in it, no object that starts with the raw key, and at
/// most `room` arrays and objects inside one another.
pub open spec fn is_plain(tree: JsonTree, room: nat) -> bool
    decreases tree,
{
    match tree {
        JsonTree::OtherNumber(_) => false,
        JsonTree::Array(items) => {
            &&& room > 0
            &&& forall|i: int|
                0 <= i < items.len() ==> is_plain(#[trigger] items[i], (room - 1) as nat)
        },
        JsonTree::Object(members) => {
            &&& room > 0
            &&& members.dom().finite()
            &&& !starts_raw(members)
            &&& forall|key: Seq<char>| #[trigger]
                members.contains_key(key) ==> is_plain(members[key], (room - 1) as nat)
        },
        _ => true,
    }
}

/// Whether the parser gives a document back from its compact text.
pub open spec fn reads_back(tree: JsonTree) -> bool {
    is_plain(tree, deepest())
}

/// What `serde_json::Value` displays as: the compact text of a document.
pub uninterp spec fn printed(tree: JsonTree) -> Seq<char>;

/// `serde_json::Value::to_string`: the text is a function of the document alone, since the
/// members of an object are held, and printed, in the order of their keys. From the text of
/// a value without fractions, nested no deeper than the parser goes and without an object
/// that starts with the raw key, `serde_json::from_str` reads the same document.
#[verifier::external_body]
fn value_text(value: &serde_json::Value) -> (text: String)
    ensures
        text@ == printed(value_tree(*value)),
        reads_back(value_tree(*value)) ==> parsed(text@) == Some(value_tree(*value)),
{
    value.to_string()
}

} // verus!
