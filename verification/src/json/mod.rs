//! JSON values and the mathematical trees they stand for.

use crate::text::{at_most, same_text};
use vstd::prelude::*;

pub mod codec;

verus! {

/// `serde_json::Number`, a JSON number as the parser left it.
#[verifier::external_type_specification]
#[verifier::external_body]
pub struct ExNumber(serde_json::Number);

/// The integer that a `serde_json::Number` holds, if it holds one: what its `as_i128` gives.
pub uninterp spec fn integer(n: serde_json::Number) -> Option<int>;

/// `serde_json::Number::from`: the number that holds `n`.
#[verifier::external_body]
pub(crate) fn number_from(n: u64) -> (number: serde_json::Number)
    ensures
        integer(number) == Some(n as int),
{
    serde_json::Number::from(n)
}

/// `serde_json::Number::clone` copies the number.
pub assume_specification[ <serde_json::Number as Clone>::clone ](
    n: &serde_json::Number,
) -> (copy: serde_json::Number)
    ensures
        copy == *n,
;

/// A JSON document: what a [`Json`] value stands for.
pub enum JsonTree {
    Null,
    Bool(bool),
    /// A number that is a natural number of at most 64 bits.
    Natural(nat),
    /// A number that is a negative integer of at most 64 bits.
    Negative(int),
    /// Any other number: one that is held as a fraction.
    OtherNumber(serde_json::Number),
    Text(Seq<char>),
    Array(Seq<JsonTree>),
    Object(Map<Seq<char>, JsonTree>),
}

impl JsonTree {
    /// The member `key` of an object.
    pub open spec fn field(self, key: Seq<char>) -> Option<JsonTree> {
        match self {
            JsonTree::Object(members) => if members.contains_key(key) {
                Some(members[key])
            } else {
                None
            },
            _ => None,
        }
    }

    /// The element at `index` of an array.
    pub open spec fn element(self, index: int) -> Option<JsonTree> {
        match self {
            JsonTree::Array(items) => if 0 <= index < items.len() {
                Some(items[index])
            } else {
                None
            },
            _ => None,
        }
    }

    /// The characters of a string.
    pub open spec fn text(self) -> Option<Seq<char>> {
        match self {
            JsonTree::Text(chars) => Some(chars),
            _ => None,
        }
    }

    /// The truth value of a boolean.
    pub open spec fn truth(self) -> Option<bool> {
        match self {
            JsonTree::Bool(b) => Some(b),
            _ => None,
        }
    }

    /// The elements of an array.
    pub open spec fn items(self) -> Option<Seq<JsonTree>> {
        match self {
            JsonTree::Array(items) => Some(items),
            _ => None,
        }
    }

    /// The members of an object.
    pub open spec fn members(self) -> Option<Map<Seq<char>, JsonTree>> {
        match self {
            JsonTree::Object(members) => Some(members),
            _ => None,
        }
    }
}

/// The tree of a number.
pub open spec fn number_tree(n: serde_json::Number) -> JsonTree {
    match integer(n) {
        Some(k) => if k >= 0 {
            JsonTree::Natural(k as nat)
        } else {
            JsonTree::Negative(k)
        },
        None => JsonTree::OtherNumber(n),
    }
}

/// A string, or null where there is none.
pub open spec fn text_or_null(s: Option<Seq<char>>) -> JsonTree {
    match s {
        Some(chars) => JsonTree::Text(chars),
        None => JsonTree::Null,
    }
}

/// A JSON value.
#[derive(Debug, PartialEq)]
pub enum Json {
    Null,
    Bool(bool),
    Number(serde_json::Number),
    Text(String),
    Array(Vec<Json>),
    Object(JsonObject),
}

/// The members of a JSON object, each key once, in the order of the keys.
#[derive(Debug, PartialEq)]
pub struct JsonObject {
    entries: Vec<(String, Json)>,
}

impl Json {
    /// The tree of a value.
    pub open spec fn tree(self) -> JsonTree
        decreases self,
    {
        match self {
            Json::Null => JsonTree::Null,
            Json::Bool(b) => JsonTree::Bool(b),
            Json::Number(n) => number_tree(n),
            Json::Text(s) => JsonTree::Text(s@),
            Json::Array(items) => JsonTree::Array(
                Seq::new(
                    items@.len(),
                    |i: int|
                        if 0 <= i < items@.len() {
                            items@[i].tree()
                        } else {
                            JsonTree::Null
                        },
                ),
            ),
            Json::Object(object) => JsonTree::Object(object.members()),
        }
    }
}

impl JsonObject {
    /// The members of an object.
    pub closed spec fn members(self) -> Map<Seq<char>, JsonTree>
        decreases self,
    {
        entries_map(self.entries@)
    }

    #[verifier::type_invariant]
    spec fn keys_ascend(self) -> bool {
        ascending(self.entries@)
    }
}

impl View for Json {
    type V = JsonTree;

    open spec fn view(&self) -> JsonTree {
        self.tree()
    }
}

impl View for JsonObject {
    type V = Map<Seq<char>, JsonTree>;

    open spec fn view(&self) -> Map<Seq<char>, JsonTree> {
        self.members()
    }
}

/// The trees of a run of values.
pub open spec fn trees(items: Seq<Json>) -> Seq<JsonTree> {
    items.map_values(|item: Json| item@)
}

/// An array stands for the trees of its elements.
pub proof fn array_tree(items: Vec<Json>)
    ensures
        Json::Array(items)@ == JsonTree::Array(trees(items@)),
{
    assert(Json::Array(items)@->Array_0 =~= trees(items@));
}

spec fn entries_map(entries: Seq<(String, Json)>) -> Map<Seq<char>, JsonTree>
    decreases entries,
{
    if entries.len() == 0 {
        Map::empty()
    } else {
        entries_map(entries.drop_last()).insert(entries.last().0@, entries.last().1.tree())
    }
}

spec fn ascending(entries: Seq<(String, Json)>) -> bool {
    forall|i: int, j: int|
        0 <= i < j < entries.len() ==> before(#[trigger] entries[i].0@, #[trigger] entries[j].0@)
}

spec fn before(a: Seq<char>, b: Seq<char>) -> bool {
    crate::text::text_le(a, b) && a != b
}

spec fn distinct(entries: Seq<(String, Json)>) -> bool {
    forall|i: int, j: int|
        0 <= i < j < entries.len() ==> #[trigger] entries[i].0@ != #[trigger] entries[j].0@
}

proof fn entries_map_at(entries: Seq<(String, Json)>, i: int)
    requires
        distinct(entries),
        0 <= i < entries.len(),
    ensures
        entries_map(entries).contains_key(entries[i].0@),
        entries_map(entries)[entries[i].0@] == entries[i].1.tree(),
    decreases entries.len(),
{
    if i < entries.len() - 1 {
        entries_map_at(entries.drop_last(), i);
        assert(entries.drop_last()[i] == entries[i]);
        assert(entries[i].0@ != entries[entries.len() - 1].0@);
    }
}

proof fn entries_map_lacks(entries: Seq<(String, Json)>, key: Seq<char>)
    requires
        forall|i: int| 0 <= i < entries.len() ==> #[trigger] entries[i].0@ != key,
    ensures
        !entries_map(entries).contains_key(key),
    decreases entries.len(),
{
    if entries.len() > 0 {
        assert(forall|i: int|
            0 <= i < entries.len() - 1 ==> entries.drop_last()[i] == #[trigger] entries[i]);
        entries_map_lacks(entries.drop_last(), key);
    }
}

proof fn entries_map_size(entries: Seq<(String, Json)>)
    requires
        distinct(entries),
    ensures
        entries_map(entries).dom().finite(),
        entries_map(entries).dom().len() == entries.len(),
    decreases entries.len(),
{
    if entries.len() > 0 {
        let shorter = entries.drop_last();
        assert(forall|i: int| 0 <= i < shorter.len() ==> shorter[i] == #[trigger] entries[i]);
        entries_map_size(shorter);
        entries_map_lacks(shorter, entries.last().0@);
        assert(entries_map(entries).dom() =~= entries_map(shorter).dom().insert(
            entries.last().0@,
        ));
    }
}

proof fn entries_map_insert(entries: Seq<(String, Json)>, at: int, entry: (String, Json))
    requires
        0 <= at <= entries.len(),
        forall|i: int| at <= i < entries.len() ==> #[trigger] entries[i].0@ != entry.0@,
    ensures
        entries_map(entries.insert(at, entry)) == entries_map(entries).insert(
            entry.0@,
            entry.1.tree(),
        ),
    decreases entries.len(),
{
    let grown = entries.insert(at, entry);
    if at == entries.len() {
        assert(grown.drop_last() =~= entries);
    } else {
        assert(grown.drop_last() =~= entries.drop_last().insert(at, entry));
        assert(grown.last() == entries.last());
        entries_map_insert(entries.drop_last(), at, entry);
        assert(entries_map(grown) =~= entries_map(entries).insert(entry.0@, entry.1.tree()));
    }
}

proof fn entries_map_update(entries: Seq<(String, Json)>, at: int, entry: (String, Json))
    requires
        0 <= at < entries.len(),
        entries[at].0@ == entry.0@,
        forall|i: int| at < i < entries.len() ==> #[trigger] entries[i].0@ != entry.0@,
    ensures
        entries_map(entries.update(at, entry)) == entries_map(entries).insert(
            entry.0@,
            entry.1.tree(),
        ),
    decreases entries.len(),
{
    let changed = entries.update(at, entry);
    if at == entries.len() - 1 {
        assert(changed.drop_last() =~= entries.drop_last());
        assert(entries_map(changed) =~= entries_map(entries).insert(entry.0@, entry.1.tree()));
    } else {
        assert(changed.drop_last() =~= entries.drop_last().update(at, entry));
        assert(changed.last() == entries.last());
        entries_map_update(entries.drop_last(), at, entry);
        assert(entries_map(changed) =~= entries_map(entries).insert(entry.0@, entry.1.tree()));
    }
}

impl JsonObject {
    /// An object without members.
    pub fn new() -> (object: Self)
        ensures
            object@ == Map::<Seq<char>, JsonTree>::empty(),
    {
        JsonObject { entries: Vec::new() }
    }

    /// The member `key`, if there is one.
    pub fn get(&self, key: &str) -> (found: Option<&Json>)
        ensures
            found is Some <==> self@.contains_key(key@),
            found matches Some(value) ==> value@ == self@[key@],
    {
        proof {
            use_type_invariant(self);
            assert(distinct(self.entries@));
        }
        let mut i: usize = 0;
        while i < self.entries.len()
            invariant
                i <= self.entries@.len(),
                distinct(self.entries@),
                forall|k: int| 0 <= k < i ==> #[trigger] self.entries@[k].0@ != key@,
            decreases self.entries@.len() - i,
        {
            if same_text(self.entries[i].0.as_str(), key) {
                proof {
                    entries_map_at(self.entries@, i as int);
                }
                return Some(&self.entries[i].1);
            }
            i = i + 1;
        }
        proof {
            entries_map_lacks(self.entries@, key@);
        }
        None
    }

    /// Sets the member `key`, in place of the one that was there.
    pub fn insert(&mut self, key: String, value: Json)
        ensures
            final(self)@ == old(self)@.insert(key@, value@),
    {
        proof {
            use_type_invariant(&*self);
        }
        let mut entries: Vec<(String, Json)> = Vec::new();
        std::mem::swap(&mut entries, &mut self.entries);
        let mut i: usize = 0;
        while i < entries.len() && !at_most(key.as_str(), entries[i].0.as_str())
            invariant
                i <= entries@.len(),
                forall|k: int|
                    0 <= k < i ==> !crate::text::text_le(key@, #[trigger] entries@[k].0@),
            decreases entries@.len() - i,
        {
            i = i + 1;
        }
        proof {
            assert forall|k: int| 0 <= k < i implies before(#[trigger] entries@[k].0@, key@) by {
                crate::text::text_le_total(key@, entries@[k].0@);
                crate::text::text_le_reflexive(key@);
            }
        }
        if i < entries.len() && same_text(key.as_str(), entries[i].0.as_str()) {
            proof {
                entries_map_update(entries@, i as int, (key, value));
            }
            entries.set(i, (key, value));
        } else {
            proof {
                assert forall|k: int| i <= k < entries@.len() implies before(
                    key@,
                    #[trigger] entries@[k].0@,
                ) by {
                    if k > i {
                        crate::text::text_le_transitive(key@, entries@[i as int].0@, entries@[k].0@);
                        if key@ == entries@[k].0@ {
                            crate::text::text_le_antisymmetric(
                                entries@[i as int].0@,
                                entries@[k].0@,
                            );
                        }
                    }
                }
                entries_map_insert(entries@, i as int, (key, value));
            }
            entries.insert(i, (key, value));
        }
        self.entries = entries;
    }

    /// This object with the member `key` set.
    pub fn with(self, key: &str, value: Json) -> (object: Self)
        ensures
            object@ == self@.insert(key@, value@),
    {
        let mut object = self;
        object.insert(key.to_string(), value);
        object
    }

    /// How many members there are.
    pub fn len(&self) -> (n: usize)
        ensures
            self@.dom().finite(),
            n == self@.dom().len(),
    {
        proof {
            use_type_invariant(self);
            entries_map_size(self.entries@);
        }
        self.entries.len()
    }

    /// Sets every member of `other`, in place of those that were there.
    pub fn merge(&mut self, other: &JsonObject)
        ensures
            final(self)@ == old(self)@.union_prefer_right(other@),
    {
        let ghost start = self@;
        let mut i: usize = 0;
        assert(self@ =~= start.union_prefer_right(entries_map(other.entries@.take(0))));
        while i < other.entries.len()
            invariant
                i <= other.entries@.len(),
                self@ == start.union_prefer_right(entries_map(other.entries@.take(i as int))),
            decreases other.entries@.len() - i,
        {
            let key = other.entries[i].0.clone();
            let value = other.entries[i].1.clone();
            self.insert(key, value);
            proof {
                let longer = other.entries@.take(i + 1);
                assert(longer.drop_last() =~= other.entries@.take(i as int));
                assert(self@ =~= start.union_prefer_right(entries_map(longer)));
            }
            i = i + 1;
        }
        assert(other.entries@.take(other.entries@.len() as int) =~= other.entries@);
    }
}

impl Clone for Json {
    fn clone(&self) -> (copy: Self)
        ensures
            copy@ == self@,
        decreases self,
    {
        match self {
            Json::Null => Json::Null,
            Json::Bool(b) => Json::Bool(*b),
            Json::Number(n) => Json::Number(n.clone()),
            Json::Text(s) => Json::Text(s.clone()),
            Json::Array(items) => {
                let mut copies: Vec<Json> = Vec::new();
                let mut i: usize = 0;
                while i < items.len()
                    invariant
                        *self is Array,
                        self->Array_0 == *items,
                        i <= items@.len(),
                        copies@.len() == i,
                        forall|k: int| 0 <= k < i ==> #[trigger] copies@[k]@ == items@[k]@,
                    decreases items@.len() - i,
                {
                    assert(decreases_to!(self->Array_0 => self->Array_0@[i as int]));
                    let copy = items[i].clone();
                    copies.push(copy);
                    i = i + 1;
                }
                proof {
                    array_tree(*items);
                    array_tree(copies);
                    assert(trees(copies@) =~= trees(items@));
                }
                Json::Array(copies)
            },
            Json::Object(object) => Json::Object(object.clone()),
        }
    }
}

impl Clone for JsonObject {
    fn clone(&self) -> (copy: Self)
        ensures
            copy@ == self@,
        decreases self,
    {
        proof {
            use_type_invariant(self);
        }
        let mut entries: Vec<(String, Json)> = Vec::new();
        let mut i: usize = 0;
        while i < self.entries.len()
            invariant
                i <= self.entries@.len(),
                entries@.len() == i,
                forall|k: int|
                    0 <= k < i ==> (#[trigger] entries@[k]).0@ == self.entries@[k].0@,
                entries_map(entries@) == entries_map(self.entries@.take(i as int)),
            decreases self.entries@.len() - i,
        {
            let ghost prefix = entries@;
            let key = self.entries[i].0.clone();
            let value = self.entries[i].1.clone();
            entries.push((key, value));
            proof {
                assert(entries@.drop_last() =~= prefix);
                assert(self.entries@.take(i + 1).drop_last() =~= self.entries@.take(i as int));
            }
            i = i + 1;
        }
        proof {
            assert(self.entries@.take(self.entries@.len() as int) =~= self.entries@);
            assert forall|a: int, b: int| 0 <= a < b < entries@.len() implies before(
                #[trigger] entries@[a].0@,
                #[trigger] entries@[b].0@,
            ) by {
                assert(before(self.entries@[a].0@, self.entries@[b].0@));
            }
        }
        JsonObject { entries }
    }
}

impl Json {
    /// A string.
    pub fn text(s: &str) -> (value: Json)
        ensures
            value@ == JsonTree::Text(s@),
    {
        Json::Text(s.to_string())
    }

    /// A natural number.
    pub fn natural(n: u64) -> (value: Json)
        ensures
            value@ == JsonTree::Natural(n as nat),
    {
        Json::Number(number_from(n))
    }

    /// A string, or null where there is none.
    pub fn text_or_null(s: &Option<String>) -> (value: Json)
        ensures
            value@ == text_or_null(crate::text::string_view(*s)),
    {
        match s {
            Some(t) => Json::Text(t.clone()),
            None => Json::Null,
        }
    }

    /// The member `key` of an object.
    pub fn get(&self, key: &str) -> (found: Option<&Json>)
        ensures
            found is Some <==> self@.field(key@) is Some,
            found matches Some(value) ==> self@.field(key@) == Some(value@),
    {
        match self {
            Json::Object(object) => object.get(key),
            _ => None,
        }
    }

    /// The element at `index` of an array.
    pub fn at(&self, index: usize) -> (found: Option<&Json>)
        ensures
            found is Some <==> self@.element(index as int) is Some,
            found matches Some(value) ==> self@.element(index as int) == Some(value@),
    {
        match self {
            Json::Array(items) => if index < items.len() {
                Some(&items[index])
            } else {
                None
            },
            _ => None,
        }
    }

    /// The characters of a string.
    pub fn as_str(&self) -> (found: Option<&str>)
        ensures
            found is Some <==> self@.text() is Some,
            found matches Some(s) ==> self@.text() == Some(s@),
    {
        match self {
            Json::Text(s) => Some(s.as_str()),
            _ => None,
        }
    }

    /// The truth value of a boolean.
    pub fn as_bool(&self) -> (found: Option<bool>)
        ensures
            found == self@.truth(),
    {
        match self {
            Json::Bool(b) => Some(*b),
            _ => None,
        }
    }

    /// The elements of an array.
    pub fn as_array(&self) -> (found: Option<&Vec<Json>>)
        ensures
            found is Some <==> self@.items() is Some,
            found matches Some(items) ==> self@.items() == Some(trees(items@)),
    {
        match self {
            Json::Array(items) => {
                proof {
                    array_tree(*items);
                }
                Some(items)
            },
            _ => None,
        }
    }

    /// The members of an object.
    pub fn as_object(&self) -> (found: Option<&JsonObject>)
        ensures
            found is Some <==> self@.members() is Some,
            found matches Some(object) ==> self@.members() == Some(object@),
    {
        match self {
            Json::Object(object) => Some(object),
            _ => None,
        }
    }
}

} // verus!
