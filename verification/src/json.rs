//! JSON values as plain data, and the lookups that the decoders share.

use vstd::prelude::*;
use vstd::utf8::{encode_utf8, encode_utf8_decode_utf8};
use vstd::string::StringSliceAdditionalSpecFns;
use crate::error::CodecError;
use crate::wire::{
    bytes_value, json_of_value, parse_bytes, parse_text, print_value, printed, stored, text_value,
    value_of_json,
};

verus! {

/// One member of a JSON object, or one entry of a keyed table.
#[derive(Clone, Debug, PartialEq)]
pub struct Entry<T> {
    pub key: String,
    pub value: T,
}

/// The mathematical value of an [`Entry`].
pub ghost struct EntryModel<M> {
    pub key: Seq<char>,
    pub value: M,
}

/// A JSON value. The members of an object keep the order in which they were
/// given; a key that occurs twice is read at its first occurrence.
#[derive(Debug, PartialEq)]
pub enum Json {
    Null,
    Bool(bool),
    Number(serde_json::Number),
    String(String),
    Array(Vec<Json>),
    Object(Vec<Entry<Json>>),
}

/// The mathematical value of a [`Json`].
pub ghost enum JsonModel {
    Null,
    Bool(bool),
    Number(serde_json::Number),
    String(Seq<char>),
    Array(Seq<JsonModel>),
    Object(Seq<EntryModel<JsonModel>>),
}

/// The values of a run of JSON items.
pub open spec fn items_model(items: Seq<Json>) -> Seq<JsonModel>
    decreases items,
{
    Seq::new(
        items.len(),
        |i: int|
            if 0 <= i < items.len() {
                items[i].model()
            } else {
                JsonModel::Null
            },
    )
}

/// The values of a run of object members.
pub open spec fn members_model(members: Seq<Entry<Json>>) -> Seq<EntryModel<JsonModel>>
    decreases members,
{
    Seq::new(
        members.len(),
        |i: int|
            if 0 <= i < members.len() {
                EntryModel { key: members[i].key@, value: members[i].value.model() }
            } else {
                EntryModel { key: Seq::empty(), value: JsonModel::Null }
            },
    )
}

/// The index of the first entry with the given key, or the length of the
/// sequence where no entry has it.
#[verifier::opaque]
pub open spec fn position<M>(entries: Seq<EntryModel<M>>, key: Seq<char>) -> int
    decreases entries.len(),
{
    if entries.len() == 0 {
        0
    } else if entries[0].key == key {
        0
    } else {
        1 + position(entries.drop_first(), key)
    }
}

/// The value of the first entry with the given key.
pub open spec fn lookup<M>(entries: Seq<EntryModel<M>>, key: Seq<char>) -> Option<M> {
    let at = position(entries, key);
    if 0 <= at < entries.len() {
        Some(entries[at].value)
    } else {
        None
    }
}

/// Whether no key occurs twice among the entries.
pub open spec fn distinct_keys<M>(entries: Seq<EntryModel<M>>) -> bool {
    forall|i: int, j: int|
        0 <= i < entries.len() && 0 <= j < entries.len() && i != j ==> (#[trigger] entries[i]).key
            != (#[trigger] entries[j]).key
}

/// Whether every object in the value is a mapping: none of them holds a key
/// twice. The parser yields such values only.
pub open spec fn well_formed(json: JsonModel) -> bool
    decreases json,
{
    match json {
        JsonModel::Array(items) => forall|i: int|
            0 <= i < items.len() ==> well_formed(#[trigger] items[i]),
        JsonModel::Object(members) => distinct_keys(members) && forall|i: int|
            0 <= i < members.len() ==> well_formed((#[trigger] members[i]).value),
        _ => true,
    }
}

/// Whether a key is found depends on the keys alone.
pub proof fn lemma_lookup_same_keys<A, B>(
    left: Seq<EntryModel<A>>,
    right: Seq<EntryModel<B>>,
    key: Seq<char>,
)
    requires
        left.len() == right.len(),
        forall|i: int| 0 <= i < left.len() ==> (#[trigger] left[i]).key == right[i].key,
    ensures
        lookup(left, key) is Some <==> lookup(right, key) is Some,
{
    lemma_position_bounds(left, key);
    lemma_position_bounds(right, key);
    let a = position(left, key);
    let b = position(right, key);
    if a < left.len() {
        assert(right[a].key == key) by {
            assert(left[a].key == right[a].key);
        }
    }
    if b < right.len() {
        assert(left[b].key == key);
    }
}

/// In a mapping the value under a key is the value of the only entry with
/// that key.
pub proof fn lemma_lookup_unique<M>(entries: Seq<EntryModel<M>>, at: int)
    requires
        distinct_keys(entries),
        0 <= at < entries.len(),
    ensures
        lookup(entries, entries[at].key) == Some(entries[at].value),
{
    lemma_position_bounds(entries, entries[at].key);
    let first = position(entries, entries[at].key);
    if first != at {
        assert(entries[first].key == entries[at].key);
    }
}

/// The value of an optional borrowed JSON value.
pub open spec fn slot_model(slot: Option<&Json>) -> Option<JsonModel> {
    match slot {
        Some(json) => Some(json.model()),
        None => None,
    }
}

/// `position` is the first index that holds the key.
pub proof fn lemma_position_first<M>(entries: Seq<EntryModel<M>>, key: Seq<char>, at: int)
    requires
        0 <= at <= entries.len(),
        forall|j: int| 0 <= j < at ==> entries[j].key != key,
        at < entries.len() ==> entries[at].key == key,
    ensures
        position(entries, key) == at,
    decreases entries.len(),
{
    reveal_with_fuel(position, 2);
    if at > 0 {
        let rest = entries.drop_first();
        assert forall|j: int| 0 <= j < at - 1 implies rest[j].key != key by {
            assert(rest[j] == entries[j + 1]);
        }
        lemma_position_first(rest, key, at - 1);
    }
}

/// `position` lies within the sequence or at its end, no entry before it
/// holds the key, and the entry at it does.
pub proof fn lemma_position_bounds<M>(entries: Seq<EntryModel<M>>, key: Seq<char>)
    ensures
        0 <= position(entries, key) <= entries.len(),
        forall|j: int| 0 <= j < position(entries, key) ==> entries[j].key != key,
        position(entries, key) < entries.len() ==> entries[position(entries, key)].key == key,
    decreases entries.len(),
{
    reveal_with_fuel(position, 2);
    if entries.len() > 0 && entries[0].key != key {
        let rest = entries.drop_first();
        lemma_position_bounds(rest, key);
        assert forall|j: int| 0 <= j < position(entries, key) implies entries[j].key != key by {
            if j > 0 {
                assert(entries[j] == rest[j - 1]);
            }
        }
    }
}

/// A lookup in two sequences put end to end reads the first, and the second
/// only where the first lacks the key.
pub proof fn lemma_lookup_concat<M>(
    front: Seq<EntryModel<M>>,
    back: Seq<EntryModel<M>>,
    key: Seq<char>,
)
    ensures
        lookup(front + back, key) == if lookup(front, key) is Some {
            lookup(front, key)
        } else {
            lookup(back, key)
        },
{
    lemma_position_bounds(front, key);
    lemma_position_bounds(back, key);
    let whole = front + back;
    let at = position(front, key);
    if at < front.len() {
        assert forall|j: int| 0 <= j < at implies whole[j].key != key by {
            assert(whole[j] == front[j]);
        }
        assert(whole[at] == front[at]);
        lemma_position_first(whole, key, at);
    } else {
        let beyond = position(back, key);
        assert forall|j: int| 0 <= j < front.len() + beyond implies whole[j].key != key by {
            if j < front.len() {
                assert(whole[j] == front[j]);
            } else {
                assert(whole[j] == back[j - front.len()]);
            }
        }
        if beyond < back.len() {
            assert(whole[front.len() + beyond] == back[beyond]);
        }
        lemma_position_first(whole, key, front.len() + beyond);
    }
}

/// A lookup finds a key exactly where some entry holds it.
pub proof fn lemma_lookup_some<M>(entries: Seq<EntryModel<M>>, key: Seq<char>)
    ensures
        lookup(entries, key) is Some <==> exists|i: int|
            0 <= i < entries.len() && (#[trigger] entries[i]).key == key,
{
    lemma_position_bounds(entries, key);
    if lookup(entries, key) is Some {
        assert(entries[position(entries, key)].key == key);
    }
}

/// Whether two texts hold the same characters.
pub fn same_text(left: &str, right: &str) -> (same: bool)
    ensures
        same == (left@ == right@),
{
    let a = left.as_bytes();
    let b = right.as_bytes();
    proof {
        encode_utf8_decode_utf8(left@);
        encode_utf8_decode_utf8(right@);
    }
    if a.len() != b.len() {
        return false;
    }
    let mut i: usize = 0;
    while i < a.len()
        invariant
            i <= a.len(),
            a.len() == b.len(),
            a@ == encode_utf8(left@),
            b@ == encode_utf8(right@),
            forall|j: int| 0 <= j < i ==> a@[j] == b@[j],
        decreases a.len() - i,
    {
        if a[i] != b[i] {
            return false;
        }
        i += 1;
    }
    assert(a@ =~= b@);
    true
}

/// The first member with the given key.
pub fn find<'a>(members: &'a Vec<Entry<Json>>, key: &str) -> (slot: Option<&'a Json>)
    ensures
        slot_model(slot) == lookup(members_model(members@), key@),
{
    let mut i: usize = 0;
    while i < members.len()
        invariant
            i <= members.len(),
            forall|j: int| 0 <= j < i ==> members_model(members@)[j].key != key@,
        decreases members.len() - i,
    {
        if same_text(members[i].key.as_str(), key) {
            proof {
                lemma_position_first(members_model(members@), key@, i as int);
            }
            return Some(&members[i].value);
        }
        i += 1;
    }
    proof {
        lemma_position_first(members_model(members@), key@, i as int);
    }
    None
}

impl Json {
    /// The mathematical value.
    pub open spec fn model(&self) -> JsonModel
        decreases self,
    {
        match self {
            Json::Null => JsonModel::Null,
            Json::Bool(flag) => JsonModel::Bool(*flag),
            Json::Number(number) => JsonModel::Number(*number),
            Json::String(text) => JsonModel::String(text@),
            Json::Array(items) => JsonModel::Array(items_model(items@)),
            Json::Object(members) => JsonModel::Object(members_model(members@)),
        }
    }

    /// Reads a JSON text. Fails with `MalformedInput` exactly where the parser
    /// reports an error. No object of what was read holds a key twice.
    pub fn from_text(text: &str) -> (res: Result<Json, CodecError>)
        ensures
            match res {
                Ok(json) => text_value(text@) == Some(json.model()) && well_formed(json.model()),
                Err(error) => text_value(text@) is None && error == CodecError::MalformedInput,
            },
    {
        match parse_text(text) {
            Ok(value) => Ok(json_of_value(value)),
            Err(_) => Err(CodecError::MalformedInput),
        }
    }

    /// Reads a JSON text given as bytes. Fails with `MalformedInput` exactly
    /// where the parser reports an error. No object of what was read holds a
    /// key twice.
    pub fn from_bytes(bytes: &[u8]) -> (res: Result<Json, CodecError>)
        ensures
            match res {
                Ok(json) => bytes_value(bytes@) == Some(json.model()) && well_formed(json.model()),
                Err(error) => bytes_value(bytes@) is None && error == CodecError::MalformedInput,
            },
    {
        match parse_bytes(bytes) {
            Ok(value) => Ok(json_of_value(value)),
            Err(_) => Err(CodecError::MalformedInput),
        }
    }

    /// The value as compact JSON text.
    pub fn to_text(&self) -> (text: String)
        ensures
            text@ == printed(stored(self.model())),
    {
        let value = value_of_json(self);
        print_value(&value)
    }

    /// A deep copy.
    pub fn duplicate(&self) -> (copy: Json)
        ensures
            copy.model() == self.model(),
        decreases self,
    {
        match self {
            Json::Null => Json::Null,
            Json::Bool(flag) => Json::Bool(*flag),
            Json::Number(number) => Json::Number(number.clone()),
            Json::String(text) => Json::String(text.clone()),
            Json::Array(items) => {
                let copies = duplicate_items(items);
                Json::Array(copies)
            },
            Json::Object(members) => {
                let copies = duplicate_members(members);
                Json::Object(copies)
            },
        }
    }
}

impl Clone for Json {
    fn clone(&self) -> (copy: Json)
        ensures
            copy.model() == self.model(),
    {
        self.duplicate()
    }
}

/// A deep copy of a run of items.
pub fn duplicate_items(items: &Vec<Json>) -> (copies: Vec<Json>)
    ensures
        items_model(copies@) == items_model(items@),
    decreases items,
{
    let mut copies: Vec<Json> = Vec::new();
    let mut i: usize = 0;
    while i < items.len()
        invariant
            i <= items.len(),
            copies.len() == i,
            forall|j: int| 0 <= j < i ==> copies@[j].model() == items@[j].model(),
        decreases items.len() - i,
    {
        copies.push(items[i].duplicate());
        i += 1;
    }
    assert(items_model(copies@) =~= items_model(items@));
    copies
}

/// A deep copy of a run of members.
pub fn duplicate_members(members: &Vec<Entry<Json>>) -> (copies: Vec<Entry<Json>>)
    ensures
        members_model(copies@) == members_model(members@),
    decreases members,
{
    let mut copies: Vec<Entry<Json>> = Vec::new();
    let mut i: usize = 0;
    while i < members.len()
        invariant
            i <= members.len(),
            copies.len() == i,
            forall|j: int|
                0 <= j < i ==> copies@[j].key@ == members@[j].key@ && copies@[j].value.model()
                    == members@[j].value.model(),
        decreases members.len() - i,
    {
        let entry = Entry { key: members[i].key.clone(), value: members[i].value.duplicate() };
        copies.push(entry);
        i += 1;
    }
    assert(members_model(copies@) =~= members_model(members@));
    copies
}

} // verus!
