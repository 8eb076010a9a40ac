//! Reference or inline value: telling the two apart by shape.
//!
//! An object that holds the pointer key is a reference, whatever else it
//! holds; every other value is an inline value. The test on the key comes
//! first and is final: a pointer that is no text is an error, not an inline
//! value.

use vstd::prelude::*;
use crate::json::{
    Entry, EntryModel, Json, JsonModel, find, lemma_position_first, lookup, members_model,
};

verus! {

/// The key that marks a reference.
pub const POINTER_KEY: &'static str = "$ref";

/// What the shape of a JSON value says it is.
pub ghost enum Sniffed {
    /// An object with the pointer key, which holds this text.
    Pointer(Seq<char>),
    /// An object with the pointer key, which holds no text.
    Malformed,
    /// Anything else.
    Inline,
}

/// What the shape of a JSON value says it is.
pub open spec fn sniffed(json: JsonModel) -> Sniffed {
    match json {
        JsonModel::Object(members) => match lookup(members, POINTER_KEY@) {
            Some(JsonModel::String(pointer)) => Sniffed::Pointer(pointer),
            Some(_) => Sniffed::Malformed,
            None => Sniffed::Inline,
        },
        _ => Sniffed::Inline,
    }
}

/// The object that a reference is written as: the pointer key alone.
pub open spec fn pointer_object(pointer: Seq<char>) -> JsonModel {
    JsonModel::Object(seq![EntryModel { key: POINTER_KEY@, value: JsonModel::String(pointer) }])
}

/// A written reference is read as that reference.
pub proof fn lemma_pointer_object_sniffed(pointer: Seq<char>)
    ensures
        sniffed(pointer_object(pointer)) == Sniffed::Pointer(pointer),
{
    let members = seq![EntryModel { key: POINTER_KEY@, value: JsonModel::String(pointer) }];
    lemma_position_first(members, POINTER_KEY@, 0);
}

/// The outcome of the test on the pointer key.
pub enum Sniff<'a> {
    Pointer(&'a String),
    Malformed,
    Inline,
}

impl<'a> Sniff<'a> {
    /// The mathematical value.
    pub open spec fn model(&self) -> Sniffed {
        match self {
            Sniff::Pointer(pointer) => Sniffed::Pointer(pointer@),
            Sniff::Malformed => Sniffed::Malformed,
            Sniff::Inline => Sniffed::Inline,
        }
    }
}

/// Tests a JSON value for the pointer key.
pub fn sniff<'a>(json: &'a Json) -> (outcome: Sniff<'a>)
    ensures
        outcome.model() == sniffed(json.model()),
{
    match json {
        Json::Object(members) => match find(members, POINTER_KEY) {
            Some(Json::String(pointer)) => Sniff::Pointer(pointer),
            Some(_) => Sniff::Malformed,
            None => Sniff::Inline,
        },
        _ => Sniff::Inline,
    }
}

/// The object that a reference is written as.
pub fn pointer_json(pointer: &String) -> (json: Json)
    ensures
        json.model() == pointer_object(pointer@),
{
    let mut members: Vec<Entry<Json>> = Vec::new();
    members.push(Entry { key: POINTER_KEY.to_owned(), value: Json::String(pointer.clone()) });
    assert(members_model(members@) =~= pointer_object(pointer@)->Object_0);
    Json::Object(members)
}

} // verus!
