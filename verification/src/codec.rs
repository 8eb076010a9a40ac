//! The contract that every typed value shares, and its instances for the
//! plain carriers: texts, flags, numbers, raw JSON, boxes, lists and keyed
//! tables.

use vstd::prelude::*;
use crate::error::CodecError;
use crate::json::{
    Entry, EntryModel, Json, JsonModel, distinct_keys, items_model, lemma_lookup_same_keys,
    lemma_position_first, lookup, members_model, same_text, slot_model,
};
use crate::resolver::sniffed;

verus! {

/// A type that is read from JSON and written back to it.
///
/// The specification side speaks of mathematical values only: which JSON
/// values have the shape of the type (`fits`), what each of them holds
/// (`decoded`), which values can be written (`encodable`) and as what
/// (`encoded`), and which values come back unchanged (`valid`).
pub trait Codec: Sized {
    /// The mathematical value of the type.
    type Model;

    /// The mathematical value of `self`.
    spec fn model(&self) -> Self::Model;

    /// Whether a JSON value has the shape of this type.
    spec fn fits(json: JsonModel) -> bool;

    /// What a JSON value of the right shape holds.
    spec fn decoded(json: JsonModel) -> Self::Model;

    /// Whether the value can be written: no extension bag in it holds the key
    /// of a named field of its own record.
    spec fn encodable(value: Self::Model) -> bool;

    /// The JSON value that the value is written as.
    spec fn encoded(value: Self::Model) -> JsonModel;

    /// Whether reading what was written gives the value back. A valid value
    /// is encodable, and holds neither of the two things that are written
    /// but read otherwise: an optional field whose value is written as
    /// `null`, which is read as missing, and an inline value that is written
    /// with the pointer key, which is read as a reference.
    spec fn valid(value: Self::Model) -> bool;

    /// Reads a value. Fails with `ShapeMismatch` exactly on JSON of another
    /// shape.
    fn decode(json: &Json) -> (res: Result<Self, CodecError>)
        ensures
            match res {
                Ok(value) => Self::fits(json.model()) && value.model() == Self::decoded(
                    json.model(),
                ),
                Err(error) => !Self::fits(json.model()) && error == CodecError::ShapeMismatch,
            },
    ;

    /// Writes the value. Fails with `ExtensionCollision` exactly on a value
    /// that is not encodable.
    fn encode(&self) -> (res: Result<Json, CodecError>)
        ensures
            match res {
                Ok(json) => Self::encodable(self.model()) && json.model() == Self::encoded(
                    self.model(),
                ),
                Err(error) => !Self::encodable(self.model()) && error
                    == CodecError::ExtensionCollision,
            },
    ;

    /// A deep copy: a value of its own that holds the same.
    fn duplicate(&self) -> (copy: Self)
        ensures
            copy.model() == self.model(),
    ;

    /// A valid value can be written, what is written has the shape of the
    /// type, and reading it gives the value back.
    proof fn lemma_round_trip(value: Self::Model)
        requires
            Self::valid(value),
        ensures
            Self::encodable(value),
            Self::fits(Self::encoded(value)),
            Self::decoded(Self::encoded(value)) == value,
    ;

    /// What was read is valid: it can be written, and reading what is
    /// written gives it back. What is written of it is `null` only where it
    /// was read from `null`, and holds the pointer key only where what it was
    /// read from held it.
    proof fn lemma_read_is_valid(json: JsonModel)
        requires
            Self::fits(json),
        ensures
            Self::valid(Self::decoded(json)),
            json != JsonModel::Null ==> Self::encoded(Self::decoded(json)) != JsonModel::Null,
            sniffed(json) is Inline ==> sniffed(Self::encoded(Self::decoded(json))) is Inline,
    ;
}

/// A field that is absent and a field that holds `null` read alike.
pub open spec fn present(slot: Option<JsonModel>) -> Option<JsonModel> {
    match slot {
        Some(JsonModel::Null) => None,
        Some(json) => Some(json),
        None => None,
    }
}

/// A field that is absent and a field that holds `null` read alike.
pub fn present_json<'a>(slot: Option<&'a Json>) -> (kept: Option<&'a Json>)
    ensures
        slot_model(kept) == present(slot_model(slot)),
{
    match slot {
        Some(Json::Null) => None,
        Some(json) => Some(json),
        None => None,
    }
}

/// The mathematical value of an optional value.
pub open spec fn option_model<T: Codec>(value: Option<T>) -> Option<T::Model> {
    match value {
        Some(inner) => Some(inner.model()),
        None => None,
    }
}

/// Whether a field that must be there is there, with the right shape.
#[verifier::opaque]
pub open spec fn required_fits<T: Codec>(slot: Option<JsonModel>) -> bool {
    slot matches Some(json) && T::fits(json)
}

/// What a field that must be there holds.
#[verifier::opaque]
pub open spec fn required_decoded<T: Codec>(slot: Option<JsonModel>) -> T::Model {
    T::decoded(slot->Some_0)
}

/// Whether a field that must be there can be written.
#[verifier::opaque]
pub open spec fn required_encodable<T: Codec>(value: T::Model) -> bool {
    T::encodable(value)
}

/// Whether a field that must be there comes back unchanged.
#[verifier::opaque]
pub open spec fn required_valid<T: Codec>(value: T::Model) -> bool {
    T::valid(value)
}

/// What a field that must be there is written as.
#[verifier::opaque]
pub open spec fn required_encoded<T: Codec>(value: T::Model) -> Option<JsonModel> {
    Some(T::encoded(value))
}

/// Whether a field that may be missing is missing, `null`, or of the right
/// shape.
#[verifier::opaque]
pub open spec fn optional_fits<T: Codec>(slot: Option<JsonModel>) -> bool {
    match present(slot) {
        Some(json) => T::fits(json),
        None => true,
    }
}

/// What a field that may be missing holds.
#[verifier::opaque]
pub open spec fn optional_decoded<T: Codec>(slot: Option<JsonModel>) -> Option<T::Model> {
    match present(slot) {
        Some(json) => Some(T::decoded(json)),
        None => None,
    }
}

/// Whether a field that may be missing can be written.
#[verifier::opaque]
pub open spec fn optional_encodable<T: Codec>(value: Option<T::Model>) -> bool {
    match value {
        Some(inner) => T::encodable(inner),
        None => true,
    }
}

/// What a field that may be missing is written as: nothing where it is
/// missing.
#[verifier::opaque]
pub open spec fn optional_encoded<T: Codec>(value: Option<T::Model>) -> Option<JsonModel> {
    match value {
        Some(inner) => Some(T::encoded(inner)),
        None => None,
    }
}

/// Whether a field that may be missing comes back unchanged: a value that is
/// written as `null` would be read as missing.
#[verifier::opaque]
pub open spec fn optional_valid<T: Codec>(value: Option<T::Model>) -> bool {
    match value {
        Some(inner) => T::valid(inner) && T::encoded(inner) != JsonModel::Null,
        None => true,
    }
}

/// A valid optional field comes back unchanged.
pub proof fn lemma_optional_round_trip<T: Codec>(value: Option<T::Model>)
    requires
        optional_valid::<T>(value),
    ensures
        optional_encodable::<T>(value),
        optional_fits::<T>(optional_encoded::<T>(value)),
        optional_decoded::<T>(optional_encoded::<T>(value)) == value,
{
    reveal(optional_fits);
    reveal(optional_decoded);
    reveal(optional_encoded);
    reveal(optional_encodable);
    reveal(optional_valid);
    if let Some(inner) = value {
        T::lemma_round_trip(inner);
    }
}

/// A valid required field comes back unchanged.
pub proof fn lemma_required_round_trip<T: Codec>(value: T::Model)
    requires
        required_valid::<T>(value),
    ensures
        required_encodable::<T>(value),
        required_fits::<T>(required_encoded::<T>(value)),
        required_decoded::<T>(required_encoded::<T>(value)) == value,
{
    reveal(required_fits);
    reveal(required_decoded);
    reveal(required_encoded);
    reveal(required_encodable);
    reveal(required_valid);
    T::lemma_round_trip(value);
}

/// An optional field that was read is valid.
pub proof fn lemma_optional_read_is_valid<T: Codec>(slot: Option<JsonModel>)
    requires
        optional_fits::<T>(slot),
    ensures
        optional_valid::<T>(optional_decoded::<T>(slot)),
{
    reveal(optional_fits);
    reveal(optional_decoded);
    reveal(optional_valid);
    if let Some(json) = present(slot) {
        T::lemma_read_is_valid(json);
    }
}

/// A required field that was read is valid.
pub proof fn lemma_required_read_is_valid<T: Codec>(slot: Option<JsonModel>)
    requires
        required_fits::<T>(slot),
    ensures
        required_valid::<T>(required_decoded::<T>(slot)),
{
    reveal(required_fits);
    reveal(required_decoded);
    reveal(required_valid);
    T::lemma_read_is_valid(slot->Some_0);
}

/// Reads a field that must be there.
pub fn decode_required<T: Codec>(slot: Option<&Json>) -> (res: Result<T, CodecError>)
    ensures
        match res {
            Ok(value) => required_fits::<T>(slot_model(slot)) && value.model()
                == required_decoded::<T>(slot_model(slot)),
            Err(error) => !required_fits::<T>(slot_model(slot)) && error
                == CodecError::ShapeMismatch,
        },
{
    proof {
        reveal(required_fits);
        reveal(required_decoded);
    }
    match slot {
        Some(json) => T::decode(json),
        None => Err(CodecError::ShapeMismatch),
    }
}

/// Reads a field that may be missing.
pub fn decode_optional<T: Codec>(slot: Option<&Json>) -> (res: Result<Option<T>, CodecError>)
    ensures
        match res {
            Ok(value) => optional_fits::<T>(slot_model(slot)) && option_model(value)
                == optional_decoded::<T>(slot_model(slot)),
            Err(error) => !optional_fits::<T>(slot_model(slot)) && error
                == CodecError::ShapeMismatch,
        },
{
    proof {
        reveal(optional_fits);
        reveal(optional_decoded);
    }
    match slot {
        None => Ok(None),
        Some(Json::Null) => Ok(None),
        Some(json) => match T::decode(json) {
            Ok(value) => Ok(Some(value)),
            Err(error) => Err(error),
        },
    }
}

/// Writes a field that must be there.
pub fn encode_required<T: Codec>(value: &T) -> (res: Result<Option<Json>, CodecError>)
    ensures
        match res {
            Ok(slot) => required_encodable::<T>(value.model()) && option_json_model(slot)
                == required_encoded::<T>(value.model()),
            Err(error) => !required_encodable::<T>(value.model()) && error
                == CodecError::ExtensionCollision,
        },
{
    proof {
        reveal(required_encodable);
        reveal(required_encoded);
    }
    match value.encode() {
        Ok(json) => Ok(Some(json)),
        Err(error) => Err(error),
    }
}

/// Writes a field that may be missing.
pub fn encode_optional<T: Codec>(value: &Option<T>) -> (res: Result<Option<Json>, CodecError>)
    ensures
        match res {
            Ok(slot) => optional_encodable::<T>(option_model(*value)) && option_json_model(slot)
                == optional_encoded::<T>(option_model(*value)),
            Err(error) => !optional_encodable::<T>(option_model(*value)) && error
                == CodecError::ExtensionCollision,
        },
{
    proof {
        reveal(optional_encodable);
        reveal(optional_encoded);
    }
    match value {
        None => Ok(None),
        Some(inner) => match inner.encode() {
            Ok(json) => Ok(Some(json)),
            Err(error) => Err(error),
        },
    }
}

/// The mathematical value of an optional borrowed value.
pub open spec fn option_model_of<T: Codec>(value: Option<&T>) -> Option<T::Model> {
    match value {
        Some(inner) => Some(inner.model()),
        None => None,
    }
}

/// A deep copy of a value that may be missing.
pub fn duplicate_optional<T: Codec>(value: &Option<T>) -> (copy: Option<T>)
    ensures
        option_model(copy) == option_model(*value),
{
    match value {
        Some(inner) => Some(inner.duplicate()),
        None => None,
    }
}

/// The value of an optional owned JSON value.
pub open spec fn option_json_model(slot: Option<Json>) -> Option<JsonModel> {
    match slot {
        Some(json) => Some(json.model()),
        None => None,
    }
}

impl Codec for String {
    type Model = Seq<char>;

    open spec fn model(&self) -> Seq<char> {
        self@
    }

    open spec fn fits(json: JsonModel) -> bool {
        json is String
    }

    open spec fn decoded(json: JsonModel) -> Seq<char> {
        json->String_0
    }

    open spec fn encodable(value: Seq<char>) -> bool {
        true
    }

    open spec fn encoded(value: Seq<char>) -> JsonModel {
        JsonModel::String(value)
    }

    open spec fn valid(value: Seq<char>) -> bool {
        true
    }

    fn decode(json: &Json) -> (res: Result<String, CodecError>) {
        match json {
            Json::String(text) => Ok(text.clone()),
            _ => Err(CodecError::ShapeMismatch),
        }
    }

    fn encode(&self) -> (res: Result<Json, CodecError>) {
        Ok(Json::String(self.clone()))
    }

    fn duplicate(&self) -> (copy: String) {
        self.clone()
    }

    proof fn lemma_round_trip(value: Seq<char>) {
    }

    proof fn lemma_read_is_valid(json: JsonModel) {
    }
}

impl Codec for bool {
    type Model = bool;

    open spec fn model(&self) -> bool {
        *self
    }

    open spec fn fits(json: JsonModel) -> bool {
        json is Bool
    }

    open spec fn decoded(json: JsonModel) -> bool {
        json->Bool_0
    }

    open spec fn encodable(value: bool) -> bool {
        true
    }

    open spec fn encoded(value: bool) -> JsonModel {
        JsonModel::Bool(value)
    }

    open spec fn valid(value: bool) -> bool {
        true
    }

    fn decode(json: &Json) -> (res: Result<bool, CodecError>) {
        match json {
            Json::Bool(flag) => Ok(*flag),
            _ => Err(CodecError::ShapeMismatch),
        }
    }

    fn encode(&self) -> (res: Result<Json, CodecError>) {
        Ok(Json::Bool(*self))
    }

    fn duplicate(&self) -> (copy: bool) {
        *self
    }

    proof fn lemma_round_trip(value: bool) {
    }

    proof fn lemma_read_is_valid(json: JsonModel) {
    }
}

impl Codec for serde_json::Number {
    type Model = serde_json::Number;

    open spec fn model(&self) -> serde_json::Number {
        *self
    }

    open spec fn fits(json: JsonModel) -> bool {
        json is Number
    }

    open spec fn decoded(json: JsonModel) -> serde_json::Number {
        json->Number_0
    }

    open spec fn encodable(value: serde_json::Number) -> bool {
        true
    }

    open spec fn encoded(value: serde_json::Number) -> JsonModel {
        JsonModel::Number(value)
    }

    open spec fn valid(value: serde_json::Number) -> bool {
        true
    }

    fn decode(json: &Json) -> (res: Result<serde_json::Number, CodecError>) {
        match json {
            Json::Number(number) => Ok(number.clone()),
            _ => Err(CodecError::ShapeMismatch),
        }
    }

    fn encode(&self) -> (res: Result<Json, CodecError>) {
        Ok(Json::Number(self.clone()))
    }

    fn duplicate(&self) -> (copy: serde_json::Number) {
        self.clone()
    }

    proof fn lemma_round_trip(value: serde_json::Number) {
    }

    proof fn lemma_read_is_valid(json: JsonModel) {
    }
}

/// Raw JSON: every value fits, and is kept as it is.
impl Codec for Json {
    type Model = JsonModel;

    open spec fn model(&self) -> JsonModel {
        Json::model(self)
    }

    open spec fn fits(json: JsonModel) -> bool {
        true
    }

    open spec fn decoded(json: JsonModel) -> JsonModel {
        json
    }

    open spec fn encodable(value: JsonModel) -> bool {
        true
    }

    open spec fn encoded(value: JsonModel) -> JsonModel {
        value
    }

    open spec fn valid(value: JsonModel) -> bool {
        true
    }

    fn decode(json: &Json) -> (res: Result<Json, CodecError>) {
        Ok(Json::duplicate(json))
    }

    fn encode(&self) -> (res: Result<Json, CodecError>) {
        Ok(Json::duplicate(self))
    }

    fn duplicate(&self) -> (copy: Json) {
        Json::duplicate(self)
    }

    proof fn lemma_round_trip(value: JsonModel) {
    }

    proof fn lemma_read_is_valid(json: JsonModel) {
    }
}

impl<T: Codec> Codec for Box<T> {
    type Model = T::Model;

    open spec fn model(&self) -> T::Model {
        (**self).model()
    }

    open spec fn fits(json: JsonModel) -> bool {
        T::fits(json)
    }

    open spec fn decoded(json: JsonModel) -> T::Model {
        T::decoded(json)
    }

    open spec fn encodable(value: T::Model) -> bool {
        T::encodable(value)
    }

    open spec fn encoded(value: T::Model) -> JsonModel {
        T::encoded(value)
    }

    open spec fn valid(value: T::Model) -> bool {
        T::valid(value)
    }

    fn decode(json: &Json) -> (res: Result<Box<T>, CodecError>) {
        match T::decode(json) {
            Ok(value) => Ok(Box::new(value)),
            Err(error) => Err(error),
        }
    }

    fn encode(&self) -> (res: Result<Json, CodecError>) {
        (**self).encode()
    }

    fn duplicate(&self) -> (copy: Box<T>) {
        Box::new((**self).duplicate())
    }

    proof fn lemma_round_trip(value: T::Model) {
        T::lemma_round_trip(value);
    }

    proof fn lemma_read_is_valid(json: JsonModel) {
        T::lemma_read_is_valid(json);
    }
}

/// A list is a JSON array of its items, in order.
impl<T: Codec> Codec for Vec<T> {
    type Model = Seq<T::Model>;

    open spec fn model(&self) -> Seq<T::Model> {
        self@.map_values(|item: T| item.model())
    }

    open spec fn fits(json: JsonModel) -> bool {
        json matches JsonModel::Array(items) && forall|i: int|
            0 <= i < items.len() ==> T::fits(#[trigger] items[i])
    }

    open spec fn decoded(json: JsonModel) -> Seq<T::Model> {
        json->Array_0.map_values(|item: JsonModel| T::decoded(item))
    }

    open spec fn encodable(value: Seq<T::Model>) -> bool {
        forall|i: int| 0 <= i < value.len() ==> T::encodable(#[trigger] value[i])
    }

    open spec fn encoded(value: Seq<T::Model>) -> JsonModel {
        JsonModel::Array(value.map_values(|item: T::Model| T::encoded(item)))
    }

    open spec fn valid(value: Seq<T::Model>) -> bool {
        forall|i: int| 0 <= i < value.len() ==> T::valid(#[trigger] value[i])
    }

    fn decode(json: &Json) -> (res: Result<Vec<T>, CodecError>) {
        match json {
            Json::Array(items) => {
                let mut values: Vec<T> = Vec::new();
                let mut i: usize = 0;
                while i < items.len()
                    invariant
                        i <= items.len(),
                        values.len() == i,
                        json.model() == JsonModel::Array(items_model(items@)),
                        forall|j: int|
                            0 <= j < i ==> T::fits(#[trigger] items_model(items@)[j])
                                && values@[j].model() == T::decoded(items_model(items@)[j]),
                    decreases items.len() - i,
                {
                    assert(items_model(items@)[i as int] == items@[i as int].model());
                    match T::decode(&items[i]) {
                        Ok(value) => {
                            values.push(value);
                        },
                        Err(error) => {
                            assert(!T::fits(json.model()->Array_0[i as int]));
                            return Err(error);
                        },
                    }
                    i += 1;
                }
                assert(values.model() =~= Self::decoded(json.model()));
                Ok(values)
            },
            _ => Err(CodecError::ShapeMismatch),
        }
    }

    fn encode(&self) -> (res: Result<Json, CodecError>) {
        let mut items: Vec<Json> = Vec::new();
        let mut i: usize = 0;
        while i < self.len()
            invariant
                i <= self.len(),
                items.len() == i,
                forall|j: int|
                    0 <= j < i ==> T::encodable(#[trigger] self.model()[j]) && items@[j].model()
                        == T::encoded(self.model()[j]),
            decreases self.len() - i,
        {
            assert(self.model()[i as int] == self@[i as int].model());
            match self[i].encode() {
                Ok(json) => {
                    items.push(json);
                },
                Err(error) => {
                    return Err(error);
                },
            }
            i += 1;
        }
        assert(items_model(items@) =~= Self::encoded(self.model())->Array_0);
        Ok(Json::Array(items))
    }

    fn duplicate(&self) -> (copy: Vec<T>) {
        let mut copies: Vec<T> = Vec::new();
        let mut i: usize = 0;
        while i < self.len()
            invariant
                i <= self.len(),
                copies.len() == i,
                forall|j: int| 0 <= j < i ==> copies@[j].model() == self@[j].model(),
            decreases self.len() - i,
        {
            copies.push(self[i].duplicate());
            i += 1;
        }
        assert(copies.model() =~= self.model());
        copies
    }

    proof fn lemma_round_trip(value: Seq<T::Model>) {
        let items = Self::encoded(value)->Array_0;
        assert forall|i: int| 0 <= i < value.len() implies T::encodable(#[trigger] value[i])
            && T::fits(items[i]) && T::decoded(items[i]) == value[i] by {
            T::lemma_round_trip(value[i]);
        }
        assert(Self::decoded(Self::encoded(value)) =~= value);
    }

    proof fn lemma_read_is_valid(json: JsonModel) {
        let items = json->Array_0;
        assert forall|i: int| 0 <= i < items.len() implies T::valid(
            #[trigger] Self::decoded(json)[i],
        ) by {
            T::lemma_read_is_valid(items[i]);
        }
    }
}

/// A keyed table: the entries of a JSON object whose keys are data, in the
/// order in which the object gives them.
#[derive(Debug, PartialEq)]
pub struct Table<T> {
    pub entries: Vec<Entry<T>>,
}

impl<T: Codec> Clone for Table<T> {
    fn clone(&self) -> (copy: Table<T>)
        ensures
            copy.model() == self.model(),
    {
        self.duplicate()
    }
}

impl<T> Table<T> {
    /// A table without entries.
    pub fn new() -> (table: Table<T>)
        ensures
            table.entries@.len() == 0,
    {
        Table { entries: Vec::new() }
    }

    /// The number of entries.
    pub fn len(&self) -> (count: usize)
        ensures
            count == self.entries@.len(),
    {
        self.entries.len()
    }
}

impl<T: Codec> Table<T> {
    /// Whether the table is a mapping: no key occurs twice in it. A table that
    /// was read from a mapping is one.
    pub open spec fn is_mapping(&self) -> bool {
        distinct_keys(self.model())
    }

    /// The value of the first entry with the given key.
    pub fn get(&self, key: &str) -> (found: Option<&T>)
        ensures
            option_model_of(found) == lookup(self.model(), key@),
    {
        let mut i: usize = 0;
        while i < self.entries.len()
            invariant
                i <= self.entries.len(),
                forall|j: int| 0 <= j < i ==> self.model()[j].key != key@,
            decreases self.entries.len() - i,
        {
            if same_text(self.entries[i].key.as_str(), key) {
                proof {
                    lemma_position_first(self.model(), key@, i as int);
                }
                return Some(&self.entries[i].value);
            }
            i += 1;
        }
        proof {
            lemma_position_first(self.model(), key@, i as int);
        }
        None
    }

    /// A table that was read holds the keys of the object that it was read
    /// from, in the same places: the table of a mapping is a mapping.
    pub proof fn lemma_decoded_keys(json: JsonModel)
        requires
            json is Object,
        ensures
            Self::decoded(json).len() == json->Object_0.len(),
            forall|i: int|
                0 <= i < json->Object_0.len() ==> (#[trigger] Self::decoded(json)[i]).key
                    == json->Object_0[i].key,
            distinct_keys(json->Object_0) ==> distinct_keys(Self::decoded(json)),
    {
    }
}

impl<T: Codec> Codec for Table<T> {
    type Model = Seq<EntryModel<T::Model>>;

    open spec fn model(&self) -> Seq<EntryModel<T::Model>> {
        self.entries@.map_values(
            |entry: Entry<T>| EntryModel { key: entry.key@, value: entry.value.model() },
        )
    }

    open spec fn fits(json: JsonModel) -> bool {
        json matches JsonModel::Object(members) && forall|i: int|
            0 <= i < members.len() ==> T::fits((#[trigger] members[i]).value)
    }

    open spec fn decoded(json: JsonModel) -> Seq<EntryModel<T::Model>> {
        json->Object_0.map_values(
            |member: EntryModel<JsonModel>|
                EntryModel { key: member.key, value: T::decoded(member.value) },
        )
    }

    open spec fn encodable(value: Seq<EntryModel<T::Model>>) -> bool {
        forall|i: int| 0 <= i < value.len() ==> T::encodable((#[trigger] value[i]).value)
    }

    open spec fn encoded(value: Seq<EntryModel<T::Model>>) -> JsonModel {
        JsonModel::Object(
            value.map_values(
                |entry: EntryModel<T::Model>|
                    EntryModel { key: entry.key, value: T::encoded(entry.value) },
            ),
        )
    }

    open spec fn valid(value: Seq<EntryModel<T::Model>>) -> bool {
        forall|i: int| 0 <= i < value.len() ==> T::valid((#[trigger] value[i]).value)
    }

    /// A table that is read from a mapping is a mapping.
    fn decode(json: &Json) -> (res: Result<Table<T>, CodecError>)
        ensures
            distinct_keys(json.model()->Object_0) ==> (res matches Ok(table) ==> table.is_mapping()),
    {
        match json {
            Json::Object(members) => {
                let mut entries: Vec<Entry<T>> = Vec::new();
                let mut i: usize = 0;
                while i < members.len()
                    invariant
                        i <= members.len(),
                        entries.len() == i,
                        json.model() == JsonModel::Object(members_model(members@)),
                        forall|j: int|
                            0 <= j < i ==> T::fits((#[trigger] members_model(members@)[j]).value)
                                && entries@[j].key@ == members_model(members@)[j].key
                                && entries@[j].value.model() == T::decoded(
                                members_model(members@)[j].value,
                            ),
                    decreases members.len() - i,
                {
                    assert(members_model(members@)[i as int].value
                        == members@[i as int].value.model());
                    match T::decode(&members[i].value) {
                        Ok(value) => {
                            entries.push(Entry { key: members[i].key.clone(), value });
                        },
                        Err(error) => {
                            assert(!T::fits(json.model()->Object_0[i as int].value));
                            return Err(error);
                        },
                    }
                    i += 1;
                }
                let table = Table { entries };
                assert(table.model() =~= Self::decoded(json.model()));
                Ok(table)
            },
            _ => Err(CodecError::ShapeMismatch),
        }
    }

    fn encode(&self) -> (res: Result<Json, CodecError>) {
        let mut members: Vec<Entry<Json>> = Vec::new();
        let mut i: usize = 0;
        while i < self.entries.len()
            invariant
                i <= self.entries.len(),
                members.len() == i,
                forall|j: int|
                    0 <= j < i ==> T::encodable((#[trigger] self.model()[j]).value)
                        && members@[j].key@ == self.model()[j].key && members@[j].value.model()
                        == T::encoded(self.model()[j].value),
            decreases self.entries.len() - i,
        {
            assert(self.model()[i as int].value == self.entries@[i as int].value.model());
            match self.entries[i].value.encode() {
                Ok(json) => {
                    members.push(Entry { key: self.entries[i].key.clone(), value: json });
                },
                Err(error) => {
                    return Err(error);
                },
            }
            i += 1;
        }
        assert(members_model(members@) =~= Self::encoded(self.model())->Object_0);
        Ok(Json::Object(members))
    }

    fn duplicate(&self) -> (copy: Table<T>) {
        let mut entries: Vec<Entry<T>> = Vec::new();
        let mut i: usize = 0;
        while i < self.entries.len()
            invariant
                i <= self.entries.len(),
                entries.len() == i,
                forall|j: int|
                    0 <= j < i ==> entries@[j].key@ == self.entries@[j].key@
                        && entries@[j].value.model() == self.entries@[j].value.model(),
            decreases self.entries.len() - i,
        {
            entries.push(
                Entry { key: self.entries[i].key.clone(), value: self.entries[i].value.duplicate() },
            );
            i += 1;
        }
        let copy = Table { entries };
        assert(copy.model() =~= self.model());
        copy
    }

    proof fn lemma_round_trip(value: Seq<EntryModel<T::Model>>) {
        let members = Self::encoded(value)->Object_0;
        assert forall|i: int| 0 <= i < value.len() implies T::encodable(
            (#[trigger] value[i]).value,
        ) && T::fits(members[i].value) && T::decoded(members[i].value) == value[i].value by {
            T::lemma_round_trip(value[i].value);
        }
        assert(Self::decoded(Self::encoded(value)) =~= value);
    }

    proof fn lemma_read_is_valid(json: JsonModel) {
        let members = json->Object_0;
        let value = Self::decoded(json);
        assert forall|i: int| 0 <= i < value.len() implies T::valid((#[trigger] value[i]).value) by {
            T::lemma_read_is_valid(members[i].value);
        }
        lemma_lookup_same_keys(Self::encoded(value)->Object_0, members, crate::resolver::POINTER_KEY@);
    }
}

} // verus!
