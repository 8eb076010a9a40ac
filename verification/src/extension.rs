//! Named fields and the bag of everything else.
//!
//! A record names some of the keys of a JSON object. Reading the object, the
//! named keys go to the fields and every other member goes to the extension
//! bag, whatever its key. Writing it, the fields come first, in the order in
//! which the record names them, and the bag follows at the same level.

use vstd::prelude::*;
use crate::error::CodecError;
use crate::json::{
    Entry, EntryModel, Json, JsonModel, distinct_keys, duplicate_members, find,
    lemma_lookup_concat, lemma_lookup_some, lemma_position_first, lookup, members_model, position,
    same_text, slot_model,
};
use crate::codec::option_json_model;

verus! {

/// The members of an object that its record does not name.
#[derive(Debug, PartialEq)]
pub struct Extensions {
    pub entries: Vec<Entry<Json>>,
}

/// The members whose key is none of the names, in their order.
#[verifier::opaque]
pub open spec fn remainder(
    members: Seq<EntryModel<JsonModel>>,
    names: Seq<Seq<char>>,
) -> Seq<EntryModel<JsonModel>> {
    members.filter(|member: EntryModel<JsonModel>| !names.contains(member.key))
}

/// Whether some key of the bag is one of the names.
pub open spec fn collides(names: Seq<Seq<char>>, extensions: Seq<EntryModel<JsonModel>>) -> bool {
    exists|i: int| 0 <= i < extensions.len() && names.contains((#[trigger] extensions[i]).key)
}

/// The members that the named fields are written as: one for each field that
/// holds a value, in the order of the names.
#[verifier::opaque]
pub open spec fn named_members(
    names: Seq<Seq<char>>,
    slots: Seq<Option<JsonModel>>,
) -> Seq<EntryModel<JsonModel>>
    decreases names.len(),
{
    if names.len() == 0 || slots.len() != names.len() {
        Seq::empty()
    } else {
        let before = named_members(names.drop_last(), slots.drop_last());
        match slots.last() {
            Some(json) => before.push(EntryModel { key: names.last(), value: json }),
            None => before,
        }
    }
}

/// The members of a written record: the named fields, then the bag.
pub open spec fn assembled(
    names: Seq<Seq<char>>,
    slots: Seq<Option<JsonModel>>,
    extensions: Seq<EntryModel<JsonModel>>,
) -> Seq<EntryModel<JsonModel>> {
    named_members(names, slots) + extensions
}

/// The texts of a run of names.
pub open spec fn names_model(names: Seq<&'static str>) -> Seq<Seq<char>> {
    names.map_values(|name: &'static str| name@)
}

/// Every written field carries one of the names.
pub proof fn lemma_named_keys(names: Seq<Seq<char>>, slots: Seq<Option<JsonModel>>)
    ensures
        forall|i: int|
            0 <= i < named_members(names, slots).len() ==> names.contains(
                (#[trigger] named_members(names, slots)[i]).key,
            ),
    decreases names.len(),
{
    reveal_with_fuel(named_members, 2);
    if names.len() == 0 || slots.len() != names.len() {
    } else {
        let shorter = names.drop_last();
        lemma_named_keys(shorter, slots.drop_last());
        let before = named_members(shorter, slots.drop_last());
        assert forall|i: int| 0 <= i < named_members(names, slots).len() implies names.contains(
            (#[trigger] named_members(names, slots)[i]).key,
        ) by {
            if i < before.len() {
                let key = before[i].key;
                assert(shorter.contains(key));
                let at = choose|j: int| 0 <= j < shorter.len() && shorter[j] == key;
                assert(names[at] == key);
            } else {
                assert(names[names.len() - 1] == names.last());
            }
        }
    }
}

/// A key that is none of the names is not among the written fields.
pub proof fn lemma_named_lookup_other(
    names: Seq<Seq<char>>,
    slots: Seq<Option<JsonModel>>,
    key: Seq<char>,
)
    requires
        !names.contains(key),
    ensures
        lookup(named_members(names, slots), key) is None,
{
    lemma_named_keys(names, slots);
    lemma_lookup_some(named_members(names, slots), key);
}

/// Among the written fields each name leads to the value of its own field.
pub proof fn lemma_named_lookup(names: Seq<Seq<char>>, slots: Seq<Option<JsonModel>>, i: int)
    requires
        names.len() == slots.len(),
        names.no_duplicates(),
        0 <= i < names.len(),
    ensures
        lookup(named_members(names, slots), names[i]) == slots[i],
    decreases names.len(),
{
    reveal_with_fuel(named_members, 2);
    let shorter = names.drop_last();
    let fewer = slots.drop_last();
    let before = named_members(shorter, fewer);
    let last = match slots.last() {
        Some(json) => seq![EntryModel { key: names.last(), value: json }],
        None => Seq::empty(),
    };
    assert(named_members(names, slots) =~= before + last);
    lemma_lookup_concat(before, last, names[i]);
    if i < names.len() - 1 {
        assert(shorter.no_duplicates());
        lemma_named_lookup(shorter, fewer, i);
        assert(names[i] != names.last());
        lemma_lookup_some(last, names[i]);
    } else {
        assert(!shorter.contains(names[i])) by {
            if shorter.contains(names[i]) {
                let at = choose|j: int| 0 <= j < shorter.len() && shorter[j] == names[i];
                assert(names[at] == names[i]);
            }
        }
        lemma_named_lookup_other(shorter, fewer, names[i]);
        if slots.last() is Some {
            lemma_position_first(last, names[i], 0);
        }
    }
}

/// In a written record each name leads to the value of its own field, where
/// the bag holds none of the names.
pub proof fn lemma_assembled_lookup(
    names: Seq<Seq<char>>,
    slots: Seq<Option<JsonModel>>,
    extensions: Seq<EntryModel<JsonModel>>,
    i: int,
)
    requires
        names.len() == slots.len(),
        names.no_duplicates(),
        !collides(names, extensions),
        0 <= i < names.len(),
    ensures
        lookup(assembled(names, slots, extensions), names[i]) == slots[i],
{
    lemma_named_lookup(names, slots, i);
    lemma_lookup_concat(named_members(names, slots), extensions, names[i]);
    lemma_lookup_some(extensions, names[i]);
}

/// In a written record a key that is none of the names leads into the bag:
/// where the bag lacks it too, the record is written without it.
pub proof fn lemma_assembled_lookup_other(
    names: Seq<Seq<char>>,
    slots: Seq<Option<JsonModel>>,
    extensions: Seq<EntryModel<JsonModel>>,
    key: Seq<char>,
)
    requires
        !names.contains(key),
    ensures
        lookup(assembled(names, slots, extensions), key) == lookup(extensions, key),
{
    lemma_named_lookup_other(names, slots, key);
    lemma_lookup_concat(named_members(names, slots), extensions, key);
}

/// A sequence of which no item passes a test is filtered to nothing.
pub proof fn lemma_filter_none<A>(items: Seq<A>, test: spec_fn(A) -> bool)
    requires
        forall|i: int| 0 <= i < items.len() ==> !test(#[trigger] items[i]),
    ensures
        items.filter(test) == Seq::<A>::empty(),
    decreases items.len(),
{
    reveal(Seq::filter);
    if items.len() > 0 {
        lemma_filter_none(items.drop_last(), test);
    }
}

/// A sequence of which every item passes a test is filtered to itself.
pub proof fn lemma_filter_all<A>(items: Seq<A>, test: spec_fn(A) -> bool)
    requires
        forall|i: int| 0 <= i < items.len() ==> test(#[trigger] items[i]),
    ensures
        items.filter(test) == items,
    decreases items.len(),
{
    reveal(Seq::filter);
    if items.len() > 0 {
        lemma_filter_all(items.drop_last(), test);
        assert(items.drop_last().push(items.last()) =~= items);
    }
}

/// What a written record leaves to the bag is the bag, where the bag holds
/// none of the names.
pub proof fn lemma_assembled_remainder(
    names: Seq<Seq<char>>,
    slots: Seq<Option<JsonModel>>,
    extensions: Seq<EntryModel<JsonModel>>,
)
    requires
        !collides(names, extensions),
    ensures
        remainder(assembled(names, slots, extensions), names) == extensions,
{
    reveal(remainder);
    let unnamed = |member: EntryModel<JsonModel>| !names.contains(member.key);
    let fields = named_members(names, slots);
    lemma_named_keys(names, slots);
    lemma_filter_none(fields, unnamed);
    lemma_filter_all(extensions, unnamed);
    Seq::filter_distributes_over_add(fields, extensions, unnamed);
    assert(Seq::<EntryModel<JsonModel>>::empty() + extensions =~= extensions);
}

/// No key of what is left to the bag is one of the names.
pub proof fn lemma_remainder_unnamed(members: Seq<EntryModel<JsonModel>>, names: Seq<Seq<char>>)
    ensures
        !collides(names, remainder(members, names)),
{
    reveal(remainder);
    let unnamed = |member: EntryModel<JsonModel>| !names.contains(member.key);
    let rest = remainder(members, names);
    assert forall|i: int| 0 <= i < rest.len() implies !names.contains((#[trigger] rest[i]).key) by {
        members.lemma_filter_pred(unnamed, i);
    }
}

/// Extension capture: what is left to the bag is every member whose key is
/// none of the names, as it stands, and nothing else.
pub proof fn lemma_capture_exact(members: Seq<EntryModel<JsonModel>>, names: Seq<Seq<char>>)
    ensures
        forall|i: int|
            0 <= i < members.len() && !names.contains((#[trigger] members[i]).key) ==> remainder(
                members,
                names,
            ).contains(members[i]),
        forall|j: int|
            0 <= j < remainder(members, names).len() ==> members.contains(
                #[trigger] remainder(members, names)[j],
            ) && !names.contains(remainder(members, names)[j].key),
{
    reveal(remainder);
    let unnamed = |member: EntryModel<JsonModel>| !names.contains(member.key);
    let rest = remainder(members, names);
    assert forall|i: int|
        0 <= i < members.len() && !names.contains((#[trigger] members[i]).key) implies rest.contains(
        members[i],
    ) by {
        members.lemma_filter_contains(unnamed, i);
    }
    assert forall|j: int| 0 <= j < rest.len() implies members.contains(#[trigger] rest[j])
        && !names.contains(rest[j].key) by {
        members.lemma_filter_pred(unnamed, j);
        assert(rest.contains(rest[j]));
        members.lemma_filter_contains_rev(unnamed, rest[j]);
    }
}

/// A key that is found in what is left to the bag is found among the
/// members.
pub proof fn lemma_remainder_lookup(
    members: Seq<EntryModel<JsonModel>>,
    names: Seq<Seq<char>>,
    key: Seq<char>,
)
    ensures
        lookup(remainder(members, names), key) is Some ==> lookup(members, key) is Some,
{
    let rest = remainder(members, names);
    lemma_lookup_some(rest, key);
    lemma_lookup_some(members, key);
    lemma_capture_exact(members, names);
    if lookup(rest, key) is Some {
        let at = choose|i: int| 0 <= i < rest.len() && (#[trigger] rest[i]).key == key;
        assert(members.contains(rest[at]));
        let source = choose|i: int| 0 <= i < members.len() && members[i] == rest[at];
        assert(members[source].key == key);
    }
}

/// What is left to the bag of a mapping is a mapping: no key occurs twice in
/// it.
pub proof fn lemma_capture_distinct(members: Seq<EntryModel<JsonModel>>, names: Seq<Seq<char>>)
    requires
        distinct_keys(members),
    ensures
        distinct_keys(remainder(members, names)),
    decreases members.len(),
{
    reveal(remainder);
    reveal(Seq::filter);
    if members.len() > 0 {
        let shorter = members.drop_last();
        let before = remainder(shorter, names);
        let rest = remainder(members, names);
        assert(distinct_keys(shorter)) by {
            assert forall|i: int, j: int|
                0 <= i < shorter.len() && 0 <= j < shorter.len() && i != j implies (
            #[trigger] shorter[i]).key != (#[trigger] shorter[j]).key by {
                assert(shorter[i] == members[i] && shorter[j] == members[j]);
            }
        }
        lemma_capture_distinct(shorter, names);
        lemma_capture_exact(shorter, names);
        assert forall|i: int, j: int| 0 <= i < rest.len() && 0 <= j < rest.len() && i != j implies (
        #[trigger] rest[i]).key != (#[trigger] rest[j]).key by {
            if i < before.len() && j < before.len() {
                assert(rest[i] == before[i] && rest[j] == before[j]);
            } else {
                let inner = if i < before.len() { i } else { j };
                assert(rest[inner] == before[inner]);
                assert(shorter.contains(before[inner]));
                let at = choose|k: int| 0 <= k < shorter.len() && shorter[k] == before[inner];
                assert(members[at] == before[inner]);
                assert(members[members.len() - 1] == members.last());
            }
        }
    }
}

/// Extension capture, written again: the bag that was read from an object
/// can be written beside the named fields whatever they hold, every entry of
/// it is then a member of the written object, at the level of the fields,
/// and reading the written object leaves the same bag.
pub proof fn lemma_capture_rewritten(
    members: Seq<EntryModel<JsonModel>>,
    names: Seq<Seq<char>>,
    slots: Seq<Option<JsonModel>>,
)
    ensures
        !collides(names, remainder(members, names)),
        forall|i: int|
            0 <= i < remainder(members, names).len() ==> assembled(
                names,
                slots,
                remainder(members, names),
            ).contains(#[trigger] remainder(members, names)[i]),
        remainder(assembled(names, slots, remainder(members, names)), names) == remainder(
            members,
            names,
        ),
{
    let bag = remainder(members, names);
    let fields = named_members(names, slots);
    let written = assembled(names, slots, bag);
    lemma_remainder_unnamed(members, names);
    lemma_assembled_remainder(names, slots, bag);
    assert forall|i: int| 0 <= i < bag.len() implies written.contains(#[trigger] bag[i]) by {
        assert(written[fields.len() + i] == bag[i]);
    }
}

/// Whether a key is one of the names.
pub fn is_named(names: &Vec<&'static str>, key: &str) -> (named: bool)
    ensures
        named == names_model(names@).contains(key@),
{
    let mut i: usize = 0;
    while i < names.len()
        invariant
            i <= names.len(),
            forall|j: int| 0 <= j < i ==> names_model(names@)[j] != key@,
        decreases names.len() - i,
    {
        if same_text(names[i], key) {
            assert(names_model(names@)[i as int] == key@);
            return true;
        }
        i += 1;
    }
    false
}

impl Extensions {
    /// The mathematical value: the entries, in order.
    pub open spec fn model(&self) -> Seq<EntryModel<JsonModel>> {
        members_model(self.entries@)
    }

    /// Whether the bag is a mapping: no key occurs twice in it. A bag that was
    /// read from a mapping is one.
    pub open spec fn is_mapping(&self) -> bool {
        distinct_keys(self.model())
    }

    /// An empty bag.
    pub fn new() -> (bag: Extensions)
        ensures
            bag.model() == Seq::<EntryModel<JsonModel>>::empty(),
    {
        let bag = Extensions { entries: Vec::new() };
        assert(bag.model() =~= Seq::<EntryModel<JsonModel>>::empty());
        bag
    }

    /// The number of entries.
    pub fn len(&self) -> (count: usize)
        ensures
            count == self.model().len(),
    {
        self.entries.len()
    }

    /// The value of the first entry with the given key.
    pub fn get(&self, key: &str) -> (slot: Option<&Json>)
        ensures
            slot_model(slot) == lookup(self.model(), key@),
    {
        find(&self.entries, key)
    }

    /// A deep copy.
    pub fn duplicate(&self) -> (copy: Extensions)
        ensures
            copy.model() == self.model(),
    {
        Extensions { entries: duplicate_members(&self.entries) }
    }

    /// The members that none of the names claims, in their order.
    pub fn capture(members: &Vec<Entry<Json>>, names: &Vec<&'static str>) -> (bag: Extensions)
        ensures
            bag.model() == remainder(members_model(members@), names_model(names@)),
            distinct_keys(members_model(members@)) ==> bag.is_mapping(),
    {
        let ghost all = members_model(members@);
        let ghost unnamed = |member: EntryModel<JsonModel>|
            !names_model(names@).contains(member.key);
        let mut entries: Vec<Entry<Json>> = Vec::new();
        let mut i: usize = 0;
        proof {
            reveal(remainder);
            reveal(Seq::filter);
            assert(all.take(0) =~= Seq::empty());
            assert(members_model(entries@) =~= Seq::empty());
        }
        while i < members.len()
            invariant
                i <= members.len(),
                all == members_model(members@),
                unnamed == |member: EntryModel<JsonModel>|
                    !names_model(names@).contains(member.key),
                members_model(entries@) == all.take(i as int).filter(unnamed),
            decreases members.len() - i,
        {
            let ghost before = members_model(entries@);
            proof {
                reveal(Seq::filter);
                assert(all.take(i + 1).drop_last() =~= all.take(i as int));
                assert(all.take(i + 1).last() == all[i as int]);
            }
            if !is_named(names, members[i].key.as_str()) {
                let entry = Entry {
                    key: members[i].key.clone(),
                    value: members[i].value.duplicate(),
                };
                entries.push(entry);
                assert(members_model(entries@) =~= before.push(all[i as int]));
            }
            i += 1;
        }
        proof {
            reveal(remainder);
            assert(all.take(i as int) =~= all);
            if distinct_keys(all) {
                lemma_capture_distinct(all, names_model(names@));
            }
        }
        Extensions { entries }
    }
}

impl Default for Extensions {
    fn default() -> (bag: Extensions)
        ensures
            bag.model() == Seq::<EntryModel<JsonModel>>::empty(),
    {
        Extensions::new()
    }
}

impl Clone for Extensions {
    fn clone(&self) -> (copy: Extensions)
        ensures
            copy.model() == self.model(),
    {
        self.duplicate()
    }
}

/// Reads the fields of one JSON object, and remembers which keys were asked
/// for: what is left in the end is the extension bag.
pub struct ObjectReader<'a> {
    members: &'a Vec<Entry<Json>>,
    names: Vec<&'static str>,
}

impl<'a> ObjectReader<'a> {
    /// The members of the object that is read.
    pub closed spec fn members(&self) -> Seq<EntryModel<JsonModel>> {
        members_model(self.members@)
    }

    /// The keys asked for so far, in order.
    pub closed spec fn names(&self) -> Seq<Seq<char>> {
        names_model(self.names@)
    }

    /// A reader of the given members, of which no key was asked for yet.
    pub fn new(members: &'a Vec<Entry<Json>>) -> (reader: ObjectReader<'a>)
        ensures
            reader.members() == members_model(members@),
            reader.names() == Seq::<Seq<char>>::empty(),
    {
        let reader = ObjectReader { members, names: Vec::new() };
        assert(reader.names() =~= Seq::<Seq<char>>::empty());
        reader
    }

    /// The value of the first member with the given key. The key counts as
    /// named from now on.
    pub fn field(&mut self, key: &'static str) -> (slot: Option<&'a Json>)
        ensures
            final(self).members() == old(self).members(),
            final(self).names() == old(self).names().push(key@),
            slot_model(slot) == lookup(old(self).members(), key@),
    {
        self.names.push(key);
        assert(names_model(self.names@) =~= names_model(old(self).names@).push(key@));
        find(self.members, key)
    }

    /// The members whose key was never asked for.
    pub fn rest(&self) -> (bag: Extensions)
        ensures
            bag.model() == remainder(self.members(), self.names()),
            distinct_keys(self.members()) ==> bag.is_mapping(),
    {
        Extensions::capture(self.members, &self.names)
    }
}

/// Collects the fields of a record that is written, in the order in which
/// they are put.
pub struct ObjectWriter {
    names: Vec<&'static str>,
    members: Vec<Entry<Json>>,
    slots: Ghost<Seq<Option<JsonModel>>>,
}

impl ObjectWriter {
    /// The keys put so far, in order.
    pub closed spec fn names(&self) -> Seq<Seq<char>> {
        names_model(self.names@)
    }

    /// What was put under each key: a value, or nothing.
    pub closed spec fn slots(&self) -> Seq<Option<JsonModel>> {
        self.slots@
    }

    #[verifier::type_invariant]
    spec fn consistent(&self) -> bool {
        &&& self.names@.len() == self.slots@.len()
        &&& members_model(self.members@) == named_members(names_model(self.names@), self.slots@)
    }

    /// A writer into which nothing was put yet.
    pub fn new() -> (writer: ObjectWriter)
        ensures
            writer.names() == Seq::<Seq<char>>::empty(),
            writer.slots() == Seq::<Option<JsonModel>>::empty(),
    {
        let names: Vec<&'static str> = Vec::new();
        let members: Vec<Entry<Json>> = Vec::new();
        proof {
            reveal_with_fuel(named_members, 2);
        }
        assert(names_model(names@) =~= Seq::<Seq<char>>::empty());
        assert(members_model(members@) =~= Seq::<EntryModel<JsonModel>>::empty());
        ObjectWriter { names, members, slots: Ghost(Seq::empty()) }
    }

    /// Puts a field: a member where it holds a value, nothing where it does
    /// not. The key counts as named either way.
    pub fn put(self, key: &'static str, slot: Option<Json>) -> (writer: ObjectWriter)
        ensures
            writer.names() == self.names().push(key@),
            writer.slots() == self.slots().push(option_json_model(slot)),
    {
        proof {
            use_type_invariant(&self);
        }
        let ghost names_before = names_model(self.names@);
        let ghost slots_before = self.slots@;
        let ghost members_before = members_model(self.members@);
        let ghost value = option_json_model(slot);
        let mut names = self.names;
        let mut members = self.members;
        names.push(key);
        match slot {
            Some(json) => {
                members.push(Entry { key: key.to_owned(), value: json });
                assert(members_model(members@) =~= members_before.push(
                    EntryModel { key: key@, value: value->Some_0 },
                ));
            },
            None => {},
        }
        proof {
            reveal_with_fuel(named_members, 2);
            let names_after = names_model(names@);
            assert(names_after =~= names_before.push(key@));
            assert(names_after.drop_last() =~= names_before);
            assert(slots_before.push(value).drop_last() =~= slots_before);
        }
        ObjectWriter { names, members, slots: Ghost(slots_before.push(value)) }
    }

    /// The object of the fields put, for a record without an extension bag.
    pub fn finish(self) -> (json: Json)
        ensures
            json.model() == JsonModel::Object(named_members(self.names(), self.slots())),
    {
        proof {
            use_type_invariant(&self);
        }
        Json::Object(self.members)
    }

    /// The object of the fields put, followed by the entries of the bag.
    /// Fails with `ExtensionCollision` exactly where a key of the bag is one
    /// of the keys put.
    pub fn finish_with(self, extensions: &Extensions) -> (res: Result<Json, CodecError>)
        ensures
            match res {
                Ok(json) => !collides(self.names(), extensions.model()) && json.model()
                    == JsonModel::Object(
                    assembled(self.names(), self.slots(), extensions.model()),
                ),
                Err(error) => collides(self.names(), extensions.model()) && error
                    == CodecError::ExtensionCollision,
            },
    {
        proof {
            use_type_invariant(&self);
        }
        let ghost fields = members_model(self.members@);
        let ghost bag = extensions.model();
        let mut members = self.members;
        let mut i: usize = 0;
        assert(bag.take(0) =~= Seq::empty());
        assert(fields + Seq::empty() =~= fields);
        while i < extensions.entries.len()
            invariant
                i <= extensions.entries.len(),
                bag == members_model(extensions.entries@),
                members_model(members@) == fields + bag.take(i as int),
                forall|j: int|
                    0 <= j < i ==> !names_model(self.names@).contains((#[trigger] bag[j]).key),
            decreases extensions.entries.len() - i,
        {
            let ghost before = members_model(members@);
            if is_named(&self.names, extensions.entries[i].key.as_str()) {
                assert(names_model(self.names@).contains(bag[i as int].key));
                return Err(CodecError::ExtensionCollision);
            }
            let entry = Entry {
                key: extensions.entries[i].key.clone(),
                value: extensions.entries[i].value.duplicate(),
            };
            members.push(entry);
            assert(members_model(members@) =~= before.push(bag[i as int]));
            assert(bag.take(i + 1) =~= bag.take(i as int).push(bag[i as int]));
            assert(fields + bag.take(i + 1) =~= (fields + bag.take(i as int)).push(bag[i as int]));
            i += 1;
        }
        assert(bag.take(i as int) =~= bag);
        Ok(Json::Object(members))
    }
}

} // verus!
