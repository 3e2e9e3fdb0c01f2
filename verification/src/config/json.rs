//! The document model of the browser's preferences file.
//!
//! A preferences document is a JSON value; an object is an ordered list
//! of key/value entries whose keys are unique in well-formed documents.
//! The merge routine below extends one named top-level section by a list
//! of updates: keys of the updates overwrite same-named keys of the
//! section, every other key of the section and of the document survives
//! unchanged, and a document or section of the wrong shape is reported as
//! a structural fault, never coerced.

use vstd::prelude::*;

verus! {

/// A JSON value.  Numbers keep their decimal spelling, so a document
/// round-trips without loss.
#[derive(Debug, PartialEq, Eq)]
pub enum Json {
    /// The JSON null value.
    Null,
    /// A JSON boolean.
    Bool(bool),
    /// A JSON number, kept as its decimal spelling.
    Number(String),
    /// A JSON string.
    Text(String),
    /// A JSON array.
    Array(Vec<Json>),
    /// A JSON object: an ordered list of key/value entries.
    Object(Vec<(String, Json)>),
}

/// Mathematical model of a [`Json`] value.
#[verifier::ext_equal]
pub enum JsonVal {
    Null,
    Bool(bool),
    Number(Seq<char>),
    Text(Seq<char>),
    Array(Seq<JsonVal>),
    Object(Seq<(Seq<char>, JsonVal)>),
}

/// The model of a [`Json`] value.
pub open spec fn json_view(j: Json) -> JsonVal
    decreases j,
{
    match j {
        Json::Null => JsonVal::Null,
        Json::Bool(b) => JsonVal::Bool(b),
        Json::Number(s) => JsonVal::Number(s@),
        Json::Text(s) => JsonVal::Text(s@),
        Json::Array(items) => JsonVal::Array(items_view(items@)),
        Json::Object(entries) => JsonVal::Object(entries_view(entries@)),
    }
}

/// The model of a sequence of array items.
pub open spec fn items_view(items: Seq<Json>) -> Seq<JsonVal>
    decreases items,
{
    if items.len() == 0 {
        Seq::empty()
    } else {
        seq![json_view(items[0])] + items_view(items.subrange(1, items.len() as int))
    }
}

/// The model of a sequence of object entries.
pub open spec fn entries_view(entries: Seq<(String, Json)>) -> Seq<(Seq<char>, JsonVal)>
    decreases entries,
{
    if entries.len() == 0 {
        Seq::empty()
    } else {
        seq![(entries[0].0@, json_view(entries[0].1))] + entries_view(
            entries.subrange(1, entries.len() as int),
        )
    }
}

/// The model of a list of array items, read off item by item.
pub broadcast proof fn lemma_items_view_index(items: Seq<Json>)
    ensures
        (#[trigger] items_view(items)).len() == items.len(),
        forall|i: int| 0 <= i < items.len() ==> items_view(items)[i] == json_view(items[i]),
    decreases items.len(),
{
    if items.len() > 0 {
        lemma_items_view_index(items.subrange(1, items.len() as int));
    }
}

/// The model of a list of object entries, read off entry by entry.
pub broadcast proof fn lemma_entries_view_index(entries: Seq<(String, Json)>)
    ensures
        (#[trigger] entries_view(entries)).len() == entries.len(),
        forall|i: int|
            0 <= i < entries.len() ==> entries_view(entries)[i] == (
                entries[i].0@,
                json_view(entries[i].1),
            ),
    decreases entries.len(),
{
    if entries.len() > 0 {
        lemma_entries_view_index(entries.subrange(1, entries.len() as int));
    }
}

impl View for Json {
    type V = JsonVal;

    open spec fn view(&self) -> JsonVal {
        json_view(*self)
    }
}

/// The value of the first entry with the given key, if the object has one.
pub open spec fn lookup(entries: Seq<(Seq<char>, JsonVal)>, key: Seq<char>) -> Option<JsonVal>
    decreases entries.len(),
{
    if entries.len() == 0 {
        None
    } else if entries[0].0 == key {
        Some(entries[0].1)
    } else {
        lookup(entries.drop_first(), key)
    }
}

/// Overwrites the first entry with the given key in place, or appends a
/// new entry when the key is absent.
pub open spec fn upsert(
    entries: Seq<(Seq<char>, JsonVal)>,
    key: Seq<char>,
    value: JsonVal,
) -> Seq<(Seq<char>, JsonVal)>
    decreases entries.len(),
{
    if entries.len() == 0 {
        seq![(key, value)]
    } else if entries[0].0 == key {
        seq![(key, value)] + entries.drop_first()
    } else {
        seq![entries[0]] + upsert(entries.drop_first(), key, value)
    }
}

/// The shallow union of an object with a list of updates: each update is
/// upserted in order, so keys of the updates overwrite same-named keys of
/// the base and every other key of the base survives in place.
pub open spec fn merge_entries(
    base: Seq<(Seq<char>, JsonVal)>,
    updates: Seq<(Seq<char>, JsonVal)>,
) -> Seq<(Seq<char>, JsonVal)>
    decreases updates.len(),
{
    if updates.len() == 0 {
        base
    } else {
        upsert(merge_entries(base, updates.drop_last()), updates.last().0, updates.last().1)
    }
}

/// Holds when no two entries of the object share a key.
pub open spec fn unique_keys(entries: Seq<(Seq<char>, JsonVal)>) -> bool {
    forall|i: int, j: int|
        0 <= i < j < entries.len() ==> entries[i].0 != entries[j].0
}

/// The shape faults that the merge reports.
#[derive(Clone, Copy, Debug, PartialEq, Eq, Structural)]
pub enum MergeFault {
    /// The root of the document is not a JSON object.
    RootNotAnObject,
    /// The targeted section exists but is not a JSON object.
    SectionNotAnObject,
}

/// The fault that merging into the given section of the given document
/// reports, if any.
pub open spec fn spec_merge_fault(doc: JsonVal, section: Seq<char>) -> Option<MergeFault> {
    match doc {
        JsonVal::Object(entries) => match lookup(entries, section) {
            Some(JsonVal::Object(_)) => None,
            Some(_) => Some(MergeFault::SectionNotAnObject),
            None => None,
        },
        _ => Some(MergeFault::RootNotAnObject),
    }
}

/// The document after merging the updates into the named section: an
/// existing section is extended by the shallow union, an absent section
/// is inserted as a new object equal to the updates, and a document with
/// a shape fault is left unchanged.
pub open spec fn spec_update_section(
    doc: JsonVal,
    section: Seq<char>,
    updates: Seq<(Seq<char>, JsonVal)>,
) -> JsonVal {
    match doc {
        JsonVal::Object(entries) => match lookup(entries, section) {
            Some(JsonVal::Object(existing)) => JsonVal::Object(
                upsert(entries, section, JsonVal::Object(merge_entries(existing, updates))),
            ),
            Some(_) => doc,
            None => JsonVal::Object(upsert(entries, section, JsonVal::Object(updates))),
        },
        _ => doc,
    }
}

impl Json {
    /// Merges the updates into the named top-level section of this
    /// document, as [`spec_update_section`] describes; a document whose
    /// root is not an object, or whose targeted section is not an object,
    /// is reported as a fault and left unchanged.
    pub fn update_or_init(&mut self, section: &str, updates: Vec<(String, Json)>) -> (r: Result<
        (),
        MergeFault,
    >)
        ensures
            final(self)@ == spec_update_section(old(self)@, section@, entries_view(updates@)),
            r == match spec_merge_fault(old(self)@, section@) {
                None => Ok::<(), MergeFault>(()),
                Some(fault) => Err::<(), MergeFault>(fault),
            },
    {
        broadcast use lemma_entries_view_index;

        let ghost updates_view = entries_view(updates@);
        match self {
            Json::Object(entries) => {
                match find_index(entries, section) {
                    Some(i) => {
                        let (key, value) = entries.remove(i);
                        proof {
                            lemma_lookup_by_index(entries_view(old(self)->Object_0@), section@, i as int);
                        }
                        match value {
                            Json::Object(section_entries) => {
                                let mut merged = section_entries;
                                extend_entries(&mut merged, updates);
                                entries.insert(i, (key, Json::Object(merged)));
                                proof {
                                    lemma_upsert_at_index(
                                        entries_view(old(self)->Object_0@),
                                        section@,
                                        json_view(Json::Object(merged)),
                                        i as int,
                                    );
                                    assert(entries_view(entries@) =~= entries_view(
                                        old(self)->Object_0@,
                                    ).update(i as int, (section@, json_view(Json::Object(merged)))));
                                    assert(entries_view(entries@)[i as int].0 == key@);
                                }
                                Ok(())
                            },
                            other => {
                                entries.insert(i, (key, other));
                                proof {
                                    assert(entries_view(entries@) =~= entries_view(
                                        old(self)->Object_0@,
                                    ));
                                }
                                Err(MergeFault::SectionNotAnObject)
                            },
                        }
                    },
                    None => {
                        proof {
                            lemma_lookup_none(entries_view(old(self)->Object_0@), section@);
                        }
                        let fresh = Json::Object(updates);
                        entries.push((section.to_owned(), fresh));
                        proof {
                            lemma_upsert_append(
                                entries_view(old(self)->Object_0@),
                                section@,
                                JsonVal::Object(updates_view),
                            );
                            assert(entries_view(entries@) =~= entries_view(
                                old(self)->Object_0@,
                            ).push((section@, JsonVal::Object(updates_view))));
                        }
                        Ok(())
                    },
                }
            },
            _ => Err(MergeFault::RootNotAnObject),
        }
    }
}

impl Json {
    /// The value of the first entry with the given key, when this value
    /// is an object that has one.
    pub fn get_entry(&self, key: &str) -> (r: Option<&Json>)
        ensures
            match r {
                Some(v) => self@ is Object && lookup(self@->Object_0, key@) == Some(v@),
                None => !(self@ is Object) || lookup(self@->Object_0, key@) is None,
            },
    {
        broadcast use lemma_entries_view_index;

        match self {
            Json::Object(entries) => match find_index(entries, key) {
                Some(i) => {
                    proof {
                        lemma_lookup_by_index(entries_view(entries@), key@, i as int);
                    }
                    Some(&entries[i].1)
                },
                None => {
                    proof {
                        lemma_lookup_none(entries_view(entries@), key@);
                    }
                    None
                },
            },
            _ => None,
        }
    }

    /// The first item of this value, when it is a nonempty array.
    pub fn first_item(&self) -> (r: Option<&Json>)
        ensures
            match r {
                Some(v) => self@ is Array && self@->Array_0.len() > 0 && self@->Array_0[0] == v@,
                None => !(self@ is Array) || self@->Array_0.len() == 0,
            },
    {
        broadcast use lemma_items_view_index;

        match self {
            Json::Array(items) => {
                if items.len() > 0 {
                    Some(&items[0])
                } else {
                    None
                }
            },
            _ => None,
        }
    }

    /// The text of this value, when it is a string.
    pub fn as_text(&self) -> (r: Option<&str>)
        ensures
            match r {
                Some(t) => self@ == JsonVal::Text(t@),
                None => !(self@ is Text),
            },
    {
        match self {
            Json::Text(s) => Some(s.as_str()),
            _ => None,
        }
    }
}

/// Decides whether a string equals a string slice.
fn string_eq_str(a: &String, b: &str) -> (r: bool)
    ensures
        r == (a@ == b@),
{
    let owned = b.to_owned();
    *a == owned
}

/// The index of the first entry with the given key, if the object has one.
fn find_index(entries: &Vec<(String, Json)>, key: &str) -> (r: Option<usize>)
    ensures
        match r {
            Some(i) => i < entries@.len() && entries@[i as int].0@ == key@ && (forall|j: int|
                0 <= j < i ==> entries@[j].0@ != key@),
            None => forall|j: int| 0 <= j < entries@.len() ==> entries@[j].0@ != key@,
        },
{
    let mut i: usize = 0;
    while i < entries.len()
        invariant
            i <= entries@.len(),
            forall|j: int| 0 <= j < i ==> entries@[j].0@ != key@,
        decreases entries@.len() - i,
    {
        if string_eq_str(&entries[i].0, key) {
            return Some(i);
        }
        i = i + 1;
    }
    None
}

/// Upserts one entry into an object: the first entry with the same key is
/// overwritten in place, an absent key is appended.
fn upsert_entry(entries: &mut Vec<(String, Json)>, key: String, value: Json)
    ensures
        entries_view(final(entries)@) == upsert(entries_view(old(entries)@), key@, value@),
{
    broadcast use lemma_entries_view_index;

    match find_index(entries, key.as_str()) {
        Some(i) => {
            let _ = entries.remove(i);
            entries.insert(i, (key, value));
            proof {
                lemma_upsert_at_index(entries_view(old(entries)@), key@, value@, i as int);
                assert(entries_view(entries@) =~= entries_view(old(entries)@).update(
                    i as int,
                    (key@, value@),
                ));
            }
        },
        None => {
            entries.push((key, value));
            proof {
                lemma_upsert_append(entries_view(old(entries)@), key@, value@);
                assert(entries_view(entries@) =~= entries_view(old(entries)@).push((key@, value@)));
            }
        },
    }
}

/// Extends an object by a list of updates, upserting each in order: the
/// shallow union of [`merge_entries`].
pub fn extend_entries(section: &mut Vec<(String, Json)>, updates: Vec<(String, Json)>)
    ensures
        entries_view(final(section)@) == merge_entries(
            entries_view(old(section)@),
            entries_view(updates@),
        ),
{
    broadcast use lemma_entries_view_index;

    let ghost base = entries_view(old(section)@);
    let ghost all = entries_view(updates@);
    let ghost full = updates@;
    let mut rest = updates;
    let ghost mut k: int = 0;
    while rest.len() > 0
        invariant
            0 <= k <= full.len(),
            all == entries_view(full),
            rest@ =~= full.skip(k),
            entries_view(section@) == merge_entries(base, all.take(k)),
        decreases rest@.len(),
    {
        proof {
            lemma_entries_view_index(full);
            assert(all.len() == full.len());
            assert(rest@.len() == full.len() - k);
            assert(k < full.len());
        }
        let (key, value) = rest.remove(0);
        proof {
            assert((key, value) == full.skip(k)[0]);
            assert(full.skip(k)[0] == full[k]);
            assert(key@ == all[k].0 && value@ == all[k].1);
        }
        upsert_entry(section, key, value);
        proof {
            assert(rest@ =~= full.skip(k + 1));
            assert(all.take(k + 1).drop_last() =~= all.take(k));
            assert(all.take(k + 1).last() == all[k]);
            assert(merge_entries(base, all.take(k + 1)) == upsert(
                merge_entries(base, all.take(k)),
                all[k].0,
                all[k].1,
            ));
            k = k + 1;
        }
    }
    proof {
        assert(all.take(k) =~= all);
    }
}

/// A lookup finds the entry at the first index whose key matches.
proof fn lemma_lookup_by_index(entries: Seq<(Seq<char>, JsonVal)>, key: Seq<char>, i: int)
    requires
        0 <= i < entries.len(),
        entries[i].0 == key,
        forall|j: int| 0 <= j < i ==> entries[j].0 != key,
    ensures
        lookup(entries, key) == Some(entries[i].1),
    decreases i,
{
    if i > 0 {
        lemma_lookup_by_index(entries.drop_first(), key, i - 1);
    }
}

/// A lookup of a key that no entry has finds nothing.
proof fn lemma_lookup_none(entries: Seq<(Seq<char>, JsonVal)>, key: Seq<char>)
    requires
        forall|j: int| 0 <= j < entries.len() ==> entries[j].0 != key,
    ensures
        lookup(entries, key) is None,
    decreases entries.len(),
{
    if entries.len() > 0 {
        lemma_lookup_none(entries.drop_first(), key);
    }
}

/// Upserting a key present first at index `i` updates the object at `i`.
proof fn lemma_upsert_at_index(
    entries: Seq<(Seq<char>, JsonVal)>,
    key: Seq<char>,
    value: JsonVal,
    i: int,
)
    requires
        0 <= i < entries.len(),
        entries[i].0 == key,
        forall|j: int| 0 <= j < i ==> entries[j].0 != key,
    ensures
        upsert(entries, key, value) =~= entries.update(i, (key, value)),
    decreases i,
{
    if i == 0 {
        assert(upsert(entries, key, value) =~= entries.update(0, (key, value)));
    } else {
        lemma_upsert_at_index(entries.drop_first(), key, value, i - 1);
        assert(upsert(entries, key, value) =~= entries.update(i, (key, value)));
    }
}

/// Upserting a key that no entry has appends the new entry.
proof fn lemma_upsert_append(entries: Seq<(Seq<char>, JsonVal)>, key: Seq<char>, value: JsonVal)
    requires
        forall|j: int| 0 <= j < entries.len() ==> entries[j].0 != key,
    ensures
        upsert(entries, key, value) =~= entries.push((key, value)),
    decreases entries.len(),
{
    if entries.len() > 0 {
        lemma_upsert_append(entries.drop_first(), key, value);
        assert(upsert(entries, key, value) =~= entries.push((key, value)));
    }
}

/// After an upsert, the upserted key maps to the upserted value.
pub proof fn lemma_lookup_upsert_same(
    entries: Seq<(Seq<char>, JsonVal)>,
    key: Seq<char>,
    value: JsonVal,
)
    ensures
        lookup(upsert(entries, key, value), key) == Some(value),
    decreases entries.len(),
{
    if entries.len() == 0 {
    } else if entries[0].0 == key {
        assert((seq![(key, value)] + entries.drop_first())[0] == (key, value));
    } else {
        lemma_lookup_upsert_same(entries.drop_first(), key, value);
        let combined = seq![entries[0]] + upsert(entries.drop_first(), key, value);
        assert(combined.drop_first() =~= upsert(entries.drop_first(), key, value));
    }
}

/// An upsert leaves every other key unchanged.
pub proof fn lemma_lookup_upsert_other(
    entries: Seq<(Seq<char>, JsonVal)>,
    key: Seq<char>,
    value: JsonVal,
    other: Seq<char>,
)
    requires
        other != key,
    ensures
        lookup(upsert(entries, key, value), other) == lookup(entries, other),
    decreases entries.len(),
{
    if entries.len() == 0 {
        let single = seq![(key, value)];
        assert(single.drop_first() =~= Seq::<(Seq<char>, JsonVal)>::empty());
        assert(lookup(single.drop_first(), other) is None);
        assert(lookup(single, other) is None);
    } else if entries[0].0 == key {
        let combined = seq![(key, value)] + entries.drop_first();
        assert(combined.drop_first() =~= entries.drop_first());
    } else {
        lemma_lookup_upsert_other(entries.drop_first(), key, value, other);
        let combined = seq![entries[0]] + upsert(entries.drop_first(), key, value);
        assert(combined.drop_first() =~= upsert(entries.drop_first(), key, value));
        assert(combined[0] == entries[0]);
    }
}

/// Upserting the value an object already maps a key to leaves the object
/// unchanged.
pub proof fn lemma_upsert_found_identity(
    entries: Seq<(Seq<char>, JsonVal)>,
    key: Seq<char>,
    value: JsonVal,
)
    requires
        lookup(entries, key) == Some(value),
    ensures
        upsert(entries, key, value) =~= entries,
    decreases entries.len(),
{
    if entries.len() == 0 {
    } else if entries[0].0 == key {
        assert(entries[0] == (key, value));
        assert(upsert(entries, key, value) =~= entries);
    } else {
        lemma_upsert_found_identity(entries.drop_first(), key, value);
        assert(upsert(entries, key, value) =~= entries);
    }
}

/// A merge leaves every key that the updates do not mention unchanged.
pub proof fn lemma_merge_frame(
    base: Seq<(Seq<char>, JsonVal)>,
    updates: Seq<(Seq<char>, JsonVal)>,
    other: Seq<char>,
)
    requires
        forall|i: int| 0 <= i < updates.len() ==> updates[i].0 != other,
    ensures
        lookup(merge_entries(base, updates), other) == lookup(base, other),
    decreases updates.len(),
{
    if updates.len() > 0 {
        lemma_merge_frame(base, updates.drop_last(), other);
        lemma_lookup_upsert_other(
            merge_entries(base, updates.drop_last()),
            updates.last().0,
            updates.last().1,
            other,
        );
    }
}

/// After a merge with unique update keys, every update key maps to its
/// update value.
pub proof fn lemma_merge_hits(
    base: Seq<(Seq<char>, JsonVal)>,
    updates: Seq<(Seq<char>, JsonVal)>,
    i: int,
)
    requires
        unique_keys(updates),
        0 <= i < updates.len(),
    ensures
        lookup(merge_entries(base, updates), updates[i].0) == Some(updates[i].1),
    decreases updates.len(),
{
    let prefix = updates.drop_last();
    if i == updates.len() - 1 {
        lemma_lookup_upsert_same(merge_entries(base, prefix), updates.last().0, updates.last().1);
    } else {
        lemma_merge_hits(base, prefix, i);
        lemma_lookup_upsert_other(
            merge_entries(base, prefix),
            updates.last().0,
            updates.last().1,
            updates[i].0,
        );
    }
}

/// Merging updates into an object that already maps every update key to
/// its update value leaves the object unchanged.
pub proof fn lemma_merge_noop(
    base: Seq<(Seq<char>, JsonVal)>,
    updates: Seq<(Seq<char>, JsonVal)>,
)
    requires
        forall|i: int|
            0 <= i < updates.len() ==> lookup(base, updates[i].0) == Some(updates[i].1),
    ensures
        merge_entries(base, updates) =~= base,
    decreases updates.len(),
{
    if updates.len() > 0 {
        lemma_merge_noop(base, updates.drop_last());
        lemma_upsert_found_identity(base, updates.last().0, updates.last().1);
    }
}

/// The merge preserves unrelated sections: every top-level key other
/// than the targeted section maps to the same value before and after.
pub proof fn lemma_update_section_preserves_other_sections(
    doc: JsonVal,
    section: Seq<char>,
    updates: Seq<(Seq<char>, JsonVal)>,
    other: Seq<char>,
)
    requires
        doc is Object,
        other != section,
    ensures
        spec_update_section(doc, section, updates) is Object,
        lookup(spec_update_section(doc, section, updates)->Object_0, other) == lookup(
            doc->Object_0,
            other,
        ),
{
    let entries = doc->Object_0;
    match lookup(entries, section) {
        Some(JsonVal::Object(existing)) => {
            lemma_lookup_upsert_other(
                entries,
                section,
                JsonVal::Object(merge_entries(existing, updates)),
                other,
            );
        },
        Some(_) => {},
        None => {
            lemma_lookup_upsert_other(entries, section, JsonVal::Object(updates), other);
        },
    }
}

/// The merge preserves unrelated keys within the targeted section: every
/// key of the section that the updates do not mention maps to the same
/// value before and after.
pub proof fn lemma_update_section_preserves_section_keys(
    doc: JsonVal,
    section: Seq<char>,
    updates: Seq<(Seq<char>, JsonVal)>,
    existing: Seq<(Seq<char>, JsonVal)>,
    key: Seq<char>,
)
    requires
        doc is Object,
        lookup(doc->Object_0, section) == Some(JsonVal::Object(existing)),
        forall|i: int| 0 <= i < updates.len() ==> updates[i].0 != key,
    ensures
        lookup(spec_update_section(doc, section, updates)->Object_0, section) == Some(
            JsonVal::Object(merge_entries(existing, updates)),
        ),
        lookup(merge_entries(existing, updates), key) == lookup(existing, key),
{
    lemma_lookup_upsert_same(
        doc->Object_0,
        section,
        JsonVal::Object(merge_entries(existing, updates)),
    );
    lemma_merge_frame(existing, updates, key);
}

/// The shallow union is idempotent: merging the same updates twice yields
/// the same object as merging them once, when the update keys are unique.
pub proof fn lemma_merge_idempotent(
    base: Seq<(Seq<char>, JsonVal)>,
    updates: Seq<(Seq<char>, JsonVal)>,
)
    requires
        unique_keys(updates),
    ensures
        merge_entries(merge_entries(base, updates), updates) =~= merge_entries(base, updates),
{
    let merged = merge_entries(base, updates);
    assert forall|i: int| 0 <= i < updates.len() implies lookup(merged, updates[i].0) == Some(
        updates[i].1,
    ) by {
        lemma_merge_hits(base, updates, i);
    }
    lemma_merge_noop(merged, updates);
}

/// The merge of a whole document is idempotent: applying the same update
/// to the same section twice yields the same document as applying it
/// once, when the update keys are unique and the first application
/// reports no fault.
pub proof fn lemma_update_section_idempotent(
    doc: JsonVal,
    section: Seq<char>,
    updates: Seq<(Seq<char>, JsonVal)>,
)
    requires
        unique_keys(updates),
        spec_merge_fault(doc, section) is None,
    ensures
        spec_update_section(spec_update_section(doc, section, updates), section, updates)
            == spec_update_section(doc, section, updates),
{
    let entries = doc->Object_0;
    let once = spec_update_section(doc, section, updates);
    match lookup(entries, section) {
        Some(JsonVal::Object(existing)) => {
            let merged = merge_entries(existing, updates);
            lemma_lookup_upsert_same(entries, section, JsonVal::Object(merged));
            lemma_merge_idempotent(existing, updates);
            lemma_upsert_found_identity(
                upsert(entries, section, JsonVal::Object(merged)),
                section,
                JsonVal::Object(merge_entries(merged, updates)),
            );
            assert(spec_update_section(once, section, updates) =~~= once);
        },
        _ => {
            let merged = updates;
            lemma_lookup_upsert_same(entries, section, JsonVal::Object(merged));
            assert forall|i: int| 0 <= i < updates.len() implies lookup(updates, updates[i].0)
                == Some(updates[i].1) by {
                lemma_lookup_by_index(updates, updates[i].0, i);
            }
            lemma_merge_noop(updates, updates);
            lemma_upsert_found_identity(
                upsert(entries, section, JsonVal::Object(merged)),
                section,
                JsonVal::Object(merge_entries(merged, updates)),
            );
            assert(spec_update_section(once, section, updates) =~~= once);
        },
    }
}

} // verus!
