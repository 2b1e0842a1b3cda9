//! Input records: loosely typed mappings from field names to values.

use vstd::prelude::*;
use crate::double::Double;
use crate::value::{Value, ValueModel};

verus! {

/// One key of a record with the value stored under it.
#[derive(Clone, Debug)]
pub struct Entry {
    pub key: String,
    pub value: Value,
}

/// The mapping that a list of entries denotes: a later entry replaces an
/// earlier one with the same key.
pub open spec fn entries_map(entries: Seq<Entry>) -> Map<Seq<char>, ValueModel>
    decreases entries.len(),
{
    if entries.len() == 0 {
        Map::empty()
    } else {
        entries_map(entries.drop_last()).insert(entries.last().key@, entries.last().value@)
    }
}

/// The last entry with a given key decides what the mapping holds for it.
pub proof fn lemma_last_entry_wins(entries: Seq<Entry>, key: Seq<char>, i: int)
    requires
        0 <= i < entries.len(),
        entries[i].key@ == key,
        forall|j: int| i < j < entries.len() ==> entries[j].key@ != key,
    ensures
        entries_map(entries).contains_key(key),
        entries_map(entries)[key] == entries[i].value@,
    decreases entries.len(),
{
    if i < entries.len() - 1 {
        let front = entries.drop_last();
        assert(front[i] == entries[i]);
        assert forall|j: int| i < j < front.len() implies front[j].key@ != key by {
            assert(front[j] == entries[j]);
        }
        lemma_last_entry_wins(front, key, i);
    }
}

/// A key that no entry has is not in the mapping.
pub proof fn lemma_missing_key(entries: Seq<Entry>, key: Seq<char>)
    requires
        forall|j: int| 0 <= j < entries.len() ==> entries[j].key@ != key,
    ensures
        !entries_map(entries).contains_key(key),
    decreases entries.len(),
{
    if entries.len() > 0 {
        let front = entries.drop_last();
        assert forall|j: int| 0 <= j < front.len() implies front[j].key@ != key by {
            assert(front[j] == entries[j]);
        }
        lemma_missing_key(front, key);
    }
}

/// What a 32-bit integer column takes from a record: the value under `key`
/// if it is an integer that fits, and `default` in every other case.
/// Whether a value is an integer, a double, a text or a boolean is for
/// [`ValueModel`] to say.
pub open spec fn i32_field(m: Map<Seq<char>, ValueModel>, key: Seq<char>, default: i32) -> i32 {
    if m.contains_key(key) && m[key].as_i32() is Some {
        m[key].as_i32()->Some_0
    } else {
        default
    }
}

/// What a 64-bit integer column takes from a record: the value under `key`
/// if it is an integer, and `default` in every other case.
pub open spec fn i64_field(m: Map<Seq<char>, ValueModel>, key: Seq<char>, default: i64) -> i64 {
    if m.contains_key(key) && m[key].as_i64() is Some {
        m[key].as_i64()->Some_0
    } else {
        default
    }
}

/// What a double-precision column takes from a record, as a bit pattern:
/// the value under `key` if it is a double or an integer, and `default` in
/// every other case.
pub open spec fn double_field(m: Map<Seq<char>, ValueModel>, key: Seq<char>, default: u64) -> u64 {
    if m.contains_key(key) && m[key].as_double() is Some {
        m[key].as_double()->Some_0
    } else {
        default
    }
}

/// What a text column takes from a record: the value under `key` if it is
/// a text, and `default` in every other case.
pub open spec fn text_field(
    m: Map<Seq<char>, ValueModel>,
    key: Seq<char>,
    default: Seq<char>,
) -> Seq<char> {
    if m.contains_key(key) && m[key].as_text() is Some {
        m[key].as_text()->Some_0
    } else {
        default
    }
}

/// What a boolean column takes from a record: the value under `key` if it
/// is a boolean, and `default` in every other case.
pub open spec fn bool_field(m: Map<Seq<char>, ValueModel>, key: Seq<char>, default: bool) -> bool {
    if m.contains_key(key) && m[key].as_bool() is Some {
        m[key].as_bool()->Some_0
    } else {
        default
    }
}

/// A record of the input: field names mapped to dynamically typed values.
/// Any field may be absent, null or of an unexpected type.
#[derive(Clone, Debug)]
pub struct InputRecord {
    entries: Vec<Entry>,
}

impl View for InputRecord {
    type V = Map<Seq<char>, ValueModel>;

    closed spec fn view(&self) -> Map<Seq<char>, ValueModel> {
        entries_map(self.entries@)
    }
}

impl InputRecord {
    /// The record without any field.
    pub fn new() -> (r: InputRecord)
        ensures
            r@ == Map::<Seq<char>, ValueModel>::empty(),
    {
        InputRecord { entries: Vec::new() }
    }

    /// Stores `value` under `key`, in place of what was stored under it.
    pub fn insert(&mut self, key: String, value: Value)
        ensures
            final(self)@ == old(self)@.insert(key@, value@),
    {
        let ghost before = self.entries@;
        let ghost entry_key = key@;
        let ghost entry_value = value@;
        self.entries.push(Entry { key, value });
        proof {
            assert(self.entries@.drop_last() == before);
            assert(self.entries@.last().key@ == entry_key);
            assert(self.entries@.last().value@ == entry_value);
        }
    }

    /// The value stored under `key`, if there is one.
    pub fn get(&self, key: &str) -> (found: Option<&Value>)
        ensures
            match found {
                Some(v) => self@.contains_key(key@) && v@ == self@[key@],
                None => !self@.contains_key(key@),
            },
    {
        let wanted = key.to_owned();
        let mut i: usize = self.entries.len();
        while i > 0
            invariant
                i <= self.entries.len(),
                wanted@ == key@,
                forall|j: int| i <= j < self.entries.len() ==> self.entries[j].key@ != key@,
            decreases i,
        {
            i -= 1;
            if self.entries[i].key == wanted {
                proof {
                    lemma_last_entry_wins(self.entries@, key@, i as int);
                }
                return Some(&self.entries[i].value);
            }
        }
        proof {
            lemma_missing_key(self.entries@, key@);
        }
        None
    }

    /// The 32-bit integer under `key`, or `default` where the field is
    /// absent, null, no integer or out of range.
    pub fn i32_or(&self, key: &str, default: i32) -> (r: i32)
        ensures
            r == i32_field(self@, key@, default),
    {
        match self.get(key) {
            Some(value) => match value.to_i32() {
                Some(n) => n,
                None => default,
            },
            None => default,
        }
    }

    /// The 64-bit integer under `key`, or `default` where the field is
    /// absent, null or no integer.
    pub fn i64_or(&self, key: &str, default: i64) -> (r: i64)
        ensures
            r == i64_field(self@, key@, default),
    {
        match self.get(key) {
            Some(value) => match value.to_i64() {
                Some(n) => n,
                None => default,
            },
            None => default,
        }
    }

    /// The double under `key`, or `default` where the field is absent, null
    /// or no number.
    pub fn double_or(&self, key: &str, default: Double) -> (r: Double)
        ensures
            r.spec_bits() == double_field(self@, key@, default.spec_bits()),
    {
        match self.get(key) {
            Some(value) => match value.to_double() {
                Some(d) => d,
                None => default,
            },
            None => default,
        }
    }

    /// The text under `key`, or `default` where the field is absent, null or
    /// of another type.
    pub fn text_or(&self, key: &str, default: &str) -> (r: String)
        ensures
            r@ == text_field(self@, key@, default@),
    {
        match self.get(key) {
            Some(value) => match value.to_text() {
                Some(s) => s,
                None => default.to_owned(),
            },
            None => default.to_owned(),
        }
    }

    /// The boolean under `key`, or `default` where the field is absent, null
    /// or of another type.
    pub fn bool_or(&self, key: &str, default: bool) -> (r: bool)
        ensures
            r == bool_field(self@, key@, default),
    {
        match self.get(key) {
            Some(value) => match value.to_bool() {
                Some(b) => b,
                None => default,
            },
            None => default,
        }
    }
}

/// One item of the input sequence: a record, or something that cannot be
/// read as a mapping at all.
#[derive(Clone, Debug)]
pub enum SourceItem {
    Mapping(InputRecord),
    NotMapping,
}

} // verus!
