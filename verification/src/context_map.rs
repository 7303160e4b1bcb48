//! Named JSON values in the order in which their names first came.

use vstd::prelude::*;
use vstd::string::*;
use crate::json::{
    clone_value, insert_field, json_fields, json_model, new_fields, no_fields, object_value, Json,
};
use crate::text::text_eq;

verus! {

/// A key with its value.
#[derive(Debug, PartialEq)]
pub struct ContextEntry {
    pub key: String,
    pub value: serde_json::Value,
}

impl View for ContextEntry {
    type V = (Seq<char>, Json);

    open spec fn view(&self) -> (Seq<char>, Json) {
        (self.key@, json_model(self.value))
    }
}

/// The view of each entry of a sequence.
pub open spec fn entry_views(entries: Seq<ContextEntry>) -> Seq<(Seq<char>, Json)> {
    entries.map_values(|e: ContextEntry| e@)
}

/// The position of the first entry with the key `key` among the first `upto`
/// entries.
pub open spec fn find_key(entries: Seq<(Seq<char>, Json)>, key: Seq<char>, upto: int) -> Option<int>
    decreases upto,
{
    if upto <= 0 {
        None
    } else {
        match find_key(entries, key, upto - 1) {
            Some(at) => Some(at),
            None => if entries[upto - 1].0 == key {
                Some(upto - 1)
            } else {
                None
            },
        }
    }
}

/// The entries after `key` was given `value`: an entry of that key keeps its
/// place and takes the value, a new key comes last.
pub open spec fn with_entry(entries: Seq<(Seq<char>, Json)>, key: Seq<char>, value: Json) -> Seq<
    (Seq<char>, Json),
> {
    match find_key(entries, key, entries.len() as int) {
        Some(at) => entries.update(at, (key, value)),
        None => entries.push((key, value)),
    }
}

/// The entries after each of `more` was added in turn.
pub open spec fn with_entries(entries: Seq<(Seq<char>, Json)>, more: Seq<(Seq<char>, Json)>) -> Seq<
    (Seq<char>, Json),
>
    decreases more.len(),
{
    if more.len() == 0 {
        entries
    } else {
        with_entry(with_entries(entries, more.drop_last()), more.last().0, more.last().1)
    }
}

/// The JSON object that holds the first `upto` entries.
pub open spec fn fields_of(entries: Seq<(Seq<char>, Json)>, upto: int) -> Map<Seq<char>, Json>
    decreases upto,
{
    if upto <= 0 {
        no_fields()
    } else {
        fields_of(entries, upto - 1).insert(entries[upto - 1].0, entries[upto - 1].1)
    }
}

/// Named JSON values. A name occurs once; names keep the order in which they
/// first came.
#[derive(Debug, PartialEq)]
pub struct ContextMap {
    entries: Vec<ContextEntry>,
}

impl View for ContextMap {
    type V = Seq<(Seq<char>, Json)>;

    closed spec fn view(&self) -> Seq<(Seq<char>, Json)> {
        entry_views(self.entries@)
    }
}

proof fn lemma_key_found_stays(entries: Seq<(Seq<char>, Json)>, key: Seq<char>, from: int, upto: int)
    requires
        from <= upto,
        find_key(entries, key, from) is Some,
    ensures
        find_key(entries, key, upto) == find_key(entries, key, from),
    decreases upto - from,
{
    if from < upto {
        lemma_key_found_stays(entries, key, from, upto - 1);
    }
}

impl ContextMap {
    /// No values.
    pub fn new() -> (map: Self)
        ensures
            map@.len() == 0,
    {
        ContextMap { entries: Vec::new() }
    }

    /// How many values there are.
    pub fn len(&self) -> (n: usize)
        ensures
            n == self@.len(),
    {
        self.entries.len()
    }

    /// Whether there is no value.
    pub fn is_empty(&self) -> (empty: bool)
        ensures
            empty == (self@.len() == 0),
    {
        self.entries.len() == 0
    }

    fn position(&self, key: &str) -> (at: Option<usize>)
        ensures
            match at {
                Some(at) => find_key(self@, key@, self@.len() as int) == Some(at as int) && at
                    < self.entries@.len(),
                None => find_key(self@, key@, self@.len() as int).is_none(),
            },
    {
        let mut i: usize = 0;
        while i < self.entries.len()
            invariant
                i <= self.entries@.len(),
                find_key(self@, key@, i as int).is_none(),
            decreases self.entries@.len() - i,
        {
            if text_eq(self.entries[i].key.as_str(), key) {
                assert(find_key(self@, key@, i + 1) == Some(i as int));
                proof {
                    lemma_key_found_stays(self@, key@, i + 1, self.entries@.len() as int);
                }
                return Some(i);
            }
            i = i + 1;
        }
        None
    }

    /// Gives `key` the value `value`.
    pub fn insert(&mut self, key: String, value: serde_json::Value)
        ensures
            final(self)@ == with_entry(old(self)@, key@, json_model(value)),
    {
        let at = self.position(key.as_str());
        let entry = ContextEntry { key, value };
        match at {
            Some(at) => {
                self.entries.set(at, entry);
                assert(self@ =~= old(self)@.update(at as int, entry@));
            },
            None => {
                self.entries.push(entry);
                assert(self@ =~= old(self)@.push(entry@));
            },
        }
    }

    /// The value of `key`.
    pub fn get(&self, key: &str) -> (value: Option<&serde_json::Value>)
        ensures
            match value {
                Some(found) => find_key(self@, key@, self@.len() as int) matches Some(at) && json_model(*found)
                    == self@[at].1,
                None => find_key(self@, key@, self@.len() as int).is_none(),
            },
    {
        match self.position(key) {
            Some(at) => {
                assert(self@[at as int] == self.entries@[at as int]@);
                Some(&self.entries[at].value)
            },
            None => None,
        }
    }

    /// The name at position `i`.
    pub fn key_at(&self, i: usize) -> (key: &str)
        requires
            i < self@.len(),
        ensures
            key@ == self@[i as int].0,
    {
        assert(self@[i as int] == self.entries@[i as int]@);
        self.entries[i].key.as_str()
    }

    /// The value at position `i`.
    pub fn value_at(&self, i: usize) -> (value: &serde_json::Value)
        requires
            i < self@.len(),
        ensures
            json_model(*value) == self@[i as int].1,
    {
        assert(self@[i as int] == self.entries@[i as int]@);
        &self.entries[i].value
    }

    /// Adds every value of `other`, in its order; where a name is in both, the
    /// value of `other` stays.
    pub fn extend(&mut self, other: ContextMap)
        ensures
            final(self)@ == with_entries(old(self)@, other@),
    {
        let mut i: usize = 0;
        while i < other.entries.len()
            invariant
                i <= other.entries@.len(),
                self@ == with_entries(old(self)@, other@.take(i as int)),
            decreases other.entries@.len() - i,
        {
            let key = other.entries[i].key.clone();
            let value = clone_value(&other.entries[i].value);
            proof {
                assert(other@[i as int] == other.entries@[i as int]@);
                assert(other@.take(i + 1).drop_last() =~= other@.take(i as int));
                assert(other@.take(i + 1).last() == other@[i as int]);
            }
            self.insert(key, value);
            i = i + 1;
        }
        assert(other@.take(i as int) =~= other@);
    }

    /// The values as one JSON object.
    pub fn to_json(&self) -> (value: serde_json::Value)
        ensures
            json_model(value) == Json::Object(fields_of(self@, self@.len() as int)),
    {
        let mut fields = new_fields();
        let mut i: usize = 0;
        while i < self.entries.len()
            invariant
                i <= self.entries@.len(),
                json_fields(fields) == fields_of(self@, i as int),
            decreases self.entries@.len() - i,
        {
            assert(self@[i as int] == self.entries@[i as int]@);
            insert_field(&mut fields, self.entries[i].key.clone(), clone_value(&self.entries[i].value));
            i = i + 1;
        }
        object_value(fields)
    }
}

impl Clone for ContextMap {
    fn clone(&self) -> (copy: Self)
        ensures
            copy@ == self@,
    {
        let mut entries: Vec<ContextEntry> = Vec::new();
        let mut i: usize = 0;
        while i < self.entries.len()
            invariant
                i <= self.entries@.len(),
                entry_views(entries@) == self@.take(i as int),
            decreases self.entries@.len() - i,
        {
            let ghost before = entries@;
            let entry = ContextEntry {
                key: self.entries[i].key.clone(),
                value: clone_value(&self.entries[i].value),
            };
            entries.push(entry);
            assert(self@[i as int] == self.entries@[i as int]@);
            assert(entry_views(entries@) =~= entry_views(before).push(entry@));
            assert(entry_views(entries@) =~= self@.take(i + 1));
            i = i + 1;
        }
        assert(self@.take(i as int) =~= self@);
        ContextMap { entries }
    }
}

} // verus!
