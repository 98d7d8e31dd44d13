//! The typed configuration model: one closed variant type per policy value,
//! an ordered map from policy key to value, and the extension allowlist.
//!
//! Contracts speak about the mathematical model of a configuration: a
//! sequence of [`EntryModel`] values, each a key (sequence of characters)
//! bound to a [`ValueModel`].

use vstd::prelude::*;
use crate::text::str_eq;

verus! {

/// One policy value.  Exactly one variant is active; a document value is
/// decoded by trying the shapes in this order: boolean, string, integer,
/// string list.
#[derive(Debug)]
pub enum ConfigValue {
    Bool(bool),
    Text(String),
    Integer(i32),
    TextList(Vec<String>),
}

/// The mathematical model of a policy value.
pub enum ValueModel {
    Bool(bool),
    Text(Seq<char>),
    Integer(int),
    TextList(Seq<Seq<char>>),
}

/// One policy entry: a key and its typed value.
#[derive(Debug)]
pub struct ConfigEntry {
    pub key: String,
    pub value: ConfigValue,
}

/// The mathematical model of a policy entry.
pub struct EntryModel {
    pub key: Seq<char>,
    pub value: ValueModel,
}

/// A configuration: policy keys mapped to typed values.  Entries keep their
/// insertion order, and `insert` keeps the keys unique, so iteration over the
/// entries is deterministic.
#[derive(Debug)]
pub struct Config {
    entries: Vec<ConfigEntry>,
}

/// The extension allowlist entry: the position in the list determines the
/// 1-based index used as the forcelist value name.
#[derive(Debug)]
pub struct Extension {
    pub id: String,
    pub name: String,
    pub description: String,
}

/// The shape of the extensions input document.
#[derive(Debug)]
pub struct ExtensionsConfig {
    pub extensions: Vec<Extension>,
}

/// The sequence of views of the strings in a vector.
pub open spec fn texts_of(v: Seq<String>) -> Seq<Seq<char>> {
    Seq::new(v.len(), |i: int| v[i]@)
}

/// The sequence of extension ids, in list order.
pub open spec fn ids_of(exts: Seq<Extension>) -> Seq<Seq<char>> {
    Seq::new(exts.len(), |i: int| exts[i].id@)
}

impl View for ConfigValue {
    type V = ValueModel;

    open spec fn view(&self) -> ValueModel {
        match self {
            ConfigValue::Bool(b) => ValueModel::Bool(*b),
            ConfigValue::Text(s) => ValueModel::Text(s@),
            ConfigValue::Integer(n) => ValueModel::Integer(*n as int),
            ConfigValue::TextList(items) => ValueModel::TextList(texts_of(items@)),
        }
    }
}

impl View for ConfigEntry {
    type V = EntryModel;

    open spec fn view(&self) -> EntryModel {
        EntryModel { key: self.key@, value: self.value@ }
    }
}

impl View for Config {
    type V = Seq<EntryModel>;

    closed spec fn view(&self) -> Seq<EntryModel> {
        Seq::new(self.entries@.len(), |i: int| self.entries@[i]@)
    }
}

/// Builds a new vector holding the same strings.
pub fn clone_string_vec(v: &Vec<String>) -> (r: Vec<String>)
    ensures
        r@ == v@,
{
    let mut r: Vec<String> = Vec::new();
    let mut i: usize = 0;
    while i < v.len()
        invariant
            0 <= i <= v@.len(),
            r@ =~= v@.take(i as int),
        decreases v@.len() - i,
    {
        r.push(v[i].clone());
        proof {
            assert(r@ =~= v@.take(i + 1));
        }
        i += 1;
    }
    proof {
        assert(r@ =~= v@);
    }
    r
}

impl Clone for ConfigValue {
    /// Produces a value with the same model.
    fn clone(&self) -> (r: Self)
        ensures
            r@ == self@,
    {
        match self {
            ConfigValue::Bool(b) => ConfigValue::Bool(*b),
            ConfigValue::Text(s) => ConfigValue::Text(s.clone()),
            ConfigValue::Integer(n) => ConfigValue::Integer(*n),
            ConfigValue::TextList(items) => ConfigValue::TextList(clone_string_vec(items)),
        }
    }
}

impl Clone for ConfigEntry {
    /// Produces an entry with the same model.
    fn clone(&self) -> (r: Self)
        ensures
            r@ == self@,
    {
        ConfigEntry { key: self.key.clone(), value: self.value.clone() }
    }
}

impl Clone for Extension {
    /// Produces an extension record equal to this one.
    fn clone(&self) -> (r: Self)
        ensures
            r == *self,
    {
        Extension {
            id: self.id.clone(),
            name: self.name.clone(),
            description: self.description.clone(),
        }
    }
}

/// Holds when no two entries share a key.
pub open spec fn keys_unique(entries: Seq<EntryModel>) -> bool {
    forall|i: int, j: int| 0 <= i < j < entries.len() ==> entries[i].key != entries[j].key
}

/// The index of the entry with the given key, or -1 when the key is absent.
/// With unique keys this is the only matching index.
pub open spec fn index_of_key(entries: Seq<EntryModel>, key: Seq<char>) -> int
    decreases entries.len(),
{
    if entries.len() == 0 {
        -1
    } else if entries.last().key == key {
        entries.len() - 1
    } else {
        index_of_key(entries.drop_last(), key)
    }
}

/// The value stored under the given key, if any.
pub open spec fn lookup(entries: Seq<EntryModel>, key: Seq<char>) -> Option<ValueModel>
    decreases entries.len(),
{
    if entries.len() == 0 {
        None
    } else if entries.last().key == key {
        Some(entries.last().value)
    } else {
        lookup(entries.drop_last(), key)
    }
}

/// The entry sequence after binding `key` to `value`: the existing entry is
/// replaced in place when the key is present, else a new entry is appended.
pub open spec fn spec_insert(
    entries: Seq<EntryModel>,
    key: Seq<char>,
    value: ValueModel,
) -> Seq<EntryModel> {
    let e = EntryModel { key, value };
    if index_of_key(entries, key) >= 0 {
        entries.update(index_of_key(entries, key), e)
    } else {
        entries.push(e)
    }
}

pub proof fn lemma_index_of_key_bounds(entries: Seq<EntryModel>, key: Seq<char>)
    ensures
        -1 <= index_of_key(entries, key) < entries.len(),
        index_of_key(entries, key) >= 0 ==> entries[index_of_key(entries, key)].key == key,
        index_of_key(entries, key) == -1 ==> forall|i: int|
            0 <= i < entries.len() ==> entries[i].key != key,
    decreases entries.len(),
{
    if entries.len() > 0 && entries.last().key != key {
        lemma_index_of_key_bounds(entries.drop_last(), key);
        let idx = index_of_key(entries, key);
        if idx >= 0 {
            assert(entries.drop_last()[idx] == entries[idx]);
        } else {
            assert forall|i: int| 0 <= i < entries.len() implies entries[i].key != key by {
                if i < entries.len() - 1 {
                    assert(entries.drop_last()[i] == entries[i]);
                }
            }
        }
    }
}

/// Every key that stands in the entry sequence has a value under lookup.
pub proof fn lemma_lookup_present(entries: Seq<EntryModel>, i: int)
    requires
        0 <= i < entries.len(),
    ensures
        lookup(entries, entries[i].key) is Some,
    decreases entries.len(),
{
    if i < entries.len() - 1 && entries.last().key != entries[i].key {
        assert(entries.drop_last()[i] == entries[i]);
        lemma_lookup_present(entries.drop_last(), i);
    }
}

/// After an insert, the inserted key maps to the new value, every other key
/// maps to what it mapped to before, and key uniqueness is preserved.
pub proof fn lemma_insert_lookup(entries: Seq<EntryModel>, key: Seq<char>, value: ValueModel)
    requires
        keys_unique(entries),
    ensures
        keys_unique(spec_insert(entries, key, value)),
        lookup(spec_insert(entries, key, value), key) == Some(value),
        forall|other: Seq<char>|
            other != key ==> lookup(spec_insert(entries, key, value), other) == lookup(
                entries,
                other,
            ),
{
    lemma_index_of_key_bounds(entries, key);
    let result = spec_insert(entries, key, value);
    let e = EntryModel { key, value };
    if index_of_key(entries, key) >= 0 {
        let idx = index_of_key(entries, key);
        assert forall|other: Seq<char>| other != key implies lookup(result, other) == lookup(
            entries,
            other,
        ) by {
            lemma_lookup_update_other(entries, idx, e, other);
        }
        lemma_lookup_update_hit(entries, idx, e);
    } else {
        assert(result.last() == e);
        assert(result.drop_last() =~= entries);
    }
}

proof fn lemma_lookup_update_hit(entries: Seq<EntryModel>, idx: int, e: EntryModel)
    requires
        keys_unique(entries),
        0 <= idx < entries.len(),
        entries[idx].key == e.key,
    ensures
        lookup(entries.update(idx, e), e.key) == Some(e.value),
    decreases entries.len(),
{
    let updated = entries.update(idx, e);
    if idx == entries.len() - 1 {
        assert(updated.last() == e);
    } else {
        assert(updated.last() == entries.last());
        assert(entries.last().key != e.key);
        assert(updated.drop_last() =~= entries.drop_last().update(idx, e));
        lemma_lookup_update_hit(entries.drop_last(), idx, e);
    }
}

proof fn lemma_lookup_update_other(
    entries: Seq<EntryModel>,
    idx: int,
    e: EntryModel,
    other: Seq<char>,
)
    requires
        0 <= idx < entries.len(),
        entries[idx].key == e.key,
        other != e.key,
    ensures
        lookup(entries.update(idx, e), other) == lookup(entries, other),
    decreases entries.len(),
{
    let updated = entries.update(idx, e);
    if idx == entries.len() - 1 {
        assert(updated.last() == e);
        assert(updated.drop_last() =~= entries.drop_last());
    } else {
        assert(updated.last() == entries.last());
        if entries.last().key != other {
            assert(updated.drop_last() =~= entries.drop_last().update(idx, e));
            lemma_lookup_update_other(entries.drop_last(), idx, e, other);
        }
    }
}

impl Config {
    /// An empty configuration.
    pub fn new() -> (r: Config)
        ensures
            r@ == Seq::<EntryModel>::empty(),
    {
        let r = Config { entries: Vec::new() };
        proof {
            assert(r@ =~= Seq::<EntryModel>::empty());
        }
        r
    }

    /// The number of entries.
    pub fn len(&self) -> (n: usize)
        ensures
            n == self@.len(),
    {
        self.entries.len()
    }

    /// The entry at the given position.
    pub fn entry(&self, i: usize) -> (e: &ConfigEntry)
        requires
            i < self@.len(),
        ensures
            e@ == self@[i as int],
    {
        &self.entries[i]
    }

    /// Binds `key` to `value`, replacing the value in place when the key is
    /// already present and appending a new entry otherwise.
    pub fn insert(&mut self, key: String, value: ConfigValue)
        requires
            keys_unique(old(self)@),
        ensures
            final(self)@ == spec_insert(old(self)@, key@, value@),
            keys_unique(final(self)@),
    {
        proof {
            lemma_insert_lookup(old(self)@, key@, value@);
        }
        let n = self.entries.len();
        let mut i: usize = 0;
        while i < n
            invariant
                n == self.entries@.len(),
                self@ == old(self)@,
                self@.len() == self.entries@.len(),
                0 <= i <= n,
                keys_unique(old(self)@),
                forall|j: int| 0 <= j < i ==> self@[j].key != key@,
            decreases n - i,
        {
            if str_eq(self.entries[i].key.as_str(), key.as_str()) {
                proof {
                    assert(self@[i as int].key == key@);
                    lemma_index_of_key_bounds(old(self)@, key@);
                    if index_of_key(old(self)@, key@) != i {
                        assert(old(self)@[index_of_key(old(self)@, key@)].key == key@);
                    }
                }
                let slot = vstd::std_specs::vec::vec_index_mut(&mut self.entries, i);
                *slot = ConfigEntry { key, value };
                proof {
                    assert(self@ =~= spec_insert(old(self)@, key@, value@));
                }
                return;
            }
            i += 1;
        }
        proof {
            lemma_index_of_key_bounds(old(self)@, key@);
            if index_of_key(old(self)@, key@) >= 0 {
                assert(old(self)@[index_of_key(old(self)@, key@)].key == key@);
            }
        }
        self.entries.push(ConfigEntry { key, value });
        proof {
            assert(self@ =~= spec_insert(old(self)@, key@, value@));
        }
    }
}

impl Clone for Config {
    /// Produces a configuration with the same model.
    fn clone(&self) -> (r: Self)
        ensures
            r@ == self@,
    {
        let mut entries: Vec<ConfigEntry> = Vec::new();
        let mut i: usize = 0;
        while i < self.entries.len()
            invariant
                0 <= i <= self.entries@.len(),
                entries@.len() == i,
                forall|j: int| 0 <= j < i ==> entries@[j]@ == self.entries@[j]@,
            decreases self.entries@.len() - i,
        {
            entries.push(self.entries[i].clone());
            i += 1;
        }
        let r = Config { entries };
        proof {
            assert(r@ =~= self@);
        }
        r
    }
}

} // verus!
