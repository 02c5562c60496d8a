//! String-keyed maps and sets that keep their insertion order, held in
//! `indexmap` collections hashed with `rustc_hash`'s `FxHasher`.
use indexmap::{IndexMap, IndexSet};
use rustc_hash::FxHasher;
use std::hash::BuildHasherDefault;
use vstd::prelude::*;

verus! {

#[verifier::external_type_specification]
#[verifier::external_body]
#[verifier::reject_recursive_types(K)]
#[verifier::reject_recursive_types(V)]
#[verifier::reject_recursive_types(S)]
pub struct ExIndexMap<K, V, S>(IndexMap<K, V, S>);

#[verifier::external_type_specification]
#[verifier::external_body]
#[verifier::reject_recursive_types(T)]
#[verifier::reject_recursive_types(S)]
pub struct ExIndexSet<T, S>(IndexSet<T, S>);

#[verifier::external_type_specification]
#[verifier::external_body]
#[verifier::reject_recursive_types(H)]
pub struct ExBuildHasherDefault<H>(BuildHasherDefault<H>);

#[verifier::external_type_specification]
#[verifier::external_body]
pub struct ExFxHasher(FxHasher);

/// The hasher the maps and sets of this crate are built with.
pub type HashImpl = BuildHasherDefault<FxHasher>;

/// The key-value pairs of an `IndexMap`, in its order.
pub uninterp spec fn index_map_entries(
    m: IndexMap<String, String, BuildHasherDefault<FxHasher>>,
) -> Seq<(Seq<char>, Seq<char>)>;

/// The items of an `IndexSet`, in its order.
pub uninterp spec fn index_set_items(s: IndexSet<String, BuildHasherDefault<FxHasher>>) -> Seq<
    Seq<char>,
>;

/// The position of the first entry whose key is `key`, or the number of
/// entries when there is none.
pub open spec fn key_index(entries: Seq<(Seq<char>, Seq<char>)>, key: Seq<char>) -> nat
    decreases entries.len(),
{
    if entries.len() == 0 {
        0
    } else if entries[0].0 == key {
        0
    } else {
        1 + key_index(entries.drop_first(), key)
    }
}

/// The value stored under `key`, if any.
pub open spec fn lookup(entries: Seq<(Seq<char>, Seq<char>)>, key: Seq<char>) -> Option<Seq<char>> {
    let i = key_index(entries, key);
    if i < entries.len() {
        Some(entries[i as int].1)
    } else {
        None
    }
}

/// `entries` after storing `value` under `key`: an entry with that key keeps
/// its place and takes the new value; otherwise the pair goes last.
pub open spec fn upsert(entries: Seq<(Seq<char>, Seq<char>)>, key: Seq<char>, value: Seq<char>) -> Seq<
    (Seq<char>, Seq<char>),
> {
    let i = key_index(entries, key);
    if i < entries.len() {
        entries.update(i as int, (key, value))
    } else {
        entries.push((key, value))
    }
}

/// `items` after adding `item`: unchanged when it is already there, otherwise
/// with `item` last.
pub open spec fn with_item(items: Seq<Seq<char>>, item: Seq<char>) -> Seq<Seq<char>> {
    if items.contains(item) {
        items
    } else {
        items.push(item)
    }
}

/// Creates an empty map by `IndexMap::with_hasher`, which holds no entry.
#[verifier::external_body]
fn index_map_new() -> (m: IndexMap<String, String, HashImpl>)
    ensures
        index_map_entries(m) == Seq::<(Seq<char>, Seq<char>)>::empty(),
{
    IndexMap::with_hasher(HashImpl::default())
}

/// Calls `IndexMap::insert`: an entry with an equal key keeps its place in the
/// order and takes the new value; otherwise the pair is added last.
#[verifier::external_body]
fn index_map_insert(m: &mut IndexMap<String, String, HashImpl>, key: String, value: String)
    ensures
        index_map_entries(*final(m)) == upsert(index_map_entries(*old(m)), key@, value@),
{
    m.insert(key, value);
}

/// Calls `IndexMap::get`: the value of the entry whose key equals `key`, if any.
#[verifier::external_body]
fn index_map_get<'a>(m: &'a IndexMap<String, String, HashImpl>, key: &str) -> (r: Option<
    &'a String,
>)
    ensures
        match lookup(index_map_entries(*m), key@) {
            Some(v) => r matches Some(s) && s@ == v,
            None => r is None,
        },
{
    m.get(key)
}

/// Calls `IndexMap::len`: the number of entries.
#[verifier::external_body]
fn index_map_len(m: &IndexMap<String, String, HashImpl>) -> (r: usize)
    ensures
        r == index_map_entries(*m).len(),
{
    m.len()
}

/// Calls `IndexMap::iter`, collected: every entry, in the map's order.
#[verifier::external_body]
fn index_map_iter<'a>(m: &'a IndexMap<String, String, HashImpl>) -> (r: Vec<(&'a String, &'a String)>)
    ensures
        r@.len() == index_map_entries(*m).len(),
        forall|i: int|
            0 <= i < r@.len() ==> (#[trigger] r@[i]).0@ == index_map_entries(*m)[i].0 && r@[i].1@
                == index_map_entries(*m)[i].1,
{
    m.iter().collect()
}

/// Creates an empty set by `IndexSet::with_hasher`, which holds no item.
#[verifier::external_body]
fn index_set_new() -> (s: IndexSet<String, HashImpl>)
    ensures
        index_set_items(s) == Seq::<Seq<char>>::empty(),
{
    IndexSet::with_hasher(HashImpl::default())
}

/// Calls `IndexSet::insert`: an item already there stays in its place and the
/// call returns `false`; otherwise the item is added last and it returns `true`.
#[verifier::external_body]
fn index_set_insert(s: &mut IndexSet<String, HashImpl>, item: String) -> (r: bool)
    ensures
        r == !index_set_items(*old(s)).contains(item@),
        index_set_items(*final(s)) == with_item(index_set_items(*old(s)), item@),
{
    s.insert(item)
}

/// Calls `IndexSet::contains`.
#[verifier::external_body]
fn index_set_contains(s: &IndexSet<String, HashImpl>, item: &str) -> (r: bool)
    ensures
        r == index_set_items(*s).contains(item@),
{
    s.contains(item)
}

/// Calls `IndexSet::len`: the number of items.
#[verifier::external_body]
fn index_set_len(s: &IndexSet<String, HashImpl>) -> (r: usize)
    ensures
        r == index_set_items(*s).len(),
{
    s.len()
}

/// Calls `IndexSet::iter`, collected: every item, in the set's order.
#[verifier::external_body]
fn index_set_iter<'a>(s: &'a IndexSet<String, HashImpl>) -> (r: Vec<&'a String>)
    ensures
        r@.len() == index_set_items(*s).len(),
        forall|i: int| 0 <= i < r@.len() ==> (#[trigger] r@[i])@ == index_set_items(*s)[i],
{
    s.iter().collect()
}

/// A map from names to values that remembers the order of first insertion.
pub struct OrderedMap {
    inner: IndexMap<String, String, HashImpl>,
}

impl OrderedMap {
    /// The entries of the map, in insertion order.
    pub closed spec fn entries(&self) -> Seq<(Seq<char>, Seq<char>)> {
        index_map_entries(self.inner)
    }

    /// An empty map.
    pub fn new() -> (m: OrderedMap)
        ensures
            m.entries() == Seq::<(Seq<char>, Seq<char>)>::empty(),
    {
        OrderedMap { inner: index_map_new() }
    }

    /// Stores `value` under `key`.
    pub fn insert(&mut self, key: String, value: String)
        ensures
            final(self).entries() == upsert(old(self).entries(), key@, value@),
    {
        index_map_insert(&mut self.inner, key, value);
    }

    /// The value stored under `key`, if any.
    pub fn get(&self, key: &str) -> (r: Option<&String>)
        ensures
            r is Some <==> lookup(self.entries(), key@) is Some,
            r matches Some(v) ==> lookup(self.entries(), key@) == Some(v@),
    {
        index_map_get(&self.inner, key)
    }

    /// The number of entries.
    pub fn len(&self) -> (r: usize)
        ensures
            r == self.entries().len(),
    {
        index_map_len(&self.inner)
    }

    /// Whether the map holds no entry.
    pub fn is_empty(&self) -> (r: bool)
        ensures
            r == (self.entries().len() == 0),
    {
        index_map_len(&self.inner) == 0
    }

    /// The entries, in insertion order.
    pub fn iter(&self) -> (r: Vec<(&String, &String)>)
        ensures
            r@.len() == self.entries().len(),
            forall|i: int|
                0 <= i < r@.len() ==> (#[trigger] r@[i]).0@ == self.entries()[i].0 && r@[i].1@
                    == self.entries()[i].1,
    {
        index_map_iter(&self.inner)
    }
}

impl Default for OrderedMap {
    fn default() -> (m: OrderedMap)
        ensures
            m.entries() == Seq::<(Seq<char>, Seq<char>)>::empty(),
    {
        OrderedMap::new()
    }
}

/// A set of names that remembers the order of first insertion.
pub struct OrderedSet {
    inner: IndexSet<String, HashImpl>,
}

impl OrderedSet {
    /// The items of the set, in insertion order.
    pub closed spec fn items(&self) -> Seq<Seq<char>> {
        index_set_items(self.inner)
    }

    /// An empty set.
    pub fn new() -> (s: OrderedSet)
        ensures
            s.items() == Seq::<Seq<char>>::empty(),
    {
        OrderedSet { inner: index_set_new() }
    }

    /// Adds `item`; returns whether it was new.
    pub fn insert(&mut self, item: String) -> (r: bool)
        ensures
            r == !old(self).items().contains(item@),
            final(self).items() == with_item(old(self).items(), item@),
    {
        index_set_insert(&mut self.inner, item)
    }

    /// Whether `item` is in the set.
    pub fn contains(&self, item: &str) -> (r: bool)
        ensures
            r == self.items().contains(item@),
    {
        index_set_contains(&self.inner, item)
    }

    /// The number of items.
    pub fn len(&self) -> (r: usize)
        ensures
            r == self.items().len(),
    {
        index_set_len(&self.inner)
    }

    /// Whether the set holds no item.
    pub fn is_empty(&self) -> (r: bool)
        ensures
            r == (self.items().len() == 0),
    {
        index_set_len(&self.inner) == 0
    }

    /// The items, in insertion order.
    pub fn iter(&self) -> (r: Vec<&String>)
        ensures
            r@.len() == self.items().len(),
            forall|i: int| 0 <= i < r@.len() ==> (#[trigger] r@[i])@ == self.items()[i],
    {
        index_set_iter(&self.inner)
    }
}

impl Default for OrderedSet {
    fn default() -> (s: OrderedSet)
        ensures
            s.items() == Seq::<Seq<char>>::empty(),
    {
        OrderedSet::new()
    }
}

/// `key_index` finds the first entry with the key, and is the number of
/// entries when there is none.
pub proof fn lemma_key_index(entries: Seq<(Seq<char>, Seq<char>)>, key: Seq<char>)
    ensures
        key_index(entries, key) <= entries.len(),
        forall|j: int| 0 <= j < key_index(entries, key) ==> (#[trigger] entries[j]).0 != key,
        key_index(entries, key) < entries.len() ==> entries[key_index(entries, key) as int].0
            == key,
    decreases entries.len(),
{
    if entries.len() > 0 && entries[0].0 != key {
        lemma_key_index(entries.drop_first(), key);
        assert forall|j: int| 0 <= j < key_index(entries, key) implies (#[trigger] entries[j]).0
            != key by {
            if j > 0 {
                assert(entries[j] == entries.drop_first()[j - 1]);
            }
        }
    }
}

/// Any position before which no key equals `key`, and at which the key does
/// (or which is the end), is `key_index`.
pub proof fn lemma_key_index_at(entries: Seq<(Seq<char>, Seq<char>)>, key: Seq<char>, i: int)
    requires
        0 <= i <= entries.len(),
        forall|j: int| 0 <= j < i ==> (#[trigger] entries[j]).0 != key,
        i == entries.len() || entries[i].0 == key,
    ensures
        key_index(entries, key) == i,
{
    lemma_key_index(entries, key);
    let k = key_index(entries, key) as int;
    if k < i {
        assert(entries[k].0 == key);
    } else if k > i {
        assert(entries[i].0 != key);
    }
}

/// A map gives back what was last stored under a key, and storing under one
/// key leaves what every other key gives unchanged.
pub proof fn law_lookup_after_upsert(
    entries: Seq<(Seq<char>, Seq<char>)>,
    key: Seq<char>,
    value: Seq<char>,
    other: Seq<char>,
)
    ensures
        lookup(upsert(entries, key, value), key) == Some(value),
        other != key ==> lookup(upsert(entries, key, value), other) == lookup(entries, other),
{
    lemma_key_index(entries, key);
    lemma_key_index(entries, other);
    let i = key_index(entries, key) as int;
    let u = upsert(entries, key, value);
    if i < entries.len() {
        assert forall|j: int| 0 <= j < i implies (#[trigger] u[j]).0 != key by {
            assert(u[j] == entries[j]);
        }
        lemma_key_index_at(u, key, i);
        if other != key {
            let o = key_index(entries, other) as int;
            assert forall|j: int| 0 <= j < o implies (#[trigger] u[j]).0 != other by {
                if j != i {
                    assert(u[j] == entries[j]);
                }
            }
            if o < entries.len() {
                assert(o != i);
                assert(u[o] == entries[o]);
            }
            lemma_key_index_at(u, other, o);
        }
    } else {
        assert forall|j: int| 0 <= j < i implies (#[trigger] u[j]).0 != key by {
            assert(u[j] == entries[j]);
        }
        lemma_key_index_at(u, key, i);
        if other != key {
            let o = key_index(entries, other) as int;
            assert forall|j: int| 0 <= j < o implies (#[trigger] u[j]).0 != other by {
                assert(u[j] == entries[j]);
            }
            if o < entries.len() {
                assert(u[o] == entries[o]);
                lemma_key_index_at(u, other, o);
            } else {
                assert(u[o].0 == key);
                lemma_key_index_at(u, other, o + 1);
            }
        }
    }
}

/// Adding an item to a set makes it a member, keeps every other membership,
/// and adding it a second time changes nothing.
pub proof fn law_with_item(items: Seq<Seq<char>>, item: Seq<char>, other: Seq<char>)
    ensures
        with_item(items, item).contains(item),
        other != item ==> (with_item(items, item).contains(other) == items.contains(other)),
        with_item(with_item(items, item), item) == with_item(items, item),
{
    if !items.contains(item) {
        assert(items.push(item)[items.len() as int] == item);
        if other != item {
            if items.push(item).contains(other) {
                let j = choose|j: int| 0 <= j < items.push(item).len() && items.push(item)[j] == other;
                assert(items[j] == other);
            }
            if items.contains(other) {
                let j = choose|j: int| 0 <= j < items.len() && items[j] == other;
                assert(items.push(item)[j] == other);
            }
        }
    }
}

} // verus!
