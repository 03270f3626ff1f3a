//! Maps from slugs (string keys) to entries, kept in an `ahash` hash map.
use crate::error::Error;
use ahash::{AHashMap, RandomState};
use vstd::prelude::*;

verus! {

#[verifier::external_type_specification]
#[verifier::external_body]
#[verifier::reject_recursive_types(K)]
#[verifier::reject_recursive_types(V)]
#[verifier::reject_recursive_types(S)]
pub struct ExAHashMap<K, V, S>(AHashMap<K, V, S>);

#[verifier::external_type_specification]
#[verifier::external_body]
pub struct ExRandomState(RandomState);

/// What an `AHashMap` from slugs to slot numbers holds, each slug by its text.
pub uninterp spec fn slot_entries(m: AHashMap<String, usize>) -> Map<Seq<char>, usize>;

/// Calls `AHashMap::new`; the map it returns holds nothing.
#[verifier::external_body]
fn slots_new() -> (fresh: AHashMap<String, usize>)
    ensures
        slot_entries(fresh).dom().is_empty(),
{
    AHashMap::new()
}

/// Calls `AHashMap::get` with a `&str` key; it returns the slot stored under
/// the slug with the key's text, if there is one.
#[verifier::external_body]
fn slots_get(m: &AHashMap<String, usize>, key: &str) -> (r: Option<usize>)
    ensures
        r == (if slot_entries(*m).contains_key(key@) {
            Some(slot_entries(*m)[key@])
        } else {
            None
        }),
{
    m.get(key).copied()
}

/// Calls `AHashMap::insert`; afterwards the map holds `slot` under the key's
/// text and is otherwise unchanged.
#[verifier::external_body]
fn slots_insert(m: &mut AHashMap<String, usize>, key: String, slot: usize)
    ensures
        slot_entries(*final(m)) == slot_entries(*old(m)).insert(key@, slot),
{
    m.insert(key, slot);
}

/// Calls `keys` on the map (the `HashMap` it dereferences to) and clones each
/// key: every key once, in the map's own arbitrary order.
#[verifier::external_body]
fn slots_keys(m: &AHashMap<String, usize>) -> (r: Vec<String>)
    ensures
        r@.map_values(|s: String| s@).no_duplicates(),
        r@.map_values(|s: String| s@).to_set() == slot_entries(*m).dom(),
{
    m.keys().cloned().collect()
}

/// Calls `AHashMap::clone`, which clones the keys (a cloned `String` has the
/// same text) and copies the slot numbers.
#[verifier::external_body]
fn slots_clone(m: &AHashMap<String, usize>) -> (copy: AHashMap<String, usize>)
    ensures
        slot_entries(copy) == slot_entries(*m),
{
    m.clone()
}

/// A map from slugs to entries. Each slug owns a slot of `values`; the slots
/// live in an `ahash` map keyed by slug.
pub struct SlugMap<T> {
    slots: AHashMap<String, usize>,
    values: Vec<T>,
}

impl<T> SlugMap<T> {
    #[verifier::type_invariant]
    spec fn slots_valid(&self) -> bool {
        &&& forall|k: Seq<char>| #[trigger]
            slot_entries(self.slots).contains_key(k) ==> slot_entries(self.slots)[k]
                < self.values.len()
        &&& forall|k1: Seq<char>, k2: Seq<char>|
            #![trigger slot_entries(self.slots)[k1], slot_entries(self.slots)[k2]]
            slot_entries(self.slots).contains_key(k1) && slot_entries(self.slots).contains_key(k2)
                && k1 != k2 ==> slot_entries(self.slots)[k1] != slot_entries(self.slots)[k2]
    }
}

impl<T> View for SlugMap<T> {
    type V = Map<Seq<char>, T>;

    closed spec fn view(&self) -> Map<Seq<char>, T> {
        Map::new(
            |k: Seq<char>| slot_entries(self.slots).contains_key(k),
            |k: Seq<char>| self.values@[slot_entries(self.slots)[k] as int],
        )
    }
}

impl<T> SlugMap<T> {
    /// An empty map.
    pub fn new() -> (m: Self)
        ensures
            m@ == Map::<Seq<char>, T>::empty(),
    {
        let m = SlugMap { slots: slots_new(), values: Vec::new() };
        assert(m@ =~= Map::<Seq<char>, T>::empty());
        m
    }

    /// The entry under `slug`, or `Error::UnknownEntry` naming the slug when
    /// there is none.
    pub fn get(&self, slug: &str) -> (r: Result<&T, Error>)
        ensures
            match r {
                Ok(v) => self@.contains_key(slug@) && *v == self@[slug@],
                Err(e) => !self@.contains_key(slug@) && (e matches Error::UnknownEntry(s) && s@
                    == slug@),
            },
    {
        proof { use_type_invariant(self); }
        match slots_get(&self.slots, slug) {
            Some(slot) => Ok(&self.values[slot]),
            None => Err(Error::UnknownEntry(String::from_str(slug))),
        }
    }

    /// Stores `value` under `key`, replacing what was stored there.
    pub fn insert(&mut self, key: String, value: T)
        ensures
            final(self)@ == old(self)@.insert(key@, value),
    {
        proof { use_type_invariant(&*self); }
        let ghost k = key@;
        let mut taken = SlugMap::new();
        std::mem::swap(&mut taken, self);
        proof { use_type_invariant(&taken); }
        let SlugMap { mut slots, mut values } = taken;
        match slots_get(&slots, key.as_str()) {
            Some(slot) => {
                values.set(slot, value);
            },
            None => {
                let slot = values.len();
                values.push(value);
                slots_insert(&mut slots, key, slot);
            },
        }
        *self = SlugMap { slots, values };
        assert(self@ =~= old(self)@.insert(k, value));
    }

    /// Every slug of the map once, in the hash map's own order.
    pub fn keys(&self) -> (r: Vec<String>)
        ensures
            r@.map_values(|s: String| s@).no_duplicates(),
            r@.map_values(|s: String| s@).to_set() == self@.dom(),
    {
        let r = slots_keys(&self.slots);
        assert(self@.dom() =~= slot_entries(self.slots).dom());
        r
    }
}

impl<T: Clone> Clone for SlugMap<T> {
    /// A map with the same slugs, each entry a clone of this map's entry.
    fn clone(&self) -> (copy: Self)
        ensures
            copy@.dom() == self@.dom(),
            forall|k: Seq<char>| #[trigger]
                copy@.contains_key(k) ==> cloned::<T>(self@[k], copy@[k]),
    {
        proof { use_type_invariant(self); }
        let copy = SlugMap { slots: slots_clone(&self.slots), values: self.values.clone() };
        assert(copy@.dom() =~= self@.dom());
        assert forall|k: Seq<char>| #[trigger] copy@.contains_key(k) implies cloned::<T>(
            self@[k],
            copy@[k],
        ) by {
            let i = slot_entries(self.slots)[k] as int;
            assert(cloned::<T>(self.values[i], copy.values[i]));
        }
        copy
    }
}

/// Reading a slug after storing a value under it gives that value back;
/// storing leaves every other slug as it was.
pub proof fn lemma_read_after_write<T>(
    before: Map<Seq<char>, T>,
    after: Map<Seq<char>, T>,
    key: Seq<char>,
    value: T,
    other: Seq<char>,
)
    requires
        after == before.insert(key, value),
    ensures
        after.contains_key(key),
        after[key] == value,
        other != key ==> (after.contains_key(other) <==> before.contains_key(other)),
        other != key && before.contains_key(other) ==> after[other] == before[other],
{
}

} // verus!
