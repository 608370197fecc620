//! A registry of items under numeric ids.

use rustc_hash::FxHashMap;
use vstd::prelude::*;

verus! {

/// Puts `item` under `id` with `HashMap::insert`: afterwards the map holds
/// what it held, with `item` under `id`; what was under `id` comes back.
#[verifier::external_body]
fn items_insert<T>(items: &mut FxHashMap<u64, T>, id: u64, item: T) -> (previous: Option<T>)
    ensures
        final(items)@ == old(items)@.insert(id, item),
        previous == if old(items)@.contains_key(id) {
            Some(old(items)@[id])
        } else {
            None
        },
{
    items.insert(id, item)
}

/// Takes out what is under `id` with `HashMap::remove`: afterwards the map
/// holds what it held but for `id`; what was under `id` comes back.
#[verifier::external_body]
fn items_remove<T>(items: &mut FxHashMap<u64, T>, id: u64) -> (removed: Option<T>)
    ensures
        final(items)@ == old(items)@.remove(id),
        removed == if old(items)@.contains_key(id) {
            Some(old(items)@[id])
        } else {
            None
        },
{
    items.remove(&id)
}

/// Looks up `id` with `HashMap::get`.
#[verifier::external_body]
fn items_get<T>(items: &FxHashMap<u64, T>, id: u64) -> (found: Option<&T>)
    ensures
        found == if items@.contains_key(id) {
            Some(&items@[id])
        } else {
            None
        },
{
    items.get(&id)
}

/// Asks with `HashMap::contains_key` whether anything is under `id`.
#[verifier::external_body]
fn items_contains_key<T>(items: &FxHashMap<u64, T>, id: u64) -> (found: bool)
    ensures
        found == items@.contains_key(id),
{
    items.contains_key(&id)
}

/// A registry is a map from ids to items that is strict about its use:
/// an item is registered once, and only a registered item is overwritten,
/// removed or fetched, unless the caller asks for the lenient operation.
/// The ids are numbers, as the variants of an enum of ids give them.
///
/// Use-cases: registering and caching bind groups, shaders, audio.
pub struct Registry<T> {
    items: FxHashMap<u64, T>,
}

impl<T> View for Registry<T> {
    type V = Map<u64, T>;

    closed spec fn view(&self) -> Map<u64, T> {
        self.items@
    }
}

impl<T> Default for Registry<T> {
    fn default() -> (registry: Self)
        ensures
            registry@ == Map::<u64, T>::empty(),
    {
        Registry { items: FxHashMap::default() }
    }
}

impl<T> Registry<T> {
    /// An empty registry.
    pub fn new() -> (registry: Self)
        ensures
            registry@ == Map::<u64, T>::empty(),
    {
        Registry { items: FxHashMap::default() }
    }

    /// Registers `item` under `id`, which must be free.
    pub fn insert(&mut self, id: u64, item: T)
        requires
            !old(self)@.contains_key(id),
        ensures
            final(self)@ == old(self)@.insert(id, item),
    {
        let _ = items_insert(&mut self.items, id, item);
    }

    /// Puts `item` in the place of the item under `id`, which must be
    /// registered.
    pub fn overwrite(&mut self, id: u64, item: T)
        requires
            old(self)@.contains_key(id),
        ensures
            final(self)@ == old(self)@.insert(id, item),
    {
        let _ = items_insert(&mut self.items, id, item);
    }

    /// Puts `item` under `id`, whether or not an item is registered there.
    pub fn insert_or_overwrite(&mut self, id: u64, item: T)
        ensures
            final(self)@ == old(self)@.insert(id, item),
    {
        let _ = items_insert(&mut self.items, id, item);
    }

    /// Takes out the item under `id`, which must be registered.
    pub fn remove(&mut self, id: &u64) -> (item: T)
        requires
            old(self)@.contains_key(*id),
        ensures
            item == old(self)@[*id],
            final(self)@ == old(self)@.remove(*id),
    {
        items_remove(&mut self.items, *id).unwrap()
    }

    /// Takes out the item under `id`, if one is registered.
    pub fn try_remove(&mut self, id: &u64) -> (item: Option<T>)
        ensures
            item == if old(self)@.contains_key(*id) {
                Some(old(self)@[*id])
            } else {
                None
            },
            final(self)@ == old(self)@.remove(*id),
    {
        items_remove(&mut self.items, *id)
    }

    /// The item under `id`, which must be registered.
    pub fn get(&self, id: &u64) -> (item: &T)
        requires
            self@.contains_key(*id),
        ensures
            *item == self@[*id],
    {
        items_get(&self.items, *id).unwrap()
    }

    /// The item under `id`, if one is registered.
    pub fn try_get(&self, id: &u64) -> (item: Option<&T>)
        ensures
            item == if self@.contains_key(*id) {
                Some(&self@[*id])
            } else {
                None
            },
    {
        items_get(&self.items, *id)
    }

    /// Whether an item is registered under `id`.
    pub fn contains(&self, id: &u64) -> (registered: bool)
        ensures
            registered == self@.contains_key(*id),
    {
        items_contains_key(&self.items, *id)
    }
}

} // verus!
