//! The correlation store: from correlation key to resolution state.

use vstd::prelude::*;
use vstd::hash_map::StringHashMap;
use vstd::string::StringExecFns;
use crate::resolution::{InterceptResolution, ResolutionView};

verus! {

/// The mathematical content of a [`ResolutionStore`].
pub type StoreView = Map<Seq<char>, ResolutionView>;

/// The state held for `key`: what the store has, or the pending state of a
/// request not seen before.
pub open spec fn entry_of(store: StoreView, key: Seq<char>) -> ResolutionView {
    if store.contains_key(key) {
        store[key]
    } else {
        ResolutionView::pending()
    }
}

/// The store after `key` was given an entry if it had none.
pub open spec fn upserted(store: StoreView, key: Seq<char>) -> StoreView {
    store.insert(key, entry_of(store, key))
}

/// The resolutions of the requests whose decision is not yet complete.
pub struct ResolutionStore {
    entries: StringHashMap<InterceptResolution>,
}

impl View for ResolutionStore {
    type V = StoreView;

    closed spec fn view(&self) -> StoreView {
        self.entries@.map_values(|resolution: InterceptResolution| resolution@)
    }
}

impl ResolutionStore {
    /// An empty store.
    pub fn new() -> (store: Self)
        ensures
            store@ == Map::<Seq<char>, ResolutionView>::empty(),
    {
        ResolutionStore { entries: StringHashMap::new() }
    }

    /// The number of entries.
    pub fn len(&self) -> (len: usize)
        ensures
            len == self@.len(),
    {
        assert(self@.dom() =~= self.entries@.dom());
        self.entries.len()
    }

    /// Whether the store has no entry.
    pub fn is_empty(&self) -> (empty: bool)
        ensures
            empty == (self@.len() == 0),
    {
        self.len() == 0
    }

    /// Whether `key` has an entry.
    pub fn contains_key(&self, key: &str) -> (present: bool)
        ensures
            present == self@.contains_key(key@),
    {
        self.entries.contains_key(key)
    }

    /// A copy of the entry of `key`.
    pub fn get(&self, key: &str) -> (entry: Option<InterceptResolution>)
        ensures
            match entry {
                Some(resolution) => self@.contains_key(key@) && resolution@ == self@[key@],
                None => !self@.contains_key(key@),
            },
    {
        match self.entries.get(key) {
            Some(resolution) => Some(resolution.clone()),
            None => None,
        }
    }

    /// Gives `key` a pending entry if it has none, and returns a copy of its
    /// entry.
    pub fn upsert(&mut self, key: &str) -> (entry: InterceptResolution)
        ensures
            final(self)@ == upserted(old(self)@, key@),
            entry@ == entry_of(old(self)@, key@),
    {
        match self.get(key) {
            Some(resolution) => resolution,
            None => {
                self.record(key, InterceptResolution::new());
                InterceptResolution::new()
            },
        }
    }

    /// Writes the entry of `key`.
    pub fn record(&mut self, key: &str, resolution: InterceptResolution)
        ensures
            final(self)@ == old(self)@.insert(key@, resolution@),
    {
        self.entries.insert(String::from_str(key), resolution);
    }

    /// Removes the entry of `key`, if there is one.
    pub fn remove(&mut self, key: &str)
        ensures
            final(self)@ == old(self)@.remove(key@),
    {
        self.entries.remove(key);
    }
}

} // verus!
