//! Key/value stores of structured values.

use vstd::prelude::*;
use crate::text::same_text;
use crate::types::{JsonData, JsonValue};

verus! {

/// A write that the store did not take.
#[derive(Debug, Clone, PartialEq, Eq)]
pub struct StoreWriteError {
    pub message: String,
}

/// A store of structured values under text keys.
pub trait KeyValueStore {
    /// What the store holds.
    spec fn entries(&self) -> Map<Seq<char>, JsonData>;

    /// Whether the store, as it is, takes `value` under `key`.
    spec fn accepts(&self, key: Seq<char>, value: JsonData) -> bool;

    /// What the store, as it is, says where it does not take `value` under
    /// `key`.
    spec fn fault_text(&self, key: Seq<char>, value: JsonData) -> Seq<char>;

    /// The value under `key`, if there is one.
    fn get(&self, key: &str) -> (value: Option<JsonValue>)
        ensures
            match value {
                Some(found) => self.entries().contains_key(key@) && found@ == self.entries()[key@],
                None => !self.entries().contains_key(key@),
            },
    ;

    /// Puts `value` under `key`, in place of what was there. A write that is
    /// refused leaves the store as it was, and says why.
    fn set(&mut self, key: &str, value: JsonValue) -> (outcome: Result<(), StoreWriteError>)
        ensures
            outcome is Ok <==> old(self).accepts(key@, value@),
            outcome is Ok ==> final(self).entries() == old(self).entries().insert(key@, value@),
            outcome is Err ==> final(self).entries() == old(self).entries(),
            outcome matches Err(fault) ==> fault.message@ == old(self).fault_text(key@, value@),
    ;

    /// Removes what is under `key`, and says whether there was anything.
    fn delete(&mut self, key: &str) -> (removed: bool)
        ensures
            removed == old(self).entries().contains_key(key@),
            final(self).entries() == old(self).entries().remove(key@),
    ;
}

/// One key of a [`MemoryStore`] with its value.
struct StoredEntry {
    key: String,
    value: JsonValue,
}

/// A store that lives in memory. It takes every write, unless it was made
/// with a limit: then it refuses a new key once it holds that many.
pub struct MemoryStore {
    items: Vec<StoredEntry>,
    limit: Option<usize>,
}

/// The index in `items` of the entry with this key, if there is one.
spec fn position(items: Seq<StoredEntry>, key: Seq<char>) -> Option<int> {
    if exists|i: int| 0 <= i < items.len() && items[i].key@ == key {
        Some(choose|i: int| 0 <= i < items.len() && items[i].key@ == key)
    } else {
        None
    }
}

/// No key occurs twice.
spec fn distinct_keys(items: Seq<StoredEntry>) -> bool {
    forall|i: int, j: int|
        0 <= i < items.len() && 0 <= j < items.len() && items[i].key@ == items[j].key@ ==> i == j
}

/// The map that a list of entries with distinct keys stands for.
spec fn map_of(items: Seq<StoredEntry>) -> Map<Seq<char>, JsonData> {
    Map::new(
        |key: Seq<char>| position(items, key) is Some,
        |key: Seq<char>| items[position(items, key)->0].value@,
    )
}

/// What [`map_of`] holds, entry by entry.
proof fn lemma_map_of(items: Seq<StoredEntry>)
    requires
        distinct_keys(items),
    ensures
        forall|i: int|
            0 <= i < items.len() ==> map_of(items).contains_key(#[trigger] items[i].key@)
                && map_of(items)[items[i].key@] == items[i].value@,
        forall|key: Seq<char>| #[trigger]
            map_of(items).contains_key(key) ==> exists|i: int|
                0 <= i < items.len() && items[i].key@ == key,
{
    assert forall|i: int| 0 <= i < items.len() implies map_of(items).contains_key(
        #[trigger] items[i].key@,
    ) && map_of(items)[items[i].key@] == items[i].value@ by {
        let at = position(items, items[i].key@)->0;
        assert(at == i);
    }
}

impl MemoryStore {
    #[verifier::type_invariant]
    spec fn well_formed(&self) -> bool {
        distinct_keys(self.items@)
    }

    /// The number of keys that the store holds at most; `None` if it has no
    /// limit.
    pub closed spec fn limit(&self) -> Option<usize> {
        self.limit
    }

    /// The number of keys that the store holds.
    pub closed spec fn count(&self) -> nat {
        self.items@.len()
    }

    /// An empty store without a limit.
    pub fn new() -> (store: Self)
        ensures
            store.entries() == Map::<Seq<char>, JsonData>::empty(),
            store.limit() is None,
            store.count() == 0,
    {
        let store = MemoryStore { items: Vec::new(), limit: None };
        proof {
            assert(store.entries() =~= Map::<Seq<char>, JsonData>::empty());
        }
        store
    }

    /// An empty store for at most `limit` keys.
    pub fn bounded(limit: usize) -> (store: Self)
        ensures
            store.entries() == Map::<Seq<char>, JsonData>::empty(),
            store.limit() == Some(limit),
            store.count() == 0,
    {
        let store = MemoryStore { items: Vec::new(), limit: Some(limit) };
        proof {
            assert(store.entries() =~= Map::<Seq<char>, JsonData>::empty());
        }
        store
    }

    /// Where the entry with this key is.
    fn find(&self, key: &str) -> (found: Option<usize>)
        ensures
            match found {
                Some(at) => at < self.items@.len() && self.items@[at as int].key@ == key@,
                None => forall|i: int| 0 <= i < self.items@.len() ==> self.items@[i].key@ != key@,
            },
    {
        let mut at: usize = 0;
        while at < self.items.len()
            invariant
                at <= self.items@.len(),
                forall|i: int| 0 <= i < at ==> self.items@[i].key@ != key@,
            decreases self.items@.len() - at,
        {
            if same_text(self.items[at].key.as_str(), key) {
                return Some(at);
            }
            at += 1;
        }
        None
    }
}

impl KeyValueStore for MemoryStore {
    closed spec fn entries(&self) -> Map<Seq<char>, JsonData> {
        map_of(self.items@)
    }

    open spec fn accepts(&self, key: Seq<char>, value: JsonData) -> bool {
        match self.limit() {
            None => true,
            Some(limit) => self.entries().contains_key(key) || self.count() < limit,
        }
    }

    open spec fn fault_text(&self, key: Seq<char>, value: JsonData) -> Seq<char> {
        "the store is full"@
    }

    fn get(&self, key: &str) -> (value: Option<JsonValue>) {
        proof {
            use_type_invariant(self);
            lemma_map_of(self.items@);
        }
        match self.find(key) {
            Some(at) => Some(self.items[at].value.clone()),
            None => None,
        }
    }

    fn set(&mut self, key: &str, value: JsonValue) -> (outcome: Result<(), StoreWriteError>)
        ensures
            final(self).limit() == old(self).limit(),
            final(self).count() == if outcome is Ok && !old(self).entries().contains_key(key@) {
                old(self).count() + 1
            } else {
                old(self).count()
            },
    {
        proof {
            use_type_invariant(&*self);
            lemma_map_of(self.items@);
        }
        let ghost before = self.items@;
        let found = self.find(key);
        if found.is_none() {
            if let Some(limit) = self.limit {
                if self.items.len() >= limit {
                    return Err(StoreWriteError { message: "the store is full".to_owned() });
                }
            }
        }
        let entry = StoredEntry { key: key.to_owned(), value };
        let mut items: Vec<StoredEntry> = Vec::new();
        std::mem::swap(&mut self.items, &mut items);
        match found {
            Some(at) => {
                items.set(at, entry);
            },
            None => {
                items.push(entry);
            },
        }
        proof {
            let after = items@;
            let wanted = map_of(before).insert(key@, value@);
            assert(distinct_keys(after));
            lemma_map_of(after);
            assert forall|k: Seq<char>| map_of(after).contains_key(k) implies #[trigger]
                wanted.contains_key(k) && wanted[k] == map_of(after)[k] by {
                let i = choose|i: int| 0 <= i < after.len() && after[i].key@ == k;
                if k != key@ {
                    assert(before[i].key@ == k);
                }
            }
            assert forall|k: Seq<char>| #[trigger] wanted.contains_key(k) implies map_of(
                after,
            ).contains_key(k) by {
                if k == key@ {
                    let i = if found is Some {
                        found->0 as int
                    } else {
                        before.len() as int
                    };
                    assert(after[i].key@ == k);
                } else {
                    let i = choose|i: int| 0 <= i < before.len() && before[i].key@ == k;
                    assert(after[i].key@ == k);
                }
            }
            assert(map_of(after) =~= wanted);
        }
        std::mem::swap(&mut self.items, &mut items);
        Ok(())
    }

    fn delete(&mut self, key: &str) -> (removed: bool)
        ensures
            final(self).limit() == old(self).limit(),
            final(self).count() == if removed {
                old(self).count() - 1
            } else {
                old(self).count() as int
            },
    {
        proof {
            use_type_invariant(&*self);
            lemma_map_of(self.items@);
        }
        let ghost before = self.items@;
        match self.find(key) {
            Some(at) => {
                let mut items: Vec<StoredEntry> = Vec::new();
                std::mem::swap(&mut self.items, &mut items);
                let _ = items.remove(at);
                proof {
                    let after = items@;
                    let wanted = map_of(before).remove(key@);
                    assert forall|i: int| 0 <= i < after.len() implies #[trigger] after[i]
                        == before[if i < at { i } else { i + 1 }] by {}
                    assert(distinct_keys(after));
                    lemma_map_of(after);
                    assert forall|k: Seq<char>| map_of(after).contains_key(k) implies #[trigger]
                        wanted.contains_key(k) && wanted[k] == map_of(after)[k] by {
                        let i = choose|i: int| 0 <= i < after.len() && after[i].key@ == k;
                        let j = if i < at { i } else { i + 1 };
                        assert(before[j].key@ == k);
                    }
                    assert forall|k: Seq<char>| #[trigger] wanted.contains_key(k) implies map_of(
                        after,
                    ).contains_key(k) by {
                        let j = choose|j: int| 0 <= j < before.len() && before[j].key@ == k;
                        let i = if j < at { j } else { j - 1 };
                        assert(after[i].key@ == k);
                    }
                    assert(map_of(after) =~= wanted);
                }
                std::mem::swap(&mut self.items, &mut items);
                true
            },
            None => {
                proof {
                    assert(map_of(before) =~= map_of(before).remove(key@));
                }
                false
            },
        }
    }
}

} // verus!
