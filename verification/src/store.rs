//! The keyed record store: one record per agreement identifier, and a
//! counter of the agreements that were created.

use vstd::prelude::*;
use crate::record::{EscrowDetails, EscrowRecord};

verus! {

/// The key under which a record is stored.
#[derive(Debug, PartialEq, Eq)]
pub enum EscrowBook {
    /// The record of the agreement with this identifier.
    Agreement(String),
}

impl Clone for EscrowBook {
    fn clone(&self) -> (copy: Self)
        ensures
            copy@ == self@,
    {
        match self {
            EscrowBook::Agreement(id) => EscrowBook::Agreement(id.clone()),
        }
    }
}

impl View for EscrowBook {
    type V = Seq<char>;

    /// A key stands for the identifier that it holds.
    open spec fn view(&self) -> Seq<char> {
        match self {
            EscrowBook::Agreement(id) => id@,
        }
    }
}

/// The mathematical value of a store: the record of each identifier that
/// has one, and the number of creations so far.
pub struct StoreState {
    pub agreements: Map<Seq<char>, EscrowRecord>,
    pub counter: nat,
}

impl StoreState {
    /// The store before anything was created.
    pub open spec fn empty() -> StoreState {
        StoreState { agreements: Map::empty(), counter: 0 }
    }

    /// A record is stored under `id`.
    pub open spec fn has(self, id: Seq<char>) -> bool {
        self.agreements.dom().contains(id)
    }

    /// The store with `record` under `id`, whatever was there before.
    pub open spec fn with_record(self, id: Seq<char>, record: EscrowRecord) -> StoreState {
        StoreState { agreements: self.agreements.insert(id, record), ..self }
    }

    /// The store after one more creation was counted.
    pub open spec fn counted(self) -> StoreState {
        StoreState { counter: self.counter + 1, ..self }
    }

    /// What a lookup of `id` gives.
    pub open spec fn lookup(self, id: Seq<char>) -> Option<EscrowRecord> {
        if self.has(id) {
            Some(self.agreements[id])
        } else {
            None
        }
    }
}

struct Entry {
    id: String,
    record: EscrowDetails,
}

/// The entry at `i` is the first one stored under `id`.
spec fn is_first(entries: Seq<Entry>, i: int, id: Seq<char>) -> bool {
    &&& 0 <= i < entries.len()
    &&& entries[i].id@ == id
    &&& forall|j: int| 0 <= j < i ==> (#[trigger] entries[j]).id@ != id
}

spec fn first_index(entries: Seq<Entry>, id: Seq<char>) -> int {
    choose|i: int| is_first(entries, i, id)
}

/// The map that a list of entries stands for: an identifier's record is
/// that of its first entry.
spec fn agreements_of(entries: Seq<Entry>) -> Map<Seq<char>, EscrowRecord> {
    Map::new(
        |id: Seq<char>| exists|i: int| is_first(entries, i, id),
        |id: Seq<char>| entries[first_index(entries, id)].record@,
    )
}

proof fn lemma_first_is_unique(entries: Seq<Entry>, a: int, b: int, id: Seq<char>)
    requires
        is_first(entries, a, id),
        is_first(entries, b, id),
    ensures
        a == b,
{
    if a < b {
        assert(entries[a].id@ == id);
    } else if b < a {
        assert(entries[b].id@ == id);
    }
}

proof fn lemma_found(entries: Seq<Entry>, i: int, id: Seq<char>)
    requires
        is_first(entries, i, id),
    ensures
        agreements_of(entries).dom().contains(id),
        agreements_of(entries)[id] == entries[i].record@,
{
    lemma_first_is_unique(entries, i, first_index(entries, id), id);
}

proof fn lemma_absent(entries: Seq<Entry>, id: Seq<char>)
    requires
        forall|j: int| 0 <= j < entries.len() ==> (#[trigger] entries[j]).id@ != id,
    ensures
        !agreements_of(entries).dom().contains(id),
{
}

/// Two lists that hold the same identifiers at the same places agree on
/// which entry is the first of an identifier.
proof fn lemma_same_ids(before: Seq<Entry>, after: Seq<Entry>, i: int, id: Seq<char>)
    requires
        before.len() == after.len(),
        forall|j: int| 0 <= j < before.len() ==> (#[trigger] before[j]).id@ == after[j].id@,
        is_first(before, i, id),
    ensures
        is_first(after, i, id),
{
    assert forall|j: int| 0 <= j < i implies (#[trigger] after[j]).id@ != id by {
        assert(before[j].id@ != id);
    }
}

proof fn lemma_replaced(
    before: Seq<Entry>,
    after: Seq<Entry>,
    i: int,
    id: Seq<char>,
    record: EscrowRecord,
)
    requires
        is_first(before, i, id),
        after.len() == before.len(),
        after[i].id@ == id,
        after[i].record@ == record,
        forall|j: int| 0 <= j < before.len() && j != i ==> (#[trigger] after[j]) == before[j],
    ensures
        agreements_of(after) =~= agreements_of(before).insert(id, record),
{
    assert(forall|j: int| 0 <= j < before.len() ==> (#[trigger] before[j]).id@ == after[j].id@);
    assert(forall|j: int| 0 <= j < after.len() ==> (#[trigger] after[j]).id@ == before[j].id@);
    lemma_same_ids(before, after, i, id);
    assert forall|k: Seq<char>|
        agreements_of(after).dom().contains(k) <==> #[trigger] agreements_of(before).insert(
            id,
            record,
        ).dom().contains(k) by {
        if agreements_of(after).dom().contains(k) {
            lemma_same_ids(after, before, first_index(after, k), k);
        }
        if agreements_of(before).dom().contains(k) {
            lemma_same_ids(before, after, first_index(before, k), k);
        }
    }
    assert forall|k: Seq<char>| #[trigger]
        agreements_of(after).dom().contains(k) implies agreements_of(after)[k]
        == agreements_of(before).insert(id, record)[k] by {
        let a = first_index(after, k);
        lemma_same_ids(after, before, a, k);
        lemma_found(before, a, k);
        if k == id {
            lemma_first_is_unique(after, a, i, id);
        } else {
            assert(a != i);
        }
    }
}

proof fn lemma_appended(before: Seq<Entry>, entry: Entry)
    requires
        forall|j: int| 0 <= j < before.len() ==> (#[trigger] before[j]).id@ != entry.id@,
    ensures
        agreements_of(before.push(entry)) =~= agreements_of(before).insert(
            entry.id@,
            entry.record@,
        ),
{
    let after = before.push(entry);
    let id = entry.id@;
    lemma_absent(before, id);
    assert(is_first(after, before.len() as int, id)) by {
        assert forall|j: int| 0 <= j < before.len() implies (#[trigger] after[j]).id@ != id by {
            assert(before[j].id@ != id);
        }
    }
    lemma_found(after, before.len() as int, id);
    assert forall|k: Seq<char>| k != id implies (agreements_of(after).dom().contains(k)
        <==> #[trigger] agreements_of(before).dom().contains(k)) by {
        if agreements_of(after).dom().contains(k) {
            let a = first_index(after, k);
            assert(a < before.len());
            assert forall|j: int| 0 <= j < a implies (#[trigger] before[j]).id@ != k by {
                assert(after[j].id@ != k);
            }
            assert(is_first(before, a, k));
        }
        if agreements_of(before).dom().contains(k) {
            let b = first_index(before, k);
            assert forall|j: int| 0 <= j < b implies (#[trigger] after[j]).id@ != k by {
                assert(before[j].id@ != k);
            }
            assert(is_first(after, b, k));
        }
    }
    assert forall|k: Seq<char>| k != id && #[trigger] agreements_of(after).dom().contains(
        k,
    ) implies agreements_of(after)[k] == agreements_of(before)[k] by {
        let a = first_index(after, k);
        assert(a < before.len());
        assert forall|j: int| 0 <= j < a implies (#[trigger] before[j]).id@ != k by {
            assert(after[j].id@ != k);
        }
        assert(is_first(before, a, k));
        lemma_found(before, a, k);
    }
}

/// The record store. Records are never removed: `put` writes a record
/// under a key, over the one that was there if there was one.
pub struct AgreementStore {
    entries: Vec<Entry>,
    counter: u32,
}

impl View for AgreementStore {
    type V = StoreState;

    closed spec fn view(&self) -> StoreState {
        StoreState { agreements: agreements_of(self.entries@), counter: self.counter as nat }
    }
}

impl AgreementStore {
    /// A store that holds no record and has counted no creation.
    pub fn new() -> (store: AgreementStore)
        ensures
            store@ == StoreState::empty(),
    {
        let store = AgreementStore { entries: Vec::new(), counter: 0 };
        proof {
            assert(store@.agreements =~= Map::empty());
        }
        store
    }

    /// A store that holds no record yet and has counted `counter`
    /// creations.
    pub fn with_counter(counter: u32) -> (store: AgreementStore)
        ensures
            store@ == (StoreState { counter: counter as nat, ..StoreState::empty() }),
    {
        let store = AgreementStore { entries: Vec::new(), counter };
        proof {
            assert(store@.agreements =~= Map::empty());
        }
        store
    }

    /// Where the first entry under `id` stands, if there is one.
    fn position(&self, id: &String) -> (found: Option<usize>)
        ensures
            match found {
                Some(i) => is_first(self.entries@, i as int, id@),
                None => forall|j: int|
                    0 <= j < self.entries@.len() ==> (#[trigger] self.entries@[j]).id@ != id@,
            },
    {
        let mut i: usize = 0;
        while i < self.entries.len()
            invariant
                0 <= i <= self.entries@.len(),
                forall|j: int| 0 <= j < i ==> (#[trigger] self.entries@[j]).id@ != id@,
            decreases self.entries@.len() - i,
        {
            if self.entries[i].id == *id {
                return Some(i);
            }
            i += 1;
        }
        None
    }

    /// A copy of the record stored under `key`, or `None` where there is
    /// none.
    pub fn get(&self, key: &EscrowBook) -> (found: Option<EscrowDetails>)
        ensures
            match found {
                Some(record) => self@.lookup(key@) == Some(record@),
                None => self@.lookup(key@).is_none(),
            },
    {
        let EscrowBook::Agreement(id) = key;
        match self.position(id) {
            Some(i) => {
                proof {
                    lemma_found(self.entries@, i as int, id@);
                }
                Some(self.entries[i].record.clone())
            },
            None => {
                proof {
                    lemma_absent(self.entries@, id@);
                }
                None
            },
        }
    }

    /// Stores `record` under `key`, over whatever was stored there. Every
    /// other record and the counter stay as they were.
    pub fn put(&mut self, key: EscrowBook, record: EscrowDetails)
        ensures
            final(self)@ == old(self)@.with_record(key@, record@),
    {
        let EscrowBook::Agreement(id) = key;
        let ghost before = self.entries@;
        match self.position(&id) {
            Some(i) => {
                self.entries.set(i, Entry { id, record });
                proof {
                    lemma_replaced(before, self.entries@, i as int, id@, record@);
                }
            },
            None => {
                let entry = Entry { id, record };
                proof {
                    lemma_appended(before, entry);
                }
                self.entries.push(entry);
            },
        }
    }

    /// The number of creations counted so far.
    pub fn counter(&self) -> (count: u32)
        ensures
            count == self@.counter,
    {
        self.counter
    }

    /// Counts one more creation. The records stay as they were.
    pub fn increment_counter(&mut self)
        requires
            old(self)@.counter < u32::MAX,
        ensures
            final(self)@ == old(self)@.counted(),
    {
        self.counter = self.counter + 1;
    }
}

} // verus!
