//! The store: every record that has been created, found by its owner.

use vstd::prelude::*;
use crate::pubkey::Pubkey;
use crate::record::{Favorites, FavoritesView};

verus! {

/// Who may change the delegate of a record.
#[derive(Clone, Copy, Debug, PartialEq, Eq, Structural)]
pub enum DelegatePolicy {
    /// The owner, and whoever is the delegate at that moment.
    OwnerOrDelegate,
    /// The owner alone.
    OwnerOnly,
}

/// The records of a store as a map from each owner to that owner's record.
pub type Ledger = Map<Seq<u8>, FavoritesView>;

/// Every record of the ledger is kept under its own owner and has a color
/// that fits.
pub open spec fn valid_ledger(ledger: Ledger) -> bool {
    forall|owner: Seq<u8>| #[trigger]
        ledger.contains_key(owner) ==> ledger[owner].owner == owner && ledger[owner].fits()
}

/// The records that have been created, at most one for each owner, and the
/// policy that the store was set up with.
pub struct FavoritesStore {
    records: Vec<Favorites>,
    policy: DelegatePolicy,
}

/// Whether the record at `index` of `records` belongs to `owner`.
spec fn kept_at(records: Seq<Favorites>, index: int, owner: Seq<u8>) -> bool {
    0 <= index < records.len() && records[index].owner@ == owner
}

/// No two records belong to the same owner.
spec fn distinct_owners(records: Seq<Favorites>) -> bool {
    forall|i: int, j: int, owner: Seq<u8>|
        #[trigger] kept_at(records, i, owner) && #[trigger] kept_at(records, j, owner) ==> i == j
}

/// The map from each owner that has a record to that record.
spec fn ledger_of(records: Seq<Favorites>) -> Ledger {
    Map::new(
        |owner: Seq<u8>| exists|i: int| kept_at(records, i, owner),
        |owner: Seq<u8>| records[choose|i: int| kept_at(records, i, owner)]@,
    )
}

/// Where no two records share an owner, the ledger holds each record under
/// its owner.
proof fn lemma_ledger_at(records: Seq<Favorites>, index: int)
    requires
        distinct_owners(records),
        0 <= index < records.len(),
    ensures
        ledger_of(records).contains_key(records[index].owner@),
        ledger_of(records)[records[index].owner@] == records[index]@,
{
    assert(kept_at(records, index, records[index].owner@));
}

/// Appending the record of an owner who has none adds it to the ledger.
proof fn lemma_ledger_push(records: Seq<Favorites>, record: Favorites)
    requires
        distinct_owners(records),
        forall|i: int| !kept_at(records, i, record.owner@),
    ensures
        distinct_owners(records.push(record)),
        ledger_of(records.push(record)) == ledger_of(records).insert(record.owner@, record@),
{
    let grown = records.push(record);
    let last = records.len() as int;
    assert forall|i: int, owner: Seq<u8>| #[trigger]
        kept_at(grown, i, owner) implies if i == last {
        owner == record.owner@
    } else {
        kept_at(records, i, owner)
    } by {}
    let after = ledger_of(grown);
    let expected = ledger_of(records).insert(record.owner@, record@);
    assert forall|owner: Seq<u8>| #[trigger] after.contains_key(owner) implies expected.contains_key(
        owner,
    ) by {
        let i = choose|i: int| kept_at(grown, i, owner);
        assert(i == last || kept_at(records, i, owner));
    }
    assert forall|owner: Seq<u8>| #[trigger] expected.contains_key(owner) implies after.contains_key(
        owner,
    ) && after[owner] == expected[owner] by {
        let i = if owner == record.owner@ {
            last
        } else {
            choose|i: int| kept_at(records, i, owner)
        };
        assert(kept_at(grown, i, owner));
        lemma_ledger_at(grown, i);
        if i != last {
            lemma_ledger_at(records, i);
        }
    }
    assert(after =~= expected);
}

/// Replacing a record by one of the same owner replaces it in the ledger.
proof fn lemma_ledger_update(records: Seq<Favorites>, index: int, record: Favorites)
    requires
        distinct_owners(records),
        0 <= index < records.len(),
        records[index].owner@ == record.owner@,
    ensures
        distinct_owners(records.update(index, record)),
        ledger_of(records.update(index, record)) == ledger_of(records).insert(
            record.owner@,
            record@,
        ),
{
    let changed = records.update(index, record);
    assert forall|i: int, owner: Seq<u8>| #[trigger]
        kept_at(changed, i, owner) == kept_at(records, i, owner) by {}
    let after = ledger_of(changed);
    let expected = ledger_of(records).insert(record.owner@, record@);
    lemma_ledger_at(records, index);
    assert forall|owner: Seq<u8>| #[trigger] after.contains_key(owner) implies expected.contains_key(
        owner,
    ) by {
        let i = choose|i: int| kept_at(changed, i, owner);
        assert(kept_at(records, i, owner));
    }
    assert forall|owner: Seq<u8>| #[trigger] expected.contains_key(owner) implies after.contains_key(
        owner,
    ) && after[owner] == expected[owner] by {
        if owner == record.owner@ {
            assert(kept_at(records, index, owner));
        }
        let i = choose|i: int| kept_at(records, i, owner);
        assert(kept_at(changed, i, owner));
        lemma_ledger_at(changed, i);
        lemma_ledger_at(records, i);
    }
    assert(after =~= expected);
}

impl View for FavoritesStore {
    type V = Ledger;

    closed spec fn view(&self) -> Ledger {
        ledger_of(self.records@)
    }
}

impl FavoritesStore {
    /// The store keeps at most one record for each owner.
    pub closed spec fn distinct(&self) -> bool {
        distinct_owners(self.records@)
    }

    /// What every store satisfies between two calls.
    pub open spec fn wf(&self) -> bool {
        self.distinct() && valid_ledger(self@)
    }

    /// The policy that the store was set up with.
    pub closed spec fn spec_policy(&self) -> DelegatePolicy {
        self.policy
    }

    /// An empty store in which the owner of a record and its current delegate
    /// may change the delegate.
    pub fn new() -> (store: FavoritesStore)
        ensures
            store.wf(),
            store@ == Map::<Seq<u8>, FavoritesView>::empty(),
            store.spec_policy() == DelegatePolicy::OwnerOrDelegate,
    {
        FavoritesStore::with_policy(DelegatePolicy::OwnerOrDelegate)
    }

    /// An empty store with the given policy on who may change a delegate.
    pub fn with_policy(policy: DelegatePolicy) -> (store: FavoritesStore)
        ensures
            store.wf(),
            store@ == Map::<Seq<u8>, FavoritesView>::empty(),
            store.spec_policy() == policy,
    {
        let store = FavoritesStore { records: Vec::new(), policy };
        assert(store@ =~= Map::<Seq<u8>, FavoritesView>::empty());
        store
    }

    /// The policy that the store was set up with.
    #[verifier::when_used_as_spec(spec_policy)]
    pub fn policy(&self) -> (policy: DelegatePolicy)
        ensures
            policy == self.spec_policy(),
    {
        self.policy
    }

    /// Where the record of `owner` is kept, if there is one.
    fn position(&self, owner: &Pubkey) -> (found: Option<usize>)
        ensures
            match found {
                Some(index) => kept_at(self.records@, index as int, owner@),
                None => forall|i: int| !kept_at(self.records@, i, owner@),
            },
    {
        let mut index: usize = 0;
        while index < self.records.len()
            invariant
                index <= self.records.len(),
                forall|i: int| 0 <= i < index ==> !kept_at(self.records@, i, owner@),
            decreases self.records.len() - index,
        {
            if self.records[index].owner == *owner {
                return Some(index);
            }
            index += 1;
        }
        None
    }

    /// Whether `owner` has a record.
    pub fn contains(&self, owner: &Pubkey) -> (present: bool)
        ensures
            present == self@.contains_key(owner@),
    {
        self.position(owner).is_some()
    }

    /// A copy of the record of `owner`, if there is one.
    pub fn get(&self, owner: &Pubkey) -> (found: Option<Favorites>)
        requires
            self.wf(),
        ensures
            match found {
                Some(record) => self@.contains_key(owner@) && record@ == self@[owner@],
                None => !self@.contains_key(owner@),
            },
    {
        match self.position(owner) {
            Some(index) => {
                proof {
                    lemma_ledger_at(self.records@, index as int);
                }
                Some(self.records[index].clone())
            },
            None => None,
        }
    }

    /// Keeps `record` as the record of its owner, in place of the one that
    /// the owner had, if any.
    pub(crate) fn put(&mut self, record: Favorites)
        requires
            old(self).wf(),
            record@.fits(),
        ensures
            final(self).wf(),
            final(self)@ == old(self)@.insert(record.owner@, record@),
            final(self).spec_policy() == old(self).spec_policy(),
    {
        match self.position(&record.owner) {
            Some(index) => {
                proof {
                    lemma_ledger_update(self.records@, index as int, record);
                }
                self.records[index] = record;
            },
            None => {
                proof {
                    lemma_ledger_push(self.records@, record);
                }
                self.records.push(record);
            },
        }
    }
}

} // verus!
