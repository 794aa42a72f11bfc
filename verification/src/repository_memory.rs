//! The in-memory repository: the reference implementation of the
//! [`Repository`] port, verified against its contract.
//!
//! Records are held as a key/value list with unique keys; the port's table
//! is the map the list denotes.

use vstd::prelude::*;

use crate::ids::AggregateId;
use crate::traits::aggregate::Aggregate;
use crate::traits::repository::{Repository, RepositoryError};

verus! {

/// The map a key/value list denotes (later entries win, though the store
/// keeps keys unique anyway).
spec fn entries_to_map<T>(s: Seq<(AggregateId, T)>) -> Map<AggregateId, T>
    decreases s.len(),
{
    if s.len() == 0 {
        Map::empty()
    } else {
        entries_to_map(s.drop_last()).insert(s.last().0, s.last().1)
    }
}

/// No two entries share a key.
spec fn unique_keys<T>(s: Seq<(AggregateId, T)>) -> bool {
    forall|i: int, j: int| 0 <= i < j < s.len() ==> (#[trigger] s[i]).0 != (#[trigger] s[j]).0
}

/// A key is in the denoted map exactly when some entry carries it.
proof fn lemma_entries_contains<T>(s: Seq<(AggregateId, T)>, k: AggregateId)
    ensures
        entries_to_map(s).contains_key(k) <==> exists|i: int|
            0 <= i < s.len() && (#[trigger] s[i]).0 == k,
    decreases s.len(),
{
    if s.len() > 0 {
        lemma_entries_contains(s.drop_last(), k);
        if s.last().0 == k {
            assert(s[s.len() - 1].0 == k);
        } else {
            if entries_to_map(s).contains_key(k) {
                let i = choose|i: int|
                    0 <= i < s.drop_last().len() && (#[trigger] s.drop_last()[i]).0 == k;
                assert(s[i].0 == k);
            }
            if exists|i: int| 0 <= i < s.len() && (#[trigger] s[i]).0 == k {
                let i = choose|i: int| 0 <= i < s.len() && (#[trigger] s[i]).0 == k;
                assert(s[s.len() - 1].0 != k);
                assert(i < s.len() - 1);
                assert(s.drop_last()[i].0 == k);
            }
        }
    }
}

/// Under unique keys, the denoted map sends an entry's key to its value.
proof fn lemma_entries_lookup<T>(s: Seq<(AggregateId, T)>, k: AggregateId, i: int)
    requires
        unique_keys(s),
        0 <= i < s.len(),
        s[i].0 == k,
    ensures
        entries_to_map(s).contains_key(k),
        entries_to_map(s)[k] == s[i].1,
    decreases s.len(),
{
    if i == s.len() - 1 {
    } else {
        assert(s.last().0 != k) by {
            assert(s[s.len() - 1] == s.last());
        }
        assert(unique_keys(s.drop_last())) by {
            assert(forall|j: int| 0 <= j < s.drop_last().len() ==> s.drop_last()[j] == s[j]);
        }
        assert(s.drop_last()[i] == s[i]);
        lemma_entries_lookup(s.drop_last(), k, i);
    }
}

/// Appending a fresh entry inserts it into the denoted map.
proof fn lemma_entries_push<T>(s: Seq<(AggregateId, T)>, k: AggregateId, v: T)
    ensures
        entries_to_map(s.push((k, v))) == entries_to_map(s).insert(k, v),
{
    assert(s.push((k, v)).drop_last() =~= s);
    assert(s.push((k, v)).last() == (k, v));
}

/// Overwriting the entry that carries a key updates the denoted map at that
/// key.
proof fn lemma_entries_update<T>(s: Seq<(AggregateId, T)>, i: int, k: AggregateId, v: T)
    requires
        unique_keys(s),
        0 <= i < s.len(),
        s[i].0 == k,
    ensures
        entries_to_map(s.update(i, (k, v))) == entries_to_map(s).insert(k, v),
    decreases s.len(),
{
    let s2 = s.update(i, (k, v));
    if i == s.len() - 1 {
        assert(s2.drop_last() =~= s.drop_last());
        assert(s2.last() == (k, v));
        assert(entries_to_map(s.drop_last()).insert(s.last().0, s.last().1).insert(k, v)
            =~= entries_to_map(s.drop_last()).insert(k, v)) by {
            assert(s.last().0 == k) by {
                assert(s[s.len() - 1] == s.last());
            }
        }
    } else {
        assert(s2.drop_last() =~= s.drop_last().update(i, (k, v)));
        assert(s2.last() == s.last());
        assert(unique_keys(s.drop_last())) by {
            assert(forall|j: int| 0 <= j < s.drop_last().len() ==> s.drop_last()[j] == s[j]);
        }
        assert(s.drop_last()[i] == s[i]);
        lemma_entries_update(s.drop_last(), i, k, v);
        assert(s.last().0 != k) by {
            assert(s[s.len() - 1] == s.last());
        }
        assert(entries_to_map(s.drop_last()).insert(k, v).insert(s.last().0, s.last().1)
            =~= entries_to_map(s.drop_last()).insert(s.last().0, s.last().1).insert(k, v));
    }
}

/// Removing the entry that carries a key removes that key from the denoted
/// map.
proof fn lemma_entries_remove<T>(s: Seq<(AggregateId, T)>, i: int)
    requires
        unique_keys(s),
        0 <= i < s.len(),
    ensures
        entries_to_map(s.remove(i)) == entries_to_map(s).remove(s[i].0),
    decreases s.len(),
{
    let k = s[i].0;
    if i == s.len() - 1 {
        assert(s.remove(i) =~= s.drop_last());
        assert(s.last().0 == k) by {
            assert(s[s.len() - 1] == s.last());
        }
        lemma_entries_contains(s.drop_last(), k);
        assert(!entries_to_map(s.drop_last()).contains_key(k)) by {
            assert(forall|j: int| 0 <= j < s.drop_last().len() ==> s.drop_last()[j] == s[j]);
        }
        assert(entries_to_map(s.drop_last()).insert(k, s.last().1).remove(k) =~= entries_to_map(
            s.drop_last(),
        ));
    } else {
        assert(s.remove(i).drop_last() =~= s.drop_last().remove(i));
        assert(s.remove(i).last() == s.last());
        assert(unique_keys(s.drop_last())) by {
            assert(forall|j: int| 0 <= j < s.drop_last().len() ==> s.drop_last()[j] == s[j]);
        }
        assert(s.drop_last()[i] == s[i]);
        lemma_entries_remove(s.drop_last(), i);
        assert(s.last().0 != k) by {
            assert(s[s.len() - 1] == s.last());
        }
        assert(entries_to_map(s.drop_last()).remove(k).insert(s.last().0, s.last().1)
            =~= entries_to_map(s.drop_last()).insert(s.last().0, s.last().1).remove(k));
    }
}

/// A read model held in memory.
pub struct RepositoryMemory<T> {
    entries: Vec<(AggregateId, T)>,
}

impl<T: Aggregate + Copy> RepositoryMemory<T> {
    /// An empty read model.
    pub fn new() -> (r: Self)
        ensures
            <RepositoryMemory<T> as Repository<T>>::table(&r) == Map::<AggregateId, T>::empty(),
            <RepositoryMemory<T> as Repository<T>>::inv(&r),
            <RepositoryMemory<T> as Repository<T>>::can_access(&r),
    {
        RepositoryMemory { entries: Vec::new() }
    }

    /// The index of the entry carrying the key, if any.
    fn find_index(&self, id: AggregateId) -> (r: Option<usize>)
        ensures
            r is Some ==> 0 <= r->0 < self.entries@.len() && self.entries@[r->0 as int].0 == id,
            r is None ==> forall|j: int|
                0 <= j < self.entries@.len() ==> (#[trigger] self.entries@[j]).0 != id,
    {
        let mut i: usize = 0;
        while i < self.entries.len()
            invariant
                0 <= i <= self.entries@.len(),
                forall|j: int| 0 <= j < i ==> (#[trigger] self.entries@[j]).0 != id,
            decreases self.entries@.len() - i,
        {
            if self.entries[i].0 == id {
                return Some(i);
            }
            i = i + 1;
        }
        None
    }
}

impl<T: Aggregate + Copy> Repository<T> for RepositoryMemory<T> {
    closed spec fn table(&self) -> Map<AggregateId, T> {
        entries_to_map(self.entries@)
    }

    closed spec fn inv(&self) -> bool {
        unique_keys(self.entries@)
    }

    /// Memory is always reachable.
    closed spec fn can_access(&self) -> bool {
        true
    }

    fn create(&mut self, aggregate: T) -> (r: Result<(), RepositoryError>) {
        let id_opt = aggregate.aggregate_id();
        match id_opt {
            None => Err(
                RepositoryError::RepositoryError("an identity is required to create".to_string()),
            ),
            Some(id) => {
                proof {
                    lemma_entries_contains(self.entries@, id);
                }
                match self.find_index(id) {
                    Some(_) => Err(
                        RepositoryError::RepositoryError(
                            "a record already exists under this identity".to_string(),
                        ),
                    ),
                    None => {
                        let ghost pre = self.entries@;
                        self.entries.push((id, aggregate));
                        proof {
                            lemma_entries_push(pre, id, aggregate);
                            assert(unique_keys(self.entries@)) by {
                                assert(forall|j: int| 0 <= j < pre.len() ==> self.entries@[j]
                                    == pre[j]);
                                assert(self.entries@[pre.len() as int].0 == id);
                            }
                        }
                        Ok(())
                    },
                }
            },
        }
    }

    fn update(&mut self, aggregate: T) -> (r: Result<(), RepositoryError>) {
        let id_opt = aggregate.aggregate_id();
        match id_opt {
            None => Err(
                RepositoryError::RepositoryError("an identity is required to update".to_string()),
            ),
            Some(id) => {
                proof {
                    lemma_entries_contains(self.entries@, id);
                }
                match self.find_index(id) {
                    Some(i) => {
                        let ghost pre = self.entries@;
                        self.entries[i] = (id, aggregate);
                        proof {
                            lemma_entries_update(pre, i as int, id, aggregate);
                            assert(unique_keys(self.entries@)) by {
                                assert(forall|j: int|
                                    0 <= j < pre.len() && j != i ==> self.entries@[j] == pre[j]);
                            }
                            lemma_entries_lookup(pre, id, i as int);
                        }
                        Ok(())
                    },
                    None => Ok(()),
                }
            },
        }
    }

    fn delete(&mut self, id: AggregateId) -> (r: Result<(), RepositoryError>) {
        proof {
            lemma_entries_contains(self.entries@, id);
        }
        match self.find_index(id) {
            Some(i) => {
                let ghost pre = self.entries@;
                let _ = self.entries.remove(i);
                proof {
                    lemma_entries_remove(pre, i as int);
                    assert(unique_keys(self.entries@)) by {
                        assert(forall|j: int|
                            0 <= j < self.entries@.len() ==> self.entries@[j] == if j < i {
                                pre[j]
                            } else {
                                pre[j + 1]
                            });
                    }
                }
                Ok(())
            },
            None => {
                proof {
                    assert(entries_to_map(self.entries@).remove(id) =~= entries_to_map(
                        self.entries@,
                    ));
                }
                Ok(())
            },
        }
    }

    fn get(&self, id: AggregateId) -> (r: Result<T, RepositoryError>) {
        proof {
            lemma_entries_contains(self.entries@, id);
        }
        match self.find_index(id) {
            Some(i) => {
                proof {
                    lemma_entries_lookup(self.entries@, id, i as int);
                }
                Ok(self.entries[i].1)
            },
            None => Err(RepositoryError::NotFound),
        }
    }
}

} // verus!
