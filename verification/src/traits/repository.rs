//! The repository port: the CRUD surface of the read model.
//!
//! The core treats the repository purely as a sink for projected state; its
//! storage technology is an external concern. The read model it holds is
//! eventually consistent with the event store: it may lag, and is repaired by
//! the projection handler rebuilding state from the full history.

use vstd::prelude::*;

use super::aggregate::Aggregate;
use crate::ids::AggregateId;

verus! {

/// Failure of the repository.
#[derive(Debug, Clone, PartialEq)]
pub enum RepositoryError {
    /// The read model's backend failed, or the call was malformed (for
    /// example, a record without an identity), with a description.
    RepositoryError(String),
    /// No record exists under the requested identifier.
    NotFound,
}

/// The read model: one record of current state per aggregate identifier.
///
/// `table()` is the repository's mathematical content; `can_access()` says
/// whether the backend is reachable (always, for the in-memory one).
/// An adapter outside the verified world inherits the default models below
/// (an empty table that is always reachable); a verified implementation
/// supplies its own.
pub trait Repository<T: Aggregate>: Sized {
    open spec fn table(&self) -> Map<AggregateId, T> {
        Map::empty()
    }

    open spec fn inv(&self) -> bool {
        true
    }

    open spec fn can_access(&self) -> bool {
        true
    }

    /// Inserts a new record under the aggregate's own identity. Fails — with
    /// the table unchanged — when the aggregate has no identity yet or a
    /// record already exists under it.
    fn create(&mut self, aggregate: T) -> (r: Result<(), RepositoryError>)
        requires
            old(self).inv(),
        ensures
            final(self).inv(),
            final(self).can_access() == old(self).can_access(),
            r is Ok <==> old(self).can_access() && aggregate.id_spec() is Some && !old(
                self,
            ).table().contains_key(aggregate.id_spec()->0),
            r is Ok ==> final(self).table() == old(self).table().insert(
                aggregate.id_spec()->0,
                aggregate,
            ),
            r is Err ==> final(self).table() == old(self).table() && !(r->Err_0 is NotFound),
    ;

    /// Overwrites the record under the aggregate's own identity, if one
    /// exists; without one the call succeeds and changes nothing (the write
    /// targets a record that is not there). Fails only when the aggregate
    /// has no identity or the backend is unreachable.
    fn update(&mut self, aggregate: T) -> (r: Result<(), RepositoryError>)
        requires
            old(self).inv(),
        ensures
            final(self).inv(),
            final(self).can_access() == old(self).can_access(),
            r is Ok <==> old(self).can_access() && aggregate.id_spec() is Some,
            r is Ok ==> final(self).table() == if old(self).table().contains_key(
                aggregate.id_spec()->0,
            ) {
                old(self).table().insert(aggregate.id_spec()->0, aggregate)
            } else {
                old(self).table()
            },
            r is Err ==> final(self).table() == old(self).table() && !(r->Err_0 is NotFound),
    ;

    /// Removes the record under the identifier, if any; removing an absent
    /// record succeeds.
    fn delete(&mut self, id: AggregateId) -> (r: Result<(), RepositoryError>)
        requires
            old(self).inv(),
        ensures
            final(self).inv(),
            final(self).can_access() == old(self).can_access(),
            r is Ok <==> old(self).can_access(),
            r is Ok ==> final(self).table() == old(self).table().remove(id),
            r is Err ==> final(self).table() == old(self).table(),
    ;

    /// The record under the identifier. `NotFound` exactly when no record
    /// exists under it (and the backend is reachable).
    fn get(&self, id: AggregateId) -> (r: Result<T, RepositoryError>)
        requires
            self.inv(),
        ensures
            r is Ok <==> self.can_access() && self.table().contains_key(id),
            r is Ok ==> r->Ok_0 == self.table()[id],
            self.can_access() && !self.table().contains_key(id) ==> r == Err::<T, RepositoryError>(
                RepositoryError::NotFound,
            ),
    ;
}

} // verus!
