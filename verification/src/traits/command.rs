//! The command contract.

use vstd::prelude::*;

verus! {

/// A transient intent, never persisted: a pure function over the *current*
/// aggregate state producing zero or more events, or a domain error.
///
/// Each implementor pins its behaviour through the two outcome relations:
/// `outcome_ok` says which event sequences may be produced on which states,
/// and `outcome_err` says which errors may be returned on which states.
/// A command whose `outcome_err` is false on a state is thereby promised to
/// succeed on that state. The relations (rather than a single function of
/// the state) leave room for commands that draw fresh identifiers.
pub trait Command<T, E, Failure>: Sized {
    /// Which event sequences this command may produce on `state`.
    spec fn outcome_ok(&self, state: T, events: Seq<E>) -> bool;

    /// Which errors this command may return on `state`.
    spec fn outcome_err(&self, state: T, err: Failure) -> bool;

    /// Evaluates the command against `state`, before any of the returned
    /// events are applied: commands never see each other's in-flight effects.
    fn execute(&self, state: T) -> (r: Result<Vec<E>, Failure>)
        ensures
            match r {
                Ok(events) => self.outcome_ok(state, events@),
                Err(e) => self.outcome_err(state, e),
            },
    ;
}

} // verus!
