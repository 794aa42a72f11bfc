//! The aggregate replay engine.
//!
//! An aggregate's current state is fully determined by its event history:
//! state is reconstructed by a deterministic left fold that starts from the
//! type's initial ("not yet created") value and applies each event in order,
//! stopping at the first failure. There is no cached state anywhere in the
//! engine; every read replays from scratch. (A caller holding a cached state
//! may instead fold only the new events onto it with [`handle_event`]; the
//! engine supports that but never does it by itself.)

use vstd::prelude::*;

use super::command::Command;
use super::event::{ApplyError, Event};
use crate::ids::AggregateId;

verus! {

/// An aggregate state type: a value with a defined initial ("not yet
/// created") value and an identity that it carries once opened.
pub trait Aggregate: Sized {
    /// The initial value, before any event has been applied.
    spec fn initial_spec() -> Self;

    /// The identity this state carries, if it has been opened.
    spec fn id_spec(&self) -> Option<AggregateId>;

    fn initial() -> (r: Self)
        ensures
            r == Self::initial_spec(),
    ;

    fn aggregate_id(&self) -> (r: Option<AggregateId>)
        ensures
            r == self.id_spec(),
    ;
}

/// The left fold of `history` onto `init`: applies each event in order and
/// aborts with the first `ApplyError`.
pub open spec fn fold_events<T, E: Event<T>>(init: T, history: Seq<E>) -> Result<T, ApplyError>
    decreases history.len(),
{
    if history.len() == 0 {
        Ok(init)
    } else {
        match history[0].apply_to(init) {
            Ok(next) => fold_events(next, history.skip(1)),
            Err(e) => Err(e),
        }
    }
}

/// The state an aggregate is in after the given history: the fold of the
/// history onto the initial value. This is the single source of truth for
/// "what is an aggregate's current state".
pub open spec fn replay<T: Aggregate, E: Event<T>>(history: Seq<E>) -> Result<T, ApplyError> {
    fold_events(T::initial_spec(), history)
}

/// Folds an ordered run of events onto a caller-held state: the explicit
/// option for a caller that has cached a replayed state and fetches only the
/// new events. Applies each event in sequence order and aborts on the first
/// `ApplyError`, with no partial state visible to the caller.
#[verifier::loop_isolation(false)]
pub fn apply_history<T, E: Event<T>>(start: T, history: Vec<E>) -> (r: Result<T, ApplyError>)
    ensures
        r == fold_events(start, history@),
{
    let ghost init = start;
    let ghost all = history@;
    let mut state = start;
    let mut i: usize = 0;
    proof {
        assert(all.skip(0) =~= all);
    }
    while i < history.len()
        invariant
            0 <= i <= all.len(),
            history@ == all,
            fold_events(state, all.skip(i as int)) == fold_events(init, all),
        decreases all.len() - i,
    {
        proof {
            assert(all.skip(i as int)[0] == all[i as int]);
            assert(all.skip(i as int).skip(1) =~= all.skip(i as int + 1));
        }
        match history[i].apply(&mut state) {
            Ok(()) => {},
            Err(e) => {
                return Err(e);
            },
        }
        i = i + 1;
    }
    proof {
        assert(all.skip(all.len() as int) =~= Seq::<E>::empty());
    }
    Ok(state)
}

/// Reconstructs the aggregate's state from its ordered event history.
///
/// Starts from the initial value and applies each event in sequence order;
/// aborts on the first `ApplyError`, with no partial state visible to the
/// caller. This is the single source of truth for an aggregate's current
/// state: nothing is cached, every read replays from scratch.
pub fn from_history<T: Aggregate, E: Event<T>>(history: Vec<E>) -> (r: Result<T, ApplyError>)
    ensures
        r == replay::<T, E>(history@),
{
    apply_history(T::initial(), history)
}

/// Replay is deterministic: the history alone fixes the outcome, so any two
/// results that satisfy [`from_history`]'s contract on the same history are
/// equal. There is no hidden state.
pub proof fn lemma_replay_deterministic<T: Aggregate, E: Event<T>>(
    history: Seq<E>,
    r1: Result<T, ApplyError>,
    r2: Result<T, ApplyError>,
)
    requires
        r1 == replay::<T, E>(history),
        r2 == replay::<T, E>(history),
    ensures
        r1 == r2,
{
}

/// Evaluates a command against the current state. The command sees the state
/// as it was before any of the returned events is applied.
pub fn handle_command<T, E, Failure, C: Command<T, E, Failure>>(state: T, command: C) -> (r: Result<
    Vec<E>,
    Failure,
>)
    ensures
        match r {
            Ok(events) => command.outcome_ok(state, events@),
            Err(e) => command.outcome_err(state, e),
        },
{
    command.execute(state)
}

/// Applies a single event to a state in place; fails, leaving the state
/// unchanged, exactly when the event's `apply_to` fails.
pub fn handle_event<T, E: Event<T>>(state: &mut T, event: E) -> (r: Result<(), ApplyError>)
    ensures
        match r {
            Ok(()) => event.apply_to(*old(state)) == Ok::<T, ApplyError>(*final(state)),
            Err(e) => *final(state) == *old(state) && event.apply_to(*old(state)) == Err::<
                T,
                ApplyError,
            >(e),
        },
{
    event.apply(state)
}

} // verus!
