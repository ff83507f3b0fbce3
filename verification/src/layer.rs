//! Event-sourced state processing.
//!
//! A [`Layer`] owns a state and changes it only by processing commands. A
//! command is decided against a read-only snapshot of the state, yielding a
//! result and an ordered list of events; each event is then applied to the
//! state, in emission order. The decide phase never mutates, the evolve
//! phase never decides, and a `process` call is atomic from the caller's
//! perspective: every later call sees the cumulative effect of all events
//! applied so far, in call order.
//!
//! Contracts speak of the state's view: what an event does to the state is
//! the total, deterministic function [`Event::evolve_spec`] on views.

use vstd::prelude::*;

verus! {

/// A state-delta fact. Applying it (`evolve`) is a deterministic, total
/// mutation of the state, fixed by [`Event::evolve_spec`].
pub trait Event<S: View>: Sized {
    /// The state that applying this event to the given state yields.
    spec fn evolve_spec(&self, state: <S as View>::V) -> <S as View>::V;

    /// Apply the event to the state: mutation only, no decision logic.
    fn evolve(&self, state: &mut S)
        ensures
            final(state)@ == self.evolve_spec(old(state)@),
    ;
}

/// An input plus a pure decision function over a state snapshot, producing
/// zero or more events and a result; it never mutates state directly.
pub trait Command<S: View>: Sized {
    /// What `decide` returns to the caller.
    type Result;

    /// The kind of event this command emits.
    type Event: Event<S>;

    /// What the emitted events and the result say of the state snapshot
    /// the command was decided against.
    spec fn decide_rel(
        &self,
        state: <S as View>::V,
        emitted: Seq<Self::Event>,
        result: Self::Result,
    ) -> bool;

    /// Decide the command against a read-only state snapshot, appending the
    /// emitted events in emission order.
    fn decide(self, state: &S, events: &mut Vec<Self::Event>) -> (r: Self::Result)
        ensures
            final(events)@.len() >= old(events)@.len(),
            final(events)@.take(old(events)@.len() as int) == old(events)@,
            self.decide_rel(state@, final(events)@.skip(old(events)@.len() as int), r),
    ;
}

/// The state reached by applying a sequence of events in order.
pub open spec fn evolve_all<S: View, E: Event<S>>(
    state: <S as View>::V,
    events: Seq<E>,
) -> <S as View>::V
    decreases events.len(),
{
    if events.len() == 0 {
        state
    } else {
        events.last().evolve_spec(evolve_all::<S, E>(state, events.drop_last()))
    }
}

/// Evolve determinism: replaying an identical ordered event sequence from an
/// identical initial state always yields an identical final state.
pub proof fn lemma_evolve_deterministic<S: View, E: Event<S>>(
    state1: <S as View>::V,
    state2: <S as View>::V,
    events1: Seq<E>,
    events2: Seq<E>,
)
    requires
        state1 == state2,
        events1 == events2,
    ensures
        evolve_all::<S, E>(state1, events1) == evolve_all::<S, E>(state2, events2),
{
}

/// The causal log composes: applying one event sequence and then another
/// yields the same state as applying their concatenation, so each
/// `process` call sees the cumulative effect of all previously applied
/// events, in call order.
pub proof fn lemma_evolve_all_concat<S: View, E: Event<S>>(
    state: <S as View>::V,
    first: Seq<E>,
    second: Seq<E>,
)
    ensures
        evolve_all::<S, E>(state, first + second) == evolve_all::<S, E>(
            evolve_all::<S, E>(state, first),
            second,
        ),
    decreases second.len(),
{
    if second.len() == 0 {
        assert(first + second =~= first);
    } else {
        assert((first + second).drop_last() =~= first + second.drop_last());
        assert((first + second).last() == second.last());
        lemma_evolve_all_concat::<S, E>(state, first, second.drop_last());
    }
}

/// An event-sourced state container. The state is exclusively owned by the
/// layer and is mutated only by applying events emitted by commands that
/// were processed against this same layer.
pub struct Layer<S> {
    state: S,
}

impl<S: View> View for Layer<S> {
    type V = <S as View>::V;

    closed spec fn view(&self) -> <S as View>::V {
        self.state@
    }
}

impl<S: View> Layer<S> {
    /// Create a layer that starts from the given state.
    pub fn new(state: S) -> (r: Layer<S>)
        ensures
            r@ == state@,
    {
        Layer { state }
    }

    /// Inspect the current state, read-only.
    pub fn state(&self) -> (r: &S)
        ensures
            r@ == self@,
    {
        &self.state
    }

    /// Process a command: decide it against the current state, then apply
    /// every event in the buffer to the state, in order.
    ///
    /// The command observes only the state as it was when the call began,
    /// never a partially updated one; the result is exactly what the decide
    /// phase computed against that snapshot.
    pub fn process<C: Command<S>>(&mut self, command: C, events: &mut Vec<C::Event>) -> (r:
        C::Result)
        ensures
            final(events)@.len() >= old(events)@.len(),
            final(events)@.take(old(events)@.len() as int) == old(events)@,
            command.decide_rel(
                old(self)@,
                final(events)@.skip(old(events)@.len() as int),
                r,
            ),
            final(self)@ == evolve_all::<S, C::Event>(old(self)@, final(events)@),
    {
        let result = command.decide(&self.state, events);

        let ghost all_events = events@;
        let mut i: usize = 0;
        while i < events.len()
            invariant
                i <= events.len(),
                events@ == all_events,
                self.state@ == evolve_all::<S, C::Event>(old(self)@, events@.take(i as int)),
            decreases events.len() - i,
        {
            let event = &events[i];
            event.evolve(&mut self.state);
            proof {
                assert(events@.take(i + 1 as int).drop_last() == events@.take(i as int));
                assert(events@.take(i + 1 as int).last() == events@[i as int]);
            }
            i = i + 1;
        }
        proof {
            assert(events@.take(events@.len() as int) == events@);
        }
        result
    }
}

} // verus!
