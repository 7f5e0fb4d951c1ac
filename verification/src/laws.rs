//! What holds of every drain cycle and of every run of the bridge, whatever
//! the machines are.

use vstd::prelude::*;
use crate::bridge::{BridgeState, BridgeView, DeliveryView, Stimulus};
use crate::events::{APIAction, APIEvent, Event, Protocol};
use crate::machine::Machines;
use crate::model::{CoreState, Cycle};

verus! {

impl<P: Protocol, M: Machines<P>> Cycle<P, M> {
    /// The events dispatched within `fuel` steps, in the order of dispatch.
    pub open spec fn trace(self, fuel: nat) -> Seq<Event<P>>
        decreases fuel,
    {
        if self.queue.len() == 0 || fuel == 0 {
            Seq::empty()
        } else {
            seq![self.queue.first()] + self.advance().trace((fuel - 1) as nat)
        }
    }

    /// The batches that the machines hand back within `fuel` steps, laid end
    /// to end in the order of production.
    pub open spec fn emitted(self, fuel: nat) -> Seq<Event<P>>
        decreases fuel,
    {
        if self.queue.len() == 0 || fuel == 0 {
            Seq::empty()
        } else {
            self.core.dispatch(self.queue.first()).1 + self.advance().emitted((fuel - 1) as nat)
        }
    }

    /// Once a number of steps empties the queue, more steps change nothing.
    pub proof fn lemma_run_more_fuel(self, fuel: nat, more: nat)
        requires
            self.run(fuel) is Some,
        ensures
            self.run(fuel + more) == self.run(fuel),
            self.trace(fuel + more) == self.trace(fuel),
            self.emitted(fuel + more) == self.emitted(fuel),
        decreases fuel,
    {
        if self.queue.len() > 0 {
            self.advance().lemma_run_more_fuel((fuel - 1) as nat, more);
        }
    }

    /// A cycle ends with an empty queue: nothing is carried over into the
    /// next cycle.
    pub proof fn lemma_run_empties_queue(self, fuel: nat)
        requires
            self.run(fuel) is Some,
        ensures
            self.run(fuel).unwrap().queue.len() == 0,
        decreases fuel,
    {
        if self.queue.len() > 0 {
            self.advance().lemma_run_empties_queue((fuel - 1) as nat);
        }
    }

    /// A cycle that empties its queue within `fuel` steps settles, and it
    /// settles where those steps take it: the outcome does not depend on how
    /// many steps were allowed.
    pub proof fn lemma_settled(self, fuel: nat)
        requires
            self.run(fuel) is Some,
        ensures
            self.settles(),
            self.settled() == self.run(fuel).unwrap(),
            self.settled().queue.len() == 0,
    {
        self.lemma_run_empties_queue(fuel);
        let chosen = choose|f: nat| self.run(f) is Some;
        if chosen <= fuel {
            self.lemma_run_more_fuel(chosen, (fuel - chosen) as nat);
        } else {
            self.lemma_run_more_fuel(fuel, (chosen - fuel) as nat);
        }
    }

    /// A cascade that a measure bounds settles. If some property of the cycle
    /// holds now and is kept by every step, and every step from a cycle with
    /// that property lowers some measure in the natural numbers, then the
    /// queue is empty after at most as many steps as the measure says now.
    pub proof fn lemma_ranked_cycle_settles(
        self,
        kept: spec_fn(Cycle<P, M>) -> bool,
        rank: spec_fn(Cycle<P, M>) -> nat,
    )
        requires
            kept(self),
            forall|c: Cycle<P, M>|
                kept(c) && c.queue.len() > 0 ==> kept(#[trigger] c.advance()) && rank(c.advance())
                    < rank(c),
        ensures
            self.run(rank(self)) is Some,
            self.settles(),
        decreases rank(self),
    {
        if self.queue.len() > 0 {
            let next = self.advance();
            next.lemma_ranked_cycle_settles(kept, rank);
            next.lemma_run_more_fuel(rank(next), (rank(self) - 1 - rank(next)) as nat);
        }
    }

    /// First in, first out. The events are dispatched in the order in which
    /// they joined the queue: what was queued at the start, then what the
    /// machines produced, in production order and without the timing samples.
    pub proof fn lemma_first_in_first_out(self, fuel: nat)
        requires
            self.run(fuel) is Some,
        ensures
            self.trace(fuel) == self.queue + Event::queued(self.emitted(fuel)),
        decreases fuel,
    {
        if self.queue.len() == 0 {
            assert(self.queue + Event::queued(self.emitted(fuel)) =~= Seq::empty()) by {
                Event::<P>::lemma_concat(Seq::empty(), Seq::empty());
            }
        } else {
            let next = self.advance();
            let rest = (fuel - 1) as nat;
            let batch = self.core.dispatch(self.queue.first()).1;
            next.lemma_first_in_first_out(rest);
            Event::lemma_concat(batch, next.emitted(rest));
            assert(seq![self.queue.first()] + (self.queue.drop_first() + Event::queued(batch)
                + Event::queued(next.emitted(rest))) =~= self.queue + (Event::queued(batch)
                + Event::queued(next.emitted(rest))));
        }
    }

    /// Nothing is lost and nothing is reordered. When the queue is empty, the
    /// accumulator has grown by exactly the notifications that were
    /// dispatched, in the order of dispatch, and the I/O layer has been
    /// handed exactly the instructions that were dispatched, in that order.
    pub proof fn lemma_outputs_follow_trace(self, fuel: nat)
        requires
            self.run(fuel) is Some,
        ensures
            self.run(fuel).unwrap().actions == self.actions + Event::notifications(
                self.trace(fuel),
            ),
            self.run(fuel).unwrap().core.io == self.core.io + Event::instructions(self.trace(fuel)),
        decreases fuel,
    {
        let end = self.run(fuel).unwrap();
        if self.queue.len() == 0 {
            Event::<P>::lemma_concat(Seq::empty(), Seq::empty());
            assert(self.actions + Event::notifications(self.trace(fuel)) =~= self.actions);
            assert(self.core.io + Event::instructions(self.trace(fuel)) =~= self.core.io);
        } else {
            let head = self.queue.first();
            let next = self.advance();
            let rest = (fuel - 1) as nat;
            next.lemma_outputs_follow_trace(rest);
            Event::lemma_push(Seq::empty(), head);
            assert(Seq::<Event<P>>::empty().push(head) =~= seq![head]);
            Event::lemma_concat(seq![head], next.trace(rest));
            assert(end.actions =~= self.actions + Event::notifications(self.trace(fuel)));
            assert(end.core.io =~= self.core.io + Event::instructions(self.trace(fuel)));
        }
    }

    /// No timing sample is lost. From a queue that holds no sample, as every
    /// queue does that has passed the sieve, the collector grows by exactly
    /// the samples that the machines produce, in production order.
    pub proof fn lemma_samples_follow_batches(self, fuel: nat)
        requires
            self.run(fuel) is Some,
            Event::sieved(self.queue),
        ensures
            self.run(fuel).unwrap().core.timing == self.core.timing + Event::samples(
                self.emitted(fuel),
            ),
        decreases fuel,
    {
        let end = self.run(fuel).unwrap();
        if self.queue.len() == 0 {
            Event::<P>::lemma_concat(Seq::empty(), Seq::empty());
            assert(self.core.timing + Event::samples(self.emitted(fuel)) =~= self.core.timing);
        } else {
            let head = self.queue.first();
            let next = self.advance();
            let rest = (fuel - 1) as nat;
            let batch = self.core.dispatch(head).1;
            assert(head == self.queue[0]);
            Event::lemma_sieve(batch);
            assert forall|i: int| 0 <= i < next.queue.len() implies next.queue[i] !is Timing by {
                if i < self.queue.len() - 1 {
                    assert(next.queue[i] == self.queue[i + 1]);
                } else {
                    assert(next.queue[i] == Event::queued(batch)[i - (self.queue.len() - 1)]);
                }
            }
            next.lemma_samples_follow_batches(rest);
            Event::lemma_concat(batch, next.emitted(rest));
            assert(end.core.timing =~= self.core.timing + Event::samples(self.emitted(fuel)));
        }
    }

    /// An event that its machine consumes without a word leaves no mark
    /// outside that machine: the queue shrinks by the event and takes nothing
    /// on, the accumulator stays as it is, and so do both side collectors.
    pub proof fn lemma_silent_event(self)
        requires
            self.queue.len() > 0,
            self.queue.first() !is API,
            self.queue.first() !is IO,
            self.queue.first() !is Timing,
            self.core.dispatch(self.queue.first()).1 == Seq::<Event<P>>::empty(),
        ensures
            self.advance().queue == self.queue.drop_first(),
            self.advance().actions == self.actions,
            self.advance().core == self.core.dispatch(self.queue.first()).0,
            self.advance().core.timing == self.core.timing,
            self.advance().core.io == self.core.io,
    {
        Event::<P>::lemma_concat(Seq::empty(), Seq::empty());
        assert(self.queue.drop_first() + Event::queued(Seq::<Event<P>>::empty())
            =~= self.queue.drop_first());
        assert(self.core.dispatch(self.queue.first()).0.timing + Event::samples(
            Seq::<Event<P>>::empty(),
        ) =~= self.core.timing);
    }
}

impl<P: Protocol, M: Machines<P>> CoreState<P, M> {
    /// A seed that empties within `fuel` steps settles, and the cycle ends
    /// where those steps take it.
    pub proof fn lemma_execute(self, seed: Seq<Event<P>>, fuel: nat)
        requires
            self.cycle(seed).run(fuel) is Some,
        ensures
            self.settles(seed),
            self.execute(seed).0 == (CoreState {
                cycles: self.cycles + 1,
                ..self.cycle(seed).run(fuel).unwrap().core
            }),
            self.execute(seed).1 == self.cycle(seed).run(fuel).unwrap().actions,
    {
        self.cycle(seed).lemma_settled(fuel);
    }

    /// What one drain cycle gives out, said without the queue. Lay the seed
    /// and the batches that the machines hand back end to end, in production
    /// order. The notifications returned are exactly the notifications in
    /// that row, in that order, and none from any other cycle. The I/O
    /// instructions handed over are exactly its instructions, and the timing
    /// samples collected are exactly its samples, those of the seed among
    /// them.
    pub proof fn lemma_execute_in_order(self, seed: Seq<Event<P>>, fuel: nat)
        requires
            self.cycle(seed).run(fuel) is Some,
        ensures
            self.execute(seed).1 == Event::notifications(seed + self.cycle(seed).emitted(fuel)),
            self.execute(seed).0.io == self.io + Event::instructions(
                seed + self.cycle(seed).emitted(fuel),
            ),
            self.execute(seed).0.timing == self.timing + Event::samples(
                seed + self.cycle(seed).emitted(fuel),
            ),
            self.execute(seed).0.cycles == self.cycles + 1,
    {
        let cycle = self.cycle(seed);
        let emitted = cycle.emitted(fuel);
        cycle.lemma_settled(fuel);
        cycle.lemma_first_in_first_out(fuel);
        cycle.lemma_outputs_follow_trace(fuel);
        Event::lemma_sieve(seed);
        cycle.lemma_samples_follow_batches(fuel);
        Event::lemma_concat(seed, emitted);
        Event::lemma_sieve(seed + emitted);
        assert(Seq::<APIAction<P>>::empty() + Event::notifications(cycle.trace(fuel))
            =~= Event::notifications(cycle.trace(fuel)));
        assert(self.timing + Event::samples(seed) + Event::samples(emitted) =~= self.timing + (
            Event::samples(seed) + Event::samples(emitted)));
    }

    /// A seed of one event that its machine consumes without a word: the
    /// cycle is over after that one step, returns no notification, and
    /// changes nothing but that machine and the count of cycles.
    pub proof fn lemma_silent_seed(self, event: Event<P>)
        requires
            event !is API,
            event !is IO,
            event !is Timing,
            self.dispatch(event).1 == Seq::<Event<P>>::empty(),
        ensures
            self.settles(seq![event]),
            self.execute(seq![event]).1 == Seq::<APIAction<P>>::empty(),
            self.execute(seq![event]).0 == (CoreState {
                cycles: self.cycles + 1,
                ..self.dispatch(event).0
            }),
    {
        let cycle = self.cycle(seq![event]);
        Event::<P>::lemma_concat(Seq::empty(), Seq::empty());
        Event::lemma_push(Seq::empty(), event);
        assert(Seq::<Event<P>>::empty().push(event) =~= seq![event]);
        assert(cycle.queue =~= seq![event]);
        assert(self.timing + Event::samples(seq![event]) =~= self.timing);
        assert(cycle.core == self);
        cycle.lemma_silent_event();
        assert(cycle.advance().queue =~= Seq::empty());
        assert(cycle.advance().run(0) is Some);
        assert(cycle.run(1) == cycle.advance().run(0));
        cycle.lemma_settled(1);
    }
}

impl<P: Protocol, M: Machines<P>> BridgeView<P, M> {
    /// How many of the stimuli behind `outcomes` were accepted.
    pub open spec fn accepted(outcomes: Seq<Option<DeliveryView<P>>>) -> nat
        decreases outcomes.len(),
    {
        if outcomes.len() == 0 {
            0
        } else if outcomes.first() is Some {
            1 + Self::accepted(outcomes.drop_first())
        } else {
            Self::accepted(outcomes.drop_first())
        }
    }

    /// Every stimulus has its outcome.
    pub proof fn lemma_run_len(self, stimuli: Seq<Stimulus<P>>)
        ensures
            self.run(stimuli).1.len() == stimuli.len(),
        decreases stimuli.len(),
    {
        if stimuli.len() > 0 {
            self.accept(stimuli.first()).0.lemma_run_len(stimuli.drop_first());
        }
    }

    /// What a running bridge hands on for one stimulus is what the engine
    /// returned for that stimulus and no other, in the same order, up to
    /// the first closing notification and with it. So a closing notification
    /// is handed on at most once, and as the last: the bridge closes behind
    /// it, and what the engine returned after it goes nowhere.
    pub proof fn lemma_delivery(self, stimulus: Stimulus<P>)
        requires
            self.state is Running,
        ensures
            self.accept(stimulus).1 is Some,
            self.accept(stimulus).1.unwrap().actions.is_prefix_of(self.respond(stimulus).1),
            forall|i: int|
                0 <= i < self.accept(stimulus).1.unwrap().actions.len() - 1 ==> self.accept(
                    stimulus,
                ).1.unwrap().actions[i] !is GotClosed,
            self.accept(stimulus).1.unwrap().close <==> self.accept(stimulus).1.unwrap().actions.len()
                > 0 && self.accept(stimulus).1.unwrap().actions.last() is GotClosed,
            self.accept(stimulus).1.unwrap().close <==> exists|i: int|
                0 <= i < self.respond(stimulus).1.len() && self.respond(stimulus).1[i] is GotClosed,
            !self.accept(stimulus).1.unwrap().close ==> self.accept(stimulus).1.unwrap().actions
                == self.respond(stimulus).1,
            self.accept(stimulus).1.unwrap().close <==> self.accept(stimulus).0.state is Closed,
    {
        let actions = self.respond(stimulus).1;
        APIAction::lemma_cut(actions);
    }

    /// What goes downstream for one stimulus, said without the queue: the
    /// notifications among the batch of the entry machine and what the
    /// machines produced after it, in production order, up to the first
    /// closing one and with it. Where none is closing, all of them go, and
    /// nothing else.
    pub proof fn lemma_delivery_in_order(self, stimulus: Stimulus<P>, fuel: nat)
        requires
            self.state is Running,
            self.enter(stimulus).0.cycle(self.enter(stimulus).1).run(fuel) is Some,
        ensures
            self.settles(stimulus),
            self.accept(stimulus).1 is Some,
            self.accept(stimulus).1.unwrap().actions.is_prefix_of(
                Event::notifications(
                    self.enter(stimulus).1 + self.enter(stimulus).0.cycle(
                        self.enter(stimulus).1,
                    ).emitted(fuel),
                ),
            ),
            !self.accept(stimulus).1.unwrap().close ==> self.accept(stimulus).1.unwrap().actions
                == Event::notifications(
                self.enter(stimulus).1 + self.enter(stimulus).0.cycle(
                    self.enter(stimulus).1,
                ).emitted(fuel),
            ),
            self.accept(stimulus).1.unwrap().io == self.core.io + Event::instructions(
                self.enter(stimulus).1 + self.enter(stimulus).0.cycle(
                    self.enter(stimulus).1,
                ).emitted(fuel),
            ),
    {
        let (core, seed) = self.enter(stimulus);
        core.lemma_execute(seed, fuel);
        core.lemma_execute_in_order(seed, fuel);
        self.lemma_delivery(stimulus);
    }

    /// Closed is final. A closed bridge refuses every stimulus, runs no
    /// drain cycle, hands nothing on and never closes again.
    pub proof fn lemma_closed_is_final(self, stimuli: Seq<Stimulus<P>>)
        requires
            self.state is Closed,
        ensures
            self.run(stimuli).0 == self,
            self.run(stimuli).1.len() == stimuli.len(),
            forall|i: int| 0 <= i < stimuli.len() ==> self.run(stimuli).1[i] is None,
        decreases stimuli.len(),
    {
        if stimuli.len() > 0 {
            self.lemma_closed_is_final(stimuli.drop_first());
        }
    }

    /// The sink is closed at most once, and nothing is handed on after it:
    /// once a stimulus has been refused or has closed the session, every
    /// later stimulus is refused.
    pub proof fn lemma_closes_once(self, stimuli: Seq<Stimulus<P>>, i: int, j: int)
        requires
            0 <= i < j < stimuli.len(),
            self.run(stimuli).1[i] is None || self.run(stimuli).1[i].unwrap().close,
        ensures
            self.run(stimuli).1[j] is None,
        decreases stimuli.len(),
    {
        let next = self.accept(stimuli.first()).0;
        let rest = stimuli.drop_first();
        next.lemma_run_len(rest);
        if i == 0 {
            assert(next.state is Closed);
            next.lemma_closed_is_final(rest);
        } else {
            next.lemma_closes_once(rest, i - 1, j - 1);
        }
    }

    /// One drain cycle per accepted stimulus: over any series of stimuli the
    /// engine runs as many cycles as stimuli were accepted, no more and no
    /// fewer.
    pub proof fn lemma_one_cycle_per_stimulus(self, stimuli: Seq<Stimulus<P>>)
        ensures
            self.run(stimuli).0.core.cycles == self.core.cycles + Self::accepted(
                self.run(stimuli).1,
            ),
        decreases stimuli.len(),
    {
        if stimuli.len() > 0 {
            let (next, outcome) = self.accept(stimuli.first());
            let outcomes = next.run(stimuli.drop_first()).1;
            next.lemma_one_cycle_per_stimulus(stimuli.drop_first());
            assert((seq![outcome] + outcomes).drop_first() =~= outcomes);
        }
    }

    /// A command source that has run dry is a close command: the bridge does
    /// with the one exactly what it does with the other. So if the machines
    /// answer a close command with a closing notification, the bridge is
    /// closed afterwards.
    pub proof fn lemma_exhaustion_is_close(self)
        ensures
            self.accept(Stimulus::ApiExhausted) == self.accept(Stimulus::Api(APIEvent::Close)),
            self.settles(Stimulus::ApiExhausted) == self.settles(Stimulus::Api(APIEvent::Close)),
            self.state is Running && (exists|i: int|
                0 <= i < self.core.do_api(APIEvent::Close).1.len() && self.core.do_api(
                    APIEvent::Close,
                ).1[i] is GotClosed) ==> self.accept(Stimulus::ApiExhausted).0.state is Closed,
    {
        if self.state is Running {
            self.lemma_delivery(Stimulus::ApiExhausted);
        }
    }
}

} // verus!
