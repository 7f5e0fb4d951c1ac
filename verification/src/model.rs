//! The mathematical model of the engine.
//!
//! [`CoreState`] is what a [`crate::engine::WormholeCore`] is to its
//! contracts: the states of the machines, what the two side collectors hold,
//! and how many drain cycles have run. [`Cycle`] is one drain cycle in
//! flight. The executable engine is proved to do exactly what is written
//! here.

use vstd::prelude::*;
use crate::events::{APIAction, APIEvent, Event, Protocol};
use crate::machine::{BossMachine, Machine, Machines, RendezvousMachine};

verus! {

/// The composite machine between two drain cycles.
pub struct CoreState<P: Protocol, M: Machines<P>> {
    pub allocator: <M::Allocator as Machine<P>>::State,
    pub boss: <M::Boss as Machine<P>>::State,
    pub code: <M::Code as Machine<P>>::State,
    pub input: <M::Input as Machine<P>>::State,
    pub key: <M::Key as Machine<P>>::State,
    pub lister: <M::Lister as Machine<P>>::State,
    pub mailbox: <M::Mailbox as Machine<P>>::State,
    pub nameplate: <M::Nameplate as Machine<P>>::State,
    pub order: <M::Order as Machine<P>>::State,
    pub receive: <M::Receive as Machine<P>>::State,
    pub rendezvous: <M::Rendezvous as Machine<P>>::State,
    pub send: <M::Send as Machine<P>>::State,
    pub terminator: <M::Terminator as Machine<P>>::State,
    /// The timing samples collected so far, oldest first.
    pub timing: Seq<P::TimingLogEvent>,
    /// The I/O instructions handed over and not yet collected, oldest first.
    pub io: Seq<P::IOAction>,
    /// How many drain cycles have run.
    pub cycles: nat,
}

impl<P: Protocol, M: Machines<P>> CoreState<P, M> {
    /// Routes one dequeued event: the state afterwards, and the batch that
    /// the consuming machine hands back.
    ///
    /// A notification changes nothing here. An I/O instruction joins the
    /// instructions waiting for the I/O layer, and a timing sample joins the
    /// collector; neither is an input to a machine, and nothing comes back
    /// for either. Every other event goes to the machine it is tagged for.
    pub open spec fn dispatch(self, event: Event<P>) -> (Self, Seq<Event<P>>) {
        match event {
            Event::API(_) => (self, Seq::empty()),
            Event::IO(a) => (CoreState { io: self.io.push(a), ..self }, Seq::empty()),
            Event::Allocator(e) => (
                CoreState { allocator: <M::Allocator as Machine<P>>::next(self.allocator, e), ..self },
                <M::Allocator as Machine<P>>::emits(self.allocator, e),
            ),
            Event::Boss(e) => (
                CoreState { boss: <M::Boss as Machine<P>>::next(self.boss, e), ..self },
                <M::Boss as Machine<P>>::emits(self.boss, e),
            ),
            Event::Code(e) => (
                CoreState { code: <M::Code as Machine<P>>::next(self.code, e), ..self },
                <M::Code as Machine<P>>::emits(self.code, e),
            ),
            Event::Input(e) => (
                CoreState { input: <M::Input as Machine<P>>::next(self.input, e), ..self },
                <M::Input as Machine<P>>::emits(self.input, e),
            ),
            Event::Key(e) => (
                CoreState { key: <M::Key as Machine<P>>::next(self.key, e), ..self },
                <M::Key as Machine<P>>::emits(self.key, e),
            ),
            Event::Lister(e) => (
                CoreState { lister: <M::Lister as Machine<P>>::next(self.lister, e), ..self },
                <M::Lister as Machine<P>>::emits(self.lister, e),
            ),
            Event::Mailbox(e) => (
                CoreState { mailbox: <M::Mailbox as Machine<P>>::next(self.mailbox, e), ..self },
                <M::Mailbox as Machine<P>>::emits(self.mailbox, e),
            ),
            Event::Nameplate(e) => (
                CoreState { nameplate: <M::Nameplate as Machine<P>>::next(self.nameplate, e), ..self },
                <M::Nameplate as Machine<P>>::emits(self.nameplate, e),
            ),
            Event::Order(e) => (
                CoreState { order: <M::Order as Machine<P>>::next(self.order, e), ..self },
                <M::Order as Machine<P>>::emits(self.order, e),
            ),
            Event::Receive(e) => (
                CoreState { receive: <M::Receive as Machine<P>>::next(self.receive, e), ..self },
                <M::Receive as Machine<P>>::emits(self.receive, e),
            ),
            Event::Rendezvous(e) => (
                CoreState { rendezvous: <M::Rendezvous as Machine<P>>::next(self.rendezvous, e), ..self },
                <M::Rendezvous as Machine<P>>::emits(self.rendezvous, e),
            ),
            Event::Send(e) => (
                CoreState { send: <M::Send as Machine<P>>::next(self.send, e), ..self },
                <M::Send as Machine<P>>::emits(self.send, e),
            ),
            Event::Terminator(e) => (
                CoreState { terminator: <M::Terminator as Machine<P>>::next(self.terminator, e), ..self },
                <M::Terminator as Machine<P>>::emits(self.terminator, e),
            ),
            Event::Timing(t) => (CoreState { timing: self.timing.push(t), ..self }, Seq::empty()),
        }
    }

    /// An application command enters through the boss: the state afterwards
    /// and the batch that seeds the queue.
    pub open spec fn enter_api(self, event: APIEvent<P>) -> (Self, Seq<Event<P>>) {
        (
            CoreState { boss: <M::Boss as BossMachine<P>>::api_next(self.boss, event), ..self },
            <M::Boss as BossMachine<P>>::api_emits(self.boss, event),
        )
    }

    /// A report of the I/O layer enters through the rendezvous machine: the
    /// state afterwards and the batch that seeds the queue.
    pub open spec fn enter_io(self, event: P::IOEvent) -> (Self, Seq<Event<P>>) {
        (
            CoreState {
                rendezvous: <M::Rendezvous as RendezvousMachine<P>>::io_next(self.rendezvous, event),
                ..self
            },
            <M::Rendezvous as RendezvousMachine<P>>::io_emits(self.rendezvous, event),
        )
    }

    /// The drain cycle that `seed` starts from here. The seed passes the
    /// same sieve as every batch: its timing samples go to the collector and
    /// the rest of it is the queue. Nothing is accumulated yet.
    pub open spec fn cycle(self, seed: Seq<Event<P>>) -> Cycle<P, M> {
        Cycle {
            core: CoreState { timing: self.timing + Event::samples(seed), ..self },
            queue: Event::queued(seed),
            actions: Seq::empty(),
        }
    }

    /// Whether draining `seed` from here comes to an end: the cascade that
    /// the seed sets off is finite.
    pub open spec fn settles(self, seed: Seq<Event<P>>) -> bool {
        self.cycle(seed).settles()
    }

    /// One whole drain cycle on `seed`: the state once the queue is empty,
    /// with the cycle counted, and the notifications accumulated on the way.
    /// Meaningful where the cascade [`settles`](Self::settles).
    pub open spec fn execute(self, seed: Seq<Event<P>>) -> (Self, Seq<APIAction<P>>) {
        let end = self.cycle(seed).settled();
        (CoreState { cycles: self.cycles + 1, ..end.core }, end.actions)
    }

    /// Whether the cascade set off by the command `event` is finite.
    pub open spec fn api_settles(self, event: APIEvent<P>) -> bool {
        let (core, seed) = self.enter_api(event);
        core.settles(seed)
    }

    /// Whether the cascade set off by the I/O report `event` is finite.
    pub open spec fn io_settles(self, event: P::IOEvent) -> bool {
        let (core, seed) = self.enter_io(event);
        core.settles(seed)
    }

    /// The command `event` run to quiescence: the state afterwards and the
    /// notifications for the application, in order.
    pub open spec fn do_api(self, event: APIEvent<P>) -> (Self, Seq<APIAction<P>>) {
        let (core, seed) = self.enter_api(event);
        core.execute(seed)
    }

    /// The I/O report `event` run to quiescence: the state afterwards and the
    /// notifications for the application, in order.
    pub open spec fn do_io(self, event: P::IOEvent) -> (Self, Seq<APIAction<P>>) {
        let (core, seed) = self.enter_io(event);
        core.execute(seed)
    }
}

/// One drain cycle in flight.
pub struct Cycle<P: Protocol, M: Machines<P>> {
    pub core: CoreState<P, M>,
    /// The events awaiting dispatch, head first.
    pub queue: Seq<Event<P>>,
    /// The notifications accumulated so far in this cycle.
    pub actions: Seq<APIAction<P>>,
}

impl<P: Protocol, M: Machines<P>> Cycle<P, M> {
    /// One step, for a queue that is not empty: the head is taken off and
    /// routed. If it is a notification it goes to the end of the accumulator.
    /// Of the batch that comes back, the timing samples go to the collector
    /// and everything else to the tail of the queue, both in batch order.
    pub open spec fn advance(self) -> Self {
        let head = self.queue.first();
        let (core, batch) = self.core.dispatch(head);
        Cycle {
            core: CoreState { timing: core.timing + Event::samples(batch), ..core },
            queue: self.queue.drop_first() + Event::queued(batch),
            actions: match head {
                Event::API(a) => self.actions.push(a),
                _ => self.actions,
            },
        }
    }

    /// Where the cycle stands once its queue is empty, if at most `fuel`
    /// steps take it there.
    pub open spec fn run(self, fuel: nat) -> Option<Self>
        decreases fuel,
    {
        if self.queue.len() == 0 {
            Some(self)
        } else if fuel == 0 {
            None
        } else {
            self.advance().run((fuel - 1) as nat)
        }
    }

    /// Whether some number of steps empties the queue.
    pub open spec fn settles(self) -> bool {
        exists|fuel: nat| self.run(fuel) is Some
    }

    /// Where the cycle stands once its queue is empty. Meaningful where the
    /// cycle [`settles`](Self::settles).
    pub open spec fn settled(self) -> Self {
        self.run(choose|fuel: nat| self.run(fuel) is Some).unwrap()
    }
}

} // verus!
