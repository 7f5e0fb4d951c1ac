//! The dispatch engine.
//!
//! [`WormholeCore`] owns one instance of every machine for the whole life of
//! a session. A stimulus enters through one of two doors, [`do_api`] or
//! [`do_io`], and is run to quiescence before the call returns: the events
//! that it sets off are dispatched first in, first out, until none is left.
//!
//! [`do_api`]: WormholeCore::do_api
//! [`do_io`]: WormholeCore::do_io

use std::collections::VecDeque;
use vstd::prelude::*;
use crate::events::{APIAction, APIEvent, Event, Events, Protocol};
use crate::io::WormholeIO;
use crate::machine::{BossMachine, Machine, Machines, RendezvousMachine};
use crate::model::{CoreState, Cycle};
use crate::timing::Timing;

verus! {

/// The composite state machine: the registry of machines and the two side
/// collectors. Nothing outside reaches a machine but through an event.
pub struct WormholeCore<P: Protocol, M: Machines<P>> {
    allocator: M::Allocator,
    boss: M::Boss,
    code: M::Code,
    input: M::Input,
    key: M::Key,
    lister: M::Lister,
    mailbox: M::Mailbox,
    nameplate: M::Nameplate,
    order: M::Order,
    receive: M::Receive,
    rendezvous: M::Rendezvous,
    send: M::Send,
    terminator: M::Terminator,
    timing: Timing<P>,
    io: WormholeIO<P>,
    cycles: Ghost<nat>,
}

impl<P: Protocol, M: Machines<P>> View for WormholeCore<P, M> {
    type V = CoreState<P, M>;

    closed spec fn view(&self) -> CoreState<P, M> {
        CoreState {
            allocator: self.allocator.state(),
            boss: self.boss.state(),
            code: self.code.state(),
            input: self.input.state(),
            key: self.key.state(),
            lister: self.lister.state(),
            mailbox: self.mailbox.state(),
            nameplate: self.nameplate.state(),
            order: self.order.state(),
            receive: self.receive.state(),
            rendezvous: self.rendezvous.state(),
            send: self.send.state(),
            terminator: self.terminator.state(),
            timing: self.timing@,
            io: self.io@,
            cycles: self.cycles@,
        }
    }
}

impl<P: Protocol, M: Machines<P>> WormholeCore<P, M> {
    /// Wires the machines of one session together. Each machine arrives
    /// ready-made and stays in its slot until the engine is dropped.
    pub fn new(
        allocator: M::Allocator,
        boss: M::Boss,
        code: M::Code,
        input: M::Input,
        key: M::Key,
        lister: M::Lister,
        mailbox: M::Mailbox,
        nameplate: M::Nameplate,
        order: M::Order,
        receive: M::Receive,
        rendezvous: M::Rendezvous,
        send: M::Send,
        terminator: M::Terminator,
    ) -> (core: Self)
        ensures
            core@ == (CoreState::<P, M> {
                allocator: allocator.state(),
                boss: boss.state(),
                code: code.state(),
                input: input.state(),
                key: key.state(),
                lister: lister.state(),
                mailbox: mailbox.state(),
                nameplate: nameplate.state(),
                order: order.state(),
                receive: receive.state(),
                rendezvous: rendezvous.state(),
                send: send.state(),
                terminator: terminator.state(),
                timing: Seq::empty(),
                io: Seq::empty(),
                cycles: 0,
            }),
    {
        WormholeCore {
            allocator,
            boss,
            code,
            input,
            key,
            lister,
            mailbox,
            nameplate,
            order,
            receive,
            rendezvous,
            send,
            terminator,
            timing: Timing::new(),
            io: WormholeIO::new(),
            cycles: Ghost(0),
        }
    }

    /// Runs one application command to quiescence and returns the
    /// notifications for the application, in the order they were produced.
    ///
    /// The cascade that the command sets off must be finite: the engine
    /// detects no cycles, and a machine that feeds itself without end would
    /// keep this call from returning. A number of steps that empties the
    /// queue shows it: see [`CoreState::lemma_execute`].
    #[must_use]
    pub fn do_api(&mut self, event: APIEvent<P>) -> (actions: Vec<APIAction<P>>)
        requires
            old(self)@.api_settles(event),
        ensures
            final(self)@ == old(self)@.do_api(event).0,
            actions@ == old(self)@.do_api(event).1,
    {
        let events = self.boss.process_api(event);
        self._execute(events)
    }

    /// Runs one report of the I/O layer to quiescence and returns the
    /// notifications for the application, in the order they were produced.
    ///
    /// As for [`do_api`](Self::do_api), the cascade must be finite.
    #[must_use]
    pub fn do_io(&mut self, event: P::IOEvent) -> (actions: Vec<APIAction<P>>)
        requires
            old(self)@.io_settles(event),
        ensures
            final(self)@ == old(self)@.do_io(event).0,
            actions@ == old(self)@.do_io(event).1,
    {
        let events = self.rendezvous.process_io(event);
        self._execute(events)
    }

    /// One drain cycle: puts `events` through the sieve to seed the queue,
    /// then takes the head off, routes it and puts what comes back through
    /// the sieve to the tail, until the queue is empty. Breadth first: what a
    /// machine produces waits behind all that was queued before it.
    fn _execute(&mut self, events: Events<P>) -> (actions: Vec<APIAction<P>>)
        requires
            old(self)@.settles(events@),
        ensures
            final(self)@ == old(self)@.execute(events@).0,
            actions@ == old(self)@.execute(events@).1,
    {
        let ghost start = self@.cycle(events@);
        let ghost mut fuel: nat = choose|fuel: nat| start.run(fuel) is Some;
        let mut action_queue: Vec<APIAction<P>> = Vec::new();
        let mut event_queue: VecDeque<Event<P>> = VecDeque::new();
        self.requeue(events, &mut event_queue);
        assert(event_queue@ == start.queue);
        loop
            invariant
                start.settled() == (Cycle {
                    core: self@,
                    queue: event_queue@,
                    actions: action_queue@,
                }).run(fuel).unwrap(),
                (Cycle { core: self@, queue: event_queue@, actions: action_queue@ }).run(
                    fuel,
                ) is Some,
                self@.cycles == start.core.cycles,
            ensures
                self@.cycles == start.core.cycles,
                start.settled() == (Cycle {
                    core: self@,
                    queue: event_queue@,
                    actions: action_queue@,
                }),
            decreases fuel,
        {
            match event_queue.pop_front() {
                None => {
                    break;
                },
                Some(e) => {
                    let batch = self.dispatch(e, &mut action_queue);
                    self.requeue(batch, &mut event_queue);
                    proof {
                        fuel = (fuel - 1) as nat;
                    }
                },
            }
        }
        proof {
            self.cycles@ = self.cycles@ + 1;
        }
        action_queue
    }

    /// Routes one dequeued event to its consumer and returns the batch that
    /// comes back. A notification goes to the end of `actions`.
    fn dispatch(&mut self, event: Event<P>, actions: &mut Vec<APIAction<P>>) -> (batch: Events<P>)
        ensures
            final(self)@ == old(self)@.dispatch(event).0,
            batch@ == old(self)@.dispatch(event).1,
            final(actions)@ == match event {
                Event::API(a) => old(actions)@.push(a),
                _ => old(actions)@,
            },
    {
        match event {
            Event::API(a) => {
                actions.push(a);
                Vec::new()
            },
            Event::IO(a) => {
                self.io.process(a);
                Vec::new()
            },
            Event::Allocator(e) => self.allocator.process(e),
            Event::Boss(e) => self.boss.process(e),
            Event::Code(e) => self.code.process(e),
            Event::Input(e) => self.input.process(e),
            Event::Key(e) => self.key.process(e),
            Event::Lister(e) => self.lister.process(e),
            Event::Mailbox(e) => self.mailbox.process(e),
            Event::Nameplate(e) => self.nameplate.process(e),
            Event::Order(e) => self.order.process(e),
            Event::Receive(e) => self.receive.process(e),
            Event::Rendezvous(e) => self.rendezvous.process(e),
            Event::Send(e) => self.send.process(e),
            Event::Terminator(e) => self.terminator.process(e),
            Event::Timing(t) => {
                self.timing.add(t);
                Vec::new()
            },
        }
    }

    /// The sieve. Puts a batch where it belongs: each timing sample into the
    /// collector, every other event at the tail of `queue`, in batch order.
    fn requeue(&mut self, batch: Events<P>, queue: &mut VecDeque<Event<P>>)
        ensures
            final(self)@ == (CoreState {
                timing: old(self)@.timing + Event::samples(batch@),
                ..old(self)@
            }),
            final(queue)@ == old(queue)@ + Event::queued(batch@),
    {
        for a in it: batch
            invariant
                it.seq() == batch@,
                self@ == (CoreState {
                    timing: old(self)@.timing + Event::samples(batch@.take(it.index() as int)),
                    ..old(self)@
                }),
                queue@ == old(queue)@ + Event::queued(batch@.take(it.index() as int)),
        {
            proof {
                let done = batch@.take(it.index() as int);
                Event::lemma_push(done, a);
                assert(batch@.take(it.index() + 1) =~= done.push(a));
            }
            match a {
                Event::Timing(t) => self.timing.add(t),
                other => queue.push_back(other),
            }
        }
        assert(batch@.take(batch@.len() as int) =~= batch@);
    }

    /// Hands out the I/O instructions issued since the last call, oldest
    /// first. Carrying them out is the caller's part.
    pub fn take_io(&mut self) -> (actions: Vec<P::IOAction>)
        ensures
            actions@ == old(self)@.io,
            final(self)@ == (CoreState { io: Seq::empty(), ..old(self)@ }),
    {
        self.io.take()
    }

    /// The collector of timing samples.
    pub fn timing(&self) -> (timing: &Timing<P>)
        ensures
            timing@ == self@.timing,
    {
        &self.timing
    }
}

} // verus!
