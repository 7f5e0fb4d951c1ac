//! The contract between the engine and the machines it composes.
//!
//! To the engine a machine is a transducer: it holds a state, consumes one
//! payload of its own kind, moves to a next state and hands back a batch of
//! events for anyone, itself included. The engine's guarantees are stated
//! over that reading of a machine.

use std::marker::PhantomData;
use vstd::prelude::*;
use crate::events::{APIEvent, Event, Events, Protocol};

verus! {

/// One sub-machine.
///
/// `state`, `emits` and `next` are the machine's mathematical model, and
/// `process` must follow it: the batch and the next state depend on nothing
/// but the state before and the payload. A machine that draws on a source of
/// chance keeps that source in its state.
///
/// What is proved of the engine is proved of machines that keep this
/// contract. The verifier holds every implementation that it sees to it; an
/// implementation written outside the verifier is taken at its word. Only
/// for the sake of such an implementation do the model functions have
/// bodies, so that it need not mention them. A verified implementation
/// defines all three.
pub trait Machine<P: Protocol> {
    /// The payload of the one event variant this machine consumes.
    type Payload;

    /// The machine as the model sees it.
    type State;

    /// The state this machine is in.
    open spec fn state(&self) -> Self::State {
        arbitrary()
    }

    /// The batch handed back for `payload` in `state`, in production order.
    open spec fn emits(state: Self::State, payload: Self::Payload) -> Seq<Event<P>> {
        arbitrary()
    }

    /// The state after `payload` has been consumed in `state`.
    open spec fn next(state: Self::State, payload: Self::Payload) -> Self::State {
        arbitrary()
    }

    /// Consumes one payload. Must return; a payload that makes no sense in
    /// the current state is swallowed, not reported.
    fn process(&mut self, payload: Self::Payload) -> (batch: Events<P>)
        ensures
            batch@ == Self::emits(old(self).state(), payload),
            final(self).state() == Self::next(old(self).state(), payload),
    ;
}

/// The machine through which application commands enter the composite.
pub trait BossMachine<P: Protocol>: Machine<P> {
    /// The batch handed back for the command `event` in `state`.
    open spec fn api_emits(state: Self::State, event: APIEvent<P>) -> Seq<Event<P>> {
        arbitrary()
    }

    /// The state after the command `event` has been consumed in `state`.
    open spec fn api_next(state: Self::State, event: APIEvent<P>) -> Self::State {
        arbitrary()
    }

    /// Consumes one application command.
    fn process_api(&mut self, event: APIEvent<P>) -> (batch: Events<P>)
        ensures
            batch@ == Self::api_emits(old(self).state(), event),
            final(self).state() == Self::api_next(old(self).state(), event),
    ;
}

/// The machine through which reports of the I/O layer enter the composite.
pub trait RendezvousMachine<P: Protocol>: Machine<P> {
    /// The batch handed back for the report `event` in `state`.
    open spec fn io_emits(state: Self::State, event: P::IOEvent) -> Seq<Event<P>> {
        arbitrary()
    }

    /// The state after the report `event` has been consumed in `state`.
    open spec fn io_next(state: Self::State, event: P::IOEvent) -> Self::State {
        arbitrary()
    }

    /// Consumes one report of the I/O layer.
    fn process_io(&mut self, event: P::IOEvent) -> (batch: Events<P>)
        ensures
            batch@ == Self::io_emits(old(self).state(), event),
            final(self).state() == Self::io_next(old(self).state(), event),
    ;
}

/// Names the type that fills each slot of the registry.
///
/// Each slot is bound to the payload of its own event variant, so a machine
/// cannot be wired to events that are not its own.
pub trait Machines<P: Protocol> {
    type Allocator: Machine<P, Payload = P::AllocatorEvent>;

    type Boss: BossMachine<P, Payload = P::BossEvent>;

    type Code: Machine<P, Payload = P::CodeEvent>;

    type Input: Machine<P, Payload = P::InputEvent>;

    type Key: Machine<P, Payload = P::KeyEvent>;

    type Lister: Machine<P, Payload = P::ListerEvent>;

    type Mailbox: Machine<P, Payload = P::MailboxEvent>;

    type Nameplate: Machine<P, Payload = P::NameplateEvent>;

    type Order: Machine<P, Payload = P::OrderEvent>;

    type Receive: Machine<P, Payload = P::ReceiveEvent>;

    type Rendezvous: RendezvousMachine<P, Payload = P::RendezvousEvent>;

    type Send: Machine<P, Payload = P::SendEvent>;

    type Terminator: Machine<P, Payload = P::TerminatorEvent>;
}

/// The machine that does nothing: it consumes whatever it is given, hands
/// back an empty batch and has no state to change. It fills a slot that a
/// session has no use for.
pub struct Idle<T> {
    payload: PhantomData<T>,
}

impl<T> Idle<T> {
    pub fn new() -> Self {
        Idle { payload: PhantomData }
    }
}

impl<P: Protocol, T> Machine<P> for Idle<T> {
    type Payload = T;

    type State = ();

    open spec fn state(&self) -> () {
        ()
    }

    open spec fn emits(state: (), payload: T) -> Seq<Event<P>> {
        Seq::empty()
    }

    open spec fn next(state: (), payload: T) -> () {
        ()
    }

    fn process(&mut self, payload: T) -> (batch: Events<P>) {
        Vec::new()
    }
}

impl<P: Protocol, T> BossMachine<P> for Idle<T> {
    open spec fn api_emits(state: (), event: APIEvent<P>) -> Seq<Event<P>> {
        Seq::empty()
    }

    open spec fn api_next(state: (), event: APIEvent<P>) -> () {
        ()
    }

    fn process_api(&mut self, event: APIEvent<P>) -> (batch: Events<P>) {
        Vec::new()
    }
}

impl<P: Protocol, T> RendezvousMachine<P> for Idle<T> {
    open spec fn io_emits(state: (), event: P::IOEvent) -> Seq<Event<P>> {
        Seq::empty()
    }

    open spec fn io_next(state: (), event: P::IOEvent) -> () {
        ()
    }

    fn process_io(&mut self, event: P::IOEvent) -> (batch: Events<P>) {
        Vec::new()
    }
}

} // verus!
