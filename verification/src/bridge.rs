//! The boundary between the engine and the asynchronous world around it.
//!
//! Two sources feed a session, the application's commands and the reports of
//! the I/O layer, and one sink takes the notifications for the application.
//! Waiting on the sources and writing to the sink is the embedding program's
//! part. [`Bridge`] is the rest: it takes the stimuli one at a time, runs
//! each to quiescence, says what is to be sent on, and stops for good once
//! the session has closed.

use vstd::prelude::*;
use crate::engine::WormholeCore;
use crate::events::{APIAction, APIEvent, Event, Protocol};
use crate::machine::Machines;
use crate::model::CoreState;

verus! {

/// One thing that the outside world can do to a running session.
pub enum Stimulus<P: Protocol> {
    /// The application has sent a command.
    Api(APIEvent<P>),
    /// The application's command source has run dry. The session is then
    /// closed as if the application had asked for it.
    ApiExhausted,
    /// The I/O layer has reported something.
    Io(P::IOEvent),
}

/// Where the bridge stands. `Closed` is final.
#[derive(Clone, Copy, Debug, PartialEq, Eq, Structural)]
pub enum BridgeState {
    Running,
    Closed,
}

/// What the embedding program has to do after one stimulus, in this order:
/// carry out `io`, send `actions` downstream one by one, and then, if
/// `close` is set, close the sink.
pub struct Delivery<P: Protocol> {
    /// The I/O instructions issued while the stimulus was run, oldest first.
    pub io: Vec<P::IOAction>,
    /// The notifications to send, in order. If the session has closed, the
    /// last of them is the closing notification, and no other is one.
    pub actions: Vec<APIAction<P>>,
    /// Whether the session has closed.
    pub close: bool,
}

/// A [`Delivery`] as the contracts see it.
pub struct DeliveryView<P: Protocol> {
    pub io: Seq<P::IOAction>,
    pub actions: Seq<APIAction<P>>,
    pub close: bool,
}

impl<P: Protocol> View for Delivery<P> {
    type V = DeliveryView<P>;

    open spec fn view(&self) -> DeliveryView<P> {
        DeliveryView { io: self.io@, actions: self.actions@, close: self.close }
    }
}

impl<P: Protocol> APIAction<P> {
    /// How many notifications stand before the first closing one; all of
    /// them, if none is closing.
    pub open spec fn cut(actions: Seq<APIAction<P>>) -> nat
        decreases actions.len(),
    {
        if actions.len() == 0 || actions.first() is GotClosed {
            0
        } else {
            1 + Self::cut(actions.drop_first())
        }
    }

    /// `cut` is the place of the first closing notification.
    pub proof fn lemma_cut(actions: Seq<APIAction<P>>)
        ensures
            Self::cut(actions) <= actions.len(),
            forall|i: int| 0 <= i < Self::cut(actions) ==> actions[i] !is GotClosed,
            Self::cut(actions) < actions.len() ==> actions[Self::cut(actions) as int] is GotClosed,
        decreases actions.len(),
    {
        if actions.len() > 0 && actions.first() !is GotClosed {
            let rest = actions.drop_first();
            Self::lemma_cut(rest);
            assert forall|i: int| 0 <= i < Self::cut(actions) implies actions[i] !is GotClosed by {
                if i > 0 {
                    assert(actions[i] == rest[i - 1]);
                }
            }
            if Self::cut(actions) < actions.len() {
                assert(actions[Self::cut(actions) as int] == rest[Self::cut(rest) as int]);
            }
        }
    }

    /// What goes downstream of what one drain cycle returned: everything up
    /// to the first closing notification and that one with it; everything,
    /// if none is closing.
    pub open spec fn sent(actions: Seq<APIAction<P>>) -> Seq<APIAction<P>> {
        if Self::cut(actions) < actions.len() {
            actions.take(Self::cut(actions) as int + 1)
        } else {
            actions
        }
    }

    /// Whether one of `actions` is a closing notification.
    pub open spec fn closes(actions: Seq<APIAction<P>>) -> bool {
        Self::cut(actions) < actions.len()
    }

    /// Splits what one drain cycle returned behind the first closing
    /// notification: it and what stands before it is to be sent, and
    /// whatever follows it is not. Says whether there was one.
    pub fn deliverable(actions: Vec<APIAction<P>>) -> (out: (Vec<APIAction<P>>, bool))
        ensures
            out.0@ == Self::sent(actions@),
            out.1 == Self::closes(actions@),
    {
        let ghost cut = Self::cut(actions@);
        proof {
            Self::lemma_cut(actions@);
        }
        let mut send: Vec<APIAction<P>> = Vec::new();
        let mut close = false;
        for action in it: actions
            invariant
                it.seq() == actions@,
                cut == Self::cut(actions@),
                cut <= actions@.len(),
                forall|i: int| 0 <= i < cut ==> actions@[i] !is GotClosed,
                cut < actions@.len() ==> actions@[cut as int] is GotClosed,
                close == (cut < it.index()),
                send@ == actions@.take(if it.index() <= cut { it.index() as int } else { cut as int + 1 }),
        {
            if !close {
                assert(actions@.take(it.index() + 1) =~= actions@.take(it.index() as int).push(
                    action,
                ));
                close = action.is_closed();
                send.push(action);
            }
        }
        assert(actions@.take(actions@.len() as int) =~= actions@);
        (send, close)
    }
}

/// The boundary bridge: the engine, and whether the session is still open.
pub struct Bridge<P: Protocol, M: Machines<P>> {
    core: WormholeCore<P, M>,
    state: BridgeState,
}

/// A [`Bridge`] as the contracts see it.
pub struct BridgeView<P: Protocol, M: Machines<P>> {
    pub core: CoreState<P, M>,
    pub state: BridgeState,
}

impl<P: Protocol, M: Machines<P>> View for Bridge<P, M> {
    type V = BridgeView<P, M>;

    closed spec fn view(&self) -> BridgeView<P, M> {
        BridgeView { core: self.core@, state: self.state }
    }
}

impl<P: Protocol, M: Machines<P>> BridgeView<P, M> {
    /// Through which door `stimulus` enters: the engine's state once the
    /// entry machine has consumed it, and the batch that seeds the queue. A
    /// command source that has run dry enters as a close command.
    pub open spec fn enter(self, stimulus: Stimulus<P>) -> (CoreState<P, M>, Seq<Event<P>>) {
        match stimulus {
            Stimulus::Api(event) => self.core.enter_api(event),
            Stimulus::ApiExhausted => self.core.enter_api(APIEvent::Close),
            Stimulus::Io(event) => self.core.enter_io(event),
        }
    }

    /// Whether the cascade that `stimulus` sets off is finite.
    pub open spec fn settles(self, stimulus: Stimulus<P>) -> bool {
        self.enter(stimulus).0.settles(self.enter(stimulus).1)
    }

    /// What the engine makes of `stimulus`: its state afterwards and the
    /// notifications of that one drain cycle.
    pub open spec fn respond(self, stimulus: Stimulus<P>) -> (CoreState<P, M>, Seq<APIAction<P>>) {
        self.enter(stimulus).0.execute(self.enter(stimulus).1)
    }

    /// One stimulus arrives. A closed bridge refuses it and stays as it is.
    /// A running bridge runs it to quiescence, hands out the I/O
    /// instructions issued and the notifications up to the first closing
    /// one and with it, and closes if there is a closing one.
    pub open spec fn accept(self, stimulus: Stimulus<P>) -> (Self, Option<DeliveryView<P>>) {
        match self.state {
            BridgeState::Closed => (self, None),
            BridgeState::Running => {
                let (core, actions) = self.respond(stimulus);
                let close = APIAction::closes(actions);
                (
                    BridgeView {
                        core: CoreState { io: Seq::empty(), ..core },
                        state: if close {
                            BridgeState::Closed
                        } else {
                            BridgeState::Running
                        },
                    },
                    Some(DeliveryView { io: core.io, actions: APIAction::sent(actions), close }),
                )
            },
        }
    }

    /// A whole series of stimuli, one after the other: where the bridge
    /// stands in the end, and what came of each stimulus.
    pub open spec fn run(self, stimuli: Seq<Stimulus<P>>) -> (Self, Seq<Option<DeliveryView<P>>>)
        decreases stimuli.len(),
    {
        if stimuli.len() == 0 {
            (self, Seq::empty())
        } else {
            let (next, outcome) = self.accept(stimuli.first());
            let (end, outcomes) = next.run(stimuli.drop_first());
            (end, seq![outcome] + outcomes)
        }
    }
}

impl<P: Protocol, M: Machines<P>> Bridge<P, M> {
    /// Puts a bridge in front of `core`. It starts out running.
    pub fn new(core: WormholeCore<P, M>) -> (bridge: Self)
        ensures
            bridge@ == (BridgeView { core: core@, state: BridgeState::Running }),
    {
        Bridge { core, state: BridgeState::Running }
    }

    pub fn state(&self) -> (state: BridgeState)
        ensures
            state == self@.state,
    {
        self.state
    }

    /// The engine behind the bridge.
    pub fn engine(&self) -> (engine: &WormholeCore<P, M>)
        ensures
            engine@ == self@.core,
    {
        &self.core
    }

    /// Takes one stimulus. Returns `None`, and changes nothing, if the
    /// session has closed. Otherwise runs the stimulus to quiescence before
    /// anything else is looked at, and returns what is to be done about it.
    ///
    /// On a running bridge the cascade that the stimulus sets off must be
    /// finite, as for [`WormholeCore::do_api`]. A number of steps that
    /// empties the queue shows it: see [`CoreState::lemma_execute`].
    pub fn accept(&mut self, stimulus: Stimulus<P>) -> (delivery: Option<Delivery<P>>)
        requires
            old(self)@.state is Running ==> old(self)@.settles(stimulus),
        ensures
            final(self)@ == old(self)@.accept(stimulus).0,
            match delivery {
                Some(d) => old(self)@.accept(stimulus).1 == Some(d@),
                None => old(self)@.accept(stimulus).1 is None,
            },
    {
        match self.state {
            BridgeState::Closed => None,
            BridgeState::Running => {
                let actions = match stimulus {
                    Stimulus::Api(event) => self.core.do_api(event),
                    Stimulus::ApiExhausted => self.core.do_api(APIEvent::Close),
                    Stimulus::Io(event) => self.core.do_io(event),
                };
                let io = self.core.take_io();
                let (actions, close) = APIAction::deliverable(actions);
                if close {
                    self.state = BridgeState::Closed;
                }
                Some(Delivery { io, actions, close })
            },
        }
    }
}

} // verus!
