//! The event and action algebra.
//!
//! Everything that flows through the composite machine is one [`Event`]: a
//! closed sum with one variant per sub-machine and two boundary variants. The
//! variant alone decides where an event goes, so routing is an exhaustive
//! `match` and never a lookup.

use vstd::prelude::*;

verus! {

/// Names the payload types of one protocol.
///
/// The engine never looks inside a payload. It moves payloads between the
/// machines, and tells the variants of [`Event`], [`APIEvent`] and
/// [`APIAction`] apart.
pub trait Protocol {
    /// What the application may ask for, besides closing.
    type Command;

    /// What the application is told, besides that the session has closed.
    type Notification;

    /// What the closing notification carries.
    type Mood;

    /// What the I/O layer reports.
    type IOEvent;

    /// What the I/O layer is told to do.
    type IOAction;

    /// One timing sample.
    type TimingLogEvent;

    /// What each machine consumes: one payload type per machine.
    type AllocatorEvent;

    type BossEvent;

    type CodeEvent;

    type InputEvent;

    type KeyEvent;

    type ListerEvent;

    type MailboxEvent;

    type NameplateEvent;

    type OrderEvent;

    type ReceiveEvent;

    type RendezvousEvent;

    type SendEvent;

    type TerminatorEvent;
}

/// A command from the application.
pub enum APIEvent<P: Protocol> {
    /// Shut the session down. Also what stands in for a command source that
    /// has run dry.
    Close,
    Command(P::Command),
}

/// A notification for the application.
pub enum APIAction<P: Protocol> {
    /// The session has closed; nothing is delivered after this.
    GotClosed(P::Mood),
    Notice(P::Notification),
}

impl<P: Protocol> APIAction<P> {
    /// Tells the closing notification from every other.
    pub fn is_closed(&self) -> (closed: bool)
        ensures
            closed == (self is GotClosed),
    {
        match self {
            APIAction::GotClosed(_) => true,
            APIAction::Notice(_) => false,
        }
    }
}

/// One message inside the composite machine, tagged with its consumer.
pub enum Event<P: Protocol> {
    /// Leaves the composite: a notification for the application.
    API(APIAction<P>),
    /// Leaves the composite: an instruction for the I/O layer.
    IO(P::IOAction),
    Allocator(P::AllocatorEvent),
    Boss(P::BossEvent),
    Code(P::CodeEvent),
    Input(P::InputEvent),
    Key(P::KeyEvent),
    Lister(P::ListerEvent),
    Mailbox(P::MailboxEvent),
    Nameplate(P::NameplateEvent),
    Order(P::OrderEvent),
    Receive(P::ReceiveEvent),
    Rendezvous(P::RendezvousEvent),
    Send(P::SendEvent),
    Terminator(P::TerminatorEvent),
    /// A timing sample: collected on the side, never an input to a machine.
    Timing(P::TimingLogEvent),
}

/// What every machine hands back: events in the order it produced them.
pub type Events<P> = Vec<Event<P>>;

impl<P: Protocol> Event<P> {
    /// The notification this event carries, if it is one for the application.
    pub open spec fn notification(self) -> Option<APIAction<P>> {
        match self {
            Event::API(a) => Some(a),
            _ => None,
        }
    }

    /// The instruction this event carries, if it is one for the I/O layer.
    pub open spec fn instruction(self) -> Option<P::IOAction> {
        match self {
            Event::IO(a) => Some(a),
            _ => None,
        }
    }

    /// The sample this event carries, if it is a timing sample.
    pub open spec fn sample(self) -> Option<P::TimingLogEvent> {
        match self {
            Event::Timing(t) => Some(t),
            _ => None,
        }
    }

    /// The notifications among `events`, in order.
    pub open spec fn notifications(events: Seq<Event<P>>) -> Seq<APIAction<P>> {
        events.filter_map(|e: Event<P>| e.notification())
    }

    /// The I/O instructions among `events`, in order.
    pub open spec fn instructions(events: Seq<Event<P>>) -> Seq<P::IOAction> {
        events.filter_map(|e: Event<P>| e.instruction())
    }

    /// The timing samples among `events`, in order.
    pub open spec fn samples(events: Seq<Event<P>>) -> Seq<P::TimingLogEvent> {
        events.filter_map(|e: Event<P>| e.sample())
    }

    /// What is left of a batch once the timing samples are taken out: the
    /// events that join the queue, in order.
    pub open spec fn queued(batch: Seq<Event<P>>) -> Seq<Event<P>> {
        batch.filter(|e: Event<P>| !(e is Timing))
    }

    /// Whether `events` holds no timing sample, as a queue does.
    pub open spec fn sieved(events: Seq<Event<P>>) -> bool {
        forall|i: int| 0 <= i < events.len() ==> events[i] !is Timing
    }

    /// Appending one event to a batch appends what it carries to the
    /// matching projection of the batch, and nothing to the others.
    pub proof fn lemma_push(batch: Seq<Event<P>>, event: Event<P>)
        ensures
            Self::notifications(batch.push(event)) == match event.notification() {
                Some(a) => Self::notifications(batch).push(a),
                None => Self::notifications(batch),
            },
            Self::instructions(batch.push(event)) == match event.instruction() {
                Some(a) => Self::instructions(batch).push(a),
                None => Self::instructions(batch),
            },
            Self::samples(batch.push(event)) == match event.sample() {
                Some(t) => Self::samples(batch).push(t),
                None => Self::samples(batch),
            },
            Self::queued(batch.push(event)) == if event is Timing {
                Self::queued(batch)
            } else {
                Self::queued(batch).push(event)
            },
    {
        assert(batch.push(event).drop_last() =~= batch);
        batch.lemma_filter_push(event, |e: Event<P>| !(e is Timing));
    }

    /// Each projection of two batches laid end to end is the projection of
    /// the first followed by that of the second.
    pub proof fn lemma_concat(first: Seq<Event<P>>, second: Seq<Event<P>>)
        ensures
            Self::notifications(first + second) == Self::notifications(first) + Self::notifications(
                second,
            ),
            Self::instructions(first + second) == Self::instructions(first) + Self::instructions(
                second,
            ),
            Self::samples(first + second) == Self::samples(first) + Self::samples(second),
            Self::queued(first + second) == Self::queued(first) + Self::queued(second),
        decreases second.len(),
    {
        if second.len() == 0 {
            assert(first + second =~= first);
            assert(Self::notifications(first) + Self::notifications(second)
                =~= Self::notifications(first));
            assert(Self::instructions(first) + Self::instructions(second) =~= Self::instructions(
                first,
            ));
            assert(Self::samples(first) + Self::samples(second) =~= Self::samples(first));
            assert(Self::queued(first) + Self::queued(second) =~= Self::queued(first)) by {
                assert(second.filter(|e: Event<P>| !(e is Timing)).len() == 0) by {
                    second.lemma_filter_len(|e: Event<P>| !(e is Timing));
                }
            }
        } else {
            let front = second.drop_last();
            let last = second.last();
            Self::lemma_concat(first, front);
            Self::lemma_push(first + front, last);
            Self::lemma_push(front, last);
            assert(front.push(last) =~= second);
            assert((first + front).push(last) =~= first + second);
            assert(Self::notifications(first + second) =~= Self::notifications(first)
                + Self::notifications(second));
            assert(Self::instructions(first + second) =~= Self::instructions(first)
                + Self::instructions(second));
            assert(Self::samples(first + second) =~= Self::samples(first) + Self::samples(second));
            assert(Self::queued(first + second) =~= Self::queued(first) + Self::queued(second));
        }
    }

    /// Taking the timing samples out of a batch takes nothing else: what is
    /// queued holds no sample, and holds every notification and every I/O
    /// instruction of the batch, in order.
    pub proof fn lemma_sieve(batch: Seq<Event<P>>)
        ensures
            Self::sieved(Self::queued(batch)),
            Self::samples(Self::queued(batch)) == Seq::<P::TimingLogEvent>::empty(),
            Self::notifications(Self::queued(batch)) == Self::notifications(batch),
            Self::instructions(Self::queued(batch)) == Self::instructions(batch),
            Self::sieved(batch) ==> Self::queued(batch) == batch,
        decreases batch.len(),
    {
        if batch.len() == 0 {
            Self::lemma_concat(batch, batch);
            assert(Self::queued(batch) =~= batch);
        } else {
            let front = batch.drop_last();
            let last = batch.last();
            Self::lemma_sieve(front);
            Self::lemma_push(front, last);
            Self::lemma_push(Self::queued(front), last);
            assert(front.push(last) =~= batch);
            if Self::sieved(batch) {
                assert forall|i: int| 0 <= i < front.len() implies front[i] !is Timing by {
                    assert(front[i] == batch[i]);
                }
                assert(last == batch[batch.len() - 1]);
            }
        }
    }
}

} // verus!
