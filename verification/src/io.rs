//! The hand-off point for I/O instructions.

use vstd::prelude::*;
use crate::events::Protocol;

verus! {

/// Holds the instructions that the machines have issued to the I/O layer
/// until the embedding program collects them.
///
/// The engine hands an instruction over the moment it is dequeued and does
/// not wait for it to be carried out. Completion comes back later, as a
/// stimulus of its own.
pub struct WormholeIO<P: Protocol> {
    pending: Vec<P::IOAction>,
}

impl<P: Protocol> View for WormholeIO<P> {
    type V = Seq<P::IOAction>;

    closed spec fn view(&self) -> Seq<P::IOAction> {
        self.pending@
    }
}

impl<P: Protocol> WormholeIO<P> {
    pub fn new() -> (io: Self)
        ensures
            io@ == Seq::<P::IOAction>::empty(),
    {
        WormholeIO { pending: Vec::new() }
    }

    /// Takes one instruction over, behind those already waiting.
    pub fn process(&mut self, action: P::IOAction)
        ensures
            final(self)@ == old(self)@.push(action),
    {
        self.pending.push(action);
    }

    /// Hands out what is waiting, oldest first, and leaves nothing behind.
    pub fn take(&mut self) -> (actions: Vec<P::IOAction>)
        ensures
            actions@ == old(self)@,
            final(self)@ == Seq::<P::IOAction>::empty(),
    {
        let mut actions: Vec<P::IOAction> = Vec::new();
        std::mem::swap(&mut actions, &mut self.pending);
        actions
    }
}

} // verus!
