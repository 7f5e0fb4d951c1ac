//! The passive collector of timing samples.

use vstd::prelude::*;
use crate::events::Protocol;

verus! {

/// Keeps the timing samples that the machines emit, in the order they came.
/// A sample that has gone here never reaches a machine.
pub struct Timing<P: Protocol> {
    samples: Vec<P::TimingLogEvent>,
}

impl<P: Protocol> View for Timing<P> {
    type V = Seq<P::TimingLogEvent>;

    closed spec fn view(&self) -> Seq<P::TimingLogEvent> {
        self.samples@
    }
}

impl<P: Protocol> Timing<P> {
    pub fn new() -> (timing: Self)
        ensures
            timing@ == Seq::<P::TimingLogEvent>::empty(),
    {
        Timing { samples: Vec::new() }
    }

    /// Appends one sample.
    pub fn add(&mut self, sample: P::TimingLogEvent)
        ensures
            final(self)@ == old(self)@.push(sample),
    {
        self.samples.push(sample);
    }

    /// Everything collected so far, oldest first.
    pub fn samples(&self) -> (samples: &Vec<P::TimingLogEvent>)
        ensures
            samples@ == self@,
    {
        &self.samples
    }
}

} // verus!
