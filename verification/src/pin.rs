//! The output pin that a chip-select line is made of.

use vstd::prelude::*;
use crate::level::Level;

verus! {

/// The writes that a pin has taken, oldest first.
///
/// A write counts whether it succeeded or failed: the record says what the
/// pin was asked for, not what level it really has.
pub struct PinRecord {
    /// The levels that the pin was driven to, oldest first.
    pub levels: Seq<Level>,
}

impl PinRecord {
    /// The record of a pin that was never written to.
    pub open spec fn empty() -> PinRecord {
        PinRecord { levels: Seq::empty() }
    }

    /// The record after one more write, of `level`.
    pub open spec fn push(self, level: Level) -> PinRecord {
        PinRecord { levels: self.levels.push(level) }
    }
}

/// A digital output pin that can be driven low or high.
///
/// Either write may fail with an error of the implementation's choosing, and
/// counts as a write all the same. An implementation must not unwind: a
/// guard over a line writes to the pin while it is dropped.
pub trait OutputPin {
    /// What a failed write reports.
    type Error;

    /// The writes that the pin has taken so far. It exists in proofs only:
    /// an implementation that is compiled without being verified gives it a
    /// body that is never run.
    spec fn written(&self) -> PinRecord;

    /// Drives the pin low. This is one write, of the low level, whether it
    /// succeeds or fails. It must not unwind.
    fn set_low(&mut self) -> (result: Result<(), Self::Error>)
        ensures
            final(self).written() == old(self).written().push(Level::Low),
    ;

    /// Drives the pin high. This is one write, of the high level, whether it
    /// succeeds or fails. It must not unwind.
    fn set_high(&mut self) -> (result: Result<(), Self::Error>)
        ensures
            final(self).written() == old(self).written().push(Level::High),
    ;
}

} // verus!
