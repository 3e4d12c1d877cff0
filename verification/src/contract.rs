//! The chip-select contract and its model.

use vstd::prelude::*;
use crate::level::Level;

verus! {

/// What a chip-select line is to a proof.
pub struct ChipSelectState {
    /// Whether the line is selected automatically before each transaction.
    pub auto_select: bool,
    /// The level at which the chip is selected.
    pub asserted: Level,
    /// The levels that the line was driven to, oldest first.
    pub driven: Seq<Level>,
}

impl ChipSelectState {
    /// The same line with auto-select switched on or off.
    pub open spec fn with_auto_select(self, enabled: bool) -> ChipSelectState {
        ChipSelectState { auto_select: enabled, ..self }
    }

    /// The same line after it was driven once more, to `level`.
    pub open spec fn drive(self, level: Level) -> ChipSelectState {
        ChipSelectState { driven: self.driven.push(level), ..self }
    }

    /// The line after a select: driven once, to its asserted level.
    pub open spec fn select(self) -> ChipSelectState {
        self.drive(self.asserted)
    }

    /// The line after a deselect: driven once, to the inverse of its
    /// asserted level.
    pub open spec fn deselect(self) -> ChipSelectState {
        self.drive(self.asserted.inverted())
    }

    /// The line after an auto-select: selected where auto-select is on, and
    /// left alone where it is off.
    pub open spec fn auto_select(self) -> ChipSelectState {
        if self.auto_select {
            self.select()
        } else {
            self
        }
    }
}

/// A chip-select line.
///
/// The line does not remember whether the chip is selected: every select and
/// every deselect drives it, also where it has that level already. An
/// implementation must not unwind: a guard deselects while it is dropped.
pub trait ChipSelect {
    /// The line as a proof sees it. It exists in proofs only: an
    /// implementation that is compiled without being verified gives it a
    /// body that is never run.
    spec fn state(&self) -> ChipSelectState;

    /// Indicates whether this line is selected automatically before each
    /// transaction.
    #[must_use]
    fn is_auto_select(&self) -> (enabled: bool)
        ensures
            enabled == self.state().auto_select,
    ;

    /// Selects the chip if auto-select is enabled, and does nothing
    /// otherwise.
    fn auto_select(&mut self)
        ensures
            final(self).state() == old(self).state().auto_select(),
    {
        if self.is_auto_select() {
            self.select()
        }
    }

    /// Selects the chip: drives the line to its asserted level, once. It
    /// must not unwind.
    fn select(&mut self)
        ensures
            final(self).state() == old(self).state().select(),
    ;

    /// Deselects the chip: drives the line to the inverse of its asserted
    /// level, once. It must not unwind: the drop of a guard calls it, and a
    /// destructor is not allowed to unwind.
    fn deselect(&mut self)
        ensures
            final(self).state() == old(self).state().deselect(),
    ;
}

/// A chip-select line that can hand out a guard.
pub trait ChipSelectGuarded: ChipSelect {
    /// A guard that, when dropped, deselects the chip.
    type Guard<'a> where Self: 'a;

    /// The state of the line that `guard` holds.
    spec fn guarded<'a>(guard: &Self::Guard<'a>) -> ChipSelectState where Self: 'a;

    /// Returns a guard that, when dropped, deselects the chip. Making the
    /// guard drives nothing: the caller selects the chip first.
    fn select_guard(&mut self) -> (guard: Self::Guard<'_>)
        ensures
            Self::guarded(&guard) == old(self).state(),
    ;
}

/// Marks a chip-select line that is selected at the low level.
pub trait ActiveLow {
}

/// Marks a chip-select line that is selected at the high level.
pub trait ActiveHigh {
}

} // verus!
