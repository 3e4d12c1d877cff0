//! What the two polarity wrappers are to a proof.

use vstd::prelude::*;
use crate::contract::ChipSelectState;
use crate::level::Level;
use crate::pin::OutputPin;

verus! {

/// A polarity wrapper as a proof sees it: the auto-select setting and the
/// pin it owns. What the line was driven to is what the pin has taken.
pub struct WrapperView<Pin> {
    /// Whether the line is selected automatically before each transaction.
    pub auto_select: bool,
    /// The wrapped pin as it is now.
    pub pin: Pin,
}

impl<Pin: OutputPin> WrapperView<Pin> {
    /// A wrapper just made around `pin`: auto-select is off.
    pub open spec fn new(pin: Pin) -> WrapperView<Pin> {
        WrapperView { auto_select: false, pin }
    }

    /// The same wrapper with auto-select switched on or off.
    pub open spec fn with_auto_select(self, enabled: bool) -> WrapperView<Pin> {
        WrapperView { auto_select: enabled, ..self }
    }

    /// The pin that unwrapping gives back.
    pub open spec fn into_inner(self) -> Pin {
        self.pin
    }

    /// The state of the line, for a chip that is selected at `asserted`: the
    /// line was driven to exactly what its pin has taken.
    pub open spec fn state(self, asserted: Level) -> ChipSelectState {
        ChipSelectState {
            auto_select: self.auto_select,
            asserted,
            driven: self.pin.written().levels,
        }
    }
}

} // verus!
