//! The chip-select line that is selected at the low level.

use vstd::prelude::*;
use vstd::std_specs::convert::FromSpecImpl;
use crate::contract::{ActiveLow, ChipSelect, ChipSelectGuarded, ChipSelectState};
use crate::guard::DeselectOnDrop;
use crate::level::Level;
use crate::pin::OutputPin;
use crate::wrapper::WrapperView;

verus! {

/// A chip-select pin with active-low behavior: selecting drives the pin low,
/// deselecting drives it high.
pub struct ChipSelectActiveLow<Pin> {
    auto_select: bool,
    pin: Pin,
}

impl<Pin> View for ChipSelectActiveLow<Pin> {
    type V = WrapperView<Pin>;

    closed spec fn view(&self) -> WrapperView<Pin> {
        WrapperView { auto_select: self.auto_select, pin: self.pin }
    }
}

impl<Pin: OutputPin> ChipSelectActiveLow<Pin> {
    /// The wrapper that [`ChipSelectActiveLow::new`] makes of `pin`.
    pub closed spec fn spec_new(pin: Pin) -> Self {
        ChipSelectActiveLow { auto_select: false, pin }
    }

    /// What [`ChipSelectActiveLow::spec_new`] makes: a wrapper around `pin`
    /// with auto-select off.
    pub proof fn lemma_spec_new(pin: Pin)
        ensures
            Self::spec_new(pin)@ == WrapperView::new(pin),
    {
    }

    /// Every wrapper of this type is selected at the low level: a select
    /// is one write of the low level to the pin, and a deselect one write of
    /// the high level.
    pub proof fn lemma_polarity(self)
        ensures
            self.state().asserted == Level::Low,
            self.state().driven == self@.pin.written().levels,
            self.state().select().driven == self@.pin.written().push(Level::Low).levels,
            self.state().deselect().driven == self@.pin.written().push(Level::High).levels,
    {
    }

    /// Wraps the pin. Auto-select is off, and the pin is not written to.
    pub fn new(pin: Pin) -> (cs: Self)
        ensures
            cs == Self::spec_new(pin),
            cs@ == WrapperView::new(pin),
    {
        ChipSelectActiveLow { auto_select: false, pin }
    }

    /// Switches auto-select on or off, and changes nothing else.
    pub fn with_auto_select(self, enabled: bool) -> (cs: Self)
        ensures
            cs@ == self@.with_auto_select(enabled),
    {
        let mut cs = self;
        cs.auto_select = enabled;
        cs
    }

    /// Indicates whether this line is selected automatically before each
    /// transaction.
    pub fn is_auto_select(&self) -> (enabled: bool)
        ensures
            enabled == self@.auto_select,
    {
        self.auto_select
    }

    /// Selects the chip if auto-select is enabled: then this is one write of
    /// the low level to the pin. With auto-select off, the pin is not
    /// touched.
    pub fn auto_select(&mut self)
        ensures
            final(self)@.auto_select == old(self)@.auto_select,
            old(self)@.auto_select ==> final(self)@.pin.written() == old(self)@.pin.written().push(
                Level::Low,
            ),
            !old(self)@.auto_select ==> *final(self) == *old(self),
            final(self).state() == old(self).state().auto_select(),
    {
        if self.auto_select {
            self.select()
        }
    }

    /// Selects the chip, driving the pin low: one write of the low level,
    /// and no other. Whether the write succeeded is not reported.
    pub fn select(&mut self)
        ensures
            final(self)@.auto_select == old(self)@.auto_select,
            final(self)@.pin.written() == old(self)@.pin.written().push(Level::Low),
            final(self).state() == old(self).state().select(),
    {
        let _ = self.pin.set_low();
    }

    /// Deselects the chip, driving the pin high: one write of the high
    /// level, and no other. Whether the write succeeded is not reported.
    pub fn deselect(&mut self)
        ensures
            final(self)@.auto_select == old(self)@.auto_select,
            final(self)@.pin.written() == old(self)@.pin.written().push(Level::High),
            final(self).state() == old(self).state().deselect(),
    {
        let _ = self.pin.set_high();
    }

    /// Consumes the line and returns the wrapped pin, as the writes left it.
    #[must_use]
    pub fn into_inner(self) -> (pin: Pin)
        ensures
            pin == self@.into_inner(),
    {
        self.pin
    }

    /// Returns a guard that, when dropped, deselects the chip. The guard
    /// itself drives nothing.
    #[must_use]
    pub fn select_guard(&mut self) -> (guard: DeselectOnDrop<'_, Self>)
        ensures
            guard.target() == *old(self),
    {
        DeselectOnDrop::from(self)
    }
}

impl<Pin: OutputPin> FromSpecImpl<Pin> for ChipSelectActiveLow<Pin> {
    open spec fn obeys_from_spec() -> bool {
        true
    }

    open spec fn from_spec(pin: Pin) -> Self {
        Self::spec_new(pin)
    }
}

impl<Pin: OutputPin> From<Pin> for ChipSelectActiveLow<Pin> {
    /// Wraps the pin as [`ChipSelectActiveLow::new`] does.
    fn from(pin: Pin) -> (cs: Self)
        ensures
            cs@ == WrapperView::new(pin),
    {
        Self::new(pin)
    }
}

impl<Pin: OutputPin> ChipSelect for ChipSelectActiveLow<Pin> {
    open spec fn state(&self) -> ChipSelectState {
        self@.state(Level::Low)
    }

    fn is_auto_select(&self) -> (enabled: bool) {
        self.is_auto_select()
    }

    fn select(&mut self) {
        self.select()
    }

    fn deselect(&mut self) {
        self.deselect()
    }
}

impl<Pin: OutputPin + 'static> ChipSelectGuarded for ChipSelectActiveLow<Pin> {
    type Guard<'a> = DeselectOnDrop<'a, Self>;

    open spec fn guarded<'a>(guard: &DeselectOnDrop<'a, Self>) -> ChipSelectState where Self: 'a {
        guard.target().state()
    }

    fn select_guard(&mut self) -> (guard: DeselectOnDrop<'_, Self>) {
        DeselectOnDrop::from(self)
    }
}

impl<Pin: OutputPin> ActiveLow for ChipSelectActiveLow<Pin> {
}

} // verus!
