//! The guard that deselects a chip when it leaves its scope.

use vstd::prelude::*;
use vstd::std_specs::convert::FromSpecImpl;
use crate::contract::{ChipSelect, ChipSelectState};

verus! {

/// A guard that deselects the chip when it is dropped.
///
/// The guard borrows the line for as long as it lives, so no second guard
/// can stand over the same line and nothing else can drive it meanwhile.
/// Making the guard drives nothing: the caller selects the chip first.
pub struct DeselectOnDrop<'a, T: ChipSelect>(&'a mut T);

impl<'a, T: ChipSelect> DeselectOnDrop<'a, T> {
    /// The line that the guard holds, as it is now.
    pub closed spec fn target(&self) -> T {
        *self.0
    }

    /// The state of the line once the guard is dropped: one deselect more,
    /// whatever the line was driven to before.
    pub open spec fn released(&self) -> ChipSelectState {
        self.target().state().deselect()
    }

    /// What dropping the guard does: one deselect of the line it holds, and
    /// nothing else.
    fn release(&mut self)
        ensures
            final(self).target().state() == old(self).released(),
    {
        self.0.deselect()
    }
}

/// No spec expression names the borrow that a guard made in executable code
/// holds, so `from` is not tied to `from_spec`: it states what it returns in
/// its own `ensures`.
impl<'a, T: ChipSelect> FromSpecImpl<&'a mut T> for DeselectOnDrop<'a, T> {
    open spec fn obeys_from_spec() -> bool {
        false
    }

    closed spec fn from_spec(value: &'a mut T) -> Self {
        DeselectOnDrop(value)
    }
}

impl<'a, T: ChipSelect> From<&'a mut T> for DeselectOnDrop<'a, T> {
    /// Stands guard over `value`, which is left as it is.
    fn from(value: &'a mut T) -> (guard: Self)
        ensures
            guard.target() == *old(value),
    {
        DeselectOnDrop(value)
    }
}

impl<'a, T: ChipSelect> Drop for DeselectOnDrop<'a, T> {
    /// Deselects the chip, once, when the guard leaves its scope.
    ///
    /// This is the hook of `core::ops::Drop`, which the language calls on
    /// every way out of the guard's scope. Verus does not take a call made
    /// inside a destructor, so this body is not verified: it is the one call
    /// of `release`, whose contract is proved and is repeated here. That the
    /// line's `deselect` does not unwind is taken on trust as well.
    #[verifier::external_body]
    fn drop(&mut self)
        ensures
            final(self).target().state() == old(self).released(),
        opens_invariants none
        no_unwind
    {
        self.release()
    }
}

} // verus!
