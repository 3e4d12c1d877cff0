//! The two levels of a digital output.

use vstd::prelude::*;

verus! {

/// The level that a digital output is driven to.
#[derive(Clone, Copy, Debug, PartialEq, Eq, Structural)]
pub enum Level {
    /// The low level.
    Low,
    /// The high level.
    High,
}

impl Level {
    /// The other level.
    pub open spec fn inverted(self) -> Level {
        match self {
            Level::Low => Level::High,
            Level::High => Level::Low,
        }
    }
}

} // verus!
