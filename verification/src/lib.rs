//! Chip-select lines for peripherals on a shared bus.
//!
//! A driver selects and deselects its peripheral through [`ChipSelect`]
//! without knowing whether the line is active low or active high.
//! [`ChipSelectActiveLow`] and [`ChipSelectActiveHigh`] own an output pin and
//! turn "select" and "deselect" into the level that their polarity asks for.
//! [`DeselectOnDrop`] deselects when it leaves its scope.
//!
//! Every contract speaks of the writes that the pin has taken, oldest
//! first: a select or a deselect is exactly one write, of the level that the
//! polarity asks for. A failed write is not reported: it counts as a write,
//! and the caller sees nothing of it.
//!
//! A guard drives nothing when it is made: the caller selects the chip, then
//! takes the guard, and the guard deselects the chip when it is dropped.
//!
//! The pin is anything that implements [`OutputPin`]. A pin of a hardware
//! abstraction layer becomes one by a short impl; [`RecordingPin`] is a pin
//! with no hardware behind it.

pub mod active_high;
pub mod active_low;
pub mod contract;
pub mod guard;
pub mod laws;
pub mod level;
pub mod pin;
pub mod recording;
pub mod wrapper;

pub use active_high::ChipSelectActiveHigh;
pub use active_low::ChipSelectActiveLow;
pub use contract::{ActiveHigh, ActiveLow, ChipSelect, ChipSelectGuarded, ChipSelectState};
pub use guard::DeselectOnDrop;
pub use level::Level;
pub use pin::{OutputPin, PinRecord};
pub use recording::RecordingPin;
