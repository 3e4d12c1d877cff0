//! A pin that keeps what it was driven to.

use vstd::prelude::*;
use crate::level::Level;
use crate::pin::{OutputPin, PinRecord};

verus! {

/// An output pin with no hardware behind it, which keeps every level that it
/// is driven to. Its writes never fail.
///
/// It stands in for a real pin where a driver is tried out, and it shows
/// that the contract of [`OutputPin`] can be met. To a proof it is the
/// sequence of the levels it was driven to, oldest first.
#[derive(Debug)]
pub struct RecordingPin {
    record: Vec<Level>,
}

impl View for RecordingPin {
    type V = Seq<Level>;

    closed spec fn view(&self) -> Seq<Level> {
        self.record@
    }
}

impl RecordingPin {
    /// A pin that was never driven.
    pub fn new() -> (pin: Self)
        ensures
            pin@ == Seq::<Level>::empty(),
            pin.written() == PinRecord::empty(),
    {
        RecordingPin { record: Vec::new() }
    }

    /// The levels that the pin was driven to, oldest first.
    pub fn record(&self) -> (record: &Vec<Level>)
        ensures
            record@ == self@,
    {
        &self.record
    }

    /// The level that the pin was last driven to, or `None` where it was
    /// never driven.
    pub fn level(&self) -> (level: Option<Level>)
        ensures
            self@.len() == 0 ==> level.is_none(),
            self@.len() > 0 ==> level == Some(self@.last()),
    {
        let len: usize = self.record.len();
        if len == 0 {
            None
        } else {
            Some(self.record[len - 1])
        }
    }
}

impl OutputPin for RecordingPin {
    type Error = core::convert::Infallible;

    open spec fn written(&self) -> PinRecord {
        PinRecord { levels: self@ }
    }

    /// Records the low level. It never fails.
    fn set_low(&mut self) -> (result: Result<(), core::convert::Infallible>)
        ensures
            result.is_ok(),
    {
        self.record.push(Level::Low);
        Ok(())
    }

    /// Records the high level. It never fails.
    fn set_high(&mut self) -> (result: Result<(), core::convert::Infallible>)
        ensures
            result.is_ok(),
    {
        self.record.push(Level::High);
        Ok(())
    }
}

} // verus!
