//! Laws of the chip-select model.
//!
//! Each law is stated over [`ChipSelectState`], [`WrapperView`] and the
//! record of a pin's writes, the models that the contracts of the executable
//! functions speak of.

use vstd::prelude::*;
use crate::active_high::ChipSelectActiveHigh;
use crate::active_low::ChipSelectActiveLow;
use crate::contract::{ChipSelect, ChipSelectState};
use crate::level::Level;
use crate::guard::DeselectOnDrop;
use crate::pin::OutputPin;
use crate::wrapper::WrapperView;

verus! {

/// Inverting a level twice gives the level back, and never the same level
/// after one inversion.
pub proof fn lemma_inverted_is_an_involution(level: Level)
    ensures
        level.inverted().inverted() == level,
        level.inverted() != level,
{
}

/// A select drives the line exactly once, to the asserted level, and a
/// deselect drives it exactly once, to the other level. Neither changes the
/// polarity or the auto-select setting.
pub proof fn lemma_select_and_deselect_drive_once(line: ChipSelectState)
    ensures
        line.select().driven == line.driven.push(line.asserted),
        line.select().driven.len() == line.driven.len() + 1,
        line.select().asserted == line.asserted,
        line.select().auto_select == line.auto_select,
        line.deselect().driven == line.driven.push(line.asserted.inverted()),
        line.deselect().driven.len() == line.driven.len() + 1,
        line.deselect().asserted == line.asserted,
        line.deselect().auto_select == line.auto_select,
{
}

/// On an active-low line a select drives low and a deselect drives high.
pub proof fn lemma_active_low_levels(line: ChipSelectState)
    requires
        line.asserted == Level::Low,
    ensures
        line.select() == line.drive(Level::Low),
        line.deselect() == line.drive(Level::High),
{
}

/// On an active-high line a select drives high and a deselect drives low.
pub proof fn lemma_active_high_levels(line: ChipSelectState)
    requires
        line.asserted == Level::High,
    ensures
        line.select() == line.drive(Level::High),
        line.deselect() == line.drive(Level::Low),
{
}

/// Two lines of opposite polarity mirror each other: what one is driven to by
/// a select, the other is driven to by a deselect.
pub proof fn lemma_opposite_polarities_mirror(one: ChipSelectState, other: ChipSelectState)
    requires
        other.asserted == one.asserted.inverted(),
        other.driven == one.driven,
    ensures
        one.select().driven == other.deselect().driven,
        one.deselect().driven == other.select().driven,
        one.select().driven.last() == other.select().driven.last().inverted(),
        one.deselect().driven.last() == other.deselect().driven.last().inverted(),
{
}

/// The active-high wrapper maps select and deselect to the inverse of what
/// the active-low wrapper maps them to: on pins that have taken the same
/// writes, a select of the one writes what a deselect of the other writes.
pub proof fn lemma_wrappers_are_inverse<P: OutputPin, Q: OutputPin>(
    low: ChipSelectActiveLow<P>,
    high: ChipSelectActiveHigh<Q>,
)
    ensures
        low.state().asserted == Level::Low,
        high.state().asserted == Level::High,
        high.state().asserted == low.state().asserted.inverted(),
        low@.pin.written() == high@.pin.written() ==> {
            &&& low.state().select().driven == high.state().deselect().driven
            &&& low.state().deselect().driven == high.state().select().driven
        },
{
}

/// What a wrapper's line was driven to is what its pin has taken, so a
/// select or a deselect of the line is one write to the pin.
pub proof fn lemma_line_is_the_pin<Pin: OutputPin>(view: WrapperView<Pin>, asserted: Level)
    ensures
        view.state(asserted).driven == view.pin.written().levels,
        view.state(asserted).select().driven == view.pin.written().push(asserted).levels,
        view.state(asserted).deselect().driven == view.pin.written().push(
            asserted.inverted(),
        ).levels,
{
}

/// With auto-select off, an auto-select leaves the line as it is.
pub proof fn lemma_auto_select_disabled_is_idle(line: ChipSelectState)
    requires
        !line.auto_select,
    ensures
        line.auto_select() == line,
{
}

/// With auto-select on, an auto-select does what a select does.
pub proof fn lemma_auto_select_enabled_is_select(line: ChipSelectState)
    requires
        line.auto_select,
    ensures
        line.auto_select() == line.select(),
{
}

/// A wrapper just made has auto-select off and has written nothing to its
/// pin, and switching auto-select sets exactly that.
pub proof fn lemma_auto_select_setting<Pin: OutputPin>(pin: Pin, asserted: Level, enabled: bool)
    ensures
        !WrapperView::new(pin).auto_select,
        WrapperView::new(pin).state(asserted).driven == pin.written().levels,
        WrapperView::new(pin).with_auto_select(enabled).auto_select == enabled,
        WrapperView::new(pin).with_auto_select(enabled).state(asserted)
            == WrapperView::new(pin).state(asserted).with_auto_select(enabled),
{
}

/// Unwrapping gives back the pin that was wrapped, whether auto-select was
/// set in between or not.
pub proof fn lemma_unwrap_returns_wrapped_pin<Pin: OutputPin>(pin: Pin, enabled: bool)
    ensures
        WrapperView::new(pin).into_inner() == pin,
        WrapperView::new(pin).with_auto_select(enabled).into_inner() == pin,
{
}

/// Deselects are never merged: two in a row drive the line twice, each to
/// the deasserted level.
pub proof fn lemma_deselects_are_not_merged(line: ChipSelectState)
    ensures
        line.deselect().deselect().driven == line.driven.push(line.asserted.inverted()).push(
            line.asserted.inverted(),
        ),
        line.deselect().deselect().driven.len() == line.driven.len() + 2,
{
}

/// Selects are never skipped: a select of a line that is selected already
/// drives it again.
pub proof fn lemma_selects_are_not_skipped(line: ChipSelectState)
    ensures
        line.select().select().driven == line.driven.push(line.asserted).push(line.asserted),
        line.select().select().driven.len() == line.driven.len() + 2,
{
}

/// Dropping a guard drives its line exactly once, to the deasserted level,
/// whatever the line was driven to while the guard lived.
pub proof fn lemma_guard_deselects_once<'a, T: ChipSelect>(guard: DeselectOnDrop<'a, T>)
    ensures
        guard.released().driven == guard.target().state().driven.push(
            guard.target().state().asserted.inverted(),
        ),
        guard.released().driven.len() == guard.target().state().driven.len() + 1,
        guard.released().driven.last() == guard.target().state().asserted.inverted(),
        guard.released().asserted == guard.target().state().asserted,
        guard.released().auto_select == guard.target().state().auto_select,
{
}

/// Dropping a guard over an active-low line is one write of the high level
/// to the pin, and leaves the high level as the last one written.
pub proof fn lemma_guard_on_active_low_writes_high<'a, Pin: OutputPin>(
    guard: DeselectOnDrop<'a, ChipSelectActiveLow<Pin>>,
)
    ensures
        guard.released().driven == guard.target()@.pin.written().push(Level::High).levels,
        guard.released().driven.last() == Level::High,
{
}

/// Dropping a guard over an active-high line is one write of the low level
/// to the pin, and leaves the low level as the last one written.
pub proof fn lemma_guard_on_active_high_writes_low<'a, Pin: OutputPin>(
    guard: DeselectOnDrop<'a, ChipSelectActiveHigh<Pin>>,
)
    ensures
        guard.released().driven == guard.target()@.pin.written().push(Level::Low).levels,
        guard.released().driven.last() == Level::Low,
{
}

/// Two guards in a row deselect once each: where the second guard stands
/// over the line as the first one left it, the line is driven twice in all,
/// and neither deselect is merged or skipped.
pub proof fn lemma_guards_in_a_row_deselect_once_each<'a, 'b, T: ChipSelect>(
    first: DeselectOnDrop<'a, T>,
    second: DeselectOnDrop<'b, T>,
)
    requires
        second.target().state() == first.released(),
    ensures
        second.released().driven == first.target().state().driven.push(
            first.target().state().asserted.inverted(),
        ).push(first.target().state().asserted.inverted()),
        second.released().driven.len() == first.target().state().driven.len() + 2,
        second.released().driven.len() == first.released().driven.len() + 1,
{
}

} // verus!
