use chip_select::{
    ActiveHigh, ActiveLow, ChipSelect, ChipSelectActiveHigh, ChipSelectActiveLow,
    ChipSelectState, Level, OutputPin, PinRecord,
};
use std::cell::RefCell;
use std::rc::Rc;

struct SharedPin {
    record: Rc<RefCell<Vec<Level>>>,
}

impl SharedPin {
    fn new() -> (SharedPin, Rc<RefCell<Vec<Level>>>) {
        let record = Rc::new(RefCell::new(Vec::new()));
        (SharedPin { record: Rc::clone(&record) }, record)
    }
}

impl OutputPin for SharedPin {
    type Error = ();

    fn written(&self) -> PinRecord {
        unreachable!("the record of a pin is for proofs")
    }

    fn set_low(&mut self) -> Result<(), ()> {
        self.record.borrow_mut().push(Level::Low);
        Ok(())
    }

    fn set_high(&mut self) -> Result<(), ()> {
        self.record.borrow_mut().push(Level::High);
        Ok(())
    }
}

/// A driver's transaction, written against the contract alone.
fn transaction<T: ChipSelect>(cs: &mut T) -> bool {
    let auto = cs.is_auto_select();
    cs.auto_select();
    cs.deselect();
    auto
}

/// A line of the test's own, which leaves `auto_select` to the contract.
struct ScriptedLine {
    auto: bool,
    calls: Vec<&'static str>,
}

impl ChipSelect for ScriptedLine {
    fn state(&self) -> ChipSelectState {
        unreachable!("the model of a line is for proofs")
    }

    fn is_auto_select(&self) -> bool {
        self.auto
    }

    fn select(&mut self) {
        self.calls.push("select");
    }

    fn deselect(&mut self) {
        self.calls.push("deselect");
    }
}

fn level_of_an_active_low_line<T: ActiveLow>(_line: &T) -> Level {
    Level::Low
}

fn level_of_an_active_high_line<T: ActiveHigh>(_line: &T) -> Level {
    Level::High
}

#[test]
fn contract_methods_of_the_active_low_line() {
    let (pin, record) = SharedPin::new();
    let mut cs = ChipSelectActiveLow::new(pin);
    assert!(!ChipSelect::is_auto_select(&cs));
    ChipSelect::select(&mut cs);
    ChipSelect::deselect(&mut cs);
    ChipSelect::auto_select(&mut cs);
    assert_eq!(*record.borrow(), vec![Level::Low, Level::High]);

    let mut cs = cs.with_auto_select(true);
    assert!(ChipSelect::is_auto_select(&cs));
    ChipSelect::auto_select(&mut cs);
    assert_eq!(*record.borrow(), vec![Level::Low, Level::High, Level::Low]);
}

#[test]
fn contract_methods_of_the_active_high_line() {
    let (pin, record) = SharedPin::new();
    let mut cs = ChipSelectActiveHigh::new(pin);
    assert!(!ChipSelect::is_auto_select(&cs));
    ChipSelect::select(&mut cs);
    ChipSelect::deselect(&mut cs);
    ChipSelect::auto_select(&mut cs);
    assert_eq!(*record.borrow(), vec![Level::High, Level::Low]);

    let mut cs = cs.with_auto_select(true);
    assert!(ChipSelect::is_auto_select(&cs));
    ChipSelect::auto_select(&mut cs);
    assert_eq!(*record.borrow(), vec![Level::High, Level::Low, Level::High]);
}

#[test]
fn a_driver_needs_the_contract_only() {
    let (pin, record) = SharedPin::new();
    let mut cs = ChipSelectActiveLow::new(pin);
    assert!(!transaction(&mut cs));
    assert_eq!(*record.borrow(), vec![Level::High]);

    let (pin, record) = SharedPin::new();
    let mut cs = ChipSelectActiveLow::new(pin).with_auto_select(true);
    assert!(transaction(&mut cs));
    assert_eq!(*record.borrow(), vec![Level::Low, Level::High]);

    let (pin, record) = SharedPin::new();
    let mut cs = ChipSelectActiveHigh::new(pin).with_auto_select(true);
    assert!(transaction(&mut cs));
    assert_eq!(*record.borrow(), vec![Level::High, Level::Low]);
}

#[test]
fn auto_select_of_the_contract_selects_only_when_enabled() {
    let mut line = ScriptedLine { auto: false, calls: Vec::new() };
    line.auto_select();
    assert!(line.calls.is_empty());

    let mut line = ScriptedLine { auto: true, calls: Vec::new() };
    line.auto_select();
    assert_eq!(line.calls, vec!["select"]);
    line.auto_select();
    assert_eq!(line.calls, vec!["select", "select"]);
    assert!(transaction(&mut line));
    assert_eq!(line.calls, vec!["select", "select", "select", "deselect"]);
}

#[test]
fn the_markers_tell_the_polarities_apart() {
    let (pin, record) = SharedPin::new();
    let mut low = ChipSelectActiveLow::new(pin);
    let expected = level_of_an_active_low_line(&low);
    low.select();
    assert_eq!(*record.borrow(), vec![expected]);

    let (pin, record) = SharedPin::new();
    let mut high = ChipSelectActiveHigh::new(pin);
    let expected = level_of_an_active_high_line(&high);
    high.select();
    assert_eq!(*record.borrow(), vec![expected]);
}
