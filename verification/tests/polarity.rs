use chip_select::{ChipSelectActiveHigh, ChipSelectActiveLow, Level, OutputPin, PinRecord};
use std::cell::RefCell;
use std::rc::Rc;

/// A pin that writes each level it is driven to into a shared record.
struct SharedPin {
    record: Rc<RefCell<Vec<Level>>>,
}

impl SharedPin {
    fn new() -> (SharedPin, Rc<RefCell<Vec<Level>>>) {
        let record = Rc::new(RefCell::new(Vec::new()));
        (SharedPin { record: Rc::clone(&record) }, record)
    }
}

impl OutputPin for SharedPin {
    type Error = ();

    fn written(&self) -> PinRecord {
        unreachable!("the record of a pin is for proofs")
    }

    fn set_low(&mut self) -> Result<(), ()> {
        self.record.borrow_mut().push(Level::Low);
        Ok(())
    }

    fn set_high(&mut self) -> Result<(), ()> {
        self.record.borrow_mut().push(Level::High);
        Ok(())
    }
}

/// A pin whose every write fails, and which counts the writes.
struct BrokenPin {
    writes: Rc<RefCell<Vec<Level>>>,
}

impl OutputPin for BrokenPin {
    type Error = &'static str;

    fn written(&self) -> PinRecord {
        unreachable!("the record of a pin is for proofs")
    }

    fn set_low(&mut self) -> Result<(), &'static str> {
        self.writes.borrow_mut().push(Level::Low);
        Err("low failed")
    }

    fn set_high(&mut self) -> Result<(), &'static str> {
        self.writes.borrow_mut().push(Level::High);
        Err("high failed")
    }
}

#[test]
fn active_low_select_then_deselect_records_low_high() {
    let (pin, record) = SharedPin::new();
    let mut cs = ChipSelectActiveLow::new(pin);
    assert!(record.borrow().is_empty());
    cs.select();
    assert_eq!(*record.borrow(), vec![Level::Low]);
    cs.deselect();
    assert_eq!(*record.borrow(), vec![Level::Low, Level::High]);
}

#[test]
fn active_high_select_then_deselect_records_high_low() {
    let (pin, record) = SharedPin::new();
    let mut cs = ChipSelectActiveHigh::new(pin);
    assert!(record.borrow().is_empty());
    cs.select();
    assert_eq!(*record.borrow(), vec![Level::High]);
    cs.deselect();
    assert_eq!(*record.borrow(), vec![Level::High, Level::Low]);
}

#[test]
fn active_low_select_drives_low_once_per_call() {
    let (pin, record) = SharedPin::new();
    let mut cs = ChipSelectActiveLow::new(pin);
    cs.select();
    cs.select();
    cs.select();
    assert_eq!(*record.borrow(), vec![Level::Low, Level::Low, Level::Low]);
}

#[test]
fn active_low_deselect_drives_high_once_per_call() {
    let (pin, record) = SharedPin::new();
    let mut cs = ChipSelectActiveLow::new(pin);
    cs.deselect();
    cs.deselect();
    assert_eq!(*record.borrow(), vec![Level::High, Level::High]);
}

#[test]
fn active_high_select_drives_high_once_per_call() {
    let (pin, record) = SharedPin::new();
    let mut cs = ChipSelectActiveHigh::new(pin);
    cs.select();
    cs.select();
    assert_eq!(*record.borrow(), vec![Level::High, Level::High]);
}

#[test]
fn active_high_deselect_drives_low_once_per_call() {
    let (pin, record) = SharedPin::new();
    let mut cs = ChipSelectActiveHigh::new(pin);
    cs.deselect();
    cs.deselect();
    cs.deselect();
    assert_eq!(*record.borrow(), vec![Level::Low, Level::Low, Level::Low]);
}

#[test]
fn the_two_polarities_mirror_each_other() {
    let (low_pin, low_record) = SharedPin::new();
    let (high_pin, high_record) = SharedPin::new();
    let mut low = ChipSelectActiveLow::new(low_pin);
    let mut high = ChipSelectActiveHigh::new(high_pin);
    low.select();
    high.deselect();
    assert_eq!(*low_record.borrow(), *high_record.borrow());
    low.deselect();
    high.select();
    assert_eq!(*low_record.borrow(), *high_record.borrow());
    assert_eq!(*low_record.borrow(), vec![Level::Low, Level::High]);
}

#[test]
fn a_failed_write_is_not_reported_and_stops_nothing() {
    let writes = Rc::new(RefCell::new(Vec::new()));
    let mut low = ChipSelectActiveLow::new(BrokenPin { writes: Rc::clone(&writes) });
    low.select();
    low.deselect();
    low.select();
    assert_eq!(*writes.borrow(), vec![Level::Low, Level::High, Level::Low]);

    let writes = Rc::new(RefCell::new(Vec::new()));
    let mut high = ChipSelectActiveHigh::new(BrokenPin { writes: Rc::clone(&writes) });
    high.select();
    high.deselect();
    assert_eq!(*writes.borrow(), vec![Level::High, Level::Low]);
}

#[test]
fn levels_compare_and_print() {
    assert_eq!(Level::Low, Level::Low);
    assert_ne!(Level::Low, Level::High);
    let copy = Level::High;
    let same = copy;
    assert_eq!(copy, same);
    assert_eq!(format!("{:?}", Level::Low), "Low");
    assert_eq!(format!("{:?}", Level::High), "High");
}
