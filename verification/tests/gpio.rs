use rpi::gpio::state::{Alternate5, DetectState, Input, Output, Pull};
use rpi::gpio::{interrupt_handler, GpioRegisters, GpioSet, Pin, PIN_COUNT};

#[test]
fn acquire_twice_one_success() {
    // For every pin, two consecutive acquisitions yield exactly one
    // success and one failure.
    for pin in 0..PIN_COUNT {
        let mut set = GpioSet::new();
        let first = set.lock(pin);
        let second = set.lock(pin);
        assert!(!first, "first acquisition of a free pin must succeed");
        assert!(second, "second acquisition must observe the pin owned");
    }
}

#[test]
fn release_then_reacquire() {
    for pin in 0..PIN_COUNT {
        let mut set = GpioSet::new();
        assert!(!set.lock(pin));
        assert!(set.unlock(pin), "the owner releases an owned pin");
        assert!(!set.lock(pin), "a released pin can be acquired again");
    }
}

#[test]
fn pin_get_conflict_and_release() {
    let mut set = GpioSet::new();
    let mut regs = GpioRegisters::new();
    let pin = Pin::<17, Input>::get(&mut set, &mut regs);
    assert!(pin.is_some());
    let again = Pin::<17, Input>::get(&mut set, &mut regs);
    assert!(again.is_none(), "an owned pin cannot be acquired twice");
    pin.unwrap().release(&mut set);
    let third = Pin::<17, Input>::get(&mut set, &mut regs);
    assert!(third.is_some(), "after the owner is dropped the pin is free");
}

#[test]
fn function_select_field_encoding() {
    // After a successful acquisition the pin's three-bit field holds the
    // mode's code: 000 input, 001 output, 010 for alternate function 5.
    let mut set = GpioSet::new();
    let mut regs = GpioRegisters::new();
    let _out = Pin::<17, Output>::get(&mut set, &mut regs).unwrap();
    assert_eq!((regs.fsel[1] >> 21) & 0b111, 0b001);
    let _alt = Pin::<14, Alternate5>::get(&mut set, &mut regs).unwrap();
    assert_eq!((regs.fsel[1] >> 12) & 0b111, 0b010);
    // The output pin's field is untouched by the second write.
    assert_eq!((regs.fsel[1] >> 21) & 0b111, 0b001);
    let _inp = Pin::<3, Input>::get(&mut set, &mut regs).unwrap();
    assert_eq!((regs.fsel[0] >> 9) & 0b111, 0b000);
}

#[test]
fn output_levels() {
    let mut set = GpioSet::new();
    let mut regs = GpioRegisters::new();
    let mut pin = Pin::<47, Output>::get(&mut set, &mut regs).unwrap();
    assert!(pin.is_low(&regs));
    pin.set_high(&mut regs);
    assert!(pin.is_high(&regs));
    assert_eq!(regs.level[1], 1 << 15);
    pin.set_low(&mut regs);
    assert!(pin.is_low(&regs));
    assert_eq!(regs.level[1], 0);
}

#[test]
fn pull_sequence_leaves_registers_clear() {
    let mut set = GpioSet::new();
    let mut regs = GpioRegisters::new();
    let pin = Pin::<17, Input>::get(&mut set, &mut regs).unwrap();
    pin.set_pull(&mut regs, Some(Pull::Up));
    assert_eq!(regs.pull_control, 0);
    assert_eq!(regs.pull_set[0], 0);
    assert_eq!(regs.pull_set[1], 0);
    // The pad latched the pull-up code; every other pad kept none.
    assert_eq!(regs.pull_latch[17], 0b10);
    assert_eq!(regs.pull_latch[16], 0b00);

    pin.set_pull(&mut regs, Some(Pull::Down));
    assert_eq!(regs.pull_latch[17], 0b01);
    pin.set_pull(&mut regs, None);
    assert_eq!(regs.pull_latch[17], 0b00);
}

#[test]
fn pin_edge_resolves_exactly_once() {
    // Pin 17 as input pull-up; arm a rising-edge wait, drive the edge,
    // and check the future resolves exactly once.
    let mut set = GpioSet::new();
    let mut regs = GpioRegisters::new();
    let mut pin = Pin::<17, Input>::get(&mut set, &mut regs).unwrap();
    pin.set_pull(&mut regs, Some(Pull::Up));
    assert_eq!(regs.pull_latch[17], 0b10, "the pad is pulled up");

    let mut wakers: Vec<Option<u64>> = vec![None; 54];
    let mut detector = pin.wait_for_rising_edge();

    // First poll arms the detection and parks.
    let waker: u64 = 7;
    let first = detector.poll(&mut regs, &mut wakers[17], waker);
    assert!(!first.is_ready());
    // The rising-edge detect-enable register holds the pin's bit.
    assert_eq!(regs.detect_enable[0], 1 << 17);
    assert_eq!(wakers[17], Some(waker));

    // The external edge: pin 17 low, then high; the hardware raises the
    // event-detect status bit and the interrupt routine runs.
    regs.detect_status[0] |= 1 << 17;
    let woken = interrupt_handler(&mut regs, 0, &mut wakers);
    assert_eq!(woken, vec![waker], "the waker fires exactly once");
    assert_eq!(regs.detect_enable[0], 0, "the detection is disarmed");
    assert_eq!(regs.detect_status[0], 0, "the status bit is acknowledged");

    // The woken task polls again and completes.
    let second = detector.poll(&mut regs, &mut wakers[17], waker);
    assert!(second.is_ready());

    // Nothing is armed, so no further interrupt can wake anything.
    let woken_again = interrupt_handler(&mut regs, 0, &mut wakers);
    assert!(woken_again.is_empty());
}

#[test]
fn empty_detection_is_immediately_ready() {
    let mut set = GpioSet::new();
    let mut regs = GpioRegisters::new();
    let mut pin = Pin::<5, Input>::get(&mut set, &mut regs).unwrap();
    let mut slot: Option<u64> = None;
    let mut detector = pin.detect(DetectState::empty());
    let polled = detector.poll(&mut regs, &mut slot, 9);
    assert!(polled.is_ready());
    assert_eq!(slot, None, "no waker is stored for an empty selection");
}

#[test]
fn second_bank_interrupt() {
    let mut regs = GpioRegisters::new();
    let mut wakers: Vec<Option<u64>> = vec![None; 54];
    wakers[33] = Some(11);
    // Pin 33 raises its status bit in the second bank.
    regs.detect_status[1] = 1 << 1;
    regs.detect_enable[1] = 1 << 1;
    let woken = interrupt_handler(&mut regs, 1, &mut wakers);
    assert_eq!(woken, vec![11]);
    assert_eq!(wakers[33], None);
    assert_eq!(regs.detect_enable[1], 0);
    assert_eq!(regs.detect_status[1], 0);
}

#[test]
fn detect_registers_list_selected_kinds() {
    let state = DetectState::rising().union(DetectState::falling());
    assert_eq!(state.registers(), vec![0, 1]);
    assert_eq!(DetectState::empty().registers(), Vec::<usize>::new());
    assert_eq!(DetectState::all().registers(), vec![0, 1, 2, 3, 4, 5]);
    assert_eq!(DetectState::level_low().registers(), vec![3]);
}

#[test]
fn blocking_detection_completes_when_disarmed() {
    let mut set = GpioSet::new();
    let mut regs = GpioRegisters::new();
    let mut pin = Pin::<17, Input>::get(&mut set, &mut regs).unwrap();
    let mut detector = pin.detect(DetectState::rising());
    detector.setup_detection(&mut regs);
    assert!(
        !detector.armed_event_seen(&regs),
        "the enable bit is still set: keep spinning"
    );
    // The event arrives; the interrupt routine disarms the detection.
    regs.detect_status[0] |= 1 << 17;
    let mut wakers: Vec<Option<u64>> = vec![None; 54];
    let _ = interrupt_handler(&mut regs, 0, &mut wakers);
    assert!(detector.armed_event_seen(&regs), "the spin loop may stop");
}
