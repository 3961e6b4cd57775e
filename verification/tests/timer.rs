use rpi::system_time::driver::{
    assemble_counter, handler_c1, handler_c3, AlarmState, SystemTimeDriver, TimerRegisters,
};

fn fresh_regs(counter: u64) -> TimerRegisters {
    TimerRegisters { cs: 0, counter, compare1: 0, compare3: 0 }
}

#[test]
fn counter_assembly_retries_on_wrap() {
    // Consistent high-word reads assemble; a mismatch demands a retry.
    assert_eq!(assemble_counter(2, 0x10, 2), Some((2u64 << 32) | 0x10));
    assert_eq!(assemble_counter(2, 0xFFFF_FFFF, 3), None);
    assert_eq!(assemble_counter(0, 7, 0), Some(7));
}

#[test]
fn now_reads_the_counter() {
    let driver = SystemTimeDriver::new();
    let regs = fresh_regs(0x1_2345_6789);
    assert_eq!(driver.now(&regs), 0x1_2345_6789);
}

#[test]
fn allocate_both_channels_then_none() {
    let mut driver = SystemTimeDriver::new();
    let first = driver.allocate_alarm().unwrap();
    let second = driver.allocate_alarm().unwrap();
    assert_eq!(first.id(), 0);
    assert_eq!(second.id(), 1);
    assert!(driver.allocate_alarm().is_none(), "both channels are used");
}

#[test]
fn alarm_state_starts_null() {
    let state = AlarmState::null();
    assert_eq!(state.timestamp, 0);
    assert_eq!(state.callback, 0);
}

#[test]
fn alarm_in_the_past_is_refused() {
    // `set_alarm` with a deadline already past returns false, invokes no
    // callback, and leaves the slot free.
    let mut driver = SystemTimeDriver::new();
    let mut regs = fresh_regs(1_000_000);
    let handle = driver.allocate_alarm().unwrap();
    driver.set_alarm_callback(handle, 77);

    let armed = driver.set_alarm(&mut regs, handle, 999_999, 0);
    assert!(!armed);
    assert_eq!(regs.compare1, 0, "no compare register was written");

    // The slot ended free: allocation hands the channel out again.
    let again = driver.allocate_alarm().unwrap();
    assert_eq!(again.id(), 0);
}

#[test]
fn alarm_soon_fires_once() {
    // `set_alarm` on a future deadline returns true and the interrupt at
    // the deadline invokes the callback exactly once.
    let mut driver = SystemTimeDriver::new();
    let start: u64 = 5_000_000;
    let mut regs = fresh_regs(start);
    let handle = driver.allocate_alarm().unwrap();
    driver.set_alarm_callback(handle, 42);

    let deadline = start + 1_000_000;
    let armed = driver.set_alarm(&mut regs, handle, deadline, 0);
    assert!(armed);
    assert_eq!(regs.compare1, deadline as u32);

    // The counter reaches the deadline and the compare interrupt fires.
    regs.counter = deadline;
    regs.cs = 1 << 1;
    let fired = handler_c1(&mut driver, &mut regs);
    assert_eq!(fired, Some(42), "the callback is invoked");
    assert_eq!(regs.cs, 0, "the match flag is acknowledged");
}

#[test]
fn deadline_slipping_during_arming_is_refused() {
    // The race: the deadline passes between the compare write and the
    // committing re-check.  The arming is withdrawn and the match flag
    // suppressed.
    let mut driver = SystemTimeDriver::new();
    let mut regs = fresh_regs(1_000);
    regs.cs = 1 << 1;
    let handle = driver.allocate_alarm().unwrap();
    driver.set_alarm_callback(handle, 9);

    let armed = driver.set_alarm(&mut regs, handle, 1_050, 100);
    assert!(!armed, "the deadline slipped into the past while arming");
    assert_eq!(regs.cs, 0, "a pending match is suppressed");
    assert!(driver.allocate_alarm().is_some(), "the slot ended free");
}

#[test]
fn wraparound_deadline_rearms_until_reached() {
    // A deadline more than 2^32 ticks out matches early on the truncated
    // compare; the interrupt routine re-arms instead of firing.
    let mut driver = SystemTimeDriver::new();
    let start: u64 = 10;
    let mut regs = fresh_regs(start);
    let handle = driver.allocate_alarm().unwrap();
    driver.set_alarm_callback(handle, 13);

    let deadline = start + (1u64 << 32) + 5;
    let armed = driver.set_alarm(&mut regs, handle, deadline, 0);
    assert!(armed);
    assert_eq!(regs.compare1, deadline as u32);

    // The low word matches long before the 64-bit deadline.
    regs.counter = deadline as u32 as u64;
    regs.cs = 1 << 1;
    let fired = handler_c1(&mut driver, &mut regs);
    assert_eq!(fired, None, "too early: the alarm re-arms");
    assert_eq!(regs.compare1, deadline as u32);

    // At the true deadline the callback runs.
    regs.counter = deadline;
    regs.cs = 1 << 1;
    let fired = handler_c1(&mut driver, &mut regs);
    assert_eq!(fired, Some(13));
}

#[test]
fn second_channel_uses_its_own_compare() {
    let mut driver = SystemTimeDriver::new();
    let mut regs = fresh_regs(100);
    let first = driver.allocate_alarm().unwrap();
    let second = driver.allocate_alarm().unwrap();
    driver.set_alarm_callback(first, 1);
    driver.set_alarm_callback(second, 2);

    assert!(driver.set_alarm(&mut regs, second, 500, 0));
    assert_eq!(regs.compare3, 500);
    assert_eq!(regs.compare1, 0);

    regs.counter = 500;
    regs.cs = 1 << 3;
    let fired = handler_c3(&mut driver, &mut regs);
    assert_eq!(fired, Some(2));
}

#[test]
fn earlier_deadline_fires_first() {
    // Two alarms on separate handles: at any instant where the later
    // deadline has fired, the earlier has fired too; stepping the clock
    // forward fires them in deadline order.
    let mut driver = SystemTimeDriver::new();
    let mut regs = fresh_regs(0);
    let first = driver.allocate_alarm().unwrap();
    let second = driver.allocate_alarm().unwrap();
    driver.set_alarm_callback(first, 100);
    driver.set_alarm_callback(second, 200);

    assert!(driver.set_alarm(&mut regs, first, 1_000, 0));
    assert!(driver.set_alarm(&mut regs, second, 2_000, 0));

    regs.counter = 1_000;
    assert_eq!(handler_c1(&mut driver, &mut regs), Some(100));
    assert_eq!(handler_c3(&mut driver, &mut regs), None, "the later alarm re-arms");

    regs.counter = 2_000;
    assert_eq!(handler_c3(&mut driver, &mut regs), Some(200));
}
