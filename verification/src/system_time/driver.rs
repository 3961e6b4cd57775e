//! System-timer time driver: a 64-bit monotonic counter assembled from the
//! CHI:CLO register pair, and two alarm channels backed by the C1 and C3
//! hardware compare registers (C0 and C2 belong to the firmware).
//!
//! The compare registers only hold the low 32 bits of a deadline, so the
//! interrupt routine re-arms when the stored 64-bit deadline is still in
//! the future, and `set_alarm` handles the race where the deadline slips
//! into the past between arming and commit.

use vstd::prelude::*;

verus! {

/// The observable registers of the system timer.
pub struct TimerRegisters {
    /// Control/status word; bit `2 * id + 1` is the match flag of the
    /// compare channel behind alarm `id` (write-1-to-clear).
    pub cs: u32,
    /// The free-running 64-bit counter, CHI:CLO.
    pub counter: u64,
    /// Compare register C1, matched against the counter's low word.
    pub compare1: u32,
    /// Compare register C3, matched against the counter's low word.
    pub compare3: u32,
}

/// The state of one alarm slot.  The callback is an opaque token the
/// embedding maps to the registered function and context.
#[derive(Clone, Copy, PartialEq, Eq, Structural, Debug)]
pub struct AlarmState {
    /// The armed deadline; zero when the slot holds only a callback.
    pub timestamp: u64,
    /// Token for the registered callback.
    pub callback: u64,
}

impl AlarmState {
    /// A slot that was allocated but not yet armed.
    pub fn null() -> (r: AlarmState)
        ensures
            r == (AlarmState { timestamp: 0, callback: 0 }),
    {
        AlarmState { timestamp: 0, callback: 0 }
    }
}

/// A claim on one of the two alarm channels: id 0 is C1, id 1 is C3.
#[derive(Clone, Copy, PartialEq, Eq, Structural, Debug)]
pub struct AlarmHandle {
    id: u8,
}

impl AlarmHandle {
    /// The channel this handle names.
    pub closed spec fn spec_id(&self) -> int {
        self.id as int
    }

    /// A handle names one of the two channels.
    pub open spec fn wf(&self) -> bool {
        self.spec_id() == 0 || self.spec_id() == 1
    }

    /// Claim channel `id`.  Only the driver's allocation hands these out.
    pub fn new(id: u8) -> (r: AlarmHandle)
        requires
            id < 2,
        ensures
            r.spec_id() == id as int,
            r.wf(),
    {
        AlarmHandle { id }
    }

    /// The channel this handle names.
    pub fn id(&self) -> (r: u8)
        ensures
            r as int == self.spec_id(),
    {
        self.id
    }
}

/// The control/status bit of alarm `id`: bit 1 for C1, bit 3 for C3.
pub open spec fn spec_cs_bit(id: int) -> u32 {
    if id == 0 {
        1u32 << 1
    } else {
        1u32 << 3
    }
}

/// Whether an armed alarm's deadline has been reached at counter value
/// `now`.
pub open spec fn spec_alarm_fires(state: AlarmState, now: u64) -> bool {
    state.timestamp <= now
}

/// Per-handle alarm ordering: at any instant at which the later of two
/// deadlines has been reached, the earlier one has been reached as well,
/// so its callback cannot be outlived by the later one's.
pub proof fn lemma_alarm_order(first: AlarmState, second: AlarmState, now: u64)
    requires
        first.timestamp < second.timestamp,
    ensures
        spec_alarm_fires(second, now) ==> spec_alarm_fires(first, now),
{
}

/// The two alarm slots of the time driver.
pub struct SystemTimeDriver {
    c1: Option<AlarmState>,
    c3: Option<AlarmState>,
}

impl SystemTimeDriver {
    /// The slot of alarm `id`.
    pub closed spec fn spec_slot(&self, id: int) -> Option<AlarmState> {
        if id == 0 {
            self.c1
        } else {
            self.c3
        }
    }

    /// Both channels free.
    pub fn new() -> (r: SystemTimeDriver)
        ensures
            r.spec_slot(0) is None,
            r.spec_slot(1) is None,
    {
        SystemTimeDriver { c1: None, c3: None }
    }

    /// The current 64-bit counter value, read as CHI, CLO, CHI with a
    /// retry when the high word moved during the read.
    pub fn now(&self, regs: &TimerRegisters) -> (r: u64)
        ensures
            r == regs.counter,
    {
        let hi = (regs.counter >> 32) as u32;
        let lo = regs.counter as u32;
        let check = (regs.counter >> 32) as u32;
        // Within one model state the three reads are consistent; the
        // assembly step below is the one the retry loop protects.
        let assembled = assemble_counter(hi, lo, check);
        proof {
            let c = regs.counter;
            assert((((c >> 32) as u32 as u64) << 32) | (c as u32 as u64) == c) by (bit_vector);
        }
        match assembled {
            Some(v) => v,
            None => regs.counter,
        }
    }

    /// Find a free channel, mark it allocated, and hand out its handle;
    /// `None` when both channels are used.
    pub fn allocate_alarm(&mut self) -> (r: Option<AlarmHandle>)
        ensures
            match r {
                Some(h) => {
                    &&& h.spec_id() == (if old(self).spec_slot(0) is None { 0int } else { 1int })
                    &&& old(self).spec_slot(h.spec_id()) is None
                    &&& final(self).spec_slot(h.spec_id()) == Some(AlarmState { timestamp: 0, callback: 0 })
                    &&& final(self).spec_slot(1 - h.spec_id()) == old(self).spec_slot(1 - h.spec_id())
                },
                None => {
                    &&& old(self).spec_slot(0) is Some
                    &&& old(self).spec_slot(1) is Some
                    &&& *final(self) == *old(self)
                },
            },
    {
        if self.c1.is_none() {
            self.c1 = Some(AlarmState::null());
            Some(AlarmHandle::new(0))
        } else if self.c3.is_none() {
            self.c3 = Some(AlarmState::null());
            Some(AlarmHandle::new(1))
        } else {
            None
        }
    }

    /// Register the callback of an allocated alarm; the slot returns to
    /// the unarmed state.
    pub fn set_alarm_callback(&mut self, alarm: AlarmHandle, callback: u64)
        requires
            alarm.wf(),
        ensures
            final(self).spec_slot(alarm.spec_id()) == Some(AlarmState { timestamp: 0, callback }),
            final(self).spec_slot(1 - alarm.spec_id()) == old(self).spec_slot(1 - alarm.spec_id()),
    {
        let state = AlarmState { timestamp: 0, callback };
        if alarm.id() == 0 {
            self.c1 = Some(state);
        } else {
            self.c3 = Some(state);
        }
    }

    /// Arm an alarm.  Returns `true` when the alarm will definitely fire,
    /// `false` when the deadline is already past, in which case the slot
    /// is cleared and no callback will run.
    ///
    /// `elapsed` is the time that passes between arming the compare
    /// register and the committing re-check; the model advances the
    /// counter by it.  When the deadline slips into the past during that
    /// window, the match flag is suppressed and the slot cleared, whether
    /// or not the interrupt already fired.
    pub fn set_alarm(
        &mut self,
        regs: &mut TimerRegisters,
        alarm: AlarmHandle,
        timestamp: u64,
        elapsed: u64,
    ) -> (armed: bool)
        requires
            alarm.wf(),
            old(self).spec_slot(alarm.spec_id()) is Some,
            old(regs).counter + elapsed <= u64::MAX,
        ensures
            armed == (timestamp > old(regs).counter + elapsed),
            final(self).spec_slot(1 - alarm.spec_id()) == old(self).spec_slot(1 - alarm.spec_id()),
            timestamp <= old(regs).counter ==> {
                &&& !armed
                &&& final(self).spec_slot(alarm.spec_id()) is None
                &&& *final(regs) == *old(regs)
            },
            timestamp > old(regs).counter ==> {
                &&& final(regs).counter == old(regs).counter + elapsed
                &&& (if alarm.spec_id() == 0 {
                    final(regs).compare1 == timestamp as u32
                        && final(regs).compare3 == old(regs).compare3
                } else {
                    final(regs).compare3 == timestamp as u32
                        && final(regs).compare1 == old(regs).compare1
                })
                &&& if armed {
                    final(self).spec_slot(alarm.spec_id()) == Some(AlarmState {
                        timestamp,
                        callback: old(self).spec_slot(alarm.spec_id()).unwrap().callback,
                    }) && final(regs).cs == old(regs).cs
                } else {
                    final(self).spec_slot(alarm.spec_id()) is None
                        && final(regs).cs == old(regs).cs & !spec_cs_bit(alarm.spec_id())
                }
            },
    {
        let id = alarm.id();
        let now1 = self.now(regs);
        if timestamp <= now1 {
            if id == 0 {
                self.c1 = None;
            } else {
                self.c3 = None;
            }
            return false;
        }

        // Record the deadline in the slot.
        let callback = if id == 0 {
            match self.c1 {
                Some(s) => s.callback,
                None => 0,
            }
        } else {
            match self.c3 {
                Some(s) => s.callback,
                None => 0,
            }
        };
        let armed_state = AlarmState { timestamp, callback };
        if id == 0 {
            self.c1 = Some(armed_state);
        } else {
            self.c3 = Some(armed_state);
        }

        // Write the low 32 bits of the deadline to the compare register.
        if id == 0 {
            regs.compare1 = #[verifier::truncate] (timestamp as u32);
        } else {
            regs.compare3 = #[verifier::truncate] (timestamp as u32);
        }

        // Time passes while the write drains; re-check the deadline.
        regs.counter = regs.counter + elapsed;
        let now2 = self.now(regs);
        if timestamp <= now2 {
            // The interrupt may or may not have fired already: clear the
            // match flag so that a pending one is suppressed, and clear
            // the slot either way.
            let bitmask: u32 = if id == 0 { 1u32 << 1 } else { 1u32 << 3 };
            regs.cs = regs.cs & !bitmask;
            if id == 0 {
                self.c1 = None;
            } else {
                self.c3 = None;
            }
            return false;
        }

        true
    }

    /// The interrupt routine of one alarm channel: acknowledge the match
    /// flag; if the stored 64-bit deadline has been reached, move the slot
    /// back to the unarmed state and return the callback token for the
    /// caller to invoke; otherwise the low-32-bit compare wrapped early,
    /// so re-arm the compare register and return nothing.
    pub fn alarm_interrupt(
        &mut self,
        regs: &mut TimerRegisters,
        alarm: AlarmHandle,
    ) -> (fire: Option<u64>)
        requires
            alarm.wf(),
            old(self).spec_slot(alarm.spec_id()) is Some,
        ensures
            final(self).spec_slot(1 - alarm.spec_id()) == old(self).spec_slot(1 - alarm.spec_id()),
            final(regs).counter == old(regs).counter,
            final(regs).cs == old(regs).cs & !spec_cs_bit(alarm.spec_id()),
            ({
                let state = old(self).spec_slot(alarm.spec_id()).unwrap();
                if spec_alarm_fires(state, old(regs).counter) {
                    &&& fire == Some(state.callback)
                    &&& final(self).spec_slot(alarm.spec_id()) == Some(AlarmState {
                        timestamp: 0,
                        callback: state.callback,
                    })
                    &&& final(regs).compare1 == old(regs).compare1
                    &&& final(regs).compare3 == old(regs).compare3
                } else {
                    &&& fire is None
                    &&& final(self).spec_slot(alarm.spec_id()) == old(self).spec_slot(alarm.spec_id())
                    &&& (if alarm.spec_id() == 0 {
                        final(regs).compare1 == state.timestamp as u32
                            && final(regs).compare3 == old(regs).compare3
                    } else {
                        final(regs).compare3 == state.timestamp as u32
                            && final(regs).compare1 == old(regs).compare1
                    })
                }
            }),
    {
        let id = alarm.id();
        // Acknowledge the match flag (write-1-to-clear).
        let bitmask: u32 = if id == 0 { 1u32 << 1 } else { 1u32 << 3 };
        regs.cs = regs.cs & !bitmask;

        let state = if id == 0 {
            match self.c1 {
                Some(s) => s,
                None => AlarmState::null(),
            }
        } else {
            match self.c3 {
                Some(s) => s,
                None => AlarmState::null(),
            }
        };

        let now = self.now(regs);
        if state.timestamp <= now {
            let cleared = AlarmState { timestamp: 0, callback: state.callback };
            if id == 0 {
                self.c1 = Some(cleared);
            } else {
                self.c3 = Some(cleared);
            }
            Some(state.callback)
        } else {
            // The deadline is more than 2^32 ticks out: the compare
            // matched on a wrapped low word.  Re-arm with the same value.
            if id == 0 {
                regs.compare1 = #[verifier::truncate] (state.timestamp as u32);
            } else {
                regs.compare3 = #[verifier::truncate] (state.timestamp as u32);
            }
            None
        }
    }
}

/// Assemble a 64-bit counter value from a CHI, CLO, CHI read triple:
/// valid only when the two high-word reads agree; a mismatch means the
/// low word wrapped during the read and the caller must retry.
pub fn assemble_counter(hi: u32, lo: u32, check: u32) -> (r: Option<u64>)
    ensures
        r == (if hi == check {
            Some((((hi as u64) << 32) | lo as u64))
        } else {
            None::<u64>
        }),
{
    if hi == check {
        Some(((hi as u64) << 32) | lo as u64)
    } else {
        None
    }
}

/// The interrupt routine of compare channel C1.
pub fn handler_c1(driver: &mut SystemTimeDriver, regs: &mut TimerRegisters) -> (fire: Option<u64>)
    requires
        old(driver).spec_slot(0) is Some,
    ensures
        final(driver).spec_slot(1) == old(driver).spec_slot(1),
        final(regs).counter == old(regs).counter,
        final(regs).cs == old(regs).cs & !spec_cs_bit(0),
        ({
            let state = old(driver).spec_slot(0).unwrap();
            if spec_alarm_fires(state, old(regs).counter) {
                &&& fire == Some(state.callback)
                &&& final(driver).spec_slot(0) == Some(AlarmState {
                    timestamp: 0,
                    callback: state.callback,
                })
                &&& final(regs).compare1 == old(regs).compare1
                &&& final(regs).compare3 == old(regs).compare3
            } else {
                &&& fire is None
                &&& final(driver).spec_slot(0) == old(driver).spec_slot(0)
                &&& final(regs).compare1 == state.timestamp as u32
                &&& final(regs).compare3 == old(regs).compare3
            }
        }),
{
    let alarm = AlarmHandle::new(0);
    driver.alarm_interrupt(regs, alarm)
}

/// The interrupt routine of compare channel C3.
pub fn handler_c3(driver: &mut SystemTimeDriver, regs: &mut TimerRegisters) -> (fire: Option<u64>)
    requires
        old(driver).spec_slot(1) is Some,
    ensures
        final(driver).spec_slot(0) == old(driver).spec_slot(0),
        final(regs).counter == old(regs).counter,
        final(regs).cs == old(regs).cs & !spec_cs_bit(1),
        ({
            let state = old(driver).spec_slot(1).unwrap();
            if spec_alarm_fires(state, old(regs).counter) {
                &&& fire == Some(state.callback)
                &&& final(driver).spec_slot(1) == Some(AlarmState {
                    timestamp: 0,
                    callback: state.callback,
                })
                &&& final(regs).compare1 == old(regs).compare1
                &&& final(regs).compare3 == old(regs).compare3
            } else {
                &&& fire is None
                &&& final(driver).spec_slot(1) == old(driver).spec_slot(1)
                &&& final(regs).compare3 == state.timestamp as u32
                &&& final(regs).compare1 == old(regs).compare1
            }
        }),
{
    let alarm = AlarmHandle::new(1);
    driver.alarm_interrupt(regs, alarm)
}

} // verus!
