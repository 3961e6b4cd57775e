//! GPIO block: typed pin ownership over a 54-pin bitmap, function select,
//! output and level operations, pull configuration, and event detection.
//!
//! The register state of the block is held in [`GpioRegisters`]; every
//! operation states exactly which words it rewrites.

use vstd::prelude::*;

pub mod state;

verus! {

use crate::{bit_set, delay};
use state::{spec_empty_detect, DetectState, Input, Output, PinType, Pull, DETECT_KINDS};

/// Number of GPIO pins the block exposes.
pub const PIN_COUNT: u8 = 54;

/// The process-wide pin-ownership bitmap: 54 pins over two 32-bit words.
/// Each pin is either free or owned by exactly one token.
pub struct GpioSet {
    lower: u32,
    upper: u32,
}

impl GpioSet {
    /// Whether `pin` is currently owned.
    pub closed spec fn spec_owned(&self, pin: u8) -> bool
        recommends
            pin < PIN_COUNT,
    {
        if pin < 32 {
            bit_set(self.lower, pin as u32)
        } else {
            bit_set(self.upper, (pin - 32) as u32)
        }
    }

    /// The bitmap after `pin`'s bit is set.
    pub closed spec fn spec_lock(self, pin: u8) -> GpioSet
        recommends
            pin < PIN_COUNT,
    {
        if pin < 32 {
            GpioSet { lower: self.lower | (1u32 << (pin as u32)), ..self }
        } else {
            GpioSet { upper: self.upper | (1u32 << ((pin - 32) as u32)), ..self }
        }
    }

    /// The bitmap after `pin`'s bit is cleared.
    pub closed spec fn spec_unlock(self, pin: u8) -> GpioSet
        recommends
            pin < PIN_COUNT,
    {
        if pin < 32 {
            GpioSet { lower: self.lower & !(1u32 << (pin as u32)), ..self }
        } else {
            GpioSet { upper: self.upper & !(1u32 << ((pin - 32) as u32)), ..self }
        }
    }

    /// An empty bitmap: every pin free.
    pub fn new() -> (r: GpioSet)
        ensures
            forall|p: u8| p < PIN_COUNT ==> !r.spec_owned(p),
    {
        proof {
            lemma_bit_zero();
        }
        GpioSet { lower: 0, upper: 0 }
    }

    /// Set `pin`'s ownership bit.  Returns `true` if the pin was already
    /// owned (the claim failed), `false` if this call took ownership.
    pub fn lock(&mut self, pin: u8) -> (was_owned: bool)
        requires
            pin < PIN_COUNT,
        ensures
            was_owned == old(self).spec_owned(pin),
            *final(self) == old(self).spec_lock(pin),
    {
        if pin < 32 {
            let mask = 1u32 << (pin as u32);
            let was_owned = self.lower & mask != 0;
            self.lower = self.lower | mask;
            was_owned
        } else {
            let mask = 1u32 << ((pin - 32) as u32);
            let was_owned = self.upper & mask != 0;
            self.upper = self.upper | mask;
            was_owned
        }
    }

    /// Clear `pin`'s ownership bit.  Returns `true` if the pin was owned
    /// before the call.
    pub fn unlock(&mut self, pin: u8) -> (was_owned: bool)
        requires
            pin < PIN_COUNT,
        ensures
            was_owned == old(self).spec_owned(pin),
            *final(self) == old(self).spec_unlock(pin),
    {
        if pin < 32 {
            let mask = 1u32 << (pin as u32);
            let was_owned = self.lower & mask != 0;
            self.lower = self.lower & !mask;
            was_owned
        } else {
            let mask = 1u32 << ((pin - 32) as u32);
            let was_owned = self.upper & mask != 0;
            self.upper = self.upper & !mask;
            was_owned
        }
    }
}

/// In a freshly set word, bit `q` reads set exactly when `q` is the bit
/// that was set or it was set before; clearing is the mirror image.
proof fn lemma_bit_or(x: u32, p: u32, q: u32)
    by (bit_vector)
    requires
        p < 32,
        q < 32,
    ensures
        ((x | (1u32 << p)) & (1u32 << q) != 0) == (p == q || x & (1u32 << q) != 0),
        ((x & !(1u32 << p)) & (1u32 << q) != 0) == (p != q && x & (1u32 << q) != 0),
{
}

/// No bit of the zero word is set.
proof fn lemma_bit_zero()
    by (bit_vector)
    ensures
        forall|q: u32| #[trigger] (0u32 & (1u32 << q)) == 0,
{
}

/// Locking a pin makes exactly that pin owned and leaves every other pin
/// as it was; unlocking is the mirror image.
pub proof fn lemma_lock_unlock(s: GpioSet, pin: u8, other: u8)
    requires
        pin < PIN_COUNT,
        other < PIN_COUNT,
    ensures
        s.spec_lock(pin).spec_owned(pin),
        !s.spec_unlock(pin).spec_owned(pin),
        other != pin ==> s.spec_lock(pin).spec_owned(other) == s.spec_owned(other),
        other != pin ==> s.spec_unlock(pin).spec_owned(other) == s.spec_owned(other),
{
    if pin < 32 {
        if other < 32 {
            lemma_bit_or(s.lower, pin as u32, other as u32);
        }
        lemma_bit_or(s.lower, pin as u32, pin as u32);
    } else {
        if other >= 32 {
            lemma_bit_or(s.upper, (pin - 32) as u32, (other - 32) as u32);
        }
        lemma_bit_or(s.upper, (pin - 32) as u32, (pin - 32) as u32);
    }
}

/// Two consecutive acquisitions of one free pin: the first succeeds, and
/// the second, seeing the pin the first call took, fails.
pub proof fn lemma_acquire_twice(s: GpioSet, pin: u8)
    requires
        pin < PIN_COUNT,
        !s.spec_owned(pin),
    ensures
        s.spec_lock(pin).spec_owned(pin),
{
    lemma_lock_unlock(s, pin, pin);
}

/// After the owner releases a pin, acquiring it succeeds again.
pub proof fn lemma_release_reacquire(s: GpioSet, pin: u8)
    requires
        pin < PIN_COUNT,
    ensures
        !s.spec_lock(pin).spec_unlock(pin).spec_owned(pin),
{
    lemma_lock_unlock(s.spec_lock(pin), pin, pin);
}

/// The observable register state of the GPIO block.
pub struct GpioRegisters {
    /// Function-select words, three bits per pin, ten pins per word.
    pub fsel: Vec<u32>,
    /// Pin levels, one bit per pin over two words.  Output operations
    /// drive them; input reads sample them.
    pub level: Vec<u32>,
    /// Detect-enable words: six detect functions, two banks each, at
    /// index `kind * 2 + bank`.
    pub detect_enable: Vec<u32>,
    /// Event-detect status, one bit per pin, write-1-to-clear.
    pub detect_status: Vec<u32>,
    /// Pull-up/down control code register.
    pub pull_control: u32,
    /// Pull clock words, one bit per pin over two words.
    pub pull_set: Vec<u32>,
    /// The pull code each pin's pad latched: a pad takes the code held in
    /// the control register at the moment its clock bit is pulsed, and
    /// keeps it after both registers are cleared.
    pub pull_latch: Vec<u8>,
}

impl GpioRegisters {
    /// The word counts the register map fixes.
    pub open spec fn wf(&self) -> bool {
        &&& self.fsel.len() == 6
        &&& self.level.len() == 2
        &&& self.detect_enable.len() == 12
        &&& self.detect_status.len() == 2
        &&& self.pull_set.len() == 2
        &&& self.pull_latch.len() == PIN_COUNT
    }

    /// The reset state: every word zero.
    pub fn new() -> (r: GpioRegisters)
        ensures
            r.wf(),
            forall|i: int| 0 <= i < 6 ==> r.fsel@[i] == 0,
            forall|i: int| 0 <= i < 2 ==> r.level@[i] == 0,
            forall|i: int| 0 <= i < 12 ==> r.detect_enable@[i] == 0,
            forall|i: int| 0 <= i < 2 ==> r.detect_status@[i] == 0,
            r.pull_control == 0,
            forall|i: int| 0 <= i < 2 ==> r.pull_set@[i] == 0,
            forall|p: int| 0 <= p < PIN_COUNT ==> r.pull_latch@[p] == 0,
    {
        GpioRegisters {
            fsel: vec![0, 0, 0, 0, 0, 0],
            level: vec![0, 0],
            detect_enable: vec![0, 0, 0, 0, 0, 0, 0, 0, 0, 0, 0, 0],
            detect_status: vec![0, 0],
            pull_control: 0,
            pull_set: vec![0, 0],
            pull_latch: vec![0; 54],
        }
    }
}

/// The function-select word after pin `pin`'s three-bit field is set to
/// `bits`.
pub open spec fn spec_fsel_update(word: u32, pin: u8, bits: u32) -> u32
    recommends
        pin < PIN_COUNT,
        bits < 8,
{
    (word & !(0b111u32 << (((pin % 10) as u32) * 3))) | (bits << (((pin % 10) as u32) * 3))
}

/// Pin `pin`'s three-bit field of a function-select word.
pub open spec fn spec_fsel_field(word: u32, pin: u8) -> u32
    recommends
        pin < PIN_COUNT,
{
    (word >> (((pin % 10) as u32) * 3)) & 0b111
}

/// Writing a pin's function-select field stores exactly that code, and
/// reading it back yields it.
pub proof fn lemma_function_select_encoding(word: u32, pin: u8, bits: u32)
    requires
        pin < PIN_COUNT,
        bits < 8,
    ensures
        spec_fsel_field(spec_fsel_update(word, pin, bits), pin) == bits,
{
    let s = (((pin % 10) as u32) * 3) as u32;
    assert(s <= 27);
    lemma_fsel_bits(word, s, bits);
}

/// Writing one pin's function-select field leaves the fields of the other
/// pins of the same word unchanged.
pub proof fn lemma_function_select_preserves(word: u32, pin: u8, bits: u32, other: u8)
    requires
        pin < PIN_COUNT,
        other < PIN_COUNT,
        bits < 8,
        pin != other,
        pin / 10 == other / 10,
    ensures
        spec_fsel_field(spec_fsel_update(word, pin, bits), other) == spec_fsel_field(word, other),
{
    let s = (((pin % 10) as u32) * 3) as u32;
    let t = (((other % 10) as u32) * 3) as u32;
    assert(pin % 10 != other % 10);
    lemma_fsel_bits_other(word, s, t, bits);
}

proof fn lemma_fsel_bits(word: u32, s: u32, bits: u32)
    by (bit_vector)
    requires
        s <= 27,
        bits < 8,
    ensures
        (((word & !(0b111u32 << s)) | (bits << s)) >> s) & 0b111 == bits,
{
}

proof fn lemma_fsel_bits_other(word: u32, s: u32, t: u32, bits: u32)
    by (bit_vector)
    requires
        s <= 27,
        t <= 27,
        s % 3 == 0,
        t % 3 == 0,
        s != t,
        bits < 8,
    ensures
        (((word & !(0b111u32 << s)) | (bits << s)) >> t) & 0b111 == (word >> t) & 0b111,
{
}

/// An ownership token for GPIO pin `PIN`, configured in mode `T`.
pub struct Pin<const PIN: u8, T> {
    mode: core::marker::PhantomData<T>,
}

impl<const PIN: u8, T: PinType> Pin<PIN, T> {
    /// Claim pin `PIN` and route it to mode `T`.
    ///
    /// Returns `None`, with no register touched, when the pin is already
    /// owned.  On success the pin's ownership bit and its function-select
    /// field are set; every other pin and field is untouched.
    pub fn get(set: &mut GpioSet, regs: &mut GpioRegisters) -> (r: Option<Pin<PIN, T>>)
        requires
            PIN < PIN_COUNT,
            old(regs).wf(),
        ensures
            final(regs).wf(),
            r.is_some() == !old(set).spec_owned(PIN),
            *final(set) == old(set).spec_lock(PIN),
            r.is_some() ==> final(regs).fsel@ == old(regs).fsel@.update(
                PIN as int / 10,
                spec_fsel_update(old(regs).fsel@[PIN as int / 10], PIN, T::spec_mode_bits()),
            ),
            r.is_some() ==> spec_fsel_field(final(regs).fsel@[PIN as int / 10], PIN)
                == T::spec_mode_bits(),
            r.is_none() ==> *final(regs) == *old(regs),
            *final(regs) == (GpioRegisters { fsel: final(regs).fsel, ..*old(regs) }),
    {
        let was_owned = set.lock(PIN);
        if was_owned {
            return None;
        }
        let bank = (PIN / 10) as usize;
        let shift = ((PIN % 10) as u32) * 3;
        let bits = T::mode_bits();
        let word = regs.fsel[bank];
        let updated = (word & !(0b111u32 << shift)) | (bits << shift);
        regs.fsel.set(bank, updated);
        proof {
            lemma_function_select_encoding(word, PIN, T::spec_mode_bits());
        }
        Some(Pin { mode: core::marker::PhantomData })
    }

    /// Release the pin: its ownership bit is cleared and it can be
    /// acquired again.  The function-select field is left in its last
    /// state; the next acquisition rewrites it.
    pub fn release(self, set: &mut GpioSet)
        requires
            PIN < PIN_COUNT,
        ensures
            *final(set) == old(set).spec_unlock(PIN),
            !final(set).spec_owned(PIN),
    {
        proof {
            lemma_lock_unlock(*old(set), PIN, PIN);
        }
        let _ = set.unlock(PIN);
    }
}

impl<const PIN: u8> Pin<PIN, Output> {
    /// Drive the pin high: its level bit is set, nothing else changes.
    pub fn set_high(&mut self, regs: &mut GpioRegisters)
        requires
            PIN < PIN_COUNT,
            old(regs).wf(),
        ensures
            final(regs).wf(),
            final(regs).level@ == old(regs).level@.update(
                PIN as int / 32,
                old(regs).level@[PIN as int / 32] | (1u32 << ((PIN % 32) as u32)),
            ),
            *final(regs) == (GpioRegisters { level: final(regs).level, ..*old(regs) }),
    {
        let bank = (PIN / 32) as usize;
        let mask = 1u32 << ((PIN % 32) as u32);
        let word = regs.level[bank];
        regs.level.set(bank, word | mask);
    }

    /// Drive the pin low: its level bit is cleared, nothing else changes.
    pub fn set_low(&mut self, regs: &mut GpioRegisters)
        requires
            PIN < PIN_COUNT,
            old(regs).wf(),
        ensures
            final(regs).wf(),
            final(regs).level@ == old(regs).level@.update(
                PIN as int / 32,
                old(regs).level@[PIN as int / 32] & !(1u32 << ((PIN % 32) as u32)),
            ),
            *final(regs) == (GpioRegisters { level: final(regs).level, ..*old(regs) }),
    {
        let bank = (PIN / 32) as usize;
        let mask = 1u32 << ((PIN % 32) as u32);
        let word = regs.level[bank];
        regs.level.set(bank, word & !mask);
    }

    /// Sample the pin's level, which the output registers also expose.
    pub fn is_high(&self, regs: &GpioRegisters) -> (r: bool)
        requires
            PIN < PIN_COUNT,
            regs.wf(),
        ensures
            r == bit_set(regs.level@[PIN as int / 32], (PIN % 32) as u32),
    {
        regs.level[(PIN / 32) as usize] & (1u32 << ((PIN % 32) as u32)) != 0
    }

    /// The negation of [`Self::is_high`].
    pub fn is_low(&self, regs: &GpioRegisters) -> (r: bool)
        requires
            PIN < PIN_COUNT,
            regs.wf(),
        ensures
            r == !bit_set(regs.level@[PIN as int / 32], (PIN % 32) as u32),
    {
        !self.is_high(regs)
    }
}

/// The code the pull-control register takes: disabled, pull-down or
/// pull-up.
pub open spec fn spec_pull_code(pull: Option<Pull>) -> u32 {
    match pull {
        Some(Pull::Up) => 0b10,
        Some(Pull::Down) => 0b01,
        None => 0b00,
    }
}

impl<const PIN: u8> Pin<PIN, Input> {
    /// Sample the pin's level.
    pub fn is_high(&self, regs: &GpioRegisters) -> (r: bool)
        requires
            PIN < PIN_COUNT,
            regs.wf(),
        ensures
            r == bit_set(regs.level@[PIN as int / 32], (PIN % 32) as u32),
    {
        regs.level[(PIN / 32) as usize] & (1u32 << ((PIN % 32) as u32)) != 0
    }

    /// The negation of [`Self::is_high`].
    pub fn is_low(&self, regs: &GpioRegisters) -> (r: bool)
        requires
            PIN < PIN_COUNT,
            regs.wf(),
        ensures
            r == !bit_set(regs.level@[PIN as int / 32], (PIN % 32) as u32),
    {
        !self.is_high(regs)
    }

    /// Run the pull-configuration sequence the manual prescribes: write
    /// the pull code, wait 150 cycles, clock the pin's bit in, wait
    /// another 150 cycles, then clear the clock word and the control
    /// register.  Both waits are kept; the manual requires them.  The
    /// pin's pad latches the requested code when its clock bit is pulsed
    /// while the control register holds it; every other pad keeps its
    /// pull.
    pub fn set_pull(&self, regs: &mut GpioRegisters, pull: Option<Pull>)
        requires
            PIN < PIN_COUNT,
            old(regs).wf(),
        ensures
            final(regs).wf(),
            final(regs).pull_control == 0,
            final(regs).pull_set@ == old(regs).pull_set@.update(PIN as int / 32, 0u32),
            final(regs).pull_latch@ == old(regs).pull_latch@.update(
                PIN as int,
                spec_pull_code(pull) as u8,
            ),
            *final(regs) == (GpioRegisters {
                pull_control: 0,
                pull_set: final(regs).pull_set,
                pull_latch: final(regs).pull_latch,
                ..*old(regs)
            }),
    {
        let code: u32 = match pull {
            Some(Pull::Up) => 0b10,
            Some(Pull::Down) => 0b01,
            None => 0b00,
        };
        regs.pull_control = code;

        // Wait 150 clock cycles according to the manual.
        delay(150);

        let bank = (PIN / 32) as usize;
        let mask = 1u32 << ((PIN % 32) as u32);
        let word = regs.pull_set[bank];
        regs.pull_set.set(bank, word | mask);
        // The clocked pad takes the code the control register holds.
        regs.pull_latch.set(PIN as usize, code as u8);

        // Wait another 150 clock cycles according to the manual.
        delay(150);

        regs.pull_set.set(bank, 0);
        regs.pull_control = 0;
    }

    /// A detector for the given events on this pin, not yet armed.
    pub fn detect(&mut self, state: DetectState) -> (r: Detector<PIN>)
        ensures
            r.spec_state() == state,
            !r.spec_setup(),
    {
        Detector { state, setup: false }
    }

    /// A detector for the pin level being high.
    pub fn wait_for_high(&mut self) -> (r: Detector<PIN>)
        ensures
            r.spec_state() == (DetectState { high: true, ..spec_empty_detect() }),
            !r.spec_setup(),
    {
        self.detect(DetectState::level_high())
    }

    /// A detector for the pin level being low.
    pub fn wait_for_low(&mut self) -> (r: Detector<PIN>)
        ensures
            r.spec_state() == (DetectState { low: true, ..spec_empty_detect() }),
            !r.spec_setup(),
    {
        self.detect(DetectState::level_low())
    }

    /// A detector for a rising edge.
    pub fn wait_for_rising_edge(&mut self) -> (r: Detector<PIN>)
        ensures
            r.spec_state() == (DetectState { rising_edge: true, ..spec_empty_detect() }),
            !r.spec_setup(),
    {
        self.detect(DetectState::rising())
    }

    /// A detector for a falling edge.
    pub fn wait_for_falling_edge(&mut self) -> (r: Detector<PIN>)
        ensures
            r.spec_state() == (DetectState { falling_edge: true, ..spec_empty_detect() }),
            !r.spec_setup(),
    {
        self.detect(DetectState::falling())
    }

    /// A detector for an edge in either direction.
    pub fn wait_for_any_edge(&mut self) -> (r: Detector<PIN>)
        ensures
            r.spec_state() == (DetectState { rising_edge: true, falling_edge: true, ..spec_empty_detect() }),
            !r.spec_setup(),
    {
        self.detect(DetectState::rising().union(DetectState::falling()))
    }
}

/// Detect an event on a GPIO pin.
///
/// Poll it as a future, or spin on [`Detector::armed`] to block.  With an
/// empty selection the detector completes immediately.
pub struct Detector<const PIN: u8> {
    state: DetectState,
    setup: bool,
}

impl<const PIN: u8> Detector<PIN> {
    /// The events this detector waits for.
    pub closed spec fn spec_state(&self) -> DetectState {
        self.state
    }

    /// Whether the detect-enable registers were already armed.
    pub closed spec fn spec_setup(&self) -> bool {
        self.setup
    }

    /// Arm the detection: the pin's bit is set in the detect-enable
    /// register of every selected event, inside a critical section.
    pub fn setup_detection(&mut self, regs: &mut GpioRegisters)
        requires
            PIN < PIN_COUNT,
            old(regs).wf(),
        ensures
            final(regs).wf(),
            final(self).spec_state() == old(self).spec_state(),
            final(self).spec_setup(),
            forall|j: int| 0 <= j < 12 ==> final(regs).detect_enable@[j]
                == (if j % 2 == PIN as int / 32 && old(self).spec_state().spec_selected(j / 2) {
                    old(regs).detect_enable@[j] | (1u32 << ((PIN % 32) as u32))
                } else {
                    old(regs).detect_enable@[j]
                }),
            *final(regs) == (GpioRegisters { detect_enable: final(regs).detect_enable, ..*old(regs) }),
    {
        let bank = (PIN / 32) as usize;
        let mask = 1u32 << ((PIN % 32) as u32);
        let mut k: usize = 0;
        while k < DETECT_KINDS
            invariant
                k <= 6,
                PIN < PIN_COUNT,
                regs.wf(),
                bank == PIN as int / 32,
                mask == 1u32 << ((PIN % 32) as u32),
                self == old(self),
                forall|j: int| 0 <= j < 12 ==> regs.detect_enable@[j]
                    == (if j % 2 == bank && j / 2 < k && self.spec_state().spec_selected(j / 2) {
                        old(regs).detect_enable@[j] | mask
                    } else {
                        old(regs).detect_enable@[j]
                    }),
                *regs == (GpioRegisters { detect_enable: regs.detect_enable, ..*old(regs) }),
            decreases 6 - k,
        {
            if self.state.selected(k) {
                let word = regs.detect_enable[2 * k + bank];
                regs.detect_enable.set(2 * k + bank, word | mask);
            }
            k = k + 1;
        }
        self.setup = true;
    }

    /// Whether the armed detection has completed: the interrupt routine
    /// clears the pin's bit in every selected detect-enable register, so
    /// the bit of the first selected one reads clear.  An empty selection
    /// is complete from the start.
    pub fn armed_event_seen(&self, regs: &GpioRegisters) -> (r: bool)
        requires
            PIN < PIN_COUNT,
            regs.wf(),
        ensures
            r == (self.spec_state().spec_is_empty() || !bit_set(
                regs.detect_enable@[2 * spec_first_selected(self.spec_state()) + PIN as int / 32],
                (PIN % 32) as u32,
            )),
    {
        let bank = (PIN / 32) as usize;
        let mask = 1u32 << ((PIN % 32) as u32);
        let k: usize = if self.state.rising_edge {
            0
        } else if self.state.falling_edge {
            1
        } else if self.state.high {
            2
        } else if self.state.low {
            3
        } else if self.state.async_rising_edge {
            4
        } else if self.state.async_falling_edge {
            5
        } else {
            return true;
        };
        regs.detect_enable[2 * k + bank] & mask == 0
    }

    /// One poll of the detector.
    ///
    /// An empty selection is ready at once, and no waker is stored — the
    /// interrupt routine would never fire for it.  Otherwise the caller's
    /// waker goes into the pin's slot; the first poll arms the detection
    /// and parks, and a later poll is ready exactly when the interrupt
    /// routine has taken the stored waker.
    pub fn poll(
        &mut self,
        regs: &mut GpioRegisters,
        slot: &mut Option<u64>,
        waker: u64,
    ) -> (r: crate::Poll<()>)
        requires
            PIN < PIN_COUNT,
            old(regs).wf(),
        ensures
            final(regs).wf(),
            final(self).spec_state() == old(self).spec_state(),
            old(self).spec_state().spec_is_empty() ==> r is Ready && *final(regs) == *old(regs)
                && *final(slot) == *old(slot) && *final(self) == *old(self),
            !old(self).spec_state().spec_is_empty() && !old(self).spec_setup() ==> {
                &&& r is Pending
                &&& *final(slot) == Some(waker)
                &&& final(self).spec_setup()
                &&& forall|j: int| 0 <= j < 12 ==> final(regs).detect_enable@[j]
                    == (if j % 2 == PIN as int / 32 && old(self).spec_state().spec_selected(j / 2) {
                        old(regs).detect_enable@[j] | (1u32 << ((PIN % 32) as u32))
                    } else {
                        old(regs).detect_enable@[j]
                    })
                &&& *final(regs) == (GpioRegisters {
                    detect_enable: final(regs).detect_enable,
                    ..*old(regs)
                })
            },
            !old(self).spec_state().spec_is_empty() && old(self).spec_setup() ==> {
                &&& *final(regs) == *old(regs)
                &&& *final(self) == *old(self)
                &&& if old(slot).is_none() {
                    r is Ready && final(slot).is_none()
                } else {
                    r is Pending && *final(slot) == Some(waker)
                }
            },
    {
        if self.state.is_empty() {
            // Do not store a waker: with nothing armed the interrupt
            // routine will never take it.
            return crate::Poll::Ready(());
        }
        let old_waker = *slot;
        *slot = Some(waker);
        if !self.setup {
            self.setup_detection(regs);
            return crate::Poll::Pending;
        }
        if old_waker.is_none() {
            // The interrupt routine took the waker: the event fired.
            *slot = None;
            crate::Poll::Ready(())
        } else {
            crate::Poll::Pending
        }
    }
}

/// The index of the first selected detect function, or 6 when none is.
pub open spec fn spec_first_selected(s: DetectState) -> int {
    if s.rising_edge {
        0
    } else if s.falling_edge {
        1
    } else if s.high {
        2
    } else if s.low {
        3
    } else if s.async_rising_edge {
        4
    } else if s.async_falling_edge {
        5
    } else {
        6
    }
}

/// The status bits of a bank that correspond to real pins: all 32 for the
/// first bank, the low 22 for the second (pins 32..54).
pub open spec fn spec_bank_mask(bank: int) -> u32 {
    if bank == 0 {
        0xFFFF_FFFFu32
    } else {
        0x003F_FFFFu32
    }
}

/// The wakers the interrupt routine collects from one bank, in pin order:
/// the stored waker of every pin whose status bit is set.
pub open spec fn spec_woken(wakers: Seq<Option<u64>>, processed: u32, base: int, n: int) -> Seq<u64>
    decreases n,
{
    if n <= 0 {
        seq![]
    } else {
        let prev = spec_woken(wakers, processed, base, n - 1);
        if bit_set(processed, (n - 1) as u32) {
            match wakers[base + n - 1] {
                Some(w) => prev.push(w),
                None => prev,
            }
        } else {
            prev
        }
    }
}

/// The interrupt routine for one GPIO bank: for every pin whose event-
/// detect status bit is set, clear its bit in every detect-enable
/// register (so the interrupt will not refire), acknowledge the status
/// bit, and take the pin's waker.  Returns the taken wakers for the
/// caller to wake.
pub fn interrupt_handler(
    regs: &mut GpioRegisters,
    bank: usize,
    wakers: &mut Vec<Option<u64>>,
) -> (woken: Vec<u64>)
    requires
        old(regs).wf(),
        bank < 2,
        old(wakers)@.len() == PIN_COUNT,
    ensures
        final(regs).wf(),
        final(wakers)@.len() == PIN_COUNT,
        ({
            let processed = old(regs).detect_status@[bank as int] & spec_bank_mask(bank as int);
            &&& final(regs).detect_status@ == old(regs).detect_status@.update(
                bank as int,
                old(regs).detect_status@[bank as int] & !processed,
            )
            &&& forall|j: int| 0 <= j < 12 ==> final(regs).detect_enable@[j]
                == (if j % 2 == bank as int {
                    old(regs).detect_enable@[j] & !processed
                } else {
                    old(regs).detect_enable@[j]
                })
            &&& forall|p: int| 0 <= p < PIN_COUNT ==> final(wakers)@[p]
                == (if 32 * bank <= p < 32 * (bank + 1) && bit_set(processed, (p - 32 * bank) as u32) {
                    None::<u64>
                } else {
                    old(wakers)@[p]
                })
            &&& woken@ == spec_woken(old(wakers)@, processed, 32 * bank as int, 32)
        }),
        *final(regs) == (GpioRegisters {
            detect_enable: final(regs).detect_enable,
            detect_status: final(regs).detect_status,
            ..*old(regs)
        }),
{
    let status = regs.detect_status[bank];
    let mask: u32 = if bank == 0 { 0xFFFF_FFFF } else { 0x003F_FFFF };
    let processed = status & mask;
    regs.detect_status.set(bank, status & !processed);

    let mut k: usize = 0;
    while k < DETECT_KINDS
        invariant
            k <= 6,
            bank < 2,
            regs.wf(),
            forall|j: int| 0 <= j < 12 ==> regs.detect_enable@[j]
                == (if j % 2 == bank as int && j < 2 * k + bank as int {
                    old(regs).detect_enable@[j] & !processed
                } else {
                    old(regs).detect_enable@[j]
                }),
            *regs == (GpioRegisters {
                detect_enable: regs.detect_enable,
                detect_status: regs.detect_status,
                ..*old(regs)
            }),
            regs.detect_status@ == old(regs).detect_status@.update(
                bank as int,
                old(regs).detect_status@[bank as int] & !processed,
            ),
        decreases 6 - k,
    {
        let word = regs.detect_enable[2 * k + bank];
        regs.detect_enable.set(2 * k + bank, word & !processed);
        k = k + 1;
    }

    let mut woken: Vec<u64> = Vec::new();
    let mut i: usize = 0;
    while i < 32
        invariant
            i <= 32,
            bank < 2,
            wakers@.len() == PIN_COUNT,
            processed == old(regs).detect_status@[bank as int] & spec_bank_mask(bank as int),
            forall|p: int| 0 <= p < PIN_COUNT ==> wakers@[p]
                == (if 32 * bank <= p < 32 * bank + i && bit_set(processed, (p - 32 * bank) as u32) {
                    None::<u64>
                } else {
                    old(wakers)@[p]
                }),
            woken@ == spec_woken(old(wakers)@, processed, 32 * bank as int, i as int),
        decreases 32 - i,
    {
        if processed & (1u32 << (i as u32)) != 0 {
            proof {
                if bank == 1 {
                    lemma_bank_mask_bound(old(regs).detect_status@[bank as int], i as u32);
                }
            }
            let p = bank * 32 + i;
            if let Some(w) = wakers[p] {
                woken.push(w);
            }
            wakers.set(p, None);
        }
        i = i + 1;
    }
    woken
}

/// A set bit of a masked second-bank status word lies below pin 54.
proof fn lemma_bank_mask_bound(x: u32, i: u32)
    by (bit_vector)
    requires
        i < 32,
        (x & 0x003F_FFFFu32) & (1u32 << i) != 0,
    ensures
        i < 22,
{
}

} // verus!
