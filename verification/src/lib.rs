//! Hardware abstraction layer and cooperative runtime for the BCM2835
//! system-on-chip, with its register-level behaviour stated and verified.
//!
//! Every peripheral block is modelled by a struct holding the observable
//! register state (FIFO contents, enable bits, counters).  Driver methods
//! take the model by `&mut` and carry contracts that pin down exactly how
//! each operation transforms it.  The thin unverifiable layer (volatile
//! MMIO accesses, barrier and mode-switch instructions) lives outside this
//! crate and mirrors these transitions one for one.

use vstd::prelude::*;

pub mod aux;
pub mod critical_section;
pub mod entry;
pub mod executor;
pub mod gpio;
pub mod interrupt;
pub mod loader;
pub mod mmu;
pub mod sync;
pub mod system_time;
pub mod uart;

verus! {

/// Whether bit `bit` of `word` is set.
pub open spec fn bit_set(word: u32, bit: u32) -> bool {
    word & (1u32 << bit) != 0
}

/// The outcome of polling one of the crate's futures: either the result,
/// or a promise that the stored waker will be woken when progress is
/// possible.
pub enum Poll<T> {
    /// The future finished with this value.
    Ready(T),
    /// The future parked itself; an interrupt will wake it.
    Pending,
}

impl<T> Poll<T> {
    /// Whether the future finished.
    pub open spec fn spec_is_ready(&self) -> bool {
        self is Ready
    }

    /// Whether the future finished.
    pub fn is_ready(&self) -> (r: bool)
        ensures
            r == self.spec_is_ready(),
    {
        match self {
            Poll::Ready(_) => true,
            Poll::Pending => false,
        }
    }
}

/// Set the new waker if it is not equal to the old one.
///
/// A waker is reduced to the identity that `will_wake` compares, so two
/// wakers for the same task are the same value.  Returns `true` if a waker
/// was already in the slot, `false` otherwise.
pub fn set_waker(slot: &mut Option<u64>, waker: u64) -> (was_set: bool)
    ensures
        was_set == old(slot).is_some(),
        *final(slot) == Some(waker),
{
    let was_set = slot.is_some();
    *slot = Some(waker);
    was_set
}

/// Take the waker out of the slot; the caller invokes the returned waker.
pub fn wake(slot: &mut Option<u64>) -> (woken: Option<u64>)
    ensures
        final(slot).is_none(),
        woken == *old(slot),
{
    let woken = *slot;
    *slot = None;
    woken
}

/// Busy-wait for at least `n` cycles.
pub fn delay(n: u32) {
    let mut i: u32 = n;
    while i > 0
        decreases i,
    {
        i = i - 1;
    }
}

} // verus!
