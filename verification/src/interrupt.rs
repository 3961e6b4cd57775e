//! The interrupt controller: the enable masks the kernel installs at
//! boot, and the dispatch decision the IRQ vector takes from the pending
//! registers.

use vstd::prelude::*;

verus! {

use crate::bit_set;

/// The handlers the kernel wires, named for dispatch.
#[derive(Clone, Copy, PartialEq, Eq, Structural, Debug)]
pub enum InterruptSource {
    /// System-timer compare channel C1.
    TimerC1,
    /// System-timer compare channel C3.
    TimerC3,
    /// GPIO event detection, first bank (pins 0..32).
    GpioBank1,
    /// GPIO event detection, second bank (pins 32..54).
    GpioBank2,
}

/// One wired interrupt source: its bit in the 64-bit pending space
/// (0..32 in the first pending register, 32..64 in the second) and its
/// handler.
pub struct InterruptDescriptor {
    /// The source's bit index, below 64.
    pub bit: u8,
    /// The handler dispatch runs for it, with interrupts still disabled.
    pub handler: InterruptSource,
}

/// The sources wired to the first pending register: the two system-timer
/// compare channels.
pub fn interrupt_sources_1() -> (r: Vec<InterruptDescriptor>)
    ensures
        r@.len() == 2,
        r@[0].bit == 1 && r@[0].handler == InterruptSource::TimerC1,
        r@[1].bit == 3 && r@[1].handler == InterruptSource::TimerC3,
{
    let mut r: Vec<InterruptDescriptor> = Vec::new();
    r.push(InterruptDescriptor { bit: 1, handler: InterruptSource::TimerC1 });
    r.push(InterruptDescriptor { bit: 3, handler: InterruptSource::TimerC3 });
    r
}

/// The sources wired to the second pending register: the two GPIO banks.
pub fn interrupt_sources_2() -> (r: Vec<InterruptDescriptor>)
    ensures
        r@.len() == 2,
        r@[0].bit == 49 && r@[0].handler == InterruptSource::GpioBank1,
        r@[1].bit == 50 && r@[1].handler == InterruptSource::GpioBank2,
{
    let mut r: Vec<InterruptDescriptor> = Vec::new();
    r.push(InterruptDescriptor { bit: 49, handler: InterruptSource::GpioBank1 });
    r.push(InterruptDescriptor { bit: 50, handler: InterruptSource::GpioBank2 });
    r
}

/// The enable masks boot writes to the two interrupt-enable registers:
/// one bit for each wired source, and nothing else.
pub fn setup() -> (r: (u32, u32))
    ensures
        r.0 == (1u32 << 1) | (1u32 << 3),
        r.1 == (1u32 << (49 - 32)) | (1u32 << (50 - 32)),
{
    let sources_1 = interrupt_sources_1();
    let mut enable_irqs_1: u32 = 0;
    let mut i: usize = 0;
    while i < sources_1.len()
        invariant
            i <= sources_1@.len(),
            sources_1@.len() == 2,
            sources_1@[0].bit == 1 && sources_1@[1].bit == 3,
            i == 0 ==> enable_irqs_1 == 0,
            i == 1 ==> enable_irqs_1 == 1u32 << 1,
            i == 2 ==> enable_irqs_1 == (1u32 << 1) | (1u32 << 3),
        decreases sources_1@.len() - i,
    {
        let bit = sources_1[i].bit;
        assert(bit < 32);
        proof {
            assert(0u32 | (1u32 << 1) == (1u32 << 1)) by (bit_vector);
        }
        enable_irqs_1 = enable_irqs_1 | (1u32 << (bit as u32));
        i = i + 1;
    }

    let sources_2 = interrupt_sources_2();
    let mut enable_irqs_2: u32 = 0;
    let mut j: usize = 0;
    while j < sources_2.len()
        invariant
            j <= sources_2@.len(),
            sources_2@.len() == 2,
            sources_2@[0].bit == 49 && sources_2@[1].bit == 50,
            j == 0 ==> enable_irqs_2 == 0,
            j == 1 ==> enable_irqs_2 == 1u32 << (49 - 32),
            j == 2 ==> enable_irqs_2 == (1u32 << (49 - 32)) | (1u32 << (50 - 32)),
        decreases sources_2@.len() - j,
    {
        let bit = sources_2[j].bit;
        assert(bit >= 32 && bit < 64);
        proof {
            assert(0u32 | (1u32 << (49 - 32)) == (1u32 << (49 - 32))) by (bit_vector);
        }
        enable_irqs_2 = enable_irqs_2 | (1u32 << ((bit - 32) as u32));
        j = j + 1;
    }

    (enable_irqs_1, enable_irqs_2)
}

/// The handlers one IRQ runs, in table order: a wired source is
/// dispatched exactly when its pending register is flagged in the basic
/// word (bit 8 for the first, bit 9 for the second) and its own bit is
/// set there.  Unwired pending bits are ignored: they were never
/// unmasked.
pub open spec fn spec_dispatch(basic_pending: u32, pending_1: u32, pending_2: u32) -> Seq<
    InterruptSource,
> {
    let first = if bit_set(basic_pending, 8) {
        (if bit_set(pending_1, 1) {
            seq![InterruptSource::TimerC1]
        } else {
            seq![]
        }) + (if bit_set(pending_1, 3) {
            seq![InterruptSource::TimerC3]
        } else {
            seq![]
        })
    } else {
        seq![]
    };
    let second = if bit_set(basic_pending, 9) {
        (if bit_set(pending_2, (49 - 32) as u32) {
            seq![InterruptSource::GpioBank1]
        } else {
            seq![]
        }) + (if bit_set(pending_2, (50 - 32) as u32) {
            seq![InterruptSource::GpioBank2]
        } else {
            seq![]
        })
    } else {
        seq![]
    };
    first + second
}

/// The dispatch decision of the IRQ vector: read the basic-pending word,
/// and for each flagged pending register run the wired handlers whose
/// bits are set, in table order.
pub fn interrupt_handler(basic_pending: u32, pending_1: u32, pending_2: u32) -> (r: Vec<
    InterruptSource,
>)
    ensures
        r@ == spec_dispatch(basic_pending, pending_1, pending_2),
{
    let mut r: Vec<InterruptSource> = Vec::new();
    if basic_pending & (1u32 << 8) != 0 {
        if pending_1 & (1u32 << 1) != 0 {
            r.push(InterruptSource::TimerC1);
        }
        if pending_1 & (1u32 << 3) != 0 {
            r.push(InterruptSource::TimerC3);
        }
    }
    if basic_pending & (1u32 << 9) != 0 {
        if pending_2 & (1u32 << (49 - 32)) != 0 {
            r.push(InterruptSource::GpioBank1);
        }
        if pending_2 & (1u32 << (50 - 32)) != 0 {
            r.push(InterruptSource::GpioBank2);
        }
    }
    proof {
        assert(r@ =~= spec_dispatch(basic_pending, pending_1, pending_2));
    }
    r
}

} // verus!
