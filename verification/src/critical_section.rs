//! The single-core critical section: disable interrupts on entry if they
//! were enabled, and restore them on exit only if this entry disabled
//! them, so that nesting composes.

use vstd::prelude::*;

verus! {

/// The core's interrupt-enable state, as the CPSR I-bit exposes it.
pub struct CpuInterruptState {
    /// Whether IRQs are taken; cleared across every critical section.
    pub interrupts_enabled: bool,
}

/// Enter a critical section: when interrupts are enabled, disable them
/// and remember that this entry must restore them; an entry inside
/// another critical section is a no-op that restores nothing.
pub fn acquire(cpu: &mut CpuInterruptState) -> (restore: bool)
    ensures
        !final(cpu).interrupts_enabled,
        restore == old(cpu).interrupts_enabled,
{
    if cpu.interrupts_enabled {
        cpu.interrupts_enabled = false;
        true
    } else {
        false
    }
}

/// Leave a critical section: re-enable interrupts exactly when the
/// matching entry disabled them.
pub fn release(cpu: &mut CpuInterruptState, restore: bool)
    ensures
        final(cpu).interrupts_enabled == (old(cpu).interrupts_enabled || restore),
{
    if restore {
        cpu.interrupts_enabled = true;
    }
}

/// Nesting composes: an inner critical section inside an outer one leaves
/// interrupts disabled when it exits, and only the outer exit restores
/// the state found on entry.
pub fn nested_sections_restore(cpu: &mut CpuInterruptState)
    ensures
        final(cpu).interrupts_enabled == old(cpu).interrupts_enabled,
{
    let outer = acquire(cpu);
    let inner = acquire(cpu);
    // The inner section is a no-op: interrupts were already disabled.
    release(cpu, inner);
    release(cpu, outer);
}

} // verus!
