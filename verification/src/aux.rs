//! The auxiliary peripheral block shared by the Mini UART and the
//! auxiliary SPI: the enable register that claims each sub-peripheral and
//! the routing of the shared interrupt.

use vstd::prelude::*;

pub mod spi;
pub mod uart;

verus! {

use crate::bit_set;

/// The observable registers of the auxiliary block.
pub struct AuxRegisters {
    /// Interrupt status: bit 0 pending for the Mini UART, bit 1 for SPI1.
    pub irq_status: u32,
    /// Enables: bit 0 turns on the Mini UART, bit 1 SPI1.  A driver
    /// claims its peripheral by atomically setting its bit.
    pub enables: u32,
}

/// Boot-time setup of the auxiliary block: enable the Mini UART so the
/// first stage can report over serial.
pub fn setup(aux: &mut AuxRegisters)
    ensures
        final(aux).enables == old(aux).enables | 1u32,
        final(aux).irq_status == old(aux).irq_status,
{
    aux.enables = aux.enables | 1;
}

/// The routing decision of the shared auxiliary interrupt: which
/// sub-handlers run for a given interrupt-status word — the Mini UART's
/// for bit 0, the SPI's for bit 1.
pub fn interrupt_handler(irq_status: u32) -> (r: (bool, bool))
    ensures
        r.0 == bit_set(irq_status, 0),
        r.1 == bit_set(irq_status, 1),
{
    (irq_status & (1u32 << 0) != 0, irq_status & (1u32 << 1) != 0)
}

} // verus!
