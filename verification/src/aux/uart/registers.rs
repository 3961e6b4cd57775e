//! The observable register state of the Mini UART.

use vstd::prelude::*;

verus! {

/// Capacity of the transmit FIFO, in bytes.
pub const FIFO_SIZE: u32 = 8;

/// The Mini UART as software observes it: the receive queue, what was
/// handed to the transmitter, and the control registers.
pub struct MiniUartRegisters {
    /// Bytes received and not yet read; the front is read next.
    pub rx_fifo: Vec<u8>,
    /// Every byte accepted for transmission, in order.
    pub tx_sent: Vec<u8>,
    /// Occupancy of the transmit FIFO, drained by the hardware.
    pub tx_fifo_level: u32,
    /// Line-status overrun flag: the receiver lost a byte.
    pub overrun: bool,
    /// Interrupt-enable register; bit 0 arms the receive interrupt, bit 1
    /// the transmit interrupt, and bits 2 and 3 must stay set (errata).
    pub interrupt_enable: u32,
    /// Line-control register: bit mode.
    pub line_control: u32,
    /// Extra-control register: bit 0 enables the receiver, bit 1 the
    /// transmitter.  A driver half claims its direction by setting its
    /// bit.
    pub extra_control: u32,
    /// Baud-rate register.
    pub baud: u32,
}

impl MiniUartRegisters {
    /// The transmit FIFO never holds more than its capacity.
    pub open spec fn wf(&self) -> bool {
        self.tx_fifo_level <= FIFO_SIZE
    }

    /// The reset state: quiet line, everything disabled.
    pub fn new() -> (r: MiniUartRegisters)
        ensures
            r.wf(),
            r.rx_fifo@.len() == 0,
            r.tx_sent@.len() == 0,
            r.tx_fifo_level == 0,
            !r.overrun,
            r.interrupt_enable == 0,
            r.line_control == 0,
            r.extra_control == 0,
            r.baud == 0,
    {
        MiniUartRegisters {
            rx_fifo: Vec::new(),
            tx_sent: Vec::new(),
            tx_fifo_level: 0,
            overrun: false,
            interrupt_enable: 0,
            line_control: 0,
            extra_control: 0,
            baud: 0,
        }
    }
}

} // verus!
