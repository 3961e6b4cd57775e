//! The Mini UART peripheral, also referred to as `UART1`: configuration,
//! the paired acquisition of its two directions, and the routing of its
//! interrupt.

use vstd::prelude::*;

pub mod reader;
pub mod registers;
pub mod writer;

verus! {

use crate::bit_set;
use registers::MiniUartRegisters;

/// The system clock feeding the baud generator: the VPU clock.
pub const CLOCK_SPEED: u32 = 250_000_000;

/// Smallest baud rate the register can represent at this clock.
pub const MIN_BAUD_RATE: u32 = 476;

/// Largest baud rate the peripheral supports at this clock.
pub const MAX_BAUD_RATE: u32 = 31_250_000;

/// The divisor the baud register stores for a rate at this clock.
pub open spec fn spec_baud_register(baud: u32) -> int {
    CLOCK_SPEED as int / (8 * baud as int) - 1
}

/// The data width of a frame.
#[derive(Clone, Copy, Debug, PartialEq, Eq, Structural)]
pub enum BitMode {
    /// Seven data bits.
    SevenBits,
    /// Eight data bits.
    EightBits,
}

impl BitMode {
    /// The value the line-control register stores for this mode.
    pub open spec fn spec_register_value(&self) -> u32 {
        match self {
            BitMode::SevenBits => 0,
            BitMode::EightBits => 3,
        }
    }

    /// The value the line-control register stores for this mode.
    pub fn register_value(&self) -> (r: u32)
        ensures
            r == self.spec_register_value(),
    {
        match self {
            BitMode::SevenBits => 0,
            BitMode::EightBits => 3,
        }
    }
}

impl Default for BitMode {
    fn default() -> (r: BitMode)
        ensures
            r == BitMode::SevenBits,
    {
        BitMode::SevenBits
    }
}

/// A validated baud rate.
#[derive(Clone, Copy, Debug, PartialEq, Eq, Structural)]
pub struct BaudRate(u32);

impl BaudRate {
    /// The rate in baud.
    pub closed spec fn spec_value(&self) -> u32 {
        self.0
    }

    /// Validate a baud rate.  Rates outside `476..=31_250_000` are a
    /// programming bug and are excluded by contract.
    pub fn new(baud_rate: u32) -> (r: BaudRate)
        requires
            MIN_BAUD_RATE <= baud_rate <= MAX_BAUD_RATE,
        ensures
            r.spec_value() == baud_rate,
    {
        BaudRate(baud_rate)
    }

    /// The divisor the baud register takes for this rate:
    /// `CLOCK_SPEED / (8 * rate) - 1`.
    pub fn register_value(&self) -> (r: u32)
        requires
            MIN_BAUD_RATE <= self.spec_value() <= MAX_BAUD_RATE,
        ensures
            r == spec_baud_register(self.spec_value()),
    {
        proof {
            assert(CLOCK_SPEED as int / (8 * self.0 as int) >= 1) by (nonlinear_arith)
                requires
                    476 <= self.0 as int,
                    8 * self.0 as int <= CLOCK_SPEED as int,
            ;
        }
        CLOCK_SPEED / (8 * self.0) - 1
    }
}

/// The line configuration the Mini UART is set up with.
pub struct Config {
    /// The validated baud rate.
    pub baud_rate: BaudRate,
    /// The data width.
    pub bit_mode: BitMode,
}

impl Config {
    /// Program the line-control and baud registers.
    pub fn setup(&self, regs: &mut MiniUartRegisters)
        requires
            old(regs).wf(),
            MIN_BAUD_RATE <= self.baud_rate.spec_value() <= MAX_BAUD_RATE,
        ensures
            final(regs).wf(),
            final(regs).line_control == self.bit_mode.spec_register_value(),
            final(regs).baud == spec_baud_register(self.baud_rate.spec_value()),
            *final(regs) == (MiniUartRegisters {
                line_control: final(regs).line_control,
                baud: final(regs).baud,
                ..*old(regs)
            }),
    {
        regs.line_control = self.bit_mode.register_value();
        regs.baud = self.baud_rate.register_value();
    }
}

/// Acquire both directions of the Mini UART at once.
///
/// Fails, touching nothing, when either direction is already claimed in
/// the extra-control register.  On success both directions are enabled,
/// both FIFOs are cleared and the line is configured.
pub fn pair<RP: reader::RxPin, TP: writer::TxPin>(
    rx_pin: RP,
    tx_pin: TP,
    config: &Config,
    regs: &mut MiniUartRegisters,
) -> (r: Option<(reader::Reader<RP>, writer::Writer<TP>)>)
    requires
        old(regs).wf(),
        MIN_BAUD_RATE <= config.baud_rate.spec_value() <= MAX_BAUD_RATE,
    ensures
        final(regs).wf(),
        r.is_some() == (old(regs).extra_control & 0b11 == 0),
        r.is_none() ==> *final(regs) == *old(regs),
        r.is_some() ==> {
            &&& final(regs).extra_control == old(regs).extra_control | 0b11
            &&& final(regs).rx_fifo@.len() == 0
            &&& final(regs).tx_fifo_level == 0
            &&& final(regs).line_control == config.bit_mode.spec_register_value()
            &&& final(regs).baud == spec_baud_register(config.baud_rate.spec_value())
            &&& final(regs).tx_sent == old(regs).tx_sent
            &&& final(regs).overrun == old(regs).overrun
            &&& final(regs).interrupt_enable == old(regs).interrupt_enable
        },
{
    if regs.extra_control & 0b11 != 0 {
        return None;
    }
    // Enable both directions and clear both FIFOs.
    regs.extra_control = regs.extra_control | 0b11;
    regs.rx_fifo = Vec::new();
    regs.tx_fifo_level = 0;

    config.setup(regs);

    Some((reader::Reader { rx_pin }, writer::Writer { tx_pin }))
}

/// Boot-time setup: disable both directions for a clean slate.
pub fn setup(regs: &mut MiniUartRegisters)
    ensures
        final(regs).extra_control == 0,
        *final(regs) == (MiniUartRegisters { extra_control: 0, ..*old(regs) }),
{
    regs.extra_control = 0;
}

/// The routing decision of the Mini UART interrupt: from the
/// interrupt-identify register, whether the transmit and the receive
/// sub-handler run (bits 1 and 2 of the register).
pub fn interrupt_handler(interrupt_id: u32) -> (r: (bool, bool))
    ensures
        r.0 == bit_set(interrupt_id, 1),
        r.1 == bit_set(interrupt_id, 2),
{
    let interrupt_mask = (interrupt_id >> 1) & 0b11;
    proof {
        lemma_interrupt_mask(interrupt_id);
    }
    (interrupt_mask & 0b1 != 0, interrupt_mask & 0b10 != 0)
}

proof fn lemma_interrupt_mask(interrupt_id: u32)
    by (bit_vector)
    ensures
        ((interrupt_id >> 1) & 0b11) & 0b1 != 0 <==> interrupt_id & (1u32 << 1) != 0,
        ((interrupt_id >> 1) & 0b11) & 0b10 != 0 <==> interrupt_id & (1u32 << 2) != 0,
{
}

} // verus!
