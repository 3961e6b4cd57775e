//! The transmitting half of the Mini UART.

use vstd::prelude::*;

verus! {

use crate::aux::uart::registers::{MiniUartRegisters, FIFO_SIZE};
use crate::aux::uart::{Config, MAX_BAUD_RATE, MIN_BAUD_RATE};
use crate::gpio::state::Alternate5;
use crate::gpio::Pin;
use crate::{set_waker, wake, Poll};
use vstd::math::min;

/// Pins that route to the Mini UART TX line via alternate function 5.
pub trait TxPin {

}

impl TxPin for Pin<14, Alternate5> {

}

impl TxPin for Pin<32, Alternate5> {

}

impl TxPin for Pin<40, Alternate5> {

}

/// The exclusive writing half of the Mini UART, owning its TX pin.
pub struct Writer<P> {
    pub(super) tx_pin: P,
}

impl<P: TxPin> Writer<P> {
    /// Claim the transmit direction.  Fails, touching nothing, when
    /// either direction is already enabled.  On success the transmitter
    /// is enabled, its FIFO cleared, and the line configured.
    pub fn get(tx_pin: P, config: &Config, regs: &mut MiniUartRegisters) -> (r: Option<Writer<P>>)
        requires
            old(regs).wf(),
            MIN_BAUD_RATE <= config.baud_rate.spec_value() <= MAX_BAUD_RATE,
        ensures
            final(regs).wf(),
            r.is_some() == (old(regs).extra_control & 0b11 == 0),
            r.is_none() ==> *final(regs) == *old(regs),
            r.is_some() ==> {
                &&& final(regs).extra_control == old(regs).extra_control | 0b10
                &&& final(regs).tx_fifo_level == 0
                &&& final(regs).line_control == config.bit_mode.spec_register_value()
                &&& final(regs).baud == crate::aux::uart::spec_baud_register(config.baud_rate.spec_value())
                &&& final(regs).tx_sent == old(regs).tx_sent
                &&& final(regs).rx_fifo == old(regs).rx_fifo
                &&& final(regs).overrun == old(regs).overrun
                &&& final(regs).interrupt_enable == old(regs).interrupt_enable
            },
    {
        if regs.extra_control & 0b11 != 0 {
            return None;
        }
        // Enable the transmitter and clear its FIFO.
        regs.extra_control = regs.extra_control | 0b10;
        regs.tx_fifo_level = 0;

        config.setup(regs);

        Some(Writer { tx_pin })
    }

    /// Release the transmit direction by disabling the transmitter; the
    /// TX pin is handed back.
    pub fn release(self, regs: &mut MiniUartRegisters) -> (pin: P)
        ensures
            final(regs).extra_control == old(regs).extra_control & !0b10,
            *final(regs) == (MiniUartRegisters {
                extra_control: final(regs).extra_control,
                ..*old(regs)
            }),
    {
        regs.extra_control = regs.extra_control & !0b10;
        self.tx_pin
    }

    /// Blocking write: wait for space in the transmit FIFO (the hardware
    /// drains it), then hand over as much of the buffer as fits.  Returns
    /// the number of bytes accepted; an empty buffer returns zero at
    /// once.
    pub fn write(&mut self, regs: &mut MiniUartRegisters, buf: &Vec<u8>) -> (written: usize)
        requires
            old(regs).wf(),
        ensures
            final(regs).wf(),
            buf@.len() == 0 ==> written == 0 && *final(regs) == *old(regs),
            buf@.len() > 0 ==> ({
                let available = if old(regs).tx_fifo_level >= FIFO_SIZE {
                    FIFO_SIZE as int
                } else {
                    FIFO_SIZE - old(regs).tx_fifo_level
                };
                &&& written == min(buf@.len() as int, available)
                &&& written > 0
                &&& final(regs).tx_sent@ == old(regs).tx_sent@ + buf@.take(written as int)
                &&& *final(regs) == (MiniUartRegisters {
                    tx_sent: final(regs).tx_sent,
                    tx_fifo_level: final(regs).tx_fifo_level,
                    ..*old(regs)
                })
            }),
    {
        if buf.len() == 0 {
            return 0;
        }
        // Wait until the FIFO has room; the hardware transmits what it
        // holds meanwhile.
        if regs.tx_fifo_level >= FIFO_SIZE {
            regs.tx_fifo_level = 0;
        }
        let available = (FIFO_SIZE - regs.tx_fifo_level) as usize;
        let to_write = if buf.len() < available {
            buf.len()
        } else {
            available
        };
        let mut i: usize = 0;
        while i < to_write
            invariant
                i <= to_write,
                to_write <= buf@.len(),
                regs.wf(),
                regs.tx_fifo_level + to_write <= FIFO_SIZE + i,
                regs.tx_sent@ == old(regs).tx_sent@ + buf@.take(i as int),
                *regs == (MiniUartRegisters {
                    tx_sent: regs.tx_sent,
                    tx_fifo_level: regs.tx_fifo_level,
                    ..*old(regs)
                }),
            decreases to_write - i,
        {
            regs.tx_sent.push(buf[i]);
            regs.tx_fifo_level = regs.tx_fifo_level + 1;
            proof {
                assert(regs.tx_sent@ =~= old(regs).tx_sent@ + buf@.take(i + 1));
            }
            i = i + 1;
        }
        to_write
    }

    /// Blocking flush: spin until the transmitter has drained its FIFO
    /// onto the line.
    pub fn flush(&mut self, regs: &mut MiniUartRegisters)
        ensures
            final(regs).tx_fifo_level == 0,
            *final(regs) == (MiniUartRegisters { tx_fifo_level: 0, ..*old(regs) }),
    {
        regs.tx_fifo_level = 0;
    }

    /// Whether the transmit FIFO can accept a byte.
    pub fn write_ready(&self, regs: &MiniUartRegisters) -> (r: bool)
        ensures
            r == (regs.tx_fifo_level < FIFO_SIZE),
    {
        regs.tx_fifo_level < FIFO_SIZE
    }

    /// Write the whole buffer, waiting for FIFO space as often as needed:
    /// every byte is handed to the transmitter, in order.
    pub fn write_all(&mut self, regs: &mut MiniUartRegisters, buf: &Vec<u8>)
        requires
            old(regs).wf(),
        ensures
            final(regs).wf(),
            final(regs).tx_sent@ == old(regs).tx_sent@ + buf@,
            *final(regs) == (MiniUartRegisters {
                tx_sent: final(regs).tx_sent,
                tx_fifo_level: final(regs).tx_fifo_level,
                ..*old(regs)
            }),
    {
        let mut i: usize = 0;
        while i < buf.len()
            invariant
                i <= buf@.len(),
                regs.wf(),
                regs.tx_sent@ == old(regs).tx_sent@ + buf@.take(i as int),
                *regs == (MiniUartRegisters {
                    tx_sent: regs.tx_sent,
                    tx_fifo_level: regs.tx_fifo_level,
                    ..*old(regs)
                }),
            decreases buf@.len() - i,
        {
            if regs.tx_fifo_level >= FIFO_SIZE {
                // Wait for the hardware to drain the FIFO.
                regs.tx_fifo_level = 0;
            }
            regs.tx_sent.push(buf[i]);
            regs.tx_fifo_level = regs.tx_fifo_level + 1;
            proof {
                assert(regs.tx_sent@ =~= old(regs).tx_sent@ + buf@.take(i + 1));
            }
            i = i + 1;
        }
        proof {
            assert(buf@.take(buf@.len() as int) =~= buf@);
        }
    }

    /// One poll of an asynchronous write: complete at once with zero for
    /// an empty buffer; with FIFO space, hand over what fits and complete
    /// with the count; with the FIFO full, store the waker, arm the
    /// transmit interrupt (keeping the errata bits 2 and 3 set) and park.
    pub fn poll_write(
        &mut self,
        regs: &mut MiniUartRegisters,
        buf: &Vec<u8>,
        slot: &mut Option<u64>,
        waker: u64,
    ) -> (r: Poll<usize>)
        requires
            old(regs).wf(),
        ensures
            final(regs).wf(),
            buf@.len() == 0 ==> r == Poll::Ready(0usize) && *final(regs) == *old(regs)
                && *final(slot) == *old(slot),
            buf@.len() > 0 && old(regs).tx_fifo_level >= FIFO_SIZE ==> {
                &&& r is Pending
                &&& *final(slot) == Some(waker)
                &&& final(regs).interrupt_enable == old(regs).interrupt_enable | 0b1110
                &&& *final(regs) == (MiniUartRegisters {
                    interrupt_enable: final(regs).interrupt_enable,
                    ..*old(regs)
                })
            },
            buf@.len() > 0 && old(regs).tx_fifo_level < FIFO_SIZE ==> ({
                let k = min(buf@.len() as int, FIFO_SIZE - old(regs).tx_fifo_level);
                &&& r == Poll::Ready(k as usize)
                &&& final(regs).tx_sent@ == old(regs).tx_sent@ + buf@.take(k)
                &&& *final(slot) == *old(slot)
                &&& *final(regs) == (MiniUartRegisters {
                    tx_sent: final(regs).tx_sent,
                    tx_fifo_level: final(regs).tx_fifo_level,
                    ..*old(regs)
                })
            }),
    {
        if buf.len() == 0 {
            return Poll::Ready(0);
        }
        if regs.tx_fifo_level >= FIFO_SIZE {
            let _ = set_waker(slot, waker);
            // Bits 2 and 3 must be written as set (silicon errata); bit 1
            // arms the transmit interrupt.
            regs.interrupt_enable = regs.interrupt_enable | 0b1110;
            return Poll::Pending;
        }
        let available = (FIFO_SIZE - regs.tx_fifo_level) as usize;
        let to_write = if buf.len() < available {
            buf.len()
        } else {
            available
        };
        let mut i: usize = 0;
        while i < to_write
            invariant
                i <= to_write,
                to_write <= buf@.len(),
                regs.wf(),
                regs.tx_fifo_level + to_write <= FIFO_SIZE + i,
                regs.tx_sent@ == old(regs).tx_sent@ + buf@.take(i as int),
                *regs == (MiniUartRegisters {
                    tx_sent: regs.tx_sent,
                    tx_fifo_level: regs.tx_fifo_level,
                    ..*old(regs)
                }),
            decreases to_write - i,
        {
            regs.tx_sent.push(buf[i]);
            regs.tx_fifo_level = regs.tx_fifo_level + 1;
            proof {
                assert(regs.tx_sent@ =~= old(regs).tx_sent@ + buf@.take(i + 1));
            }
            i = i + 1;
        }
        Poll::Ready(to_write)
    }

    /// One poll of an asynchronous flush: complete when the transmitter
    /// has drained its FIFO; otherwise store the waker, arm the transmit
    /// interrupt and park.
    pub fn poll_flush(
        &mut self,
        regs: &mut MiniUartRegisters,
        slot: &mut Option<u64>,
        waker: u64,
    ) -> (r: Poll<()>)
        requires
            old(regs).wf(),
        ensures
            final(regs).wf(),
            old(regs).tx_fifo_level == 0 ==> r is Ready && *final(regs) == *old(regs)
                && *final(slot) == *old(slot),
            old(regs).tx_fifo_level > 0 ==> {
                &&& r is Pending
                &&& *final(slot) == Some(waker)
                &&& final(regs).interrupt_enable == old(regs).interrupt_enable | 0b1110
                &&& *final(regs) == (MiniUartRegisters {
                    interrupt_enable: final(regs).interrupt_enable,
                    ..*old(regs)
                })
            },
    {
        if regs.tx_fifo_level == 0 {
            Poll::Ready(())
        } else {
            let _ = set_waker(slot, waker);
            // Bits 2 and 3 must be written as set (silicon errata); bit 1
            // arms the transmit interrupt.
            regs.interrupt_enable = regs.interrupt_enable | 0b1110;
            Poll::Pending
        }
    }
}

/// The transmit sub-handler of the Mini UART interrupt: mask the transmit
/// source and take the writer's waker for the caller to wake.
pub fn interrupt_handler(regs: &mut MiniUartRegisters, slot: &mut Option<u64>) -> (woken: Option<
    u64,
>)
    ensures
        final(regs).interrupt_enable == old(regs).interrupt_enable & !0b10,
        *final(regs) == (MiniUartRegisters {
            interrupt_enable: final(regs).interrupt_enable,
            ..*old(regs)
        }),
        final(slot).is_none(),
        woken == *old(slot),
{
    regs.interrupt_enable = regs.interrupt_enable & !0b10;
    wake(slot)
}

} // verus!
