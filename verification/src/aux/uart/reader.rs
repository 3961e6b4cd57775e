//! The receiving half of the Mini UART.

use vstd::prelude::*;

verus! {

use crate::aux::uart::registers::MiniUartRegisters;
use crate::aux::uart::{Config, MAX_BAUD_RATE, MIN_BAUD_RATE};
use crate::gpio::state::Alternate5;
use crate::gpio::Pin;
use crate::{set_waker, wake, Poll};
use vstd::math::min;

/// Errors that can occur when reading from the Mini UART.
#[derive(Clone, Copy, Debug, PartialEq, Eq, Structural)]
pub enum Error {
    /// The receiver ran over: a byte was lost before it was read.
    Overrun,
}

/// Pins that route to the Mini UART RX line via alternate function 5.
pub trait RxPin {

}

impl RxPin for Pin<15, Alternate5> {

}

impl RxPin for Pin<33, Alternate5> {

}

impl RxPin for Pin<41, Alternate5> {

}

/// The exclusive reading half of the Mini UART, owning its RX pin.
pub struct Reader<P> {
    pub(super) rx_pin: P,
}

impl<P: RxPin> Reader<P> {
    /// Claim the receive direction.  Fails, touching nothing, when either
    /// direction is already enabled.  On success the receiver is enabled,
    /// its FIFO cleared, and the line configured.
    pub fn get(rx_pin: P, config: &Config, regs: &mut MiniUartRegisters) -> (r: Option<Reader<P>>)
        requires
            old(regs).wf(),
            MIN_BAUD_RATE <= config.baud_rate.spec_value() <= MAX_BAUD_RATE,
        ensures
            final(regs).wf(),
            r.is_some() == (old(regs).extra_control & 0b11 == 0),
            r.is_none() ==> *final(regs) == *old(regs),
            r.is_some() ==> {
                &&& final(regs).extra_control == old(regs).extra_control | 0b1
                &&& final(regs).rx_fifo@.len() == 0
                &&& final(regs).line_control == config.bit_mode.spec_register_value()
                &&& final(regs).baud == crate::aux::uart::spec_baud_register(config.baud_rate.spec_value())
                &&& final(regs).tx_sent == old(regs).tx_sent
                &&& final(regs).tx_fifo_level == old(regs).tx_fifo_level
                &&& final(regs).overrun == old(regs).overrun
                &&& final(regs).interrupt_enable == old(regs).interrupt_enable
            },
    {
        if regs.extra_control & 0b11 != 0 {
            return None;
        }
        // Enable the receiver and clear its FIFO.
        regs.extra_control = regs.extra_control | 0b1;
        regs.rx_fifo = Vec::new();

        config.setup(regs);

        Some(Reader { rx_pin })
    }

    /// Release the receive direction by disabling the receiver; the RX
    /// pin is handed back.
    pub fn release(self, regs: &mut MiniUartRegisters) -> (pin: P)
        ensures
            final(regs).extra_control == old(regs).extra_control & !0b1,
            *final(regs) == (MiniUartRegisters {
                extra_control: final(regs).extra_control,
                ..*old(regs)
            }),
    {
        regs.extra_control = regs.extra_control & !0b1;
        self.rx_pin
    }

    /// Blocking read: fail at once on an overrun; otherwise wait for the
    /// first byte, then transfer what the FIFO holds, up to the buffer's
    /// length.  A partial read returns the count transferred.
    ///
    /// A read into a non-empty buffer on a line where no byte will ever
    /// arrive would spin forever; the contract excludes it.
    pub fn read(&mut self, regs: &mut MiniUartRegisters, buf: &mut Vec<u8>) -> (r: Result<
        usize,
        Error,
    >)
        requires
            old(regs).wf(),
            !old(regs).overrun ==> (old(buf)@.len() == 0 || old(regs).rx_fifo@.len() > 0),
        ensures
            final(regs).wf(),
            old(regs).overrun ==> r == Err::<usize, Error>(Error::Overrun) && *final(regs)
                == *old(regs) && *final(buf) == *old(buf),
            !old(regs).overrun ==> ({
                let k = min(old(buf)@.len() as int, old(regs).rx_fifo@.len() as int);
                &&& r == Ok::<usize, Error>(k as usize)
                &&& final(buf)@ == old(regs).rx_fifo@.take(k) + old(buf)@.skip(k)
                &&& final(regs).rx_fifo@ == old(regs).rx_fifo@.skip(k)
                &&& *final(regs) == (MiniUartRegisters {
                    rx_fifo: final(regs).rx_fifo,
                    ..*old(regs)
                })
            }),
    {
        if regs.overrun {
            return Err(Error::Overrun);
        }
        let n = if buf.len() < regs.rx_fifo.len() {
            buf.len()
        } else {
            regs.rx_fifo.len()
        };
        let mut i: usize = 0;
        while i < n
            invariant
                i <= n,
                n == min(old(buf)@.len() as int, old(regs).rx_fifo@.len() as int),
                buf@.len() == old(buf)@.len(),
                buf@ == old(regs).rx_fifo@.take(i as int) + old(buf)@.skip(i as int),
                regs.rx_fifo@ == old(regs).rx_fifo@.skip(i as int),
                *regs == (MiniUartRegisters { rx_fifo: regs.rx_fifo, ..*old(regs) }),
            decreases n - i,
        {
            let byte = regs.rx_fifo.remove(0);
            buf.set(i, byte);
            proof {
                assert(buf@ =~= old(regs).rx_fifo@.take(i + 1) + old(buf)@.skip(i + 1));
                assert(regs.rx_fifo@ =~= old(regs).rx_fifo@.skip(i + 1));
            }
            i = i + 1;
        }
        Ok(n)
    }

    /// Blocking read of the buffer's exact length: fail at once on an
    /// overrun, else wait for each byte in turn.  The contract demands
    /// that the bytes will arrive; with fewer the call would never
    /// return.
    pub fn read_exact(&mut self, regs: &mut MiniUartRegisters, buf: &mut Vec<u8>) -> (r: Result<
        (),
        Error,
    >)
        requires
            old(regs).wf(),
            !old(regs).overrun ==> old(regs).rx_fifo@.len() >= old(buf)@.len(),
        ensures
            final(regs).wf(),
            old(regs).overrun ==> r == Err::<(), Error>(Error::Overrun) && *final(regs)
                == *old(regs) && *final(buf) == *old(buf),
            !old(regs).overrun ==> {
                &&& r == Ok::<(), Error>(())
                &&& final(buf)@ == old(regs).rx_fifo@.take(old(buf)@.len() as int)
                &&& final(regs).rx_fifo@ == old(regs).rx_fifo@.skip(old(buf)@.len() as int)
                &&& *final(regs) == (MiniUartRegisters {
                    rx_fifo: final(regs).rx_fifo,
                    ..*old(regs)
                })
            },
    {
        if regs.overrun {
            return Err(Error::Overrun);
        }
        let n = buf.len();
        let mut i: usize = 0;
        while i < n
            invariant
                i <= n,
                n == old(buf)@.len(),
                old(regs).rx_fifo@.len() >= n,
                buf@.len() == old(buf)@.len(),
                buf@ == old(regs).rx_fifo@.take(i as int) + old(buf)@.skip(i as int),
                regs.rx_fifo@ == old(regs).rx_fifo@.skip(i as int),
                *regs == (MiniUartRegisters { rx_fifo: regs.rx_fifo, ..*old(regs) }),
            decreases n - i,
        {
            let byte = regs.rx_fifo.remove(0);
            buf.set(i, byte);
            proof {
                assert(buf@ =~= old(regs).rx_fifo@.take(i + 1) + old(buf)@.skip(i + 1));
                assert(regs.rx_fifo@ =~= old(regs).rx_fifo@.skip(i + 1));
            }
            i = i + 1;
        }
        proof {
            assert(buf@ =~= old(regs).rx_fifo@.take(n as int));
        }
        Ok(())
    }

    /// Whether a byte is available to read.
    pub fn read_ready(&self, regs: &MiniUartRegisters) -> (r: bool)
        ensures
            r == (regs.rx_fifo@.len() > 0),
    {
        regs.rx_fifo.len() > 0
    }
}

/// One poll of an asynchronous read.  The future borrows the reader and
/// the destination buffer for the duration of the poll.
pub struct ReadFut {

}

impl ReadFut {
    /// Poll: fail on an overrun; complete with what the FIFO holds when
    /// it is non-empty; otherwise store the waker, arm the receive
    /// interrupt (keeping the errata bits 2 and 3 set) and park.
    pub fn poll(
        &mut self,
        regs: &mut MiniUartRegisters,
        buf: &mut Vec<u8>,
        slot: &mut Option<u64>,
        waker: u64,
    ) -> (r: Poll<Result<usize, Error>>)
        requires
            old(regs).wf(),
        ensures
            final(regs).wf(),
            old(regs).overrun ==> r == Poll::Ready(Err::<usize, Error>(Error::Overrun))
                && *final(regs) == *old(regs) && *final(buf) == *old(buf) && *final(slot)
                == *old(slot),
            !old(regs).overrun && old(buf)@.len() == 0 ==> r == Poll::Ready(
                Ok::<usize, Error>(0),
            ) && *final(regs) == *old(regs) && *final(slot) == *old(slot),
            !old(regs).overrun && old(buf)@.len() > 0 && old(regs).rx_fifo@.len() == 0 ==> {
                &&& r is Pending
                &&& *final(slot) == Some(waker)
                &&& *final(buf) == *old(buf)
                &&& final(regs).interrupt_enable == old(regs).interrupt_enable | 0b1101
                &&& *final(regs) == (MiniUartRegisters {
                    interrupt_enable: final(regs).interrupt_enable,
                    ..*old(regs)
                })
            },
            !old(regs).overrun && old(buf)@.len() > 0 && old(regs).rx_fifo@.len() > 0 ==> ({
                let k = min(old(buf)@.len() as int, old(regs).rx_fifo@.len() as int);
                &&& r == Poll::Ready(Ok::<usize, Error>(k as usize))
                &&& final(buf)@ == old(regs).rx_fifo@.take(k) + old(buf)@.skip(k)
                &&& final(regs).rx_fifo@ == old(regs).rx_fifo@.skip(k)
                &&& *final(slot) == *old(slot)
                &&& *final(regs) == (MiniUartRegisters {
                    rx_fifo: final(regs).rx_fifo,
                    ..*old(regs)
                })
            }),
    {
        if regs.overrun {
            return Poll::Ready(Err(Error::Overrun));
        }
        if buf.len() == 0 {
            return Poll::Ready(Ok(0));
        }
        if regs.rx_fifo.len() == 0 {
            let _ = set_waker(slot, waker);
            // Bits 2 and 3 must be written as set (silicon errata); bit 0
            // arms the receive interrupt.
            regs.interrupt_enable = regs.interrupt_enable | 0b1101;
            return Poll::Pending;
        }
        let n = if buf.len() < regs.rx_fifo.len() {
            buf.len()
        } else {
            regs.rx_fifo.len()
        };
        let mut i: usize = 0;
        while i < n
            invariant
                i <= n,
                n == min(old(buf)@.len() as int, old(regs).rx_fifo@.len() as int),
                buf@.len() == old(buf)@.len(),
                buf@ == old(regs).rx_fifo@.take(i as int) + old(buf)@.skip(i as int),
                regs.rx_fifo@ == old(regs).rx_fifo@.skip(i as int),
                *regs == (MiniUartRegisters { rx_fifo: regs.rx_fifo, ..*old(regs) }),
            decreases n - i,
        {
            let byte = regs.rx_fifo.remove(0);
            buf.set(i, byte);
            proof {
                assert(buf@ =~= old(regs).rx_fifo@.take(i + 1) + old(buf)@.skip(i + 1));
                assert(regs.rx_fifo@ =~= old(regs).rx_fifo@.skip(i + 1));
            }
            i = i + 1;
        }
        Poll::Ready(Ok(n))
    }
}

/// An asynchronous read of a buffer's exact length, tracking how much of
/// it has been filled across polls.
pub struct ReadExactFut {
    /// How many bytes of the destination are already filled.
    pub filled: usize,
}

impl ReadExactFut {
    /// A fresh future with nothing filled.
    pub fn new() -> (r: ReadExactFut)
        ensures
            r.filled == 0,
    {
        ReadExactFut { filled: 0 }
    }

    /// Poll: fail on an overrun; transfer what the FIFO holds into the
    /// unfilled part of the buffer; complete when the buffer is full,
    /// else store the waker, arm the receive interrupt and park.
    pub fn poll(
        &mut self,
        regs: &mut MiniUartRegisters,
        buf: &mut Vec<u8>,
        slot: &mut Option<u64>,
        waker: u64,
    ) -> (r: Poll<Result<(), Error>>)
        requires
            old(regs).wf(),
            old(self).filled <= old(buf)@.len(),
        ensures
            final(regs).wf(),
            old(regs).overrun ==> r == Poll::Ready(Err::<(), Error>(Error::Overrun)) && *final(regs)
                == *old(regs) && *final(buf) == *old(buf) && *final(slot) == *old(slot)
                && *final(self) == *old(self),
            !old(regs).overrun ==> ({
                let k = min(
                    old(buf)@.len() - old(self).filled,
                    old(regs).rx_fifo@.len() as int,
                );
                &&& final(self).filled == old(self).filled + k
                &&& final(buf)@ == old(buf)@.take(old(self).filled as int)
                    + old(regs).rx_fifo@.take(k) + old(buf)@.skip(old(self).filled + k)
                &&& final(regs).rx_fifo@ == old(regs).rx_fifo@.skip(k)
                &&& if old(self).filled + k == old(buf)@.len() {
                    r == Poll::Ready(Ok::<(), Error>(())) && *final(slot) == *old(slot)
                        && *final(regs) == (MiniUartRegisters {
                        rx_fifo: final(regs).rx_fifo,
                        ..*old(regs)
                    })
                } else {
                    r is Pending && *final(slot) == Some(waker) && final(regs).interrupt_enable
                        == old(regs).interrupt_enable | 0b1101 && *final(regs)
                        == (MiniUartRegisters {
                        rx_fifo: final(regs).rx_fifo,
                        interrupt_enable: final(regs).interrupt_enable,
                        ..*old(regs)
                    })
                }
            }),
    {
        if regs.overrun {
            return Poll::Ready(Err(Error::Overrun));
        }
        let remaining = buf.len() - self.filled;
        let n = if remaining < regs.rx_fifo.len() {
            remaining
        } else {
            regs.rx_fifo.len()
        };
        let mut i: usize = 0;
        while i < n
            invariant
                i <= n,
                self == old(self),
                old(self).filled + n <= old(buf)@.len(),
                old(buf)@.len() <= usize::MAX,
                n == min(old(buf)@.len() - old(self).filled, old(regs).rx_fifo@.len() as int),
                buf@.len() == old(buf)@.len(),
                buf@ == old(buf)@.take(old(self).filled as int) + old(regs).rx_fifo@.take(i as int)
                    + old(buf)@.skip(old(self).filled + i),
                regs.rx_fifo@ == old(regs).rx_fifo@.skip(i as int),
                *regs == (MiniUartRegisters { rx_fifo: regs.rx_fifo, ..*old(regs) }),
            decreases n - i,
        {
            let byte = regs.rx_fifo.remove(0);
            buf.set(self.filled + i, byte);
            proof {
                assert(buf@ =~= old(buf)@.take(old(self).filled as int)
                    + old(regs).rx_fifo@.take(i + 1) + old(buf)@.skip(old(self).filled + i + 1));
                assert(regs.rx_fifo@ =~= old(regs).rx_fifo@.skip(i + 1));
            }
            i = i + 1;
        }
        self.filled = self.filled + n;
        if self.filled == buf.len() {
            Poll::Ready(Ok(()))
        } else {
            let _ = set_waker(slot, waker);
            // Bits 2 and 3 must be written as set (silicon errata); bit 0
            // arms the receive interrupt.
            regs.interrupt_enable = regs.interrupt_enable | 0b1101;
            Poll::Pending
        }
    }
}

/// The receive sub-handler of the Mini UART interrupt: mask the receive
/// source and take the reader's waker for the caller to wake.
pub fn interrupt_handler(regs: &mut MiniUartRegisters, slot: &mut Option<u64>) -> (woken: Option<
    u64,
>)
    ensures
        final(regs).interrupt_enable == old(regs).interrupt_enable & !0b1,
        *final(regs) == (MiniUartRegisters {
            interrupt_enable: final(regs).interrupt_enable,
            ..*old(regs)
        }),
        final(slot).is_none(),
        woken == *old(slot),
{
    regs.interrupt_enable = regs.interrupt_enable & !0b1;
    wake(slot)
}

} // verus!
