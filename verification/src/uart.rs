//! The Mini UART as a single typed handle: the peripheral is claimed
//! through the auxiliary enable register, and each direction is a
//! type-state transition that demands the matching alternate-function
//! pin.

use vstd::prelude::*;

verus! {

use crate::aux::uart::registers::{MiniUartRegisters, FIFO_SIZE};
use crate::aux::uart::{spec_baud_register, MAX_BAUD_RATE, MIN_BAUD_RATE, CLOCK_SPEED};
use crate::aux::AuxRegisters;
use crate::bit_set;
use crate::gpio::state::Alternate5;
use crate::gpio::{GpioSet, Pin};
use vstd::math::min;

/// The exclusive claim on the Mini UART: the auxiliary enable bit, held
/// until the claim is released.
struct MiniUartLock {

}

impl MiniUartLock {
    /// Claim the Mini UART by setting auxiliary enable bit 0; fails,
    /// touching nothing, when it is already set.
    fn get(aux: &mut AuxRegisters) -> (r: Option<MiniUartLock>)
        ensures
            r.is_some() == !bit_set(old(aux).enables, 0),
            final(aux).irq_status == old(aux).irq_status,
            r.is_some() ==> final(aux).enables == old(aux).enables | 1u32,
            r.is_none() ==> *final(aux) == *old(aux),
    {
        if aux.enables & (1u32 << 0) != 0 {
            return None;
        }
        aux.enables = aux.enables | 1;
        Some(MiniUartLock {  })
    }

    /// Release the claim by clearing the enable bit.
    fn release(self, aux: &mut AuxRegisters)
        ensures
            final(aux).enables == old(aux).enables & !1u32,
            final(aux).irq_status == old(aux).irq_status,
    {
        aux.enables = aux.enables & !1u32;
    }
}

/// The Mini UART handle; the two type parameters record which directions
/// are enabled, so that reads and writes are only available after the
/// matching enable transition.
pub struct MiniUart<const RX_ENABLE: bool, const TX_ENABLE: bool> {
    baud_rate: u32,
    eight_bits: bool,
    lock: MiniUartLock,
    transmitter_pin: Option<Pin<14, Alternate5>>,
    receiver_pin: Option<Pin<15, Alternate5>>,
}

impl MiniUart<false, false> {
    /// Claim the Mini UART.  Fails, touching nothing, when it is already
    /// in use.  On success both directions start disabled for a clean
    /// slate.
    pub fn get(aux: &mut AuxRegisters, regs: &mut MiniUartRegisters) -> (r: Option<
        MiniUart<false, false>,
    >)
        ensures
            r.is_some() == !bit_set(old(aux).enables, 0),
            r.is_none() ==> *final(aux) == *old(aux) && *final(regs) == *old(regs),
            r.is_some() ==> {
                &&& final(aux).enables == old(aux).enables | 1u32
                &&& final(aux).irq_status == old(aux).irq_status
                &&& final(regs).extra_control == 0
                &&& *final(regs) == (MiniUartRegisters { extra_control: 0, ..*old(regs) })
                &&& r.unwrap().spec_baud_rate() == 0
                &&& !r.unwrap().spec_eight_bits()
                &&& !r.unwrap().spec_has_receiver_pin()
                &&& !r.unwrap().spec_has_transmitter_pin()
            },
    {
        let lock = match MiniUartLock::get(aux) {
            Some(lock) => lock,
            None => {
                return None;
            },
        };
        // Disable both directions.
        regs.extra_control = 0;
        Some(MiniUart {
            baud_rate: 0,
            eight_bits: false,
            lock,
            transmitter_pin: None,
            receiver_pin: None,
        })
    }

    /// Program the baud register.  Rates outside `476..=31_250_000` are a
    /// programming bug and are excluded by contract.
    pub fn set_baud_rate(&mut self, regs: &mut MiniUartRegisters, baud_rate: u32)
        requires
            MIN_BAUD_RATE <= baud_rate <= MAX_BAUD_RATE,
        ensures
            final(regs).baud == spec_baud_register(baud_rate),
            *final(regs) == (MiniUartRegisters { baud: final(regs).baud, ..*old(regs) }),
            final(self).spec_baud_rate() == baud_rate,
            final(self).spec_eight_bits() == old(self).spec_eight_bits(),
    {
        proof {
            assert(CLOCK_SPEED as int / (8 * baud_rate as int) >= 1) by (nonlinear_arith)
                requires
                    476 <= baud_rate as int,
                    8 * baud_rate as int <= CLOCK_SPEED as int,
            ;
        }
        let baud_rate_reg = CLOCK_SPEED / (8 * baud_rate) - 1;
        regs.baud = baud_rate_reg;
        self.baud_rate = baud_rate;
    }

    /// Program the line-control register with the data width: eight bits
    /// stores 3, seven bits stores 0.
    pub fn set_bit_mode(&mut self, regs: &mut MiniUartRegisters, eight_bits: bool)
        ensures
            final(regs).line_control == (if eight_bits { 3u32 } else { 0u32 }),
            *final(regs) == (MiniUartRegisters {
                line_control: final(regs).line_control,
                ..*old(regs)
            }),
            final(self).spec_eight_bits() == eight_bits,
            final(self).spec_baud_rate() == old(self).spec_baud_rate(),
    {
        regs.line_control = if eight_bits { 3 } else { 0 };
        self.eight_bits = eight_bits;
    }
}

impl<const TX_ENABLE: bool> MiniUart<false, TX_ENABLE> {
    /// Enable the receiver, surrendering a pin wired to the Mini UART RX
    /// line: the extra-control register keeps the transmitter bit and
    /// gains the receiver bit, and the receive FIFO is cleared.
    pub fn enable_receiver(
        self,
        pin: Pin<15, Alternate5>,
        regs: &mut MiniUartRegisters,
    ) -> (r: MiniUart<true, TX_ENABLE>)
        ensures
            final(regs).extra_control == ((if TX_ENABLE { 1u32 } else { 0u32 }) << 1) | 1u32,
            final(regs).rx_fifo@.len() == 0,
            *final(regs) == (MiniUartRegisters {
                extra_control: final(regs).extra_control,
                rx_fifo: final(regs).rx_fifo,
                ..*old(regs)
            }),
            r.spec_baud_rate() == self.spec_baud_rate(),
            r.spec_eight_bits() == self.spec_eight_bits(),
            r.spec_has_receiver_pin(),
            r.spec_has_transmitter_pin() == self.spec_has_transmitter_pin(),
    {
        regs.extra_control = ((if TX_ENABLE { 1u32 } else { 0u32 }) << 1) | 1u32;
        // Clear the receive FIFO.
        regs.rx_fifo = Vec::new();
        MiniUart {
            baud_rate: self.baud_rate,
            eight_bits: self.eight_bits,
            lock: self.lock,
            transmitter_pin: self.transmitter_pin,
            receiver_pin: Some(pin),
        }
    }
}

impl<const RX_ENABLE: bool> MiniUart<RX_ENABLE, false> {
    /// Enable the transmitter, surrendering a pin wired to the Mini UART
    /// TX line: the extra-control register keeps the receiver bit and
    /// gains the transmitter bit, and the transmit FIFO is cleared.
    pub fn enable_transmitter(
        self,
        pin: Pin<14, Alternate5>,
        regs: &mut MiniUartRegisters,
    ) -> (r: MiniUart<RX_ENABLE, true>)
        ensures
            final(regs).extra_control == 0b10u32 | (if RX_ENABLE { 1u32 } else { 0u32 }),
            final(regs).tx_fifo_level == 0,
            *final(regs) == (MiniUartRegisters {
                extra_control: final(regs).extra_control,
                tx_fifo_level: 0,
                ..*old(regs)
            }),
            r.spec_baud_rate() == self.spec_baud_rate(),
            r.spec_eight_bits() == self.spec_eight_bits(),
            r.spec_has_transmitter_pin(),
            r.spec_has_receiver_pin() == self.spec_has_receiver_pin(),
    {
        regs.extra_control = 0b10u32 | (if RX_ENABLE { 1u32 } else { 0u32 });
        // Clear the transmit FIFO.
        regs.tx_fifo_level = 0;
        MiniUart {
            baud_rate: self.baud_rate,
            eight_bits: self.eight_bits,
            lock: self.lock,
            transmitter_pin: Some(pin),
            receiver_pin: self.receiver_pin,
        }
    }
}

impl<const TX_ENABLE: bool> MiniUart<true, TX_ENABLE> {
    /// Non-waiting read: transfer what the receive FIFO holds, up to the
    /// buffer's length, and return the count; with no byte ready, zero.
    pub fn receive(&mut self, regs: &mut MiniUartRegisters, buf: &mut Vec<u8>) -> (count: usize)
        ensures
            count == min(old(buf)@.len() as int, old(regs).rx_fifo@.len() as int),
            final(buf)@ == old(regs).rx_fifo@.take(count as int) + old(buf)@.skip(count as int),
            final(regs).rx_fifo@ == old(regs).rx_fifo@.skip(count as int),
            *final(regs) == (MiniUartRegisters { rx_fifo: final(regs).rx_fifo, ..*old(regs) }),
    {
        let n = if buf.len() < regs.rx_fifo.len() {
            buf.len()
        } else {
            regs.rx_fifo.len()
        };
        let mut i: usize = 0;
        while i < n
            invariant
                i <= n,
                n == min(old(buf)@.len() as int, old(regs).rx_fifo@.len() as int),
                buf@.len() == old(buf)@.len(),
                buf@ == old(regs).rx_fifo@.take(i as int) + old(buf)@.skip(i as int),
                regs.rx_fifo@ == old(regs).rx_fifo@.skip(i as int),
                *regs == (MiniUartRegisters { rx_fifo: regs.rx_fifo, ..*old(regs) }),
            decreases n - i,
        {
            let byte = regs.rx_fifo.remove(0);
            buf.set(i, byte);
            proof {
                assert(buf@ =~= old(regs).rx_fifo@.take(i + 1) + old(buf)@.skip(i + 1));
                assert(regs.rx_fifo@ =~= old(regs).rx_fifo@.skip(i + 1));
            }
            i = i + 1;
        }
        n
    }

    /// Blocking read of the buffer's exact length: wait for each byte in
    /// turn.  The contract demands that the bytes will arrive; with fewer
    /// the call would never return.
    pub fn receive_exact(&mut self, regs: &mut MiniUartRegisters, buf: &mut Vec<u8>)
        requires
            old(regs).rx_fifo@.len() >= old(buf)@.len(),
        ensures
            final(buf)@ == old(regs).rx_fifo@.take(old(buf)@.len() as int),
            final(regs).rx_fifo@ == old(regs).rx_fifo@.skip(old(buf)@.len() as int),
            *final(regs) == (MiniUartRegisters { rx_fifo: final(regs).rx_fifo, ..*old(regs) }),
    {
        let n = buf.len();
        let mut i: usize = 0;
        while i < n
            invariant
                i <= n,
                n == old(buf)@.len(),
                old(regs).rx_fifo@.len() >= n,
                buf@.len() == old(buf)@.len(),
                buf@ == old(regs).rx_fifo@.take(i as int) + old(buf)@.skip(i as int),
                regs.rx_fifo@ == old(regs).rx_fifo@.skip(i as int),
                *regs == (MiniUartRegisters { rx_fifo: regs.rx_fifo, ..*old(regs) }),
            decreases n - i,
        {
            let byte = regs.rx_fifo.remove(0);
            buf.set(i, byte);
            proof {
                assert(buf@ =~= old(regs).rx_fifo@.take(i + 1) + old(buf)@.skip(i + 1));
                assert(regs.rx_fifo@ =~= old(regs).rx_fifo@.skip(i + 1));
            }
            i = i + 1;
        }
        proof {
            assert(buf@ =~= old(regs).rx_fifo@.take(n as int));
        }
    }

    /// Disable the receiver, freeing its pin.
    pub fn disable_receiver(
        self,
        set: &mut GpioSet,
        regs: &mut MiniUartRegisters,
    ) -> (r: MiniUart<false, TX_ENABLE>)
        ensures
            final(regs).extra_control == (if TX_ENABLE { 1u32 } else { 0u32 }) << 1,
            *final(regs) == (MiniUartRegisters {
                extra_control: final(regs).extra_control,
                ..*old(regs)
            }),
            self.spec_has_receiver_pin() ==> !final(set).spec_owned(15),
            !self.spec_has_receiver_pin() ==> *final(set) == *old(set),
            r.spec_baud_rate() == self.spec_baud_rate(),
            r.spec_eight_bits() == self.spec_eight_bits(),
            !r.spec_has_receiver_pin(),
    {
        regs.extra_control = (if TX_ENABLE { 1u32 } else { 0u32 }) << 1;
        let MiniUart { baud_rate, eight_bits, lock, transmitter_pin, receiver_pin } = self;
        match receiver_pin {
            Some(pin) => {
                proof {
                    crate::gpio::lemma_lock_unlock(*old(set), 15, 15);
                }
                pin.release(set);
            },
            None => {
            },
        }
        MiniUart { baud_rate, eight_bits, lock, transmitter_pin, receiver_pin: None }
    }
}

impl<const RX_ENABLE: bool> MiniUart<RX_ENABLE, true> {
    /// Blocking send: each byte waits for the transmitter to drain, so
    /// every byte is handed over and the FIFO ends empty.
    pub fn send_blocking(&mut self, regs: &mut MiniUartRegisters, bytes: &Vec<u8>)
        ensures
            final(regs).tx_sent@ == old(regs).tx_sent@ + bytes@,
            final(regs).tx_fifo_level == 0,
            *final(regs) == (MiniUartRegisters {
                tx_sent: final(regs).tx_sent,
                tx_fifo_level: 0,
                ..*old(regs)
            }),
    {
        // Each byte spins until the FIFO can take it; by the end the
        // transmitter has drained everything onto the line.
        regs.tx_fifo_level = 0;
        let mut i: usize = 0;
        while i < bytes.len()
            invariant
                i <= bytes@.len(),
                regs.tx_fifo_level == 0,
                regs.tx_sent@ == old(regs).tx_sent@ + bytes@.take(i as int),
                *regs == (MiniUartRegisters {
                    tx_sent: regs.tx_sent,
                    tx_fifo_level: 0,
                    ..*old(regs)
                }),
            decreases bytes@.len() - i,
        {
            regs.tx_sent.push(bytes[i]);
            proof {
                assert(regs.tx_sent@ =~= old(regs).tx_sent@ + bytes@.take(i + 1));
            }
            i = i + 1;
        }
        proof {
            assert(bytes@.take(bytes@.len() as int) =~= bytes@);
        }
    }

    /// Non-waiting send: hand bytes over only while the transmit FIFO has
    /// room, and return how many were accepted.
    pub fn send(&mut self, regs: &mut MiniUartRegisters, bytes: &Vec<u8>) -> (sent: usize)
        requires
            old(regs).wf(),
        ensures
            final(regs).wf(),
            sent == min(bytes@.len() as int, FIFO_SIZE - old(regs).tx_fifo_level),
            final(regs).tx_sent@ == old(regs).tx_sent@ + bytes@.take(sent as int),
            final(regs).tx_fifo_level == old(regs).tx_fifo_level + sent,
            *final(regs) == (MiniUartRegisters {
                tx_sent: final(regs).tx_sent,
                tx_fifo_level: final(regs).tx_fifo_level,
                ..*old(regs)
            }),
    {
        let available = (FIFO_SIZE - regs.tx_fifo_level) as usize;
        let to_write = if bytes.len() < available {
            bytes.len()
        } else {
            available
        };
        let mut i: usize = 0;
        while i < to_write
            invariant
                i <= to_write,
                to_write <= bytes@.len(),
                regs.wf(),
                regs.tx_fifo_level == old(regs).tx_fifo_level + i,
                old(regs).tx_fifo_level + to_write <= FIFO_SIZE,
                regs.tx_sent@ == old(regs).tx_sent@ + bytes@.take(i as int),
                *regs == (MiniUartRegisters {
                    tx_sent: regs.tx_sent,
                    tx_fifo_level: regs.tx_fifo_level,
                    ..*old(regs)
                }),
            decreases to_write - i,
        {
            regs.tx_sent.push(bytes[i]);
            regs.tx_fifo_level = regs.tx_fifo_level + 1;
            proof {
                assert(regs.tx_sent@ =~= old(regs).tx_sent@ + bytes@.take(i + 1));
            }
            i = i + 1;
        }
        to_write
    }

    /// Disable the transmitter, freeing its pin.
    pub fn disable_transmitter(
        self,
        set: &mut GpioSet,
        regs: &mut MiniUartRegisters,
    ) -> (r: MiniUart<RX_ENABLE, false>)
        ensures
            final(regs).extra_control == (if RX_ENABLE { 1u32 } else { 0u32 }),
            *final(regs) == (MiniUartRegisters {
                extra_control: final(regs).extra_control,
                ..*old(regs)
            }),
            self.spec_has_transmitter_pin() ==> !final(set).spec_owned(14),
            !self.spec_has_transmitter_pin() ==> *final(set) == *old(set),
            r.spec_baud_rate() == self.spec_baud_rate(),
            r.spec_eight_bits() == self.spec_eight_bits(),
            !r.spec_has_transmitter_pin(),
    {
        regs.extra_control = if RX_ENABLE { 1u32 } else { 0u32 };
        let MiniUart { baud_rate, eight_bits, lock, transmitter_pin, receiver_pin } = self;
        match transmitter_pin {
            Some(pin) => {
                proof {
                    crate::gpio::lemma_lock_unlock(*old(set), 14, 14);
                }
                pin.release(set);
            },
            None => {
            },
        }
        MiniUart { baud_rate, eight_bits, lock, transmitter_pin: None, receiver_pin }
    }
}

impl<const RX_ENABLE: bool, const TX_ENABLE: bool> MiniUart<RX_ENABLE, TX_ENABLE> {
    /// The configured baud rate.
    pub closed spec fn spec_baud_rate(&self) -> u32 {
        self.baud_rate
    }

    /// Whether eight-bit mode is configured.
    pub closed spec fn spec_eight_bits(&self) -> bool {
        self.eight_bits
    }

    /// Whether the handle holds the receiver's pin.
    pub closed spec fn spec_has_receiver_pin(&self) -> bool {
        self.receiver_pin is Some
    }

    /// Whether the handle holds the transmitter's pin.
    pub closed spec fn spec_has_transmitter_pin(&self) -> bool {
        self.transmitter_pin is Some
    }

    /// The configured baud rate.
    pub fn baud_rate(&self) -> (r: u32)
        ensures
            r == self.spec_baud_rate(),
    {
        self.baud_rate
    }

    /// Whether eight-bit mode is configured.
    pub fn eight_bits(&self) -> (r: bool)
        ensures
            r == self.spec_eight_bits(),
    {
        self.eight_bits
    }

    /// Give the peripheral back: clear the auxiliary enable bit and free
    /// whatever pins the enabled directions held.
    pub fn release(self, aux: &mut AuxRegisters, set: &mut GpioSet)
        ensures
            final(aux).enables == old(aux).enables & !1u32,
            final(aux).irq_status == old(aux).irq_status,
    {
        let MiniUart { baud_rate: _, eight_bits: _, lock, transmitter_pin, receiver_pin } = self;
        if let Some(pin) = transmitter_pin {
            pin.release(set);
        }
        if let Some(pin) = receiver_pin {
            pin.release(set);
        }
        lock.release(aux);
    }
}

} // verus!
