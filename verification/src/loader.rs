//! Wire protocol between the host-side loader and the on-device first
//! stage: the device announces readiness with a single byte, the host then
//! sends a four-byte little-endian length followed by that many payload
//! bytes.

use vstd::prelude::*;

verus! {

use crate::aux::uart::registers::MiniUartRegisters;

/// The byte the device transmits once to announce readiness, before the
/// host writes the length.
pub const READY_BYTE: u8 = 0xFF;

/// The four little-endian bytes of a 32-bit length.
pub open spec fn spec_size_bytes(n: u32) -> Seq<u8> {
    seq![
        (n & 0xFF) as u8,
        ((n >> 8) & 0xFF) as u8,
        ((n >> 16) & 0xFF) as u8,
        ((n >> 24) & 0xFF) as u8,
    ]
}

/// The 32-bit length four little-endian bytes carry.
pub open spec fn spec_size_value(bytes: Seq<u8>) -> u32
    recommends
        bytes.len() == 4,
{
    (bytes[0] as u32) | ((bytes[1] as u32) << 8) | ((bytes[2] as u32) << 16) | (
    (bytes[3] as u32) << 24)
}

/// The length encoding round-trips: decoding the four bytes of a length
/// yields the length, and re-encoding a decoded header yields the header.
pub proof fn lemma_size_round_trip(n: u32, bytes: Seq<u8>)
    requires
        bytes.len() == 4,
    ensures
        spec_size_value(spec_size_bytes(n)) == n,
        spec_size_bytes(spec_size_value(bytes)) == bytes,
{
    assert(n & 0xFF < 256 && (n >> 8) & 0xFF < 256 && (n >> 16) & 0xFF < 256 && (n >> 24) & 0xFF
        < 256) by (bit_vector);
    assert((n & 0xFF) | (((n >> 8) & 0xFF) << 8) | (((n >> 16) & 0xFF) << 16) | (((n >> 24)
        & 0xFF) << 24) == n) by (bit_vector);
    let b0 = bytes[0] as u32;
    let b1 = bytes[1] as u32;
    let b2 = bytes[2] as u32;
    let b3 = bytes[3] as u32;
    assert(b0 < 256 && b1 < 256 && b2 < 256 && b3 < 256);
    assert((b0 | (b1 << 8) | (b2 << 16) | (b3 << 24)) & 0xFF == b0) by (bit_vector)
        requires
            b0 < 256 && b1 < 256 && b2 < 256 && b3 < 256,
    ;
    assert(((b0 | (b1 << 8) | (b2 << 16) | (b3 << 24)) >> 8) & 0xFF == b1) by (bit_vector)
        requires
            b0 < 256 && b1 < 256 && b2 < 256 && b3 < 256,
    ;
    assert(((b0 | (b1 << 8) | (b2 << 16) | (b3 << 24)) >> 16) & 0xFF == b2) by (bit_vector)
        requires
            b0 < 256 && b1 < 256 && b2 < 256 && b3 < 256,
    ;
    assert(((b0 | (b1 << 8) | (b2 << 16) | (b3 << 24)) >> 24) & 0xFF == b3) by (bit_vector)
        requires
            b0 < 256 && b1 < 256 && b2 < 256 && b3 < 256,
    ;
    assert(spec_size_bytes(spec_size_value(bytes)) =~= bytes);
}

/// The frame the host sends for a payload: four length bytes, then the
/// payload itself.
pub open spec fn spec_frame(payload: Seq<u8>) -> Seq<u8>
    recommends
        payload.len() < 0x1_0000_0000,
{
    spec_size_bytes(payload.len() as u32) + payload
}

/// What the device's first stage copies to the load address, given the
/// byte stream it receives: the payload of the leading frame, or nothing
/// if the stream ends before the frame does (the device would still be
/// waiting for more bytes).
pub open spec fn spec_receive(input: Seq<u8>) -> Option<Seq<u8>> {
    if input.len() < 4 {
        None
    } else {
        let size = spec_size_value(input.take(4)) as int;
        if input.len() < 4 + size {
            None
        } else {
            Some(input.subrange(4, 4 + size))
        }
    }
}

/// Build the frame for a payload: its length as four little-endian bytes,
/// then the payload bytes in order.
pub fn frame(payload: &Vec<u8>) -> (r: Vec<u8>)
    requires
        payload@.len() < 0x1_0000_0000,
    ensures
        r@ == spec_frame(payload@),
        r@.len() == 4 + payload@.len(),
{
    let n = payload.len() as u32;
    let mut r: Vec<u8> = Vec::new();
    r.push((n & 0xFF) as u8);
    r.push(((n >> 8) & 0xFF) as u8);
    r.push(((n >> 16) & 0xFF) as u8);
    r.push(((n >> 24) & 0xFF) as u8);
    proof {
        assert(r@ =~= spec_size_bytes(n));
    }
    let mut i: usize = 0;
    while i < payload.len()
        invariant
            i <= payload@.len(),
            payload@.len() < 0x1_0000_0000,
            n == payload@.len() as u32,
            r@ == spec_size_bytes(n) + payload@.take(i as int),
        decreases payload@.len() - i,
    {
        r.push(payload[i]);
        i = i + 1;
        proof {
            assert(payload@.take(i as int) == payload@.take(i - 1).push(payload@[i - 1]));
        }
    }
    proof {
        assert(payload@.take(payload@.len() as int) == payload@);
    }
    r
}

/// Decode a four-byte little-endian length.
pub fn parse_size(bytes: &[u8]) -> (n: u32)
    requires
        bytes@.len() == 4,
    ensures
        n == spec_size_value(bytes@),
{
    (bytes[0] as u32) | ((bytes[1] as u32) << 8) | ((bytes[2] as u32) << 16) | (
    (bytes[3] as u32) << 24)
}

/// The device side of the handshake: consume the length, then exactly that
/// many payload bytes.  Returns the payload in the order it arrived, or
/// `None` when the stream is shorter than the frame it announces (the
/// device would block waiting for the rest).
pub fn receive_frame(input: &Vec<u8>) -> (r: Option<Vec<u8>>)
    ensures
        match r {
            Some(payload) => spec_receive(input@) == Some(payload@),
            None => spec_receive(input@) is None,
        },
{
    if input.len() < 4 {
        return None;
    }
    let header = slice_take_four(input);
    let size = parse_size(header.as_slice()) as usize;
    if input.len() - 4 < size {
        return None;
    }
    let mut payload: Vec<u8> = Vec::new();
    let mut i: usize = 0;
    while i < size
        invariant
            i <= size,
            size + 4 <= input@.len(),
            size + 4 <= usize::MAX,
            payload@ == input@.subrange(4, 4 + i as int),
        decreases size - i,
    {
        payload.push(input[4 + i]);
        i = i + 1;
        proof {
            assert(input@.subrange(4, 4 + i as int)
                == input@.subrange(4, 4 + (i - 1) as int).push(input@[4 + (i - 1)]));
        }
    }
    proof {
        assert(input@.take(4) == header@);
    }
    Some(payload)
}

/// The device's first stage of the handshake, over the Mini UART:
/// transmit the ready byte exactly once, then — and only then — read the
/// frame the host answers with.  The transmit stream gains nothing but
/// the one ready byte, and exactly the leading frame leaves the receive
/// queue; its payload is returned in arrival order for the caller to
/// copy to the load address.
///
/// The stage blocks until the whole frame has arrived, so the contract
/// demands a receive queue that holds one.
pub fn first_stage(regs: &mut MiniUartRegisters) -> (payload: Vec<u8>)
    requires
        old(regs).wf(),
        spec_receive(old(regs).rx_fifo@) is Some,
    ensures
        final(regs).wf(),
        final(regs).tx_sent@ == old(regs).tx_sent@.push(READY_BYTE),
        Some(payload@) == spec_receive(old(regs).rx_fifo@),
        final(regs).rx_fifo@ == old(regs).rx_fifo@.skip(4 + payload@.len() as int),
        final(regs).tx_fifo_level == 0,
        *final(regs) == (MiniUartRegisters {
            tx_sent: final(regs).tx_sent,
            tx_fifo_level: 0,
            rx_fifo: final(regs).rx_fifo,
            ..*old(regs)
        }),
{
    // Announce readiness: one byte, before any read.  The blocking send
    // leaves the transmit FIFO drained.
    regs.tx_sent.push(READY_BYTE);
    regs.tx_fifo_level = 0;

    // Read the four length bytes.
    let ghost rx0 = regs.rx_fifo@;
    let b0 = regs.rx_fifo.remove(0);
    let b1 = regs.rx_fifo.remove(0);
    let b2 = regs.rx_fifo.remove(0);
    let b3 = regs.rx_fifo.remove(0);
    let size = ((b0 as u32) | ((b1 as u32) << 8) | ((b2 as u32) << 16) | ((b3 as u32) << 24))
        as usize;
    proof {
        assert(rx0.take(4) =~= seq![b0, b1, b2, b3]);
        assert(regs.rx_fifo@ =~= rx0.skip(4));
    }

    // Read exactly the announced number of payload bytes.
    let mut payload: Vec<u8> = Vec::new();
    let mut i: usize = 0;
    while i < size
        invariant
            i <= size,
            size == spec_size_value(rx0.take(4)),
            rx0.len() >= 4 + size,
            payload@ == rx0.subrange(4, 4 + i as int),
            regs.rx_fifo@ == rx0.skip(4 + i),
            regs.tx_sent@ == old(regs).tx_sent@.push(READY_BYTE),
            *regs == (MiniUartRegisters {
                rx_fifo: regs.rx_fifo,
                tx_sent: regs.tx_sent,
                tx_fifo_level: 0,
                ..*old(regs)
            }),
        decreases size - i,
    {
        let byte = regs.rx_fifo.remove(0);
        payload.push(byte);
        proof {
            assert(rx0.skip(4 + i)[0] == rx0[4 + i]);
            assert(payload@ =~= rx0.subrange(4, 4 + (i + 1)));
            assert(regs.rx_fifo@ =~= rx0.skip(4 + (i + 1)));
        }
        i = i + 1;
    }
    payload
}

/// The first four bytes of a vector.
fn slice_take_four(input: &Vec<u8>) -> (r: Vec<u8>)
    requires
        input@.len() >= 4,
    ensures
        r@ == input@.take(4),
{
    let mut r: Vec<u8> = Vec::new();
    r.push(input[0]);
    r.push(input[1]);
    r.push(input[2]);
    r.push(input[3]);
    proof {
        assert(r@ =~= input@.take(4));
    }
    r
}

/// Framing round trip: a device fed exactly the frame the host builds for
/// a payload recovers that payload, byte for byte.
pub proof fn lemma_frame_round_trip(payload: Seq<u8>)
    requires
        payload.len() < 0x1_0000_0000,
    ensures
        spec_receive(spec_frame(payload)) == Some(payload),
{
    let input = spec_frame(payload);
    lemma_size_round_trip(payload.len() as u32, input.take(4));
    assert(input.take(4) =~= spec_size_bytes(payload.len() as u32));
    assert(input.subrange(4, 4 + payload.len() as int) =~= payload);
}

} // verus!
