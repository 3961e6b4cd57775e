//! The auxiliary SPI master (SPI1) in variable mode.
//!
//! Each FIFO entry is 32 bits: the upper eight bits carry the shift count
//! in bits, the lower 24 the payload.  Byte streams are packed in chunks
//! of three; a trailing short chunk encodes a short shift count.  Writing
//! the last entry of a burst through the IO register completes it and
//! releases chip select; earlier entries go through TXHOLD to keep it
//! asserted.

use vstd::prelude::*;

pub mod mode;

verus! {

use crate::aux::AuxRegisters;
use crate::gpio::state::Alternate4;
use crate::gpio::Pin;
use crate::{bit_set, set_waker, wake, Poll};

/// Clock idle polarity.
#[derive(Clone, Copy, Debug, PartialEq, Eq, Structural)]
pub enum Polarity {
    /// The clock rests low between bursts.
    IdleLow,
    /// The clock rests high between bursts.
    IdleHigh,
}

/// A validated speed field: the clock divider stored in the upper bits of
/// the first control register.
#[derive(Clone, Copy, Debug, PartialEq, Eq, Structural)]
pub struct Speed(u32);

impl Speed {
    /// The divider value.
    pub closed spec fn spec_value(&self) -> u32 {
        self.0
    }

    /// Validate a divider; it must fit the register's twelve-bit field.
    pub fn new(speed: u32) -> (r: Speed)
        requires
            speed < 4096,
        ensures
            r.spec_value() == speed,
            r.spec_value() < 4096,
    {
        Speed(speed)
    }

    /// The divider value.
    pub fn value(&self) -> (r: u32)
        ensures
            r == self.spec_value(),
    {
        self.0
    }
}

/// How long the data-out line holds its level past the clock edge.
#[derive(Clone, Copy, Debug, PartialEq, Eq, Structural)]
pub enum DataOutHold {
    /// No extra hold time.
    H0,
    /// One system-clock cycle.
    H1,
    /// Four system-clock cycles.
    H4,
    /// Seven system-clock cycles.
    H7,
}

impl DataOutHold {
    /// The two-bit field the control register stores.
    pub open spec fn spec_value(&self) -> u32 {
        match self {
            DataOutHold::H0 => 0,
            DataOutHold::H1 => 1,
            DataOutHold::H4 => 2,
            DataOutHold::H7 => 3,
        }
    }

    /// The two-bit field the control register stores.
    pub fn value(&self) -> (r: u32)
        ensures
            r == self.spec_value(),
            r < 4,
    {
        match self {
            DataOutHold::H0 => 0,
            DataOutHold::H1 => 1,
            DataOutHold::H4 => 2,
            DataOutHold::H7 => 3,
        }
    }
}

/// Extra cycles chip select stays high between bursts: a three-bit field
/// of the second control register.
#[derive(Clone, Copy, Debug, PartialEq, Eq, Structural)]
pub struct CsHighTime(u8);

impl CsHighTime {
    /// The field value.
    pub closed spec fn spec_value(&self) -> u8 {
        self.0
    }

    /// Validate a chip-select high time; it must fit three bits.
    pub fn new(time: u8) -> (r: CsHighTime)
        requires
            time < 8,
        ensures
            r.spec_value() == time,
            r.spec_value() < 8,
    {
        CsHighTime(time)
    }

    /// The field value.
    pub fn value(&self) -> (r: u8)
        ensures
            r == self.spec_value(),
    {
        self.0
    }
}

/// The full configuration of the SPI master.
pub struct Config {
    /// The clock divider.
    pub speed: Speed,
    /// Post-input mode: sample after the clock edge.
    pub post_input: bool,
    /// Data-out hold time.
    pub data_out_hold: DataOutHold,
    /// Sample incoming data on the rising clock edge.
    pub in_rising: bool,
    /// Shift outgoing data on the rising clock edge.
    pub out_rising: bool,
    /// Shift outgoing data most-significant bit first.
    pub out_most_significant_first: bool,
    /// Assemble incoming data most-significant bit first.
    pub in_most_significant_first: bool,
    /// Extra chip-select high time.
    pub extra_cs_high_time: CsHighTime,
    /// Keep the input shift register's content between bursts.
    pub keep_input: bool,
    /// Clock idle polarity.
    pub polarity: Polarity,
}

/// The first control register for a configuration: speed in bits 20..32,
/// post-input at 16, variable mode at 14, hold time at 12..14, enable at
/// 11, clock phases at 10 and 8, polarity at 7, and bit order at 6.
pub open spec fn spec_control0(config: Config) -> u32 {
    (config.speed.spec_value() << 20) | ((if config.post_input { 1u32 } else { 0u32 }) << 16) | (
    1u32 << 14) | (config.data_out_hold.spec_value() << 12) | (1u32 << 11) | ((if config.in_rising {
        1u32
    } else {
        0u32
    }) << 10) | ((if config.out_rising { 1u32 } else { 0u32 }) << 8) | ((if config.polarity
        == Polarity::IdleHigh {
        1u32
    } else {
        0u32
    }) << 7) | ((if config.out_most_significant_first { 1u32 } else { 0u32 }) << 6)
}

/// The second control register for a configuration: chip-select high time
/// in bits 8..11, input bit order at 1, keep-input at 0; the interrupt
/// enables (bits 6 and 7) start cleared.
pub open spec fn spec_control1(config: Config) -> u32 {
    ((config.extra_cs_high_time.spec_value() as u32) << 8) | ((if config.in_most_significant_first {
        1u32
    } else {
        0u32
    }) << 1) | (if config.keep_input { 1u32 } else { 0u32 })
}

/// The observable state of the SPI block: control registers, the entry
/// FIFOs, and the wire.
pub struct SpiRegisters {
    /// The first control register.
    pub control0: u32,
    /// The second control register; bit 6 arms the DONE interrupt, bit 7
    /// the TX-empty interrupt.
    pub control1: u32,
    /// Entries queued to shift out, front first; the hardware FIFO holds
    /// at most four.
    pub tx_fifo: Vec<u32>,
    /// Entries shifted in and not yet read.
    pub rx_fifo: Vec<u32>,
    /// The entries the remote device will answer with, front next: what
    /// the wire carries in while each queued entry shifts out.
    pub incoming: Vec<u32>,
    /// Every entry that has finished shifting out, in order.
    pub shifted_out: Vec<u32>,
    /// Whether a burst is in flight.
    pub busy: bool,
}

/// Capacity of each entry FIFO.
pub const SPI_FIFO_DEPTH: usize = 4;

impl SpiRegisters {
    /// The FIFOs never exceed their hardware depth.
    pub open spec fn wf(&self) -> bool {
        &&& self.tx_fifo@.len() <= SPI_FIFO_DEPTH
        &&& self.rx_fifo@.len() <= SPI_FIFO_DEPTH
    }

    /// The reset state, with a quiet wire.
    pub fn new() -> (r: SpiRegisters)
        ensures
            r.wf(),
            r.control0 == 0,
            r.control1 == 0,
            r.tx_fifo@.len() == 0,
            r.rx_fifo@.len() == 0,
            r.incoming@.len() == 0,
            r.shifted_out@.len() == 0,
            !r.busy,
    {
        SpiRegisters {
            control0: 0,
            control1: 0,
            tx_fifo: Vec::new(),
            rx_fifo: Vec::new(),
            incoming: Vec::new(),
            shifted_out: Vec::new(),
            busy: false,
        }
    }
}

/// The payload bits of a FIFO entry for up to three bytes: each byte in
/// its lane of the low 24 bits, ordered by the shift direction.
pub open spec fn spec_entry_payload(bytes: Seq<u8>, msb_first: bool) -> u32
    recommends
        bytes.len() <= 3,
{
    if bytes.len() == 0 {
        0u32
    } else if bytes.len() == 1 {
        bytes[0] as u32
    } else if bytes.len() == 2 {
        if msb_first {
            (bytes[1] as u32) | ((bytes[0] as u32) << 8)
        } else {
            (bytes[0] as u32) | ((bytes[1] as u32) << 8)
        }
    } else {
        if msb_first {
            (bytes[2] as u32) | ((bytes[1] as u32) << 8) | ((bytes[0] as u32) << 16)
        } else {
            (bytes[0] as u32) | ((bytes[1] as u32) << 8) | ((bytes[2] as u32) << 16)
        }
    }
}

/// A whole FIFO entry: the payload below, the shift count in bits in the
/// upper eight bits.
pub open spec fn spec_entry(bytes: Seq<u8>, msb_first: bool) -> u32
    recommends
        bytes.len() <= 3,
{
    spec_entry_payload(bytes, msb_first) | (((bytes.len() * 8) as u32) << 24)
}

/// The bytes a received entry decodes to, inverting the payload packing.
pub open spec fn spec_decode(len: int, entry: u32, msb_first: bool) -> Seq<u8>
    recommends
        0 <= len <= 3,
{
    if len <= 0 {
        seq![]
    } else if len == 1 {
        seq![(entry & 0xFF) as u8]
    } else if len == 2 {
        if msb_first {
            seq![((entry >> 8) & 0xFF) as u8, (entry & 0xFF) as u8]
        } else {
            seq![(entry & 0xFF) as u8, ((entry >> 8) & 0xFF) as u8]
        }
    } else {
        if msb_first {
            seq![
                ((entry >> 16) & 0xFF) as u8,
                ((entry >> 8) & 0xFF) as u8,
                (entry & 0xFF) as u8,
            ]
        } else {
            seq![
                (entry & 0xFF) as u8,
                ((entry >> 8) & 0xFF) as u8,
                ((entry >> 16) & 0xFF) as u8,
            ]
        }
    }
}

/// Pack up to three bytes into a FIFO entry.
pub fn to_entry(chunk: &Vec<u8>, msb_first: bool) -> (entry: u32)
    requires
        chunk@.len() <= 3,
    ensures
        entry == spec_entry(chunk@, msb_first),
{
    let n = chunk.len();
    let payload: u32 = if n == 0 {
        0
    } else if n == 1 {
        chunk[0] as u32
    } else if n == 2 {
        if msb_first {
            (chunk[1] as u32) | ((chunk[0] as u32) << 8)
        } else {
            (chunk[0] as u32) | ((chunk[1] as u32) << 8)
        }
    } else {
        if msb_first {
            (chunk[2] as u32) | ((chunk[1] as u32) << 8) | ((chunk[0] as u32) << 16)
        } else {
            (chunk[0] as u32) | ((chunk[1] as u32) << 8) | ((chunk[2] as u32) << 16)
        }
    };
    payload | (((n as u32) * 8) << 24)
}

/// Unpack a received FIFO entry into the chunk it answers, keeping the
/// chunk's length.
pub fn from_entry(chunk: &mut Vec<u8>, entry: u32, msb_first: bool)
    requires
        old(chunk)@.len() <= 3,
    ensures
        final(chunk)@ == spec_decode(old(chunk)@.len() as int, entry, msb_first),
{
    let n = chunk.len();
    if n == 0 {
        return;
    }
    if n == 1 {
        chunk.set(0, (entry & 0xFF) as u8);
    } else if n == 2 {
        if msb_first {
            chunk.set(0, ((entry >> 8) & 0xFF) as u8);
            chunk.set(1, (entry & 0xFF) as u8);
        } else {
            chunk.set(0, (entry & 0xFF) as u8);
            chunk.set(1, ((entry >> 8) & 0xFF) as u8);
        }
    } else {
        if msb_first {
            chunk.set(0, ((entry >> 16) & 0xFF) as u8);
            chunk.set(1, ((entry >> 8) & 0xFF) as u8);
            chunk.set(2, (entry & 0xFF) as u8);
        } else {
            chunk.set(0, (entry & 0xFF) as u8);
            chunk.set(1, ((entry >> 8) & 0xFF) as u8);
            chunk.set(2, ((entry >> 16) & 0xFF) as u8);
        }
    }
    proof {
        assert(chunk@ =~= spec_decode(old(chunk)@.len() as int, entry, msb_first));
    }
}

proof fn lemma_entry_extract_3(b0: u32, b1: u32, b2: u32, c: u32)
    by (bit_vector)
    requires
        b0 < 256,
        b1 < 256,
        b2 < 256,
        c < 256,
    ensures
        ((b0 | (b1 << 8) | (b2 << 16) | (c << 24)) & 0xFF) == b0,
        (((b0 | (b1 << 8) | (b2 << 16) | (c << 24)) >> 8) & 0xFF) == b1,
        (((b0 | (b1 << 8) | (b2 << 16) | (c << 24)) >> 16) & 0xFF) == b2,
{
}

proof fn lemma_entry_extract_2(b0: u32, b1: u32, c: u32)
    by (bit_vector)
    requires
        b0 < 256,
        b1 < 256,
        c < 256,
    ensures
        (((b0 | (b1 << 8)) | (c << 24)) & 0xFF) == b0,
        ((((b0 | (b1 << 8)) | (c << 24)) >> 8) & 0xFF) == b1,
{
}

proof fn lemma_entry_extract_1(b0: u32, c: u32)
    by (bit_vector)
    requires
        b0 < 256,
        c < 256,
    ensures
        ((b0 | (c << 24)) & 0xFF) == b0,
{
}

/// Entry round trip: decoding an entry built from a chunk recovers the
/// chunk, in either bit order.
pub proof fn lemma_entry_round_trip(bytes: Seq<u8>, msb_first: bool)
    requires
        bytes.len() <= 3,
    ensures
        spec_decode(bytes.len() as int, spec_entry(bytes, msb_first), msb_first) == bytes,
{
    let c = ((bytes.len() * 8) as u32);
    if bytes.len() == 1 {
        lemma_entry_extract_1(bytes[0] as u32, c);
        assert(spec_decode(1, spec_entry(bytes, msb_first), msb_first) =~= bytes);
    } else if bytes.len() == 2 {
        if msb_first {
            lemma_entry_extract_2(bytes[1] as u32, bytes[0] as u32, c);
        } else {
            lemma_entry_extract_2(bytes[0] as u32, bytes[1] as u32, c);
        }
        assert(spec_decode(2, spec_entry(bytes, msb_first), msb_first) =~= bytes);
    } else if bytes.len() == 3 {
        if msb_first {
            lemma_entry_extract_3(bytes[2] as u32, bytes[1] as u32, bytes[0] as u32, c);
        } else {
            lemma_entry_extract_3(bytes[0] as u32, bytes[1] as u32, bytes[2] as u32, c);
        }
        assert(spec_decode(3, spec_entry(bytes, msb_first), msb_first) =~= bytes);
    } else {
        assert(spec_decode(0, spec_entry(bytes, msb_first), msb_first) =~= bytes);
    }
}

/// The entries a byte stream packs into: chunks of three, a short final
/// chunk for the remainder.
pub open spec fn spec_entries(words: Seq<u8>, msb_first: bool) -> Seq<u32>
    decreases words.len(),
{
    if words.len() == 0 {
        seq![]
    } else if words.len() <= 3 {
        seq![spec_entry(words, msb_first)]
    } else {
        seq![spec_entry(words.take(3), msb_first)] + spec_entries(words.skip(3), msb_first)
    }
}

/// How many entries a byte stream packs into.
pub open spec fn spec_chunk_count(len: int) -> int {
    (len + 2) / 3
}

/// The bytes a transfer hands back: each chunk replaced by the decoding
/// of the entry the wire answered it with.
pub open spec fn spec_decode_chunks(words: Seq<u8>, incoming: Seq<u32>, msb_first: bool) -> Seq<u8>
    decreases words.len(),
{
    if words.len() == 0 {
        seq![]
    } else if words.len() <= 3 {
        spec_decode(words.len() as int, incoming[0], msb_first)
    } else {
        spec_decode(3, incoming[0], msb_first) + spec_decode_chunks(
            words.skip(3),
            incoming.skip(1),
            msb_first,
        )
    }
}

/// The chunk size at chunk index `k` of a stream of `len` bytes: three,
/// or the remainder for the final chunk.
pub open spec fn spec_chunk_size(len: int, k: int) -> int {
    if 3 * k + 3 <= len {
        3int
    } else {
        len - 3 * k
    }
}

/// The byte stream after the received entries `entries` are decoded into
/// consecutive chunks starting at chunk index `k`.
pub open spec fn spec_apply_entries(words: Seq<u8>, k: int, entries: Seq<u32>, msb_first: bool) -> Seq<u8>
    decreases entries.len(),
{
    if entries.len() == 0 {
        words
    } else {
        let c = spec_chunk_size(words.len() as int, k);
        let patched = words.take(3 * k) + spec_decode(c, entries[0], msb_first) + words.skip(
            3 * k + c,
        );
        spec_apply_entries(patched, k + 1, entries.skip(1), msb_first)
    }
}

/// The copy of `words` from `from` to at most three bytes on.
fn chunk_at(words: &Vec<u8>, from: usize) -> (chunk: Vec<u8>)
    requires
        from < words@.len(),
    ensures
        chunk@ == words@.subrange(
            from as int,
            vstd::math::min(from + 3, words@.len() as int),
        ),
        1 <= chunk@.len() <= 3,
{
    let upto = if words.len() - from < 3 {
        words.len()
    } else {
        from + 3
    };
    let mut chunk: Vec<u8> = Vec::new();
    let mut i: usize = from;
    while i < upto
        invariant
            from <= i <= upto,
            upto == vstd::math::min(from + 3, words@.len() as int),
            chunk@ == words@.subrange(from as int, i as int),
        decreases upto - i,
    {
        chunk.push(words[i]);
        proof {
            assert(chunk@ =~= words@.subrange(from as int, i + 1));
        }
        i = i + 1;
    }
    chunk
}


/// The first `n` bytes of a vector, copied out.
fn take_prefix(v: &Vec<u8>, n: usize) -> (r: Vec<u8>)
    requires
        n <= v@.len(),
    ensures
        r@ == v@.take(n as int),
{
    let mut r: Vec<u8> = Vec::new();
    let mut i: usize = 0;
    while i < n
        invariant
            i <= n,
            n <= v@.len(),
            r@ == v@.take(i as int),
        decreases n - i,
    {
        r.push(v[i]);
        proof {
            assert(r@ =~= v@.take(i + 1));
        }
        i = i + 1;
    }
    r
}

/// Everything past the first `n` bytes of a vector, copied out.
fn skip_from(v: &Vec<u8>, n: usize) -> (r: Vec<u8>)
    requires
        n <= v@.len(),
    ensures
        r@ == v@.skip(n as int),
{
    let mut r: Vec<u8> = Vec::new();
    let mut i: usize = n;
    while i < v.len()
        invariant
            n <= i <= v@.len(),
            r@ == v@.subrange(n as int, i as int),
        decreases v@.len() - i,
    {
        r.push(v[i]);
        proof {
            assert(r@ =~= v@.subrange(n as int, i + 1));
        }
        i = i + 1;
    }
    proof {
        assert(r@ =~= v@.skip(n as int));
    }
    r
}

/// Overwrite `words` at `at` with the bytes of `chunk`.
fn write_back(words: &mut Vec<u8>, at: usize, chunk: &Vec<u8>)
    requires
        at + chunk@.len() <= old(words)@.len(),
    ensures
        final(words)@ == old(words)@.take(at as int) + chunk@ + old(words)@.skip(
            at + chunk@.len(),
        ),
{
    let total = words.len();
    let mut b: usize = 0;
    while b < chunk.len()
        invariant
            b <= chunk@.len(),
            at + chunk@.len() <= old(words)@.len(),
            old(words)@.len() <= usize::MAX,
            words@.len() == old(words)@.len(),
            words@ == old(words)@.take(at as int) + chunk@.take(b as int) + old(words)@.skip(
                at + b,
            ),
        decreases chunk@.len() - b,
    {
        words.set(at + b, chunk[b]);
        proof {
            assert(words@ =~= old(words)@.take(at as int) + chunk@.take(b + 1) + old(
                words,
            )@.skip(at + b + 1));
        }
        b = b + 1;
    }
    proof {
        assert(chunk@.take(chunk@.len() as int) =~= chunk@);
    }
}

/// The wire state after `shifts` entries have completed: each completed
/// entry consumes the remote's next answer from the front of `incoming`
/// (a quiet wire has none to give), and the answer enters the receive
/// FIFO if there is room — it is lost otherwise.  Returns the remaining
/// `incoming` and the new receive FIFO.
pub open spec fn spec_wire_after(incoming: Seq<u32>, rx: Seq<u32>, shifts: int) -> (
    Seq<u32>,
    Seq<u32>,
)
    recommends
        0 <= shifts,
        rx.len() <= SPI_FIFO_DEPTH,
{
    let consumed = vstd::math::min(shifts, incoming.len() as int);
    let room = SPI_FIFO_DEPTH - rx.len() as int;
    (incoming.skip(consumed), rx + incoming.take(vstd::math::min(consumed, room)))
}

/// One more shift evolves the wire state exactly as one
/// consume-and-enqueue step.
proof fn lemma_wire_step(incoming: Seq<u32>, rx: Seq<u32>, shifts: int)
    requires
        0 <= shifts,
        rx.len() <= SPI_FIFO_DEPTH,
    ensures
        ({
            let (inc_now, rx_now) = spec_wire_after(incoming, rx, shifts);
            let (inc_next, rx_next) = spec_wire_after(incoming, rx, shifts + 1);
            if inc_now.len() > 0 {
                &&& inc_next == inc_now.skip(1)
                &&& rx_next == (if rx_now.len() < SPI_FIFO_DEPTH {
                    rx_now.push(inc_now[0])
                } else {
                    rx_now
                })
            } else {
                inc_next == inc_now && rx_next == rx_now
            }
        }),
{
    let sd = SPI_FIFO_DEPTH as int;
    let consumed = vstd::math::min(shifts, incoming.len() as int);
    let room = sd - rx.len() as int;
    let (inc_now, rx_now) = spec_wire_after(incoming, rx, shifts);
    if inc_now.len() > 0 {
        assert(consumed == shifts);
        assert(incoming.skip(shifts + 1) =~= inc_now.skip(1));
        let appended = vstd::math::min(consumed, room);
        if appended < room {
            assert(appended == consumed);
            assert(incoming.take(appended + 1) =~= incoming.take(appended).push(
                incoming[appended],
            ));
            assert(inc_now[0] == incoming[consumed]);
            assert(spec_wire_after(incoming, rx, shifts + 1).1 =~= rx_now.push(inc_now[0]));
        } else {
            assert(rx_now.len() == sd);
            assert(spec_wire_after(incoming, rx, shifts + 1).1 =~= rx_now);
        }
    } else {
        assert(spec_wire_after(incoming, rx, shifts + 1).0 =~= inc_now);
        assert(spec_wire_after(incoming, rx, shifts + 1).1 =~= rx_now);
    }
}

/// Complete one entry on the wire: it joins the finished stream, and the
/// remote's answer — if the wire carries one — enters the receive FIFO
/// when there is room.
fn shift_entry(regs: &mut SpiRegisters, entry: u32)
    requires
        old(regs).wf(),
    ensures
        final(regs).wf(),
        final(regs).shifted_out@ == old(regs).shifted_out@.push(entry),
        ({
            if old(regs).incoming@.len() > 0 {
                &&& final(regs).incoming@ == old(regs).incoming@.skip(1)
                &&& final(regs).rx_fifo@ == (if old(regs).rx_fifo@.len() < SPI_FIFO_DEPTH {
                    old(regs).rx_fifo@.push(old(regs).incoming@[0])
                } else {
                    old(regs).rx_fifo@
                })
            } else {
                final(regs).incoming@ == old(regs).incoming@ && final(regs).rx_fifo@ == old(
                    regs,
                ).rx_fifo@
            }
        }),
        *final(regs) == (SpiRegisters {
            shifted_out: final(regs).shifted_out,
            incoming: final(regs).incoming,
            rx_fifo: final(regs).rx_fifo,
            ..*old(regs)
        }),
{
    regs.shifted_out.push(entry);
    if regs.incoming.len() > 0 {
        let answer = regs.incoming.remove(0);
        if regs.rx_fifo.len() < SPI_FIFO_DEPTH {
            regs.rx_fifo.push(answer);
        }
    }
}

/// The exclusive handle on the SPI1 master, owning its three bus pins.
pub struct Spi1 {
    miso: Pin<19, Alternate4>,
    mosi: Pin<20, Alternate4>,
    sclk: Pin<21, Alternate4>,
}

impl Spi1 {
    /// Claim SPI1: atomically set its auxiliary enable bit, then program
    /// both control registers from the configuration.  Fails, touching
    /// nothing, when the peripheral is already enabled.
    pub fn get(
        miso: Pin<19, Alternate4>,
        mosi: Pin<20, Alternate4>,
        sclk: Pin<21, Alternate4>,
        config: &Config,
        aux: &mut AuxRegisters,
        regs: &mut SpiRegisters,
    ) -> (r: Option<Spi1>)
        requires
            old(regs).wf(),
        ensures
            final(regs).wf(),
            r.is_some() == !bit_set(old(aux).enables, 1),
            r.is_none() ==> *final(aux) == *old(aux) && *final(regs) == *old(regs),
            r.is_some() ==> {
                &&& final(aux).enables == old(aux).enables | (1u32 << 1)
                &&& final(aux).irq_status == old(aux).irq_status
                &&& final(regs).control0 == spec_control0(*config)
                &&& final(regs).control1 == spec_control1(*config)
                &&& *final(regs) == (SpiRegisters {
                    control0: final(regs).control0,
                    control1: final(regs).control1,
                    ..*old(regs)
                })
            },
    {
        if aux.enables & (1u32 << 1) != 0 {
            return None;
        }
        aux.enables = aux.enables | (1u32 << 1);

        // The peripheral is now exclusively ours; program it.
        let cntl0 = (config.speed.value() << 20) | ((if config.post_input {
            1u32
        } else {
            0u32
        }) << 16) | (1u32 << 14) | (config.data_out_hold.value() << 12) | (1u32 << 11) | ((
        if config.in_rising {
            1u32
        } else {
            0u32
        }) << 10) | ((if config.out_rising { 1u32 } else { 0u32 }) << 8) | ((if config.polarity
            == Polarity::IdleHigh {
            1u32
        } else {
            0u32
        }) << 7) | ((if config.out_most_significant_first { 1u32 } else { 0u32 }) << 6);
        regs.control0 = cntl0;

        let cntl1 = ((config.extra_cs_high_time.value() as u32) << 8) | ((
        if config.in_most_significant_first {
            1u32
        } else {
            0u32
        }) << 1) | (if config.keep_input { 1u32 } else { 0u32 });
        regs.control1 = cntl1;

        Some(Spi1 { miso, mosi, sclk })
    }

    /// Whether a burst is in flight.
    pub fn busy(&self, regs: &SpiRegisters) -> (r: bool)
        ensures
            r == regs.busy,
    {
        regs.busy
    }

    /// Clear both FIFOs by pulsing the clear bit of the first control
    /// register; the register itself is restored.
    pub fn clear_fifos(&mut self, regs: &mut SpiRegisters)
        ensures
            final(regs).wf(),
            final(regs).tx_fifo@.len() == 0,
            final(regs).rx_fifo@.len() == 0,
            *final(regs) == (SpiRegisters {
                tx_fifo: final(regs).tx_fifo,
                rx_fifo: final(regs).rx_fifo,
                ..*old(regs)
            }),
    {
        regs.tx_fifo = Vec::new();
        regs.rx_fifo = Vec::new();
    }

    /// Blocking write of a byte stream: the bytes are packed into entries
    /// of at most three and every entry — after whatever was still queued
    /// — finishes shifting out before the call returns, leaving the FIFO
    /// empty and the bus idle.  Each completed entry consumes the wire's
    /// next answer into the receive FIFO while there is room
    /// ([`spec_wire_after`]); the driver never reads them here.
    pub fn write(&mut self, regs: &mut SpiRegisters, words: &Vec<u8>)
        requires
            old(regs).wf(),
        ensures
            final(regs).wf(),
            final(regs).shifted_out@ == old(regs).shifted_out@ + old(regs).tx_fifo@
                + spec_entries(words@, bit_set(old(regs).control0, 6)),
            final(regs).tx_fifo@.len() == 0,
            !final(regs).busy,
            final(regs).incoming@ == spec_wire_after(
                old(regs).incoming@,
                old(regs).rx_fifo@,
                final(regs).shifted_out@.len() - old(regs).shifted_out@.len(),
            ).0,
            final(regs).rx_fifo@ == spec_wire_after(
                old(regs).incoming@,
                old(regs).rx_fifo@,
                final(regs).shifted_out@.len() - old(regs).shifted_out@.len(),
            ).1,
            *final(regs) == (SpiRegisters {
                tx_fifo: final(regs).tx_fifo,
                shifted_out: final(regs).shifted_out,
                busy: final(regs).busy,
                incoming: final(regs).incoming,
                rx_fifo: final(regs).rx_fifo,
                ..*old(regs)
            }),
    {
        let ms_bit_first = regs.control0 & (1u32 << 6) != 0;
        let ghost inc0 = old(regs).incoming@;
        let ghost rx0 = old(regs).rx_fifo@;
        proof {
            assert(inc0.skip(0) =~= inc0);
            assert(rx0 + inc0.take(0) =~= rx0);
        }

        // Whatever was still queued finishes first.
        while regs.tx_fifo.len() > 0
            invariant
                old(regs).shifted_out@ + old(regs).tx_fifo@ == regs.shifted_out@ + regs.tx_fifo@,
                regs.wf(),
                rx0.len() <= SPI_FIFO_DEPTH,
                regs.shifted_out@.len() >= old(regs).shifted_out@.len(),
                regs.incoming@ == spec_wire_after(
                    inc0,
                    rx0,
                    regs.shifted_out@.len() - old(regs).shifted_out@.len(),
                ).0,
                regs.rx_fifo@ == spec_wire_after(
                    inc0,
                    rx0,
                    regs.shifted_out@.len() - old(regs).shifted_out@.len(),
                ).1,
                *regs == (SpiRegisters {
                    tx_fifo: regs.tx_fifo,
                    shifted_out: regs.shifted_out,
                    incoming: regs.incoming,
                    rx_fifo: regs.rx_fifo,
                    ..*old(regs)
                }),
            decreases regs.tx_fifo@.len(),
        {
            proof {
                lemma_wire_step(
                    inc0,
                    rx0,
                    regs.shifted_out@.len() - old(regs).shifted_out@.len(),
                );
            }
            let entry = regs.tx_fifo.remove(0);
            shift_entry(regs, entry);
            proof {
                assert(old(regs).shifted_out@ + old(regs).tx_fifo@ =~= regs.shifted_out@
                    + regs.tx_fifo@);
            }
        }

        let ghost base = old(regs).shifted_out@ + old(regs).tx_fifo@;
        proof {
            assert(regs.shifted_out@ =~= base);
            assert(words@.skip(0) =~= words@);
        }

        let mut i: usize = 0;
        while i < words.len()
            invariant
                i <= words@.len(),
                regs.wf(),
                regs.tx_fifo@.len() == 0,
                rx0.len() <= SPI_FIFO_DEPTH,
                regs.shifted_out@.len() >= old(regs).shifted_out@.len(),
                ms_bit_first == bit_set(old(regs).control0, 6),
                base + spec_entries(words@, ms_bit_first) == regs.shifted_out@ + spec_entries(
                    words@.skip(i as int),
                    ms_bit_first,
                ),
                regs.incoming@ == spec_wire_after(
                    inc0,
                    rx0,
                    regs.shifted_out@.len() - old(regs).shifted_out@.len(),
                ).0,
                regs.rx_fifo@ == spec_wire_after(
                    inc0,
                    rx0,
                    regs.shifted_out@.len() - old(regs).shifted_out@.len(),
                ).1,
                *regs == (SpiRegisters {
                    tx_fifo: regs.tx_fifo,
                    shifted_out: regs.shifted_out,
                    incoming: regs.incoming,
                    rx_fifo: regs.rx_fifo,
                    ..*old(regs)
                }),
            decreases words@.len() - i,
        {
            let chunk = chunk_at(words, i);
            let entry = to_entry(&chunk, ms_bit_first);
            proof {
                lemma_wire_step(
                    inc0,
                    rx0,
                    regs.shifted_out@.len() - old(regs).shifted_out@.len(),
                );
            }
            // In the model the entry shifts straight through; on the
            // device the last chunk goes to the IO register to complete
            // the burst, the others to TXHOLD.
            shift_entry(regs, entry);
            proof {
                let rest = words@.skip(i as int);
                if rest.len() > 3 {
                    assert(rest.take(3) =~= words@.subrange(i as int, i + 3));
                    assert(rest.skip(3) =~= words@.skip(i + 3));
                    assert(base + spec_entries(words@, ms_bit_first) =~= regs.shifted_out@
                        + spec_entries(words@.skip(i + chunk@.len()), ms_bit_first));
                } else {
                    assert(chunk@ =~= rest);
                    assert(spec_entries(rest, ms_bit_first) =~= seq![entry]);
                    assert(base + spec_entries(words@, ms_bit_first) =~= regs.shifted_out@
                        + spec_entries(words@.skip(i + chunk@.len()), ms_bit_first));
                }
            }
            i = i + chunk.len();
        }
        regs.busy = false;
        proof {
            assert(words@.skip(words@.len() as int) =~= Seq::<u8>::empty());
            assert(base + spec_entries(words@, ms_bit_first) =~= regs.shifted_out@);
        }
    }

    /// Blocking flush: wait until the bus is idle — everything queued has
    /// shifted out — then clear both FIFOs.  Answers the draining entries
    /// bring in ([`spec_wire_after`]) are discarded with the clear.
    pub fn flush(&mut self, regs: &mut SpiRegisters)
        requires
            old(regs).wf(),
        ensures
            final(regs).wf(),
            final(regs).shifted_out@ == old(regs).shifted_out@ + old(regs).tx_fifo@,
            final(regs).tx_fifo@.len() == 0,
            final(regs).rx_fifo@.len() == 0,
            !final(regs).busy,
            final(regs).incoming@ == spec_wire_after(
                old(regs).incoming@,
                old(regs).rx_fifo@,
                old(regs).tx_fifo@.len() as int,
            ).0,
            *final(regs) == (SpiRegisters {
                tx_fifo: final(regs).tx_fifo,
                rx_fifo: final(regs).rx_fifo,
                shifted_out: final(regs).shifted_out,
                busy: final(regs).busy,
                incoming: final(regs).incoming,
                ..*old(regs)
            }),
    {
        let ghost inc0 = old(regs).incoming@;
        let ghost rx0 = old(regs).rx_fifo@;
        proof {
            assert(inc0.skip(0) =~= inc0);
            assert(rx0 + inc0.take(0) =~= rx0);
        }
        while regs.tx_fifo.len() > 0
            invariant
                old(regs).shifted_out@ + old(regs).tx_fifo@ == regs.shifted_out@ + regs.tx_fifo@,
                regs.wf(),
                rx0.len() <= SPI_FIFO_DEPTH,
                regs.tx_fifo@.len() <= old(regs).tx_fifo@.len(),
                regs.shifted_out@.len() == old(regs).shifted_out@.len()
                    + old(regs).tx_fifo@.len() - regs.tx_fifo@.len(),
                regs.incoming@ == spec_wire_after(
                    inc0,
                    rx0,
                    regs.shifted_out@.len() - old(regs).shifted_out@.len(),
                ).0,
                regs.rx_fifo@ == spec_wire_after(
                    inc0,
                    rx0,
                    regs.shifted_out@.len() - old(regs).shifted_out@.len(),
                ).1,
                *regs == (SpiRegisters {
                    tx_fifo: regs.tx_fifo,
                    shifted_out: regs.shifted_out,
                    incoming: regs.incoming,
                    rx_fifo: regs.rx_fifo,
                    ..*old(regs)
                }),
            decreases regs.tx_fifo@.len(),
        {
            proof {
                lemma_wire_step(
                    inc0,
                    rx0,
                    regs.shifted_out@.len() - old(regs).shifted_out@.len(),
                );
            }
            let entry = regs.tx_fifo.remove(0);
            shift_entry(regs, entry);
            proof {
                assert(old(regs).shifted_out@ + old(regs).tx_fifo@ =~= regs.shifted_out@
                    + regs.tx_fifo@);
            }
        }
        regs.busy = false;
        self.clear_fifos(regs);
        proof {
            assert(regs.shifted_out@ =~= old(regs).shifted_out@ + old(regs).tx_fifo@);
        }
    }

    /// Blocking full-duplex transfer in place: flush — whose draining
    /// entries consume their answers, discarded with the clear — then
    /// shift each chunk of `words` out and replace it with the decoding
    /// of the answer the wire brings back for it.  The remote answers
    /// every entry, so the wire must hold answers for the queued entries
    /// and one per chunk.
    pub fn transfer_in_place(&mut self, regs: &mut SpiRegisters, words: &mut Vec<u8>)
        requires
            old(regs).wf(),
            old(regs).incoming@.len() >= old(regs).tx_fifo@.len() + spec_chunk_count(
                old(words)@.len() as int,
            ),
        ensures
            final(regs).wf(),
            final(words)@ == spec_decode_chunks(
                old(words)@,
                old(regs).incoming@.skip(old(regs).tx_fifo@.len() as int),
                bit_set(old(regs).control1, 0),
            ),
            final(words)@.len() == old(words)@.len(),
            final(regs).shifted_out@ == old(regs).shifted_out@ + old(regs).tx_fifo@
                + spec_entries(old(words)@, bit_set(old(regs).control0, 6)),
            final(regs).incoming@ == old(regs).incoming@.skip(
                old(regs).tx_fifo@.len() + spec_chunk_count(old(words)@.len() as int),
            ),
            final(regs).tx_fifo@.len() == 0,
            final(regs).rx_fifo@.len() == 0,
            !final(regs).busy,
            final(regs).control0 == old(regs).control0,
            final(regs).control1 == old(regs).control1,
    {
        self.flush(regs);
        proof {
            // Every queued entry found an answer, so the flush consumed
            // exactly one per entry.
            assert(regs.incoming@ =~= old(regs).incoming@.skip(
                old(regs).tx_fifo@.len() as int,
            ));
        }

        let out_ms_bit_first = regs.control0 & (1u32 << 6) != 0;
        let in_ms_bit_first = regs.control1 & (1u32 << 0) != 0;
        let ghost base = old(regs).shifted_out@ + old(regs).tx_fifo@;
        let ghost old_words = words@;
        let ghost old_incoming = regs.incoming@;
        proof {
            assert(old_words.skip(0) =~= old_words);
            assert(old_incoming.skip(0) =~= old_incoming);
            assert(words@.take(0) =~= Seq::<u8>::empty());
            assert(words@.take(0) + spec_decode_chunks(old_words, old_incoming, in_ms_bit_first)
                =~= spec_decode_chunks(old_words, old_incoming, in_ms_bit_first));
        }

        let mut i: usize = 0;
        let mut j: usize = 0;
        while i < words.len()
            invariant
                i <= words@.len(),
                words@.len() == old_words.len(),
                i == 3 * j || (i == words@.len() && j == spec_chunk_count(old_words.len() as int)),
                i == words@.len() ==> j == spec_chunk_count(old_words.len() as int),
                j <= spec_chunk_count(old_words.len() as int),
                regs.wf(),
                regs.tx_fifo@.len() == 0,
                regs.rx_fifo@.len() == 0,
                !regs.busy,
                out_ms_bit_first == bit_set(old(regs).control0, 6),
                in_ms_bit_first == bit_set(old(regs).control1, 0),
                regs.control0 == old(regs).control0,
                regs.control1 == old(regs).control1,
                old_incoming.len() >= spec_chunk_count(old_words.len() as int),
                regs.incoming@ == old_incoming.skip(j as int),
                words@.skip(i as int) == old_words.skip(i as int),
                base + spec_entries(old_words, out_ms_bit_first) == regs.shifted_out@
                    + spec_entries(old_words.skip(i as int), out_ms_bit_first),
                spec_decode_chunks(old_words, old_incoming, in_ms_bit_first) == words@.take(i as int)
                    + spec_decode_chunks(
                    old_words.skip(i as int),
                    old_incoming.skip(j as int),
                    in_ms_bit_first,
                ),
            decreases words@.len() - i,
        {
            let chunk = chunk_at(words, i);
            proof {
                assert(chunk@ =~= old_words.subrange(
                    i as int,
                    vstd::math::min(i + 3, old_words.len() as int),
                ));
            }
            let entry = to_entry(&chunk, out_ms_bit_first);
            regs.shifted_out.push(entry);

            let response = regs.incoming.remove(0);
            let mut decoded = chunk;
            from_entry(&mut decoded, response, in_ms_bit_first);
            let clen = decoded.len();
            write_back(words, i, &decoded);

            proof {
                let rest = old_words.skip(i as int);
                let inc_rest = old_incoming.skip(j as int);
                assert(inc_rest[0] == old_incoming[j as int]);
                if rest.len() > 3 {
                    assert(rest.take(3) =~= old_words.subrange(i as int, i + 3));
                    assert(rest.skip(3) =~= old_words.skip(i + 3));
                    assert(inc_rest.skip(1) =~= old_incoming.skip(j + 1));
                } else {
                    assert(rest =~= old_words.subrange(i as int, old_words.len() as int));
                    assert(inc_rest.skip(1) =~= old_incoming.skip(j + 1));
                }
                assert(base + spec_entries(old_words, out_ms_bit_first) =~= regs.shifted_out@
                    + spec_entries(old_words.skip(i + clen), out_ms_bit_first));
                assert(words@.take((i + clen) as int) =~= words@.take(i as int).add(decoded@));
                assert(spec_decode_chunks(old_words, old_incoming, in_ms_bit_first) =~= words@.take(
                    (i + clen) as int,
                ) + spec_decode_chunks(
                    old_words.skip(i + clen),
                    old_incoming.skip(j + 1),
                    in_ms_bit_first,
                ));
                assert(words@.skip((i + clen) as int) =~= old_words.skip((i + clen) as int));
            }
            i = i + clen;
            j = j + 1;
        }
        proof {
            assert(old_words.skip(old_words.len() as int) =~= Seq::<u8>::empty());
            assert(base + spec_entries(old_words, out_ms_bit_first) =~= regs.shifted_out@);
            assert(words@.take(words@.len() as int) =~= words@);
            assert(regs.incoming@ =~= old_incoming.skip(
                spec_chunk_count(old_words.len() as int),
            ));
            assert(regs.incoming@ =~= old(regs).incoming@.skip(
                old(regs).tx_fifo@.len() + spec_chunk_count(old_words.len() as int),
            ));
        }
    }

    /// A full-duplex transfer with distinct buffers: the write stream is
    /// shifted out while the answers fill the read buffer.  With a read
    /// buffer at least as long as the write stream, its tail beyond the
    /// stream is shifted out as padding; with a shorter one, the stream's
    /// tail is written out after the exchange, and its answers stay in
    /// the receive FIFO up to its depth.  The remote answers every entry.
    pub fn transfer(&mut self, regs: &mut SpiRegisters, read: &mut Vec<u8>, write: &Vec<u8>)
        requires
            old(regs).wf(),
            old(regs).incoming@.len() >= old(regs).tx_fifo@.len() + spec_chunk_count(
                old(read)@.len() as int,
            ) + (if old(read)@.len() < write@.len() {
                spec_chunk_count(write@.len() - old(read)@.len())
            } else {
                0int
            }),
        ensures
            final(regs).wf(),
            final(read)@.len() == old(read)@.len(),
            ({
                let exchanged = if old(read)@.len() >= write@.len() {
                    write@ + old(read)@.skip(write@.len() as int)
                } else {
                    write@.take(old(read)@.len() as int)
                };
                let tail_count = if old(read)@.len() < write@.len() {
                    spec_chunk_count(write@.len() - old(read)@.len())
                } else {
                    0int
                };
                let exchange_end = old(regs).tx_fifo@.len() + spec_chunk_count(
                    old(read)@.len() as int,
                );
                &&& final(read)@ == spec_decode_chunks(
                    exchanged,
                    old(regs).incoming@.skip(old(regs).tx_fifo@.len() as int),
                    bit_set(old(regs).control1, 0),
                )
                &&& final(regs).shifted_out@ == old(regs).shifted_out@ + old(regs).tx_fifo@
                    + spec_entries(exchanged, bit_set(old(regs).control0, 6)) + (
                if old(read)@.len() < write@.len() {
                    spec_entries(
                        write@.skip(old(read)@.len() as int),
                        bit_set(old(regs).control0, 6),
                    )
                } else {
                    Seq::<u32>::empty()
                })
                &&& final(regs).incoming@ == old(regs).incoming@.skip(exchange_end + tail_count)
                &&& final(regs).rx_fifo@ == old(regs).incoming@.subrange(
                    exchange_end,
                    exchange_end + vstd::math::min(tail_count, SPI_FIFO_DEPTH as int),
                )
            }),
            final(regs).tx_fifo@.len() == 0,
            !final(regs).busy,
    {
        if read.len() >= write.len() {
            write_back(read, 0, write);
            proof {
                assert(read@ =~= write@ + old(read)@.skip(write@.len() as int));
            }
            self.transfer_in_place(regs, read);
            proof {
                assert(regs.shifted_out@ + Seq::<u32>::empty() =~= regs.shifted_out@);
                let exchange_end = old(regs).tx_fifo@.len() + spec_chunk_count(
                    old(read)@.len() as int,
                );
                assert(regs.rx_fifo@ =~= old(regs).incoming@.subrange(
                    exchange_end,
                    exchange_end,
                ));
            }
        } else {
            let prefix = take_prefix(write, read.len());
            write_back(read, 0, &prefix);
            proof {
                assert(read@ =~= write@.take(old(read)@.len() as int));
            }
            self.transfer_in_place(regs, read);
            let rest = skip_from(write, read.len());
            let ghost mid_shifted = regs.shifted_out@;
            let ghost mid_incoming = regs.incoming@;
            self.write(regs, &rest);
            proof {
                let out_msb = bit_set(old(regs).control0, 6);
                assert(regs.shifted_out@ =~= mid_shifted + spec_entries(
                    write@.skip(old(read)@.len() as int),
                    out_msb,
                ));
                // The tail write shifted one entry per chunk of the tail,
                // and the wire answered each.
                lemma_entries_len(write@.skip(old(read)@.len() as int), out_msb);
                let tail_count = spec_chunk_count(write@.len() - old(read)@.len());
                let exchange_end = old(regs).tx_fifo@.len() + spec_chunk_count(
                    old(read)@.len() as int,
                );
                assert(regs.incoming@ =~= old(regs).incoming@.skip(exchange_end + tail_count));
                assert(regs.rx_fifo@ =~= old(regs).incoming@.subrange(
                    exchange_end,
                    exchange_end + vstd::math::min(tail_count, SPI_FIFO_DEPTH as int),
                ));
            }
        }
    }

    /// Read a burst: identical to a transfer in place — what the buffer
    /// held is shifted out while the answers fill it.
    pub fn read(&mut self, regs: &mut SpiRegisters, words: &mut Vec<u8>)
        requires
            old(regs).wf(),
            old(regs).incoming@.len() >= old(regs).tx_fifo@.len() + spec_chunk_count(
                old(words)@.len() as int,
            ),
        ensures
            final(regs).wf(),
            final(words)@ == spec_decode_chunks(
                old(words)@,
                old(regs).incoming@.skip(old(regs).tx_fifo@.len() as int),
                bit_set(old(regs).control1, 0),
            ),
            final(regs).incoming@ == old(regs).incoming@.skip(
                old(regs).tx_fifo@.len() + spec_chunk_count(old(words)@.len() as int),
            ),
            final(regs).tx_fifo@.len() == 0,
            !final(regs).busy,
    {
        self.transfer_in_place(regs, words)
    }

    /// Release the peripheral: disable it in the first control register
    /// and clear its auxiliary enable bit.  The bus pins are handed back.
    pub fn release(self, aux: &mut AuxRegisters, regs: &mut SpiRegisters) -> (pins: (
        Pin<19, Alternate4>,
        Pin<20, Alternate4>,
        Pin<21, Alternate4>,
    ))
        ensures
            final(regs).control0 == 1u32 << 11,
            *final(regs) == (SpiRegisters { control0: 1u32 << 11, ..*old(regs) }),
            final(aux).enables == old(aux).enables & !0b10,
            final(aux).irq_status == old(aux).irq_status,
    {
        regs.control0 = 1u32 << 11;
        aux.enables = aux.enables & !0b10;
        (self.miso, self.mosi, self.sclk)
    }
}

/// One hardware shift step: the front entry of the transmit FIFO
/// completes, and the answer the wire carries in — if it carries one —
/// enters the receive FIFO when there is room (it is lost otherwise).
pub fn shift_one(regs: &mut SpiRegisters)
    requires
        old(regs).wf(),
        old(regs).tx_fifo@.len() > 0,
    ensures
        final(regs).wf(),
        final(regs).tx_fifo@ == old(regs).tx_fifo@.skip(1),
        final(regs).shifted_out@ == old(regs).shifted_out@.push(old(regs).tx_fifo@[0]),
        final(regs).busy == (old(regs).tx_fifo@.len() > 1),
        ({
            if old(regs).incoming@.len() > 0 {
                &&& final(regs).incoming@ == old(regs).incoming@.skip(1)
                &&& final(regs).rx_fifo@ == (if old(regs).rx_fifo@.len() < SPI_FIFO_DEPTH {
                    old(regs).rx_fifo@.push(old(regs).incoming@[0])
                } else {
                    old(regs).rx_fifo@
                })
            } else {
                final(regs).incoming@ == old(regs).incoming@ && final(regs).rx_fifo@ == old(
                    regs,
                ).rx_fifo@
            }
        }),
        final(regs).control0 == old(regs).control0,
        final(regs).control1 == old(regs).control1,
{
    let entry = regs.tx_fifo.remove(0);
    shift_entry(regs, entry);
    regs.busy = regs.tx_fifo.len() > 0;
}

/// The SPI interrupt routine: disarm both interrupt sources in the second
/// control register and take the stored waker for the caller to wake.
pub fn interrupt_handler(regs: &mut SpiRegisters, slot: &mut Option<u64>) -> (woken: Option<u64>)
    ensures
        final(regs).control1 == old(regs).control1 & !(0b11u32 << 6),
        *final(regs) == (SpiRegisters { control1: final(regs).control1, ..*old(regs) }),
        final(slot).is_none(),
        woken == *old(slot),
{
    regs.control1 = regs.control1 & !(0b11u32 << 6);
    wake(slot)
}


/// A byte stream packs into exactly one entry per chunk.
pub proof fn lemma_entries_len(s: Seq<u8>, msb_first: bool)
    ensures
        spec_entries(s, msb_first).len() == spec_chunk_count(s.len() as int),
    decreases s.len(),
{
    if s.len() > 3 {
        lemma_entries_len(s.skip(3), msb_first);
    }
}

/// Packing distributes over a chunk appended to an aligned stream: the
/// new chunk contributes exactly one further entry.
pub proof fn lemma_entries_append_chunk(s: Seq<u8>, t: Seq<u8>, msb_first: bool)
    requires
        s.len() % 3 == 0,
        1 <= t.len() <= 3,
    ensures
        spec_entries(s + t, msb_first) == spec_entries(s, msb_first) + seq![
            spec_entry(t, msb_first),
        ],
    decreases s.len(),
{
    if s.len() == 0 {
        assert(s + t =~= t);
        assert(spec_entries(s, msb_first) + seq![spec_entry(t, msb_first)] =~= seq![
            spec_entry(t, msb_first),
        ]);
    } else {
        let u = s + t;
        assert(u.len() > 3);
        assert(u.take(3) =~= s.take(3));
        assert(u.skip(3) =~= s.skip(3) + t);
        lemma_entries_append_chunk(s.skip(3), t, msb_first);
        assert(spec_entries(u, msb_first) =~= spec_entries(s, msb_first) + seq![
            spec_entry(t, msb_first),
        ]);
    }
}

/// An asynchronous write: tracks how many bytes of the stream have been
/// handed to the transmit FIFO across polls.
pub struct WriteFut {
    sent: usize,
}

impl WriteFut {
    /// How many bytes were handed over so far.
    pub closed spec fn spec_sent(&self) -> int {
        self.sent as int
    }

    /// A fresh future with nothing sent.
    pub fn new() -> (r: WriteFut)
        ensures
            r.spec_sent() == 0,
    {
        WriteFut { sent: 0 }
    }

    /// One poll: enqueue entries while the transmit FIFO has room and
    /// bytes remain; complete once every byte has been handed over (the
    /// FIFO drains on its own), else store the waker, arm the TX-empty
    /// interrupt and park.
    pub fn poll(
        &mut self,
        regs: &mut SpiRegisters,
        words: &Vec<u8>,
        slot: &mut Option<u64>,
        waker: u64,
    ) -> (r: Poll<()>)
        requires
            old(regs).wf(),
            old(self).spec_sent() <= words@.len(),
            old(self).spec_sent() % 3 == 0 || old(self).spec_sent() == words@.len(),
        ensures
            final(regs).wf(),
            old(self).spec_sent() <= final(self).spec_sent() <= words@.len(),
            final(self).spec_sent() % 3 == 0 || final(self).spec_sent() == words@.len(),
            final(regs).tx_fifo@ == old(regs).tx_fifo@ + spec_entries(
                words@.subrange(old(self).spec_sent(), final(self).spec_sent()),
                bit_set(old(regs).control0, 6),
            ),
            r is Ready <==> final(self).spec_sent() == words@.len(),
            final(self).spec_sent() == words@.len() || final(regs).tx_fifo@.len()
                == SPI_FIFO_DEPTH,
            r is Ready ==> final(regs).control1 == old(regs).control1 && *final(slot) == *old(
                slot,
            ),
            r is Pending ==> final(regs).control1 == (old(regs).control1 | (1u32 << 7))
                && *final(slot) == Some(waker),
            *final(regs) == (SpiRegisters {
                tx_fifo: final(regs).tx_fifo,
                control1: final(regs).control1,
                ..*old(regs)
            }),
    {
        let ms_bit_first = regs.control0 & (1u32 << 6) != 0;
        let ghost start = self.sent as int;
        proof {
            assert(words@.subrange(start, start) =~= Seq::<u8>::empty());
            assert(regs.tx_fifo@ =~= old(regs).tx_fifo@ + spec_entries(
                words@.subrange(start, start),
                ms_bit_first,
            ));
        }
        while regs.tx_fifo.len() < SPI_FIFO_DEPTH && self.sent < words.len()
            invariant
                0 <= start <= self.sent as int <= words@.len(),
                self.sent as int % 3 == 0 || self.sent as int == words@.len(),
                start % 3 == 0 || start == words@.len(),
                regs.wf(),
                ms_bit_first == bit_set(old(regs).control0, 6),
                regs.tx_fifo@ == old(regs).tx_fifo@ + spec_entries(
                    words@.subrange(start, self.sent as int),
                    ms_bit_first,
                ),
                *regs == (SpiRegisters { tx_fifo: regs.tx_fifo, ..*old(regs) }),
            decreases words@.len() - self.sent,
        {
            let chunk = chunk_at(words, self.sent);
            let entry = to_entry(&chunk, ms_bit_first);
            regs.tx_fifo.push(entry);
            proof {
                let done = words@.subrange(start, self.sent as int);
                assert(done.len() % 3 == 0);
                lemma_entries_append_chunk(done, chunk@, ms_bit_first);
                assert(words@.subrange(start, self.sent + chunk@.len()) =~= done + chunk@);
                assert(regs.tx_fifo@ =~= old(regs).tx_fifo@ + spec_entries(
                    words@.subrange(start, self.sent + chunk@.len()),
                    ms_bit_first,
                ));
            }
            self.sent = self.sent + chunk.len();
        }
        if self.sent >= words.len() {
            Poll::Ready(())
        } else {
            let _ = set_waker(slot, waker);
            regs.control1 = regs.control1 | (1u32 << 7);
            Poll::Pending
        }
    }
}

/// An asynchronous full-duplex transfer in place, tracking how many
/// chunks have been sent and how many answers have been folded back into
/// the buffer.
pub struct TransferInPlaceFut {
    tx_index: usize,
    rx_index: usize,
}

impl TransferInPlaceFut {
    /// Chunks already handed to the transmit FIFO.
    pub closed spec fn spec_tx_index(&self) -> int {
        self.tx_index as int
    }

    /// Chunks whose answers were already folded back.
    pub closed spec fn spec_rx_index(&self) -> int {
        self.rx_index as int
    }

    /// A fresh future with nothing exchanged.
    pub fn new() -> (r: TransferInPlaceFut)
        ensures
            r.spec_tx_index() == 0,
            r.spec_rx_index() == 0,
    {
        TransferInPlaceFut { tx_index: 0, rx_index: 0 }
    }

    /// One poll, preferring whichever side can make progress: drain every
    /// received entry into its chunk of the buffer; complete when the
    /// last chunk's answer is in; with everything sent but answers still
    /// outstanding, arm the DONE interrupt and park; otherwise refill the
    /// transmit FIFO from the untouched tail of the buffer, arm the
    /// TX-empty interrupt and park.
    pub fn poll(
        &mut self,
        regs: &mut SpiRegisters,
        words: &mut Vec<u8>,
        slot: &mut Option<u64>,
        waker: u64,
    ) -> (r: Poll<()>)
        requires
            old(regs).wf(),
            old(self).spec_rx_index() <= old(self).spec_tx_index() <= spec_chunk_count(
                old(words)@.len() as int,
            ),
            old(regs).rx_fifo@.len() <= old(self).spec_tx_index() - old(self).spec_rx_index(),
        ensures
            final(regs).wf(),
            final(words)@.len() == old(words)@.len(),
            final(regs).rx_fifo@.len() == 0,
            final(self).spec_rx_index() == old(self).spec_rx_index() + old(regs).rx_fifo@.len(),
            final(words)@ == spec_apply_entries(
                old(words)@,
                old(self).spec_rx_index(),
                old(regs).rx_fifo@,
                bit_set(old(regs).control1, 0),
            ),
            final(self).spec_rx_index() <= final(self).spec_tx_index() <= spec_chunk_count(
                old(words)@.len() as int,
            ),
            r is Ready <==> final(self).spec_rx_index() == spec_chunk_count(
                old(words)@.len() as int,
            ),
            r is Ready ==> final(self).spec_tx_index() == old(self).spec_tx_index()
                && final(regs).tx_fifo@ == old(regs).tx_fifo@ && final(regs).control1 == old(
                regs,
            ).control1 && *final(slot) == *old(slot),
            r is Pending ==> *final(slot) == Some(waker),
            r is Pending && old(self).spec_tx_index() == spec_chunk_count(old(words)@.len() as int)
                ==> final(regs).control1 == (old(regs).control1 | (1u32 << 6))
                && final(regs).tx_fifo@ == old(regs).tx_fifo@ && final(self).spec_tx_index()
                == old(self).spec_tx_index(),
            r is Pending && old(self).spec_tx_index() < spec_chunk_count(old(words)@.len() as int)
                ==> ({
                let total = spec_chunk_count(old(words)@.len() as int);
                let sent_end = if total - old(self).spec_tx_index() <= SPI_FIFO_DEPTH - old(
                    regs,
                ).tx_fifo@.len() {
                    old(words)@.len() as int
                } else {
                    3 * (old(self).spec_tx_index() + SPI_FIFO_DEPTH - old(regs).tx_fifo@.len())
                };
                &&& final(regs).control1 == (old(regs).control1 | (1u32 << 7))
                &&& final(regs).tx_fifo@ == old(regs).tx_fifo@ + spec_entries(
                    old(words)@.subrange(3 * old(self).spec_tx_index(), sent_end),
                    bit_set(old(regs).control0, 6),
                )
            }),
            final(regs).shifted_out@ == old(regs).shifted_out@,
            final(regs).incoming@ == old(regs).incoming@,
            final(regs).control0 == old(regs).control0,
            final(regs).busy == old(regs).busy,
    {
        let out_ms_bit_first = regs.control0 & (1u32 << 6) != 0;
        let in_ms_bit_first = regs.control1 & (1u32 << 0) != 0;
        let total_bytes = words.len();
        let total = if total_bytes % 3 == 0 {
            total_bytes / 3
        } else {
            total_bytes / 3 + 1
        };
        proof {
            assert(total as int == spec_chunk_count(total_bytes as int));
        }

        // Fold every received answer back into its chunk.
        let ghost old_rx = regs.rx_fifo@;
        let ghost old_words = words@;
        let ghost old_rxi = old(self).spec_rx_index();
        let d = regs.rx_fifo.len();
        let mut t: usize = 0;
        proof {
            assert(old_rx.subrange(0, d as int) =~= old_rx);
            assert(old_rx.skip(0) =~= old_rx);
        }
        while t < d
            invariant
                t <= d,
                d == old_rx.len(),
                self.tx_index == old(self).spec_tx_index(),
                self.rx_index as int == old_rxi + t,
                old_rxi + d <= self.tx_index as int <= (total as int),
                total as int == spec_chunk_count(old_words.len() as int),
                words@.len() == old_words.len(),
                old_words.len() == total_bytes,
                regs.wf(),
                regs.rx_fifo@ == old_rx.skip(t as int),
                in_ms_bit_first == bit_set(old(regs).control1, 0),
                forall|p: int| 3 * (self.tx_index as int) <= p < words@.len()
                    ==> words@[p] == old_words[p],
                spec_apply_entries(old_words, old_rxi, old_rx, in_ms_bit_first)
                    == spec_apply_entries(
                    words@,
                    self.rx_index as int,
                    old_rx.subrange(t as int, d as int),
                    in_ms_bit_first,
                ),
                *regs == (SpiRegisters { rx_fifo: regs.rx_fifo, ..*old(regs) }),
            decreases d - t,
        {
            let response = regs.rx_fifo.remove(0);
            let at = 3 * self.rx_index;
            proof {
                assert((self.rx_index as int) < (total as int));
                assert(3 * (self.rx_index as int) < old_words.len() as int) by (nonlinear_arith)
                    requires
                        self.rx_index as int <= (old_words.len() as int + 2) / 3 - 1,
                        old_words.len() >= 0,
                ;
            }
            let ghost prev_words = words@;
            let mut decoded = chunk_at(words, at);
            from_entry(&mut decoded, response, in_ms_bit_first);
            let clen = decoded.len();
            write_back(words, at, &decoded);
            proof {
                let k = self.rx_index as int;
                let entries_rest = old_rx.subrange(t as int, d as int);
                assert(entries_rest[0] == old_rx[t as int]);
                let c = spec_chunk_size(prev_words.len() as int, k);
                assert(c == clen as int);
                assert(words@ =~= prev_words.take(3 * k) + spec_decode(
                    c,
                    response,
                    in_ms_bit_first,
                ) + prev_words.skip(3 * k + c));
                assert(entries_rest.skip(1) =~= old_rx.subrange(t + 1, d as int));
                assert(regs.rx_fifo@ =~= old_rx.skip(t + 1));
            }
            self.rx_index = self.rx_index + 1;
            t = t + 1;
        }
        proof {
            assert(old_rx.subrange(d as int, d as int) =~= Seq::<u32>::empty());
        }

        if self.rx_index >= total {
            return Poll::Ready(());
        }
        if self.tx_index >= total {
            // Everything is queued; wait for the last answers.
            let _ = set_waker(slot, waker);
            regs.control1 = regs.control1 | (1u32 << 6);
            return Poll::Pending;
        }

        // Refill the transmit FIFO from the untouched tail.
        let ghost start = 3 * (self.tx_index as int);
        let ghost old_tx = regs.tx_fifo@;
        proof {
            assert(3 * (self.tx_index as int) < old_words.len()) by (nonlinear_arith)
                requires
                    self.tx_index as int <= (old_words.len() as int + 2) / 3 - 1,
                    old_words.len() >= 0,
            ;
            assert(old_words.subrange(start, start) =~= Seq::<u8>::empty());
            assert(regs.tx_fifo@ =~= old_tx + spec_entries(
                old_words.subrange(start, start),
                out_ms_bit_first,
            ));
        }
        while regs.tx_fifo.len() < SPI_FIFO_DEPTH && self.tx_index < total
            invariant
                old(self).spec_tx_index() <= self.tx_index as int <= (total as int),
                self.rx_index as int == old_rxi + d,
                self.rx_index as int <= old(self).spec_tx_index(),
                total as int == spec_chunk_count(old_words.len() as int),
                words@.len() == old_words.len(),
                old_words.len() == total_bytes,
                start == 3 * old(self).spec_tx_index(),
                regs.wf(),
                regs.rx_fifo@.len() == 0,
                regs.tx_fifo@.len() == old_tx.len() + (self.tx_index as int - old(
                    self,
                ).spec_tx_index()),
                out_ms_bit_first == bit_set(old(regs).control0, 6),
                (self.tx_index as int) == (total as int) ==> regs.tx_fifo@ == old_tx
                    + spec_entries(
                    old_words.subrange(start, old_words.len() as int),
                    out_ms_bit_first,
                ),
                (self.tx_index as int) < (total as int) ==> regs.tx_fifo@ == old_tx
                    + spec_entries(
                    old_words.subrange(start, 3 * (self.tx_index as int)),
                    out_ms_bit_first,
                ),
                forall|p: int| start <= p < old_words.len() ==> words@[p] == old_words[p],
                *regs == (SpiRegisters {
                    rx_fifo: regs.rx_fifo,
                    tx_fifo: regs.tx_fifo,
                    ..*old(regs)
                }),
            decreases total - self.tx_index,
        {
            proof {
                assert(3 * (self.tx_index as int) < old_words.len() as int) by (nonlinear_arith)
                    requires
                        self.tx_index as int <= (old_words.len() as int + 2) / 3 - 1,
                        old_words.len() >= 0,
                ;
            }
            let at = 3 * self.tx_index;
            let chunk = chunk_at(words, at);
            proof {
                assert(forall|p: int| start <= p < old_words.len() ==> words@[p] == old_words[p]);
                let rxi = self.rx_index as int;
                let txi0 = start / 3;
                assert(3 * rxi <= start) by (nonlinear_arith)
                    requires
                        rxi <= txi0,
                        start == 3 * txi0,
                ;
                assert(chunk@ =~= old_words.subrange(
                    at as int,
                    vstd::math::min(at + 3, old_words.len() as int),
                ));
            }
            let entry = to_entry(&chunk, out_ms_bit_first);
            regs.tx_fifo.push(entry);
            proof {
                let done = old_words.subrange(start, 3 * (self.tx_index as int));
                assert(done.len() % 3 == 0);
                lemma_entries_append_chunk(done, chunk@, out_ms_bit_first);
                if at + 3 <= old_words.len() {
                    assert(old_words.subrange(start, at + 3) =~= done + chunk@);
                    assert(regs.tx_fifo@ =~= old_tx + spec_entries(
                        old_words.subrange(start, at + 3),
                        out_ms_bit_first,
                    ));
                    assert((self.tx_index + 1) as int == total as int ==> at + 3
                        == old_words.len()) by (nonlinear_arith)
                        requires
                            at == 3 * (self.tx_index as int),
                            total as int == (old_words.len() as int + 2) / 3,
                            at + 3 <= old_words.len(),
                    ;
                } else {
                    assert(old_words.subrange(start, old_words.len() as int) =~= done + chunk@);
                    assert(regs.tx_fifo@ =~= old_tx + spec_entries(
                        old_words.subrange(start, old_words.len() as int),
                        out_ms_bit_first,
                    ));
                    assert((self.tx_index + 1) as int == total as int) by (nonlinear_arith)
                        requires
                            at == 3 * (self.tx_index as int),
                            total as int == (old_words.len() as int + 2) / 3,
                            at < old_words.len(),
                            old_words.len() < at + 3,
                    ;
                }
            }
            self.tx_index = self.tx_index + 1;
        }
        let _ = set_waker(slot, waker);
        regs.control1 = regs.control1 | (1u32 << 7);
        Poll::Pending
    }
}

/// An asynchronous flush.
pub struct FlushFut {

}

impl FlushFut {
    /// One poll: with the bus idle, clear both FIFOs and complete;
    /// otherwise store the waker, arm the DONE interrupt and park.
    pub fn poll(
        &mut self,
        regs: &mut SpiRegisters,
        slot: &mut Option<u64>,
        waker: u64,
    ) -> (r: Poll<()>)
        requires
            old(regs).wf(),
        ensures
            final(regs).wf(),
            !old(regs).busy ==> {
                &&& r is Ready
                &&& final(regs).tx_fifo@.len() == 0
                &&& final(regs).rx_fifo@.len() == 0
                &&& *final(slot) == *old(slot)
                &&& *final(regs) == (SpiRegisters {
                    tx_fifo: final(regs).tx_fifo,
                    rx_fifo: final(regs).rx_fifo,
                    ..*old(regs)
                })
            },
            old(regs).busy ==> {
                &&& r is Pending
                &&& *final(slot) == Some(waker)
                &&& final(regs).control1 == (old(regs).control1 | (1u32 << 6))
                &&& *final(regs) == (SpiRegisters {
                    control1: final(regs).control1,
                    ..*old(regs)
                })
            },
    {
        if regs.busy {
            let _ = set_waker(slot, waker);
            regs.control1 = regs.control1 | (1u32 << 6);
            Poll::Pending
        } else {
            regs.tx_fifo = Vec::new();
            regs.rx_fifo = Vec::new();
            Poll::Ready(())
        }
    }
}

} // verus!
