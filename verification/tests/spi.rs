use rpi::aux::spi::mode::{Mode, Variable};
use rpi::aux::spi::{
    from_entry, interrupt_handler, shift_one, to_entry, Config, CsHighTime, DataOutHold,
    FlushFut, Polarity, Speed, Spi1, SpiRegisters, TransferInPlaceFut, WriteFut,
};
use rpi::aux::AuxRegisters;
use rpi::gpio::state::Alternate4;
use rpi::gpio::{GpioRegisters, GpioSet, Pin};

fn test_config() -> Config {
    Config {
        speed: Speed::new(499),
        post_input: false,
        data_out_hold: DataOutHold::H0,
        in_rising: false,
        out_rising: false,
        out_most_significant_first: true,
        in_most_significant_first: false,
        extra_cs_high_time: CsHighTime::new(0),
        keep_input: false,
        polarity: Polarity::IdleHigh,
    }
}

fn acquire_spi(
    aux: &mut AuxRegisters,
    regs: &mut SpiRegisters,
    config: &Config,
) -> Spi1 {
    let mut set = GpioSet::new();
    let mut gregs = GpioRegisters::new();
    let miso = Pin::<19, Alternate4>::get(&mut set, &mut gregs).unwrap();
    let mosi = Pin::<20, Alternate4>::get(&mut set, &mut gregs).unwrap();
    let sclk = Pin::<21, Alternate4>::get(&mut set, &mut gregs).unwrap();
    Spi1::get(miso, mosi, sclk, config, aux, regs).unwrap()
}

#[test]
fn entry_packing_lsb() {
    // Chunks pack into the low 24 bits with the shift count in bits above.
    assert_eq!(to_entry(&vec![0xAB], false), 0xAB | (8 << 24));
    assert_eq!(to_entry(&vec![0x12, 0x34], false), 0x12 | (0x34 << 8) | (16 << 24));
    assert_eq!(
        to_entry(&vec![0x12, 0x34, 0x56], false),
        0x12 | (0x34 << 8) | (0x56 << 16) | (24 << 24)
    );
}

#[test]
fn entry_packing_msb() {
    assert_eq!(to_entry(&vec![0xAB], true), 0xAB | (8 << 24));
    assert_eq!(to_entry(&vec![0x12, 0x34], true), 0x34 | (0x12 << 8) | (16 << 24));
    assert_eq!(
        to_entry(&vec![0x12, 0x34, 0x56], true),
        0x56 | (0x34 << 8) | (0x12 << 16) | (24 << 24)
    );
}

#[test]
fn entry_round_trip() {
    for msb in [false, true] {
        let chunk: Vec<u8> = vec![0xDE, 0xAD, 0xBE];
        let entry = to_entry(&chunk, msb);
        let mut decoded: Vec<u8> = vec![0; 3];
        from_entry(&mut decoded, entry, msb);
        assert_eq!(decoded, chunk);

        let short: Vec<u8> = vec![0x7F, 0x80];
        let entry = to_entry(&short, msb);
        let mut decoded: Vec<u8> = vec![0; 2];
        from_entry(&mut decoded, entry, msb);
        assert_eq!(decoded, short);
    }
}

#[test]
fn spi_claim_is_exclusive() {
    let mut aux = AuxRegisters { irq_status: 0, enables: 0 };
    let mut regs = SpiRegisters::new();
    let config = test_config();
    let _spi = acquire_spi(&mut aux, &mut regs, &config);
    assert_eq!(aux.enables & 0b10, 0b10);

    let mut set = GpioSet::new();
    let mut gregs = GpioRegisters::new();
    let miso = Pin::<19, Alternate4>::get(&mut set, &mut gregs).unwrap();
    let mosi = Pin::<20, Alternate4>::get(&mut set, &mut gregs).unwrap();
    let sclk = Pin::<21, Alternate4>::get(&mut set, &mut gregs).unwrap();
    assert!(Spi1::get(miso, mosi, sclk, &config, &mut aux, &mut regs).is_none());
}

#[test]
fn control_registers_from_config() {
    let mut aux = AuxRegisters { irq_status: 0, enables: 0 };
    let mut regs = SpiRegisters::new();
    let config = test_config();
    let _spi = acquire_spi(&mut aux, &mut regs, &config);
    // Speed 499 in bits 20.., variable mode, enable, idle-high polarity,
    // MSB-first out.
    let expected0 = (499 << 20) | (1 << 14) | (1 << 11) | (1 << 7) | (1 << 6);
    assert_eq!(regs.control0, expected0);
    assert_eq!(regs.control1, 0);
}

#[test]
fn spi_short_burst() {
    // Configure SPI1 MSB-first, idle-high, speed 499; write four bytes;
    // afterwards the TX level is zero and the bus is idle.
    let mut aux = AuxRegisters { irq_status: 0, enables: 0 };
    let mut regs = SpiRegisters::new();
    let config = test_config();
    let mut spi = acquire_spi(&mut aux, &mut regs, &config);

    spi.write(&mut regs, &vec![0x2A, 0x2B, 0x2C, 0x2D]);
    assert_eq!(regs.tx_fifo.len(), 0, "TX level is zero after the burst");
    assert!(!spi.busy(&regs), "the bus is idle after the burst");
    assert_eq!(
        regs.shifted_out,
        vec![
            0x2C | (0x2B << 8) | (0x2A << 16) | (24 << 24),
            0x2D | (8 << 24),
        ],
        "the wire carried one full chunk and one short one"
    );
}

#[test]
fn transfer_in_place_exchanges_chunks() {
    let mut aux = AuxRegisters { irq_status: 0, enables: 0 };
    let mut regs = SpiRegisters::new();
    let config = Config { out_most_significant_first: false, ..test_config() };
    let mut spi = acquire_spi(&mut aux, &mut regs, &config);

    let answer0 = to_entry(&vec![0x11, 0x22, 0x33], false);
    let answer1 = to_entry(&vec![0x44], false);
    regs.incoming = vec![answer0, answer1];

    let mut words: Vec<u8> = vec![0xA0, 0xA1, 0xA2, 0xA3];
    spi.transfer_in_place(&mut regs, &mut words);
    assert_eq!(words, vec![0x11, 0x22, 0x33, 0x44]);
    assert_eq!(
        regs.shifted_out,
        vec![
            0xA0 | (0xA1 << 8) | (0xA2 << 16) | (24 << 24),
            0xA3 | (8 << 24),
        ]
    );
    assert!(regs.incoming.is_empty());
    assert!(!regs.busy);
}

#[test]
fn transfer_with_longer_write() {
    let mut aux = AuxRegisters { irq_status: 0, enables: 0 };
    let mut regs = SpiRegisters::new();
    let config = Config { out_most_significant_first: false, ..test_config() };
    let mut spi = acquire_spi(&mut aux, &mut regs, &config);

    let tail_answer = to_entry(&vec![0x55, 0x66], false);
    regs.incoming = vec![to_entry(&vec![0x99], false), tail_answer];
    let mut read: Vec<u8> = vec![0];
    let write: Vec<u8> = vec![0x10, 0x20, 0x30];
    spi.transfer(&mut regs, &mut read, &write);
    assert_eq!(read, vec![0x99]);
    // The exchanged prefix goes out first, the tail of the write after.
    assert_eq!(
        regs.shifted_out,
        vec![0x10 | (8 << 24), 0x20 | (0x30 << 8) | (16 << 24)]
    );
    // The tail's answer entered the receive FIFO; nobody read it.
    assert_eq!(regs.rx_fifo, vec![tail_answer]);
    assert!(regs.incoming.is_empty());
}

#[test]
fn write_future_fills_then_parks() {
    let mut aux = AuxRegisters { irq_status: 0, enables: 0 };
    let mut regs = SpiRegisters::new();
    let config = Config { out_most_significant_first: false, ..test_config() };
    let _spi = acquire_spi(&mut aux, &mut regs, &config);

    // Fifteen bytes = five chunks: more than the four-entry FIFO.
    let words: Vec<u8> = (0..15).collect();
    let mut fut = WriteFut::new();
    let mut slot: Option<u64> = None;

    let polled = fut.poll(&mut regs, &words, &mut slot, 2);
    assert!(!polled.is_ready());
    assert_eq!(regs.tx_fifo.len(), 4, "the FIFO is filled to its depth");
    assert_eq!(slot, Some(2));
    assert_ne!(regs.control1 & (1 << 7), 0, "the TX-empty interrupt is armed");

    // The hardware shifts everything out and the interrupt fires.
    while !regs.tx_fifo.is_empty() {
        shift_one(&mut regs);
    }
    let woken = interrupt_handler(&mut regs, &mut slot);
    assert_eq!(woken, Some(2));
    assert_eq!(regs.control1 & (0b11 << 6), 0, "both sources are masked");

    let polled = fut.poll(&mut regs, &words, &mut slot, 2);
    assert!(polled.is_ready());
    assert_eq!(regs.tx_fifo.len(), 1, "the last chunk is queued");

    // Everything that left the FIFO is the packed byte stream, in order.
    while !regs.tx_fifo.is_empty() {
        shift_one(&mut regs);
    }
    let expected: Vec<u32> = vec![
        to_entry(&vec![0, 1, 2], false),
        to_entry(&vec![3, 4, 5], false),
        to_entry(&vec![6, 7, 8], false),
        to_entry(&vec![9, 10, 11], false),
        to_entry(&vec![12, 13, 14], false),
    ];
    assert_eq!(regs.shifted_out, expected);
}

#[test]
fn transfer_future_alternates_sides() {
    let mut aux = AuxRegisters { irq_status: 0, enables: 0 };
    let mut regs = SpiRegisters::new();
    let config = Config { out_most_significant_first: false, ..test_config() };
    let _spi = acquire_spi(&mut aux, &mut regs, &config);

    let mut words: Vec<u8> = vec![1, 2, 3, 4, 5, 6];
    regs.incoming = vec![to_entry(&vec![7, 8, 9], false), to_entry(&vec![10, 11, 12], false)];
    let mut fut = TransferInPlaceFut::new();
    let mut slot: Option<u64> = None;

    // First poll: nothing received yet, both chunks fit the FIFO.
    let polled = fut.poll(&mut regs, &mut words, &mut slot, 6);
    assert!(!polled.is_ready());
    assert_eq!(regs.tx_fifo.len(), 2);

    // The hardware exchanges both entries.
    shift_one(&mut regs);
    shift_one(&mut regs);
    assert_eq!(regs.rx_fifo.len(), 2);

    // Second poll drains the answers and completes.
    let polled = fut.poll(&mut regs, &mut words, &mut slot, 6);
    assert!(polled.is_ready());
    assert_eq!(words, vec![7, 8, 9, 10, 11, 12]);
}

#[test]
fn flush_future_waits_for_idle() {
    let mut regs = SpiRegisters::new();
    let mut fut = FlushFut {};
    let mut slot: Option<u64> = None;

    regs.busy = true;
    let polled = fut.poll(&mut regs, &mut slot, 8);
    assert!(!polled.is_ready());
    assert_eq!(slot, Some(8));
    assert_ne!(regs.control1 & (1 << 6), 0, "the DONE interrupt is armed");

    regs.busy = false;
    regs.rx_fifo = vec![5];
    let polled = fut.poll(&mut regs, &mut slot, 8);
    assert!(polled.is_ready());
    assert!(regs.rx_fifo.is_empty(), "completion clears the FIFOs");
}

#[test]
fn release_disables_the_peripheral() {
    let mut aux = AuxRegisters { irq_status: 0, enables: 0 };
    let mut regs = SpiRegisters::new();
    let config = test_config();
    let spi = acquire_spi(&mut aux, &mut regs, &config);
    let _pins = spi.release(&mut aux, &mut regs);
    assert_eq!(aux.enables & 0b10, 0);
    assert_eq!(regs.control0, 1 << 11);
}

#[test]
fn blocking_flush_drains_and_clears() {
    let mut regs = SpiRegisters::new();
    let mut aux = AuxRegisters { irq_status: 0, enables: 0 };
    let config = test_config();
    let mut spi = acquire_spi(&mut aux, &mut regs, &config);
    regs.tx_fifo = vec![0x0A, 0x0B];
    regs.rx_fifo = vec![0x0C];
    regs.busy = true;
    spi.flush(&mut regs);
    assert_eq!(regs.shifted_out, vec![0x0A, 0x0B], "queued entries finish first");
    assert!(regs.tx_fifo.is_empty());
    assert!(regs.rx_fifo.is_empty());
    assert!(!regs.busy);
}

#[test]
fn clear_fifos_preserves_control() {
    let mut regs = SpiRegisters::new();
    let mut aux = AuxRegisters { irq_status: 0, enables: 0 };
    let config = test_config();
    let mut spi = acquire_spi(&mut aux, &mut regs, &config);
    let control_before = regs.control0;
    regs.tx_fifo = vec![1];
    regs.rx_fifo = vec![2];
    spi.clear_fifos(&mut regs);
    assert!(regs.tx_fifo.is_empty());
    assert!(regs.rx_fifo.is_empty());
    assert_eq!(regs.control0, control_before);
}

#[test]
fn variable_mode_mask() {
    // Variable mode turns on both the variable-length and variable-CS
    // bits of the first control register.
    assert_eq!(Variable::config_mask(), 0b11 << 14);
}

#[test]
fn blocking_write_collects_answers_until_full() {
    let mut aux = AuxRegisters { irq_status: 0, enables: 0 };
    let mut regs = SpiRegisters::new();
    let config = Config { out_most_significant_first: false, ..test_config() };
    let mut spi = acquire_spi(&mut aux, &mut regs, &config);

    // Six chunks go out; the remote answers each, but the receive FIFO
    // holds only four — the rest is lost on the wire.
    regs.incoming = (1..=6).collect();
    let words: Vec<u8> = (0..18).collect();
    spi.write(&mut regs, &words);
    assert_eq!(regs.rx_fifo, vec![1, 2, 3, 4], "answers beyond the depth are lost");
    assert!(regs.incoming.is_empty(), "every shifted entry consumed its answer");

    // A quiet wire gives nothing back.
    let mut quiet = SpiRegisters::new();
    let mut spi2 = acquire_spi(&mut AuxRegisters { irq_status: 0, enables: 0 }, &mut quiet, &config);
    spi2.write(&mut quiet, &vec![1, 2, 3]);
    assert!(quiet.rx_fifo.is_empty());
}

#[test]
fn flush_discards_the_drained_answers() {
    let mut regs = SpiRegisters::new();
    let mut aux = AuxRegisters { irq_status: 0, enables: 0 };
    let config = test_config();
    let mut spi = acquire_spi(&mut aux, &mut regs, &config);
    regs.tx_fifo = vec![0x0A, 0x0B];
    regs.incoming = vec![0x1A, 0x1B, 0x1C];
    spi.flush(&mut regs);
    assert_eq!(regs.incoming, vec![0x1C], "the draining entries consumed their answers");
    assert!(regs.rx_fifo.is_empty(), "what they brought in was cleared");
}
