use rpi::aux::uart::registers::MiniUartRegisters;
use rpi::aux::uart::reader::{Error, ReadExactFut, ReadFut, Reader};
use rpi::aux::uart::writer::Writer;
use rpi::aux::uart::{pair, BaudRate, BitMode, Config};
use rpi::aux::AuxRegisters;
use rpi::gpio::state::{Alternate5, Input};
use rpi::gpio::{GpioRegisters, GpioSet, Pin};
use rpi::uart::MiniUart;

fn config_115200_8n1() -> Config {
    Config { baud_rate: BaudRate::new(115200), bit_mode: BitMode::EightBits }
}

#[test]
fn baud_register_value() {
    // BAUD = 250_000_000 / (8 * rate) - 1, exactly.
    assert_eq!(BaudRate::new(115200).register_value(), 270);
    assert_eq!(BaudRate::new(476).register_value(), 65650);
    assert_eq!(BaudRate::new(31_250_000).register_value(), 0);
    assert_eq!(BaudRate::new(9600).register_value(), 3254);
}

#[test]
fn uart_loopback() {
    // RX pin 15 shorted to TX pin 14: what the transmitter sends is what
    // the receiver reads.
    let mut set = GpioSet::new();
    let mut gregs = GpioRegisters::new();
    let mut aux = AuxRegisters { irq_status: 0, enables: 0 };
    let mut regs = MiniUartRegisters::new();

    let uart = MiniUart::get(&mut aux, &mut regs).unwrap();
    let mut uart = uart;
    uart.set_bit_mode(&mut regs, true);
    uart.set_baud_rate(&mut regs, 115200);
    assert_eq!(regs.baud, 270);
    assert_eq!(regs.line_control, 3);

    let tx_pin = Pin::<14, Alternate5>::get(&mut set, &mut gregs).unwrap();
    let rx_pin = Pin::<15, Alternate5>::get(&mut set, &mut gregs).unwrap();
    let mut rx_tx = uart.enable_transmitter(tx_pin, &mut regs).enable_receiver(rx_pin, &mut regs);

    let message: Vec<u8> = b"Hello, world!\n".to_vec();
    assert_eq!(message.len(), 14);
    rx_tx.send_blocking(&mut regs, &message);
    assert_eq!(regs.tx_sent, message);

    // The loopback wire: every transmitted byte arrives on RX.
    regs.rx_fifo = regs.tx_sent.clone();

    let mut buf: Vec<u8> = vec![0; 14];
    rx_tx.receive_exact(&mut regs, &mut buf);
    assert_eq!(buf, message, "the read buffer equals the write buffer");
}

#[test]
fn mini_uart_claim_is_exclusive() {
    let mut aux = AuxRegisters { irq_status: 0, enables: 0 };
    let mut regs = MiniUartRegisters::new();
    let first = MiniUart::get(&mut aux, &mut regs);
    assert!(first.is_some());
    let second = MiniUart::get(&mut aux, &mut regs);
    assert!(second.is_none(), "the enable bit is already claimed");
    let mut set = GpioSet::new();
    first.unwrap().release(&mut aux, &mut set);
    assert!(MiniUart::get(&mut aux, &mut regs).is_some());
}

#[test]
fn nonblocking_receive_returns_partial_count() {
    let mut aux = AuxRegisters { irq_status: 0, enables: 0 };
    let mut regs = MiniUartRegisters::new();
    let mut set = GpioSet::new();
    let mut gregs = GpioRegisters::new();
    let uart = MiniUart::get(&mut aux, &mut regs).unwrap();
    let rx_pin = Pin::<15, Alternate5>::get(&mut set, &mut gregs).unwrap();
    let mut rx = uart.enable_receiver(rx_pin, &mut regs);

    regs.rx_fifo = vec![1, 2, 3];
    let mut buf: Vec<u8> = vec![0; 8];
    let count = rx.receive(&mut regs, &mut buf);
    assert_eq!(count, 3);
    assert_eq!(&buf[..3], &[1, 2, 3]);
    assert_eq!(buf[3], 0);
}

#[test]
fn reader_and_writer_split() {
    let mut regs = MiniUartRegisters::new();
    let mut set = GpioSet::new();
    let mut gregs = GpioRegisters::new();
    let config = config_115200_8n1();
    let rx_pin = Pin::<15, Alternate5>::get(&mut set, &mut gregs).unwrap();
    let tx_pin = Pin::<14, Alternate5>::get(&mut set, &mut gregs).unwrap();

    let split = pair(rx_pin, tx_pin, &config, &mut regs);
    let (mut reader, mut writer) = split.unwrap();
    assert_eq!(regs.extra_control, 0b11);
    assert_eq!(regs.baud, 270);

    // A second claim of either half fails while the first is live.
    let rx2 = Pin::<33, Alternate5>::get(&mut set, &mut gregs).unwrap();
    assert!(Reader::get(rx2, &config, &mut regs).is_none());

    let written = writer.write(&mut regs, &vec![10, 20, 30]);
    assert_eq!(written, 3);
    assert_eq!(regs.tx_sent, vec![10, 20, 30]);
    writer.flush(&mut regs);
    assert_eq!(regs.tx_fifo_level, 0);

    regs.rx_fifo = vec![42, 43];
    assert!(reader.read_ready(&regs));
    let mut buf: Vec<u8> = vec![0; 2];
    assert_eq!(reader.read(&mut regs, &mut buf), Ok(2));
    assert_eq!(buf, vec![42, 43]);
}

#[test]
fn reader_overrun_is_reported() {
    let mut regs = MiniUartRegisters::new();
    let mut set = GpioSet::new();
    let mut gregs = GpioRegisters::new();
    let config = config_115200_8n1();
    let rx_pin = Pin::<15, Alternate5>::get(&mut set, &mut gregs).unwrap();
    let mut reader = Reader::get(rx_pin, &config, &mut regs).unwrap();
    regs.overrun = true;
    regs.rx_fifo = vec![1];
    let mut buf: Vec<u8> = vec![0; 1];
    assert_eq!(reader.read(&mut regs, &mut buf), Err(Error::Overrun));
    assert_eq!(reader.read_exact(&mut regs, &mut buf), Err(Error::Overrun));
}

#[test]
fn writer_fills_at_most_the_fifo() {
    let mut regs = MiniUartRegisters::new();
    let mut set = GpioSet::new();
    let mut gregs = GpioRegisters::new();
    let config = config_115200_8n1();
    let tx_pin = Pin::<14, Alternate5>::get(&mut set, &mut gregs).unwrap();
    let mut writer = Writer::get(tx_pin, &config, &mut regs).unwrap();

    let big: Vec<u8> = (0..20).collect();
    let written = writer.write(&mut regs, &big);
    assert_eq!(written, 8, "one blocking write hands over at most one FIFO");
    assert_eq!(regs.tx_sent, (0..8).collect::<Vec<u8>>());

    writer.write_all(&mut regs, &big);
    let mut expected: Vec<u8> = (0..8).collect();
    expected.extend(0..20);
    assert_eq!(regs.tx_sent, expected, "write_all hands over every byte in order");
}

#[test]
fn async_read_parks_until_data() {
    let mut regs = MiniUartRegisters::new();
    let mut slot: Option<u64> = None;
    let mut fut = ReadFut {};
    let mut buf: Vec<u8> = vec![0; 4];

    let polled = fut.poll(&mut regs, &mut buf, &mut slot, 3);
    assert!(!polled.is_ready());
    assert_eq!(slot, Some(3));
    // Receive interrupt armed with the errata bits kept set.
    assert_eq!(regs.interrupt_enable, 0b1101);

    regs.rx_fifo = vec![9, 8];
    let polled = fut.poll(&mut regs, &mut buf, &mut slot, 3);
    assert!(polled.is_ready());
    assert_eq!(&buf[..2], &[9, 8]);
}

#[test]
fn async_read_exact_accumulates() {
    let mut regs = MiniUartRegisters::new();
    let mut slot: Option<u64> = None;
    let mut fut = ReadExactFut::new();
    let mut buf: Vec<u8> = vec![0; 4];

    regs.rx_fifo = vec![1, 2];
    let polled = fut.poll(&mut regs, &mut buf, &mut slot, 5);
    assert!(!polled.is_ready(), "two of four bytes are in");
    assert_eq!(slot, Some(5));

    regs.rx_fifo = vec![3, 4];
    let polled = fut.poll(&mut regs, &mut buf, &mut slot, 5);
    assert!(polled.is_ready());
    assert_eq!(buf, vec![1, 2, 3, 4]);
}

#[test]
fn async_write_parks_on_full_fifo() {
    let mut regs = MiniUartRegisters::new();
    let mut set = GpioSet::new();
    let mut gregs = GpioRegisters::new();
    let config = config_115200_8n1();
    let tx_pin = Pin::<14, Alternate5>::get(&mut set, &mut gregs).unwrap();
    let mut writer = Writer::get(tx_pin, &config, &mut regs).unwrap();

    regs.tx_fifo_level = 8;
    let mut slot: Option<u64> = None;
    let polled = writer.poll_write(&mut regs, &vec![1], &mut slot, 4);
    assert!(!polled.is_ready());
    assert_eq!(slot, Some(4));
    assert_eq!(regs.interrupt_enable, 0b1110);

    // The transmit interrupt fires: the source is masked and the waker
    // handed back for the executor.
    let woken = rpi::aux::uart::writer::interrupt_handler(&mut regs, &mut slot);
    assert_eq!(woken, Some(4));
    assert_eq!(regs.interrupt_enable, 0b1100);

    regs.tx_fifo_level = 0;
    let polled = writer.poll_write(&mut regs, &vec![1], &mut slot, 4);
    assert!(polled.is_ready());
    assert_eq!(regs.tx_sent, vec![1]);
}

#[test]
fn interrupt_routing() {
    // The auxiliary interrupt fans out by status bits, the Mini UART one
    // by the interrupt-identify bits.
    assert_eq!(rpi::aux::interrupt_handler(0b01), (true, false));
    assert_eq!(rpi::aux::interrupt_handler(0b10), (false, true));
    assert_eq!(rpi::aux::interrupt_handler(0b11), (true, true));
    assert_eq!(rpi::aux::uart::interrupt_handler(0b010), (true, false));
    assert_eq!(rpi::aux::uart::interrupt_handler(0b100), (false, true));
    assert_eq!(rpi::aux::uart::interrupt_handler(0b000), (false, false));
}

#[test]
fn reader_interrupt_masks_and_wakes() {
    let mut regs = MiniUartRegisters::new();
    regs.interrupt_enable = 0b1101;
    let mut slot: Option<u64> = Some(21);
    let woken = rpi::aux::uart::reader::interrupt_handler(&mut regs, &mut slot);
    assert_eq!(woken, Some(21));
    assert_eq!(slot, None);
    assert_eq!(regs.interrupt_enable, 0b1100);
}

#[test]
fn input_pull_does_not_disturb_levels() {
    let mut set = GpioSet::new();
    let mut gregs = GpioRegisters::new();
    let pin = Pin::<17, Input>::get(&mut set, &mut gregs).unwrap();
    gregs.level[0] = 1 << 17;
    pin.set_pull(&mut gregs, None);
    assert_eq!(gregs.level[0], 1 << 17);
    assert!(pin.is_high(&gregs));
}

#[test]
fn nonblocking_send_respects_fifo_space() {
    let mut aux = AuxRegisters { irq_status: 0, enables: 0 };
    let mut regs = MiniUartRegisters::new();
    let mut set = GpioSet::new();
    let mut gregs = GpioRegisters::new();
    let uart = MiniUart::get(&mut aux, &mut regs).unwrap();
    let tx_pin = Pin::<14, Alternate5>::get(&mut set, &mut gregs).unwrap();
    let mut tx = uart.enable_transmitter(tx_pin, &mut regs);

    regs.tx_fifo_level = 6;
    let sent = tx.send(&mut regs, &vec![1, 2, 3, 4, 5]);
    assert_eq!(sent, 2, "only the remaining FIFO space is used");
    assert_eq!(regs.tx_sent, vec![1, 2]);
    assert_eq!(regs.tx_fifo_level, 8);
    let sent = tx.send(&mut regs, &vec![9]);
    assert_eq!(sent, 0, "a full FIFO accepts nothing");
}

#[test]
fn disabling_directions_frees_their_pins() {
    let mut aux = AuxRegisters { irq_status: 0, enables: 0 };
    let mut regs = MiniUartRegisters::new();
    let mut set = GpioSet::new();
    let mut gregs = GpioRegisters::new();
    let uart = MiniUart::get(&mut aux, &mut regs).unwrap();
    let tx_pin = Pin::<14, Alternate5>::get(&mut set, &mut gregs).unwrap();
    let rx_pin = Pin::<15, Alternate5>::get(&mut set, &mut gregs).unwrap();
    let rx_tx = uart.enable_transmitter(tx_pin, &mut regs).enable_receiver(rx_pin, &mut regs);
    assert_eq!(regs.extra_control, 0b11);

    let tx_only = rx_tx.disable_receiver(&mut set, &mut regs);
    assert_eq!(regs.extra_control, 0b10);
    assert!(Pin::<15, Alternate5>::get(&mut set, &mut gregs).is_some(), "pin 15 is free again");

    let _neither = tx_only.disable_transmitter(&mut set, &mut regs);
    assert_eq!(regs.extra_control, 0);
    assert!(Pin::<14, Alternate5>::get(&mut set, &mut gregs).is_some(), "pin 14 is free again");
}

#[test]
fn writer_empty_buffer_returns_zero() {
    let mut regs = MiniUartRegisters::new();
    let mut set = GpioSet::new();
    let mut gregs = GpioRegisters::new();
    let config = config_115200_8n1();
    let tx_pin = Pin::<14, Alternate5>::get(&mut set, &mut gregs).unwrap();
    let mut writer = Writer::get(tx_pin, &config, &mut regs).unwrap();
    assert_eq!(writer.write(&mut regs, &Vec::new()), 0);
    assert!(writer.write_ready(&regs));
    let mut slot: Option<u64> = None;
    let polled = writer.poll_flush(&mut regs, &mut slot, 1);
    assert!(polled.is_ready(), "an idle transmitter flushes at once");
}
