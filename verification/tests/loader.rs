use rpi::aux::uart::registers::MiniUartRegisters;
use rpi::loader::{first_stage, frame, parse_size, receive_frame, READY_BYTE};

#[test]
fn handshake_byte() {
    // The device announces readiness with a single 0xFF before the host
    // writes the length.
    assert_eq!(READY_BYTE, 0xFF);
}

#[test]
fn loader_handshake() {
    // The host sends a four-byte little-endian length and the payload;
    // the device's first stage copies exactly the payload, in order.
    let input: Vec<u8> = vec![0x04, 0x00, 0x00, 0x00, 0xDE, 0xAD, 0xBE, 0xEF];
    let payload = receive_frame(&input);
    assert_eq!(payload, Some(vec![0xDE, 0xAD, 0xBE, 0xEF]));
}

#[test]
fn frame_layout() {
    let framed = frame(&vec![0xDE, 0xAD, 0xBE, 0xEF]);
    assert_eq!(framed, vec![0x04, 0x00, 0x00, 0x00, 0xDE, 0xAD, 0xBE, 0xEF]);
}

#[test]
fn size_is_little_endian() {
    assert_eq!(parse_size(&[0x04, 0x00, 0x00, 0x00]), 4);
    assert_eq!(parse_size(&[0x78, 0x56, 0x34, 0x12]), 0x12345678);
    let framed = frame(&vec![0u8; 300]);
    assert_eq!(&framed[..4], &[0x2C, 0x01, 0x00, 0x00]);
}

#[test]
fn frame_round_trip() {
    // What the host frames, the device recovers byte for byte.
    let payload: Vec<u8> = (0..=255).collect();
    let framed = frame(&payload);
    assert_eq!(receive_frame(&framed), Some(payload));

    let empty: Vec<u8> = Vec::new();
    let framed = frame(&empty);
    assert_eq!(framed, vec![0, 0, 0, 0]);
    assert_eq!(receive_frame(&framed), Some(Vec::new()));
}

#[test]
fn short_streams_keep_the_device_waiting() {
    // Too few header bytes, or fewer payload bytes than announced: the
    // device is still waiting and nothing is copied.
    assert_eq!(receive_frame(&vec![0x04, 0x00]), None);
    assert_eq!(receive_frame(&vec![0x04, 0x00, 0x00, 0x00, 0xDE]), None);
}

#[test]
fn trailing_bytes_are_ignored() {
    let input: Vec<u8> = vec![0x01, 0x00, 0x00, 0x00, 0xAA, 0xBB, 0xCC];
    assert_eq!(receive_frame(&input), Some(vec![0xAA]));
}

#[test]
fn first_stage_sends_ready_once_then_reads() {
    // The device announces readiness with exactly one 0xFF and only then
    // consumes the frame the host answers with.
    let mut regs = MiniUartRegisters::new();
    regs.rx_fifo = vec![0x04, 0x00, 0x00, 0x00, 0xDE, 0xAD, 0xBE, 0xEF];
    let payload = first_stage(&mut regs);
    assert_eq!(regs.tx_sent, vec![READY_BYTE], "the ready byte went out exactly once");
    assert_eq!(payload, vec![0xDE, 0xAD, 0xBE, 0xEF]);
    assert!(regs.rx_fifo.is_empty(), "exactly the frame left the receive queue");
}

#[test]
fn first_stage_ignores_trailing_input() {
    let mut regs = MiniUartRegisters::new();
    regs.tx_sent = vec![0x00];
    regs.rx_fifo = vec![0x01, 0x00, 0x00, 0x00, 0xAA, 0xBB];
    let payload = first_stage(&mut regs);
    assert_eq!(regs.tx_sent, vec![0x00, READY_BYTE]);
    assert_eq!(payload, vec![0xAA]);
    assert_eq!(regs.rx_fifo, vec![0xBB], "bytes past the frame stay queued");
}
