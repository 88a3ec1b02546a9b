use piton::frame::{
    build_frame, client_id, decode_frame, frame_capacity, payload_offset, read_header, sender_of,
    write_header, HEADER_LENGTH,
};
use piton::types::le::{u32le, u64le};
use piton::Error;

#[test]
fn header_is_big_endian() {
    let mut out = vec![9u8];
    write_header(0x0102, &mut out);
    assert_eq!(out, vec![9u8, 0, 0, 0, 0, 0, 0, 1, 2]);
    assert_eq!(read_header(&out[1..]), Ok(0x0102));
    assert_eq!(HEADER_LENGTH, 8);
}

#[test]
fn short_frame_is_an_underflow() {
    assert_eq!(read_header(&[0; 7]), Err(Error::BufferUnderflow));
    assert_eq!(sender_of(&[0; 3], 4), Err(Error::BufferUnderflow));
    assert_eq!(decode_frame::<u32le>(0, &[0; 7]), Err(Error::BufferUnderflow));
}

#[test]
fn frame_capacity_is_size_align_and_header() {
    assert_eq!(frame_capacity(4, 4), Some(16));
    assert_eq!(frame_capacity(24, 8), Some(40));
    assert_eq!(frame_capacity(usize::MAX, 1), None);
    assert_eq!(frame_capacity(usize::MAX - 8, 1), None);
    assert_eq!(frame_capacity(usize::MAX - 9, 1), Some(usize::MAX));
}

#[test]
fn payload_offset_rounds_up_behind_the_header() {
    assert_eq!(payload_offset(0, 8), 8);
    assert_eq!(payload_offset(1, 8), 15);
    assert_eq!(payload_offset(7, 8), 9);
    assert_eq!(payload_offset(8, 8), 8);
    assert_eq!(payload_offset(3, 4), 9);
    assert_eq!(payload_offset(5, 1), 8);
    assert_eq!(payload_offset(6, 2), 8);
    assert_eq!(payload_offset(1, 16), 15);
    assert_eq!(payload_offset(9, 16), 23);
    assert_eq!(payload_offset(8, 16), 8);
}

#[test]
fn frame_layout_at_an_odd_address() {
    let frame = build_frame(3, 1001, &u32le::new(0x0a0b_0c0d), 16);
    assert_eq!(frame, vec![0u8, 0, 0, 0, 0, 0, 0, 3, 0, 0, 0, 0x0d, 0x0c, 0x0b, 0x0a, 0]);
    assert_eq!(decode_frame::<u32le>(1001, &frame), Ok((3, u32le::new(0x0a0b_0c0d))));
}

#[test]
fn frame_round_trip_at_every_start() {
    for start in 0..32usize {
        let value = u64le::new(0xdead_beef_0000_0000 + start as u64);
        let frame = build_frame(start as u64, start, &value, 24);
        assert_eq!(frame.len(), 24);
        assert_eq!(decode_frame::<u64le>(start, &frame), Ok((start as u64, value)));
    }
}

#[test]
fn corrupted_payload_is_an_invalid_message() {
    let mut frame = build_frame(0, 64, &true, 10);
    assert_eq!(decode_frame::<bool>(64, &frame), Ok((0, true)));
    frame[8] = 0x5a;
    assert_eq!(decode_frame::<bool>(64, &frame), Err(Error::InvalidMsg));
}

#[test]
fn truncated_payload_is_an_invalid_message() {
    let frame = build_frame(0, 0, &u32le::new(1), 16);
    assert_eq!(decode_frame::<u32le>(0, &frame[..11]), Err(Error::InvalidMsg));
    assert_eq!(decode_frame::<u32le>(0, &frame[..8]), Err(Error::InvalidMsg));
    assert_eq!(decode_frame::<u32le>(0, &frame[..12]), Ok((0, u32le::new(1))));
}

#[test]
fn sender_is_looked_up_among_the_clients() {
    let frame = build_frame(client_id(2), 0, &7u8, 10);
    assert_eq!(sender_of(&frame, 3), Ok(2));
    assert_eq!(sender_of(&frame, 2), Err(Error::InvalidMsg));
    assert_eq!(sender_of(&frame, 0), Err(Error::InvalidMsg));
}

#[test]
fn error_messages() {
    assert_eq!(Error::BufferUnderflow.message(), "buffer underflow");
    assert_eq!(Error::BufferOverflow.message(), "buffer overflow");
    assert_eq!(Error::InvalidMsg.message(), "invalid msg");
    assert_eq!(Error::TxFail.message(), "tx fail");
    assert_eq!(Error::RxFail.message(), "rx fail");
}
