//! Outer framing and the decoding session: length-prefixed frame consumption,
//! incompleteness, extension-header clock advance, resynchronization, and the
//! buffer operations.

use btmon::err::DecodeError;
use btmon::monitor::Op;
use btmon::stream::{Session, StreamBuffer};
use btmon::tty::{parse_data, parse_ext, ExtHeader, FrameOutcome};

/// A minimal frame: opcode, flags 0, no extension entries, the given body.
fn frame(opcode: u16, body: &[u8]) -> Vec<u8> {
    let total = (4 + body.len()) as u16;
    let mut f = vec![
        (total & 0xff) as u8,
        (total >> 8) as u8,
        (opcode & 0xff) as u8,
        (opcode >> 8) as u8,
        0,
        0,
    ];
    f.extend_from_slice(body);
    f
}

#[test]
fn close_index_frame() {
    // Scenario: frame opcode 0x0009 with an empty body decodes to CloseIndex
    // and consumes the whole frame.
    let f = frame(0x0009, b"");
    match parse_data(&f, 0) {
        FrameOutcome::Decoded(pkt, n) => {
            assert_eq!(pkt.op, Op::CloseIndex);
            assert_eq!(pkt.index, 0);
            assert_eq!(pkt.ts, 0);
            assert_eq!(n, f.len());
        },
        other => panic!("expected a decoded frame, got {:?}", other),
    }
}

#[test]
fn two_consecutive_frames() {
    // Decoding the first frame consumes exactly its declared length and
    // leaves the second frame's bytes as the exact remainder.
    let f1 = frame(0x0008, b"");
    let f2 = frame(0x0009, b"");
    let mut buf = f1.clone();
    buf.extend_from_slice(&f2);
    match parse_data(&buf, 0) {
        FrameOutcome::Decoded(pkt, n) => {
            assert_eq!(pkt.op, Op::OpenIndex);
            assert_eq!(n, f1.len());
            assert_eq!(&buf[n..], &f2[..]);
            match parse_data(&buf[n..], pkt.ts) {
                FrameOutcome::Decoded(pkt2, n2) => {
                    assert_eq!(pkt2.op, Op::CloseIndex);
                    assert_eq!(n2, f2.len());
                },
                other => panic!("expected a decoded frame, got {:?}", other),
            }
        },
        other => panic!("expected a decoded frame, got {:?}", other),
    }
}

#[test]
fn short_buffer_is_incomplete() {
    // A buffer shorter than the declared frame length reports Incomplete,
    // from the empty buffer up to one byte short of complete.
    let f = frame(0x0009, b"\x01\x02");
    for cut in 0..f.len() {
        assert_eq!(parse_data(&f[..cut], 0), FrameOutcome::Incomplete);
    }
    assert!(matches!(parse_data(&f, 0), FrameOutcome::Decoded(_, _)));
}

#[test]
fn malformed_frame_consumes_declared_length() {
    // Declared length below the four header bytes.
    let buf = [0x02u8, 0x00, 0x09, 0x00];
    assert_eq!(parse_data(&buf, 0), FrameOutcome::Malformed(4));
    // Extension-header length running past the frame end.
    let buf = [0x04u8, 0x00, 0x09, 0x00, 0x00, 0x09];
    assert_eq!(parse_data(&buf, 0), FrameOutcome::Malformed(6));
}

#[test]
fn timestamp_advances_clock() {
    // One timestamp entry of 7 ticks: 700 microseconds past the clock.
    let mut f = vec![0u8; 0];
    let body: [u8; 0] = [];
    let total = (4 + 5 + body.len()) as u16;
    f.push((total & 0xff) as u8);
    f.push((total >> 8) as u8);
    f.push(0x09);
    f.push(0x00);
    f.push(0);
    f.push(5);
    f.extend_from_slice(&[8, 7, 0, 0, 0]);
    match parse_data(&f, 1000) {
        FrameOutcome::Decoded(pkt, n) => {
            assert_eq!(pkt.ts, 1000 + 700);
            assert_eq!(pkt.op, Op::CloseIndex);
            assert_eq!(n, f.len());
        },
        other => panic!("expected a decoded frame, got {:?}", other),
    }
}

#[test]
fn clock_wraps_at_midnight() {
    let mut f = vec![0x09u8, 0x00, 0x09, 0x00, 0x00, 0x05];
    f.extend_from_slice(&[8, 0x10, 0x27, 0, 0]); // 10000 ticks = 1 second
    match parse_data(&f, 86_399_999_999) {
        FrameOutcome::Decoded(pkt, _) => {
            assert_eq!(pkt.ts, 999_999);
        },
        other => panic!("expected a decoded frame, got {:?}", other),
    }
}

#[test]
fn ext_entries_parse() {
    assert_eq!(parse_ext(&[1, 9]), Ok((ExtHeader::CommandDrops(9), 2)));
    assert_eq!(parse_ext(&[2, 9]), Ok((ExtHeader::EventDrops(9), 2)));
    assert_eq!(parse_ext(&[3, 9]), Ok((ExtHeader::AclTxDrops(9), 2)));
    assert_eq!(parse_ext(&[4, 9]), Ok((ExtHeader::AclRxDrops(9), 2)));
    assert_eq!(parse_ext(&[5, 9]), Ok((ExtHeader::ScoTxDrops(9), 2)));
    assert_eq!(parse_ext(&[6, 9]), Ok((ExtHeader::ScoRxDrops(9), 2)));
    assert_eq!(parse_ext(&[7, 9]), Ok((ExtHeader::OtherDrops(9), 2)));
    assert_eq!(parse_ext(&[8, 1, 0, 0, 0]), Ok((ExtHeader::TimeStamp(1), 5)));
    assert_eq!(parse_ext(&[9]), Ok((ExtHeader::Unknown(9), 1)));
    assert_eq!(parse_ext(&[]), Err(DecodeError::Malformed));
    assert_eq!(parse_ext(&[8, 1, 0]), Err(DecodeError::Malformed));
    assert_eq!(parse_ext(&[1]), Err(DecodeError::Malformed));
}

#[test]
fn truncated_ext_entry_ends_list() {
    // Extension block declares 3 bytes but holds a truncated timestamp
    // entry: the entry contributes nothing, the frame still decodes.
    let buf = [0x07u8, 0x00, 0x09, 0x00, 0x00, 0x03, 8, 1, 0];
    match parse_data(&buf, 500) {
        FrameOutcome::Decoded(pkt, n) => {
            assert_eq!(pkt.ts, 500);
            assert_eq!(pkt.op, Op::CloseIndex);
            assert_eq!(n, 9);
        },
        other => panic!("expected a decoded frame, got {:?}", other),
    }
}

#[test]
fn session_decodes_in_order() {
    let mut s = Session::new();
    let mut bytes = frame(0x0008, b"");
    bytes.extend_from_slice(&frame(0x0009, b""));
    assert_eq!(s.push_bytes(&bytes), bytes.len());
    let first = s.next_packet().expect("first packet");
    assert_eq!(first.op, Op::OpenIndex);
    let second = s.next_packet().expect("second packet");
    assert_eq!(second.op, Op::CloseIndex);
    assert_eq!(s.next_packet(), None);
}

#[test]
fn session_waits_for_missing_bytes() {
    let mut s = Session::new();
    let bytes = frame(0x0009, b"\x01\x02\x03");
    s.push_bytes(&bytes[..4]);
    assert_eq!(s.next_packet(), None);
    s.push_bytes(&bytes[4..]);
    let pkt = s.next_packet().expect("completed packet");
    assert_eq!(pkt.op, Op::CloseIndex);
}

#[test]
fn session_strips_leading_nul() {
    let mut s = Session::new();
    let mut bytes = vec![0u8];
    bytes.extend_from_slice(&frame(0x0009, b""));
    s.push_bytes(&bytes);
    let pkt = s.next_packet().expect("packet after noise byte");
    assert_eq!(pkt.op, Op::CloseIndex);
}

#[test]
fn session_skips_malformed_frame() {
    let mut s = Session::new();
    // First a frame whose declared length is too small for a header, then a
    // good one: the session resynchronizes past the bad frame.
    let mut bytes = vec![0x02u8, 0x00, 0xaa, 0xbb];
    bytes.extend_from_slice(&frame(0x0009, b""));
    s.push_bytes(&bytes);
    let pkt = s.next_packet().expect("packet after malformed frame");
    assert_eq!(pkt.op, Op::CloseIndex);
    assert_eq!(s.next_packet(), None);
}

#[test]
fn session_clock_accumulates() {
    let mut s = Session::new();
    let mut one = vec![0x09u8, 0x00, 0x09, 0x00, 0x00, 0x05];
    one.extend_from_slice(&[8, 10, 0, 0, 0]); // 10 ticks = 1 ms
    let mut bytes = one.clone();
    bytes.extend_from_slice(&one);
    s.push_bytes(&bytes);
    let first = s.next_packet().expect("first packet");
    assert_eq!(first.ts, 1000);
    let second = s.next_packet().expect("second packet");
    assert_eq!(second.ts, 2000);
}

#[test]
fn session_overflow_reports_partial_take() {
    let mut s = Session::new();
    let big = vec![0xffu8; 5000];
    let taken = s.push_bytes(&big);
    assert_eq!(taken, 2048);
}

#[test]
fn multiple_ext_entries_sum() {
    // Two timestamp entries and a drop counter between them: both deltas
    // count, the drop counter does not.
    let mut f = vec![0u8; 0];
    let total: u16 = 4 + 12;
    f.push((total & 0xff) as u8);
    f.push((total >> 8) as u8);
    f.extend_from_slice(&[0x09, 0x00, 0x00, 12]);
    f.extend_from_slice(&[8, 3, 0, 0, 0]); // 3 ticks
    f.extend_from_slice(&[1, 9]); // 9 dropped commands
    f.extend_from_slice(&[8, 4, 0, 0, 0]); // 4 ticks
    match parse_data(&f, 0) {
        FrameOutcome::Decoded(pkt, n) => {
            assert_eq!(pkt.ts, 700);
            assert_eq!(pkt.op, Op::CloseIndex);
            assert_eq!(n, f.len());
        },
        other => panic!("expected a decoded frame, got {:?}", other),
    }
}

#[test]
fn buffer_compacts_and_keeps_contents() {
    let mut b = StreamBuffer::new();
    assert_eq!(b.len(), 0);
    let first = vec![7u8; 2000];
    assert_eq!(b.append(&first), 2000);
    b.consume(1990);
    assert_eq!(b.len(), 10);
    // The tail has only 48 free bytes left; this append forces a compaction.
    let second: Vec<u8> = (0..100u8).collect();
    assert_eq!(b.append(&second), 100);
    let mut expect = vec![7u8; 10];
    expect.extend_from_slice(&second);
    assert_eq!(b.bytes(), &expect[..]);
    b.consume(110);
    assert_eq!(b.len(), 0);
}

#[test]
fn buffer_strip_only_leading_nul() {
    let mut b = StreamBuffer::new();
    b.append(&[0, 0, 5]);
    b.strip_leading_nul();
    assert_eq!(b.bytes(), &[0u8, 5][..]);
    b.strip_leading_nul();
    assert_eq!(b.bytes(), &[5u8][..]);
    b.strip_leading_nul();
    assert_eq!(b.bytes(), &[5u8][..]);
}
