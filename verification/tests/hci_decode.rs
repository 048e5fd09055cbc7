//! HCI command and event decoding: the structured event shapes, the opcode
//! catalog, and the LE subevent name table.

use btmon::err::DecodeError;
use btmon::hci::{le_sub_str, Command, Event, EventDetail, LeMeta, Op};

#[test]
fn disconnect_complete_event() {
    let ev = Event { code: 0x05, param: vec![0x00, 0x0a, 0x00, 0x16] };
    assert_eq!(
        ev.decode(),
        EventDetail::DisconnectComplete { status: 0x00, handle: 0x000a, reason: 0x16 }
    );
}

#[test]
fn command_complete_event() {
    // ncmd 2, opcode 0x0401 (Inquiry), two return-parameter bytes.
    let ev = Event { code: 0x0e, param: vec![2, 0x01, 0x04, 0xaa, 0xbb] };
    assert_eq!(
        ev.decode(),
        EventDetail::CommandComplete { ncmd: 2, op: Op::Inquiry, param: vec![0xaa, 0xbb] }
    );
}

#[test]
fn command_status_event() {
    let ev = Event { code: 0x0f, param: vec![0x0c, 1, 0x06, 0x04] };
    assert_eq!(
        ev.decode(),
        EventDetail::CommandStatus { status: 0x0c, ncmd: 1, op: Op::Disconnect }
    );
}

#[test]
fn num_completed_packets_event() {
    // The handle count is read and discarded; only the first pair decodes.
    let ev = Event { code: 0x13, param: vec![2, 0x0a, 0x00, 0x03, 0x00, 0x0b, 0x00, 0x01, 0x00] };
    assert_eq!(ev.decode(), EventDetail::NumCompletedPackets { handle: 0x000a, pkts: 3 });
}

#[test]
fn le_meta_event() {
    let ev = Event { code: 0x3e, param: vec![0x01, 0xaa] };
    assert_eq!(ev.decode(), EventDetail::LeMetaEvent(LeMeta { sub: 0x01, param: vec![0xaa] }));
}

#[test]
fn unknown_event_keeps_param() {
    let ev = Event { code: 0x42, param: vec![1, 2, 3] };
    assert_eq!(ev.decode(), EventDetail::Unknown { code: 0x42, param: vec![1, 2, 3] });
}

#[test]
fn truncated_structured_events() {
    for (code, short) in [
        (0x05u8, 3usize),
        (0x0e, 2),
        (0x0f, 3),
        (0x13, 4),
        (0x3e, 0),
    ] {
        let ev = Event { code, param: vec![0; short] };
        assert_eq!(ev.decode(), EventDetail::Truncated { code });
    }
}

#[test]
fn event_parse_exact() {
    // code 0x3e, two parameter bytes, one trailing byte ignored.
    let data = [0x3eu8, 2, 0x0a, 0x0b, 0xff];
    assert_eq!(Event::parse(&data), Ok(Event { code: 0x3e, param: vec![0x0a, 0x0b] }));
    // Too few parameter bytes for the declared length.
    assert_eq!(Event::parse(&[0x3e, 2, 0x0a]), Err(DecodeError::Malformed));
    assert_eq!(Event::parse(&[0x3e]), Err(DecodeError::Malformed));
}

#[test]
fn command_parse_exact() {
    // LE Set Scan Enable (0x200c), two parameter bytes.
    let data = [0x0cu8, 0x20, 2, 1, 0];
    assert_eq!(
        Command::parse(&data),
        Ok(Command { op: Op::LeSetScanEnable, param: vec![1, 0] })
    );
    assert_eq!(Command::parse(&[0x0c, 0x20, 2, 1]), Err(DecodeError::Malformed));
    assert_eq!(Command::parse(&[0x0c, 0x20]), Err(DecodeError::Malformed));
}

#[test]
fn opcode_catalog_is_pure() {
    // Resolving the same numeric code twice yields the same variant.
    for raw in [0x0401u16, 0x0c01, 0x1009, 0x2001, 0x207b, 0x3333] {
        assert_eq!(Op::from_raw(raw), Op::from_raw(raw));
    }
    assert_eq!(Op::from_raw(0x0401), Op::Inquiry);
    assert_eq!(Op::from_raw(0x1009), Op::ReadBdAddr);
    assert_eq!(Op::from_raw(0x2060), Op::LeReadBufSizeV2);
    assert_eq!(Op::from_raw(0x3333), Op::Unknown(0x3333));
}

#[test]
fn opcode_names() {
    assert_eq!(Op::Inquiry.name(), "Inquiry");
    assert_eq!(Op::LeRand.name(), "LE Rand");
    assert_eq!(Op::ReadBdAddr.name(), "Read BD_ADDR");
    // 0x3333: OGF = 0x3333 / 1024 = 0x0c, OCF = 0x3333 % 1024 = 0x333.
    assert_eq!(Op::Unknown(0x3333).name(), "Unknown OGF 0x0c OCF 0x0333");
    assert_eq!(Op::Unknown(0x3333).name(), Op::from_raw(0x3333).name());
}

#[test]
fn le_subevent_names() {
    assert_eq!(le_sub_str(0x01), "LE Connection Complete");
    assert_eq!(le_sub_str(0x0a), "LE Enhanced Connection Complete [v1]");
    assert_eq!(le_sub_str(0x29), "LE Enhanced Connection Complete [v2]");
    assert_eq!(le_sub_str(0x35), "LE Frame Space Update Complete");
    assert_eq!(le_sub_str(0x36), "LE <Unknown>");
    assert_eq!(le_sub_str(0x00), "LE <Unknown>");
    // Same code twice, same name.
    assert_eq!(le_sub_str(0x17), le_sub_str(0x17));
}
