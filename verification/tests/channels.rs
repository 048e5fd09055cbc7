//! L2CAP demultiplexing, ATT dissection, ACL bit layout, and address
//! rendering.

use btmon::att;
use btmon::err::DecodeError;
use btmon::l2cap::{Cid, Frame};
use btmon::monitor::{AclPkt, BdAddr, NewIndex, IndexBus, IndexType};

#[test]
fn l2cap_parse_exact() {
    // length 2, channel 0x0040, payload, one trailing byte ignored.
    let data = [0x02u8, 0x00, 0x40, 0x00, 0xaa, 0xbb, 0xff];
    assert_eq!(
        Frame::parse(&data),
        Ok(Frame { cid: Cid::Other(0x0040), data: vec![0xaa, 0xbb] })
    );
    // Fewer payload bytes than declared.
    assert_eq!(Frame::parse(&[0x02, 0x00, 0x40, 0x00, 0xaa]), Err(DecodeError::Malformed));
    assert_eq!(Frame::parse(&[0x02, 0x00]), Err(DecodeError::Malformed));
}

#[test]
fn cid_catalog_is_pure() {
    for raw in [0u16, 1, 2, 4, 5, 6, 7, 0x40] {
        assert_eq!(Cid::from_raw(raw), Cid::from_raw(raw));
    }
    assert_eq!(Cid::from_raw(0x0004), Cid::Att);
    assert_eq!(Cid::from_raw(0x0040), Cid::Other(0x0040));
    assert_eq!(Cid::Att.name(), "ATT");
    assert_eq!(Cid::Other(0x0040).name(), "CID 0x0040");
}

#[test]
fn att_channel_dissects() {
    // Scenario: channel ID 0x0004, payload holding the ReadReq opcode alone
    // dissects to an ATT PDU with opcode ReadReq and empty parameter.
    let data = [0x01u8, 0x00, 0x04, 0x00, 0x0a];
    let frame = Frame::parse(&data).unwrap();
    assert_eq!(frame.cid, Cid::Att);
    assert_eq!(
        frame.att_pdu(),
        Some(att::Pdu { opcode: att::OpCode::ReadReq, param: vec![] })
    );
    // With payload bytes 0a 00, the trailing byte is the PDU parameter.
    let data = [0x02u8, 0x00, 0x04, 0x00, 0x0a, 0x00];
    let frame = Frame::parse(&data).unwrap();
    assert_eq!(
        frame.att_pdu(),
        Some(att::Pdu { opcode: att::OpCode::ReadReq, param: vec![0x00] })
    );
}

#[test]
fn non_att_channel_not_dissected() {
    let frame = Frame { cid: Cid::Sig, data: vec![0x0a] };
    assert_eq!(frame.att_pdu(), None);
    // Empty ATT payload cannot hold an opcode.
    let frame = Frame { cid: Cid::Att, data: vec![] };
    assert_eq!(frame.att_pdu(), None);
}

#[test]
fn att_parse_exact() {
    assert_eq!(
        att::Pdu::parse(&[0x02, 0x17, 0x00]),
        Ok(att::Pdu { opcode: att::OpCode::ExchangeMtuReq, param: vec![0x17, 0x00] })
    );
    assert_eq!(att::Pdu::parse(&[]), Err(DecodeError::Malformed));
    assert_eq!(
        att::Pdu::parse(&[0x42]),
        Ok(att::Pdu { opcode: att::OpCode::Other(0x42), param: vec![] })
    );
}

#[test]
fn att_catalog_is_pure() {
    for raw in [0x01u8, 0x0a, 0x52, 0xd2, 0x42] {
        assert_eq!(att::OpCode::from_raw(raw), att::OpCode::from_raw(raw));
    }
    assert_eq!(att::OpCode::from_raw(0x0a), att::OpCode::ReadReq);
    assert_eq!(att::OpCode::from_raw(0xd2), att::OpCode::SignedWriteCmd);
}

#[test]
fn acl_handle_bits() {
    // Scenario: handle field 0x1001 splits into connection handle 0x001,
    // packet-boundary flag 1, broadcast flag 0.
    let data = [0x01u8, 0x10, 0x00, 0x00];
    let pkt = AclPkt::parse(&data).unwrap();
    assert_eq!(pkt.handle, 0x001);
    assert_eq!(pkt.pb, 1);
    assert_eq!(pkt.bc, 0);
    // All three fields at once.
    let data = [0xffu8, 0xff, 0x00, 0x00];
    let pkt = AclPkt::parse(&data).unwrap();
    assert_eq!(pkt.handle, 0xfff);
    assert_eq!(pkt.pb, 3);
    assert_eq!(pkt.bc, 3);
}

#[test]
fn acl_payload_as_l2cap() {
    let data = [0x01u8, 0x00, 0x05, 0x00, 0x01, 0x00, 0x04, 0x00, 0x0a];
    let pkt = AclPkt::parse(&data).unwrap();
    let frame = pkt.l2cap().unwrap();
    assert_eq!(frame.cid, Cid::Att);
    assert_eq!(frame.data, vec![0x0a]);
    // A payload that is no L2CAP frame.
    let pkt = AclPkt { handle: 1, pb: 0, bc: 0, data: vec![0xff] };
    assert_eq!(pkt.l2cap(), None);
    // Too short for the ACL header itself.
    assert_eq!(AclPkt::parse(&[0x01, 0x10]), Err(DecodeError::Malformed));
    assert_eq!(AclPkt::parse(&[0x01, 0x10, 0x02, 0x00, 0xaa]), Err(DecodeError::Malformed));
}

#[test]
fn bdaddr_rendered_reversed() {
    // Scenario: wire bytes 01 02 03 04 05 06 render most significant first.
    let addr = BdAddr { val: vec![1, 2, 3, 4, 5, 6] };
    assert_eq!(addr.rendered(), "06:05:04:03:02:01");
}

#[test]
fn new_index_renders_address() {
    let body = [0u8, 1, 1, 2, 3, 4, 5, 6, b'd', b'e', b'v', 0];
    let ni = NewIndex::parse(&body).unwrap();
    assert_eq!(ni.ctrl_type, IndexType::Primary);
    assert_eq!(ni.bus, IndexBus::Usb);
    assert_eq!(ni.addr.rendered(), "06:05:04:03:02:01");
    assert_eq!(ni.name, "dev");
}

#[test]
fn new_index_name_decodes_utf8() {
    // A two-byte UTF-8 name: the decoded string differs from the raw bytes.
    let body = [0u8, 1, 1, 2, 3, 4, 5, 6, 0xc3, 0xa9, 0];
    let ni = NewIndex::parse(&body).unwrap();
    assert_eq!(ni.name, "\u{e9}");
    // Invalid UTF-8 in the name fails the packet.
    let body = [0u8, 1, 1, 2, 3, 4, 5, 6, 0xc3, 0];
    assert_eq!(NewIndex::parse(&body), Err(DecodeError::Malformed));
}
