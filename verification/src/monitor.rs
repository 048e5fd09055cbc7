//! Monitor packet dispatch: maps a 16-bit frame opcode and frame body to one
//! of the typed operations. The dispatch itself never fails: a sub-decoder
//! failure degrades the packet to the numeric catch-all with the body kept
//! unchanged.

use vstd::prelude::*;
use vstd::string::StringExecFns;
use vstd::utf8::{valid_utf8, encode_utf8};
use crate::err::DecodeError;
use crate::hci;
use crate::l2cap;
use crate::util::{
    le16_at, hex2, push_hex2, has_nul, nul_pos, read_le_u16, sub_vec, find_nul, utf8_string,
};

verus! {

/// Controller type catalog.
#[derive(Debug, PartialEq, Eq, Structural, Clone, Copy)]
pub enum IndexType {
    Primary,
    Amp,
    Unknown(u8),
}

/// The catalog entry for a numeric controller type.
pub open spec fn index_type_of(v: u8) -> IndexType {
    if v == 0 {
        IndexType::Primary
    } else if v == 1 {
        IndexType::Amp
    } else {
        IndexType::Unknown(v)
    }
}

impl IndexType {
    /// Resolves a numeric controller type against the catalog.
    pub fn from_raw(v: u8) -> (r: IndexType)
        ensures
            r == index_type_of(v),
    {
        match v {
            0 => IndexType::Primary,
            1 => IndexType::Amp,
            _ => IndexType::Unknown(v),
        }
    }
}

/// Controller bus catalog.
#[derive(Debug, PartialEq, Eq, Structural, Clone, Copy)]
pub enum IndexBus {
    Virtual,
    Usb,
    PcCard,
    Uart,
    Rs232,
    Pci,
    Sdio,
    Spi,
    I2c,
    Smd,
    Virtio,
    Ipm,
    Unknown(u8),
}

/// The catalog entry for a numeric controller bus.
pub open spec fn index_bus_of(v: u8) -> IndexBus {
    if v == 0 {
        IndexBus::Virtual
    } else if v == 1 {
        IndexBus::Usb
    } else if v == 2 {
        IndexBus::PcCard
    } else if v == 3 {
        IndexBus::Uart
    } else if v == 4 {
        IndexBus::Rs232
    } else if v == 5 {
        IndexBus::Pci
    } else if v == 6 {
        IndexBus::Sdio
    } else if v == 7 {
        IndexBus::Spi
    } else if v == 8 {
        IndexBus::I2c
    } else if v == 9 {
        IndexBus::Smd
    } else if v == 10 {
        IndexBus::Virtio
    } else if v == 11 {
        IndexBus::Ipm
    } else {
        IndexBus::Unknown(v)
    }
}

impl IndexBus {
    /// Resolves a numeric controller bus against the catalog.
    pub fn from_raw(v: u8) -> (r: IndexBus)
        ensures
            r == index_bus_of(v),
    {
        match v {
            0 => IndexBus::Virtual,
            1 => IndexBus::Usb,
            2 => IndexBus::PcCard,
            3 => IndexBus::Uart,
            4 => IndexBus::Rs232,
            5 => IndexBus::Pci,
            6 => IndexBus::Sdio,
            7 => IndexBus::Spi,
            8 => IndexBus::I2c,
            9 => IndexBus::Smd,
            10 => IndexBus::Virtio,
            11 => IndexBus::Ipm,
            _ => IndexBus::Unknown(v),
        }
    }
}

/// A Bluetooth device address as the six raw bytes from the wire, which carry
/// the least significant byte first.
#[derive(Debug, PartialEq, Eq)]
pub struct BdAddr {
    pub val: Vec<u8>,
}

/// Display form of an address: the six bytes most significant first, two hex
/// digits each, separated by colons.
pub open spec fn bdaddr_str(b: Seq<u8>) -> Seq<char>
    recommends
        b.len() == 6,
{
    hex2(b[5] as int) + ":"@ + hex2(b[4] as int) + ":"@ + hex2(b[3] as int) + ":"@ + hex2(
        b[2] as int,
    ) + ":"@ + hex2(b[1] as int) + ":"@ + hex2(b[0] as int)
}

impl BdAddr {
    /// An address holds exactly six bytes.
    pub open spec fn wf(&self) -> bool {
        self.val@.len() == 6
    }

    /// Renders the address most-significant-byte first, reversing the wire
    /// order.
    pub fn rendered(&self) -> (r: String)
        requires
            self.wf(),
        ensures
            r@ == bdaddr_str(self.val@),
    {
        let mut s = String::new();
        push_hex2(&mut s, self.val[5]);
        s.append(":");
        push_hex2(&mut s, self.val[4]);
        s.append(":");
        push_hex2(&mut s, self.val[3]);
        s.append(":");
        push_hex2(&mut s, self.val[2]);
        s.append(":");
        push_hex2(&mut s, self.val[1]);
        s.append(":");
        push_hex2(&mut s, self.val[0]);
        assert(s@ =~= bdaddr_str(self.val@));
        s
    }
}

/// Bytes of the controller name in a New Index body: everything between the
/// fixed eight-byte prefix and the first NUL after it.
pub open spec fn new_index_name_bytes(b: Seq<u8>) -> Seq<u8>
    recommends
        b.len() >= 8,
        has_nul(b.skip(8)),
{
    b.skip(8).take(nul_pos(b.skip(8)))
}

/// A New Index body parses when the fixed prefix is present, the name is
/// NUL-terminated, and the name bytes are valid UTF-8.
pub open spec fn new_index_parses(b: Seq<u8>) -> bool {
    &&& b.len() >= 8
    &&& has_nul(b.skip(8))
    &&& valid_utf8(new_index_name_bytes(b))
}

/// `ni` is the decoding of the New Index body `b`.
pub open spec fn new_index_is(ni: NewIndex, b: Seq<u8>) -> bool {
    &&& ni.ctrl_type == index_type_of(b[0])
    &&& ni.bus == index_bus_of(b[1])
    &&& ni.addr.val@ == b.subrange(2, 8)
    &&& encode_utf8(ni.name@) == new_index_name_bytes(b)
}

/// A New Index announcement: controller type, bus, address, and name.
#[derive(Debug, PartialEq, Eq)]
pub struct NewIndex {
    pub ctrl_type: IndexType,
    pub bus: IndexBus,
    pub addr: BdAddr,
    pub name: String,
}

impl NewIndex {
    /// Decodes a New Index body: a controller-type byte, a bus byte, six raw
    /// address bytes, then a NUL-terminated UTF-8 name. A name that is not
    /// valid UTF-8 fails this packet.
    pub fn parse(data: &[u8]) -> (r: Result<NewIndex, DecodeError>)
        ensures
            r is Ok <==> new_index_parses(data@),
            r matches Ok(ni) ==> new_index_is(ni, data@) && ni.addr.wf(),
            r matches Err(e) ==> e == DecodeError::Malformed,
    {
        let n: usize = data.len();
        if n < 8 {
            return Err(DecodeError::Malformed);
        }
        let rest = vstd::slice::slice_subrange(data, 8, n);
        assert(rest@ =~= data@.skip(8));
        let k = match find_nul(rest) {
            Some(k) => k,
            None => {
                return Err(DecodeError::Malformed);
            },
        };
        let name_slice = vstd::slice::slice_subrange(rest, 0, k);
        assert(name_slice@ =~= new_index_name_bytes(data@));
        let name = match utf8_string(name_slice) {
            Some(name) => name,
            None => {
                return Err(DecodeError::Malformed);
            },
        };
        let ctrl_type = IndexType::from_raw(*vstd::slice::slice_index_get(data, 0));
        let bus = IndexBus::from_raw(*vstd::slice::slice_index_get(data, 1));
        let addr = BdAddr { val: sub_vec(data, 2, 8) };
        Ok(NewIndex { ctrl_type, bus, addr, name })
    }
}

/// Syslog priority catalog.
#[derive(Debug, PartialEq, Eq, Structural, Clone, Copy)]
pub enum LogPriority {
    Emerg,
    Alert,
    Crit,
    Error,
    Warn,
    Notice,
    Info,
    Dbg,
    Unknown(u8),
}

/// The catalog entry for a numeric syslog priority.
pub open spec fn log_priority_of(v: u8) -> LogPriority {
    if v == 0 {
        LogPriority::Emerg
    } else if v == 1 {
        LogPriority::Alert
    } else if v == 2 {
        LogPriority::Crit
    } else if v == 3 {
        LogPriority::Error
    } else if v == 4 {
        LogPriority::Warn
    } else if v == 5 {
        LogPriority::Notice
    } else if v == 6 {
        LogPriority::Info
    } else if v == 7 {
        LogPriority::Dbg
    } else {
        LogPriority::Unknown(v)
    }
}

impl LogPriority {
    /// Resolves a numeric syslog priority against the catalog.
    pub fn from_raw(v: u8) -> (r: LogPriority)
        ensures
            r == log_priority_of(v),
    {
        match v {
            0 => LogPriority::Emerg,
            1 => LogPriority::Alert,
            2 => LogPriority::Crit,
            3 => LogPriority::Error,
            4 => LogPriority::Warn,
            5 => LogPriority::Notice,
            6 => LogPriority::Info,
            7 => LogPriority::Dbg,
            _ => LogPriority::Unknown(v),
        }
    }
}

/// The identifier region of a User Logging body: the length-prefixed bytes
/// after the priority byte.
pub open spec fn user_logging_id_region(b: Seq<u8>) -> Seq<u8>
    recommends
        b.len() >= 2,
        2 + b[1] <= b.len(),
{
    b.subrange(2, 2 + b[1] as int)
}

/// The message region of a User Logging body: everything after the
/// identifier region.
pub open spec fn user_logging_msg_region(b: Seq<u8>) -> Seq<u8>
    recommends
        b.len() >= 2,
        2 + b[1] <= b.len(),
{
    b.skip(2 + b[1] as int)
}

/// A User Logging body parses when the length-prefixed identifier region is
/// present, both the identifier and the message are NUL-terminated within
/// their regions, and both are valid UTF-8.
pub open spec fn user_logging_parses(b: Seq<u8>) -> bool {
    &&& b.len() >= 2
    &&& 2 + b[1] <= b.len()
    &&& has_nul(user_logging_id_region(b))
    &&& valid_utf8(user_logging_id_region(b).take(nul_pos(user_logging_id_region(b))))
    &&& has_nul(user_logging_msg_region(b))
    &&& valid_utf8(user_logging_msg_region(b).take(nul_pos(user_logging_msg_region(b))))
}

/// `ul` is the decoding of the User Logging body `b`.
pub open spec fn user_logging_is(ul: UserLogging, b: Seq<u8>) -> bool {
    &&& ul.prio == log_priority_of(b[0])
    &&& encode_utf8(ul.id@) == user_logging_id_region(b).take(nul_pos(user_logging_id_region(b)))
    &&& encode_utf8(ul.msg@) == user_logging_msg_region(b).take(
        nul_pos(user_logging_msg_region(b)),
    )
}

/// A User Logging record: priority, identifier, and message.
#[derive(Debug, PartialEq, Eq)]
pub struct UserLogging {
    pub prio: LogPriority,
    pub id: String,
    pub msg: String,
}

impl UserLogging {
    /// Decodes a User Logging body: a priority byte, a one-byte-length-
    /// prefixed NUL-terminated UTF-8 identifier, then a NUL-terminated UTF-8
    /// message in the remaining body.
    pub fn parse(data: &[u8]) -> (r: Result<UserLogging, DecodeError>)
        ensures
            r is Ok <==> user_logging_parses(data@),
            r matches Ok(ul) ==> user_logging_is(ul, data@),
            r matches Err(e) ==> e == DecodeError::Malformed,
    {
        let n: usize = data.len();
        if n < 2 {
            return Err(DecodeError::Malformed);
        }
        let idlen = *vstd::slice::slice_index_get(data, 1) as usize;
        if idlen > n - 2 {
            return Err(DecodeError::Malformed);
        }
        let id_region = vstd::slice::slice_subrange(data, 2, 2 + idlen);
        assert(id_region@ =~= user_logging_id_region(data@));
        let id_k = match find_nul(id_region) {
            Some(k) => k,
            None => {
                return Err(DecodeError::Malformed);
            },
        };
        let id_slice = vstd::slice::slice_subrange(id_region, 0, id_k);
        assert(id_slice@ =~= user_logging_id_region(data@).take(
            nul_pos(user_logging_id_region(data@)),
        ));
        let id = match utf8_string(id_slice) {
            Some(id) => id,
            None => {
                return Err(DecodeError::Malformed);
            },
        };
        let msg_region = vstd::slice::slice_subrange(data, 2 + idlen, n);
        assert(msg_region@ =~= user_logging_msg_region(data@));
        let msg_k = match find_nul(msg_region) {
            Some(k) => k,
            None => {
                return Err(DecodeError::Malformed);
            },
        };
        let msg_slice = vstd::slice::slice_subrange(msg_region, 0, msg_k);
        assert(msg_slice@ =~= user_logging_msg_region(data@).take(
            nul_pos(user_logging_msg_region(data@)),
        ));
        let msg = match utf8_string(msg_slice) {
            Some(msg) => msg,
            None => {
                return Err(DecodeError::Malformed);
            },
        };
        let prio = LogPriority::from_raw(*vstd::slice::slice_index_get(data, 0));
        Ok(UserLogging { prio, id, msg })
    }
}

/// An ACL body parses when the handle field, the length field, and at least
/// the declared number of payload bytes are present.
pub open spec fn acl_parses(b: Seq<u8>) -> bool {
    b.len() >= 4 && 4 + le16_at(b, 2) <= b.len()
}

/// `a` is the decoding of the ACL body `b`: the handle field splits into the
/// low twelve connection-handle bits, two packet-boundary bits, and two
/// broadcast bits.
pub open spec fn acl_is(a: AclPkt, b: Seq<u8>) -> bool {
    &&& a.handle == le16_at(b, 0) as int % 4096
    &&& a.pb == (le16_at(b, 0) as int / 4096) % 4
    &&& a.bc == le16_at(b, 0) as int / 16384
    &&& a.data@ == b.subrange(4, 4 + le16_at(b, 2) as int)
}

/// An ACL data packet: connection handle, packet-boundary flag, broadcast
/// flag, and the declared payload bytes.
#[derive(Debug, PartialEq, Eq)]
pub struct AclPkt {
    pub handle: u16,
    pub pb: u8,
    pub bc: u8,
    pub data: Vec<u8>,
}

impl AclPkt {
    /// Decodes an ACL body: a little-endian handle field (low 12 bits the
    /// connection handle, bits 12-13 the packet-boundary flag, bits 14-15
    /// the broadcast flag), a little-endian length, then exactly that many
    /// payload bytes (trailing input is ignored).
    pub fn parse(frame: &[u8]) -> (r: Result<AclPkt, DecodeError>)
        ensures
            r is Ok <==> acl_parses(frame@),
            r matches Ok(a) ==> acl_is(a, frame@),
            r matches Err(e) ==> e == DecodeError::Malformed,
    {
        let n: usize = frame.len();
        if n < 4 {
            return Err(DecodeError::Malformed);
        }
        let raw = read_le_u16(frame, 0);
        let dlen = read_le_u16(frame, 2) as usize;
        if dlen > n - 4 {
            return Err(DecodeError::Malformed);
        }
        let handle = raw % 4096;
        let pb = ((raw / 4096) % 4) as u8;
        let bc = (raw / 16384) as u8;
        let data = sub_vec(frame, 4, 4 + dlen);
        Ok(AclPkt { handle, pb, bc, data })
    }

    /// Reinterprets the payload as an L2CAP frame, for display; `None` when
    /// the payload does not parse as one.
    pub fn l2cap(&self) -> (r: Option<l2cap::Frame>)
        ensures
            r is Some <==> l2cap::frame_parses(self.data@),
            r matches Some(f) ==> f.cid == l2cap::cid_of(le16_at(self.data@, 2)) && f.data@
                == self.data@.subrange(4, 4 + le16_at(self.data@, 0) as int),
    {
        match l2cap::Frame::parse(self.data.as_slice()) {
            Ok(f) => Some(f),
            Err(_) => None,
        }
    }
}

/// A decoded monitor operation: one variant per cataloged frame opcode, with
/// the numeric catch-all holding the opcode and the unparsed body.
#[derive(Debug, PartialEq, Eq)]
pub enum Op {
    NewIndex(NewIndex),
    DelIndex,
    CommandPkt(hci::Command),
    EventPkt(hci::Event),
    AclTxPkt(AclPkt),
    AclRxPkt(AclPkt),
    ScoTxPkt(Vec<u8>),
    ScoRxPkt(Vec<u8>),
    OpenIndex,
    CloseIndex,
    IndexInfo(Vec<u8>),
    VendorDiag(Vec<u8>),
    SystemNote(Vec<u8>),
    UserLogging(UserLogging),
    CtrlOpen(Vec<u8>),
    CtrlClose(Vec<u8>),
    CtrlCommand(Vec<u8>),
    CtrlEvent(Vec<u8>),
    IsoTxPkt(Vec<u8>),
    IsoRxPkt(Vec<u8>),
    Unknown(u16, Vec<u8>),
}

/// `r` is the catch-all for opcode `op` with the body kept unchanged.
pub open spec fn degraded(r: Op, op: u16, b: Seq<u8>) -> bool {
    r matches Op::Unknown(o, d) && o == op && d@ == b
}

/// The dispatch relation: `r` is the operation that frame opcode `op` and
/// body `b` decode to. Opcodes with a structured body degrade to the
/// catch-all when the body does not parse; opcodes beyond the catalog go to
/// the catch-all directly.
pub open spec fn dispatched(r: Op, op: u16, b: Seq<u8>) -> bool {
    &&& op == 0 && new_index_parses(b) ==> (r matches Op::NewIndex(ni) && new_index_is(ni, b))
    &&& op == 0 && !new_index_parses(b) ==> degraded(r, op, b)
    &&& op == 1 ==> r == Op::DelIndex
    &&& op == 2 && hci::command_parses(b) ==> (r matches Op::CommandPkt(c) && hci::command_is(
        c,
        b,
    ))
    &&& op == 2 && !hci::command_parses(b) ==> degraded(r, op, b)
    &&& op == 3 && hci::event_parses(b) ==> (r matches Op::EventPkt(e) && hci::event_is(e, b))
    &&& op == 3 && !hci::event_parses(b) ==> degraded(r, op, b)
    &&& op == 4 && acl_parses(b) ==> (r matches Op::AclTxPkt(a) && acl_is(a, b))
    &&& op == 4 && !acl_parses(b) ==> degraded(r, op, b)
    &&& op == 5 && acl_parses(b) ==> (r matches Op::AclRxPkt(a) && acl_is(a, b))
    &&& op == 5 && !acl_parses(b) ==> degraded(r, op, b)
    &&& op == 6 ==> (r matches Op::ScoTxPkt(d) && d@ == b)
    &&& op == 7 ==> (r matches Op::ScoRxPkt(d) && d@ == b)
    &&& op == 8 ==> r == Op::OpenIndex
    &&& op == 9 ==> r == Op::CloseIndex
    &&& op == 10 ==> (r matches Op::IndexInfo(d) && d@ == b)
    &&& op == 11 ==> (r matches Op::VendorDiag(d) && d@ == b)
    &&& op == 12 ==> (r matches Op::SystemNote(d) && d@ == b)
    &&& op == 13 && user_logging_parses(b) ==> (r matches Op::UserLogging(ul)
        && user_logging_is(ul, b))
    &&& op == 13 && !user_logging_parses(b) ==> degraded(r, op, b)
    &&& op == 14 ==> (r matches Op::CtrlOpen(d) && d@ == b)
    &&& op == 15 ==> (r matches Op::CtrlClose(d) && d@ == b)
    &&& op == 16 ==> (r matches Op::CtrlCommand(d) && d@ == b)
    &&& op == 17 ==> (r matches Op::CtrlEvent(d) && d@ == b)
    &&& op == 18 ==> (r matches Op::IsoTxPkt(d) && d@ == b)
    &&& op == 19 ==> (r matches Op::IsoRxPkt(d) && d@ == b)
    &&& op >= 20 ==> degraded(r, op, b)
}

/// Dispatches one frame body on its opcode. This function is total: whatever
/// the opcode and body, some operation comes back.
pub fn parse_packet(op: u16, data: &[u8]) -> (r: Op)
    ensures
        dispatched(r, op, data@),
{
    let n: usize = data.len();
    proof {
        assert(data@.subrange(0, data@.len() as int) =~= data@);
    }
    match op {
        0 => match NewIndex::parse(data) {
            Ok(ni) => Op::NewIndex(ni),
            Err(_) => Op::Unknown(op, sub_vec(data, 0, n)),
        },
        1 => Op::DelIndex,
        2 => match hci::Command::parse(data) {
            Ok(c) => Op::CommandPkt(c),
            Err(_) => Op::Unknown(op, sub_vec(data, 0, n)),
        },
        3 => match hci::Event::parse(data) {
            Ok(e) => Op::EventPkt(e),
            Err(_) => Op::Unknown(op, sub_vec(data, 0, n)),
        },
        4 => match AclPkt::parse(data) {
            Ok(a) => Op::AclTxPkt(a),
            Err(_) => Op::Unknown(op, sub_vec(data, 0, n)),
        },
        5 => match AclPkt::parse(data) {
            Ok(a) => Op::AclRxPkt(a),
            Err(_) => Op::Unknown(op, sub_vec(data, 0, n)),
        },
        6 => Op::ScoTxPkt(sub_vec(data, 0, n)),
        7 => Op::ScoRxPkt(sub_vec(data, 0, n)),
        8 => Op::OpenIndex,
        9 => Op::CloseIndex,
        10 => Op::IndexInfo(sub_vec(data, 0, n)),
        11 => Op::VendorDiag(sub_vec(data, 0, n)),
        12 => Op::SystemNote(sub_vec(data, 0, n)),
        13 => match UserLogging::parse(data) {
            Ok(ul) => Op::UserLogging(ul),
            Err(_) => Op::Unknown(op, sub_vec(data, 0, n)),
        },
        14 => Op::CtrlOpen(sub_vec(data, 0, n)),
        15 => Op::CtrlClose(sub_vec(data, 0, n)),
        16 => Op::CtrlCommand(sub_vec(data, 0, n)),
        17 => Op::CtrlEvent(sub_vec(data, 0, n)),
        18 => Op::IsoTxPkt(sub_vec(data, 0, n)),
        19 => Op::IsoRxPkt(sub_vec(data, 0, n)),
        _ => Op::Unknown(op, sub_vec(data, 0, n)),
    }
}

/// One decoded record: the session-clock timestamp in microseconds since
/// midnight, the controller index, and the operation.
#[derive(Debug, PartialEq, Eq)]
pub struct Packet {
    pub ts: u64,
    pub index: u16,
    pub op: Op,
}

/// Builds the record for one dispatched frame.
pub fn monitor_packet(ts: u64, index: u16, op: u16, data: &[u8]) -> (r: Packet)
    ensures
        r.ts == ts,
        r.index == index,
        dispatched(r.op, op, data@),
{
    let op = parse_packet(op, data);
    Packet { ts, index, op }
}

} // verus!
