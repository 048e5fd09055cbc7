//! Outer monitor framing: a little-endian 16-bit total length, then a frame
//! of that many bytes holding a 16-bit opcode, a flags byte, a
//! length-prefixed extension-header block, and the frame body. Extension
//! entries carry drop counters and session-clock timestamp deltas.

use vstd::prelude::*;
use crate::err::DecodeError;
use crate::monitor;
use crate::util::{le16_at, le32_at, read_le_u16, read_le_u32};

verus! {

/// Microseconds in a day: the session clock wraps at midnight.
pub const DAY_US: u64 = 86_400_000_000;

/// One extension-header entry: a drop counter for one traffic class, a
/// timestamp delta in 100-microsecond ticks, or an unrecognized zero-payload
/// marker.
#[derive(Debug, PartialEq, Eq, Structural, Clone, Copy)]
pub enum ExtHeader {
    CommandDrops(u8),
    EventDrops(u8),
    AclTxDrops(u8),
    AclRxDrops(u8),
    ScoTxDrops(u8),
    ScoRxDrops(u8),
    OtherDrops(u8),
    TimeStamp(u32),
    Unknown(u8),
}

/// Encoded size of an extension entry with type code `t`: a type byte plus a
/// one-byte counter for the drop types, plus a four-byte delta for the
/// timestamp type, and nothing for unrecognized types.
pub open spec fn ext_entry_len(t: u8) -> int {
    if 1 <= t <= 7 {
        2
    } else if t == 8 {
        5
    } else {
        1
    }
}

/// `h` is the decoding of the extension entry at the front of `b`.
pub open spec fn ext_header_is(h: ExtHeader, b: Seq<u8>) -> bool
    recommends
        b.len() >= 1,
        ext_entry_len(b[0]) <= b.len(),
{
    if b[0] == 1 {
        h == ExtHeader::CommandDrops(b[1])
    } else if b[0] == 2 {
        h == ExtHeader::EventDrops(b[1])
    } else if b[0] == 3 {
        h == ExtHeader::AclTxDrops(b[1])
    } else if b[0] == 4 {
        h == ExtHeader::AclRxDrops(b[1])
    } else if b[0] == 5 {
        h == ExtHeader::ScoTxDrops(b[1])
    } else if b[0] == 6 {
        h == ExtHeader::ScoRxDrops(b[1])
    } else if b[0] == 7 {
        h == ExtHeader::OtherDrops(b[1])
    } else if b[0] == 8 {
        h == ExtHeader::TimeStamp(le32_at(b, 1))
    } else {
        h == ExtHeader::Unknown(b[0])
    }
}

/// Decodes the extension entry at the front of `data` and reports how many
/// bytes it occupied. Fails when the entry's payload runs past the end.
pub fn parse_ext(data: &[u8]) -> (r: Result<(ExtHeader, usize), DecodeError>)
    ensures
        r is Ok <==> data@.len() >= 1 && ext_entry_len(data@[0]) <= data@.len(),
        r matches Ok((h, c)) ==> c == ext_entry_len(data@[0]) && ext_header_is(h, data@),
        r matches Err(e) ==> e == DecodeError::Malformed,
{
    let n: usize = data.len();
    if n < 1 {
        return Err(DecodeError::Malformed);
    }
    let t = *vstd::slice::slice_index_get(data, 0);
    if 1 <= t && t <= 7 {
        if n < 2 {
            return Err(DecodeError::Malformed);
        }
        let v = *vstd::slice::slice_index_get(data, 1);
        let h = match t {
            1 => ExtHeader::CommandDrops(v),
            2 => ExtHeader::EventDrops(v),
            3 => ExtHeader::AclTxDrops(v),
            4 => ExtHeader::AclRxDrops(v),
            5 => ExtHeader::ScoTxDrops(v),
            6 => ExtHeader::ScoRxDrops(v),
            _ => ExtHeader::OtherDrops(v),
        };
        Ok((h, 2))
    } else if t == 8 {
        if n < 5 {
            return Err(DecodeError::Malformed);
        }
        Ok((ExtHeader::TimeStamp(read_le_u32(data, 1)), 5))
    } else {
        Ok((ExtHeader::Unknown(t), 1))
    }
}

/// Total timestamp ticks carried by the extension entries of `b` from
/// position `i` on. A truncated trailing entry contributes nothing and ends
/// the list.
pub open spec fn ext_ticks(b: Seq<u8>, i: int) -> int
    decreases b.len() - i,
    when 0 <= i <= b.len()
{
    if i >= b.len() {
        0
    } else {
        let el = ext_entry_len(b[i]);
        if i + el > b.len() {
            0
        } else if b[i] == 8 {
            le32_at(b, i + 1) + ext_ticks(b, i + el)
        } else {
            ext_ticks(b, i + el)
        }
    }
}

/// The tick total is bounded by one 32-bit delta per byte of the region.
pub proof fn lemma_ext_ticks_bound(b: Seq<u8>, i: int)
    requires
        0 <= i <= b.len(),
    ensures
        0 <= ext_ticks(b, i) <= (b.len() - i) * 0xffffffff,
    decreases b.len() - i,
{
    if i < b.len() {
        let el = ext_entry_len(b[i]);
        if i + el <= b.len() {
            lemma_ext_ticks_bound(b, i + el);
        }
    }
}

/// Total length declared by a frame's two-byte length prefix.
pub open spec fn declared_len(b: Seq<u8>) -> int
    recommends
        b.len() >= 2,
{
    le16_at(b, 0) as int
}

/// All the bytes the declared length promises are present.
pub open spec fn frame_complete(b: Seq<u8>) -> bool {
    b.len() >= 2 && b.len() >= 2 + declared_len(b)
}

/// The frame region: the declared number of bytes after the length prefix.
pub open spec fn frame_region(b: Seq<u8>) -> Seq<u8>
    recommends
        frame_complete(b),
{
    b.subrange(2, 2 + declared_len(b))
}

/// A complete frame is well formed when it holds the four header bytes and
/// its declared extension-header block fits inside it.
pub open spec fn frame_well_formed(b: Seq<u8>) -> bool
    recommends
        frame_complete(b),
{
    declared_len(b) >= 4 && 4 + frame_region(b)[3] <= declared_len(b)
}

/// The frame's 16-bit opcode.
pub open spec fn frame_opcode(b: Seq<u8>) -> u16
    recommends
        frame_complete(b),
        frame_well_formed(b),
{
    le16_at(frame_region(b), 0)
}

/// The frame's extension-header block.
pub open spec fn ext_region(b: Seq<u8>) -> Seq<u8>
    recommends
        frame_complete(b),
        frame_well_formed(b),
{
    frame_region(b).subrange(4, 4 + frame_region(b)[3] as int)
}

/// The frame's body: what follows the extension-header block.
pub open spec fn frame_body(b: Seq<u8>) -> Seq<u8>
    recommends
        frame_complete(b),
        frame_well_formed(b),
{
    frame_region(b).subrange(4 + frame_region(b)[3] as int, declared_len(b))
}

/// Outcome of one frame-decode attempt. `Incomplete` asks the caller for
/// more bytes from the same position; the other two report how many bytes
/// the attempt consumed.
#[derive(Debug, PartialEq, Eq)]
pub enum FrameOutcome {
    Decoded(monitor::Packet, usize),
    Incomplete,
    Malformed(usize),
}

/// Decodes one monitor frame from the front of `input`, with the session
/// clock at `now_us` microseconds since midnight. Timestamp deltas in the
/// frame advance the clock, wrapping at midnight; the decoded record carries
/// the advanced clock, and controller index 0.
pub fn parse_data(input: &[u8], now_us: u64) -> (r: FrameOutcome)
    requires
        now_us < DAY_US,
    ensures
        input@.len() < 2 ==> r is Incomplete,
        input@.len() >= 2 ==> ((r is Incomplete) <==> input@.len() < 2 + declared_len(input@)),
        frame_complete(input@) ==> ((r is Decoded) <==> frame_well_formed(input@)),
        r matches FrameOutcome::Decoded(pkt, n) ==> {
            &&& n == 2 + declared_len(input@)
            &&& pkt.index == 0
            &&& pkt.ts == (now_us + 100 * ext_ticks(ext_region(input@), 0)) as int % (
            DAY_US as int)
            &&& monitor::dispatched(pkt.op, frame_opcode(input@), frame_body(input@))
        },
        r matches FrameOutcome::Malformed(n) ==> n == 2 + declared_len(input@),
{
    let n: usize = input.len();
    if n < 2 {
        return FrameOutcome::Incomplete;
    }
    let total = read_le_u16(input, 0) as usize;
    if n - 2 < total {
        return FrameOutcome::Incomplete;
    }
    let frame = vstd::slice::slice_subrange(input, 2, 2 + total);
    assert(frame@ =~= frame_region(input@));
    if total < 4 {
        return FrameOutcome::Malformed(2 + total);
    }
    let opcode = read_le_u16(frame, 0);
    let ext_len = *vstd::slice::slice_index_get(frame, 3) as usize;
    if ext_len > total - 4 {
        return FrameOutcome::Malformed(2 + total);
    }
    let ext = vstd::slice::slice_subrange(frame, 4, 4 + ext_len);
    assert(ext@ =~= ext_region(input@));

    let ghost total_ticks = ext_ticks(ext@, 0);
    proof {
        lemma_ext_ticks_bound(ext@, 0);
    }
    let mut ticks: u64 = 0;
    let mut pos: usize = 0;
    while pos < ext_len
        invariant
            pos <= ext_len == ext@.len(),
            ext@.len() <= 255,
            total_ticks == ext_ticks(ext@, 0),
            0 <= total_ticks <= 255 * 0xffffffff,
            ticks + ext_ticks(ext@, pos as int) == total_ticks,
            ticks >= 0,
        decreases ext_len - pos,
    {
        proof {
            lemma_ext_ticks_bound(ext@, pos as int);
        }
        let suffix = vstd::slice::slice_subrange(ext, pos, ext_len);
        assert(suffix@ =~= ext@.skip(pos as int));
        match parse_ext(suffix) {
            Ok((h, c)) => {
                proof {
                    lemma_ext_ticks_bound(ext@, pos + ext_entry_len(ext@[pos as int]));
                }
                if let ExtHeader::TimeStamp(t) = h {
                    assert(le32_at(suffix@, 1) == le32_at(ext@, pos + 1));
                    ticks = ticks + t as u64;
                }
                pos += c;
            },
            Err(_) => {
                // A truncated trailing entry ends the list and contributes
                // nothing.
                assert(ext_ticks(ext@, pos as int) == 0);
                pos = ext_len;
            },
        }
    }
    assert(ticks == total_ticks);

    let ts = (now_us + 100 * ticks) % DAY_US;
    let body = vstd::slice::slice_subrange(frame, 4 + ext_len, total);
    assert(body@ =~= frame_body(input@));
    let pkt = monitor::monitor_packet(ts, 0, opcode, body);
    FrameOutcome::Decoded(pkt, 2 + total)
}

/// Two well-formed consecutive frames: the first frame's declared length and
/// content are unchanged by what follows it, and consuming exactly its bytes
/// leaves precisely the second frame.
pub proof fn lemma_consecutive_frames(f1: Seq<u8>, f2: Seq<u8>)
    requires
        frame_complete(f1),
        f1.len() == 2 + declared_len(f1),
    ensures
        declared_len(f1 + f2) == declared_len(f1),
        frame_complete(f1 + f2),
        frame_region(f1 + f2) == frame_region(f1),
        frame_well_formed(f1 + f2) == frame_well_formed(f1),
        frame_well_formed(f1) ==> frame_opcode(f1 + f2) == frame_opcode(f1) && ext_region(f1 + f2)
            == ext_region(f1) && frame_body(f1 + f2) == frame_body(f1),
        (f1 + f2).skip(2 + declared_len(f1 + f2)) == f2,
{
    let c = f1 + f2;
    assert(c[0] == f1[0] && c[1] == f1[1]);
    assert(declared_len(c) == declared_len(f1));
    assert(frame_region(c) =~= frame_region(f1));
    assert(c.skip(2 + declared_len(c)) =~= f2);
}

} // verus!
