//! L2CAP channel frame decoding: a four-byte header (little-endian payload
//! length, then little-endian channel ID) followed by exactly that many
//! payload bytes. ATT-channel payloads can be dissected further.

use vstd::prelude::*;
use vstd::string::StringExecFns;
use crate::att;
use crate::err::DecodeError;
use crate::util::{le16_at, push_hex4};

verus! {

/// Well-known L2CAP channel identifiers, with a numeric catch-all.
#[derive(Debug, PartialEq, Eq, Structural, Clone, Copy)]
pub enum Cid {
    Null,
    Sig,
    Connless,
    Att,
    LeSig,
    Smp,
    BrSmp,
    Other(u16),
}

/// The catalog entry for a numeric channel ID.
pub open spec fn cid_of(v: u16) -> Cid {
    if v == 0x0000 {
        Cid::Null
    } else if v == 0x0001 {
        Cid::Sig
    } else if v == 0x0002 {
        Cid::Connless
    } else if v == 0x0004 {
        Cid::Att
    } else if v == 0x0005 {
        Cid::LeSig
    } else if v == 0x0006 {
        Cid::Smp
    } else if v == 0x0007 {
        Cid::BrSmp
    } else {
        Cid::Other(v)
    }
}

/// Display name of a channel.
pub open spec fn cid_name_spec(c: Cid) -> Seq<char> {
    match c {
        Cid::Null => "Null (Not allowed)"@,
        Cid::Sig => "L2CAP Signaling"@,
        Cid::Connless => "Connectionless"@,
        Cid::Att => "ATT"@,
        Cid::LeSig => "LE Signaling"@,
        Cid::Smp => "SMP"@,
        Cid::BrSmp => "BR/EDR SMP"@,
        Cid::Other(v) => "CID 0x"@ + crate::util::hex4(v as int),
    }
}

impl Cid {
    /// Resolves a numeric channel ID against the catalog.
    pub fn from_raw(v: u16) -> (r: Cid)
        ensures
            r == cid_of(v),
    {
        match v {
            0x0000 => Cid::Null,
            0x0001 => Cid::Sig,
            0x0002 => Cid::Connless,
            0x0004 => Cid::Att,
            0x0005 => Cid::LeSig,
            0x0006 => Cid::Smp,
            0x0007 => Cid::BrSmp,
            _ => Cid::Other(v),
        }
    }

    /// Display name of the channel.
    pub fn name(&self) -> (r: String)
        ensures
            r@ == cid_name_spec(*self),
    {
        match self {
            Cid::Null => String::from_str("Null (Not allowed)"),
            Cid::Sig => String::from_str("L2CAP Signaling"),
            Cid::Connless => String::from_str("Connectionless"),
            Cid::Att => String::from_str("ATT"),
            Cid::LeSig => String::from_str("LE Signaling"),
            Cid::Smp => String::from_str("SMP"),
            Cid::BrSmp => String::from_str("BR/EDR SMP"),
            Cid::Other(v) => {
                let mut s = String::from_str("CID 0x");
                push_hex4(&mut s, *v);
                s
            },
        }
    }
}

/// The L2CAP header and payload parse: four header bytes and at least the
/// declared number of payload bytes must be present.
pub open spec fn frame_parses(b: Seq<u8>) -> bool {
    b.len() >= 4 && 4 + le16_at(b, 0) <= b.len()
}

/// A decoded L2CAP frame: channel plus exactly the declared payload bytes.
#[derive(Debug, PartialEq, Eq)]
pub struct Frame {
    pub cid: Cid,
    pub data: Vec<u8>,
}

impl Frame {
    /// Decodes an L2CAP frame: little-endian payload length, little-endian
    /// channel ID, then exactly that many payload bytes (trailing input is
    /// ignored). Fails when fewer bytes than declared are present.
    pub fn parse(input: &[u8]) -> (r: Result<Frame, DecodeError>)
        ensures
            r is Ok <==> frame_parses(input@),
            r matches Ok(f) ==> f.cid == cid_of(le16_at(input@, 2)) && f.data@ == input@.subrange(
                4,
                4 + le16_at(input@, 0) as int,
            ),
            r matches Err(e) ==> e == DecodeError::Malformed,
    {
        let n: usize = input.len();
        if n < 4 {
            return Err(DecodeError::Malformed);
        }
        let len = crate::util::read_le_u16(input, 0);
        let cid_raw = crate::util::read_le_u16(input, 2);
        if n < 4 || (len as usize) > n - 4 {
            return Err(DecodeError::Malformed);
        }
        let data = crate::util::sub_vec(input, 4, 4 + len as usize);
        Ok(Frame { cid: Cid::from_raw(cid_raw), data })
    }

    /// Dissects the payload as an ATT PDU when this frame is on the ATT
    /// channel; `None` for every other channel, or when the payload is empty.
    pub fn att_pdu(&self) -> (r: Option<att::Pdu>)
        ensures
            self.cid != Cid::Att ==> r is None,
            self.cid == Cid::Att && self.data@.len() == 0 ==> r is None,
            self.cid == Cid::Att && self.data@.len() >= 1 ==> (r matches Some(p)
                && p.opcode == att::att_op_of(self.data@[0]) && p.param@ == self.data@.skip(1)),
    {
        if let Cid::Att = self.cid {
            match att::Pdu::parse(self.data.as_slice()) {
                Ok(p) => Some(p),
                Err(_) => None,
            }
        } else {
            None
        }
    }
}

} // verus!
