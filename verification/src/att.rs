//! Attribute-protocol PDU decoding: a one-byte opcode resolved against the
//! ATT opcode catalog, followed by the entire remaining payload as parameter
//! (ATT PDUs carry no inner length field; the enclosing L2CAP length bounds
//! them).

use vstd::prelude::*;
use crate::err::DecodeError;

verus! {

/// ATT opcode catalog, with a numeric catch-all for uncataloged codes.
#[derive(Debug, PartialEq, Eq, Structural, Clone, Copy)]
pub enum OpCode {
    ErrorRsp,
    ExchangeMtuReq,
    ExchangeMtuRsp,
    FindInformationReq,
    FindInformationRsp,
    FindByTypeValueReq,
    FindByTypeValueRsp,
    ReadByTypeReq,
    ReadByTypeRsp,
    ReadReq,
    ReadRsp,
    ReadBlobReq,
    ReadBlobRsp,
    ReadMultipleReq,
    ReadMultipleRsp,
    ReadByGroupTypeReq,
    ReadByGroupTypeRsp,
    WriteReq,
    WriteRsp,
    WriteCmd,
    PrepareWriteReq,
    PrepareWriteRsp,
    ExecuteWriteReq,
    ExecuteWriteRsp,
    ReadMultipleVariableReq,
    ReadMultipleVariableRsp,
    ReadMultipleVariableNtf,
    HandleValueNtf,
    HandleValueInd,
    HandleValueCfm,
    SignedWriteCmd,
    Other(u8),
}

/// The catalog entry for a numeric ATT opcode.
pub open spec fn att_op_of(v: u8) -> OpCode {
    if v == 0x01 {
        OpCode::ErrorRsp
    } else if v == 0x02 {
        OpCode::ExchangeMtuReq
    } else if v == 0x03 {
        OpCode::ExchangeMtuRsp
    } else if v == 0x04 {
        OpCode::FindInformationReq
    } else if v == 0x05 {
        OpCode::FindInformationRsp
    } else if v == 0x06 {
        OpCode::FindByTypeValueReq
    } else if v == 0x07 {
        OpCode::FindByTypeValueRsp
    } else if v == 0x08 {
        OpCode::ReadByTypeReq
    } else if v == 0x09 {
        OpCode::ReadByTypeRsp
    } else if v == 0x0a {
        OpCode::ReadReq
    } else if v == 0x0b {
        OpCode::ReadRsp
    } else if v == 0x0c {
        OpCode::ReadBlobReq
    } else if v == 0x0d {
        OpCode::ReadBlobRsp
    } else if v == 0x0e {
        OpCode::ReadMultipleReq
    } else if v == 0x0f {
        OpCode::ReadMultipleRsp
    } else if v == 0x10 {
        OpCode::ReadByGroupTypeReq
    } else if v == 0x11 {
        OpCode::ReadByGroupTypeRsp
    } else if v == 0x12 {
        OpCode::WriteReq
    } else if v == 0x13 {
        OpCode::WriteRsp
    } else if v == 0x52 {
        OpCode::WriteCmd
    } else if v == 0x16 {
        OpCode::PrepareWriteReq
    } else if v == 0x17 {
        OpCode::PrepareWriteRsp
    } else if v == 0x18 {
        OpCode::ExecuteWriteReq
    } else if v == 0x19 {
        OpCode::ExecuteWriteRsp
    } else if v == 0x20 {
        OpCode::ReadMultipleVariableReq
    } else if v == 0x21 {
        OpCode::ReadMultipleVariableRsp
    } else if v == 0x23 {
        OpCode::ReadMultipleVariableNtf
    } else if v == 0x1b {
        OpCode::HandleValueNtf
    } else if v == 0x1d {
        OpCode::HandleValueInd
    } else if v == 0x1e {
        OpCode::HandleValueCfm
    } else if v == 0xd2 {
        OpCode::SignedWriteCmd
    } else {
        OpCode::Other(v)
    }
}

impl OpCode {
    /// Resolves a numeric ATT opcode against the catalog.
    pub fn from_raw(v: u8) -> (r: OpCode)
        ensures
            r == att_op_of(v),
    {
        match v {
            0x01 => OpCode::ErrorRsp,
            0x02 => OpCode::ExchangeMtuReq,
            0x03 => OpCode::ExchangeMtuRsp,
            0x04 => OpCode::FindInformationReq,
            0x05 => OpCode::FindInformationRsp,
            0x06 => OpCode::FindByTypeValueReq,
            0x07 => OpCode::FindByTypeValueRsp,
            0x08 => OpCode::ReadByTypeReq,
            0x09 => OpCode::ReadByTypeRsp,
            0x0a => OpCode::ReadReq,
            0x0b => OpCode::ReadRsp,
            0x0c => OpCode::ReadBlobReq,
            0x0d => OpCode::ReadBlobRsp,
            0x0e => OpCode::ReadMultipleReq,
            0x0f => OpCode::ReadMultipleRsp,
            0x10 => OpCode::ReadByGroupTypeReq,
            0x11 => OpCode::ReadByGroupTypeRsp,
            0x12 => OpCode::WriteReq,
            0x13 => OpCode::WriteRsp,
            0x52 => OpCode::WriteCmd,
            0x16 => OpCode::PrepareWriteReq,
            0x17 => OpCode::PrepareWriteRsp,
            0x18 => OpCode::ExecuteWriteReq,
            0x19 => OpCode::ExecuteWriteRsp,
            0x20 => OpCode::ReadMultipleVariableReq,
            0x21 => OpCode::ReadMultipleVariableRsp,
            0x23 => OpCode::ReadMultipleVariableNtf,
            0x1b => OpCode::HandleValueNtf,
            0x1d => OpCode::HandleValueInd,
            0x1e => OpCode::HandleValueCfm,
            0xd2 => OpCode::SignedWriteCmd,
            _ => OpCode::Other(v),
        }
    }
}

/// A decoded ATT PDU: opcode plus the undissected parameter bytes.
#[derive(Debug, PartialEq, Eq)]
pub struct Pdu {
    pub opcode: OpCode,
    pub param: Vec<u8>,
}

impl Pdu {
    /// Decodes an ATT PDU: one opcode byte, then everything that remains is
    /// the parameter. Fails only on an empty input.
    pub fn parse(input: &[u8]) -> (r: Result<Pdu, DecodeError>)
        ensures
            r is Ok <==> input@.len() >= 1,
            r matches Ok(p) ==> p.opcode == att_op_of(input@[0]) && p.param@ == input@.skip(1),
            r matches Err(e) ==> e == DecodeError::Malformed,
    {
        let n: usize = input.len();
        if n < 1 {
            return Err(DecodeError::Malformed);
        }
        let opcode = OpCode::from_raw(*vstd::slice::slice_index_get(input, 0));
        let param = crate::util::sub_vec(input, 1, n);
        assert(param@ =~= input@.skip(1));
        Ok(Pdu { opcode, param })
    }
}

} // verus!
