//! HCI command and event decoding: the command-opcode catalog (OGF group in
//! the high 6 bits, OCF command in the low 10 bits of a 16-bit opcode), the
//! event-code dispatch with its five structured event shapes, and the LE
//! subevent name table.

use vstd::prelude::*;
use vstd::string::StringExecFns;
use crate::err::DecodeError;
use crate::util::{le16_at, hex2, hex4, push_hex2, push_hex4, read_le_u16, sub_vec};

verus! {

/// HCI command-opcode catalog, with a numeric catch-all holding the packed
/// 16-bit opcode.
#[derive(Debug, PartialEq, Eq, Structural, Clone, Copy)]
pub enum Op {
    Inquiry,
    InquiryCancel,
    PeriodicInquiryMode,
    ExitPeriodicInquiryMode,
    CreateConn,
    Disconnect,
    HoldMode,
    SetEvtMask,
    ReadLocalVerInfo,
    ReadLocalSupportedCommands,
    ReadLocalSupportedFeatures,
    ReadLocalExtendedFeatures,
    ReadBufSize,
    ReadBdAddr,
    ReadFailedContactCounter,
    ReadLoopbackMode,
    LeSetEvtMask,
    LeReadBufSizeV1,
    LeReadBufSizeV2,
    LeReadLocalFeaturesPage0,
    LeSetRandomAddress,
    LeSetAdvPAram,
    LeReadAdvPhyChanTxPower,
    LeSetAdvData,
    LeSetScanResponseData,
    LeSetAdvEnable,
    LeSetScanParam,
    LeSetScanEnable,
    LeCreateConn,
    LeCreateConnCancel,
    LeReadFilterAcceptListSize,
    LeClearFilterAcceptList,
    LeAddDevToFilterAcceptList,
    LeRemDevFromFilterAcceptList,
    LeConnUpdate,
    LeSetHostChanClass,
    LeReadChanMAp,
    LeReadRemFeatPage0,
    LeEncrypt,
    LeRand,
    LeEnableEncrypt,
    LeLtkReqReply,
    LeLtkReqNegReply,
    LeReadSupportedStates,
    LeReceiverTestV1,
    LeReceiverTestV2,
    LeReceiverTestV3,
    LeTransmitterTestV1,
    LeTransmitterTestV2,
    LeTransmitterTestV3,
    LeTransmitterTestV4,
    LeTestEnd,
    LeRemoteConnParamReqReply,
    LeRemoteConnParamReqNegReply,
    LeSetDataLength,
    LeReadSuggDefDataLength,
    LeWriteSuggDefDataLength,
    LeReadLocalP256PubKey,
    LeGenerateDHKeyV1,
    LeGenerateDHKeyV2,
    LeAddDevToResolvList,
    LeRemDevFromResolvList,
    LeClearResolvList,
    LeReadResolvListSize,
    LeReadPeerResolvAddress,
    LeReadLocalResolvAddress,
    LeSetAddressResolutionEnable,
    LeSetResolvPrivAddrTimeout,
    LeReadMaxDataLength,
    Unknown(u16),
}

/// The catalog entry for a packed 16-bit command opcode.
pub open spec fn op_of(v: u16) -> Op {
    if v == 0x0401 {
        Op::Inquiry
    } else if v == 0x0402 {
        Op::InquiryCancel
    } else if v == 0x0403 {
        Op::PeriodicInquiryMode
    } else if v == 0x0404 {
        Op::ExitPeriodicInquiryMode
    } else if v == 0x0405 {
        Op::CreateConn
    } else if v == 0x0406 {
        Op::Disconnect
    } else if v == 0x0801 {
        Op::HoldMode
    } else if v == 0x0c01 {
        Op::SetEvtMask
    } else if v == 0x1001 {
        Op::ReadLocalVerInfo
    } else if v == 0x1002 {
        Op::ReadLocalSupportedCommands
    } else if v == 0x1003 {
        Op::ReadLocalSupportedFeatures
    } else if v == 0x1004 {
        Op::ReadLocalExtendedFeatures
    } else if v == 0x1005 {
        Op::ReadBufSize
    } else if v == 0x1009 {
        Op::ReadBdAddr
    } else if v == 0x1401 {
        Op::ReadFailedContactCounter
    } else if v == 0x1801 {
        Op::ReadLoopbackMode
    } else if v == 0x2001 {
        Op::LeSetEvtMask
    } else if v == 0x2002 {
        Op::LeReadBufSizeV1
    } else if v == 0x2060 {
        Op::LeReadBufSizeV2
    } else if v == 0x2003 {
        Op::LeReadLocalFeaturesPage0
    } else if v == 0x2005 {
        Op::LeSetRandomAddress
    } else if v == 0x2006 {
        Op::LeSetAdvPAram
    } else if v == 0x2007 {
        Op::LeReadAdvPhyChanTxPower
    } else if v == 0x2008 {
        Op::LeSetAdvData
    } else if v == 0x2009 {
        Op::LeSetScanResponseData
    } else if v == 0x200a {
        Op::LeSetAdvEnable
    } else if v == 0x200b {
        Op::LeSetScanParam
    } else if v == 0x200c {
        Op::LeSetScanEnable
    } else if v == 0x200d {
        Op::LeCreateConn
    } else if v == 0x200e {
        Op::LeCreateConnCancel
    } else if v == 0x200f {
        Op::LeReadFilterAcceptListSize
    } else if v == 0x2010 {
        Op::LeClearFilterAcceptList
    } else if v == 0x2011 {
        Op::LeAddDevToFilterAcceptList
    } else if v == 0x2012 {
        Op::LeRemDevFromFilterAcceptList
    } else if v == 0x2013 {
        Op::LeConnUpdate
    } else if v == 0x2014 {
        Op::LeSetHostChanClass
    } else if v == 0x2015 {
        Op::LeReadChanMAp
    } else if v == 0x2016 {
        Op::LeReadRemFeatPage0
    } else if v == 0x2017 {
        Op::LeEncrypt
    } else if v == 0x2018 {
        Op::LeRand
    } else if v == 0x2019 {
        Op::LeEnableEncrypt
    } else if v == 0x201a {
        Op::LeLtkReqReply
    } else if v == 0x201b {
        Op::LeLtkReqNegReply
    } else if v == 0x201c {
        Op::LeReadSupportedStates
    } else if v == 0x201d {
        Op::LeReceiverTestV1
    } else if v == 0x2033 {
        Op::LeReceiverTestV2
    } else if v == 0x204f {
        Op::LeReceiverTestV3
    } else if v == 0x201e {
        Op::LeTransmitterTestV1
    } else if v == 0x2034 {
        Op::LeTransmitterTestV2
    } else if v == 0x2050 {
        Op::LeTransmitterTestV3
    } else if v == 0x207b {
        Op::LeTransmitterTestV4
    } else if v == 0x201f {
        Op::LeTestEnd
    } else if v == 0x2020 {
        Op::LeRemoteConnParamReqReply
    } else if v == 0x2021 {
        Op::LeRemoteConnParamReqNegReply
    } else if v == 0x2022 {
        Op::LeSetDataLength
    } else if v == 0x2023 {
        Op::LeReadSuggDefDataLength
    } else if v == 0x2024 {
        Op::LeWriteSuggDefDataLength
    } else if v == 0x2025 {
        Op::LeReadLocalP256PubKey
    } else if v == 0x2026 {
        Op::LeGenerateDHKeyV1
    } else if v == 0x205e {
        Op::LeGenerateDHKeyV2
    } else if v == 0x2027 {
        Op::LeAddDevToResolvList
    } else if v == 0x2028 {
        Op::LeRemDevFromResolvList
    } else if v == 0x2029 {
        Op::LeClearResolvList
    } else if v == 0x202a {
        Op::LeReadResolvListSize
    } else if v == 0x202b {
        Op::LeReadPeerResolvAddress
    } else if v == 0x202c {
        Op::LeReadLocalResolvAddress
    } else if v == 0x202d {
        Op::LeSetAddressResolutionEnable
    } else if v == 0x202e {
        Op::LeSetResolvPrivAddrTimeout
    } else if v == 0x202f {
        Op::LeReadMaxDataLength
    } else {
        Op::Unknown(v)
    }
}

/// Display name of a command opcode. An uncataloged opcode is rendered with
/// its OGF (high 6 bits) and OCF (low 10 bits) in hexadecimal.
pub open spec fn op_name_spec(op: Op) -> Seq<char> {
    match op {
        Op::Inquiry => "Inquiry"@,
        Op::InquiryCancel => "Inquiry Cancel"@,
        Op::PeriodicInquiryMode => "Periodic Inquiry Mode"@,
        Op::ExitPeriodicInquiryMode => "Exit Periodic Inquiry Mode"@,
        Op::CreateConn => "Create Connection"@,
        Op::Disconnect => "Disconnect"@,
        Op::HoldMode => "Hold Mode"@,
        Op::SetEvtMask => "Set Event Mask"@,
        Op::ReadLocalVerInfo => "Read Local Version Information"@,
        Op::ReadLocalSupportedCommands => "Read Local Supported Commands"@,
        Op::ReadLocalSupportedFeatures => "Read Local Supported Features"@,
        Op::ReadLocalExtendedFeatures => "Read Local Extended Features"@,
        Op::ReadBufSize => "Read Buffer Size"@,
        Op::ReadBdAddr => "Read BD_ADDR"@,
        Op::ReadFailedContactCounter => "Read Failed Contact Counter"@,
        Op::ReadLoopbackMode => "Read Loopback Mode"@,
        Op::LeSetEvtMask => "LE Set Event Mask"@,
        Op::LeReadBufSizeV1 => "LE Read Buffer Size [v1]"@,
        Op::LeReadBufSizeV2 => "LE Read Buffer Size [v2]"@,
        Op::LeReadLocalFeaturesPage0 => "LE Read Local Supported Features Page 0"@,
        Op::LeSetRandomAddress => "LE Set Random Address"@,
        Op::LeSetAdvPAram => "LE Set Advertising Parameters"@,
        Op::LeReadAdvPhyChanTxPower => "LE Read Advertising Physical Channel Tx Power"@,
        Op::LeSetAdvData => "LE Set Advertising Data"@,
        Op::LeSetScanResponseData => "LE Set Scan Response Data"@,
        Op::LeSetAdvEnable => "LE Set Advertising Enable"@,
        Op::LeSetScanParam => "LE Set Scan Parameters"@,
        Op::LeSetScanEnable => "LE Set Scan Enable"@,
        Op::LeCreateConn => "LE Create Connection"@,
        Op::LeCreateConnCancel => "LE Create Connection Cancel"@,
        Op::LeReadFilterAcceptListSize => "LE Read Filter Accept List Size"@,
        Op::LeClearFilterAcceptList => "LE Clear Filter Accept List"@,
        Op::LeAddDevToFilterAcceptList => "LE Add Device To Filter Accept List"@,
        Op::LeRemDevFromFilterAcceptList => "LE Remove Device From Filter Accept List"@,
        Op::LeConnUpdate => "LE Connection Update"@,
        Op::LeSetHostChanClass => "LE Set Host Channel Classification"@,
        Op::LeReadChanMAp => "LE Read Channel Map"@,
        Op::LeReadRemFeatPage0 => "LE Read Remote Features Page 0"@,
        Op::LeEncrypt => "LE Encrypt"@,
        Op::LeRand => "LE Rand"@,
        Op::LeEnableEncrypt => "LE Enable Encryption"@,
        Op::LeLtkReqReply => "LE LTK Request Reply"@,
        Op::LeLtkReqNegReply => "LE LTK Request Negative Reply"@,
        Op::LeReadSupportedStates => "LE Read Supported States"@,
        Op::LeReceiverTestV1 => "LE Receiver Test [v1]"@,
        Op::LeReceiverTestV2 => "LE Receiver Test [v2]"@,
        Op::LeReceiverTestV3 => "LE Receiver Test [v3]"@,
        Op::LeTransmitterTestV1 => "LE Transmitter Test [v1]"@,
        Op::LeTransmitterTestV2 => "LE Transmitter Test [v2]"@,
        Op::LeTransmitterTestV3 => "LE Transmitter Test [v3]"@,
        Op::LeTransmitterTestV4 => "LE Transmitter Test [v4]"@,
        Op::LeTestEnd => "LE Test End"@,
        Op::LeRemoteConnParamReqReply => "LE Remote Connection Parameter Request Reply"@,
        Op::LeRemoteConnParamReqNegReply => "LE Remote Connection Parameter Request Negative Reply"@,
        Op::LeSetDataLength => "LE Set Data Length"@,
        Op::LeReadSuggDefDataLength => "LE Read Suggested Default Data Length"@,
        Op::LeWriteSuggDefDataLength => "LE Write Suggested Default Data Length"@,
        Op::LeReadLocalP256PubKey => "LE Read Local P-256 Public Key"@,
        Op::LeGenerateDHKeyV1 => "LE Generate DHKey [v1]"@,
        Op::LeGenerateDHKeyV2 => "LE Generate DHKey [v2]"@,
        Op::LeAddDevToResolvList => "LE Add Device To Resolving List"@,
        Op::LeRemDevFromResolvList => "LE Remove Device From Resolving List"@,
        Op::LeClearResolvList => "LE Clear Resolving List"@,
        Op::LeReadResolvListSize => "LE Read Resolving List Size"@,
        Op::LeReadPeerResolvAddress => "LE Read Peer Resolvable Address"@,
        Op::LeReadLocalResolvAddress => "LE Read Local Resolvable Address"@,
        Op::LeSetAddressResolutionEnable => "LE Set Address Resolution Enable"@,
        Op::LeSetResolvPrivAddrTimeout => "LE Set Resolvable Private Address Timeout"@,
        Op::LeReadMaxDataLength => "LE Read Maximum Data Length"@,
        Op::Unknown(v) => "Unknown OGF 0x"@ + hex2(v as int / 1024) + " OCF 0x"@ + hex4(
            v as int % 1024,
        ),
    }
}

impl Op {
    /// Resolves a packed 16-bit command opcode against the catalog.
    pub fn from_raw(v: u16) -> (r: Op)
        ensures
            r == op_of(v),
    {
        match v {
            0x0401 => Op::Inquiry,
            0x0402 => Op::InquiryCancel,
            0x0403 => Op::PeriodicInquiryMode,
            0x0404 => Op::ExitPeriodicInquiryMode,
            0x0405 => Op::CreateConn,
            0x0406 => Op::Disconnect,
            0x0801 => Op::HoldMode,
            0x0c01 => Op::SetEvtMask,
            0x1001 => Op::ReadLocalVerInfo,
            0x1002 => Op::ReadLocalSupportedCommands,
            0x1003 => Op::ReadLocalSupportedFeatures,
            0x1004 => Op::ReadLocalExtendedFeatures,
            0x1005 => Op::ReadBufSize,
            0x1009 => Op::ReadBdAddr,
            0x1401 => Op::ReadFailedContactCounter,
            0x1801 => Op::ReadLoopbackMode,
            0x2001 => Op::LeSetEvtMask,
            0x2002 => Op::LeReadBufSizeV1,
            0x2060 => Op::LeReadBufSizeV2,
            0x2003 => Op::LeReadLocalFeaturesPage0,
            0x2005 => Op::LeSetRandomAddress,
            0x2006 => Op::LeSetAdvPAram,
            0x2007 => Op::LeReadAdvPhyChanTxPower,
            0x2008 => Op::LeSetAdvData,
            0x2009 => Op::LeSetScanResponseData,
            0x200a => Op::LeSetAdvEnable,
            0x200b => Op::LeSetScanParam,
            0x200c => Op::LeSetScanEnable,
            0x200d => Op::LeCreateConn,
            0x200e => Op::LeCreateConnCancel,
            0x200f => Op::LeReadFilterAcceptListSize,
            0x2010 => Op::LeClearFilterAcceptList,
            0x2011 => Op::LeAddDevToFilterAcceptList,
            0x2012 => Op::LeRemDevFromFilterAcceptList,
            0x2013 => Op::LeConnUpdate,
            0x2014 => Op::LeSetHostChanClass,
            0x2015 => Op::LeReadChanMAp,
            0x2016 => Op::LeReadRemFeatPage0,
            0x2017 => Op::LeEncrypt,
            0x2018 => Op::LeRand,
            0x2019 => Op::LeEnableEncrypt,
            0x201a => Op::LeLtkReqReply,
            0x201b => Op::LeLtkReqNegReply,
            0x201c => Op::LeReadSupportedStates,
            0x201d => Op::LeReceiverTestV1,
            0x2033 => Op::LeReceiverTestV2,
            0x204f => Op::LeReceiverTestV3,
            0x201e => Op::LeTransmitterTestV1,
            0x2034 => Op::LeTransmitterTestV2,
            0x2050 => Op::LeTransmitterTestV3,
            0x207b => Op::LeTransmitterTestV4,
            0x201f => Op::LeTestEnd,
            0x2020 => Op::LeRemoteConnParamReqReply,
            0x2021 => Op::LeRemoteConnParamReqNegReply,
            0x2022 => Op::LeSetDataLength,
            0x2023 => Op::LeReadSuggDefDataLength,
            0x2024 => Op::LeWriteSuggDefDataLength,
            0x2025 => Op::LeReadLocalP256PubKey,
            0x2026 => Op::LeGenerateDHKeyV1,
            0x205e => Op::LeGenerateDHKeyV2,
            0x2027 => Op::LeAddDevToResolvList,
            0x2028 => Op::LeRemDevFromResolvList,
            0x2029 => Op::LeClearResolvList,
            0x202a => Op::LeReadResolvListSize,
            0x202b => Op::LeReadPeerResolvAddress,
            0x202c => Op::LeReadLocalResolvAddress,
            0x202d => Op::LeSetAddressResolutionEnable,
            0x202e => Op::LeSetResolvPrivAddrTimeout,
            0x202f => Op::LeReadMaxDataLength,
            _ => Op::Unknown(v),
        }
    }

    /// Display name of the command.
    pub fn name(&self) -> (r: String)
        ensures
            r@ == op_name_spec(*self),
    {
        match self {
            Op::Inquiry => String::from_str("Inquiry"),
            Op::InquiryCancel => String::from_str("Inquiry Cancel"),
            Op::PeriodicInquiryMode => String::from_str("Periodic Inquiry Mode"),
            Op::ExitPeriodicInquiryMode => String::from_str("Exit Periodic Inquiry Mode"),
            Op::CreateConn => String::from_str("Create Connection"),
            Op::Disconnect => String::from_str("Disconnect"),
            Op::HoldMode => String::from_str("Hold Mode"),
            Op::SetEvtMask => String::from_str("Set Event Mask"),
            Op::ReadLocalVerInfo => String::from_str("Read Local Version Information"),
            Op::ReadLocalSupportedCommands => String::from_str("Read Local Supported Commands"),
            Op::ReadLocalSupportedFeatures => String::from_str("Read Local Supported Features"),
            Op::ReadLocalExtendedFeatures => String::from_str("Read Local Extended Features"),
            Op::ReadBufSize => String::from_str("Read Buffer Size"),
            Op::ReadBdAddr => String::from_str("Read BD_ADDR"),
            Op::ReadFailedContactCounter => String::from_str("Read Failed Contact Counter"),
            Op::ReadLoopbackMode => String::from_str("Read Loopback Mode"),
            Op::LeSetEvtMask => String::from_str("LE Set Event Mask"),
            Op::LeReadBufSizeV1 => String::from_str("LE Read Buffer Size [v1]"),
            Op::LeReadBufSizeV2 => String::from_str("LE Read Buffer Size [v2]"),
            Op::LeReadLocalFeaturesPage0 => String::from_str("LE Read Local Supported Features Page 0"),
            Op::LeSetRandomAddress => String::from_str("LE Set Random Address"),
            Op::LeSetAdvPAram => String::from_str("LE Set Advertising Parameters"),
            Op::LeReadAdvPhyChanTxPower => String::from_str("LE Read Advertising Physical Channel Tx Power"),
            Op::LeSetAdvData => String::from_str("LE Set Advertising Data"),
            Op::LeSetScanResponseData => String::from_str("LE Set Scan Response Data"),
            Op::LeSetAdvEnable => String::from_str("LE Set Advertising Enable"),
            Op::LeSetScanParam => String::from_str("LE Set Scan Parameters"),
            Op::LeSetScanEnable => String::from_str("LE Set Scan Enable"),
            Op::LeCreateConn => String::from_str("LE Create Connection"),
            Op::LeCreateConnCancel => String::from_str("LE Create Connection Cancel"),
            Op::LeReadFilterAcceptListSize => String::from_str("LE Read Filter Accept List Size"),
            Op::LeClearFilterAcceptList => String::from_str("LE Clear Filter Accept List"),
            Op::LeAddDevToFilterAcceptList => String::from_str("LE Add Device To Filter Accept List"),
            Op::LeRemDevFromFilterAcceptList => String::from_str("LE Remove Device From Filter Accept List"),
            Op::LeConnUpdate => String::from_str("LE Connection Update"),
            Op::LeSetHostChanClass => String::from_str("LE Set Host Channel Classification"),
            Op::LeReadChanMAp => String::from_str("LE Read Channel Map"),
            Op::LeReadRemFeatPage0 => String::from_str("LE Read Remote Features Page 0"),
            Op::LeEncrypt => String::from_str("LE Encrypt"),
            Op::LeRand => String::from_str("LE Rand"),
            Op::LeEnableEncrypt => String::from_str("LE Enable Encryption"),
            Op::LeLtkReqReply => String::from_str("LE LTK Request Reply"),
            Op::LeLtkReqNegReply => String::from_str("LE LTK Request Negative Reply"),
            Op::LeReadSupportedStates => String::from_str("LE Read Supported States"),
            Op::LeReceiverTestV1 => String::from_str("LE Receiver Test [v1]"),
            Op::LeReceiverTestV2 => String::from_str("LE Receiver Test [v2]"),
            Op::LeReceiverTestV3 => String::from_str("LE Receiver Test [v3]"),
            Op::LeTransmitterTestV1 => String::from_str("LE Transmitter Test [v1]"),
            Op::LeTransmitterTestV2 => String::from_str("LE Transmitter Test [v2]"),
            Op::LeTransmitterTestV3 => String::from_str("LE Transmitter Test [v3]"),
            Op::LeTransmitterTestV4 => String::from_str("LE Transmitter Test [v4]"),
            Op::LeTestEnd => String::from_str("LE Test End"),
            Op::LeRemoteConnParamReqReply => String::from_str("LE Remote Connection Parameter Request Reply"),
            Op::LeRemoteConnParamReqNegReply => String::from_str("LE Remote Connection Parameter Request Negative Reply"),
            Op::LeSetDataLength => String::from_str("LE Set Data Length"),
            Op::LeReadSuggDefDataLength => String::from_str("LE Read Suggested Default Data Length"),
            Op::LeWriteSuggDefDataLength => String::from_str("LE Write Suggested Default Data Length"),
            Op::LeReadLocalP256PubKey => String::from_str("LE Read Local P-256 Public Key"),
            Op::LeGenerateDHKeyV1 => String::from_str("LE Generate DHKey [v1]"),
            Op::LeGenerateDHKeyV2 => String::from_str("LE Generate DHKey [v2]"),
            Op::LeAddDevToResolvList => String::from_str("LE Add Device To Resolving List"),
            Op::LeRemDevFromResolvList => String::from_str("LE Remove Device From Resolving List"),
            Op::LeClearResolvList => String::from_str("LE Clear Resolving List"),
            Op::LeReadResolvListSize => String::from_str("LE Read Resolving List Size"),
            Op::LeReadPeerResolvAddress => String::from_str("LE Read Peer Resolvable Address"),
            Op::LeReadLocalResolvAddress => String::from_str("LE Read Local Resolvable Address"),
            Op::LeSetAddressResolutionEnable => String::from_str("LE Set Address Resolution Enable"),
            Op::LeSetResolvPrivAddrTimeout => String::from_str("LE Set Resolvable Private Address Timeout"),
            Op::LeReadMaxDataLength => String::from_str("LE Read Maximum Data Length"),
            Op::Unknown(v) => {
                let mut s = String::from_str("Unknown OGF 0x");
                push_hex2(&mut s, (*v / 1024) as u8);
                s.append(" OCF 0x");
                push_hex4(&mut s, *v % 1024);
                assert(s@ =~= op_name_spec(Op::Unknown(*v)));
                s
            },
        }
    }
}

/// Display name of an LE meta subevent code.
pub open spec fn le_sub_name(sub: u8) -> Seq<char> {
    if sub == 0x01 {
        "LE Connection Complete"@
    } else if sub == 0x02 {
        "LE Advertising Report"@
    } else if sub == 0x03 {
        "LE Connection Update Complete"@
    } else if sub == 0x04 {
        "LE Read Remote Features Page 0 Complete"@
    } else if sub == 0x05 {
        "LE Long Term Key Request"@
    } else if sub == 0x06 {
        "LE Remote Connection Parameter Request"@
    } else if sub == 0x07 {
        "LE Data Length Change"@
    } else if sub == 0x08 {
        "LE Read Local P-256 Public Key Complete"@
    } else if sub == 0x09 {
        "LE Generate DHKey Complete"@
    } else if sub == 0x0a {
        "LE Enhanced Connection Complete [v1]"@
    } else if sub == 0x29 {
        "LE Enhanced Connection Complete [v2]"@
    } else if sub == 0x0b {
        "LE Directed Advertising Report"@
    } else if sub == 0x0c {
        "LE PHY Update Complete"@
    } else if sub == 0x0d {
        "LE Extended Advertising Report"@
    } else if sub == 0x0e {
        "LE Periodic Advertising Sync Established [v1]"@
    } else if sub == 0x24 {
        "LE Periodic Advertising Sync Established [v2]"@
    } else if sub == 0x0f {
        "LE Periodic Advertising Report [v1]"@
    } else if sub == 0x25 {
        "LE Periodic Advertising Report [v2]"@
    } else if sub == 0x10 {
        "LE Periodic Advertising Sync Lost"@
    } else if sub == 0x11 {
        "LE Scan Timeout"@
    } else if sub == 0x12 {
        "LE Advertising Set Terminated"@
    } else if sub == 0x13 {
        "LE Scan Request Received"@
    } else if sub == 0x14 {
        "LE Channel Selection Algorithm"@
    } else if sub == 0x15 {
        "LE Connectionless IQ Repor"@
    } else if sub == 0x16 {
        "LE Connection IQ Report"@
    } else if sub == 0x17 {
        "LE CTE Request Failed"@
    } else if sub == 0x18 {
        "LE Periodic Advertising Sync Transfer Receive [v1]"@
    } else if sub == 0x26 {
        "LE Periodic Advertising Sync Transfer Receive [v2]"@
    } else if sub == 0x19 {
        "LE CIS Established [v1]"@
    } else if sub == 0x2a {
        "LE CIS Established [v2]"@
    } else if sub == 0x1a {
        "LE CIS Request"@
    } else if sub == 0x1b {
        "LE Create BIG Complete"@
    } else if sub == 0x1c {
        "LE Terminate BIG Complete"@
    } else if sub == 0x1d {
        "LE BIG Sync Established"@
    } else if sub == 0x1e {
        "LE BIG Sync Lost"@
    } else if sub == 0x1f {
        "LE Request Peer SCA Complete"@
    } else if sub == 0x20 {
        "LE Path Loss Threshold"@
    } else if sub == 0x21 {
        "LE Transmit Power Reporting"@
    } else if sub == 0x22 {
        "LE BIGInfo Advertising Report"@
    } else if sub == 0x23 {
        "LE Subrate Change"@
    } else if sub == 0x27 {
        "LE Periodic Advertising Subevent Data Request"@
    } else if sub == 0x28 {
        "LE Periodic Advertising Response Report"@
    } else if sub == 0x2b {
        "LE Read All Remote Features Complete"@
    } else if sub == 0x2c {
        "LE CS Read Remote Supported Capabilities Complete"@
    } else if sub == 0x2d {
        "LE CS Read Remote FAE Table Complete"@
    } else if sub == 0x2e {
        "LE CS Security Enable Complete"@
    } else if sub == 0x2f {
        "LE CS Config Complete"@
    } else if sub == 0x30 {
        "LE CS Procedure Enable Complet"@
    } else if sub == 0x31 {
        "LE CS Subevent Result"@
    } else if sub == 0x32 {
        "LE CS Subevent Result Continue"@
    } else if sub == 0x33 {
        "LE CS Test End Complete"@
    } else if sub == 0x34 {
        "LE Monitored Advertisers Report"@
    } else if sub == 0x35 {
        "LE Frame Space Update Complete"@
    } else {
        "LE <Unknown>"@
    }
}

/// Resolves an LE meta subevent code against the subevent name table.
pub fn le_sub_str(sub: u8) -> (r: &'static str)
    ensures
        r@ == le_sub_name(sub),
{
    match sub {
        0x01 => "LE Connection Complete",
        0x02 => "LE Advertising Report",
        0x03 => "LE Connection Update Complete",
        0x04 => "LE Read Remote Features Page 0 Complete",
        0x05 => "LE Long Term Key Request",
        0x06 => "LE Remote Connection Parameter Request",
        0x07 => "LE Data Length Change",
        0x08 => "LE Read Local P-256 Public Key Complete",
        0x09 => "LE Generate DHKey Complete",
        0x0a => "LE Enhanced Connection Complete [v1]",
        0x29 => "LE Enhanced Connection Complete [v2]",
        0x0b => "LE Directed Advertising Report",
        0x0c => "LE PHY Update Complete",
        0x0d => "LE Extended Advertising Report",
        0x0e => "LE Periodic Advertising Sync Established [v1]",
        0x24 => "LE Periodic Advertising Sync Established [v2]",
        0x0f => "LE Periodic Advertising Report [v1]",
        0x25 => "LE Periodic Advertising Report [v2]",
        0x10 => "LE Periodic Advertising Sync Lost",
        0x11 => "LE Scan Timeout",
        0x12 => "LE Advertising Set Terminated",
        0x13 => "LE Scan Request Received",
        0x14 => "LE Channel Selection Algorithm",
        0x15 => "LE Connectionless IQ Repor",
        0x16 => "LE Connection IQ Report",
        0x17 => "LE CTE Request Failed",
        0x18 => "LE Periodic Advertising Sync Transfer Receive [v1]",
        0x26 => "LE Periodic Advertising Sync Transfer Receive [v2]",
        0x19 => "LE CIS Established [v1]",
        0x2a => "LE CIS Established [v2]",
        0x1a => "LE CIS Request",
        0x1b => "LE Create BIG Complete",
        0x1c => "LE Terminate BIG Complete",
        0x1d => "LE BIG Sync Established",
        0x1e => "LE BIG Sync Lost",
        0x1f => "LE Request Peer SCA Complete",
        0x20 => "LE Path Loss Threshold",
        0x21 => "LE Transmit Power Reporting",
        0x22 => "LE BIGInfo Advertising Report",
        0x23 => "LE Subrate Change",
        0x27 => "LE Periodic Advertising Subevent Data Request",
        0x28 => "LE Periodic Advertising Response Report",
        0x2b => "LE Read All Remote Features Complete",
        0x2c => "LE CS Read Remote Supported Capabilities Complete",
        0x2d => "LE CS Read Remote FAE Table Complete",
        0x2e => "LE CS Security Enable Complete",
        0x2f => "LE CS Config Complete",
        0x30 => "LE CS Procedure Enable Complet",
        0x31 => "LE CS Subevent Result",
        0x32 => "LE CS Subevent Result Continue",
        0x33 => "LE CS Test End Complete",
        0x34 => "LE Monitored Advertisers Report",
        0x35 => "LE Frame Space Update Complete",
        _ => "LE <Unknown>",
    }
}

/// The event header parse: an event code, a parameter length, and at least
/// that many parameter bytes.
pub open spec fn event_parses(b: Seq<u8>) -> bool {
    b.len() >= 2 && 2 + b[1] <= b.len()
}

/// `e` is the decoding of the event body `b`.
pub open spec fn event_is(e: Event, b: Seq<u8>) -> bool {
    e.code == b[0] && e.param@ == b.subrange(2, 2 + b[1] as int)
}

/// A decoded HCI event: event code plus the declared parameter bytes.
#[derive(Debug, PartialEq, Eq)]
pub struct Event {
    pub code: u8,
    pub param: Vec<u8>,
}

/// An LE meta event: subevent code plus its undissected parameters.
#[derive(Debug, PartialEq, Eq)]
pub struct LeMeta {
    pub sub: u8,
    pub param: Vec<u8>,
}

/// The dissected form of an event, keyed by its event code. Structured codes
/// whose parameters are shorter than their fixed fields dissect to
/// `Truncated`; codes without a structured shape dissect to `Unknown`.
#[derive(Debug, PartialEq, Eq)]
pub enum EventDetail {
    DisconnectComplete { status: u8, handle: u16, reason: u8 },
    CommandComplete { ncmd: u8, op: Op, param: Vec<u8> },
    CommandStatus { status: u8, ncmd: u8, op: Op },
    NumCompletedPackets { handle: u16, pkts: u16 },
    LeMetaEvent(LeMeta),
    Unknown { code: u8, param: Vec<u8> },
    Truncated { code: u8 },
}

/// Number of fixed parameter bytes a structured event code needs, or 0 for a
/// code without a structured shape.
pub open spec fn event_fixed_len(code: u8) -> int {
    if code == 0x05 {
        4
    } else if code == 0x0e {
        3
    } else if code == 0x0f {
        4
    } else if code == 0x13 {
        5
    } else if code == 0x3e {
        1
    } else {
        0
    }
}

/// `code` is one of the five event codes with a structured shape.
pub open spec fn event_structured(code: u8) -> bool {
    code == 0x05 || code == 0x0e || code == 0x0f || code == 0x13 || code == 0x3e
}

impl Event {
    /// Decodes an event header: one code byte, one parameter-length byte,
    /// then exactly that many parameter bytes (trailing input is ignored).
    /// Fails when fewer bytes than declared are present.
    pub fn parse(data: &[u8]) -> (r: Result<Event, DecodeError>)
        ensures
            r is Ok <==> event_parses(data@),
            r matches Ok(e) ==> event_is(e, data@),
            r matches Err(e) ==> e == DecodeError::Malformed,
    {
        let n: usize = data.len();
        if n < 2 {
            return Err(DecodeError::Malformed);
        }
        let code = *vstd::slice::slice_index_get(data, 0);
        let plen = *vstd::slice::slice_index_get(data, 1) as usize;
        if plen > n - 2 {
            return Err(DecodeError::Malformed);
        }
        let param = sub_vec(data, 2, 2 + plen);
        Ok(Event { code, param })
    }

    /// Dissects the event against the five structured shapes: Disconnection
    /// Complete, Command Complete, Command Status, Number Of Completed
    /// Packets (only the first handle/count pair), and LE Meta.
    pub fn decode(&self) -> (r: EventDetail)
        ensures
            self.code == 0x05 && self.param@.len() >= 4 ==> (r matches
                EventDetail::DisconnectComplete { status, handle, reason }
                && status == self.param@[0]
                && handle == le16_at(self.param@, 1)
                && reason == self.param@[3]),
            self.code == 0x0e && self.param@.len() >= 3 ==> (r matches
                EventDetail::CommandComplete { ncmd, op, param }
                && ncmd == self.param@[0]
                && op == op_of(le16_at(self.param@, 1))
                && param@ == self.param@.skip(3)),
            self.code == 0x0f && self.param@.len() >= 4 ==> (r matches
                EventDetail::CommandStatus { status, ncmd, op }
                && status == self.param@[0]
                && ncmd == self.param@[1]
                && op == op_of(le16_at(self.param@, 2))),
            self.code == 0x13 && self.param@.len() >= 5 ==> (r matches
                EventDetail::NumCompletedPackets { handle, pkts }
                && handle == le16_at(self.param@, 1)
                && pkts == le16_at(self.param@, 3)),
            self.code == 0x3e && self.param@.len() >= 1 ==> (r matches
                EventDetail::LeMetaEvent(m)
                && m.sub == self.param@[0]
                && m.param@ == self.param@.skip(1)),
            event_structured(self.code) && self.param@.len() < event_fixed_len(self.code)
                ==> r == (EventDetail::Truncated { code: self.code }),
            !event_structured(self.code) ==> (r matches EventDetail::Unknown { code, param }
                && code == self.code && param@ == self.param@),
    {
        let p = self.param.as_slice();
        let n: usize = p.len();
        match self.code {
            0x05 => {
                if n >= 4 {
                    EventDetail::DisconnectComplete {
                        status: *vstd::slice::slice_index_get(p, 0),
                        handle: read_le_u16(p, 1),
                        reason: *vstd::slice::slice_index_get(p, 3),
                    }
                } else {
                    EventDetail::Truncated { code: self.code }
                }
            },
            0x0e => {
                if n >= 3 {
                    let param = sub_vec(p, 3, n);
                    assert(param@ =~= self.param@.skip(3));
                    EventDetail::CommandComplete {
                        ncmd: *vstd::slice::slice_index_get(p, 0),
                        op: Op::from_raw(read_le_u16(p, 1)),
                        param,
                    }
                } else {
                    EventDetail::Truncated { code: self.code }
                }
            },
            0x0f => {
                if n >= 4 {
                    EventDetail::CommandStatus {
                        status: *vstd::slice::slice_index_get(p, 0),
                        ncmd: *vstd::slice::slice_index_get(p, 1),
                        op: Op::from_raw(read_le_u16(p, 2)),
                    }
                } else {
                    EventDetail::Truncated { code: self.code }
                }
            },
            0x13 => {
                if n >= 5 {
                    EventDetail::NumCompletedPackets {
                        handle: read_le_u16(p, 1),
                        pkts: read_le_u16(p, 3),
                    }
                } else {
                    EventDetail::Truncated { code: self.code }
                }
            },
            0x3e => {
                if n >= 1 {
                    let param = sub_vec(p, 1, n);
                    assert(param@ =~= self.param@.skip(1));
                    EventDetail::LeMetaEvent(LeMeta {
                        sub: *vstd::slice::slice_index_get(p, 0),
                        param,
                    })
                } else {
                    EventDetail::Truncated { code: self.code }
                }
            },
            _ => {
                let param = sub_vec(p, 0, n);
                assert(param@ =~= self.param@);
                EventDetail::Unknown { code: self.code, param }
            },
        }
    }
}

/// The command header parse: a 16-bit opcode, a parameter length, and at
/// least that many parameter bytes.
pub open spec fn command_parses(b: Seq<u8>) -> bool {
    b.len() >= 3 && 3 + b[2] <= b.len()
}

/// `c` is the decoding of the command body `b`.
pub open spec fn command_is(c: Command, b: Seq<u8>) -> bool {
    c.op == op_of(le16_at(b, 0)) && c.param@ == b.subrange(3, 3 + b[2] as int)
}

/// A decoded HCI command: resolved opcode plus the declared parameter bytes.
#[derive(Debug, PartialEq, Eq)]
pub struct Command {
    pub op: Op,
    pub param: Vec<u8>,
}

impl Command {
    /// Decodes a command header: little-endian 16-bit opcode, one
    /// parameter-length byte, then exactly that many parameter bytes
    /// (trailing input is ignored). Fails when fewer bytes than declared are
    /// present.
    pub fn parse(data: &[u8]) -> (r: Result<Command, DecodeError>)
        ensures
            r is Ok <==> command_parses(data@),
            r matches Ok(c) ==> command_is(c, data@),
            r matches Err(e) ==> e == DecodeError::Malformed,
    {
        let n: usize = data.len();
        if n < 3 {
            return Err(DecodeError::Malformed);
        }
        let op_raw = read_le_u16(data, 0);
        let plen = *vstd::slice::slice_index_get(data, 2) as usize;
        if plen > n - 3 {
            return Err(DecodeError::Malformed);
        }
        let param = sub_vec(data, 3, 3 + plen);
        Ok(Command { op: Op::from_raw(op_raw), param })
    }
}

} // verus!
