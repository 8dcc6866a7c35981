use vstd::prelude::*;

use crate::protocols::checksum::{cksum16, cksum16_from_bytes, lemma_cksum16_of_filled_message, lemma_words_sum_bounded, words_sum};
use crate::protocols::ip::{IpAddr, IpHeader, u16_be_bytes, be16_at, be16_from, set_be16, len_usize, push_slice};
use crate::print::{append_u16, append_u8, append_usize, u16_text, u8_text, usize_text};
use crate::protocols::IpProtocolError;

verus! {

/// Size of the ICMP header, in bytes.
pub const SIZE_OF_ICMP_HEADER: usize = 8;

pub const ICMP_TYPE_ECHO_REPLY: u8 = 0;

pub const ICMP_TYPE_DEST_UNREACH: u8 = 3;

pub const ICMP_TYPE_SOURCE_QUENCH: u8 = 4;

pub const ICMP_TYPE_REDIRECT: u8 = 5;

pub const ICMP_TYPE_ECHO: u8 = 8;

pub const ICMP_TYPE_TIME_EXCEEDED: u8 = 11;

pub const ICMP_TYPE_PARAM_PROBLEM: u8 = 12;

pub const ICMP_TYPE_TIMESTAMP: u8 = 13;

pub const ICMP_TYPE_TIMESTAMP_REPLY: u8 = 14;

pub const ICMP_TYPE_INFO_REQUEST: u8 = 15;

pub const ICMP_TYPE_INFO_REPLY: u8 = 16;

pub const ICMP_CODE_NET_UNREACH: u8 = 0;

pub const ICMP_CODE_HOST_UNREACH: u8 = 1;

pub const ICMP_CODE_PROTO_UNREACH: u8 = 2;

pub const ICMP_CODE_PORT_UNREACH: u8 = 3;

pub const ICMP_CODE_FRAGMENT_NEEDED: u8 = 4;

pub const ICMP_CODE_SOURCE_ROUTE_FAILED: u8 = 5;

#[derive(Clone, Copy, Debug, PartialEq, Eq, Structural)]
pub enum IcmpError {
    TooShortPacket { len: usize },
    BrokenCheckSum,
    UnsurpportedCode { code: u8 },
    UnsurpportedType { typ: u8 },
}

#[derive(Clone, Copy, Debug, PartialEq, Eq, Structural)]
pub enum IcmpType {
    EchoReply,
    DestUnreach,
    SourceQuench,
    Redirect,
    Echo,
    TimeExceeded,
    ParamProblem,
    Timestamp,
    TimestampReply,
    InfoRequest,
    InfoReply,
}

#[derive(Clone, Copy, Debug, PartialEq, Eq, Structural)]
pub enum IcmpCode {
    NetUnreach,
    HostUnreach,
    ProtoUnreach,
    PortUnreach,
    FragmentNeeded,
    SourceRouteFailed,
}

/// The type number of an ICMP type.
pub open spec fn icmp_type_number(t: IcmpType) -> u8 {
    match t {
        IcmpType::EchoReply => ICMP_TYPE_ECHO_REPLY,
        IcmpType::DestUnreach => ICMP_TYPE_DEST_UNREACH,
        IcmpType::SourceQuench => ICMP_TYPE_SOURCE_QUENCH,
        IcmpType::Redirect => ICMP_TYPE_REDIRECT,
        IcmpType::Echo => ICMP_TYPE_ECHO,
        IcmpType::TimeExceeded => ICMP_TYPE_TIME_EXCEEDED,
        IcmpType::ParamProblem => ICMP_TYPE_PARAM_PROBLEM,
        IcmpType::Timestamp => ICMP_TYPE_TIMESTAMP,
        IcmpType::TimestampReply => ICMP_TYPE_TIMESTAMP_REPLY,
        IcmpType::InfoRequest => ICMP_TYPE_INFO_REQUEST,
        IcmpType::InfoReply => ICMP_TYPE_INFO_REPLY,
    }
}

/// The code number of an ICMP code.
pub open spec fn icmp_code_number(c: IcmpCode) -> u8 {
    match c {
        IcmpCode::NetUnreach => ICMP_CODE_NET_UNREACH,
        IcmpCode::HostUnreach => ICMP_CODE_HOST_UNREACH,
        IcmpCode::ProtoUnreach => ICMP_CODE_PROTO_UNREACH,
        IcmpCode::PortUnreach => ICMP_CODE_PORT_UNREACH,
        IcmpCode::FragmentNeeded => ICMP_CODE_FRAGMENT_NEEDED,
        IcmpCode::SourceRouteFailed => ICMP_CODE_SOURCE_ROUTE_FAILED,
    }
}

/// The ICMP type that a type number names.
pub open spec fn icmp_type_spec(value: u8) -> Result<IcmpType, IcmpError> {
    if value == ICMP_TYPE_ECHO_REPLY {
        Ok(IcmpType::EchoReply)
    } else if value == ICMP_TYPE_DEST_UNREACH {
        Ok(IcmpType::DestUnreach)
    } else if value == ICMP_TYPE_SOURCE_QUENCH {
        Ok(IcmpType::SourceQuench)
    } else if value == ICMP_TYPE_REDIRECT {
        Ok(IcmpType::Redirect)
    } else if value == ICMP_TYPE_ECHO {
        Ok(IcmpType::Echo)
    } else if value == ICMP_TYPE_TIME_EXCEEDED {
        Ok(IcmpType::TimeExceeded)
    } else if value == ICMP_TYPE_PARAM_PROBLEM {
        Ok(IcmpType::ParamProblem)
    } else if value == ICMP_TYPE_TIMESTAMP {
        Ok(IcmpType::Timestamp)
    } else if value == ICMP_TYPE_TIMESTAMP_REPLY {
        Ok(IcmpType::TimestampReply)
    } else if value == ICMP_TYPE_INFO_REQUEST {
        Ok(IcmpType::InfoRequest)
    } else if value == ICMP_TYPE_INFO_REPLY {
        Ok(IcmpType::InfoReply)
    } else {
        Err(IcmpError::UnsurpportedType { typ: value })
    }
}

/// The ICMP code that a code number names.
pub open spec fn icmp_code_spec(value: u8) -> Result<IcmpCode, IcmpError> {
    if value == ICMP_CODE_NET_UNREACH {
        Ok(IcmpCode::NetUnreach)
    } else if value == ICMP_CODE_HOST_UNREACH {
        Ok(IcmpCode::HostUnreach)
    } else if value == ICMP_CODE_PROTO_UNREACH {
        Ok(IcmpCode::ProtoUnreach)
    } else if value == ICMP_CODE_PORT_UNREACH {
        Ok(IcmpCode::PortUnreach)
    } else if value == ICMP_CODE_FRAGMENT_NEEDED {
        Ok(IcmpCode::FragmentNeeded)
    } else if value == ICMP_CODE_SOURCE_ROUTE_FAILED {
        Ok(IcmpCode::SourceRouteFailed)
    } else {
        Err(IcmpError::UnsurpportedCode { code: value })
    }
}

impl IcmpType {
    /// The type number of this type.
    pub fn number(&self) -> (n: u8)
        ensures
            n == icmp_type_number(*self),
    {
        match self {
            IcmpType::EchoReply => ICMP_TYPE_ECHO_REPLY,
            IcmpType::DestUnreach => ICMP_TYPE_DEST_UNREACH,
            IcmpType::SourceQuench => ICMP_TYPE_SOURCE_QUENCH,
            IcmpType::Redirect => ICMP_TYPE_REDIRECT,
            IcmpType::Echo => ICMP_TYPE_ECHO,
            IcmpType::TimeExceeded => ICMP_TYPE_TIME_EXCEEDED,
            IcmpType::ParamProblem => ICMP_TYPE_PARAM_PROBLEM,
            IcmpType::Timestamp => ICMP_TYPE_TIMESTAMP,
            IcmpType::TimestampReply => ICMP_TYPE_TIMESTAMP_REPLY,
            IcmpType::InfoRequest => ICMP_TYPE_INFO_REQUEST,
            IcmpType::InfoReply => ICMP_TYPE_INFO_REPLY,
        }
    }
}

impl IcmpCode {
    /// The code number of this code.
    pub fn number(&self) -> (n: u8)
        ensures
            n == icmp_code_number(*self),
    {
        match self {
            IcmpCode::NetUnreach => ICMP_CODE_NET_UNREACH,
            IcmpCode::HostUnreach => ICMP_CODE_HOST_UNREACH,
            IcmpCode::ProtoUnreach => ICMP_CODE_PROTO_UNREACH,
            IcmpCode::PortUnreach => ICMP_CODE_PORT_UNREACH,
            IcmpCode::FragmentNeeded => ICMP_CODE_FRAGMENT_NEEDED,
            IcmpCode::SourceRouteFailed => ICMP_CODE_SOURCE_ROUTE_FAILED,
        }
    }
}

impl TryFrom<u8> for IcmpType {
    type Error = IcmpError;

    fn try_from(value: u8) -> (res: Result<IcmpType, IcmpError>) {
        if value == ICMP_TYPE_ECHO_REPLY {
            Ok(IcmpType::EchoReply)
        } else if value == ICMP_TYPE_DEST_UNREACH {
            Ok(IcmpType::DestUnreach)
        } else if value == ICMP_TYPE_SOURCE_QUENCH {
            Ok(IcmpType::SourceQuench)
        } else if value == ICMP_TYPE_REDIRECT {
            Ok(IcmpType::Redirect)
        } else if value == ICMP_TYPE_ECHO {
            Ok(IcmpType::Echo)
        } else if value == ICMP_TYPE_TIME_EXCEEDED {
            Ok(IcmpType::TimeExceeded)
        } else if value == ICMP_TYPE_PARAM_PROBLEM {
            Ok(IcmpType::ParamProblem)
        } else if value == ICMP_TYPE_TIMESTAMP {
            Ok(IcmpType::Timestamp)
        } else if value == ICMP_TYPE_TIMESTAMP_REPLY {
            Ok(IcmpType::TimestampReply)
        } else if value == ICMP_TYPE_INFO_REQUEST {
            Ok(IcmpType::InfoRequest)
        } else if value == ICMP_TYPE_INFO_REPLY {
            Ok(IcmpType::InfoReply)
        } else {
            Err(IcmpError::UnsurpportedType { typ: value })
        }
    }
}

impl vstd::std_specs::convert::TryFromSpecImpl<u8> for IcmpType {
    open spec fn obeys_try_from_spec() -> bool {
        true
    }

    open spec fn try_from_spec(value: u8) -> Result<IcmpType, IcmpError> {
        icmp_type_spec(value)
    }
}

impl TryFrom<u8> for IcmpCode {
    type Error = IcmpError;

    fn try_from(value: u8) -> (res: Result<IcmpCode, IcmpError>) {
        if value == ICMP_CODE_NET_UNREACH {
            Ok(IcmpCode::NetUnreach)
        } else if value == ICMP_CODE_HOST_UNREACH {
            Ok(IcmpCode::HostUnreach)
        } else if value == ICMP_CODE_PROTO_UNREACH {
            Ok(IcmpCode::ProtoUnreach)
        } else if value == ICMP_CODE_PORT_UNREACH {
            Ok(IcmpCode::PortUnreach)
        } else if value == ICMP_CODE_FRAGMENT_NEEDED {
            Ok(IcmpCode::FragmentNeeded)
        } else if value == ICMP_CODE_SOURCE_ROUTE_FAILED {
            Ok(IcmpCode::SourceRouteFailed)
        } else {
            Err(IcmpError::UnsurpportedCode { code: value })
        }
    }
}

impl vstd::std_specs::convert::TryFromSpecImpl<u8> for IcmpCode {
    open spec fn obeys_try_from_spec() -> bool {
        true
    }

    open spec fn try_from_spec(value: u8) -> Result<IcmpCode, IcmpError> {
        icmp_code_spec(value)
    }
}

/// The part of the ICMP header that every message type shares.
#[derive(Clone, Copy, Debug, PartialEq, Eq, Structural)]
pub struct IcmpHeaderCommon {
    pub typ: u8,
    pub code: u8,
    /// Checksum, in host order.
    pub sum: u16,
}

impl IcmpHeaderCommon {
    pub fn typ(&self) -> (res: Result<IcmpType, IcmpError>)
        ensures
            res == icmp_type_spec(self.typ),
    {
        IcmpType::try_from(self.typ)
    }

    pub fn code(&self) -> (res: Result<IcmpCode, IcmpError>)
        ensures
            res == icmp_code_spec(self.code),
    {
        IcmpCode::try_from(self.code)
    }
}

/// The ICMP header.
#[derive(Clone, Copy, Debug)]
pub struct IcmpHeader {
    pub common: IcmpHeaderCommon,
    /// The message dependent field.
    pub dep: [u8; 4],
}

impl IcmpHeader {
    /// Reads a header from the first 8 bytes of `data`.
    pub fn from_bytes(data: &[u8]) -> (hdr: IcmpHeader)
        requires
            data@.len() >= SIZE_OF_ICMP_HEADER,
        ensures
            hdr.common.typ == data@[0],
            hdr.common.code == data@[1],
            hdr.common.sum == be16_at(data@, 2),
            hdr.dep@ == data@.subrange(4, 8),
    {
        let dep = [data[4], data[5], data[6], data[7]];
        assert(dep@ =~= data@.subrange(4, 8));
        IcmpHeader {
            common: IcmpHeaderCommon {
                typ: data[0],
                code: data[1],
                sum: be16_from(data, 2),
            },
            dep: dep,
        }
    }

    /// The header as text, one field on each line.
    pub fn to_string(&self) -> (text: String)
        ensures
            text@ == icmp_header_text(*self),
    {
        let mut s = String::from_str("IcmpHeader{\n    typ: ");
        append_icmp_type_result(&mut s, self.common.typ());
        s.append(",\n    code: ");
        append_icmp_code_result(&mut s, self.common.code());
        s.append(",\n    sum: ");
        append_u16(&mut s, self.common.sum);
        s.append(",\n    dep: [");
        append_u8(&mut s, self.dep[0]);
        s.append(", ");
        append_u8(&mut s, self.dep[1]);
        s.append(", ");
        append_u8(&mut s, self.dep[2]);
        s.append(", ");
        append_u8(&mut s, self.dep[3]);
        s.append("]\n}");
        assert(s@ =~= icmp_header_text(*self));
        s
    }
}

/// The name of an ICMP type.
pub open spec fn icmp_type_name(t: IcmpType) -> Seq<char> {
    match t {
        IcmpType::EchoReply => "EchoReply"@,
        IcmpType::DestUnreach => "DestUnreach"@,
        IcmpType::SourceQuench => "SourceQuench"@,
        IcmpType::Redirect => "Redirect"@,
        IcmpType::Echo => "Echo"@,
        IcmpType::TimeExceeded => "TimeExceeded"@,
        IcmpType::ParamProblem => "ParamProblem"@,
        IcmpType::Timestamp => "Timestamp"@,
        IcmpType::TimestampReply => "TimestampReply"@,
        IcmpType::InfoRequest => "InfoRequest"@,
        IcmpType::InfoReply => "InfoReply"@,
    }
}

/// The name of an ICMP code.
pub open spec fn icmp_code_name(c: IcmpCode) -> Seq<char> {
    match c {
        IcmpCode::NetUnreach => "NetUnreach"@,
        IcmpCode::HostUnreach => "HostUnreach"@,
        IcmpCode::ProtoUnreach => "ProtoUnreach"@,
        IcmpCode::PortUnreach => "PortUnreach"@,
        IcmpCode::FragmentNeeded => "FragmentNeeded"@,
        IcmpCode::SourceRouteFailed => "SourceRouteFailed"@,
    }
}

/// The text of an ICMP error, with its field.
pub open spec fn icmp_error_text(e: IcmpError) -> Seq<char> {
    match e {
        IcmpError::TooShortPacket { len } => "TooShortPacket { len: "@ + usize_text(len) + " }"@,
        IcmpError::BrokenCheckSum => "BrokenCheckSum"@,
        IcmpError::UnsurpportedCode { code } => "UnsurpportedCode { code: "@ + u8_text(code) + " }"@,
        IcmpError::UnsurpportedType { typ } => "UnsurpportedType { typ: "@ + u8_text(typ) + " }"@,
    }
}

/// The text of the type a header names, or of the error for a number that names none.
pub open spec fn icmp_type_result_text(r: Result<IcmpType, IcmpError>) -> Seq<char> {
    match r {
        Ok(t) => "Ok("@ + icmp_type_name(t) + ")"@,
        Err(e) => "Err("@ + icmp_error_text(e) + ")"@,
    }
}

/// The text of the code a header names, or of the error for a number that names none.
pub open spec fn icmp_code_result_text(r: Result<IcmpCode, IcmpError>) -> Seq<char> {
    match r {
        Ok(c) => "Ok("@ + icmp_code_name(c) + ")"@,
        Err(e) => "Err("@ + icmp_error_text(e) + ")"@,
    }
}

/// The text of an ICMP header: its type, its code, its checksum and its message dependent
/// field, each on a line of its own.
pub open spec fn icmp_header_text(h: IcmpHeader) -> Seq<char> {
    "IcmpHeader{\n    typ: "@ + icmp_type_result_text(icmp_type_spec(h.common.typ))
        + ",\n    code: "@ + icmp_code_result_text(icmp_code_spec(h.common.code)) + ",\n    sum: "@
        + u16_text(h.common.sum) + ",\n    dep: ["@ + u8_text(h.dep[0]) + ", "@ + u8_text(h.dep[1])
        + ", "@ + u8_text(h.dep[2]) + ", "@ + u8_text(h.dep[3]) + "]\n}"@
}

fn icmp_type_name_str(t: IcmpType) -> (s: &'static str)
    ensures
        s@ == icmp_type_name(t),
{
    match t {
        IcmpType::EchoReply => "EchoReply",
        IcmpType::DestUnreach => "DestUnreach",
        IcmpType::SourceQuench => "SourceQuench",
        IcmpType::Redirect => "Redirect",
        IcmpType::Echo => "Echo",
        IcmpType::TimeExceeded => "TimeExceeded",
        IcmpType::ParamProblem => "ParamProblem",
        IcmpType::Timestamp => "Timestamp",
        IcmpType::TimestampReply => "TimestampReply",
        IcmpType::InfoRequest => "InfoRequest",
        IcmpType::InfoReply => "InfoReply",
    }
}

fn icmp_code_name_str(c: IcmpCode) -> (s: &'static str)
    ensures
        s@ == icmp_code_name(c),
{
    match c {
        IcmpCode::NetUnreach => "NetUnreach",
        IcmpCode::HostUnreach => "HostUnreach",
        IcmpCode::ProtoUnreach => "ProtoUnreach",
        IcmpCode::PortUnreach => "PortUnreach",
        IcmpCode::FragmentNeeded => "FragmentNeeded",
        IcmpCode::SourceRouteFailed => "SourceRouteFailed",
    }
}

fn append_icmp_error(s: &mut String, e: IcmpError)
    ensures
        final(s)@ == old(s)@ + icmp_error_text(e),
{
    match e {
        IcmpError::TooShortPacket { len } => {
            s.append("TooShortPacket { len: ");
            append_usize(s, len);
            s.append(" }");
        },
        IcmpError::BrokenCheckSum => {
            s.append("BrokenCheckSum");
        },
        IcmpError::UnsurpportedCode { code } => {
            s.append("UnsurpportedCode { code: ");
            append_u8(s, code);
            s.append(" }");
        },
        IcmpError::UnsurpportedType { typ } => {
            s.append("UnsurpportedType { typ: ");
            append_u8(s, typ);
            s.append(" }");
        },
    }
    assert(s@ =~= old(s)@ + icmp_error_text(e));
}

fn append_icmp_type_result(s: &mut String, r: Result<IcmpType, IcmpError>)
    ensures
        final(s)@ == old(s)@ + icmp_type_result_text(r),
{
    match r {
        Ok(t) => {
            s.append("Ok(");
            s.append(icmp_type_name_str(t));
            s.append(")");
        },
        Err(e) => {
            s.append("Err(");
            append_icmp_error(s, e);
            s.append(")");
        },
    }
    assert(s@ =~= old(s)@ + icmp_type_result_text(r));
}

fn append_icmp_code_result(s: &mut String, r: Result<IcmpCode, IcmpError>)
    ensures
        final(s)@ == old(s)@ + icmp_code_result_text(r),
{
    match r {
        Ok(c) => {
            s.append("Ok(");
            s.append(icmp_code_name_str(c));
            s.append(")");
        },
        Err(e) => {
            s.append("Err(");
            append_icmp_error(s, e);
            s.append(")");
        },
    }
    assert(s@ =~= old(s)@ + icmp_code_result_text(r));
}

/// The bytes of an ICMP message: the header with checksum `sum`, then `data`.
pub open spec fn icmp_message_bytes(typ: u8, code: u8, sum: u16, val: Seq<u8>, data: Seq<u8>) -> Seq<u8> {
    seq![typ, code] + u16_be_bytes(sum) + val + data
}

/// The message that `output` sends: its checksum is that of the message with a zero checksum.
pub open spec fn icmp_message_spec(typ: IcmpType, code: IcmpCode, val: Seq<u8>, data: Seq<u8>) -> Seq<u8> {
    let t = icmp_type_number(typ);
    let c = icmp_code_number(code);
    icmp_message_bytes(t, c, cksum16(icmp_message_bytes(t, c, 0, val, data), 0), val, data)
}

/// What the receiving side makes of an ICMP message: an error, `Some(code)` for an echo request
/// that it answers, or `None` for a message that it ignores.
pub open spec fn icmp_input_spec(p: Seq<u8>) -> Result<Option<IcmpCode>, IcmpError> {
    if p.len() < SIZE_OF_ICMP_HEADER {
        Err(IcmpError::TooShortPacket { len: len_usize(p) })
    } else if cksum16(p, 0) != 0 {
        Err(IcmpError::BrokenCheckSum)
    } else {
        match icmp_type_spec(p[0]) {
            Err(e) => Err(e),
            Ok(IcmpType::Echo) => match icmp_code_spec(p[1]) {
                Err(e) => Err(e),
                Ok(c) => Ok(Some(c)),
            },
            Ok(_) => Ok(None),
        }
    }
}

/// An ICMP message to be sent: the arguments of `output`.
#[derive(Debug)]
pub struct IcmpOutput {
    pub typ: IcmpType,
    pub code: IcmpCode,
    pub val: [u8; 4],
    pub data: Vec<u8>,
    pub src: IpAddr,
    pub dst: IpAddr,
}

/// Builds the ICMP message of type `typ` and code `code` with `val` in its message dependent
/// field and `data` after the header, with its checksum set.
pub fn icmp_message(typ: IcmpType, code: IcmpCode, val: [u8; 4], data: &[u8]) -> (msg: Vec<u8>)
    requires
        SIZE_OF_ICMP_HEADER + data@.len() <= 0xffff,
    ensures
        msg@ == icmp_message_spec(typ, code, val@, data@),
{
    let t = typ.number();
    let c = code.number();
    let mut buf: Vec<u8> = Vec::new();
    buf.push(t);
    buf.push(c);
    buf.push(0);
    buf.push(0);
    buf.push(val[0]);
    buf.push(val[1]);
    buf.push(val[2]);
    buf.push(val[3]);
    push_slice(&mut buf, data);
    assert(buf@ =~= icmp_message_bytes(t, c, 0, val@, data@));
    proof {
        lemma_words_sum_bounded(buf@);
    }
    let sum = cksum16_from_bytes(buf.as_slice(), 0);
    set_be16(&mut buf, 2, sum);
    assert(buf@ =~= icmp_message_bytes(t, c, sum, val@, data@));
    buf
}

/// A message built by `icmp_message` passes the checksum test of a receiver.
pub proof fn lemma_icmp_message_checksum(typ: IcmpType, code: IcmpCode, val: Seq<u8>, data: Seq<u8>)
    requires
        val.len() == 4,
    ensures
        cksum16(icmp_message_spec(typ, code, val, data), 0) == 0,
{
    let t = icmp_type_number(typ);
    let c = icmp_code_number(code);
    let s = icmp_message_bytes(t, c, 0, val, data);
    let sum = cksum16(s, 0);
    lemma_cksum16_of_filled_message(s, 1);
    assert(icmp_message_spec(typ, code, val, data) =~= s.update(2, u16_be_bytes(sum)[0]).update(
        3,
        u16_be_bytes(sum)[1],
    ));
}

/// A reply to an echo request is accepted by its receiver and is not answered in turn.
pub proof fn lemma_echo_reply_not_answered(code: IcmpCode, val: Seq<u8>, data: Seq<u8>)
    requires
        val.len() == 4,
    ensures
        icmp_input_spec(icmp_message_spec(IcmpType::EchoReply, code, val, data)) == Ok::<
            Option<IcmpCode>,
            IcmpError,
        >(None),
{
    lemma_icmp_message_checksum(IcmpType::EchoReply, code, val, data);
}

/// Only echo requests are answered: a message of at least a header's length, with a checksum
/// that verifies, whose type number names a known ICMP type other than echo request, is accepted
/// and ignored, whatever its code and the rest of its bytes.
pub proof fn lemma_non_echo_message_ignored(p: Seq<u8>, t: IcmpType)
    requires
        p.len() >= SIZE_OF_ICMP_HEADER,
        cksum16(p, 0) == 0,
        t != IcmpType::Echo,
        p[0] == icmp_type_number(t),
    ensures
        icmp_input_spec(p) == Ok::<Option<IcmpCode>, IcmpError>(None),
{
}

/// A message of any known type other than echo request, built by `icmp_message`, is accepted by
/// its receiver and not answered.
pub proof fn lemma_non_echo_message_built_ignored(t: IcmpType, code: IcmpCode, val: Seq<u8>, data: Seq<u8>)
    requires
        t != IcmpType::Echo,
        val.len() == 4,
    ensures
        icmp_input_spec(icmp_message_spec(t, code, val, data)) == Ok::<Option<IcmpCode>, IcmpError>(
            None,
        ),
{
    lemma_icmp_message_checksum(t, code, val, data);
    lemma_non_echo_message_ignored(icmp_message_spec(t, code, val, data), t);
}

/// An echo request built by `icmp_message` is accepted by its receiver, which answers it.
pub proof fn lemma_echo_request_accepted(code: IcmpCode, val: Seq<u8>, data: Seq<u8>)
    requires
        val.len() == 4,
    ensures
        icmp_input_spec(icmp_message_spec(IcmpType::Echo, code, val, data)) == Ok::<
            Option<IcmpCode>,
            IcmpError,
        >(Some(code)),
        icmp_message_spec(IcmpType::Echo, code, val, data).len() == SIZE_OF_ICMP_HEADER + data.len(),
        icmp_message_spec(IcmpType::Echo, code, val, data).subrange(4, 8) == val,
        icmp_message_spec(IcmpType::Echo, code, val, data).skip(8) == data,
{
    lemma_icmp_message_checksum(IcmpType::Echo, code, val, data);
    let msg = icmp_message_spec(IcmpType::Echo, code, val, data);
    assert(msg.subrange(4, 8) =~= val);
    assert(msg.skip(8) =~= data);
    assert(msg[0] == ICMP_TYPE_ECHO);
    assert(msg[1] == icmp_code_number(code));
}

#[derive(Clone, Copy, Debug)]
pub struct IcmpProtocol;

impl IcmpProtocol {
    /// Checks an ICMP message received in the datagram with header `ip_hdr` by the interface
    /// with address `unicast`, and says what to send back: an echo reply to an echo request,
    /// nothing to any other message.
    pub fn reply_to(&self, ip_hdr: &IpHeader, payload: &[u8], unicast: IpAddr) -> (res: Result<
        Option<IcmpOutput>,
        IpProtocolError,
    >)
        requires
            words_sum(payload@) <= u32::MAX,
        ensures
            match res {
                Err(IpProtocolError::IcmpError { error }) => icmp_input_spec(payload@) == Err::<
                    Option<IcmpCode>,
                    IcmpError,
                >(error),
                Err(_) => false,
                Ok(None) => icmp_input_spec(payload@) == Ok::<Option<IcmpCode>, IcmpError>(None),
                Ok(Some(out)) => {
                    &&& icmp_input_spec(payload@) == Ok::<Option<IcmpCode>, IcmpError>(
                        Some(out.code),
                    )
                    &&& out.typ == IcmpType::EchoReply
                    &&& out.val@ == payload@.subrange(4, 8)
                    &&& out.data@ == payload@.skip(8)
                    &&& out.src == unicast
                    &&& out.dst.0 == ip_hdr.src
                },
            },
    {
        if payload.len() < SIZE_OF_ICMP_HEADER {
            return Err(IpProtocolError::IcmpError { error: IcmpError::TooShortPacket { len: payload.len() } });
        }
        if cksum16_from_bytes(payload, 0) != 0 {
            return Err(IpProtocolError::IcmpError { error: IcmpError::BrokenCheckSum });
        }
        let hdr = IcmpHeader::from_bytes(payload);
        let typ = match hdr.common.typ() {
            Ok(t) => t,
            Err(error) => {
                return Err(IpProtocolError::IcmpError { error });
            },
        };
        match typ {
            IcmpType::Echo => {
                let code = match hdr.common.code() {
                    Ok(c) => c,
                    Err(error) => {
                        return Err(IpProtocolError::IcmpError { error });
                    },
                };
                let mut data: Vec<u8> = Vec::new();
                push_slice(&mut data, vstd::slice::slice_subrange(payload, SIZE_OF_ICMP_HEADER, payload.len()));
                Ok(
                    Some(
                        IcmpOutput {
                            typ: IcmpType::EchoReply,
                            code: code,
                            val: hdr.dep,
                            data: data,
                            src: unicast,
                            dst: ip_hdr.src(),
                        },
                    ),
                )
            },
            _ => Ok(None),
        }
    }
}

} // verus!
