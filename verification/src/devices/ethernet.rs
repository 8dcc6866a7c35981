use vstd::prelude::*;

use crate::protocols::ip::{be16_at, be16_from, push_slice, u16_be_bytes, u16_to_be_bytes};
use crate::print::{append_hex2, hex2_chars};
use crate::protocols::NetProtocolType;

verus! {

pub const ETHER_HEADER_SIZE: usize = 14;

pub const ETHER_FRAME_SIZE_MIN: usize = 60;

pub const ETHER_FRAME_SIZE_MAX: usize = 1514;

pub const ETHER_PAYLOAD_SIZE_MIN: usize = 46;

pub const ETHER_PAYLOAD_SIZE_MAX: usize = 1500;

pub const ETHER_ADDR_SIZE: usize = 6;

pub const ETHER_TYPE_IP: u16 = 0x0800;

pub const ETHER_TYPE_ARP: u16 = 0x0806;

pub const ETHER_TYPE_IPV6: u16 = 0x86dd;

/// An Ethernet (MAC) address.
#[derive(Clone, Copy, Debug)]
pub struct EthernetAddr(pub [u8; 6]);

/// The bytes of the address 00:00:00:00:00:00.
pub open spec fn ether_addr_any_bytes() -> Seq<u8> {
    seq![0u8, 0u8, 0u8, 0u8, 0u8, 0u8]
}

/// The bytes of the broadcast address ff:ff:ff:ff:ff:ff.
pub open spec fn ether_addr_broadcast_bytes() -> Seq<u8> {
    seq![0xffu8, 0xffu8, 0xffu8, 0xffu8, 0xffu8, 0xffu8]
}

/// The text of an Ethernet address: its six bytes in two lowercase hexadecimal digits each,
/// separated by colons.
pub open spec fn ether_addr_text(a: Seq<u8>) -> Seq<char> {
    hex2_chars(a[0]) + seq![':'] + hex2_chars(a[1]) + seq![':'] + hex2_chars(a[2]) + seq![':']
        + hex2_chars(a[3]) + seq![':'] + hex2_chars(a[4]) + seq![':'] + hex2_chars(a[5])
}

impl EthernetAddr {
    /// The address as text, such as `00:00:5e:00:53:01`.
    pub fn to_string(&self) -> (text: String)
        ensures
            text@ == ether_addr_text(self.0@),
    {
        proof {
            reveal_strlit(":");
        }
        let mut s = String::new();
        append_hex2(&mut s, self.0[0]);
        s.append(":");
        append_hex2(&mut s, self.0[1]);
        s.append(":");
        append_hex2(&mut s, self.0[2]);
        s.append(":");
        append_hex2(&mut s, self.0[3]);
        s.append(":");
        append_hex2(&mut s, self.0[4]);
        s.append(":");
        append_hex2(&mut s, self.0[5]);
        assert(s@ =~= ether_addr_text(self.0@));
        s
    }

    pub fn new(addr: [u8; 6]) -> (a: EthernetAddr)
        ensures
            a.0@ == addr@,
    {
        EthernetAddr(addr)
    }

    /// The address 00:00:00:00:00:00.
    pub fn any() -> (a: EthernetAddr)
        ensures
            a.0@ == ether_addr_any_bytes(),
    {
        let a = EthernetAddr([0u8; 6]);
        assert(a.0@ =~= ether_addr_any_bytes());
        a
    }

    /// The broadcast address ff:ff:ff:ff:ff:ff.
    pub fn broadcast() -> (a: EthernetAddr)
        ensures
            a.0@ == ether_addr_broadcast_bytes(),
    {
        let a = EthernetAddr([0xffu8; 6]);
        assert(a.0@ =~= ether_addr_broadcast_bytes());
        a
    }

    /// Whether both addresses have the same bytes.
    pub fn equals(&self, other: &EthernetAddr) -> (same: bool)
        ensures
            same == (self.0@ == other.0@),
    {
        let mut i: usize = 0;
        while i < ETHER_ADDR_SIZE
            invariant
                i <= ETHER_ADDR_SIZE,
                forall|j: int| 0 <= j < i ==> self.0@[j] == other.0@[j],
            decreases ETHER_ADDR_SIZE - i,
        {
            if self.0[i] != other.0[i] {
                return false;
            }
            i = i + 1;
        }
        assert(self.0@ =~= other.0@);
        true
    }
}

#[derive(Clone, Copy, Debug, PartialEq, Eq, Structural)]
pub enum EthernetError {
    UnsurpportedType { typ: u16 },
}

/// The payload types of an Ethernet frame.
#[derive(Clone, Copy, Debug, PartialEq, Eq, Structural)]
pub enum EthernetType {
    Ip,
    Arp,
    IpV6,
}

/// The type number of an Ethernet payload type.
pub open spec fn ethernet_type_number(t: EthernetType) -> u16 {
    match t {
        EthernetType::Ip => ETHER_TYPE_IP,
        EthernetType::Arp => ETHER_TYPE_ARP,
        EthernetType::IpV6 => ETHER_TYPE_IPV6,
    }
}

/// The payload type that a type number names.
pub open spec fn ethernet_type_spec(typ: u16) -> Result<EthernetType, EthernetError> {
    if typ == ETHER_TYPE_IP {
        Ok(EthernetType::Ip)
    } else if typ == ETHER_TYPE_ARP {
        Ok(EthernetType::Arp)
    } else if typ == ETHER_TYPE_IPV6 {
        Ok(EthernetType::IpV6)
    } else {
        Err(EthernetError::UnsurpportedType { typ })
    }
}

/// The network protocol that an Ethernet payload type carries.
pub open spec fn net_protocol_of_ethernet(t: EthernetType) -> NetProtocolType {
    match t {
        EthernetType::Ip => NetProtocolType::Ip,
        EthernetType::Arp => NetProtocolType::Arp,
        EthernetType::IpV6 => NetProtocolType::IpV6,
    }
}

/// The Ethernet payload type that carries a network protocol.
pub open spec fn ethernet_of_net_protocol(t: NetProtocolType) -> EthernetType {
    match t {
        NetProtocolType::Ip => EthernetType::Ip,
        NetProtocolType::Arp => EthernetType::Arp,
        NetProtocolType::IpV6 => EthernetType::IpV6,
    }
}

impl EthernetType {
    pub fn number(&self) -> (n: u16)
        ensures
            n == ethernet_type_number(*self),
    {
        match self {
            EthernetType::Ip => ETHER_TYPE_IP,
            EthernetType::Arp => ETHER_TYPE_ARP,
            EthernetType::IpV6 => ETHER_TYPE_IPV6,
        }
    }
}

impl From<EthernetType> for NetProtocolType {
    fn from(value: EthernetType) -> (t: NetProtocolType) {
        match value {
            EthernetType::Ip => NetProtocolType::Ip,
            EthernetType::Arp => NetProtocolType::Arp,
            EthernetType::IpV6 => NetProtocolType::IpV6,
        }
    }
}

impl vstd::std_specs::convert::FromSpecImpl<EthernetType> for NetProtocolType {
    open spec fn obeys_from_spec() -> bool {
        true
    }

    open spec fn from_spec(value: EthernetType) -> NetProtocolType {
        net_protocol_of_ethernet(value)
    }
}

impl From<NetProtocolType> for EthernetType {
    fn from(value: NetProtocolType) -> (t: EthernetType) {
        match value {
            NetProtocolType::Ip => EthernetType::Ip,
            NetProtocolType::Arp => EthernetType::Arp,
            NetProtocolType::IpV6 => EthernetType::IpV6,
        }
    }
}

impl vstd::std_specs::convert::FromSpecImpl<NetProtocolType> for EthernetType {
    open spec fn obeys_from_spec() -> bool {
        true
    }

    open spec fn from_spec(value: NetProtocolType) -> EthernetType {
        ethernet_of_net_protocol(value)
    }
}

/// Ethernet header; the type is held in host order.
#[derive(Clone, Copy, Debug)]
pub struct EthernetHeader {
    pub dst: [u8; 6],
    pub src: [u8; 6],
    pub typ: u16,
}

/// The 14 bytes of a header on the wire.
pub open spec fn ethernet_header_bytes(h: EthernetHeader) -> Seq<u8> {
    h.dst@ + h.src@ + u16_be_bytes(h.typ)
}

impl EthernetHeader {
    pub fn new(dst: EthernetAddr, src: EthernetAddr, typ: EthernetType) -> (h: EthernetHeader)
        ensures
            h.dst@ == dst.0@,
            h.src@ == src.0@,
            h.typ == ethernet_type_number(typ),
    {
        EthernetHeader { dst: dst.0, src: src.0, typ: typ.number() }
    }

    /// Reads a header from the first 14 bytes of `data`.
    pub fn from_bytes(data: &[u8]) -> (h: EthernetHeader)
        requires
            data@.len() >= ETHER_HEADER_SIZE,
        ensures
            h.dst@ == data@.subrange(0, 6),
            h.src@ == data@.subrange(6, 12),
            h.typ == be16_at(data@, 12),
    {
        let dst = [data[0], data[1], data[2], data[3], data[4], data[5]];
        let src = [data[6], data[7], data[8], data[9], data[10], data[11]];
        assert(dst@ =~= data@.subrange(0, 6));
        assert(src@ =~= data@.subrange(6, 12));
        EthernetHeader { dst, src, typ: be16_from(data, 12) }
    }

    /// The 14 bytes of this header on the wire.
    pub fn to_bytes(&self) -> (bytes: Vec<u8>)
        ensures
            bytes@ == ethernet_header_bytes(*self),
    {
        let mut out: Vec<u8> = Vec::new();
        push_slice(&mut out, &self.dst);
        push_slice(&mut out, &self.src);
        u16_to_be_bytes(self.typ, &mut out);
        assert(out@ =~= ethernet_header_bytes(*self));
        out
    }

    pub fn dst(&self) -> (a: EthernetAddr)
        ensures
            a.0@ == self.dst@,
    {
        EthernetAddr(self.dst)
    }

    pub fn src(&self) -> (a: EthernetAddr)
        ensures
            a.0@ == self.src@,
    {
        EthernetAddr(self.src)
    }

    pub fn typ(&self) -> (res: Result<EthernetType, EthernetError>)
        ensures
            res == ethernet_type_spec(self.typ),
    {
        if self.typ == ETHER_TYPE_IP {
            Ok(EthernetType::Ip)
        } else if self.typ == ETHER_TYPE_ARP {
            Ok(EthernetType::Arp)
        } else if self.typ == ETHER_TYPE_IPV6 {
            Ok(EthernetType::IpV6)
        } else {
            Err(EthernetError::UnsurpportedType { typ: self.typ })
        }
    }
}

/// The payload type of a header built by `EthernetHeader::new` reads back as the type it was
/// built with.
pub proof fn lemma_ethernet_type_roundtrip(t: EthernetType)
    ensures
        ethernet_type_spec(ethernet_type_number(t)) == Ok::<EthernetType, EthernetError>(t),
{
}

/// Converting a network protocol to its Ethernet payload type and back gives the protocol again,
/// and the other way round.
pub proof fn lemma_ethernet_net_protocol_roundtrip(t: EthernetType, p: NetProtocolType)
    ensures
        ethernet_of_net_protocol(net_protocol_of_ethernet(t)) == t,
        net_protocol_of_ethernet(ethernet_of_net_protocol(p)) == p,
{
}

} // verus!
