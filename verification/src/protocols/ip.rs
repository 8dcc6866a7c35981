use vstd::prelude::*;

use crate::interfaces::{IpIface, NetIface};
use crate::net::name::{append_decimal, decimal_chars};
use crate::print::{append_bool, append_hex, bool_text, hex_chars};
use crate::protocols::checksum::{cksum16, cksum16_from_bytes, lemma_cksum16_of_filled_message, words_sum};
use crate::protocols::icmp::{
    SIZE_OF_ICMP_HEADER, IcmpCode, IcmpError, IcmpOutput, IcmpProtocol, IcmpType, icmp_input_spec,
    icmp_message_spec, lemma_echo_request_accepted,
};
use crate::protocols::{IpProtocolError, NetProtocolError, NetProtocolType};

verus! {

/// Size of an IP header without options, in bytes.
pub const SIZE_OF_IP_HEADER: usize = 20;

/// Size of an IPv4 address, in bytes.
pub const IP_ADDR_SIZE: usize = 4;

pub const IP_VERSION_IPV4: u8 = 4;

/// More fragments flag.
pub const IP_HEADER_FLAG_MF: u16 = 0x2000;

/// Don't fragment flag.
pub const IP_HEADER_FLAG_DF: u16 = 0x4000;

/// Reserved flag.
pub const IP_HEADER_FLAG_RF: u16 = 0x8000;

pub const IP_HEADER_OFFSET_MASK: u16 = 0x1fff;

/// An IPv4 address, held in host order.
#[derive(Clone, Copy, Debug, PartialEq, Eq, Structural)]
pub struct IpAddr(pub u32);

/// The limited broadcast address 255.255.255.255, in host order.
pub const IP_ADDR_BROADCAST: u32 = 0xffffffff;

/// The loopback address 127.0.0.1, in host order.
pub const IP_ADDR_LOOPBACK: u32 = 0x7f000001;

/// The netmask 255.0.0.0 of the loopback network, in host order.
pub const IP_ADDR_LOOPBACK_NETMASK: u32 = 0xff000000;

/// The unspecified address 0.0.0.0, in host order.
pub const IP_ADDR_ANY: u32 = 0x00000000;

/// The address whose big-endian bytes are `b`.
pub open spec fn be32_of(b0: u8, b1: u8, b2: u8, b3: u8) -> u32 {
    (b0 as nat * 0x1000000 + b1 as nat * 0x10000 + b2 as nat * 0x100 + b3 as nat) as u32
}

/// The big-endian bytes of a 16-bit value.
pub open spec fn u16_be_bytes(x: u16) -> Seq<u8> {
    seq![(x / 256) as u8, (x % 256) as u8]
}

/// The big-endian bytes of a 32-bit value.
pub open spec fn u32_be_bytes(x: u32) -> Seq<u8> {
    seq![
        (x / 0x1000000) as u8,
        ((x / 0x10000) % 256) as u8,
        ((x / 0x100) % 256) as u8,
        (x % 256) as u8,
    ]
}

/// The 16-bit value whose big-endian bytes are `s[i]`, `s[i + 1]`.
pub open spec fn be16_at(s: Seq<u8>, i: int) -> u16 {
    (s[i] as nat * 256 + s[i + 1] as nat) as u16
}

/// The 32-bit value whose big-endian bytes start at `s[i]`.
pub open spec fn be32_at(s: Seq<u8>, i: int) -> u32 {
    be32_of(s[i], s[i + 1], s[i + 2], s[i + 3])
}

/// The text of an address: its four octets in decimal, most significant first, separated by
/// dots.
pub open spec fn ip_addr_text(a: u32) -> Seq<char> {
    let b = u32_be_bytes(a);
    decimal_chars(b[0] as nat) + seq!['.'] + decimal_chars(b[1] as nat) + seq!['.'] + decimal_chars(
        b[2] as nat,
    ) + seq!['.'] + decimal_chars(b[3] as nat)
}

impl IpAddr {
    /// The address as text, such as `192.0.2.2`.
    pub fn to_string(&self) -> (text: String)
        ensures
            text@ == ip_addr_text(self.0),
    {
        proof {
            reveal_strlit(".");
        }
        let x = self.0;
        let mut s = String::new();
        append_decimal(&mut s, (x / 0x1000000) as usize);
        s.append(".");
        append_decimal(&mut s, ((x / 0x10000) % 256) as usize);
        s.append(".");
        append_decimal(&mut s, ((x / 0x100) % 256) as usize);
        s.append(".");
        append_decimal(&mut s, (x % 256) as usize);
        assert(s@ =~= ip_addr_text(x));
        s
    }

    pub fn new(value: u32) -> (addr: IpAddr)
        ensures
            addr.0 == value,
    {
        IpAddr(value)
    }

    /// The address written as its four octets, most significant first.
    pub fn from_octets(octets: [u8; 4]) -> (addr: IpAddr)
        ensures
            addr.0 == be32_of(octets[0], octets[1], octets[2], octets[3]),
    {
        IpAddr(
            (octets[0] as u32) * 0x1000000 + (octets[1] as u32) * 0x10000 + (octets[2] as u32)
                * 0x100 + octets[3] as u32,
        )
    }

    /// The broadcast address of the subnet of `unicast` under `netmask`.
    pub fn broadcast(unicast: IpAddr, netmask: IpAddr) -> (addr: IpAddr)
        ensures
            addr.0 == (unicast.0 & netmask.0) | !netmask.0,
    {
        IpAddr((unicast.0 & netmask.0) | !netmask.0)
    }

    /// Whether `self` and `other` lie in the same subnet under `netmask`.
    pub fn is_same_subnet(&self, other: &IpAddr, netmask: &IpAddr) -> (same: bool)
        ensures
            same == ((self.0 & netmask.0) == (other.0 & netmask.0)),
    {
        self.0 & netmask.0 == other.0 & netmask.0
    }
}

impl From<u32> for IpAddr {
    fn from(value: u32) -> (addr: IpAddr) {
        IpAddr(value)
    }
}

impl vstd::std_specs::convert::FromSpecImpl<u32> for IpAddr {
    open spec fn obeys_from_spec() -> bool {
        true
    }

    open spec fn from_spec(value: u32) -> IpAddr {
        IpAddr(value)
    }
}

/// IP header. Every field is held in host order; `to_bytes` and `from_bytes` convert from and to
/// the network order of the wire.
#[derive(Clone, Copy, Debug, PartialEq, Eq, Structural)]
pub struct IpHeader {
    /// IP version (4 bits) and header length (4 bits, in units of 4 bytes).
    pub vhl: u8,
    /// Type of service.
    pub tos: u8,
    /// Total length of the datagram, header included.
    pub total: u16,
    /// Identification.
    pub id: u16,
    /// Flags (3 bits) and fragment offset (13 bits, in units of 8 bytes).
    pub offset: u16,
    /// Time to live.
    pub ttl: u8,
    /// Protocol number of the payload.
    pub protocol: u8,
    /// Header checksum.
    pub sum: u16,
    /// Source address.
    pub src: u32,
    /// Destination address.
    pub dst: u32,
}

/// The 20 bytes of a header on the wire.
pub open spec fn ip_header_bytes(h: IpHeader) -> Seq<u8> {
    seq![h.vhl, h.tos] + u16_be_bytes(h.total) + u16_be_bytes(h.id) + u16_be_bytes(h.offset)
        + seq![h.ttl, h.protocol] + u16_be_bytes(h.sum) + u32_be_bytes(h.src) + u32_be_bytes(
        h.dst,
    )
}

/// The header read from the first 20 bytes of `s`.
pub open spec fn parse_ip_header(s: Seq<u8>) -> IpHeader {
    IpHeader {
        vhl: s[0],
        tos: s[1],
        total: be16_at(s, 2),
        id: be16_at(s, 4),
        offset: be16_at(s, 6),
        ttl: s[8],
        protocol: s[9],
        sum: be16_at(s, 10),
        src: be32_at(s, 12),
        dst: be32_at(s, 16),
    }
}

/// Protocol numbers carried in the IP header.
#[derive(Clone, Copy, Debug, PartialEq, Eq, Structural)]
pub enum IpUpperProtocol {
    Hopopt,
    Icmp,
    Igmp,
    IpV4,
    Tcp,
    Udp,
}

pub open spec fn ip_upper_protocol_number(p: IpUpperProtocol) -> u8 {
    match p {
        IpUpperProtocol::Hopopt => 0,
        IpUpperProtocol::Icmp => 1,
        IpUpperProtocol::Igmp => 2,
        IpUpperProtocol::IpV4 => 4,
        IpUpperProtocol::Tcp => 6,
        IpUpperProtocol::Udp => 17,
    }
}

impl IpUpperProtocol {
    /// The protocol number of the header's `protocol` field.
    pub fn number(&self) -> (n: u8)
        ensures
            n == ip_upper_protocol_number(*self),
    {
        match self {
            IpUpperProtocol::Hopopt => 0,
            IpUpperProtocol::Icmp => 1,
            IpUpperProtocol::Igmp => 2,
            IpUpperProtocol::IpV4 => 4,
            IpUpperProtocol::Tcp => 6,
            IpUpperProtocol::Udp => 17,
        }
    }
}

/// The header that `IpHeader::new` builds when its identification is `id`, before the checksum
/// is set.
pub open spec fn ip_header_unsummed(
    protocol: IpUpperProtocol,
    offset: u16,
    src: IpAddr,
    dst: IpAddr,
    data_len: nat,
    id: u16,
) -> IpHeader {
    IpHeader {
        vhl: 0x45,
        tos: 0,
        total: (SIZE_OF_IP_HEADER + data_len) as u16,
        id: id,
        offset: offset,
        ttl: 0xff,
        protocol: ip_upper_protocol_number(protocol),
        sum: 0,
        src: src.0,
        dst: dst.0,
    }
}

/// The header that `IpHeader::new` builds when its identification is `id`.
pub open spec fn ip_header_built(
    protocol: IpUpperProtocol,
    offset: u16,
    src: IpAddr,
    dst: IpAddr,
    data_len: nat,
    id: u16,
) -> IpHeader {
    let h = ip_header_unsummed(protocol, offset, src, dst, data_len, id);
    IpHeader { sum: cksum16(ip_header_bytes(h), 0), ..h }
}

/// A 16-bit random number, from `rand::random`; nothing is stated of its value.
#[verifier::external_body]
pub(crate) fn random16() -> u16 {
    rand::random::<u16>()
}

pub fn u16_to_be_bytes(x: u16, out: &mut Vec<u8>)
    ensures
        final(out)@ == old(out)@ + u16_be_bytes(x),
{
    out.push((x / 256) as u8);
    out.push((x % 256) as u8);
}

pub fn u32_to_be_bytes(x: u32, out: &mut Vec<u8>)
    ensures
        final(out)@ == old(out)@ + u32_be_bytes(x),
{
    out.push((x / 0x1000000) as u8);
    out.push(((x / 0x10000) % 256) as u8);
    out.push(((x / 0x100) % 256) as u8);
    out.push((x % 256) as u8);
}

/// Writes the big-endian bytes of `x` over `buf[i]` and `buf[i + 1]`.
pub fn set_be16(buf: &mut Vec<u8>, i: usize, x: u16)
    requires
        i + 1 < old(buf)@.len(),
    ensures
        final(buf)@ == old(buf)@.update(i as int, u16_be_bytes(x)[0]).update(
            i + 1,
            u16_be_bytes(x)[1],
        ),
{
    let len = buf.len();
    assert(i + 1 < len);
    buf.set(i, (x / 256) as u8);
    buf.set(i + 1, (x % 256) as u8);
}

/// Appends the bytes of `data` to `out`.
pub fn push_slice(out: &mut Vec<u8>, data: &[u8])
    ensures
        final(out)@ == old(out)@ + data@,
{
    let mut i: usize = 0;
    while i < data.len()
        invariant
            i <= data@.len(),
            out@ == old(out)@ + data@.subrange(0, i as int),
        decreases data@.len() - i,
    {
        out.push(data[i]);
        i = i + 1;
        assert(data@.subrange(0, i as int) =~= data@.subrange(0, i - 1 as int).push(data@[i - 1]));
    }
    assert(data@.subrange(0, data@.len() as int) =~= data@);
}

/// The length of a sequence, as a `usize`.
pub open spec fn len_usize(s: Seq<u8>) -> usize {
    s.len() as usize
}

pub fn be16_from(data: &[u8], i: usize) -> (x: u16)
    requires
        i + 1 < data@.len(),
    ensures
        x == be16_at(data@, i as int),
{
    (data[i] as u16) * 256 + data[i + 1] as u16
}

pub fn be32_from(data: &[u8], i: usize) -> (x: u32)
    requires
        i + 3 < data@.len(),
    ensures
        x == be32_at(data@, i as int),
{
    (data[i] as u32) * 0x1000000 + (data[i + 1] as u32) * 0x10000 + (data[i + 2] as u32) * 0x100
        + data[i + 3] as u32
}

/// The text of a header: each field on a line of its own, lengths and the fragment offset in
/// bytes, the checksum in hexadecimal and the addresses in dotted decimal.
pub open spec fn ip_header_text(h: IpHeader) -> Seq<char> {
    "IpHeader{\n    version: "@ + decimal_chars((h.vhl >> 4) as nat) + ",\n    hlen: "@
        + decimal_chars(((h.vhl & 0x0f) * 4) as nat) + " (bytes),\n    tos: "@ + decimal_chars(
        h.tos as nat,
    ) + ",\n    total: "@ + decimal_chars(h.total as nat) + " (bytes),\n    id: "@
        + decimal_chars(h.id as nat) + ",\n    flags: DF: "@ + bool_text(
        (h.offset & IP_HEADER_FLAG_DF) != 0,
    ) + ", MF: "@ + bool_text((h.offset & IP_HEADER_FLAG_MF) != 0) + ",\n    offset: "@
        + decimal_chars(((h.offset & IP_HEADER_OFFSET_MASK) * 8) as nat) + " (bytes),\n    ttl: "@
        + decimal_chars(h.ttl as nat) + ",\n    protocol: "@ + decimal_chars(h.protocol as nat)
        + ",\n    sum: 0x"@ + hex_chars(h.sum as nat) + ",\n    src: "@ + ip_addr_text(h.src)
        + ",\n    dst: "@ + ip_addr_text(h.dst) + ",\n}"@
}

impl IpHeader {
    /// Reads a header from the first 20 bytes of `data`.
    pub fn from_bytes(data: &[u8]) -> (hdr: IpHeader)
        requires
            data@.len() >= SIZE_OF_IP_HEADER,
        ensures
            hdr == parse_ip_header(data@),
    {
        IpHeader {
            vhl: data[0],
            tos: data[1],
            total: be16_from(data, 2),
            id: be16_from(data, 4),
            offset: be16_from(data, 6),
            ttl: data[8],
            protocol: data[9],
            sum: be16_from(data, 10),
            src: be32_from(data, 12),
            dst: be32_from(data, 16),
        }
    }

    /// The 20 bytes of this header on the wire.
    pub fn to_bytes(&self) -> (bytes: Vec<u8>)
        ensures
            bytes@ == ip_header_bytes(*self),
    {
        let mut out: Vec<u8> = Vec::new();
        out.push(self.vhl);
        out.push(self.tos);
        u16_to_be_bytes(self.total, &mut out);
        u16_to_be_bytes(self.id, &mut out);
        u16_to_be_bytes(self.offset, &mut out);
        out.push(self.ttl);
        out.push(self.protocol);
        u16_to_be_bytes(self.sum, &mut out);
        u32_to_be_bytes(self.src, &mut out);
        u32_to_be_bytes(self.dst, &mut out);
        assert(out@ =~= ip_header_bytes(*self));
        out
    }

    /// Builds the header of a datagram that carries `data_len` bytes of `protocol`, with `id` as
    /// its identification; the checksum is computed over the header.
    pub fn new_with_id(
        protocol: IpUpperProtocol,
        offset: u16,
        src: &IpAddr,
        dst: &IpAddr,
        data_len: usize,
        id: u16,
    ) -> (hdr: IpHeader)
        requires
            SIZE_OF_IP_HEADER + data_len <= usize::MAX,
        ensures
            hdr == ip_header_built(protocol, offset, *src, *dst, data_len as nat, id),
    {
        let total = SIZE_OF_IP_HEADER + data_len;
        let hdr = IpHeader {
            vhl: (IP_VERSION_IPV4 << 4) | ((SIZE_OF_IP_HEADER as u8) >> 2),
            tos: 0,
            total: total as u16,
            id: id,
            offset: offset,
            ttl: 0xff,
            protocol: protocol.number(),
            sum: 0,
            src: src.0,
            dst: dst.0,
        };
        assert(((IP_VERSION_IPV4 << 4) | ((SIZE_OF_IP_HEADER as u8) >> 2)) == 0x45u8)
            by (bit_vector);
        let hdr_bytes = hdr.to_bytes();
        proof {
            lemma_ip_header_words_sum_bounded(hdr);
        }
        let sum = cksum16_from_bytes(hdr_bytes.as_slice(), 0);
        IpHeader { sum: sum, ..hdr }
    }

    /// Builds the header of a datagram that carries `data` as `protocol`; the identification is a
    /// random number and the checksum is computed over the header.
    pub fn new(
        protocol: IpUpperProtocol,
        offset: u16,
        src: &IpAddr,
        dst: &IpAddr,
        data: &[u8],
    ) -> (hdr: IpHeader)
        requires
            SIZE_OF_IP_HEADER + data@.len() <= usize::MAX,
        ensures
            hdr == ip_header_built(protocol, offset, *src, *dst, data@.len(), hdr.id),
    {
        let id = random16();
        IpHeader::new_with_id(protocol, offset, src, dst, data.len(), id)
    }

    /// The header as text, one field on each line.
    pub fn to_string(&self) -> (text: String)
        ensures
            text@ == ip_header_text(*self),
    {
        let mut s = String::from_str("IpHeader{\n    version: ");
        append_decimal(&mut s, self.version() as usize);
        s.append(",\n    hlen: ");
        append_decimal(&mut s, self.hlen());
        s.append(" (bytes),\n    tos: ");
        append_decimal(&mut s, self.tos as usize);
        s.append(",\n    total: ");
        append_decimal(&mut s, self.total());
        s.append(" (bytes),\n    id: ");
        append_decimal(&mut s, self.id() as usize);
        s.append(",\n    flags: DF: ");
        append_bool(&mut s, self.dont_fragment());
        s.append(", MF: ");
        append_bool(&mut s, self.more_fragments());
        s.append(",\n    offset: ");
        append_decimal(&mut s, self.offset());
        s.append(" (bytes),\n    ttl: ");
        append_decimal(&mut s, self.ttl as usize);
        s.append(",\n    protocol: ");
        append_decimal(&mut s, self.protocol as usize);
        s.append(",\n    sum: 0x");
        append_hex(&mut s, self.sum() as usize);
        s.append(",\n    src: ");
        let src = self.src().to_string();
        s.append(src.as_str());
        s.append(",\n    dst: ");
        let dst = self.dst().to_string();
        s.append(dst.as_str());
        s.append(",\n}");
        assert(s@ =~= ip_header_text(*self));
        s
    }

    /// IP version.
    pub fn version(&self) -> (v: u8)
        ensures
            v == self.vhl >> 4,
    {
        self.vhl >> 4
    }

    /// Header length, in bytes.
    pub fn hlen(&self) -> (n: usize)
        ensures
            n == (self.vhl & 0x0f) * 4,
    {
        (self.vhl & 0x0f) as usize * 4
    }

    /// Total length, in bytes.
    pub fn total(&self) -> (n: usize)
        ensures
            n == self.total,
    {
        self.total as usize
    }

    pub fn id(&self) -> (id: u16)
        ensures
            id == self.id,
    {
        self.id
    }

    pub fn more_fragments(&self) -> (mf: bool)
        ensures
            mf == ((self.offset & IP_HEADER_FLAG_MF) != 0),
    {
        (self.offset & IP_HEADER_FLAG_MF) != 0
    }

    pub fn dont_fragment(&self) -> (df: bool)
        ensures
            df == ((self.offset & IP_HEADER_FLAG_DF) != 0),
    {
        (self.offset & IP_HEADER_FLAG_DF) != 0
    }

    /// Fragment offset, in bytes.
    pub fn offset(&self) -> (n: usize)
        ensures
            n == (self.offset & IP_HEADER_OFFSET_MASK) * 8,
    {
        (self.offset & IP_HEADER_OFFSET_MASK) as usize * 8
    }

    pub fn sum(&self) -> (sum: u16)
        ensures
            sum == self.sum,
    {
        self.sum
    }

    pub fn src(&self) -> (addr: IpAddr)
        ensures
            addr.0 == self.src,
    {
        IpAddr(self.src)
    }

    pub fn dst(&self) -> (addr: IpAddr)
        ensures
            addr.0 == self.dst,
    {
        IpAddr(self.dst)
    }
}

/// The word sum of a header fits the checksum's 32-bit accumulator.
pub proof fn lemma_ip_header_words_sum_bounded(h: IpHeader)
    ensures
        words_sum(ip_header_bytes(h)) <= u32::MAX,
{
    let s = ip_header_bytes(h);
    reveal_with_fuel(crate::protocols::checksum::words_prefix_sum, 11);
    assert(s.len() == 20);
}

/// The big-endian bytes of a 16-bit value read back as that value.
pub proof fn lemma_u16_be_bytes_read(x: u16)
    ensures
        be16_at(u16_be_bytes(x), 0) == x,
{
    let s = u16_be_bytes(x);
    assert(s[0] as nat * 256 + s[1] as nat == x) by (nonlinear_arith)
        requires
            s[0] == (x / 256) as u8,
            s[1] == (x % 256) as u8,
            x < 0x10000,
    ;
}

/// Two bytes read as a 16-bit value and written again give back the bytes.
pub proof fn lemma_be16_written(a: u8, b: u8)
    ensures
        u16_be_bytes((a as nat * 256 + b as nat) as u16) == seq![a, b],
{
    let x = (a as nat * 256 + b as nat) as u16;
    assert(x / 256 == a && x % 256 == b) by (nonlinear_arith)
        requires
            x == a as nat * 256 + b as nat,
            a < 256,
            b < 256,
    ;
    assert(u16_be_bytes(x) =~= seq![a, b]);
}

/// The big-endian bytes of a 32-bit value read back as that value.
pub proof fn lemma_u32_be_bytes_read(x: u32)
    ensures
        be32_at(u32_be_bytes(x), 0) == x,
{
    let s = u32_be_bytes(x);
    assert(s[0] as nat * 0x1000000 + s[1] as nat * 0x10000 + s[2] as nat * 0x100 + s[3] as nat
        == x) by (nonlinear_arith)
        requires
            s[0] == (x / 0x1000000) as u8,
            s[1] == ((x / 0x10000) % 256) as u8,
            s[2] == ((x / 0x100) % 256) as u8,
            s[3] == (x % 256) as u8,
            x < 0x100000000,
    ;
}

/// Four bytes read as a 32-bit value and written again give back the bytes.
pub proof fn lemma_be32_written(a: u8, b: u8, c: u8, d: u8)
    ensures
        u32_be_bytes(be32_of(a, b, c, d)) == seq![a, b, c, d],
{
    let n = a as nat * 0x1000000 + b as nat * 0x10000 + c as nat * 0x100 + d as nat;
    let x = be32_of(a, b, c, d);
    assert(n < 0x100000000) by (nonlinear_arith)
        requires
            n == a as nat * 0x1000000 + b as nat * 0x10000 + c as nat * 0x100 + d as nat,
            a < 256,
            b < 256,
            c < 256,
            d < 256,
    ;
    assert(x / 0x1000000 == a && (x / 0x10000) % 256 == b && (x / 0x100) % 256 == c && x % 256
        == d) by (nonlinear_arith)
        requires
            x == a as nat * 0x1000000 + b as nat * 0x10000 + c as nat * 0x100 + d as nat,
            a < 256,
            b < 256,
            c < 256,
            d < 256,
    ;
    assert(u32_be_bytes(x) =~= seq![a, b, c, d]);
}

/// Reading the bytes of a header gives back the header.
pub proof fn lemma_parse_ip_header_bytes(h: IpHeader)
    ensures
        parse_ip_header(ip_header_bytes(h)) == h,
{
    let s = ip_header_bytes(h);
    lemma_u16_be_bytes_read(h.total);
    lemma_u16_be_bytes_read(h.id);
    lemma_u16_be_bytes_read(h.offset);
    lemma_u16_be_bytes_read(h.sum);
    lemma_u32_be_bytes_read(h.src);
    lemma_u32_be_bytes_read(h.dst);
    assert(be16_at(s, 2) == be16_at(u16_be_bytes(h.total), 0));
    assert(be16_at(s, 4) == be16_at(u16_be_bytes(h.id), 0));
    assert(be16_at(s, 6) == be16_at(u16_be_bytes(h.offset), 0));
    assert(be16_at(s, 10) == be16_at(u16_be_bytes(h.sum), 0));
    assert(be32_at(s, 12) == be32_at(u32_be_bytes(h.src), 0));
    assert(be32_at(s, 16) == be32_at(u32_be_bytes(h.dst), 0));
}

/// Writing a header read from bytes gives back those bytes.
pub proof fn lemma_ip_header_bytes_parse(s: Seq<u8>)
    requires
        s.len() >= SIZE_OF_IP_HEADER,
    ensures
        ip_header_bytes(parse_ip_header(s)) == s.subrange(0, SIZE_OF_IP_HEADER as int),
{
    let h = parse_ip_header(s);
    lemma_be16_written(s[2], s[3]);
    lemma_be16_written(s[4], s[5]);
    lemma_be16_written(s[6], s[7]);
    lemma_be16_written(s[10], s[11]);
    lemma_be32_written(s[12], s[13], s[14], s[15]);
    lemma_be32_written(s[16], s[17], s[18], s[19]);
    let t = ip_header_bytes(h);
    assert(t =~= s.subrange(0, SIZE_OF_IP_HEADER as int));
}

/// Header length, in bytes, of a header.
pub open spec fn ip_hlen(h: IpHeader) -> int {
    ((h.vhl & 0x0f) * 4) as int
}

/// Whether a header has the more fragments flag set or a non-zero fragment offset.
pub open spec fn ip_is_fragment(h: IpHeader) -> bool {
    (h.offset & IP_HEADER_FLAG_MF) != 0 || (h.offset & IP_HEADER_OFFSET_MASK) * 8 > 0
}

/// The checks that a received datagram `p` passes, in order, giving its header when it passes
/// them all.
pub open spec fn ip_check_spec(p: Seq<u8>) -> Result<IpHeader, NetProtocolError> {
    if p.len() <= SIZE_OF_IP_HEADER {
        Err(NetProtocolError::TooShortPacket { len: p.len() as usize })
    } else {
        let h = parse_ip_header(p);
        if h.vhl >> 4 != IP_VERSION_IPV4 {
            Err(NetProtocolError::UnsurpportedIpVersion { version: h.vhl >> 4 })
        } else if cksum16(p.take(ip_hlen(h)), 0) != 0 {
            Err(NetProtocolError::BrokenCheckSum)
        } else if h.total > p.len() {
            Err(NetProtocolError::TooShortPacket { len: p.len() as usize })
        } else if ip_is_fragment(h) {
            Err(NetProtocolError::FragmentUnsurpported)
        } else {
            Ok(h)
        }
    }
}

/// The datagrams on which the checks run to an end: those whose header length fits the datagram
/// when the checksum is taken.
pub open spec fn ip_input_defined(p: Seq<u8>) -> bool {
    let h = parse_ip_header(p);
    p.len() <= SIZE_OF_IP_HEADER || h.vhl >> 4 != IP_VERSION_IPV4 || ip_hlen(h) <= p.len()
}

/// What the checks make of a received datagram `p`: its header, or the error of the first check
/// it fails; a header length that does not fit the datagram is malformed.
pub open spec fn ip_input_spec(p: Seq<u8>) -> Result<IpHeader, NetProtocolError> {
    if ip_input_defined(p) {
        ip_check_spec(p)
    } else {
        Err(NetProtocolError::MalformedHeader)
    }
}

/// The payload of a datagram `p` with header `h`.
pub open spec fn ip_payload(p: Seq<u8>, h: IpHeader) -> Seq<u8> {
    p.subrange(ip_hlen(h), h.total as int)
}

/// Whether a datagram with header `h` is addressed to interface `iface`.
pub open spec fn ip_addressed_to(iface: IpIface, h: IpHeader) -> bool {
    h.dst == iface.unicast.0 || h.dst == iface.broadcast.0 || h.dst == IP_ADDR_BROADCAST
}

/// Whether a handler of protocol number `n` is among `uppers`.
pub open spec fn has_upper_handler(uppers: Seq<IpUpperProtocolHandler>, n: u8) -> bool {
    exists|i: int| 0 <= i < uppers.len() && upper_handler_number(#[trigger] uppers[i]) == n
}

/// What the IP layer makes of a datagram `p` received by a device with interfaces `ifaces`,
/// with the handlers `uppers`: an error; nothing to send back; or the ICMP message to send back,
/// as its code, message dependent field, data, source and destination. The datagram goes to the
/// device's first interface, which refuses a header length that exceeds the total length as
/// malformed, and drops the datagram unless it is addressed to it and its protocol has a
/// handler. A device without interfaces drops the datagram.
pub open spec fn ip_reply_spec(
    uppers: Seq<IpUpperProtocolHandler>,
    p: Seq<u8>,
    ifaces: Seq<NetIface>,
) -> Result<Option<(IcmpCode, Seq<u8>, Seq<u8>, IpAddr, IpAddr)>, NetProtocolError> {
    match ip_input_spec(p) {
        Err(e) => Err(e),
        Ok(h) => {
            if ifaces.len() == 0 {
                Ok(None)
            } else {
                let iface = match ifaces[0] {
                    NetIface::Ip(x) => x,
                };
                if ip_hlen(h) > h.total {
                    Err(NetProtocolError::MalformedHeader)
                } else if !ip_addressed_to(iface, h) || !has_upper_handler(uppers, h.protocol) {
                    Ok(None)
                } else {
                    let payload = ip_payload(p, h);
                    match icmp_input_spec(payload) {
                        Err(e) => Err(
                            NetProtocolError::IpProtocolError {
                                error: IpProtocolError::IcmpError { error: e },
                            },
                        ),
                        Ok(None) => Ok(None),
                        Ok(Some(code)) => Ok(
                            Some((code, payload.subrange(4, 8), payload.skip(8), iface.unicast, IpAddr(h.src))),
                        ),
                    }
                }
            }
        },
    }
}

/// The protocols carried over IP that the stack handles.
#[derive(Clone, Copy, Debug)]
pub enum IpUpperProtocolHandler {
    Icmp(IcmpProtocol),
}

/// The protocol number a handler handles.
pub open spec fn upper_handler_number(h: IpUpperProtocolHandler) -> u8 {
    match h {
        IpUpperProtocolHandler::Icmp(_) => ip_upper_protocol_number(IpUpperProtocol::Icmp),
    }
}

impl IpUpperProtocolHandler {
    pub fn protocol(&self) -> (p: IpUpperProtocol)
        ensures
            ip_upper_protocol_number(p) == upper_handler_number(*self),
    {
        match self {
            IpUpperProtocolHandler::Icmp(_) => IpUpperProtocol::Icmp,
        }
    }
}

/// The handlers that the demonstration stack registers: ICMP alone.
pub open spec fn mock_upper_handlers() -> Seq<IpUpperProtocolHandler> {
    seq![IpUpperProtocolHandler::Icmp(IcmpProtocol)]
}

/// The IP protocol, with the handlers of the protocols it carries.
#[derive(Clone, Debug)]
pub struct IpProtocol {
    uppers: Vec<IpUpperProtocolHandler>,
}

impl IpProtocol {
    /// The registered handlers.
    pub closed spec fn uppers_spec(&self) -> Seq<IpUpperProtocolHandler> {
        self.uppers@
    }

    pub fn new() -> (p: IpProtocol)
        ensures
            p.uppers_spec() == Seq::<IpUpperProtocolHandler>::empty(),
    {
        IpProtocol { uppers: Vec::new() }
    }

    pub fn typ(&self) -> (t: NetProtocolType)
        ensures
            t == NetProtocolType::Ip,
    {
        NetProtocolType::Ip
    }

    /// Registers `handler`, unless a handler of the same protocol number is registered already.
    pub fn register_protocol(&mut self, handler: IpUpperProtocolHandler) -> (res: Result<(), IpProtocolError>)
        ensures
            (exists|i: int| 0 <= i < old(self).uppers_spec().len() && upper_handler_number(#[trigger] old(self).uppers_spec()[i]) == upper_handler_number(handler)) ==> {
                &&& res == Err::<(), IpProtocolError>(IpProtocolError::DuplicatedProtocol { protocol: upper_handler_number(handler) })
                &&& final(self).uppers_spec() == old(self).uppers_spec()
            },
            !(exists|i: int| 0 <= i < old(self).uppers_spec().len() && upper_handler_number(#[trigger] old(self).uppers_spec()[i]) == upper_handler_number(handler)) ==> {
                &&& res is Ok
                &&& final(self).uppers_spec() == old(self).uppers_spec().push(handler)
            },
    {
        let number = handler.protocol().number();
        let mut i: usize = 0;
        while i < self.uppers.len()
            invariant
                i <= self.uppers@.len(),
                self.uppers@ == old(self).uppers@,
                number == upper_handler_number(handler),
                forall|j: int| 0 <= j < i ==> upper_handler_number(#[trigger] self.uppers@[j]) != number,
            decreases self.uppers@.len() - i,
        {
            if self.uppers[i].protocol().number() == number {
                assert(upper_handler_number(old(self).uppers_spec()[i as int]) == upper_handler_number(handler));
                return Err(IpProtocolError::DuplicatedProtocol { protocol: number });
            }
            i = i + 1;
        }
        self.uppers.push(handler);
        Ok(())
    }

    /// The handler registered for protocol number `protocol`, if any.
    pub fn upper_handler(&self, protocol: u8) -> (res: Option<IpUpperProtocolHandler>)
        ensures
            res matches Some(h) ==> upper_handler_number(h) == protocol && exists|i: int| 0 <= i < self.uppers_spec().len() && self.uppers_spec()[i] == h,
            res is None ==> forall|i: int| 0 <= i < self.uppers_spec().len() ==> upper_handler_number(#[trigger] self.uppers_spec()[i]) != protocol,
    {
        let mut i: usize = 0;
        while i < self.uppers.len()
            invariant
                i <= self.uppers@.len(),
                forall|j: int| 0 <= j < i ==> upper_handler_number(#[trigger] self.uppers@[j]) != protocol,
            decreases self.uppers@.len() - i,
        {
            if self.uppers[i].protocol().number() == protocol {
                assert(self.uppers_spec()[i as int] == self.uppers@[i as int]);
                return Some(self.uppers[i]);
            }
            i = i + 1;
        }
        None
    }

    /// Checks a datagram received by a device with interfaces `ifaces`, hands it to the device's
    /// first interface and then to the handler of its protocol, and says what to send back.
    pub fn handle(&self, data: &[u8], ifaces: &Vec<NetIface>) -> (res: Result<Option<IcmpOutput>, NetProtocolError>)
        ensures
            match res {
                Err(e) => ip_reply_spec(self.uppers_spec(), data@, ifaces@) == Err::<
                    Option<(IcmpCode, Seq<u8>, Seq<u8>, IpAddr, IpAddr)>,
                    NetProtocolError,
                >(e),
                Ok(None) => ip_reply_spec(self.uppers_spec(), data@, ifaces@) == Ok::<
                    Option<(IcmpCode, Seq<u8>, Seq<u8>, IpAddr, IpAddr)>,
                    NetProtocolError,
                >(None),
                Ok(Some(out)) => {
                    &&& ip_reply_spec(self.uppers_spec(), data@, ifaces@) == Ok::<
                        Option<(IcmpCode, Seq<u8>, Seq<u8>, IpAddr, IpAddr)>,
                        NetProtocolError,
                    >(Some((out.code, out.val@, out.data@, out.src, out.dst)))
                    &&& out.typ == IcmpType::EchoReply
                },
            },
    {
        if data.len() <= SIZE_OF_IP_HEADER {
            return Err(NetProtocolError::TooShortPacket { len: data.len() });
        }
        let hdr = IpHeader::from_bytes(data);
        if hdr.version() != IP_VERSION_IPV4 {
            return Err(NetProtocolError::UnsurpportedIpVersion { version: hdr.version() });
        }
        let hlen = hdr.hlen();
        if hlen > data.len() {
            return Err(NetProtocolError::MalformedHeader);
        }
        let head = vstd::slice::slice_subrange(data, 0, hlen);
        proof {
            crate::protocols::checksum::lemma_words_sum_bounded(head@);
        }
        if cksum16_from_bytes(head, 0) != 0 {
            return Err(NetProtocolError::BrokenCheckSum);
        }
        if hdr.total() > data.len() {
            return Err(NetProtocolError::TooShortPacket { len: data.len() });
        }
        if hdr.more_fragments() || hdr.offset() > 0 {
            return Err(NetProtocolError::FragmentUnsurpported);
        }
        assert(ip_input_spec(data@) == Ok::<IpHeader, NetProtocolError>(hdr));
        if ifaces.len() == 0 {
            return Ok(None);
        }
        let iface = match &ifaces[0] {
            NetIface::Ip(x) => *x,
        };
        if hlen > hdr.total() {
            return Err(NetProtocolError::MalformedHeader);
        }
        if !iface.should_proceed_packet(&hdr) {
            return Ok(None);
        }
        match self.upper_handler(hdr.protocol) {
            None => Ok(None),
            Some(IpUpperProtocolHandler::Icmp(icmp)) => {
                let payload = vstd::slice::slice_subrange(data, hlen, hdr.total());
                assert(payload@ == ip_payload(data@, hdr));
                proof {
                    crate::protocols::checksum::lemma_words_sum_bounded(payload@);
                    assert(0xffff * payload@.len() <= 0xffff * 0xffff) by (nonlinear_arith)
                        requires payload@.len() <= 0xffff;
                }
                match icmp.reply_to(&hdr, payload, *iface.unicast()) {
                    Err(error) => Err(NetProtocolError::IpProtocolError { error }),
                    Ok(None) => Ok(None),
                    Ok(Some(out)) => Ok(Some(out)),
                }
            },
        }
    }
}

/// A header built by `IpHeader::new` passes the checksum test of a receiver.
pub proof fn lemma_ip_header_built_checksum(
    protocol: IpUpperProtocol,
    offset: u16,
    src: IpAddr,
    dst: IpAddr,
    data_len: nat,
    id: u16,
)
    ensures
        cksum16(ip_header_bytes(ip_header_built(protocol, offset, src, dst, data_len, id)), 0)
            == 0,
{
    let h0 = ip_header_unsummed(protocol, offset, src, dst, data_len, id);
    let s = ip_header_bytes(h0);
    let c = cksum16(s, 0);
    lemma_cksum16_of_filled_message(s, 5);
    assert(ip_header_bytes(ip_header_built(protocol, offset, src, dst, data_len, id)) =~= s.update(
        10,
        u16_be_bytes(c)[0],
    ).update(11, u16_be_bytes(c)[1]));
}

/// The datagram that carries `data` of `protocol` from `src` to `dst` with identification `id`:
/// the header that `IpHeader::new` builds, then `data`.
pub open spec fn ip_packet_spec(protocol: IpUpperProtocol, src: IpAddr, dst: IpAddr, data: Seq<u8>, id: u16) -> Seq<u8> {
    ip_datagram_spec(protocol, 0, src, dst, data, id)
}

/// The datagram that carries `data` of `protocol` from `src` to `dst` with identification `id`
/// and flags and fragment offset field `offset`: the header that `IpHeader::new` builds, then
/// `data`.
pub open spec fn ip_datagram_spec(
    protocol: IpUpperProtocol,
    offset: u16,
    src: IpAddr,
    dst: IpAddr,
    data: Seq<u8>,
    id: u16,
) -> Seq<u8> {
    ip_header_bytes(ip_header_built(protocol, offset, src, dst, data.len(), id)) + data
}

/// A datagram that is not a fragment is accepted whatever its other flags: a datagram with a
/// header built by `IpHeader::new`, a payload that is not empty, the More-Fragments flag clear
/// and a zero fragment offset passes every check of a receiver, whether the Don't-Fragment flag
/// or the reserved flag is set or not; the receiver reads back the header, with its header length
/// within its total length, and the payload.
pub proof fn lemma_unfragmented_datagram_accepted(
    protocol: IpUpperProtocol,
    offset: u16,
    src: IpAddr,
    dst: IpAddr,
    data: Seq<u8>,
    id: u16,
)
    requires
        offset & 0x3fff == 0,
        0 < data.len(),
        SIZE_OF_IP_HEADER + data.len() <= 0xffff,
    ensures
        ip_input_spec(ip_datagram_spec(protocol, offset, src, dst, data, id)) == Ok::<
            IpHeader,
            NetProtocolError,
        >(ip_header_built(protocol, offset, src, dst, data.len(), id)),
        ip_payload(
            ip_datagram_spec(protocol, offset, src, dst, data, id),
            ip_header_built(protocol, offset, src, dst, data.len(), id),
        ) == data,
        ip_hlen(ip_header_built(protocol, offset, src, dst, data.len(), id)) == SIZE_OF_IP_HEADER,
        ip_header_built(protocol, offset, src, dst, data.len(), id).total == SIZE_OF_IP_HEADER
            + data.len(),
{
    let h = ip_header_built(protocol, offset, src, dst, data.len(), id);
    let hb = ip_header_bytes(h);
    let p = hb + data;
    lemma_parse_ip_header_bytes(h);
    assert forall|k: int| 0 <= k < 20 implies p[k] == hb[k] by {}
    assert(parse_ip_header(p) == parse_ip_header(hb));
    assert(((0x45u8 >> 4u8) == 4u8) && ((0x45u8 & 0x0fu8) == 5u8)) by (bit_vector);
    assert(((offset & 0x2000u16) == 0u16) && ((offset & 0x1fffu16) == 0u16)) by (bit_vector)
        requires
            offset & 0x3fff == 0,
    ;
    lemma_ip_header_built_checksum(protocol, offset, src, dst, data.len(), id);
    assert(p.take(20) =~= hb);
    assert(ip_payload(p, h) =~= data);
}

/// What the IP layer sends, it accepts: a datagram with a header built by `IpHeader::new` and a
/// payload that is not empty passes every check of a receiver, which reads back the header, with
/// its header length within its total length, and the payload.
pub proof fn lemma_ip_packet_accepted(protocol: IpUpperProtocol, src: IpAddr, dst: IpAddr, data: Seq<u8>, id: u16)
    requires
        0 < data.len(),
        SIZE_OF_IP_HEADER + data.len() <= 0xffff,
    ensures
        ip_input_spec(ip_packet_spec(protocol, src, dst, data, id)) == Ok::<IpHeader, NetProtocolError>(
            ip_header_built(protocol, 0, src, dst, data.len(), id),
        ),
        ip_payload(
            ip_packet_spec(protocol, src, dst, data, id),
            ip_header_built(protocol, 0, src, dst, data.len(), id),
        ) == data,
        ip_hlen(ip_header_built(protocol, 0, src, dst, data.len(), id)) == SIZE_OF_IP_HEADER,
        ip_header_built(protocol, 0, src, dst, data.len(), id).total == SIZE_OF_IP_HEADER + data.len(),
{
    assert(0u16 & 0x3fffu16 == 0u16) by (bit_vector);
    lemma_unfragmented_datagram_accepted(protocol, 0, src, dst, data, id);
}

/// A ping is answered: an echo request addressed to the first interface of a device, on a stack
/// that handles ICMP, is answered with an echo reply from that interface's address to the
/// sender, with the request's code, identifier and sequence number, and data.
pub proof fn lemma_echo_request_answered(
    uppers: Seq<IpUpperProtocolHandler>,
    ifaces: Seq<NetIface>,
    iface: IpIface,
    code: IcmpCode,
    val: Seq<u8>,
    data: Seq<u8>,
    src: IpAddr,
    id: u16,
)
    requires
        has_upper_handler(uppers, ip_upper_protocol_number(IpUpperProtocol::Icmp)),
        ifaces.len() > 0,
        ifaces[0] == NetIface::Ip(iface),
        val.len() == 4,
        SIZE_OF_IP_HEADER + SIZE_OF_ICMP_HEADER + data.len() <= 0xffff,
    ensures
        ip_reply_spec(
            uppers,
            ip_packet_spec(
                IpUpperProtocol::Icmp,
                src,
                iface.unicast,
                icmp_message_spec(IcmpType::Echo, code, val, data),
                id,
            ),
            ifaces,
        ) == Ok::<Option<(IcmpCode, Seq<u8>, Seq<u8>, IpAddr, IpAddr)>, NetProtocolError>(
            Some((code, val, data, iface.unicast, src)),
        ),
{
    assert(0u16 & 0x3fffu16 == 0u16) by (bit_vector);
    lemma_echo_request_answered_at(uppers, ifaces, iface, code, val, data, src, iface.unicast, 0, id);
}

/// Pings to the interface, to its subnet's broadcast address and to the limited broadcast
/// address are all answered, whatever the Don't-Fragment and reserved flags of the request: an
/// echo request that is not a fragment, addressed to any of these three addresses of the first
/// interface of a device, on a stack that handles ICMP, is answered with an echo reply from the
/// interface's own address to the sender, with the request's code, identifier and sequence
/// number, and data.
pub proof fn lemma_echo_request_answered_at(
    uppers: Seq<IpUpperProtocolHandler>,
    ifaces: Seq<NetIface>,
    iface: IpIface,
    code: IcmpCode,
    val: Seq<u8>,
    data: Seq<u8>,
    src: IpAddr,
    dst: IpAddr,
    offset: u16,
    id: u16,
)
    requires
        has_upper_handler(uppers, ip_upper_protocol_number(IpUpperProtocol::Icmp)),
        ifaces.len() > 0,
        ifaces[0] == NetIface::Ip(iface),
        dst.0 == iface.unicast.0 || dst.0 == iface.broadcast.0 || dst.0 == IP_ADDR_BROADCAST,
        offset & 0x3fff == 0,
        val.len() == 4,
        SIZE_OF_IP_HEADER + SIZE_OF_ICMP_HEADER + data.len() <= 0xffff,
    ensures
        ip_reply_spec(
            uppers,
            ip_datagram_spec(
                IpUpperProtocol::Icmp,
                offset,
                src,
                dst,
                icmp_message_spec(IcmpType::Echo, code, val, data),
                id,
            ),
            ifaces,
        ) == Ok::<Option<(IcmpCode, Seq<u8>, Seq<u8>, IpAddr, IpAddr)>, NetProtocolError>(
            Some((code, val, data, iface.unicast, src)),
        ),
{
    let msg = icmp_message_spec(IcmpType::Echo, code, val, data);
    lemma_echo_request_accepted(code, val, data);
    lemma_carried_message_facts(msg, code, val, data, src, dst, offset, id);
    lemma_reply_to_accepted(
        uppers,
        ip_datagram_spec(IpUpperProtocol::Icmp, offset, src, dst, msg, id),
        ip_header_built(IpUpperProtocol::Icmp, offset, src, dst, msg.len(), id),
        ifaces,
        iface,
        code,
        val,
        data,
        src,
    );
}

/// A datagram carrying an ICMP message `msg` passes the checks, and its header and payload are
/// those that were sent.
proof fn lemma_carried_message_facts(
    msg: Seq<u8>,
    code: IcmpCode,
    val: Seq<u8>,
    data: Seq<u8>,
    src: IpAddr,
    dst: IpAddr,
    offset: u16,
    id: u16,
)
    requires
        offset & 0x3fff == 0,
        0 < msg.len(),
        SIZE_OF_IP_HEADER + msg.len() <= 0xffff,
        icmp_input_spec(msg) == Ok::<Option<IcmpCode>, IcmpError>(Some(code)),
        msg.subrange(4, 8) == val,
        msg.skip(8) == data,
    ensures
        ({
            let h = ip_header_built(IpUpperProtocol::Icmp, offset, src, dst, msg.len(), id);
            let p = ip_datagram_spec(IpUpperProtocol::Icmp, offset, src, dst, msg, id);
            &&& ip_input_spec(p) == Ok::<IpHeader, NetProtocolError>(h)
            &&& h.dst == dst.0
            &&& h.src == src.0
            &&& h.protocol == ip_upper_protocol_number(IpUpperProtocol::Icmp)
            &&& ip_hlen(h) <= h.total
            &&& icmp_input_spec(ip_payload(p, h)) == Ok::<Option<IcmpCode>, IcmpError>(Some(code))
            &&& ip_payload(p, h).subrange(4, 8) == val
            &&& ip_payload(p, h).skip(8) == data
        }),
{
    lemma_unfragmented_datagram_accepted(IpUpperProtocol::Icmp, offset, src, dst, msg, id);
}

/// The reply to a datagram `p` that passes the checks with header `h` and carries an echo
/// request.
proof fn lemma_reply_to_accepted(
    uppers: Seq<IpUpperProtocolHandler>,
    p: Seq<u8>,
    h: IpHeader,
    ifaces: Seq<NetIface>,
    iface: IpIface,
    code: IcmpCode,
    val: Seq<u8>,
    data: Seq<u8>,
    src: IpAddr,
)
    requires
        ip_input_spec(p) == Ok::<IpHeader, NetProtocolError>(h),
        ifaces.len() > 0,
        ifaces[0] == NetIface::Ip(iface),
        h.dst == iface.unicast.0 || h.dst == iface.broadcast.0 || h.dst == IP_ADDR_BROADCAST,
        h.src == src.0,
        ip_hlen(h) <= h.total,
        has_upper_handler(uppers, h.protocol),
        icmp_input_spec(ip_payload(p, h)) == Ok::<Option<IcmpCode>, IcmpError>(Some(code)),
        ip_payload(p, h).subrange(4, 8) == val,
        ip_payload(p, h).skip(8) == data,
    ensures
        ip_reply_spec(uppers, p, ifaces) == Ok::<
            Option<(IcmpCode, Seq<u8>, Seq<u8>, IpAddr, IpAddr)>,
            NetProtocolError,
        >(Some((code, val, data, iface.unicast, src))),
{
}

/// The broadcast address of a subnet, as `IpAddr::broadcast` computes it, lies in the subnet of
/// the address it was computed from, has every host bit set, and is its own broadcast address.
pub proof fn lemma_subnet_broadcast_address(unicast: IpAddr, netmask: IpAddr)
    ensures
        ({
            let b = (unicast.0 & netmask.0) | !netmask.0;
            &&& (b & netmask.0) == (unicast.0 & netmask.0)
            &&& (b | netmask.0) == 0xffff_ffffu32
            &&& ((b & netmask.0) | !netmask.0) == b
        }),
{
    let u = unicast.0;
    let m = netmask.0;
    assert((((u & m) | !m) & m) == (u & m)) by (bit_vector);
    assert((((u & m) | !m) | m) == 0xffff_ffffu32) by (bit_vector);
    assert((((((u & m) | !m) & m) | !m)) == ((u & m) | !m)) by (bit_vector);
}

} // verus!
