use microps_rs::interfaces::{IpIface, NetIface};
use microps_rs::protocols::arp::{ArpOp, ArpProtocol, ArpProtocolError};
use microps_rs::protocols::checksum::cksum16_from_bytes;
use microps_rs::protocols::icmp::{
    icmp_message, IcmpCode, IcmpError, IcmpHeader, IcmpProtocol, IcmpType,
};
use microps_rs::protocols::ip::{
    IpAddr, IpHeader, IpProtocol, IpUpperProtocol, IpUpperProtocolHandler, IP_ADDR_LOOPBACK,
    IP_ADDR_LOOPBACK_NETMASK,
};
use microps_rs::protocols::{IpProtocolError, NetProtocolError, NetProtocolType};

const ECHO_DATAGRAM: [u8; 48] = [
    0x45, 0x00, 0x00, 0x30, 0x00, 0x80, 0x00, 0x00, 0xff, 0x01, 0xbd, 0x4a, 0x7f, 0x00, 0x00, 0x01,
    0x7f, 0x00, 0x00, 0x01, 0x08, 0x00, 0x35, 0x64, 0x00, 0x80, 0x00, 0x01, 0x31, 0x32, 0x33, 0x34,
    0x35, 0x36, 0x37, 0x38, 0x39, 0x30, 0x21, 0x40, 0x23, 0x24, 0x25, 0x5e, 0x26, 0x2a, 0x28, 0x29,
];

fn loopback_ifaces() -> Vec<NetIface> {
    vec![NetIface::Ip(IpIface::new(
        IpAddr(IP_ADDR_LOOPBACK),
        IpAddr(IP_ADDR_LOOPBACK_NETMASK),
    ))]
}

fn ip_with_icmp() -> IpProtocol {
    let mut ip = IpProtocol::new();
    assert!(ip.register_protocol(IpUpperProtocolHandler::Icmp(IcmpProtocol)).is_ok());
    ip
}

#[test]
fn checksum_of_a_valid_header_is_zero() {
    assert_eq!(cksum16_from_bytes(&ECHO_DATAGRAM[..20], 0), 0);
    assert_eq!(cksum16_from_bytes(&ECHO_DATAGRAM[20..], 0), 0);
}

#[test]
fn checksum_of_a_header_with_zero_sum_field() {
    let mut hdr = ECHO_DATAGRAM[..20].to_vec();
    hdr[10] = 0;
    hdr[11] = 0;
    assert_eq!(cksum16_from_bytes(&hdr, 0), 0xbd4a);
}

#[test]
fn checksum_adds_a_trailing_odd_byte() {
    assert_eq!(cksum16_from_bytes(&[0x01, 0x02, 0x03], 0), 0xfefa);
    assert_eq!(cksum16_from_bytes(&[], 0), 0xffff);
}

#[test]
fn checksum_folds_the_carries() {
    assert_eq!(cksum16_from_bytes(&[0xff, 0xff, 0x00, 0x01], 0), 0xfffe);
    assert_eq!(cksum16_from_bytes(&[0x00, 0x01], 0x10000), 0xfffd);
}

#[test]
fn header_is_read_in_host_order() {
    let hdr = IpHeader::from_bytes(&ECHO_DATAGRAM);
    assert_eq!(hdr.version(), 4);
    assert_eq!(hdr.hlen(), 20);
    assert_eq!(hdr.total(), 48);
    assert_eq!(hdr.id(), 0x80);
    assert!(!hdr.more_fragments());
    assert!(!hdr.dont_fragment());
    assert_eq!(hdr.offset(), 0);
    assert_eq!(hdr.sum(), 0xbd4a);
    assert_eq!(hdr.src(), IpAddr(0x7f000001));
    assert_eq!(hdr.dst(), IpAddr(0x7f000001));
    assert_eq!(hdr.protocol, 1);
    assert_eq!(hdr.ttl, 0xff);
}

#[test]
fn header_bytes_round_trip() {
    let hdr = IpHeader::from_bytes(&ECHO_DATAGRAM);
    assert_eq!(hdr.to_bytes(), ECHO_DATAGRAM[..20].to_vec());
}

#[test]
fn built_header_matches_the_wire() {
    let src = IpAddr(IP_ADDR_LOOPBACK);
    let dst = IpAddr(IP_ADDR_LOOPBACK);
    let hdr = IpHeader::new_with_id(IpUpperProtocol::Icmp, 0, &src, &dst, 28, 0x80);
    assert_eq!(hdr.to_bytes(), ECHO_DATAGRAM[..20].to_vec());
    assert_eq!(cksum16_from_bytes(&hdr.to_bytes(), 0), 0);
}

#[test]
fn built_header_with_random_id_checks_out() {
    let src = IpAddr::from_octets([192, 0, 2, 2]);
    let dst = IpAddr::from_octets([192, 0, 2, 1]);
    let hdr = IpHeader::new(IpUpperProtocol::Udp, 0, &src, &dst, &[1, 2, 3]);
    assert_eq!(hdr.total(), 23);
    assert_eq!(hdr.protocol, 17);
    assert_eq!(cksum16_from_bytes(&hdr.to_bytes(), 0), 0);
}

#[test]
fn address_helpers() {
    let a = IpAddr::from_octets([192, 0, 2, 2]);
    assert_eq!(a, IpAddr(0xc0000202));
    let mask = IpAddr::from_octets([255, 255, 255, 0]);
    assert_eq!(IpAddr::broadcast(a, mask), IpAddr(0xc00002ff));
    assert!(a.is_same_subnet(&IpAddr::from_octets([192, 0, 2, 200]), &mask));
    assert!(!a.is_same_subnet(&IpAddr::from_octets([192, 0, 3, 2]), &mask));
    assert_eq!(IpAddr::from(7u32), IpAddr(7));
}

#[test]
fn echo_request_is_answered() {
    let ip = ip_with_icmp();
    let res = ip.handle(&ECHO_DATAGRAM, &loopback_ifaces());
    match res {
        Ok(Some(out)) => {
            assert_eq!(out.typ, IcmpType::EchoReply);
            assert_eq!(out.code, IcmpCode::NetUnreach);
            assert_eq!(out.val, [0x00, 0x80, 0x00, 0x01]);
            assert_eq!(out.data, ECHO_DATAGRAM[28..].to_vec());
            assert_eq!(out.src, IpAddr(IP_ADDR_LOOPBACK));
            assert_eq!(out.dst, IpAddr(IP_ADDR_LOOPBACK));
        }
        other => panic!("unexpected {:?}", other),
    }
}

#[test]
fn datagram_without_interface_is_dropped() {
    let ip = ip_with_icmp();
    assert!(matches!(ip.handle(&ECHO_DATAGRAM, &Vec::new()), Ok(None)));
}

#[test]
fn datagram_for_another_host_is_dropped() {
    let ip = ip_with_icmp();
    let ifaces = vec![NetIface::Ip(IpIface::new(
        IpAddr::from_octets([192, 0, 2, 2]),
        IpAddr::from_octets([255, 255, 255, 0]),
    ))];
    assert!(matches!(ip.handle(&ECHO_DATAGRAM, &ifaces), Ok(None)));
}

#[test]
fn datagram_without_handler_is_dropped() {
    let ip = IpProtocol::new();
    assert!(matches!(ip.handle(&ECHO_DATAGRAM, &loopback_ifaces()), Ok(None)));
}

#[test]
fn short_datagram_is_refused() {
    let ip = ip_with_icmp();
    assert!(matches!(
        ip.handle(&ECHO_DATAGRAM[..20], &loopback_ifaces()),
        Err(NetProtocolError::TooShortPacket { len: 20 })
    ));
}

#[test]
fn truncated_datagram_is_refused() {
    let ip = ip_with_icmp();
    assert!(matches!(
        ip.handle(&ECHO_DATAGRAM[..40], &loopback_ifaces()),
        Err(NetProtocolError::TooShortPacket { len: 40 })
    ));
}

#[test]
fn other_version_is_refused() {
    let ip = ip_with_icmp();
    let mut d = ECHO_DATAGRAM;
    d[0] = 0x65;
    assert!(matches!(
        ip.handle(&d, &loopback_ifaces()),
        Err(NetProtocolError::UnsurpportedIpVersion { version: 6 })
    ));
}

#[test]
fn broken_header_checksum_is_refused() {
    let ip = ip_with_icmp();
    let mut d = ECHO_DATAGRAM;
    d[8] = 0x40;
    assert!(matches!(
        ip.handle(&d, &loopback_ifaces()),
        Err(NetProtocolError::BrokenCheckSum)
    ));
}

#[test]
fn fragment_is_refused() {
    let ip = ip_with_icmp();
    let mut d = ECHO_DATAGRAM;
    // set the more fragments flag and fix the checksum
    d[6] = 0x20;
    d[10] = 0;
    d[11] = 0;
    let sum = cksum16_from_bytes(&d[..20], 0);
    d[10] = (sum >> 8) as u8;
    d[11] = (sum & 0xff) as u8;
    assert!(matches!(
        ip.handle(&d, &loopback_ifaces()),
        Err(NetProtocolError::FragmentUnsurpported)
    ));
}

#[test]
fn header_longer_than_datagram_is_malformed() {
    let ip = ip_with_icmp();
    let mut d = ECHO_DATAGRAM[..24].to_vec();
    d[0] = 0x4f;
    assert!(matches!(
        ip.handle(&d, &loopback_ifaces()),
        Err(NetProtocolError::MalformedHeader)
    ));
}

#[test]
fn broken_icmp_checksum_is_refused() {
    let ip = ip_with_icmp();
    let mut d = ECHO_DATAGRAM;
    d[47] = 0;
    assert!(matches!(
        ip.handle(&d, &loopback_ifaces()),
        Err(NetProtocolError::IpProtocolError {
            error: IpProtocolError::IcmpError { error: IcmpError::BrokenCheckSum }
        })
    ));
}

#[test]
fn duplicated_upper_protocol_is_refused() {
    let mut ip = ip_with_icmp();
    assert!(matches!(
        ip.register_protocol(IpUpperProtocolHandler::Icmp(IcmpProtocol)),
        Err(IpProtocolError::DuplicatedProtocol { protocol: 1 })
    ));
    assert!(ip.upper_handler(1).is_some());
    assert!(ip.upper_handler(6).is_none());
}

#[test]
fn icmp_message_carries_its_checksum() {
    let msg = icmp_message(IcmpType::EchoReply, IcmpCode::NetUnreach, [0x00, 0x80, 0x00, 0x01], &ECHO_DATAGRAM[28..]);
    assert_eq!(msg.len(), 28);
    assert_eq!(msg[0], 0);
    assert_eq!(msg[1], 0);
    assert_eq!(msg[2], 0x3d);
    assert_eq!(msg[3], 0x64);
    assert_eq!(cksum16_from_bytes(&msg, 0), 0);
}

#[test]
fn echo_reply_is_not_answered() {
    let icmp = IcmpProtocol;
    let msg = icmp_message(IcmpType::EchoReply, IcmpCode::NetUnreach, [1, 2, 3, 4], b"pong");
    let hdr = IpHeader::from_bytes(&ECHO_DATAGRAM);
    assert!(matches!(icmp.reply_to(&hdr, &msg, IpAddr(IP_ADDR_LOOPBACK)), Ok(None)));
}

#[test]
fn short_icmp_message_is_refused() {
    let icmp = IcmpProtocol;
    let hdr = IpHeader::from_bytes(&ECHO_DATAGRAM);
    assert!(matches!(
        icmp.reply_to(&hdr, &[8, 0, 0, 0], IpAddr(IP_ADDR_LOOPBACK)),
        Err(IpProtocolError::IcmpError { error: IcmpError::TooShortPacket { len: 4 } })
    ));
}

#[test]
fn unknown_icmp_type_is_refused() {
    let icmp = IcmpProtocol;
    let hdr = IpHeader::from_bytes(&ECHO_DATAGRAM);
    let mut msg = vec![7u8, 0, 0, 0, 0, 0, 0, 0];
    let sum = cksum16_from_bytes(&msg, 0);
    msg[2] = (sum >> 8) as u8;
    msg[3] = (sum & 0xff) as u8;
    assert!(matches!(
        icmp.reply_to(&hdr, &msg, IpAddr(IP_ADDR_LOOPBACK)),
        Err(IpProtocolError::IcmpError { error: IcmpError::UnsurpportedType { typ: 7 } })
    ));
}

#[test]
fn unknown_icmp_code_of_echo_is_refused() {
    let icmp = IcmpProtocol;
    let hdr = IpHeader::from_bytes(&ECHO_DATAGRAM);
    let mut msg = vec![8u8, 9, 0, 0, 0, 0, 0, 0];
    let sum = cksum16_from_bytes(&msg, 0);
    msg[2] = (sum >> 8) as u8;
    msg[3] = (sum & 0xff) as u8;
    assert!(matches!(
        icmp.reply_to(&hdr, &msg, IpAddr(IP_ADDR_LOOPBACK)),
        Err(IpProtocolError::IcmpError { error: IcmpError::UnsurpportedCode { code: 9 } })
    ));
}

#[test]
fn icmp_numbers_convert() {
    assert_eq!(IcmpType::try_from(8u8), Ok(IcmpType::Echo));
    assert_eq!(IcmpType::try_from(16u8), Ok(IcmpType::InfoReply));
    assert_eq!(IcmpType::try_from(1u8), Err(IcmpError::UnsurpportedType { typ: 1 }));
    assert_eq!(IcmpCode::try_from(3u8), Ok(IcmpCode::PortUnreach));
    assert_eq!(IcmpCode::try_from(6u8), Err(IcmpError::UnsurpportedCode { code: 6 }));
    assert_eq!(IcmpType::Timestamp.number(), 13);
    assert_eq!(IcmpCode::SourceRouteFailed.number(), 5);
}

#[test]
fn protocol_type_numbers_convert() {
    assert!(matches!(NetProtocolType::try_from(0x0800u16), Ok(NetProtocolType::Ip)));
    assert!(matches!(NetProtocolType::try_from(0x0806u16), Ok(NetProtocolType::Arp)));
    assert!(matches!(NetProtocolType::try_from(0x86ddu16), Ok(NetProtocolType::IpV6)));
    assert!(matches!(
        NetProtocolType::try_from(0x1234u16),
        Err(NetProtocolError::UnsurpportedProtocol { proto: 0x1234 })
    ));
}

fn arp_request(tpa: [u8; 4]) -> Vec<u8> {
    let mut m = vec![0x00, 0x01, 0x08, 0x00, 6, 4, 0x00, 0x01];
    m.extend_from_slice(&[0x02, 0, 0, 0, 0, 1]);
    m.extend_from_slice(&[192, 0, 2, 1]);
    m.extend_from_slice(&[0, 0, 0, 0, 0, 0]);
    m.extend_from_slice(&tpa);
    m
}

fn tap_ifaces() -> Vec<NetIface> {
    vec![NetIface::Ip(IpIface::new(
        IpAddr::from_octets([192, 0, 2, 2]),
        IpAddr::from_octets([255, 255, 255, 0]),
    ))]
}

#[test]
fn arp_request_for_an_interface_is_recognised() {
    let arp = ArpProtocol::new();
    match arp.handle(&arp_request([192, 0, 2, 2]), &tap_ifaces()) {
        Ok(Some((op, iface))) => {
            assert_eq!(op, ArpOp::Request);
            assert_eq!(*iface.unicast(), IpAddr::from_octets([192, 0, 2, 2]));
        }
        other => panic!("unexpected {:?}", other),
    }
}

#[test]
fn arp_request_for_another_host_is_ignored() {
    let arp = ArpProtocol::new();
    assert!(matches!(arp.handle(&arp_request([192, 0, 2, 9]), &tap_ifaces()), Ok(None)));
}

#[test]
fn arp_errors() {
    let arp = ArpProtocol::new();
    assert_eq!(
        arp.handle(&arp_request([192, 0, 2, 2])[..27], &tap_ifaces()).unwrap_err(),
        ArpProtocolError::TooShortPacket { len: 27 }
    );
    let mut m = arp_request([192, 0, 2, 2]);
    m[1] = 6;
    assert_eq!(
        arp.handle(&m, &tap_ifaces()).unwrap_err(),
        ArpProtocolError::UnsurpportedHardwareAddress { hrd: 6 }
    );
    let mut m = arp_request([192, 0, 2, 2]);
    m[5] = 16;
    assert_eq!(
        arp.handle(&m, &tap_ifaces()).unwrap_err(),
        ArpProtocolError::UnsurpportedProtocolAddress { pro: 0x0800 }
    );
    let mut m = arp_request([192, 0, 2, 2]);
    m[7] = 3;
    assert_eq!(
        arp.handle(&m, &tap_ifaces()).unwrap_err(),
        ArpProtocolError::UnsurpportedOperation { op: 3 }
    );
}

fn datagram_with_header_beyond_total() -> Vec<u8> {
    let mut d = ECHO_DATAGRAM.to_vec();
    d[0] = 0x46;
    d[2] = 0;
    d[3] = 21;
    d[10] = 0;
    d[11] = 0;
    let sum = cksum16_from_bytes(&d[..24], 0);
    d[10] = (sum >> 8) as u8;
    d[11] = (sum & 0xff) as u8;
    d
}

#[test]
fn header_beyond_total_length_is_malformed_for_an_interface() {
    let ip = ip_with_icmp();
    assert!(matches!(
        ip.handle(&datagram_with_header_beyond_total(), &loopback_ifaces()),
        Err(NetProtocolError::MalformedHeader)
    ));
}

#[test]
fn header_beyond_total_length_is_dropped_without_interface() {
    let ip = ip_with_icmp();
    assert!(matches!(ip.handle(&datagram_with_header_beyond_total(), &Vec::new()), Ok(None)));
}

#[test]
fn header_text() {
    let hdr = IpHeader::from_bytes(&ECHO_DATAGRAM);
    assert_eq!(
        hdr.to_string(),
        "IpHeader{\n    version: 4,\n    hlen: 20 (bytes),\n    tos: 0,\n    total: 48 (bytes),\n    id: 128,\n    flags: DF: false, MF: false,\n    offset: 0 (bytes),\n    ttl: 255,\n    protocol: 1,\n    sum: 0xbd4a,\n    src: 127.0.0.1,\n    dst: 127.0.0.1,\n}"
    );
}

#[test]
fn icmp_header_text() {
    let hdr = IcmpHeader::from_bytes(&ECHO_DATAGRAM[20..]);
    assert_eq!(
        hdr.to_string(),
        "IcmpHeader{\n    typ: Ok(Echo),\n    code: Ok(NetUnreach),\n    sum: 13668,\n    dep: [0, 128, 0, 1]\n}"
    );
    let bad = IcmpHeader::from_bytes(&[7, 9, 0, 0, 1, 2, 3, 4]);
    assert_eq!(
        bad.to_string(),
        "IcmpHeader{\n    typ: Err(UnsurpportedType { typ: 7 }),\n    code: Err(UnsurpportedCode { code: 9 }),\n    sum: 0,\n    dep: [1, 2, 3, 4]\n}"
    );
}

#[test]
fn subnet_broadcast_address_is_its_own() {
    let u = IpAddr(0xc000_0202);
    let m = IpAddr(0xffff_ff00);
    let b = IpAddr::broadcast(u, m);
    assert_eq!(b, IpAddr(0xc000_02ff));
    assert!(b.is_same_subnet(&u, &m));
    assert_eq!(b.0 | m.0, u32::MAX);
    assert_eq!(IpAddr::broadcast(b, m), b);
}
