use microps_rs::devices::ethernet::EthernetAddr;
use microps_rs::devices::{DeviceId, NetDeviceAddr, NetDeviceError};
use microps_rs::interfaces::{IpIface, NetIface};
use microps_rs::net::context::{FrameInputError, ProtocolStackContext};
use microps_rs::net::name::device_name;
use microps_rs::net::{AppError, NetProtocolKind, OpenAction, ProtocolStackApp};
use microps_rs::protocols::arp::ArpOp;
use microps_rs::protocols::checksum::cksum16_from_bytes;
use microps_rs::protocols::icmp::{icmp_message, IcmpCode, IcmpType};
use microps_rs::protocols::ip::{
    IpAddr, IpHeader, IpUpperProtocol, IP_ADDR_ANY, IP_ADDR_BROADCAST, IP_ADDR_LOOPBACK,
};
use microps_rs::protocols::{IpProtocolError, NetProtocolError, NetProtocolOutputError, NetProtocolType};

fn mock_app() -> ProtocolStackApp {
    ProtocolStackApp::new().unwrap().setup_mock().unwrap()
}

fn loopback() -> IpAddr {
    IpAddr(IP_ADDR_LOOPBACK)
}

fn tap_addr() -> IpAddr {
    IpAddr::from_octets([192, 0, 2, 2])
}

fn peer_addr() -> IpAddr {
    IpAddr::from_octets([192, 0, 2, 1])
}

fn ctx_with_open_tap() -> ProtocolStackContext {
    let mut ctx = ProtocolStackContext::new(mock_app());
    assert!(matches!(ctx.open_device(1), Ok(OpenAction::DriverOpenRequired)));
    ctx.tap_opened(1, 7, [0x02, 0, 0, 0, 0, 1]);
    assert!(ctx.complete_open_device(1, Ok(())).is_ok());
    ctx
}

fn echo_datagram(src: IpAddr, dst: IpAddr, data: &[u8]) -> Vec<u8> {
    let msg = icmp_message(IcmpType::Echo, IcmpCode::NetUnreach, [0, 1, 0, 1], data);
    let mut packet = IpHeader::new_with_id(IpUpperProtocol::Icmp, 0, &src, &dst, msg.len(), 9).to_bytes();
    packet.extend_from_slice(&msg);
    packet
}

#[test]
fn device_names_follow_their_index() {
    assert_eq!(device_name(0), "net0");
    assert_eq!(device_name(7), "net7");
    assert_eq!(device_name(12), "net12");
    assert_ne!(device_name(1), device_name(10));
}

#[test]
fn mock_stack_has_two_devices_and_two_protocols() {
    let app = mock_app();
    assert_eq!(app.device_count(), 2);
    assert_eq!(app.device(0).name(), "net0");
    assert_eq!(app.device(1).name(), "net1");
    assert!(!app.device(0).is_open());
    assert_eq!(app.protocols().len(), 2);
    assert!(matches!(app.protocols()[0], NetProtocolKind::Ip(_)));
    assert!(matches!(app.protocols()[1], NetProtocolKind::Arp(_)));
    let ifaces = app.device(1).state().ifaces();
    assert_eq!(ifaces.len(), 1);
    match ifaces[0] {
        NetIface::Ip(ip) => {
            assert_eq!(*ip.unicast(), tap_addr());
            assert_eq!(*ip.netmask(), IpAddr::from_octets([255, 255, 255, 0]));
            assert_eq!(*ip.broadcast(), IpAddr::from_octets([192, 0, 2, 255]));
            assert_eq!(ip.dev(), Some(DeviceId(1)));
        }
    }
}

#[test]
fn iface_registration_errors() {
    let mut app = mock_app();
    let iface = NetIface::Ip(IpIface::new(IpAddr::from_octets([10, 0, 0, 1]), IpAddr::from_octets([255, 0, 0, 0])));
    match app.register_net_iface_on_device(iface, "net0") {
        Err(AppError::DuplicatedIfaceFamily { dev, .. }) => assert_eq!(dev, "net0"),
        other => panic!("unexpected {:?}", other),
    }
    match app.register_net_iface_on_device(iface, "net2") {
        Err(AppError::DeviceNotFound { dev }) => assert_eq!(dev, "net2"),
        other => panic!("unexpected {:?}", other),
    }
}

#[test]
fn opening_and_closing_devices() {
    let mut ctx = ProtocolStackContext::new(mock_app());
    assert!(matches!(ctx.open_device(0), Ok(OpenAction::Opened)));
    match ctx.open_device(0) {
        Err(AppError::DeviceAlreadyOpened { name }) => assert_eq!(name, "net0"),
        other => panic!("unexpected {:?}", other),
    }
    assert!(matches!(ctx.open_device(1), Ok(OpenAction::DriverOpenRequired)));
    assert!(!ctx.app().device(1).is_open());
    assert!(matches!(
        ctx.complete_open_device(1, Err(NetDeviceError::EtherTapOpenFailed)),
        Err(AppError::DeviceError { error: NetDeviceError::EtherTapOpenFailed })
    ));
    assert!(!ctx.app().device(1).is_open());
    match ctx.close_devices() {
        Err(AppError::DeviceAlreadyClosed { name }) => assert_eq!(name, "net1"),
        other => panic!("unexpected {:?}", other),
    }
    assert!(!ctx.app().device(0).is_open());
}

#[test]
fn closing_all_open_devices() {
    let mut ctx = ctx_with_open_tap();
    assert!(ctx.open_device(0).is_ok());
    assert!(ctx.close_devices().is_ok());
    assert!(!ctx.app().device(0).is_open());
    assert!(!ctx.app().device(1).is_open());
    match ctx.close_devices() {
        Err(AppError::DeviceAlreadyClosed { name }) => assert_eq!(name, "net0"),
        other => panic!("unexpected {:?}", other),
    }
}

#[test]
fn ping_over_loopback_is_answered() {
    let mut ctx = ProtocolStackContext::new(mock_app());
    assert!(ctx.open_device(0).is_ok());
    ctx.icmp_output(IcmpType::Echo, IcmpCode::NetUnreach, [0, 1, 0, 1], b"ping", loopback(), loopback())
        .unwrap();
    assert_eq!(ctx.take_rx_irq(), Some(DeviceId(0)));
    let (_, request, typ) = ctx.app().device_rx_next(0).unwrap();
    assert_eq!(typ, NetProtocolType::Ip);
    assert_eq!(request.len(), 32);
    assert_eq!(request[20], 8);
    assert!(ctx.handle_rx_irq(DeviceId(0)).is_ok());
    assert_eq!(ctx.take_rx_irq(), Some(DeviceId(0)));
    let (_, reply, _) = ctx.app().device_rx_next(0).unwrap();
    assert_eq!(reply.len(), 32);
    assert_eq!(cksum16_from_bytes(&reply[..20], 0), 0);
    assert_eq!(&reply[12..16], &[127, 0, 0, 1]);
    assert_eq!(&reply[16..20], &[127, 0, 0, 1]);
    assert_eq!(reply[20], 0);
    assert_eq!(cksum16_from_bytes(&reply[20..], 0), 0);
    assert_eq!(&reply[24..28], &[0, 1, 0, 1]);
    assert_eq!(&reply[28..], b"ping");
    assert!(ctx.handle_rx_irq(DeviceId(0)).is_ok());
    assert_eq!(ctx.take_rx_irq(), None);
    assert!(ctx.app().device_rx_next(0).is_none());
}

#[test]
fn rx_irq_without_packet_does_nothing() {
    let mut ctx = ProtocolStackContext::new(mock_app());
    assert!(ctx.handle_rx_irq(DeviceId(0)).is_ok());
    assert!(ctx.request_rx_irq(DeviceId(1)).is_ok());
    assert_eq!(ctx.take_rx_irq(), Some(DeviceId(1)));
    assert!(ctx.handle_rx_irq(DeviceId(1)).is_ok());
    assert_eq!(ctx.take_rx_irq(), None);
}

#[test]
fn ip_output_errors() {
    let mut ctx = ctx_with_open_tap();
    assert!(matches!(
        ctx.ip_output(IpUpperProtocol::Icmp, b"x", IpAddr(IP_ADDR_ANY), loopback()),
        Err(NetProtocolOutputError::RoutingUnimplemented)
    ));
    assert!(matches!(
        ctx.ip_output(IpUpperProtocol::Icmp, b"x", IpAddr::from_octets([10, 0, 0, 1]), loopback()),
        Err(NetProtocolOutputError::DeviceNotFound { src: 0x0a000001 })
    ));
    assert!(matches!(
        ctx.ip_output(IpUpperProtocol::Icmp, b"x", loopback(), peer_addr()),
        Err(NetProtocolOutputError::Unreachable { dst: 0xc0000201 })
    ));
    let long = vec![0u8; 1481];
    assert!(matches!(
        ctx.ip_output(IpUpperProtocol::Udp, &long, tap_addr(), peer_addr()),
        Err(NetProtocolOutputError::LongerThanMtu { mtu: 1500, len: 1501 })
    ));
    match ctx.ip_output(IpUpperProtocol::Icmp, b"x", loopback(), loopback()) {
        Err(NetProtocolOutputError::DeviceError { error }) => match *error {
            AppError::DeviceAlreadyClosed { name } => assert_eq!(name, "net0"),
            other => panic!("unexpected {:?}", other),
        },
        other => panic!("unexpected {:?}", other),
    }
}

#[test]
fn ip_output_on_tap_needs_address_resolution_for_a_unicast_destination() {
    let mut ctx = ctx_with_open_tap();
    match ctx.ip_output(IpUpperProtocol::Icmp, b"x", tap_addr(), peer_addr()) {
        Err(NetProtocolOutputError::DeviceError { error }) => {
            assert!(matches!(*error, AppError::DeviceError { error: NetDeviceError::UnresolvedAddress }))
        }
        other => panic!("unexpected {:?}", other),
    }
    assert!(ctx.take_tx_frame().is_none());
}

#[test]
fn ip_broadcast_on_tap_goes_out_in_a_broadcast_frame() {
    let mut ctx = ctx_with_open_tap();
    ctx.ip_output_with_id(IpUpperProtocol::Udp, &[1, 2, 3], tap_addr(), IpAddr(IP_ADDR_BROADCAST), 7)
        .unwrap();
    let t = ctx.take_tx_frame().unwrap();
    assert_eq!(t.dev, DeviceId(1));
    assert_eq!(t.frame.len(), 60);
    assert_eq!(&t.frame[..6], &[0xff; 6]);
    assert_eq!(&t.frame[6..12], &[0x02, 0, 0, 0, 0, 1]);
    assert_eq!(&t.frame[12..14], &[0x08, 0x00]);
    let hdr = IpHeader::new_with_id(IpUpperProtocol::Udp, 0, &tap_addr(), &IpAddr(IP_ADDR_BROADCAST), 3, 7);
    assert_eq!(&t.frame[14..34], &hdr.to_bytes()[..]);
    assert_eq!(&t.frame[34..37], &[1, 2, 3]);
    ctx.ip_output(IpUpperProtocol::Udp, &[4], tap_addr(), IpAddr::from_octets([192, 0, 2, 255]))
        .unwrap();
    let t = ctx.take_tx_frame().unwrap();
    assert_eq!(&t.frame[..6], &[0xff; 6]);
    assert!(ctx.take_tx_frame().is_none());
}

#[test]
fn ip_output_with_id_queues_the_datagram() {
    let mut ctx = ProtocolStackContext::new(mock_app());
    assert!(ctx.open_device(0).is_ok());
    ctx.ip_output_with_id(IpUpperProtocol::Udp, &[1, 2, 3], loopback(), loopback(), 0x1234).unwrap();
    let (_, d, _) = ctx.app().device_rx_next(0).unwrap();
    let expected = IpHeader::new_with_id(IpUpperProtocol::Udp, 0, &loopback(), &loopback(), 3, 0x1234);
    assert_eq!(&d[..20], &expected.to_bytes()[..]);
    assert_eq!(&d[20..], &[1, 2, 3]);
    assert_eq!(d[4], 0x12);
    assert_eq!(d[5], 0x34);
}

#[test]
fn frames_for_the_tap_driver_are_queued() {
    let mut ctx = ctx_with_open_tap();
    ctx.device_output(1, NetProtocolType::Arp, &[1, 2, 3], NetDeviceAddr::Ethernet(EthernetAddr::broadcast()))
        .unwrap();
    let t = ctx.take_tx_frame().unwrap();
    assert_eq!(t.dev, DeviceId(1));
    assert_eq!(t.frame.len(), 60);
    assert_eq!(&t.frame[6..12], &[0x02, 0, 0, 0, 0, 1]);
    assert!(ctx.take_tx_frame().is_none());
}

#[test]
fn data_longer_than_the_mtu_is_refused_by_the_device() {
    let mut ctx = ctx_with_open_tap();
    let long = vec![0u8; 1501];
    assert!(matches!(
        ctx.device_output(1, NetProtocolType::Ip, &long, NetDeviceAddr::Ethernet(EthernetAddr::broadcast())),
        Err(AppError::DataLongerThanMTU { mtu: 1500, len: 1501 })
    ));
}

#[test]
fn interfaces_are_found_by_address() {
    let ctx = ProtocolStackContext::new(mock_app());
    let lo = ctx.select_ip_iface(&loopback()).unwrap();
    assert_eq!(lo.dev(), Some(DeviceId(0)));
    let tap = ctx.select_ip_iface(&tap_addr()).unwrap();
    assert_eq!(tap.dev(), Some(DeviceId(1)));
    assert!(ctx.select_ip_iface(&peer_addr()).is_none());
    assert!(ctx.arp().is_some());
}

#[test]
fn arp_resolution_is_reported_unimplemented() {
    let mut ctx = ProtocolStackContext::new(mock_app());
    let mut m = vec![0x00, 0x01, 0x08, 0x00, 6, 4, 0x00, 0x02];
    m.extend_from_slice(&[0x02, 0, 0, 0, 0, 9, 192, 0, 2, 1]);
    m.extend_from_slice(&[0, 0, 0, 0, 0, 0, 192, 0, 2, 2]);
    assert!(matches!(
        ctx.input_to_app(DeviceId(1), NetProtocolType::Arp, &m),
        Err(NetProtocolError::ArpResolutionUnimplemented { op: ArpOp::Reply })
    ));
    assert!(ctx.input_to_app(DeviceId(1), NetProtocolType::IpV6, &m).is_ok());
    assert!(ctx.input_to_app(DeviceId(0), NetProtocolType::Arp, &m).is_ok());
}

#[test]
fn echo_request_from_the_tap_is_answered_through_it() {
    let mut ctx = ctx_with_open_tap();
    let mut frame = vec![0xff; 6];
    frame.extend_from_slice(&[0x02, 0, 0, 0, 0, 2, 0x08, 0x00]);
    frame.extend_from_slice(&echo_datagram(peer_addr(), tap_addr(), b"hi"));
    match ctx.ether_tap_input(DeviceId(1), &frame) {
        Err(FrameInputError::Protocol {
            error: NetProtocolError::IpProtocolError {
                error: IpProtocolError::IcmpOutputError { error: NetProtocolOutputError::DeviceError { error } },
            },
        }) => assert!(matches!(*error, AppError::DeviceError { error: NetDeviceError::UnresolvedAddress })),
        other => panic!("unexpected {:?}", other),
    }
}

#[test]
fn tap_frames_for_other_hosts_are_skipped() {
    let mut ctx = ctx_with_open_tap();
    let mut frame = vec![0x02, 0, 0, 0, 0, 5];
    frame.extend_from_slice(&[0x02, 0, 0, 0, 0, 2, 0x08, 0x00]);
    frame.extend_from_slice(&echo_datagram(peer_addr(), tap_addr(), b"hi"));
    assert!(ctx.ether_tap_input(DeviceId(1), &frame).is_ok());
    frame[12] = 0x99;
    assert!(matches!(ctx.ether_tap_input(DeviceId(1), &frame), Err(FrameInputError::Ethernet { .. })));
}
