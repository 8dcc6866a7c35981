use microps_rs::devices::ethernet::{EthernetAddr, EthernetError, EthernetHeader, EthernetType};
use microps_rs::devices::loopback::{LoopbackDevice, LOOPBACK_MTU};
use microps_rs::devices::{
    DeviceId, NetDeviceAddr, NetDeviceError, NetDeviceInner, NetDeviceType, OutputAction,
    NET_DEVICE_FLAG_LOOPBACK, NET_DEVICE_FLAG_UP,
};
use microps_rs::platform::ether_tap::EtherTapDevice;
use microps_rs::protocols::ip::IpAddr;
use microps_rs::protocols::NetProtocolType;

#[test]
fn loopback_device_parameters() {
    let dev = LoopbackDevice::new(DeviceId::new(3));
    let info = dev.info();
    assert_eq!(info.dev_id(), DeviceId(3));
    assert_eq!(info.typ(), NetDeviceType::Loopback);
    assert_eq!(info.mtu(), LOOPBACK_MTU);
    assert_eq!(info.flags(), NET_DEVICE_FLAG_LOOPBACK);
    assert_eq!(info.hlen(), 0);
    assert!(dev.open().is_ok());
    assert!(dev.close().is_ok());
}

#[test]
fn loopback_receives_in_order() {
    let mut dev = LoopbackDevice::new(DeviceId(0));
    assert!(dev.rx_next_clean_buf().is_none());
    assert!(matches!(dev.output(b"first"), Ok(OutputAction::RxIrq { dev: DeviceId(0) })));
    assert!(matches!(dev.output(b"second"), Ok(OutputAction::RxIrq { dev: DeviceId(0) })));
    let desc = {
        let rx = dev.rx_next_clean_buf().unwrap();
        assert_eq!(rx.buf, b"first");
        assert_eq!(rx.typ, NetProtocolType::Ip);
        rx.desc
    };
    dev.rx_free_buf(desc);
    let desc = {
        let rx = dev.rx_next_clean_buf().unwrap();
        assert_eq!(rx.buf, b"second");
        rx.desc
    };
    dev.rx_free_buf(desc);
    assert!(dev.rx_next_clean_buf().is_none());
}

#[test]
fn loopback_drops_when_its_ring_is_full() {
    let mut dev = LoopbackDevice::new(DeviceId(0));
    for k in 0..63u8 {
        assert!(matches!(dev.output(&[k]), Ok(OutputAction::RxIrq { .. })));
    }
    assert!(matches!(dev.output(&[0xff]), Ok(OutputAction::Dropped)));
    let rx = dev.rx_next_clean_buf().unwrap();
    assert_eq!(rx.buf, &[0u8]);
}

#[test]
fn device_flags() {
    let mut inner = NetDeviceInner::new(
        DeviceId(1),
        NetDeviceType::Dummy,
        1500,
        0,
        0,
        NetDeviceAddr::Ip(IpAddr(0)),
        NetDeviceAddr::Ip(IpAddr(0xffffffff)),
    );
    assert!(inner.is_close());
    inner.set_open_flag();
    assert_eq!(inner.flags() & NET_DEVICE_FLAG_UP, 0);
    *inner.flags_mut() = NET_DEVICE_FLAG_UP;
    assert!(inner.is_open());
    inner.set_close_flag();
    assert!(inner.is_close());
}

#[test]
fn ethernet_header_bytes() {
    let hdr = EthernetHeader::new(
        EthernetAddr::broadcast(),
        EthernetAddr::new([0x02, 0, 0, 0, 0, 1]),
        EthernetType::Arp,
    );
    let bytes = hdr.to_bytes();
    assert_eq!(
        bytes,
        vec![0xff, 0xff, 0xff, 0xff, 0xff, 0xff, 0x02, 0, 0, 0, 0, 1, 0x08, 0x06]
    );
    let back = EthernetHeader::from_bytes(&bytes);
    assert_eq!(back.dst().0, [0xff; 6]);
    assert_eq!(back.src().0, [0x02, 0, 0, 0, 0, 1]);
    assert!(matches!(back.typ(), Ok(EthernetType::Arp)));
}

#[test]
fn ethernet_types_convert() {
    assert!(matches!(NetProtocolType::from(EthernetType::Ip), NetProtocolType::Ip));
    assert!(matches!(NetProtocolType::from(EthernetType::IpV6), NetProtocolType::IpV6));
    assert!(matches!(EthernetType::from(NetProtocolType::Arp), EthernetType::Arp));
    assert_eq!(EthernetType::IpV6.number(), 0x86dd);
    let hdr = EthernetHeader::from_bytes(&[0u8, 0, 0, 0, 0, 0, 0, 0, 0, 0, 0, 0, 0x12, 0x34]);
    assert!(matches!(hdr.typ(), Err(EthernetError::UnsurpportedType { typ: 0x1234 })));
}

#[test]
fn ethernet_address_text() {
    assert_eq!(EthernetAddr::new([0x00, 0x00, 0x5e, 0x00, 0x53, 0x01]).to_string(), "00:00:5e:00:53:01");
    assert_eq!(EthernetAddr::broadcast().to_string(), "ff:ff:ff:ff:ff:ff");
    assert!(EthernetAddr::any().equals(&EthernetAddr::new([0; 6])));
    assert!(!EthernetAddr::any().equals(&EthernetAddr::broadcast()));
}

fn opened_tap() -> EtherTapDevice {
    let mut dev = EtherTapDevice::new(DeviceId(1));
    dev.set_tap_file(5);
    dev.learn_hw_addr([0x02, 0, 0, 0, 0, 1]);
    dev
}

#[test]
fn tap_device_parameters() {
    let dev = EtherTapDevice::new(DeviceId(1));
    let info = dev.info();
    assert_eq!(info.typ(), NetDeviceType::Ethernet);
    assert_eq!(info.mtu(), 1500);
    assert_eq!(info.hlen(), 14);
    assert_eq!(dev.tap_file(), -1);
    assert_eq!(dev.hw_addr().0, [0; 6]);
}

#[test]
fn tap_learns_its_address_once() {
    let mut dev = opened_tap();
    assert_eq!(dev.tap_file(), 5);
    assert_eq!(dev.hw_addr().0, [0x02, 0, 0, 0, 0, 1]);
    dev.learn_hw_addr([0x02, 0, 0, 0, 0, 9]);
    assert_eq!(dev.hw_addr().0, [0x02, 0, 0, 0, 0, 1]);
}

#[test]
fn tap_pads_short_frames() {
    let dev = opened_tap();
    let frame = dev
        .output(NetProtocolType::Ip, &[1, 2, 3], NetDeviceAddr::Ethernet(EthernetAddr::broadcast()))
        .unwrap();
    assert_eq!(frame.len(), 60);
    assert_eq!(&frame[..6], &[0xff; 6]);
    assert_eq!(&frame[6..12], &[0x02, 0, 0, 0, 0, 1]);
    assert_eq!(&frame[12..14], &[0x08, 0x00]);
    assert_eq!(&frame[14..17], &[1, 2, 3]);
    assert!(frame[17..].iter().all(|b| *b == 0));
}

#[test]
fn tap_keeps_long_frames() {
    let dev = opened_tap();
    let data = vec![7u8; 1500];
    let frame = dev
        .output(NetProtocolType::Arp, &data, NetDeviceAddr::Ethernet(EthernetAddr::broadcast()))
        .unwrap();
    assert_eq!(frame.len(), 1514);
    assert_eq!(&frame[12..14], &[0x08, 0x06]);
}

#[test]
fn tap_output_errors() {
    let dev = opened_tap();
    let data = vec![7u8; 1501];
    assert!(matches!(
        dev.output(NetProtocolType::Ip, &data, NetDeviceAddr::Ethernet(EthernetAddr::broadcast())),
        Err(NetDeviceError::OutOfPayloadSize { size: 1501 })
    ));
    assert!(matches!(
        dev.output(NetProtocolType::Ip, &[1], NetDeviceAddr::Ip(IpAddr(1))),
        Err(NetDeviceError::UnresolvedAddress)
    ));
}

#[test]
fn tap_input_filters_frames() {
    let dev = opened_tap();
    let mut frame = vec![0x02, 0, 0, 0, 0, 1, 0x02, 0, 0, 0, 0, 2, 0x08, 0x00, 0x45];
    assert!(matches!(dev.input(&frame), Ok(Some(NetProtocolType::Ip))));
    frame[..6].copy_from_slice(&[0xff; 6]);
    assert!(matches!(dev.input(&frame), Ok(Some(NetProtocolType::Ip))));
    frame[..6].copy_from_slice(&[0x02, 0, 0, 0, 0, 3]);
    assert!(matches!(dev.input(&frame), Ok(None)));
    frame[12] = 0x12;
    assert!(matches!(dev.input(&frame), Err(EthernetError::UnsurpportedType { typ: 0x1200 })));
    assert!(matches!(dev.input(&frame[..13]), Ok(None)));
}

#[test]
fn freeing_a_packet_of_a_full_ring_makes_room() {
    let mut dev = LoopbackDevice::new(DeviceId(0));
    for k in 0..63u8 {
        assert!(matches!(dev.output(&[k]), Ok(OutputAction::RxIrq { .. })));
    }
    assert!(matches!(dev.output(&[0xff]), Ok(OutputAction::Dropped)));
    let desc = {
        let rx = dev.rx_next_clean_buf().unwrap();
        assert_eq!(rx.buf, &[0u8]);
        rx.desc
    };
    assert_eq!(desc.value(), 1);
    dev.rx_free_buf(desc);
    assert_eq!(dev.rx_next_clean_buf().unwrap().buf, &[1u8]);
    assert!(matches!(dev.output(&[0xfe]), Ok(OutputAction::RxIrq { .. })));
    assert!(matches!(dev.output(&[0xfd]), Ok(OutputAction::Dropped)));
    for k in 1..63u8 {
        let desc = {
            let rx = dev.rx_next_clean_buf().unwrap();
            assert_eq!(rx.buf, &[k]);
            rx.desc
        };
        dev.rx_free_buf(desc);
    }
    let desc = {
        let rx = dev.rx_next_clean_buf().unwrap();
        assert_eq!(rx.buf, &[0xfe]);
        rx.desc
    };
    dev.rx_free_buf(desc);
    assert!(dev.rx_next_clean_buf().is_none());
    for k in 0..63u8 {
        assert!(matches!(dev.output(&[k]), Ok(OutputAction::RxIrq { .. })));
    }
    assert!(matches!(dev.output(&[0xff]), Ok(OutputAction::Dropped)));
}

#[test]
fn loopback_ring_reuses_freed_buffers() {
    let mut dev = LoopbackDevice::new(DeviceId(0));
    for round in 0..200u32 {
        let byte = (round % 251) as u8;
        assert!(matches!(dev.output(&[byte, 1, 2]), Ok(OutputAction::RxIrq { .. })));
        let desc = {
            let rx = dev.rx_next_clean_buf().unwrap();
            assert_eq!(rx.buf, &[byte, 1, 2]);
            rx.desc
        };
        dev.rx_free_buf(desc);
    }
}
