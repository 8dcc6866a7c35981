use vstd::prelude::*;

use crate::devices::ethernet::{ETHER_HEADER_SIZE, EthernetError, ether_addr_any_bytes};
use crate::devices::{DeviceId, NetDeviceAddr, NetDeviceError, OutputAction};
use crate::platform::ether_tap::ether_input_spec;
use crate::interfaces::{IpIface, NetIface, iface_has_unicast};
use crate::net::{
    AppError, NetDeviceContainer, NetDeviceKind, NetProtocolKind, OpenAction, ProtocolStackApp,
    container_complete_open_spec, container_open_spec, container_output_spec, device_output_spec,
    devices_closed, others_unchanged, rx_slot_freed,
};
use crate::protocols::arp::{ArpProtocol, arp_input_spec};
use crate::protocols::icmp::{
    SIZE_OF_ICMP_HEADER, IcmpCode, IcmpType, icmp_message, icmp_message_spec,
};
use crate::protocols::ip::{
    IP_ADDR_ANY, IP_ADDR_BROADCAST, SIZE_OF_IP_HEADER, IpAddr, IpHeader, IpUpperProtocol,
    ip_header_built, ip_header_bytes, ip_packet_spec, ip_reply_spec, push_slice, random16,
    has_upper_handler, ip_upper_protocol_number, lemma_echo_request_answered,
};
use crate::protocols::{IpProtocolError, NetProtocolError, NetProtocolOutputError, NetProtocolType};

verus! {

/// A frame waiting for the driver of device `dev` to write it.
#[derive(Debug)]
pub struct TxFrame {
    pub dev: DeviceId,
    pub frame: Vec<u8>,
}

/// The interface at position `j` of device `i`.
pub open spec fn iface_at(app: ProtocolStackApp, i: int, j: int) -> NetIface {
    app.devices_spec()[i].ifaces_spec()[j]
}

/// Whether `i`, `j` is the position of an interface.
pub open spec fn is_iface_pos(app: ProtocolStackApp, i: int, j: int) -> bool {
    0 <= i < app.devices_spec().len() && 0 <= j < app.devices_spec()[i].ifaces_spec().len()
}

/// Whether position `i2`, `j2` comes before `i`, `j` in the order devices, then their interfaces.
pub open spec fn pos_before(i2: int, j2: int, i: int, j: int) -> bool {
    i2 < i || (i2 == i && j2 < j)
}

/// Whether `i`, `j` is the first position of an interface with address `addr`.
pub open spec fn is_first_iface_with_unicast(app: ProtocolStackApp, addr: u32, i: int, j: int) -> bool {
    &&& is_iface_pos(app, i, j)
    &&& iface_has_unicast(iface_at(app, i, j), addr)
    &&& forall|i2: int, j2: int|
        #![trigger iface_at(app, i2, j2)]
        is_iface_pos(app, i2, j2) && pos_before(i2, j2, i, j) ==> !iface_has_unicast(
            iface_at(app, i2, j2),
            addr,
        )
}

/// The position of the first interface, over the devices in order, whose address is `addr`.
pub open spec fn first_iface_with_unicast(app: ProtocolStackApp, addr: u32) -> Option<(int, int)> {
    if exists|i: int, j: int| is_first_iface_with_unicast(app, addr, i, j) {
        Some(choose|i: int, j: int| is_first_iface_with_unicast(app, addr, i, j))
    } else {
        None
    }
}

/// The IPv4 interface at a position.
pub open spec fn ip_iface_at(app: ProtocolStackApp, i: int, j: int) -> IpIface {
    match iface_at(app, i, j) {
        NetIface::Ip(ip) => ip,
    }
}

/// The state of a running protocol stack: the stack, the receive interrupts requested and not
/// yet handled, and the frames waiting for their driver.
pub struct ProtocolStackContext {
    app: ProtocolStackApp,
    rx_irqs: Vec<DeviceId>,
    tx_frames: Vec<TxFrame>,
}

/// What sending through device `i` does to the context: the device's output, then the receive
/// interrupt it asks for is queued, or the frame it built is queued for its driver.
pub open spec fn ctx_device_output_spec(
    old: ProtocolStackContext,
    new: ProtocolStackContext,
    i: int,
    typ: NetProtocolType,
    data: Seq<u8>,
    dst: NetDeviceAddr,
    res: Result<(), AppError>,
) -> bool {
    exists|r: Result<OutputAction, AppError>|
        {
            &&& others_unchanged(old.app_spec(), new.app_spec(), i)
            &&& container_output_spec(old.app_spec().devices_spec()[i], new.app_spec().devices_spec()[i], typ, data, dst, r)
            &&& match r {
                Err(e) => res == Err::<(), AppError>(e) && new.rx_irqs_spec() == old.rx_irqs_spec()
                    && new.tx_frames_spec() == old.tx_frames_spec(),
                Ok(OutputAction::RxIrq { dev }) => res is Ok && new.rx_irqs_spec()
                    == old.rx_irqs_spec().push(dev) && new.tx_frames_spec() == old.tx_frames_spec(),
                Ok(OutputAction::Transmit { dev, frame }) => res is Ok && new.rx_irqs_spec()
                    == old.rx_irqs_spec() && new.tx_frames_spec() == old.tx_frames_spec().push((dev, frame@)),
                Ok(OutputAction::Dropped) => res is Ok && new.rx_irqs_spec() == old.rx_irqs_spec()
                    && new.tx_frames_spec() == old.tx_frames_spec(),
            }
        }
}

/// The link-layer destination of a datagram for `dst` sent through the interface at `i`, `j`:
/// the device's broadcast address for the limited broadcast address and for the interface's
/// subnet broadcast address, else `dst` itself, which a device that needs address resolution
/// cannot send to.
pub open spec fn ip_link_dst(app: ProtocolStackApp, i: int, j: int, dst: IpAddr) -> NetDeviceAddr {
    if dst.0 == IP_ADDR_BROADCAST || dst.0 == ip_iface_at(app, i, j).broadcast.0 {
        app.devices_spec()[i].dev_spec().inner_spec().bloadcast
    } else {
        NetDeviceAddr::Ip(dst)
    }
}

/// What sending `data` of `protocol` from `src` to `dst` does to the context when the datagram
/// gets the identification `id`: the unspecified source, a source that no interface has, a
/// destination outside the source's subnet (other than the broadcast address), and a datagram
/// longer than the MTU are refused; otherwise the datagram goes out through the device of the
/// source's interface, to the link-layer destination `ip_link_dst`.
pub open spec fn ip_output_spec(
    old: ProtocolStackContext,
    new: ProtocolStackContext,
    protocol: IpUpperProtocol,
    data: Seq<u8>,
    src: IpAddr,
    dst: IpAddr,
    id: u16,
    res: Result<(), NetProtocolOutputError>,
) -> bool {
    if src.0 == IP_ADDR_ANY {
        res == Err::<(), NetProtocolOutputError>(NetProtocolOutputError::RoutingUnimplemented) && new == old
    } else {
        match first_iface_with_unicast(old.app_spec(), src.0) {
            None => res == Err::<(), NetProtocolOutputError>(NetProtocolOutputError::DeviceNotFound { src: src.0 }) && new == old,
            Some((i, j)) => {
                let netmask = ip_iface_at(old.app_spec(), i, j).netmask;
                let mtu = old.app_spec().devices_spec()[i].dev_spec().inner_spec().mtu;
                if (src.0 & netmask.0) != (dst.0 & netmask.0) && dst.0 != IP_ADDR_BROADCAST {
                    res == Err::<(), NetProtocolOutputError>(NetProtocolOutputError::Unreachable { dst: dst.0 }) && new == old
                } else if mtu < SIZE_OF_IP_HEADER + data.len() {
                    res == Err::<(), NetProtocolOutputError>(NetProtocolOutputError::LongerThanMtu { mtu: mtu, len: (SIZE_OF_IP_HEADER + data.len()) as usize }) && new == old
                } else {
                    exists|r: Result<(), AppError>| {
                        &&& ctx_device_output_spec(old, new, i, NetProtocolType::Ip, ip_packet_spec(protocol, src, dst, data, id), ip_link_dst(old.app_spec(), i, j, dst), r)
                        &&& match r {
                            Ok(()) => res is Ok,
                            Err(e) => res == Err::<(), NetProtocolOutputError>(NetProtocolOutputError::DeviceError { error: Box::new(e) }),
                        }
                    }
                }
            },
        }
    }
}

/// The index of the first protocol, from index `k` on, that handles `typ`.
pub open spec fn first_protocol_from(protocols: Seq<NetProtocolKind>, typ: NetProtocolType, k: int) -> Option<int>
    decreases protocols.len() - k,
{
    if k < 0 || k >= protocols.len() {
        None
    } else if protocols[k].typ_spec() == typ {
        Some(k)
    } else {
        first_protocol_from(protocols, typ, k + 1)
    }
}

/// What sending an ICMP message does to the context, for some identification of its datagram;
/// an error of the IP layer is reported as an error of the ICMP output.
pub open spec fn icmp_reply_sent(
    old: ProtocolStackContext,
    new: ProtocolStackContext,
    reply: (IcmpCode, Seq<u8>, Seq<u8>, IpAddr, IpAddr),
    res: Result<(), NetProtocolError>,
) -> bool {
    exists|id: u16, r: Result<(), NetProtocolOutputError>|
        {
            &&& #[trigger] ip_output_spec(
                old,
                new,
                IpUpperProtocol::Icmp,
                icmp_message_spec(IcmpType::EchoReply, reply.0, reply.1, reply.2),
                reply.3,
                reply.4,
                id,
                r,
            )
            &&& match r {
                Ok(()) => res is Ok,
                Err(e) => res == Err::<(), NetProtocolError>(
                    NetProtocolError::IpProtocolError {
                        error: IpProtocolError::IcmpOutputError { error: e },
                    },
                ),
            }
        }
}

/// What handing `data` of type `typ`, received by device `i`, to the stack does: the first
/// protocol that handles `typ` takes it; IP answers an echo request with an echo reply; ARP
/// reports the resolution asked of an interface as not implemented. Data that no protocol
/// handles is dropped.
pub open spec fn input_spec(
    old: ProtocolStackContext,
    new: ProtocolStackContext,
    i: int,
    typ: NetProtocolType,
    data: Seq<u8>,
    res: Result<(), NetProtocolError>,
) -> bool {
    let protocols = old.app_spec().protocols_spec();
    let ifaces = old.app_spec().devices_spec()[i].ifaces_spec();
    match first_protocol_from(protocols, typ, 0) {
        None => res is Ok && new == old,
        Some(k) => match protocols[k] {
            NetProtocolKind::Ip(ip) => match ip_reply_spec(ip.uppers_spec(), data, ifaces) {
                Err(e) => res == Err::<(), NetProtocolError>(e) && new == old,
                Ok(None) => res is Ok && new == old,
                Ok(Some(reply)) => icmp_reply_sent(old, new, reply, res),
            },
            NetProtocolKind::Arp(_) => new == old && match arp_input_spec(data, ifaces) {
                Err(e) => res == Err::<(), NetProtocolError>(
                    NetProtocolError::ArpProtocolError { error: e },
                ),
                Ok(None) => res is Ok,
                Ok(Some((op, _))) => res == Err::<(), NetProtocolError>(
                    NetProtocolError::ArpResolutionUnimplemented { op },
                ),
            },
        },
    }
}

/// `new` is `old` with the oldest packet of device `i` freed.
pub open spec fn rx_freed(old: ProtocolStackApp, new: ProtocolStackApp, i: int) -> bool {
    &&& others_unchanged(old, new, i)
    &&& new.devices_spec()[i].dev_spec().rx_pending() == old.devices_spec()[i].dev_spec().rx_pending().drop_first()
    &&& new.devices_spec()[i].name_spec() == old.devices_spec()[i].name_spec()
    &&& new.devices_spec()[i].open_spec() == old.devices_spec()[i].open_spec()
    &&& new.devices_spec()[i].ifaces_spec() == old.devices_spec()[i].ifaces_spec()
    &&& new.devices_spec()[i].dev_spec().inner_spec() == old.devices_spec()[i].dev_spec().inner_spec()
    &&& rx_slot_freed(old.devices_spec()[i].dev_spec(), new.devices_spec()[i].dev_spec())
}

/// Device `i` of `old` is a loopback device with a packet waiting, and in `new` the same packet
/// is still the oldest one, with the same descriptor.
pub open spec fn rx_head_kept(old: ProtocolStackApp, new: ProtocolStackApp, i: int) -> bool {
    (old.devices_spec()[i].dev_spec() matches NetDeviceKind::Loopback(d) && d.ring().pending().len() > 0) ==> (
    new.devices_spec()[i].dev_spec() matches NetDeviceKind::Loopback(d2) && d2.ring().pending().len() > 0
        && d2.ring().next_to_clean() == old.devices_spec()[i].dev_spec()->Loopback_0.ring().next_to_clean())
}

/// What handling a receive interrupt of device `i` does: when the device holds a packet, the
/// oldest one is handed to the stack as an IP datagram, then its buffer is freed; otherwise
/// nothing happens.
pub open spec fn rx_irq_handled(
    old: ProtocolStackContext,
    new: ProtocolStackContext,
    i: int,
    res: Result<(), NetProtocolError>,
) -> bool {
    let pending = old.app_spec().devices_spec()[i].dev_spec().rx_pending();
    if pending.len() == 0 {
        res is Ok && new == old
    } else {
        exists|mid: ProtocolStackContext|
            {
                &&& #[trigger] input_spec(old, mid, i, NetProtocolType::Ip, pending[0], res)
                &&& rx_freed(mid.app_spec(), new.app_spec(), i)
                &&& new.rx_irqs_spec() == mid.rx_irqs_spec()
                &&& new.tx_frames_spec() == mid.tx_frames_spec()
            }
    }
}

/// Sending through a device keeps the oldest packet of a loopback device in place.
proof fn lemma_container_output_keeps_head(
    o: NetDeviceContainer,
    n: NetDeviceContainer,
    typ: NetProtocolType,
    data: Seq<u8>,
    dst: NetDeviceAddr,
    res: Result<OutputAction, AppError>,
)
    requires
        container_output_spec(o, n, typ, data, dst, res),
        o.dev_spec() matches NetDeviceKind::Loopback(d) && d.ring().pending().len() > 0,
    ensures
        n.dev_spec() matches NetDeviceKind::Loopback(d2) && d2.ring().pending().len() > 0
            && d2.ring().next_to_clean() == o.dev_spec()->Loopback_0.ring().next_to_clean(),
{
    if o.open_spec() && data.len() <= o.dev_spec().inner_spec().mtu {
        let r = choose|r: Result<OutputAction, NetDeviceError>|
            {
                &&& device_output_spec(o.dev_spec(), n.dev_spec(), typ, data, dst, r)
                &&& match r {
                    Ok(a) => res == Ok::<OutputAction, AppError>(a),
                    Err(e) => res == Err::<OutputAction, AppError>(AppError::DeviceError { error: e }),
                }
            };
        assert(device_output_spec(o.dev_spec(), n.dev_spec(), typ, data, dst, r));
    }
}

/// Sending through a device of the context keeps the oldest packet of every loopback device in
/// place.
proof fn lemma_ctx_output_keeps_head(
    old: ProtocolStackContext,
    new: ProtocolStackContext,
    j: int,
    typ: NetProtocolType,
    data: Seq<u8>,
    dst: NetDeviceAddr,
    res: Result<(), AppError>,
    i: int,
)
    requires
        ctx_device_output_spec(old, new, j, typ, data, dst, res),
        0 <= i < old.app_spec().devices_spec().len(),
    ensures
        rx_head_kept(old.app_spec(), new.app_spec(), i),
{
    let r = choose|r: Result<OutputAction, AppError>|
        {
            &&& others_unchanged(old.app_spec(), new.app_spec(), j)
            &&& container_output_spec(old.app_spec().devices_spec()[j], new.app_spec().devices_spec()[j], typ, data, dst, r)
            &&& match r {
                Err(e) => res == Err::<(), AppError>(e) && new.rx_irqs_spec() == old.rx_irqs_spec()
                    && new.tx_frames_spec() == old.tx_frames_spec(),
                Ok(OutputAction::RxIrq { dev }) => res is Ok && new.rx_irqs_spec()
                    == old.rx_irqs_spec().push(dev) && new.tx_frames_spec() == old.tx_frames_spec(),
                Ok(OutputAction::Transmit { dev, frame }) => res is Ok && new.rx_irqs_spec()
                    == old.rx_irqs_spec() && new.tx_frames_spec() == old.tx_frames_spec().push((dev, frame@)),
                Ok(OutputAction::Dropped) => res is Ok && new.rx_irqs_spec() == old.rx_irqs_spec()
                    && new.tx_frames_spec() == old.tx_frames_spec(),
            }
        };
    if i == j {
        if old.app_spec().devices_spec()[i].dev_spec() matches NetDeviceKind::Loopback(d) && d.ring().pending().len() > 0 {
            lemma_container_output_keeps_head(old.app_spec().devices_spec()[j], new.app_spec().devices_spec()[j], typ, data, dst, r);
        }
    } else {
        assert(new.app_spec().devices_spec()[i] == old.app_spec().devices_spec()[i]);
    }
}

/// Sending an IP datagram keeps the oldest packet of every loopback device in place.
proof fn lemma_ip_output_keeps_head(
    old: ProtocolStackContext,
    new: ProtocolStackContext,
    protocol: IpUpperProtocol,
    data: Seq<u8>,
    src: IpAddr,
    dst: IpAddr,
    id: u16,
    res: Result<(), NetProtocolOutputError>,
    i: int,
)
    requires
        ip_output_spec(old, new, protocol, data, src, dst, id, res),
        0 <= i < old.app_spec().devices_spec().len(),
    ensures
        rx_head_kept(old.app_spec(), new.app_spec(), i),
{
    if src.0 != IP_ADDR_ANY {
        match first_iface_with_unicast(old.app_spec(), src.0) {
            None => {},
            Some((a, b)) => {
                let netmask = ip_iface_at(old.app_spec(), a, b).netmask;
                let mtu = old.app_spec().devices_spec()[a].dev_spec().inner_spec().mtu;
                if !((src.0 & netmask.0) != (dst.0 & netmask.0) && dst.0 != IP_ADDR_BROADCAST)
                    && !(mtu < SIZE_OF_IP_HEADER + data.len()) {
                    let p = ip_packet_spec(protocol, src, dst, data, id);
                    let r = choose|r: Result<(), AppError>|
                        {
                            &&& ctx_device_output_spec(old, new, a, NetProtocolType::Ip, p, ip_link_dst(old.app_spec(), a, b, dst), r)
                            &&& match r {
                                Ok(()) => res is Ok,
                                Err(e) => res == Err::<(), NetProtocolOutputError>(NetProtocolOutputError::DeviceError { error: Box::new(e) }),
                            }
                        };
                    lemma_ctx_output_keeps_head(old, new, a, NetProtocolType::Ip, p, ip_link_dst(old.app_spec(), a, b, dst), r, i);
                }
            },
        }
    }
}

/// Handing data to the stack keeps the oldest packet of every loopback device in place.
proof fn lemma_input_keeps_head(
    old: ProtocolStackContext,
    new: ProtocolStackContext,
    j: int,
    typ: NetProtocolType,
    data: Seq<u8>,
    res: Result<(), NetProtocolError>,
    i: int,
)
    requires
        input_spec(old, new, j, typ, data, res),
        0 <= i < old.app_spec().devices_spec().len(),
    ensures
        rx_head_kept(old.app_spec(), new.app_spec(), i),
{
    let protocols = old.app_spec().protocols_spec();
    let ifaces = old.app_spec().devices_spec()[j].ifaces_spec();
    match first_protocol_from(protocols, typ, 0) {
        None => {},
        Some(k) => match protocols[k] {
            NetProtocolKind::Ip(ip) => match ip_reply_spec(ip.uppers_spec(), data, ifaces) {
                Ok(Some(reply)) => {
                    let (id, r) = choose|id: u16, r: Result<(), NetProtocolOutputError>|
                        {
                            &&& #[trigger] ip_output_spec(
                                old,
                                new,
                                IpUpperProtocol::Icmp,
                                icmp_message_spec(IcmpType::EchoReply, reply.0, reply.1, reply.2),
                                reply.3,
                                reply.4,
                                id,
                                r,
                            )
                            &&& match r {
                                Ok(()) => res is Ok,
                                Err(e) => res == Err::<(), NetProtocolError>(
                                    NetProtocolError::IpProtocolError {
                                        error: IpProtocolError::IcmpOutputError { error: e },
                                    },
                                ),
                            }
                        };
                    lemma_ip_output_keeps_head(
                        old,
                        new,
                        IpUpperProtocol::Icmp,
                        icmp_message_spec(IcmpType::EchoReply, reply.0, reply.1, reply.2),
                        reply.3,
                        reply.4,
                        id,
                        r,
                        i,
                    );
                },
                _ => {},
            },
            NetProtocolKind::Arp(_) => {},
        },
    }
}

/// Errors met on a frame read from the tap device: in its Ethernet header, or in the protocol
/// that handled its payload.
#[derive(Debug)]
pub enum FrameInputError {
    Ethernet { error: EthernetError },
    Protocol { error: NetProtocolError },
}

/// What a frame read from the tap device `i` does: a frame that the device skips changes
/// nothing; otherwise its payload, after the header, goes to the stack.
pub open spec fn tap_frame_input_spec(
    old: ProtocolStackContext,
    new: ProtocolStackContext,
    i: int,
    frame: Seq<u8>,
    res: Result<(), FrameInputError>,
) -> bool {
    match ether_input_spec(frame, old.app_spec().devices_spec()[i].dev_spec()->EtherTap_0.hw_addr_spec()) {
        Err(e) => res == Err::<(), FrameInputError>(FrameInputError::Ethernet { error: e }) && new == old,
        Ok(None) => res is Ok && new == old,
        Ok(Some(typ)) => exists|r: Result<(), NetProtocolError>|
            {
                &&& #[trigger] input_spec(old, new, i, typ, frame.skip(ETHER_HEADER_SIZE as int), r)
                &&& match r {
                    Ok(()) => res is Ok,
                    Err(e) => res == Err::<(), FrameInputError>(FrameInputError::Protocol { error: e }),
                }
            },
    }
}

/// A ping that reaches the stack is answered: an echo request addressed to the first interface
/// of device `i`, handed to a stack whose first protocol for IP carries ICMP, makes the stack
/// send an echo reply from that interface to the sender, with the request's code, identifier and
/// sequence number, and data; what the sending reports is what the stack returns.
pub proof fn lemma_stack_answers_ping(
    old: ProtocolStackContext,
    new: ProtocolStackContext,
    i: int,
    k: int,
    iface: IpIface,
    code: IcmpCode,
    val: Seq<u8>,
    data: Seq<u8>,
    src: IpAddr,
    id: u16,
    res: Result<(), NetProtocolError>,
)
    requires
        first_protocol_from(old.app_spec().protocols_spec(), NetProtocolType::Ip, 0) == Some(k),
        old.app_spec().protocols_spec()[k] matches NetProtocolKind::Ip(ip) && has_upper_handler(
            ip.uppers_spec(),
            ip_upper_protocol_number(IpUpperProtocol::Icmp),
        ),
        old.app_spec().devices_spec()[i].ifaces_spec().len() > 0,
        old.app_spec().devices_spec()[i].ifaces_spec()[0] == NetIface::Ip(iface),
        val.len() == 4,
        SIZE_OF_IP_HEADER + SIZE_OF_ICMP_HEADER + data.len() <= 0xffff,
        input_spec(
            old,
            new,
            i,
            NetProtocolType::Ip,
            ip_packet_spec(
                IpUpperProtocol::Icmp,
                src,
                iface.unicast,
                icmp_message_spec(IcmpType::Echo, code, val, data),
                id,
            ),
            res,
        ),
    ensures
        icmp_reply_sent(old, new, (code, val, data, iface.unicast, src), res),
{
    let ip = old.app_spec().protocols_spec()[k]->Ip_0;
    lemma_echo_request_answered(
        ip.uppers_spec(),
        old.app_spec().devices_spec()[i].ifaces_spec(),
        iface,
        code,
        val,
        data,
        src,
        id,
    );
}

/// A context whose stack is well formed, with as many devices as a well-formed one and the same
/// receive interrupts, is well formed.
proof fn lemma_wf_kept(old: ProtocolStackContext, new: ProtocolStackContext)
    requires
        old.wf(),
        new.app_spec().wf(),
        new.app_spec().devices_spec().len() == old.app_spec().devices_spec().len(),
        new.rx_irqs_spec() == old.rx_irqs_spec(),
        new.tx_frames_spec() == old.tx_frames_spec(),
    ensures
        new.wf(),
{
    assert forall|k: int| 0 <= k < new.rx_irqs_spec().len() implies (#[trigger] new.rx_irqs_spec()[k]).0
        < new.app_spec().devices_spec().len() by {
        assert(old.rx_irqs_spec()[k] == new.rx_irqs_spec()[k]);
    }
    assert forall|k: int| 0 <= k < new.tx_frames_spec().len() implies (#[trigger] new.tx_frames_spec()[k]).0.0
        < new.app_spec().devices_spec().len() by {
        assert(old.tx_frames_spec()[k] == new.tx_frames_spec()[k]);
    }
}

/// Only one position is the first of an interface with a given address.
proof fn lemma_first_iface_unique(app: ProtocolStackApp, addr: u32, i: int, j: int, i2: int, j2: int)
    requires
        is_first_iface_with_unicast(app, addr, i, j),
        is_first_iface_with_unicast(app, addr, i2, j2),
    ensures
        i == i2 && j == j2,
{
    if pos_before(i2, j2, i, j) {
        assert(!iface_has_unicast(iface_at(app, i2, j2), addr));
    }
    if pos_before(i, j, i2, j2) {
        assert(!iface_has_unicast(iface_at(app, i, j), addr));
    }
}

/// The first position of an interface with address `addr` is the one that
/// `first_iface_with_unicast` gives.
proof fn lemma_first_iface_is(app: ProtocolStackApp, addr: u32, i: int, j: int)
    requires
        is_first_iface_with_unicast(app, addr, i, j),
    ensures
        first_iface_with_unicast(app, addr) == Some((i, j)),
{
    let (a, b) = choose|a: int, b: int| is_first_iface_with_unicast(app, addr, a, b);
    lemma_first_iface_unique(app, addr, i, j, a, b);
}

impl ProtocolStackContext {
    pub closed spec fn app_spec(&self) -> ProtocolStackApp {
        self.app
    }

    pub closed spec fn rx_irqs_spec(&self) -> Seq<DeviceId> {
        self.rx_irqs@
    }

    pub closed spec fn tx_frames_spec(&self) -> Seq<(DeviceId, Seq<u8>)> {
        self.tx_frames@.map_values(|t: TxFrame| (t.dev, t.frame@))
    }

    pub open spec fn wf(&self) -> bool {
        &&& self.app_spec().wf()
        &&& forall|k: int|
            0 <= k < self.rx_irqs_spec().len() ==> (#[trigger] self.rx_irqs_spec()[k]).0
                < self.app_spec().devices_spec().len()
        &&& forall|k: int|
            0 <= k < self.tx_frames_spec().len() ==> (#[trigger] self.tx_frames_spec()[k]).0.0
                < self.app_spec().devices_spec().len()
    }

    pub fn new(app: ProtocolStackApp) -> (ctx: ProtocolStackContext)
        requires
            app.wf(),
        ensures
            ctx.wf(),
            ctx.app_spec() == app,
            ctx.rx_irqs_spec() == Seq::<DeviceId>::empty(),
            ctx.tx_frames_spec() == Seq::<(DeviceId, Seq<u8>)>::empty(),
    {
        let ctx = ProtocolStackContext { app, rx_irqs: Vec::new(), tx_frames: Vec::new() };
        assert(ctx.tx_frames_spec() =~= Seq::<(DeviceId, Seq<u8>)>::empty());
        ctx
    }

    pub fn app(&self) -> (app: &ProtocolStackApp)
        ensures
            *app == self.app_spec(),
    {
        &self.app
    }

    /// Asks for the receive interrupt of device `dev_id`; it is handled by `handle_rx_irq`.
    pub fn request_rx_irq(&mut self, dev_id: DeviceId) -> (res: Result<(), NetDeviceError>)
        requires
            old(self).wf(),
            dev_id.0 < old(self).app_spec().devices_spec().len(),
        ensures
            final(self).wf(),
            res is Ok,
            final(self).app_spec() == old(self).app_spec(),
            final(self).rx_irqs_spec() == old(self).rx_irqs_spec().push(dev_id),
            final(self).tx_frames_spec() == old(self).tx_frames_spec(),
    {
        self.rx_irqs.push(dev_id);
        proof {
            assert forall|k: int| 0 <= k < self.rx_irqs_spec().len() implies (
            #[trigger] self.rx_irqs_spec()[k]).0 < self.app_spec().devices_spec().len() by {
                if k < old(self).rx_irqs_spec().len() {
                    assert(old(self).rx_irqs_spec()[k] == self.rx_irqs_spec()[k]);
                }
            }
            assert forall|k: int| 0 <= k < self.tx_frames_spec().len() implies (
            #[trigger] self.tx_frames_spec()[k]).0.0 < self.app_spec().devices_spec().len() by {
                assert(old(self).tx_frames_spec()[k] == self.tx_frames_spec()[k]);
            }
        }
        Ok(())
    }

    /// The oldest receive interrupt that is not handled yet.
    pub fn take_rx_irq(&mut self) -> (res: Option<DeviceId>)
        requires
            old(self).wf(),
        ensures
            final(self).wf(),
            final(self).app_spec() == old(self).app_spec(),
            final(self).tx_frames_spec() == old(self).tx_frames_spec(),
            old(self).rx_irqs_spec().len() == 0 ==> res is None && final(self).rx_irqs_spec()
                == old(self).rx_irqs_spec(),
            old(self).rx_irqs_spec().len() > 0 ==> res == Some(old(self).rx_irqs_spec()[0])
                && final(self).rx_irqs_spec() == old(self).rx_irqs_spec().drop_first(),
    {
        if self.rx_irqs.len() == 0 {
            None
        } else {
            let d = self.rx_irqs.remove(0);
            assert(self.rx_irqs@ =~= old(self).rx_irqs@.drop_first());
            proof {
                assert forall|k: int| 0 <= k < self.rx_irqs_spec().len() implies (
                #[trigger] self.rx_irqs_spec()[k]).0 < self.app_spec().devices_spec().len() by {
                    assert(old(self).rx_irqs_spec()[k + 1] == self.rx_irqs_spec()[k]);
                }
            assert forall|k: int| 0 <= k < self.tx_frames_spec().len() implies (
            #[trigger] self.tx_frames_spec()[k]).0.0 < self.app_spec().devices_spec().len() by {
                assert(old(self).tx_frames_spec()[k] == self.tx_frames_spec()[k]);
            }
            }
            Some(d)
        }
    }

    /// The oldest frame waiting for its driver.
    pub fn take_tx_frame(&mut self) -> (res: Option<TxFrame>)
        requires
            old(self).wf(),
        ensures
            final(self).wf(),
            final(self).app_spec() == old(self).app_spec(),
            final(self).rx_irqs_spec() == old(self).rx_irqs_spec(),
            old(self).tx_frames_spec().len() == 0 ==> res is None && final(self).tx_frames_spec()
                == old(self).tx_frames_spec(),
            old(self).tx_frames_spec().len() > 0 ==> (res matches Some(t) && (t.dev, t.frame@)
                == old(self).tx_frames_spec()[0] && final(self).tx_frames_spec()
                == old(self).tx_frames_spec().drop_first()),
            res matches Some(t) ==> t.dev.0 < final(self).app_spec().devices_spec().len(),
    {
        if self.tx_frames.len() == 0 {
            proof { lemma_wf_kept(*old(self), *self); }
            None
        } else {
            let t = self.tx_frames.remove(0);
            assert(self.tx_frames_spec() =~= old(self).tx_frames_spec().drop_first());
            proof {
                assert forall|k: int| 0 <= k < self.rx_irqs_spec().len() implies (
                #[trigger] self.rx_irqs_spec()[k]).0 < self.app_spec().devices_spec().len() by {
                    assert(old(self).rx_irqs_spec()[k] == self.rx_irqs_spec()[k]);
                }
                assert forall|k: int| 0 <= k < self.tx_frames_spec().len() implies (
                #[trigger] self.tx_frames_spec()[k]).0.0 < self.app_spec().devices_spec().len() by {
                    assert(old(self).tx_frames_spec()[k + 1] == self.tx_frames_spec()[k]);
                }
            }
            Some(t)
        }
    }

    /// Opens device `i`.
    pub fn open_device(&mut self, i: usize) -> (res: Result<OpenAction, AppError>)
        requires
            old(self).wf(),
            i < old(self).app_spec().devices_spec().len(),
        ensures
            final(self).wf(),
            others_unchanged(old(self).app_spec(), final(self).app_spec(), i as int),
            container_open_spec(
                old(self).app_spec().devices_spec()[i as int],
                final(self).app_spec().devices_spec()[i as int],
                res,
            ),
            final(self).rx_irqs_spec() == old(self).rx_irqs_spec(),
            final(self).tx_frames_spec() == old(self).tx_frames_spec(),
    {
        let r = self.app.open_device(i);
        proof { lemma_wf_kept(*old(self), *self); }
        r
    }

    /// Completes the opening of device `i` by its driver, with the driver's result.
    pub fn complete_open_device(&mut self, i: usize, driver: Result<(), NetDeviceError>) -> (res: Result<(), AppError>)
        requires
            old(self).wf(),
            i < old(self).app_spec().devices_spec().len(),
        ensures
            final(self).wf(),
            others_unchanged(old(self).app_spec(), final(self).app_spec(), i as int),
            container_complete_open_spec(
                old(self).app_spec().devices_spec()[i as int],
                final(self).app_spec().devices_spec()[i as int],
                driver,
                res,
            ),
            final(self).rx_irqs_spec() == old(self).rx_irqs_spec(),
            final(self).tx_frames_spec() == old(self).tx_frames_spec(),
    {
        let r = self.app.complete_open_device(i, driver);
        proof { lemma_wf_kept(*old(self), *self); }
        r
    }

    /// Records that the driver opened the tap device `i` with descriptor `fd` and hardware
    /// address `hw`.
    pub fn tap_opened(&mut self, i: usize, fd: i32, hw: [u8; 6])
        requires
            old(self).wf(),
            i < old(self).app_spec().devices_spec().len(),
        ensures
            final(self).wf(),
            others_unchanged(old(self).app_spec(), final(self).app_spec(), i as int),
            final(self).app_spec().devices_spec()[i as int].name_spec() == old(self).app_spec().devices_spec()[i as int].name_spec(),
            final(self).app_spec().devices_spec()[i as int].open_spec() == old(self).app_spec().devices_spec()[i as int].open_spec(),
            final(self).app_spec().devices_spec()[i as int].ifaces_spec() == old(self).app_spec().devices_spec()[i as int].ifaces_spec(),
            match old(self).app_spec().devices_spec()[i as int].dev_spec() {
                NetDeviceKind::EtherTap(d) => final(self).app_spec().devices_spec()[i as int].dev_spec() matches NetDeviceKind::EtherTap(d2)
                    && d2.tap_file_spec() == fd
                    && d2.hw_addr_spec() == (if d.hw_addr_spec() == ether_addr_any_bytes() { hw@ } else { d.hw_addr_spec() }),
                NetDeviceKind::Loopback(_) => final(self).app_spec().devices_spec()[i as int] == old(self).app_spec().devices_spec()[i as int],
            },
            final(self).rx_irqs_spec() == old(self).rx_irqs_spec(),
            final(self).tx_frames_spec() == old(self).tx_frames_spec(),
    {
        let r = self.app.tap_opened(i, fd, hw);
        proof { lemma_wf_kept(*old(self), *self); }
        r
    }

    /// Closes the devices in order; stops at the first that is closed already.
    pub fn close_devices(&mut self) -> (res: Result<(), AppError>)
        requires
            old(self).wf(),
        ensures
            final(self).wf(),
            devices_closed(old(self).app_spec(), final(self).app_spec(), res),
            final(self).rx_irqs_spec() == old(self).rx_irqs_spec(),
            final(self).tx_frames_spec() == old(self).tx_frames_spec(),
    {
        let r = self.app.close_devices();
        proof { lemma_wf_kept(*old(self), *self); }
        r
    }

    /// The position of the first interface, over the devices in order, whose address is `addr`,
    /// with that interface.
    fn find_iface(&self, addr: u32) -> (res: Option<(usize, usize, IpIface)>)
        requires
            self.wf(),
        ensures
            match res {
                None => first_iface_with_unicast(self.app_spec(), addr) is None,
                Some((i, j, iface)) => {
                    &&& first_iface_with_unicast(self.app_spec(), addr) == Some((i as int, j as int))
                    &&& iface_at(self.app_spec(), i as int, j as int) == NetIface::Ip(iface)
                },
            },
    {
        let ghost app = self.app_spec();
        let n = self.app.device_count();
        let mut i: usize = 0;
        while i < n
            invariant
                app == self.app_spec(),
                n == app.devices_spec().len(),
                i <= n,
                forall|i2: int, j2: int|
                    #![trigger iface_at(app, i2, j2)]
                    is_iface_pos(app, i2, j2) && i2 < i ==> !iface_has_unicast(iface_at(app, i2, j2), addr),
            decreases n - i,
        {
            let ifaces = self.app.device(i).state().ifaces();
            let m = ifaces.len();
            let mut j: usize = 0;
            while j < m
                invariant
                    app == self.app_spec(),
                    n == app.devices_spec().len(),
                    i < n,
                    m == ifaces@.len(),
                    j <= m,
                    ifaces@ == app.devices_spec()[i as int].ifaces_spec(),
                    forall|i2: int, j2: int|
                        #![trigger iface_at(app, i2, j2)]
                        is_iface_pos(app, i2, j2) && i2 < i ==> !iface_has_unicast(iface_at(app, i2, j2), addr),
                    forall|j2: int| 0 <= j2 < j ==> !iface_has_unicast(#[trigger] ifaces@[j2], addr),
                decreases m - j,
            {
                match &ifaces[j] {
                    NetIface::Ip(ip) => {
                        if ip.unicast().0 == addr {
                            proof {
                                assert(iface_at(app, i as int, j as int) == ifaces@[j as int]);
                                assert forall|i2: int, j2: int|
                                    is_iface_pos(app, i2, j2) && pos_before(i2, j2, i as int, j as int) implies
                                    !iface_has_unicast(#[trigger] iface_at(app, i2, j2), addr) by {
                                    if i2 == i {
                                        assert(iface_at(app, i2, j2) == ifaces@[j2]);
                                    }
                                }
                                lemma_first_iface_is(app, addr, i as int, j as int);
                            }
                            return Some((i, j, *ip));
                        }
                    },
                }
                j = j + 1;
            }
            proof {
                assert forall|i2: int, j2: int|
                    is_iface_pos(app, i2, j2) && i2 < i + 1 implies
                    !iface_has_unicast(#[trigger] iface_at(app, i2, j2), addr) by {
                    if i2 == i {
                        assert(iface_at(app, i2, j2) == ifaces@[j2]);
                    }
                }
            }
            i = i + 1;
        }
        proof {
            if exists|a: int, b: int| is_first_iface_with_unicast(app, addr, a, b) {
                let (a, b) = choose|a: int, b: int| is_first_iface_with_unicast(app, addr, a, b);
                assert(!iface_has_unicast(iface_at(app, a, b), addr));
            }
        }
        None
    }

    /// The first interface, over the devices in order, whose address is `addr`.
    pub fn select_ip_iface(&self, addr: &IpAddr) -> (res: Option<IpIface>)
        requires
            self.wf(),
        ensures
            match first_iface_with_unicast(self.app_spec(), addr.0) {
                None => res is None,
                Some((i, j)) => res == Some(ip_iface_at(self.app_spec(), i, j)),
            },
    {
        match self.find_iface(addr.0) {
            None => None,
            Some((_, _, iface)) => Some(iface),
        }
    }

    /// The ARP protocol, if it is registered: the first one.
    pub fn arp(&self) -> (res: Option<ArpProtocol>)
        ensures
            res is Some <==> exists|k: int|
                0 <= k < self.app_spec().protocols_spec().len()
                    && #[trigger] self.app_spec().protocols_spec()[k] is Arp,
    {
        let protocols = self.app.protocols();
        let mut k: usize = 0;
        while k < protocols.len()
            invariant
                protocols@ == self.app_spec().protocols_spec(),
                k <= protocols@.len(),
                forall|k2: int| 0 <= k2 < k ==> !(#[trigger] protocols@[k2] is Arp),
            decreases protocols@.len() - k,
        {
            match &protocols[k] {
                NetProtocolKind::Arp(a) => {
                    assert(self.app_spec().protocols_spec()[k as int] is Arp);
                    return Some(*a);
                },
                _ => {},
            }
            k = k + 1;
        }
        None
    }

    /// Sends `data` of type `typ` to `dst` through device `i`; the receive interrupt that the
    /// device asks for is queued, and so is the frame that it builds for its driver.
    pub fn device_output(&mut self, i: usize, typ: NetProtocolType, data: &[u8], dst: NetDeviceAddr) -> (res: Result<(), AppError>)
        requires
            old(self).wf(),
            i < old(self).app_spec().devices_spec().len(),
        ensures
            final(self).wf(),
            ctx_device_output_spec(*old(self), *final(self), i as int, typ, data@, dst, res),
    {
        let r = self.app.device_output(i, typ, data, dst);
        proof {
            lemma_wf_kept(*old(self), *self);
            assert(old(self).app_spec().devices_spec()[i as int].dev_spec().inner_spec().dev_id == DeviceId(i));
        }
        let ghost rr = r;
        match r {
            Err(e) => {
                let res: Result<(), AppError> = Err(e);
                assert(container_output_spec(old(self).app_spec().devices_spec()[i as int], self.app_spec().devices_spec()[i as int], typ, data@, dst, rr));
                assert(ctx_device_output_spec(*old(self), *self, i as int, typ, data@, dst, res));
                res
            },
            Ok(OutputAction::RxIrq { dev }) => {
                assert(dev == DeviceId(i));
                self.rx_irqs.push(dev);
                proof {
                    assert forall|k: int| 0 <= k < self.rx_irqs_spec().len() implies (
                    #[trigger] self.rx_irqs_spec()[k]).0 < self.app_spec().devices_spec().len() by {
                        if k < old(self).rx_irqs_spec().len() {
                            assert(old(self).rx_irqs_spec()[k] == self.rx_irqs_spec()[k]);
                        }
                    }
                }
                Ok(())
            },
            Ok(OutputAction::Transmit { dev, frame }) => {
                let ghost f = frame@;
                assert(dev == DeviceId(i));
                self.tx_frames.push(TxFrame { dev, frame });
                assert(self.tx_frames_spec() =~= old(self).tx_frames_spec().push((dev, f)));
                proof {
                    assert forall|k: int| 0 <= k < self.rx_irqs_spec().len() implies (
                    #[trigger] self.rx_irqs_spec()[k]).0 < self.app_spec().devices_spec().len() by {
                        assert(old(self).rx_irqs_spec()[k] == self.rx_irqs_spec()[k]);
                    }
                    assert forall|k: int| 0 <= k < self.tx_frames_spec().len() implies (
                    #[trigger] self.tx_frames_spec()[k]).0.0 < self.app_spec().devices_spec().len() by {
                        if k < old(self).tx_frames_spec().len() {
                            assert(old(self).tx_frames_spec()[k] == self.tx_frames_spec()[k]);
                        }
                    }
                }
                Ok(())
            },
            Ok(OutputAction::Dropped) => Ok(()),
        }
    }

    /// Sends `data` of `protocol` from `src` to `dst` in a datagram with identification `id`,
    /// through the device of the first interface whose address is `src`.
    pub fn ip_output_with_id(
        &mut self,
        protocol: IpUpperProtocol,
        data: &[u8],
        src: IpAddr,
        dst: IpAddr,
        id: u16,
    ) -> (res: Result<(), NetProtocolOutputError>)
        requires
            old(self).wf(),
            SIZE_OF_IP_HEADER + data@.len() <= usize::MAX,
        ensures
            final(self).wf(),
            ip_output_spec(*old(self), *final(self), protocol, data@, src, dst, id, res),
    {
        if src.0 == IP_ADDR_ANY {
            return Err(NetProtocolOutputError::RoutingUnimplemented);
        }
        let found = self.find_iface(src.0);
        if found.is_none() {
            return Err(NetProtocolOutputError::DeviceNotFound { src: src.0 });
        }
        let (i, j, iface) = found.unwrap();
        proof {
            assert(ip_iface_at(self.app_spec(), i as int, j as int) == iface);
        }
        if !src.is_same_subnet(&dst, iface.netmask()) && dst.0 != IP_ADDR_BROADCAST {
            return Err(NetProtocolOutputError::Unreachable { dst: dst.0 });
        }
        let mtu = self.app.device(i).dev().info().mtu();
        if (mtu as usize) < SIZE_OF_IP_HEADER + data.len() {
            return Err(NetProtocolOutputError::LongerThanMtu { mtu, len: SIZE_OF_IP_HEADER + data.len() });
        }
        let hdr = IpHeader::new_with_id(protocol, 0, &src, &dst, data.len(), id);
        let mut packet = hdr.to_bytes();
        push_slice(&mut packet, data);
        assert(packet@ == ip_packet_spec(protocol, src, dst, data@, id));
        let link_dst = if dst.0 == IP_ADDR_BROADCAST || dst.0 == iface.broadcast().0 {
            self.app.device(i).dev().info().bloadcast
        } else {
            NetDeviceAddr::Ip(dst)
        };
        assert(link_dst == ip_link_dst(self.app_spec(), i as int, j as int, dst));
        let r = self.device_output(i, NetProtocolType::Ip, packet.as_slice(), link_dst);
        let ghost rr = r;
        match r {
            Ok(()) => Ok(()),
            Err(e) => {
                let res: Result<(), NetProtocolOutputError> = Err(NetProtocolOutputError::DeviceError { error: Box::new(e) });
                assert(ctx_device_output_spec(*old(self), *self, i as int, NetProtocolType::Ip, packet@, link_dst, rr));
                res
            },
        }
    }

    /// Sends `data` of `protocol` from `src` to `dst`, in a datagram whose identification is a
    /// random number.
    pub fn ip_output(&mut self, protocol: IpUpperProtocol, data: &[u8], src: IpAddr, dst: IpAddr) -> (res: Result<(), NetProtocolOutputError>)
        requires
            old(self).wf(),
            SIZE_OF_IP_HEADER + data@.len() <= usize::MAX,
        ensures
            final(self).wf(),
            exists|id: u16| ip_output_spec(*old(self), *final(self), protocol, data@, src, dst, id, res),
    {
        let id = random16();
        self.ip_output_with_id(protocol, data, src, dst, id)
    }

    /// Sends the ICMP message of type `typ` and code `code`, with `val` in its message dependent
    /// field and `data` after its header, from `src` to `dst`.
    pub fn icmp_output(
        &mut self,
        typ: IcmpType,
        code: IcmpCode,
        val: [u8; 4],
        data: &[u8],
        src: IpAddr,
        dst: IpAddr,
    ) -> (res: Result<(), NetProtocolOutputError>)
        requires
            old(self).wf(),
            SIZE_OF_ICMP_HEADER + data@.len() <= 0xffff,
        ensures
            final(self).wf(),
            exists|id: u16|
                ip_output_spec(
                    *old(self),
                    *final(self),
                    IpUpperProtocol::Icmp,
                    icmp_message_spec(typ, code, val@, data@),
                    src,
                    dst,
                    id,
                    res,
                ),
    {
        let msg = icmp_message(typ, code, val, data);
        self.ip_output(IpUpperProtocol::Icmp, msg.as_slice(), src, dst)
    }

    /// The index of the first protocol that handles `typ`.
    fn protocol_index(&self, typ: NetProtocolType) -> (res: Option<usize>)
        ensures
            match res {
                None => first_protocol_from(self.app_spec().protocols_spec(), typ, 0) is None,
                Some(k) => first_protocol_from(self.app_spec().protocols_spec(), typ, 0) == Some(k as int)
                    && k < self.app_spec().protocols_spec().len(),
            },
    {
        let protocols = self.app.protocols();
        let mut k: usize = 0;
        while k < protocols.len()
            invariant
                protocols@ == self.app_spec().protocols_spec(),
                k <= protocols@.len(),
                first_protocol_from(protocols@, typ, 0) == first_protocol_from(protocols@, typ, k as int),
            decreases protocols@.len() - k,
        {
            if protocols[k].typ() == typ {
                return Some(k);
            }
            k = k + 1;
        }
        None
    }

    /// Hands `data` of type `typ`, received by device `dev_id`, to the first protocol that
    /// handles `typ`, and sends what it answers.
    pub fn input_to_app(&mut self, dev_id: DeviceId, typ: NetProtocolType, data: &[u8]) -> (res: Result<(), NetProtocolError>)
        requires
            old(self).wf(),
            dev_id.0 < old(self).app_spec().devices_spec().len(),
        ensures
            final(self).wf(),
            input_spec(*old(self), *final(self), dev_id.index(), typ, data@, res),
    {
        let i = dev_id.0;
        let k = match self.protocol_index(typ) {
            None => {
                return Ok(());
            },
            Some(k) => k,
        };
        let reply = {
            let ifaces = self.app.device(i).state().ifaces();
            let ifaces_ref: &Vec<NetIface> = &*ifaces;
            match &self.app.protocols()[k] {
                NetProtocolKind::Ip(ip) => match ip.handle(data, ifaces_ref) {
                    Err(e) => {
                        return Err(e);
                    },
                    Ok(None) => {
                        return Ok(());
                    },
                    Ok(Some(out)) => out,
                },
                NetProtocolKind::Arp(arp) => {
                    return match arp.handle(data, ifaces_ref) {
                        Err(error) => Err(NetProtocolError::ArpProtocolError { error }),
                        Ok(None) => Ok(()),
                        Ok(Some((op, _))) => Err(NetProtocolError::ArpResolutionUnimplemented { op }),
                    };
                },
            }
        };
        let ghost reply_spec = (reply.code, reply.val@, reply.data@, reply.src, reply.dst);
        let r = self.icmp_output(reply.typ, reply.code, reply.val, reply.data.as_slice(), reply.src, reply.dst);
        let ghost rr = r;
        let res = match r {
            Ok(()) => Ok(()),
            Err(e) => Err(NetProtocolError::IpProtocolError { error: IpProtocolError::IcmpOutputError { error: e } }),
        };
        proof {
            let id = choose|id: u16| ip_output_spec(*old(self), *self, IpUpperProtocol::Icmp, icmp_message_spec(IcmpType::EchoReply, reply_spec.0, reply_spec.1, reply_spec.2), reply_spec.3, reply_spec.4, id, rr);
            assert(icmp_reply_sent(*old(self), *self, reply_spec, res));
        }
        res
    }

    /// Handles a receive interrupt of device `dev_id`: the oldest packet it received, if any, is
    /// handed to the stack, then its buffer is freed. The error of the protocol that handled the
    /// packet is returned.
    pub fn handle_rx_irq(&mut self, dev_id: DeviceId) -> (res: Result<(), NetProtocolError>)
        requires
            old(self).wf(),
            dev_id.0 < old(self).app_spec().devices_spec().len(),
        ensures
            final(self).wf(),
            rx_irq_handled(*old(self), *final(self), dev_id.index(), res),
    {
        let i = dev_id.0;
        match self.app.device_rx_next(i) {
            None => Ok(()),
            Some((desc, data, typ)) => {
                let r = self.input_to_app(dev_id, typ, data.as_slice());
                let ghost mid = *self;
                proof {
                    lemma_input_keeps_head(*old(self), mid, i as int, typ, data@, r, i as int);
                }
                self.app.device_rx_free(i, desc);
                proof {
                    lemma_wf_kept(mid, *self);
                    assert(input_spec(*old(self), mid, i as int, NetProtocolType::Ip, old(self).app_spec().devices_spec()[i as int].dev_spec().rx_pending()[0], r));
                }
                r
            },
        }
    }

    /// Handles a frame read from the tap device `dev_id`: a frame that is too short or is for
    /// another host is skipped; otherwise its payload goes to the protocol its header names.
    pub fn ether_tap_input(&mut self, dev_id: DeviceId, frame: &[u8]) -> (res: Result<(), FrameInputError>)
        requires
            old(self).wf(),
            dev_id.0 < old(self).app_spec().devices_spec().len(),
            old(self).app_spec().devices_spec()[dev_id.index()].dev_spec() is EtherTap,
        ensures
            final(self).wf(),
            tap_frame_input_spec(*old(self), *final(self), dev_id.index(), frame@, res),
    {
        let i = dev_id.0;
        let decided = match self.app.device(i).dev() {
            NetDeviceKind::EtherTap(d) => {
                proof {
                    assert(self.app_spec().devices_spec()[i as int].dev_spec().wf());
                }
                d.input(frame)
            },
            NetDeviceKind::Loopback(_) => Ok(None),
        };
        match decided {
            Err(error) => Err(FrameInputError::Ethernet { error }),
            Ok(None) => Ok(()),
            Ok(Some(typ)) => {
                let payload = vstd::slice::slice_subrange(frame, ETHER_HEADER_SIZE, frame.len());
                assert(payload@ == frame@.skip(ETHER_HEADER_SIZE as int));
                let r = self.input_to_app(dev_id, typ, payload);
                let ghost rr = r;
                let res = match r {
                    Ok(()) => Ok(()),
                    Err(error) => Err(FrameInputError::Protocol { error }),
                };
                assert(input_spec(*old(self), *self, i as int, typ, frame@.skip(ETHER_HEADER_SIZE as int), rr));
                res
            },
        }
    }
}

} // verus!
