pub mod arp;
pub mod checksum;
pub mod icmp;
pub mod ip;

use vstd::prelude::*;

use crate::protocols::arp::{ArpOp, ArpProtocolError};
use crate::protocols::icmp::IcmpError;

verus! {

pub const NET_PROTOCOL_TYPE_IP: u16 = 0x0800;

pub const NET_PROTOCOL_TYPE_ARP: u16 = 0x0806;

pub const NET_PROTOCOL_TYPE_IPV6: u16 = 0x86dd;

/// The network-layer protocols a link can carry.
#[derive(Clone, Copy, Debug, PartialEq, Eq, Structural)]
pub enum NetProtocolType {
    Ip,
    Arp,
    IpV6,
}

/// Errors of the network-layer protocols.
#[derive(Debug)]
pub enum NetProtocolError {
    UnsurpportedProtocol { proto: u16 },
    UnsurpportedIpVersion { version: u8 },
    BrokenCheckSum,
    TooShortPacket { len: usize },
    FragmentUnsurpported,
    /// The header length does not fit the datagram, or exceeds its total length.
    MalformedHeader,
    ArpProtocolError { error: ArpProtocolError },
    /// The target interface was asked for an address resolution, which is not implemented.
    ArpResolutionUnimplemented { op: ArpOp },
    IpProtocolError { error: IpProtocolError },
}

/// Errors of the protocols carried over IP.
#[derive(Debug)]
pub enum IpProtocolError {
    IcmpError { error: IcmpError },
    IcmpOutputError { error: NetProtocolOutputError },
    /// A handler of the same protocol number is registered already.
    DuplicatedProtocol { protocol: u8 },
}

/// Errors met while sending an IP datagram.
#[derive(Debug)]
pub enum NetProtocolOutputError {
    /// The source address is the unspecified address: routing is not implemented.
    RoutingUnimplemented,
    /// No device has an interface with the source address.
    DeviceNotFound { src: u32 },
    /// The destination is neither in the subnet of the source nor the broadcast address.
    Unreachable { dst: u32 },
    /// The datagram is longer than the device's MTU.
    LongerThanMtu { mtu: u16, len: usize },
    /// The device refused the datagram.
    DeviceError { error: Box<crate::net::AppError> },
}

/// The protocol type that a type number names, if any.
pub open spec fn net_protocol_type_spec(value: u16) -> Result<NetProtocolType, NetProtocolError> {
    if value == NET_PROTOCOL_TYPE_IP {
        Ok(NetProtocolType::Ip)
    } else if value == NET_PROTOCOL_TYPE_ARP {
        Ok(NetProtocolType::Arp)
    } else if value == NET_PROTOCOL_TYPE_IPV6 {
        Ok(NetProtocolType::IpV6)
    } else {
        Err(NetProtocolError::UnsurpportedProtocol { proto: value })
    }
}

impl TryFrom<u16> for NetProtocolType {
    type Error = NetProtocolError;

    fn try_from(value: u16) -> (res: Result<NetProtocolType, NetProtocolError>) {
        if value == NET_PROTOCOL_TYPE_IP {
            Ok(NetProtocolType::Ip)
        } else if value == NET_PROTOCOL_TYPE_ARP {
            Ok(NetProtocolType::Arp)
        } else if value == NET_PROTOCOL_TYPE_IPV6 {
            Ok(NetProtocolType::IpV6)
        } else {
            Err(NetProtocolError::UnsurpportedProtocol { proto: value })
        }
    }
}

impl vstd::std_specs::convert::TryFromSpecImpl<u16> for NetProtocolType {
    open spec fn obeys_try_from_spec() -> bool {
        true
    }

    open spec fn try_from_spec(value: u16) -> Result<NetProtocolType, NetProtocolError> {
        net_protocol_type_spec(value)
    }
}

} // verus!
