pub mod ip;

use vstd::prelude::*;

pub use crate::interfaces::ip::IpIface;
use crate::devices::DeviceId;

verus! {

/// A network interface: an address family configured on a device.
#[derive(Clone, Copy, Debug)]
pub enum NetIface {
    Ip(IpIface),
}

#[derive(Clone, Copy, Debug, PartialEq, Eq, Structural)]
pub enum IfaceFamilyKind {
    Ip,
}

/// The address family of an interface.
pub open spec fn iface_family(iface: NetIface) -> IfaceFamilyKind {
    match iface {
        NetIface::Ip(_) => IfaceFamilyKind::Ip,
    }
}

/// Whether `iface` is an IPv4 interface with address `addr`.
pub open spec fn iface_has_unicast(iface: NetIface, addr: u32) -> bool {
    match iface {
        NetIface::Ip(ip) => ip.unicast.0 == addr,
    }
}

/// The device an interface is attached to, if any.
pub open spec fn iface_dev(iface: NetIface) -> Option<DeviceId> {
    match iface {
        NetIface::Ip(ip) => ip.dev,
    }
}

/// The interface attached to `dev`.
pub open spec fn iface_with_dev(iface: NetIface, dev: DeviceId) -> NetIface {
    match iface {
        NetIface::Ip(ip) => NetIface::Ip(IpIface { dev: Some(dev), ..ip }),
    }
}

impl NetIface {
    pub fn family_kind(&self) -> (kind: IfaceFamilyKind)
        ensures
            kind == iface_family(*self),
    {
        match self {
            NetIface::Ip(_) => IfaceFamilyKind::Ip,
        }
    }

    pub fn dev(&self) -> (dev: Option<DeviceId>)
        ensures
            dev == iface_dev(*self),
    {
        match self {
            NetIface::Ip(ip_iface) => ip_iface.dev,
        }
    }

    pub fn set_dev(&mut self, dev: DeviceId)
        ensures
            *final(self) == iface_with_dev(*old(self), dev),
    {
        match self {
            NetIface::Ip(ip_iface) => {
                ip_iface.dev = Some(dev);
            },
        }
    }
}

} // verus!
