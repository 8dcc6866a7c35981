use vstd::prelude::*;

use crate::devices::DeviceId;
use crate::protocols::ip::{IP_ADDR_BROADCAST, IpAddr, IpHeader};

verus! {

/// An IPv4 interface.
#[derive(Clone, Copy, Debug)]
pub struct IpIface {
    /// The device the interface is attached to.
    pub dev: Option<DeviceId>,
    pub unicast: IpAddr,
    pub netmask: IpAddr,
    pub broadcast: IpAddr,
}

impl IpIface {
    pub fn new(unicast: IpAddr, netmask: IpAddr) -> (iface: IpIface)
        ensures
            iface.dev is None,
            iface.unicast == unicast,
            iface.netmask == netmask,
            iface.broadcast.0 == (unicast.0 & netmask.0) | !netmask.0,
    {
        IpIface { dev: None, unicast, netmask, broadcast: IpAddr::broadcast(unicast, netmask) }
    }

    pub fn dev(&self) -> (dev: Option<DeviceId>)
        ensures
            dev == self.dev,
    {
        self.dev
    }

    pub fn unicast(&self) -> (addr: &IpAddr)
        ensures
            *addr == self.unicast,
    {
        &self.unicast
    }

    pub fn netmask(&self) -> (addr: &IpAddr)
        ensures
            *addr == self.netmask,
    {
        &self.netmask
    }

    pub fn broadcast(&self) -> (addr: &IpAddr)
        ensures
            *addr == self.broadcast,
    {
        &self.broadcast
    }

    /// Whether a datagram with header `hdr` is addressed to this interface: to its address, to
    /// its subnet's broadcast address, or to the limited broadcast address.
    pub fn should_proceed_packet(&self, hdr: &IpHeader) -> (proceed: bool)
        ensures
            proceed == (hdr.dst == self.unicast.0 || hdr.dst == self.broadcast.0 || hdr.dst
                == IP_ADDR_BROADCAST),
    {
        hdr.dst() == self.unicast || hdr.dst() == self.broadcast || hdr.dst() == IpAddr(
            IP_ADDR_BROADCAST,
        )
    }
}

} // verus!
