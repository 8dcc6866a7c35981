pub mod ethernet;
pub mod loopback;
pub mod rx_ring;

use vstd::prelude::*;

use crate::devices::ethernet::EthernetAddr;
use crate::devices::loopback::LoopbackDevice;
use crate::platform::ether_tap::EtherTapDevice;
use crate::protocols::ip::IpAddr;
use crate::protocols::{NetProtocolError, NetProtocolType};

verus! {

/// Index of a device in the protocol stack.
#[derive(Clone, Copy, Debug, PartialEq, Eq, Structural)]
pub struct DeviceId(pub usize);

impl DeviceId {
    /// The index, as an integer.
    pub open spec fn index(&self) -> int {
        self.0 as int
    }

    pub fn new(value: usize) -> (id: DeviceId)
        ensures
            id.0 == value,
    {
        DeviceId(value)
    }

    pub fn value(&self) -> (v: usize)
        ensures
            v == self.0,
    {
        self.0
    }
}

/// Descriptor of a received packet buffer: its index in the receive ring.
#[derive(Clone, Copy, Debug, PartialEq, Eq, Structural)]
pub struct RxBufDesc(pub usize);

impl RxBufDesc {
    pub fn new(value: usize) -> (desc: RxBufDesc)
        ensures
            desc.value() == value,
    {
        RxBufDesc(value)
    }

    pub open spec fn value_spec(&self) -> usize {
        self.0
    }

    #[verifier::when_used_as_spec(value_spec)]
    pub fn value(&self) -> (v: usize)
        ensures
            v == self.0,
    {
        self.0
    }
}

/// A received packet handed out by a device.
pub struct RxBuf<'a> {
    pub desc: RxBufDesc,
    pub buf: &'a [u8],
    pub typ: NetProtocolType,
}

/// What a device asks of the protocol stack after an output.
#[derive(Clone, Debug)]
pub enum OutputAction {
    /// The packet was queued for receipt on `dev`: its receive interrupt is to be raised.
    RxIrq { dev: DeviceId },
    /// The frame is to be written to the device `dev` by its driver.
    Transmit { dev: DeviceId, frame: Vec<u8> },
    /// The packet was dropped.
    Dropped,
}

#[derive(Debug)]
pub enum NetDeviceError {
    ProtocolError { err: NetProtocolError },
    EtherTapOpenFailed,
    OutOfPayloadSize { size: usize },
    /// The destination has no hardware address this device can send to; address resolution is
    /// not implemented.
    UnresolvedAddress,
}

#[derive(Clone, Copy, Debug, PartialEq, Eq, Structural)]
pub enum NetDeviceType {
    Dummy,
    Loopback,
    Ethernet,
}

pub const NET_DEVICE_FLAG_UP: u16 = 0x0001;

pub const NET_DEVICE_FLAG_LOOPBACK: u16 = 0x0002;

pub const NET_DEVICE_FLAG_BROADCAST: u16 = 0x0004;

pub const NET_DEVICE_FLAG_P2P: u16 = 0x0008;

pub const NET_DEVICE_FLAG_NEED_ARP: u16 = 0x0010;

/// The hardware address of a device.
#[derive(Clone, Copy, Debug)]
pub enum NetDeviceAddr {
    Ethernet(EthernetAddr),
    Ip(IpAddr),
}

/// The parameters of a device.
#[derive(Clone, Copy, Debug)]
pub struct NetDeviceInner {
    pub dev_id: DeviceId,
    pub typ: NetDeviceType,
    pub mtu: u16,
    pub flags: u16,
    pub hlen: u16,
    pub addr: NetDeviceAddr,
    pub bloadcast: NetDeviceAddr,
}

impl NetDeviceInner {
    pub fn new(
        dev_id: DeviceId,
        typ: NetDeviceType,
        mtu: u16,
        flags: u16,
        hlen: u16,
        addr: NetDeviceAddr,
        bloadcast: NetDeviceAddr,
    ) -> (inner: NetDeviceInner)
        ensures
            inner == (NetDeviceInner { dev_id, typ, mtu, flags, hlen, addr, bloadcast }),
    {
        NetDeviceInner { dev_id, typ, mtu, flags, hlen, addr, bloadcast }
    }

    pub fn dev_id(&self) -> (id: DeviceId)
        ensures
            id == self.dev_id,
    {
        self.dev_id
    }

    pub fn typ(&self) -> (t: NetDeviceType)
        ensures
            t == self.typ,
    {
        self.typ
    }

    pub fn mtu(&self) -> (mtu: u16)
        ensures
            mtu == self.mtu,
    {
        self.mtu
    }

    pub fn flags(&self) -> (flags: u16)
        ensures
            flags == self.flags,
    {
        self.flags
    }

    pub fn flags_mut(&mut self) -> (flags: &mut u16)
        ensures
            *flags == old(self).flags,
            *final(self) == (NetDeviceInner { flags: *final(flags), ..*old(self) }),
    {
        &mut self.flags
    }

    pub fn hlen(&self) -> (hlen: u16)
        ensures
            hlen == self.hlen,
    {
        self.hlen
    }

    pub fn addr(&self) -> (addr: &NetDeviceAddr)
        ensures
            *addr == self.addr,
    {
        &self.addr
    }

    pub fn set_addr(&mut self, addr: NetDeviceAddr)
        ensures
            *final(self) == (NetDeviceInner { addr: addr, ..*old(self) }),
    {
        self.addr = addr;
    }

    pub fn bloadcast(&self) -> (addr: &NetDeviceAddr)
        ensures
            *addr == self.bloadcast,
    {
        &self.bloadcast
    }

    /// Whether the UP flag is set.
    pub fn is_open(&self) -> (open: bool)
        ensures
            open == ((self.flags & NET_DEVICE_FLAG_UP) != 0),
    {
        (self.flags & NET_DEVICE_FLAG_UP) != 0
    }

    /// Whether the UP flag is clear.
    pub fn is_close(&self) -> (close: bool)
        ensures
            close == ((self.flags & NET_DEVICE_FLAG_UP) == 0),
    {
        (self.flags & NET_DEVICE_FLAG_UP) == 0
    }

    /// Masks the flags with the UP flag.
    pub fn set_open_flag(&mut self)
        ensures
            *final(self) == (NetDeviceInner { flags: old(self).flags & NET_DEVICE_FLAG_UP, ..*old(self) }),
    {
        *self.flags_mut() &= NET_DEVICE_FLAG_UP;
    }

    /// Clears the UP flag.
    pub fn set_close_flag(&mut self)
        ensures
            *final(self) == (NetDeviceInner { flags: old(self).flags & !NET_DEVICE_FLAG_UP, ..*old(self) }),
    {
        *self.flags_mut() &= !NET_DEVICE_FLAG_UP;
    }
}

} // verus!
