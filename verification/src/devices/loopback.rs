use vstd::prelude::*;

use crate::devices::rx_ring::{IP_PAYLOAD_SIZE_MAX, LOOPBACK_DEVICE_NR_BUFS, LoRxRing, ring_add};
use crate::devices::{
    DeviceId, NET_DEVICE_FLAG_LOOPBACK, NetDeviceAddr, NetDeviceError, NetDeviceInner,
    NetDeviceType, OutputAction, RxBuf, RxBufDesc,
};
use crate::protocols::ip::{IP_ADDR_BROADCAST, IP_ADDR_LOOPBACK, IpAddr};
use crate::protocols::NetProtocolType;

verus! {

/// Maximum size of an IP datagram.
pub const LOOPBACK_MTU: u16 = 65535;

/// The parameters of the loopback device with id `dev_id`.
pub open spec fn loopback_inner(dev_id: DeviceId) -> NetDeviceInner {
    NetDeviceInner {
        dev_id: dev_id,
        typ: NetDeviceType::Loopback,
        mtu: LOOPBACK_MTU,
        flags: NET_DEVICE_FLAG_LOOPBACK,
        hlen: 0,
        addr: NetDeviceAddr::Ip(IpAddr(IP_ADDR_LOOPBACK)),
        bloadcast: NetDeviceAddr::Ip(IpAddr(IP_ADDR_BROADCAST)),
    }
}

/// A device whose output is received back by the same host.
#[derive(Debug)]
pub struct LoopbackDevice {
    inner: NetDeviceInner,
    rx_ring: LoRxRing,
}

impl LoopbackDevice {
    pub closed spec fn inner_spec(&self) -> NetDeviceInner {
        self.inner
    }

    /// The receive ring.
    pub closed spec fn ring(&self) -> LoRxRing {
        self.rx_ring
    }

    pub open spec fn wf(&self) -> bool {
        &&& self.ring().wf()
        &&& self.inner_spec().mtu == LOOPBACK_MTU
        &&& self.inner_spec().typ == NetDeviceType::Loopback
    }

    pub fn new(dev_id: DeviceId) -> (dev: LoopbackDevice)
        ensures
            dev.wf(),
            dev.inner_spec() == loopback_inner(dev_id),
            dev.ring().pending() == Seq::<Seq<u8>>::empty(),
            dev.ring().free_slots() == LOOPBACK_DEVICE_NR_BUFS - 1,
    {
        LoopbackDevice {
            inner: NetDeviceInner {
                dev_id,
                typ: NetDeviceType::Loopback,
                mtu: LOOPBACK_MTU,
                flags: NET_DEVICE_FLAG_LOOPBACK,
                hlen: 0,
                addr: NetDeviceAddr::Ip(IpAddr(IP_ADDR_LOOPBACK)),
                bloadcast: NetDeviceAddr::Ip(IpAddr(IP_ADDR_BROADCAST)),
            },
            rx_ring: LoRxRing::new(),
        }
    }

    pub fn info(&self) -> (inner: NetDeviceInner)
        ensures
            inner == self.inner_spec(),
    {
        self.inner
    }

    /// Nothing to do.
    pub fn open(&self) -> (res: Result<(), NetDeviceError>)
        ensures
            res is Ok,
    {
        Ok(())
    }

    /// Nothing to do.
    pub fn close(&self) -> (res: Result<(), NetDeviceError>)
        ensures
            res is Ok,
    {
        Ok(())
    }

    /// Writes `data` into the receive ring and asks for a receive interrupt; when no buffer is
    /// free the packet is dropped.
    pub fn output(&mut self, data: &[u8]) -> (res: Result<OutputAction, NetDeviceError>)
        requires
            old(self).wf(),
            data@.len() <= IP_PAYLOAD_SIZE_MAX,
        ensures
            final(self).wf(),
            final(self).inner_spec() == old(self).inner_spec(),
            final(self).ring().next_to_clean() == old(self).ring().next_to_clean(),
            old(self).ring().free_slots() > 0 ==> {
                &&& res == Ok::<OutputAction, NetDeviceError>(
                    OutputAction::RxIrq { dev: old(self).inner_spec().dev_id },
                )
                &&& final(self).ring().pending() == old(self).ring().pending().push(data@)
                &&& final(self).ring().free_slots() == old(self).ring().free_slots() - 1
            },
            old(self).ring().free_slots() == 0 ==> {
                &&& res == Ok::<OutputAction, NetDeviceError>(OutputAction::Dropped)
                &&& final(self).ring().pending() == old(self).ring().pending()
                &&& final(self).ring().free_slots() == 0
            },
    {
        match self.rx_ring.buf_to_write() {
            Some(mut buf) => {
                buf.copy_from_slice(data);
                buf.commit(&mut self.rx_ring, data.len());
                Ok(OutputAction::RxIrq { dev: self.inner.dev_id })
            },
            None => Ok(OutputAction::Dropped),
        }
    }

    /// The oldest received packet, always an IP datagram, if any.
    pub fn rx_next_clean_buf(&self) -> (res: Option<RxBuf<'_>>)
        requires
            self.wf(),
        ensures
            res is None <==> self.ring().pending().len() == 0,
            res matches Some(rx) ==> {
                &&& rx.desc.value() == self.ring().next_to_clean()
                &&& rx.buf@ == self.ring().pending()[0]
                &&& rx.typ == NetProtocolType::Ip
            },
    {
        match self.rx_ring.buf_to_clean() {
            Some((desc, buf)) => Some(RxBuf { desc, buf, typ: NetProtocolType::Ip }),
            None => None,
        }
    }

    /// Frees the buffer of the oldest received packet.
    pub fn rx_free_buf(&mut self, desc: RxBufDesc)
        requires
            old(self).wf(),
            old(self).ring().pending().len() > 0,
            desc.value() == old(self).ring().next_to_clean(),
        ensures
            final(self).wf(),
            final(self).inner_spec() == old(self).inner_spec(),
            final(self).ring().pending() == old(self).ring().pending().drop_first(),
            final(self).ring().next_to_clean() == ring_add(
                old(self).ring().next_to_clean(),
                1,
                LOOPBACK_DEVICE_NR_BUFS as int,
            ),
            final(self).ring().free_slots() == old(self).ring().free_slots() + 1,
    {
        self.rx_ring.free_buf(desc);
    }
}

} // verus!
