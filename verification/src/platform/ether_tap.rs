use vstd::prelude::*;

use crate::devices::ethernet::{
    ETHER_HEADER_SIZE, ETHER_PAYLOAD_SIZE_MAX, ETHER_PAYLOAD_SIZE_MIN, EthernetAddr, EthernetError,
    EthernetHeader, EthernetType, ether_addr_any_bytes, ether_addr_broadcast_bytes,
    ethernet_header_bytes, ethernet_of_net_protocol, ethernet_type_number, ethernet_type_spec,
    net_protocol_of_ethernet, lemma_ethernet_type_roundtrip, lemma_ethernet_net_protocol_roundtrip,
};
use crate::devices::{
    DeviceId, NET_DEVICE_FLAG_BROADCAST, NET_DEVICE_FLAG_NEED_ARP, NetDeviceAddr,
    NetDeviceError, NetDeviceInner, NetDeviceType,
};
use crate::protocols::ip::{be16_at, push_slice};
use crate::protocols::NetProtocolType;

verus! {

/// The frame that carries `data` of type `typ` from `src` to `dst`: the header, the data, and
/// zero bytes up to the minimum payload size.
pub open spec fn ether_frame_spec(dst: Seq<u8>, src: Seq<u8>, typ: u16, data: Seq<u8>) -> Seq<u8> {
    dst + src + seq![(typ / 256) as u8, (typ % 256) as u8] + data + Seq::new(
        if data.len() < ETHER_PAYLOAD_SIZE_MIN {
            (ETHER_PAYLOAD_SIZE_MIN - data.len()) as nat
        } else {
            0
        },
        |i: int| 0u8,
    )
}

/// What `output` makes of `data` of type `typ` sent to `dst` by a device with address `hw`:
/// the frame, or the error.
pub open spec fn ether_output_spec(hw: Seq<u8>, typ: NetProtocolType, data: Seq<u8>, dst: NetDeviceAddr) -> Result<Seq<u8>, NetDeviceError> {
    match dst {
        NetDeviceAddr::Ip(_) => Err(NetDeviceError::UnresolvedAddress),
        NetDeviceAddr::Ethernet(d) => if data.len() > ETHER_PAYLOAD_SIZE_MAX {
            Err(NetDeviceError::OutOfPayloadSize { size: data.len() as usize })
        } else {
            Ok(ether_frame_spec(d.0@, hw, ethernet_type_number(ethernet_of_net_protocol(typ)), data))
        },
    }
}

/// What the receiving side makes of a frame read from the tap device, for a device with address
/// `addr`: `None` for a frame that it skips, else the protocol of the payload, which starts after
/// the header.
pub open spec fn ether_input_spec(frame: Seq<u8>, addr: Seq<u8>) -> Result<
    Option<NetProtocolType>,
    EthernetError,
> {
    if frame.len() < ETHER_HEADER_SIZE {
        Ok(None)
    } else {
        match ethernet_type_spec(be16_at(frame, 12)) {
            Err(e) => Err(e),
            Ok(t) => if frame.subrange(0, 6) != addr && frame.subrange(0, 6)
                != ether_addr_broadcast_bytes() {
                Ok(None)
            } else {
                Ok(Some(net_protocol_of_ethernet(t)))
            },
        }
    }
}

/// The parameters of the tap device with id `dev_id` before it is opened.
pub open spec fn ether_tap_inner(dev_id: DeviceId, any: EthernetAddr, broadcast: EthernetAddr) -> NetDeviceInner {
    NetDeviceInner {
        dev_id: dev_id,
        typ: NetDeviceType::Ethernet,
        mtu: ETHER_PAYLOAD_SIZE_MAX as u16,
        flags: NET_DEVICE_FLAG_BROADCAST | NET_DEVICE_FLAG_NEED_ARP,
        hlen: ETHER_HEADER_SIZE as u16,
        addr: NetDeviceAddr::Ethernet(any),
        bloadcast: NetDeviceAddr::Ethernet(broadcast),
    }
}

/// An Ethernet device backed by a Linux tap device. The opening of the tap device and the reads
/// and writes on it are done by the caller; this type holds the device's state and builds and
/// checks its frames.
#[derive(Debug)]
pub struct EtherTapDevice {
    inner: NetDeviceInner,
    tap_file: i32,
}

impl EtherTapDevice {
    pub closed spec fn inner_spec(&self) -> NetDeviceInner {
        self.inner
    }

    pub closed spec fn tap_file_spec(&self) -> i32 {
        self.tap_file
    }

    /// The hardware address of the device.
    pub open spec fn hw_addr_spec(&self) -> Seq<u8> {
        match self.inner_spec().addr {
            NetDeviceAddr::Ethernet(a) => a.0@,
            NetDeviceAddr::Ip(_) => Seq::empty(),
        }
    }

    pub open spec fn wf(&self) -> bool {
        &&& self.inner_spec().addr is Ethernet
        &&& self.inner_spec().typ == NetDeviceType::Ethernet
        &&& self.inner_spec().mtu == ETHER_PAYLOAD_SIZE_MAX
    }

    pub fn new(dev_id: DeviceId) -> (dev: EtherTapDevice)
        ensures
            dev.wf(),
            dev.inner_spec().dev_id == dev_id,
            dev.inner_spec().typ == NetDeviceType::Ethernet,
            dev.inner_spec().mtu == ETHER_PAYLOAD_SIZE_MAX,
            dev.inner_spec().flags == NET_DEVICE_FLAG_BROADCAST | NET_DEVICE_FLAG_NEED_ARP,
            dev.inner_spec().hlen == ETHER_HEADER_SIZE,
            dev.hw_addr_spec() == ether_addr_any_bytes(),
            dev.inner_spec().bloadcast matches NetDeviceAddr::Ethernet(b) && b.0@
                == ether_addr_broadcast_bytes(),
            dev.tap_file_spec() == -1,
    {
        EtherTapDevice {
            inner: NetDeviceInner::new(
                dev_id,
                NetDeviceType::Ethernet,
                ETHER_PAYLOAD_SIZE_MAX as u16,
                NET_DEVICE_FLAG_BROADCAST | NET_DEVICE_FLAG_NEED_ARP,
                ETHER_HEADER_SIZE as u16,
                NetDeviceAddr::Ethernet(EthernetAddr::any()),
                NetDeviceAddr::Ethernet(EthernetAddr::broadcast()),
            ),
            tap_file: -1,
        }
    }

    pub fn info(&self) -> (inner: NetDeviceInner)
        ensures
            inner == self.inner_spec(),
    {
        self.inner
    }

    pub fn tap_file(&self) -> (fd: i32)
        ensures
            fd == self.tap_file_spec(),
    {
        self.tap_file
    }

    /// Records the descriptor of the opened tap device.
    pub fn set_tap_file(&mut self, fd: i32)
        ensures
            final(self).tap_file_spec() == fd,
            final(self).inner_spec() == old(self).inner_spec(),
    {
        self.tap_file = fd;
    }

    /// Takes `hw` as the device's address when the device has none yet (its address is
    /// 00:00:00:00:00:00).
    pub fn learn_hw_addr(&mut self, hw: [u8; 6])
        requires
            old(self).wf(),
        ensures
            final(self).wf(),
            final(self).tap_file_spec() == old(self).tap_file_spec(),
            final(self).hw_addr_spec() == if old(self).hw_addr_spec() == ether_addr_any_bytes() {
                hw@
            } else {
                old(self).hw_addr_spec()
            },
            final(self).inner_spec().dev_id == old(self).inner_spec().dev_id,
            final(self).inner_spec().flags == old(self).inner_spec().flags,
            final(self).inner_spec().bloadcast == old(self).inner_spec().bloadcast,
    {
        let any = EthernetAddr::any();
        let is_any = match &self.inner.addr {
            NetDeviceAddr::Ethernet(a) => a.equals(&any),
            NetDeviceAddr::Ip(_) => false,
        };
        if is_any {
            self.inner.set_addr(NetDeviceAddr::Ethernet(EthernetAddr::new(hw)));
        }
    }

    /// The hardware address of the device.
    pub fn hw_addr(&self) -> (a: EthernetAddr)
        requires
            self.wf(),
        ensures
            a.0@ == self.hw_addr_spec(),
    {
        match &self.inner.addr {
            NetDeviceAddr::Ethernet(a) => *a,
            NetDeviceAddr::Ip(_) => EthernetAddr::any(),
        }
    }

    /// Builds the frame that sends `data` of type `typ` to `dst`.
    pub fn output(&self, typ: NetProtocolType, data: &[u8], dst: NetDeviceAddr) -> (res: Result<
        Vec<u8>,
        NetDeviceError,
    >)
        requires
            self.wf(),
        ensures
            match res {
                Ok(frame) => ether_output_spec(self.hw_addr_spec(), typ, data@, dst) == Ok::<Seq<u8>, NetDeviceError>(frame@),
                Err(e) => ether_output_spec(self.hw_addr_spec(), typ, data@, dst) == Err::<Seq<u8>, NetDeviceError>(e),
            },
    {
        let dst = match dst {
            NetDeviceAddr::Ethernet(d) => d,
            NetDeviceAddr::Ip(_) => {
                return Err(NetDeviceError::UnresolvedAddress);
            },
        };
        let addr = self.hw_addr();
        let hdr = EthernetHeader::new(dst, addr, EthernetType::from(typ));
        let data_len = data.len();
        if data_len > ETHER_PAYLOAD_SIZE_MAX {
            return Err(NetDeviceError::OutOfPayloadSize { size: data_len });
        }
        let mut frame = hdr.to_bytes();
        push_slice(&mut frame, data);
        let payload_len = if data_len < ETHER_PAYLOAD_SIZE_MIN {
            ETHER_PAYLOAD_SIZE_MIN
        } else {
            data_len
        };
        let ghost before_pad = frame@;
        let mut i = data_len;
        while i < payload_len
            invariant
                data_len <= i <= payload_len,
                payload_len <= ETHER_PAYLOAD_SIZE_MAX,
                frame@.len() == ETHER_HEADER_SIZE + i,
                frame@.subrange(0, before_pad.len() as int) == before_pad,
                before_pad.len() == ETHER_HEADER_SIZE + data_len,
                forall|j: int| before_pad.len() <= j < frame@.len() ==> frame@[j] == 0u8,
            decreases payload_len - i,
        {
            frame.push(0u8);
            i = i + 1;
        }
        assert(frame@ =~= ether_frame_spec(
            dst.0@,
            self.hw_addr_spec(),
            ethernet_type_number(ethernet_of_net_protocol(typ)),
            data@,
        ));
        Ok(frame)
    }

    /// Decides what to do with a frame read from the tap device: skip it (too short, or for
    /// another host), or pass its payload, after the header, to the protocol it names.
    pub fn input(&self, frame: &[u8]) -> (res: Result<Option<NetProtocolType>, EthernetError>)
        requires
            self.wf(),
        ensures
            res == ether_input_spec(frame@, self.hw_addr_spec()),
    {
        if frame.len() < ETHER_HEADER_SIZE {
            return Ok(None);
        }
        let hdr = EthernetHeader::from_bytes(frame);
        let typ = match hdr.typ() {
            Ok(t) => t,
            Err(e) => {
                return Err(e);
            },
        };
        let addr = self.hw_addr();
        let dst = hdr.dst();
        if !dst.equals(&addr) && !dst.equals(&EthernetAddr::broadcast()) {
            return Ok(None);
        }
        Ok(Some(NetProtocolType::from(typ)))
    }
}

/// A frame reaches exactly the hosts it is sent to, and tells them the protocol it was sent
/// with: the frame that a device with address `hw` builds for `data` of protocol `typ` to the
/// Ethernet address `d` starts with `d` and then `hw`; a device with address `b` accepts it when
/// `d` is `b` or the broadcast address, and then reads back `typ`, and skips it otherwise.
pub proof fn lemma_ether_frame_delivered(
    hw: Seq<u8>,
    typ: NetProtocolType,
    data: Seq<u8>,
    d: EthernetAddr,
    b: Seq<u8>,
)
    requires
        hw.len() == 6,
        b.len() == 6,
        data.len() <= ETHER_PAYLOAD_SIZE_MAX,
    ensures
        ether_output_spec(hw, typ, data, NetDeviceAddr::Ethernet(d)) is Ok,
        ether_output_spec(hw, typ, data, NetDeviceAddr::Ethernet(d)) matches Ok(f) && {
            &&& f.subrange(0, 6) == d.0@
            &&& f.subrange(6, 12) == hw
            &&& ether_input_spec(f, b) == if d.0@ == b || d.0@ == ether_addr_broadcast_bytes() {
                Ok::<Option<NetProtocolType>, EthernetError>(Some(typ))
            } else {
                Ok::<Option<NetProtocolType>, EthernetError>(None)
            }
        },
{
    let et = ethernet_of_net_protocol(typ);
    let t = ethernet_type_number(et);
    let f = ether_frame_spec(d.0@, hw, t, data);
    assert(f.subrange(0, 6) =~= d.0@);
    assert(f.subrange(6, 12) =~= hw);
    assert(f[12] == (t / 256) as u8 && f[13] == (t % 256) as u8);
    assert(be16_at(f, 12) == t) by {
        match et {
            EthernetType::Ip => {},
            EthernetType::Arp => {},
            EthernetType::IpV6 => {},
        }
    }
    lemma_ethernet_type_roundtrip(et);
    lemma_ethernet_net_protocol_roundtrip(et, typ);
}

} // verus!
