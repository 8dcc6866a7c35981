use vstd::prelude::*;

use crate::devices::ethernet::{ETHER_ADDR_SIZE, ETHER_TYPE_IP, EthernetAddr};
use crate::interfaces::{IpIface, NetIface, iface_has_unicast};
use crate::protocols::ip::{IP_ADDR_SIZE, IpAddr, be16_at, be16_from, be32_at, be32_from};
use crate::protocols::NetProtocolType;

verus! {

pub const ARP_OP_REQUEST: u16 = 0x0001;

pub const ARP_OP_REPLY: u16 = 0x0002;

pub const ARP_HRD_ETHER: u16 = 0x0001;

pub const ARP_PRO_IP: u16 = ETHER_TYPE_IP;

pub const ARP_HEADER_SIZE: usize = 8;

pub const ARP_ETHER_IP_BODY_SIZE: usize = 20;

/// Size of an ARP message for Ethernet and IPv4 addresses.
pub const ARP_ETHER_IP_SIZE: usize = 28;

#[derive(Clone, Copy, Debug, PartialEq, Eq, Structural)]
pub enum ArpProtocolError {
    UnsurpportedHardwareAddress { hrd: u16 },
    UnsurpportedProtocolAddress { pro: u16 },
    UnsurpportedOperation { op: u16 },
    TooShortPacket { len: usize },
}

#[derive(Clone, Copy, Debug, PartialEq, Eq, Structural)]
pub enum ArpOp {
    Request,
    Reply,
}

#[derive(Clone, Copy, Debug, PartialEq, Eq, Structural)]
pub enum ArpHardwareAddrSpace {
    Ethernet,
}

#[derive(Clone, Copy, Debug, PartialEq, Eq, Structural)]
pub enum ArpProtocolAddrSpace {
    Ip,
}

/// The ARP header; every field is held in host order.
#[derive(Clone, Copy, Debug)]
pub struct ArpHeader {
    /// Hardware address space.
    pub hrd: u16,
    /// Protocol address space.
    pub pro: u16,
    /// Hardware address length.
    pub hln: u8,
    /// Protocol address length.
    pub pln: u8,
    /// Operation code.
    pub op: u16,
}

pub open spec fn arp_hrd_spec(hrd: u16) -> Result<ArpHardwareAddrSpace, ArpProtocolError> {
    if hrd == ARP_HRD_ETHER {
        Ok(ArpHardwareAddrSpace::Ethernet)
    } else {
        Err(ArpProtocolError::UnsurpportedHardwareAddress { hrd })
    }
}

pub open spec fn arp_pro_spec(pro: u16) -> Result<ArpProtocolAddrSpace, ArpProtocolError> {
    if pro == ARP_PRO_IP {
        Ok(ArpProtocolAddrSpace::Ip)
    } else {
        Err(ArpProtocolError::UnsurpportedProtocolAddress { pro })
    }
}

pub open spec fn arp_op_spec(op: u16) -> Result<ArpOp, ArpProtocolError> {
    if op == ARP_OP_REQUEST {
        Ok(ArpOp::Request)
    } else if op == ARP_OP_REPLY {
        Ok(ArpOp::Reply)
    } else {
        Err(ArpProtocolError::UnsurpportedOperation { op })
    }
}

impl ArpHeader {
    pub fn hrd(&self) -> (res: Result<ArpHardwareAddrSpace, ArpProtocolError>)
        ensures
            res == arp_hrd_spec(self.hrd),
    {
        if self.hrd == ARP_HRD_ETHER {
            Ok(ArpHardwareAddrSpace::Ethernet)
        } else {
            Err(ArpProtocolError::UnsurpportedHardwareAddress { hrd: self.hrd })
        }
    }

    pub fn pro(&self) -> (res: Result<ArpProtocolAddrSpace, ArpProtocolError>)
        ensures
            res == arp_pro_spec(self.pro),
    {
        if self.pro == ARP_PRO_IP {
            Ok(ArpProtocolAddrSpace::Ip)
        } else {
            Err(ArpProtocolError::UnsurpportedProtocolAddress { pro: self.pro })
        }
    }

    pub fn hln(&self) -> (hln: u8)
        ensures
            hln == self.hln,
    {
        self.hln
    }

    pub fn pln(&self) -> (pln: u8)
        ensures
            pln == self.pln,
    {
        self.pln
    }

    pub fn op(&self) -> (res: Result<ArpOp, ArpProtocolError>)
        ensures
            res == arp_op_spec(self.op),
    {
        if self.op == ARP_OP_REQUEST {
            Ok(ArpOp::Request)
        } else if self.op == ARP_OP_REPLY {
            Ok(ArpOp::Reply)
        } else {
            Err(ArpProtocolError::UnsurpportedOperation { op: self.op })
        }
    }
}

/// The addresses of an ARP message for Ethernet and IPv4.
#[derive(Clone, Copy, Debug)]
pub struct ArpEtherIpBody {
    /// Source hardware address.
    pub sha: [u8; 6],
    /// Source protocol address.
    pub spa: [u8; 4],
    /// Target hardware address.
    pub tha: [u8; 6],
    /// Target protocol address.
    pub tpa: [u8; 4],
}

impl ArpEtherIpBody {
    pub fn sha(&self) -> (a: EthernetAddr)
        ensures
            a.0@ == self.sha@,
    {
        EthernetAddr::new(self.sha)
    }

    pub fn spa(&self) -> (a: IpAddr)
        ensures
            a.0 == be32_at(self.spa@, 0),
    {
        IpAddr(be32_from(&self.spa, 0))
    }

    pub fn tha(&self) -> (a: EthernetAddr)
        ensures
            a.0@ == self.tha@,
    {
        EthernetAddr::new(self.tha)
    }

    pub fn tpa(&self) -> (a: IpAddr)
        ensures
            a.0 == be32_at(self.tpa@, 0),
    {
        IpAddr(be32_from(&self.tpa, 0))
    }
}

/// An ARP message for Ethernet and IPv4.
#[derive(Clone, Copy, Debug)]
pub struct ArpEtherIp {
    pub header: ArpHeader,
    pub body: ArpEtherIpBody,
}

impl ArpEtherIp {
    /// Reads a message from the first 28 bytes of `data`.
    pub fn from_bytes(data: &[u8]) -> (msg: ArpEtherIp)
        requires
            data@.len() >= ARP_ETHER_IP_SIZE,
        ensures
            msg.header.hrd == be16_at(data@, 0),
            msg.header.pro == be16_at(data@, 2),
            msg.header.hln == data@[4],
            msg.header.pln == data@[5],
            msg.header.op == be16_at(data@, 6),
            msg.body.sha@ == data@.subrange(8, 14),
            msg.body.spa@ == data@.subrange(14, 18),
            msg.body.tha@ == data@.subrange(18, 24),
            msg.body.tpa@ == data@.subrange(24, 28),
    {
        let sha = [data[8], data[9], data[10], data[11], data[12], data[13]];
        let spa = [data[14], data[15], data[16], data[17]];
        let tha = [data[18], data[19], data[20], data[21], data[22], data[23]];
        let tpa = [data[24], data[25], data[26], data[27]];
        assert(sha@ =~= data@.subrange(8, 14));
        assert(spa@ =~= data@.subrange(14, 18));
        assert(tha@ =~= data@.subrange(18, 24));
        assert(tpa@ =~= data@.subrange(24, 28));
        ArpEtherIp {
            header: ArpHeader {
                hrd: be16_from(data, 0),
                pro: be16_from(data, 2),
                hln: data[4],
                pln: data[5],
                op: be16_from(data, 6),
            },
            body: ArpEtherIpBody { sha, spa, tha, tpa },
        }
    }
}

/// The index of the first IPv4 interface whose address is `tpa`, if any.
pub open spec fn arp_target_index(ifaces: Seq<NetIface>, tpa: u32) -> Option<int> {
    if exists|i: int| 0 <= i < ifaces.len() && iface_has_unicast(#[trigger] ifaces[i], tpa) {
        Some(
            choose|i: int|
                0 <= i < ifaces.len() && iface_has_unicast(#[trigger] ifaces[i], tpa) && forall|
                    j: int,
                | 0 <= j < i ==> !iface_has_unicast(#[trigger] ifaces[j], tpa),
        )
    } else {
        None
    }
}

/// What the receiving side makes of an ARP message `p` on a device with interfaces `ifaces`:
/// an error; `None` when no interface is the target; or the operation asked of the target
/// interface at that index, an address resolution that is not implemented.
pub open spec fn arp_input_spec(p: Seq<u8>, ifaces: Seq<NetIface>) -> Result<
    Option<(ArpOp, int)>,
    ArpProtocolError,
> {
    if p.len() < ARP_ETHER_IP_SIZE {
        Err(ArpProtocolError::TooShortPacket { len: p.len() as usize })
    } else if arp_hrd_spec(be16_at(p, 0)) is Err || p[4] != ETHER_ADDR_SIZE {
        Err(ArpProtocolError::UnsurpportedHardwareAddress { hrd: be16_at(p, 0) })
    } else if arp_pro_spec(be16_at(p, 2)) is Err || p[5] != IP_ADDR_SIZE {
        Err(ArpProtocolError::UnsurpportedProtocolAddress { pro: be16_at(p, 2) })
    } else {
        match arp_target_index(ifaces, be32_at(p, 24)) {
            None => Ok(None),
            Some(i) => match arp_op_spec(be16_at(p, 6)) {
                Err(e) => Err(e),
                Ok(op) => Ok(Some((op, i))),
            },
        }
    }
}

#[derive(Clone, Copy, Debug)]
pub struct ArpProtocol;

impl ArpProtocol {
    pub fn new() -> (p: ArpProtocol) {
        ArpProtocol
    }

    pub fn typ(&self) -> (t: NetProtocolType)
        ensures
            t == NetProtocolType::Arp,
    {
        NetProtocolType::Arp
    }

    /// Checks an ARP message received by a device with interfaces `ifaces`. Only Ethernet and
    /// IPv4 addresses are supported. Returns the operation and the target interface when an
    /// interface is the target; the request or reply is not acted on.
    pub fn handle(&self, data: &[u8], ifaces: &Vec<NetIface>) -> (res: Result<
        Option<(ArpOp, IpIface)>,
        ArpProtocolError,
    >)
        ensures
            match res {
                Err(e) => arp_input_spec(data@, ifaces@) == Err::<Option<(ArpOp, int)>, ArpProtocolError>(e),
                Ok(None) => arp_input_spec(data@, ifaces@) == Ok::<Option<(ArpOp, int)>, ArpProtocolError>(None),
                Ok(Some((op, iface))) => exists|i: int| {
                    &&& arp_input_spec(data@, ifaces@) == Ok::<Option<(ArpOp, int)>, ArpProtocolError>(Some((op, i)))
                    &&& ifaces@[i] == NetIface::Ip(iface)
                },
            },
    {
        if data.len() < ARP_ETHER_IP_SIZE {
            return Err(ArpProtocolError::TooShortPacket { len: data.len() });
        }
        let msg = ArpEtherIp::from_bytes(data);
        let hrd_ok = match msg.header.hrd() {
            Ok(ArpHardwareAddrSpace::Ethernet) => true,
            Err(_) => false,
        };
        if !hrd_ok || msg.header.hln() as usize != ETHER_ADDR_SIZE {
            return Err(ArpProtocolError::UnsurpportedHardwareAddress { hrd: msg.header.hrd });
        }
        let pro_ok = match msg.header.pro() {
            Ok(ArpProtocolAddrSpace::Ip) => true,
            Err(_) => false,
        };
        if !pro_ok || msg.header.pln() as usize != IP_ADDR_SIZE {
            return Err(ArpProtocolError::UnsurpportedProtocolAddress { pro: msg.header.pro });
        }
        let tpa = msg.body.tpa();
        assert(msg.body.tpa@ =~= data@.subrange(24, 28));
        assert(tpa.0 == be32_at(data@, 24));
        let mut k: usize = 0;
        while k < ifaces.len()
            invariant
                k <= ifaces@.len(),
                tpa.0 == be32_at(data@, 24),
                msg.header.op == be16_at(data@, 6),
                data@.len() >= ARP_ETHER_IP_SIZE,
                arp_hrd_spec(be16_at(data@, 0)) is Ok && data@[4] == ETHER_ADDR_SIZE,
                arp_pro_spec(be16_at(data@, 2)) is Ok && data@[5] == IP_ADDR_SIZE,
                forall|j: int| 0 <= j < k ==> !iface_has_unicast(#[trigger] ifaces@[j], tpa.0),
            decreases ifaces@.len() - k,
        {
            match &ifaces[k] {
                NetIface::Ip(ip_iface) => {
                    if *ip_iface.unicast() == tpa {
                        assert(iface_has_unicast(ifaces@[k as int], tpa.0));
                        let ghost i = choose|i: int|
                            0 <= i < ifaces@.len() && iface_has_unicast(#[trigger] ifaces@[i], tpa.0)
                                && forall|j: int|
                                0 <= j < i ==> !iface_has_unicast(#[trigger] ifaces@[j], tpa.0);
                        assert(i == k) by {
                            if i < k {
                                assert(!iface_has_unicast(ifaces@[i], tpa.0));
                            }
                            if i > k {
                                assert(!iface_has_unicast(ifaces@[k as int], tpa.0));
                            }
                        }
                        assert(arp_target_index(ifaces@, tpa.0) == Some(k as int));
                        return match msg.header.op() {
                            Ok(op) => Ok(Some((op, *ip_iface))),
                            Err(e) => Err(e),
                        };
                    }
                },
            }
            k = k + 1;
        }
        assert(arp_target_index(ifaces@, tpa.0) is None);
        Ok(None)
    }
}

/// Sending ARP messages is not implemented: this does nothing.
pub fn output() {
}

} // verus!
