pub mod context;
pub mod name;

pub use crate::net::context::ProtocolStackContext;

use std::sync::Arc;

use vstd::prelude::*;

use crate::data_structure::rcu::RcuCell;
use crate::devices::loopback::{LoopbackDevice, loopback_inner};
use crate::devices::rx_ring::IP_PAYLOAD_SIZE_MAX;
use crate::devices::{DeviceId, NetDeviceAddr, NetDeviceError, NetDeviceInner, OutputAction, RxBuf, RxBufDesc};
use crate::interfaces::{IfaceFamilyKind, IpIface, NetIface, iface_family, iface_with_dev};
use crate::net::name::{device_name, device_name_spec, lemma_device_name_injective};
use crate::platform::ether_tap::{EtherTapDevice, ether_output_spec};
use crate::protocols::arp::ArpProtocol;
use crate::protocols::icmp::IcmpProtocol;
use crate::protocols::ip::{IP_ADDR_LOOPBACK, IP_ADDR_LOOPBACK_NETMASK, IpAddr, IpProtocol, IpUpperProtocolHandler, be32_of, mock_upper_handlers};
use crate::devices::ethernet::ether_addr_any_bytes;
use crate::protocols::NetProtocolType;

verus! {

#[derive(Debug)]
pub enum AppError {
    FaildToInit,
    DeviceAlreadyOpened { name: String },
    DeviceAlreadyClosed { name: String },
    DataLongerThanMTU { mtu: u16, len: usize },
    DuplicatedIfaceFamily { family: IfaceFamilyKind, dev: String },
    DeviceError { error: NetDeviceError },
    DeviceNotFound { dev: String },
}

impl From<NetDeviceError> for AppError {
    fn from(value: NetDeviceError) -> (e: AppError) {
        AppError::DeviceError { error: value }
    }
}

impl vstd::std_specs::convert::FromSpecImpl<NetDeviceError> for AppError {
    open spec fn obeys_from_spec() -> bool {
        true
    }

    open spec fn from_spec(value: NetDeviceError) -> AppError {
        AppError::DeviceError { error: value }
    }
}

/// The devices the stack drives.
#[derive(Debug)]
pub enum NetDeviceKind {
    Loopback(LoopbackDevice),
    EtherTap(EtherTapDevice),
}

/// What `NetDeviceKind::output` does: the loopback device queues the packet in its receive ring
/// (or drops it when the ring is full), the tap device builds the frame for its driver to write.
pub open spec fn device_output_spec(
    old: NetDeviceKind,
    new: NetDeviceKind,
    typ: NetProtocolType,
    data: Seq<u8>,
    dst: NetDeviceAddr,
    res: Result<OutputAction, NetDeviceError>,
) -> bool {
    match old {
        NetDeviceKind::Loopback(d) => new matches NetDeviceKind::Loopback(d2) && {
            &&& d2.wf()
            &&& d2.inner_spec() == d.inner_spec()
            &&& d2.ring().next_to_clean() == d.ring().next_to_clean()
            &&& if d.ring().free_slots() > 0 {
                &&& res == Ok::<OutputAction, NetDeviceError>(
                    OutputAction::RxIrq { dev: d.inner_spec().dev_id },
                )
                &&& d2.ring().pending() == d.ring().pending().push(data)
                &&& d2.ring().free_slots() == d.ring().free_slots() - 1
            } else {
                &&& res == Ok::<OutputAction, NetDeviceError>(OutputAction::Dropped)
                &&& d2.ring().pending() == d.ring().pending()
                &&& d2.ring().free_slots() == 0
            }
        },
        NetDeviceKind::EtherTap(d) => new == old && match ether_output_spec(
            d.hw_addr_spec(),
            typ,
            data,
            dst,
        ) {
            Ok(frame) => res matches Ok(OutputAction::Transmit { dev, frame: f }) && dev
                == d.inner_spec().dev_id && f@ == frame,
            Err(e) => res == Err::<OutputAction, NetDeviceError>(e),
        },
    }
}

/// `new` is the loopback device `old` after it freed the buffer of a packet: one more buffer
/// can be written.
pub open spec fn rx_slot_freed(old: NetDeviceKind, new: NetDeviceKind) -> bool {
    &&& old matches NetDeviceKind::Loopback(d)
    &&& new matches NetDeviceKind::Loopback(d2)
    &&& d2.ring().free_slots() == d.ring().free_slots() + 1
}

impl NetDeviceKind {
    pub open spec fn wf(&self) -> bool {
        match self {
            NetDeviceKind::Loopback(d) => d.wf(),
            NetDeviceKind::EtherTap(d) => d.wf(),
        }
    }

    pub open spec fn inner_spec(&self) -> NetDeviceInner {
        match self {
            NetDeviceKind::Loopback(d) => d.inner_spec(),
            NetDeviceKind::EtherTap(d) => d.inner_spec(),
        }
    }

    pub fn info(&self) -> (inner: NetDeviceInner)
        ensures
            inner == self.inner_spec(),
    {
        match self {
            NetDeviceKind::Loopback(d) => d.info(),
            NetDeviceKind::EtherTap(d) => d.info(),
        }
    }

    /// Closing needs nothing from either device.
    pub fn close(&self) -> (res: Result<(), NetDeviceError>)
        ensures
            res is Ok,
    {
        match self {
            NetDeviceKind::Loopback(d) => d.close(),
            NetDeviceKind::EtherTap(_) => Ok(()),
        }
    }

    /// Sends `data` of type `typ` to `dst`.
    pub fn output(&mut self, typ: NetProtocolType, data: &[u8], dst: NetDeviceAddr) -> (res: Result<
        OutputAction,
        NetDeviceError,
    >)
        requires
            old(self).wf(),
            data@.len() <= old(self).inner_spec().mtu,
        ensures
            final(self).wf(),
            final(self).inner_spec() == old(self).inner_spec(),
            device_output_spec(*old(self), *final(self), typ, data@, dst, res),
    {
        match self {
            NetDeviceKind::Loopback(d) => {
                proof {
                    d.ring().lemma_wf_counts();
                }
                let r = d.output(data);
                r
            },
            NetDeviceKind::EtherTap(d) => {
                let r = d.output(typ, data, dst);
                let id = d.info().dev_id;
                match r {
                    Ok(frame) => Ok(OutputAction::Transmit { dev: id, frame }),
                    Err(e) => Err(e),
                }
            },
        }
    }

    /// The packets received and not yet handled.
    pub open spec fn rx_pending(&self) -> Seq<Seq<u8>> {
        match self {
            NetDeviceKind::Loopback(d) => d.ring().pending(),
            NetDeviceKind::EtherTap(_) => Seq::empty(),
        }
    }

    /// The oldest received packet, if any. Only the loopback device receives through a ring.
    pub fn rx_next_clean_buf(&self) -> (res: Option<RxBuf<'_>>)
        requires
            self.wf(),
        ensures
            res is None <==> self.rx_pending().len() == 0,
            res matches Some(rx) ==> {
                &&& self matches NetDeviceKind::Loopback(d)
                &&& rx.desc.value() == d.ring().next_to_clean()
                &&& rx.buf@ == self.rx_pending()[0]
                &&& rx.typ == NetProtocolType::Ip
            },
    {
        match self {
            NetDeviceKind::Loopback(d) => d.rx_next_clean_buf(),
            NetDeviceKind::EtherTap(_) => None,
        }
    }

    /// Frees the buffer of the oldest received packet.
    pub fn rx_free_buf(&mut self, desc: RxBufDesc)
        requires
            old(self).wf(),
            *old(self) matches NetDeviceKind::Loopback(d) && d.ring().pending().len() > 0
                && desc.value() == d.ring().next_to_clean(),
        ensures
            final(self).wf(),
            final(self).inner_spec() == old(self).inner_spec(),
            final(self).rx_pending() == old(self).rx_pending().drop_first(),
            rx_slot_freed(*old(self), *final(self)),
    {
        match self {
            NetDeviceKind::Loopback(d) => d.rx_free_buf(desc),
            NetDeviceKind::EtherTap(_) => {},
        }
    }
}

/// The state of a device in the stack: whether it is open, and its interfaces.
#[derive(Debug)]
pub struct NetDeviceState {
    is_open: RcuCell<bool>,
    ifaces: RcuCell<Vec<NetIface>>,
}

impl NetDeviceState {
    pub closed spec fn open_spec(&self) -> bool {
        self.is_open@
    }

    pub closed spec fn ifaces_spec(&self) -> Seq<NetIface> {
        self.ifaces@@
    }

    pub fn is_open(&self) -> (open: bool)
        ensures
            open == self.open_spec(),
    {
        *self.is_open.load()
    }

    pub fn ifaces(&self) -> (ifaces: Arc<Vec<NetIface>>)
        ensures
            ifaces@ == self.ifaces_spec(),
    {
        self.ifaces.load()
    }
}

/// What `open` leaves to be done.
#[derive(Clone, Copy, Debug, PartialEq, Eq, Structural)]
pub enum OpenAction {
    /// The device is open.
    Opened,
    /// The driver must open the device, then `complete_open` be called with its result.
    DriverOpenRequired,
}

/// What `NetDeviceContainer::open` does: an open device is refused; the loopback device opens at
/// once; the tap device must be opened by its driver first.
pub open spec fn container_open_spec(o: NetDeviceContainer, n: NetDeviceContainer, res: Result<OpenAction, AppError>) -> bool {
    &&& n.dev_spec() == o.dev_spec()
    &&& n.name_spec() == o.name_spec()
    &&& n.ifaces_spec() == o.ifaces_spec()
    &&& o.open_spec() ==> {
        &&& res matches Err(AppError::DeviceAlreadyOpened { name }) && name@ == o.name_spec()
        &&& n.open_spec()
    }
    &&& !o.open_spec() ==> match o.dev_spec() {
        NetDeviceKind::Loopback(_) => res == Ok::<OpenAction, AppError>(OpenAction::Opened)
            && n.open_spec(),
        NetDeviceKind::EtherTap(_) => res == Ok::<OpenAction, AppError>(
            OpenAction::DriverOpenRequired,
        ) && !n.open_spec(),
    }
}

/// What `NetDeviceContainer::complete_open` does with the result of the driver.
pub open spec fn container_complete_open_spec(o: NetDeviceContainer, n: NetDeviceContainer, driver: Result<(), NetDeviceError>, res: Result<(), AppError>) -> bool {
    &&& n.dev_spec() == o.dev_spec()
    &&& n.name_spec() == o.name_spec()
    &&& n.ifaces_spec() == o.ifaces_spec()
    &&& match driver {
        Ok(()) => res is Ok && n.open_spec(),
        Err(e) => res == Err::<(), AppError>(AppError::DeviceError { error: e })
            && n.open_spec() == o.open_spec(),
    }
}

/// What `NetDeviceContainer::close` does: a closed device is refused, an open one is closed.
pub open spec fn container_close_spec(o: NetDeviceContainer, n: NetDeviceContainer, res: Result<(), AppError>) -> bool {
    &&& n.dev_spec() == o.dev_spec()
    &&& n.name_spec() == o.name_spec()
    &&& n.ifaces_spec() == o.ifaces_spec()
    &&& !n.open_spec()
    &&& !o.open_spec() ==> (res matches Err(AppError::DeviceAlreadyClosed { name }) && name@
        == o.name_spec() && n == o)
    &&& o.open_spec() ==> res is Ok
}

/// What `NetDeviceContainer::output` does: a closed device and data longer than the MTU are
/// refused; otherwise the device sends the data.
pub open spec fn container_output_spec(o: NetDeviceContainer, n: NetDeviceContainer, typ: NetProtocolType, data: Seq<u8>, dst: NetDeviceAddr, res: Result<OutputAction, AppError>) -> bool {
    &&& n.dev_spec().wf()
    &&& n.dev_spec().inner_spec() == o.dev_spec().inner_spec()
    &&& n.name_spec() == o.name_spec()
    &&& n.open_spec() == o.open_spec()
    &&& n.ifaces_spec() == o.ifaces_spec()
    &&& !o.open_spec() ==> (res matches Err(AppError::DeviceAlreadyClosed { name }) && name@
        == o.name_spec() && n.dev_spec() == o.dev_spec())
    &&& o.open_spec() && o.dev_spec().inner_spec().mtu < data.len() ==> res == Err::<
        OutputAction,
        AppError,
    >(AppError::DataLongerThanMTU { mtu: o.dev_spec().inner_spec().mtu, len: data.len() as usize })
        && n.dev_spec() == o.dev_spec()
    &&& o.open_spec() && data.len() <= o.dev_spec().inner_spec().mtu ==> exists|
        r: Result<OutputAction, NetDeviceError>,
    |
        {
            &&& device_output_spec(o.dev_spec(), n.dev_spec(), typ, data, dst, r)
            &&& match r {
                Ok(a) => res == Ok::<OutputAction, AppError>(a),
                Err(e) => res == Err::<OutputAction, AppError>(AppError::DeviceError { error: e }),
            }
        }
}

/// A device registered in the stack, with its name and state.
#[derive(Debug)]
pub struct NetDeviceContainer {
    dev: NetDeviceKind,
    name: String,
    state: NetDeviceState,
}

impl NetDeviceContainer {
    pub closed spec fn dev_spec(&self) -> NetDeviceKind {
        self.dev
    }

    pub closed spec fn name_spec(&self) -> Seq<char> {
        self.name@
    }

    pub closed spec fn open_spec(&self) -> bool {
        self.state.open_spec()
    }

    pub closed spec fn ifaces_spec(&self) -> Seq<NetIface> {
        self.state.ifaces_spec()
    }

    pub fn name(&self) -> (name: String)
        ensures
            name@ == self.name_spec(),
    {
        self.name.clone()
    }

    pub fn is_open(&self) -> (open: bool)
        ensures
            open == self.open_spec(),
    {
        self.state.is_open()
    }

    pub fn dev(&self) -> (dev: &NetDeviceKind)
        ensures
            *dev == self.dev_spec(),
    {
        &self.dev
    }

    pub fn state(&self) -> (state: &NetDeviceState)
        ensures
            state.open_spec() == self.open_spec(),
            state.ifaces_spec() == self.ifaces_spec(),
    {
        &self.state
    }

    /// Opens the device: an open device is refused; the loopback device opens at once; the tap
    /// device must be opened by its driver first.
    pub fn open(&mut self) -> (res: Result<OpenAction, AppError>)
        ensures
            container_open_spec(*old(self), *final(self), res),
    {
        if self.is_open() {
            return Err(AppError::DeviceAlreadyOpened { name: self.name() });
        }
        match &self.dev {
            NetDeviceKind::Loopback(d) => {
                match d.open() {
                    Ok(()) => {},
                    Err(e) => {
                        return Err(AppError::from(e));
                    },
                }
                self.state.is_open.store(true);
                Ok(OpenAction::Opened)
            },
            NetDeviceKind::EtherTap(_) => Ok(OpenAction::DriverOpenRequired),
        }
    }

    /// Completes the opening of a device whose driver opened it with result `driver`.
    pub fn complete_open(&mut self, driver: Result<(), NetDeviceError>) -> (res: Result<(), AppError>)
        ensures
            container_complete_open_spec(*old(self), *final(self), driver, res),
    {
        match driver {
            Ok(()) => {
                self.state.is_open.store(true);
                Ok(())
            },
            Err(e) => Err(AppError::from(e)),
        }
    }

    /// Closes the device; a closed device is refused.
    pub fn close(&mut self) -> (res: Result<(), AppError>)
        ensures
            container_close_spec(*old(self), *final(self), res),
    {
        if !self.is_open() {
            return Err(AppError::DeviceAlreadyClosed { name: self.name() });
        }
        match self.dev.close() {
            Ok(()) => {},
            Err(e) => {
                return Err(AppError::from(e));
            },
        }
        self.state.is_open.store(false);
        Ok(())
    }

    /// Sends `data` of type `typ` to `dst` through the device: a closed device and data longer
    /// than the MTU are refused.
    pub fn output(&mut self, typ: NetProtocolType, data: &[u8], dst: NetDeviceAddr) -> (res: Result<
        OutputAction,
        AppError,
    >)
        requires
            old(self).dev_spec().wf(),
        ensures
            container_output_spec(*old(self), *final(self), typ, data@, dst, res),
    {
        if !self.is_open() {
            return Err(AppError::DeviceAlreadyClosed { name: self.name() });
        }
        let mtu = self.dev.info().mtu();
        if (mtu as usize) < data.len() {
            return Err(AppError::DataLongerThanMTU { mtu, len: data.len() });
        }
        let r = self.dev.output(typ, data, dst);
        match r {
            Ok(a) => Ok(a),
            Err(e) => Err(AppError::from(e)),
        }
    }
}

/// The network-layer protocols the stack handles.
#[derive(Clone, Debug)]
pub enum NetProtocolKind {
    Ip(IpProtocol),
    Arp(ArpProtocol),
}

impl NetProtocolKind {
    pub open spec fn typ_spec(&self) -> NetProtocolType {
        match self {
            NetProtocolKind::Ip(_) => NetProtocolType::Ip,
            NetProtocolKind::Arp(_) => NetProtocolType::Arp,
        }
    }

    pub fn typ(&self) -> (t: NetProtocolType)
        ensures
            t == self.typ_spec(),
    {
        match self {
            NetProtocolKind::Ip(p) => p.typ(),
            NetProtocolKind::Arp(p) => p.typ(),
        }
    }
}

/// The index of the device named `name`, if any.
pub open spec fn device_index_named(devs: Seq<NetDeviceContainer>, name: Seq<char>) -> Option<int> {
    if exists|i: int| 0 <= i < devs.len() && (#[trigger] devs[i]).name_spec() == name {
        Some(choose|i: int| 0 <= i < devs.len() && (#[trigger] devs[i]).name_spec() == name)
    } else {
        None
    }
}

/// Whether `ifaces` holds an interface of the family of `iface`.
pub open spec fn has_family(ifaces: Seq<NetIface>, iface: NetIface) -> bool {
    exists|j: int| 0 <= j < ifaces.len() && iface_family(#[trigger] ifaces[j]) == iface_family(iface)
}

/// What registering `iface` on the device named `name` does to `old`, giving `new` and `res`:
/// an unknown device and a device that has an interface of the same family are refused;
/// otherwise the interface, attached to the device, is added to its interfaces.
pub open spec fn iface_registration(
    old: ProtocolStackApp,
    new: ProtocolStackApp,
    iface: NetIface,
    name: Seq<char>,
    res: Result<(), AppError>,
) -> bool {
    &&& new.protocols_spec() == old.protocols_spec()
    &&& match device_index_named(old.devices_spec(), name) {
        None => res matches Err(AppError::DeviceNotFound { dev }) && dev@ == name && new.devices_spec() == old.devices_spec(),
        Some(i) => if has_family(old.devices_spec()[i].ifaces_spec(), iface) {
            &&& res matches Err(AppError::DuplicatedIfaceFamily { family, dev })
            &&& family == iface_family(iface)
            &&& dev@ == name
            &&& new.devices_spec() == old.devices_spec()
        } else {
            &&& res is Ok
            &&& new.devices_spec().len() == old.devices_spec().len()
            &&& forall|k: int|
                0 <= k < old.devices_spec().len() && k != i ==> #[trigger] new.devices_spec()[k]
                    == old.devices_spec()[k]
            &&& new.devices_spec()[i].dev_spec() == old.devices_spec()[i].dev_spec()
            &&& new.devices_spec()[i].name_spec() == old.devices_spec()[i].name_spec()
            &&& new.devices_spec()[i].open_spec() == old.devices_spec()[i].open_spec()
            &&& new.devices_spec()[i].ifaces_spec() == old.devices_spec()[i].ifaces_spec().push(
                iface_with_dev(iface, DeviceId(i as usize)),
            )
        },
    }
}

/// A copy of `ifaces` with `iface` added at the end.
fn ifaces_pushed(ifaces: &Vec<NetIface>, iface: NetIface) -> (v: Vec<NetIface>)
    ensures
        v@ == ifaces@.push(iface),
{
    let mut v: Vec<NetIface> = Vec::new();
    let mut k: usize = 0;
    while k < ifaces.len()
        invariant
            k <= ifaces@.len(),
            v@ == ifaces@.subrange(0, k as int),
        decreases ifaces@.len() - k,
    {
        v.push(ifaces[k]);
        k = k + 1;
    }
    v.push(iface);
    v
}

/// The interface that `setup_mock` puts on the loopback device: 127.0.0.1/8.
pub open spec fn mock_loopback_iface() -> NetIface {
    NetIface::Ip(
        IpIface {
            dev: None,
            unicast: IpAddr(IP_ADDR_LOOPBACK),
            netmask: IpAddr(IP_ADDR_LOOPBACK_NETMASK),
            broadcast: IpAddr((IP_ADDR_LOOPBACK & IP_ADDR_LOOPBACK_NETMASK) | !IP_ADDR_LOOPBACK_NETMASK),
        },
    )
}

/// The interface that `setup_mock` puts on the tap device: 192.0.2.2/24.
pub open spec fn mock_tap_iface() -> NetIface {
    let unicast = be32_of(192, 0, 2, 2);
    let netmask = be32_of(255, 255, 255, 0);
    NetIface::Ip(
        IpIface {
            dev: None,
            unicast: IpAddr(unicast),
            netmask: IpAddr(netmask),
            broadcast: IpAddr((unicast & netmask) | !netmask),
        },
    )
}

/// `new` is `old` with a loopback device and a tap device registered after its devices, and the
/// IP protocol, carrying ICMP, and the ARP protocol registered after its protocols.
pub open spec fn mock_devices_added(old: ProtocolStackApp, new: ProtocolStackApp) -> bool {
    let n = old.devices_spec().len() as int;
    let np = old.protocols_spec().len() as int;
    &&& new.wf()
    &&& new.devices_spec().len() == n + 2
    &&& forall|k: int| 0 <= k < n ==> #[trigger] new.devices_spec()[k] == old.devices_spec()[k]
    &&& new.devices_spec()[n].dev_spec() matches NetDeviceKind::Loopback(l) && l.inner_spec()
        == loopback_inner(DeviceId(n as usize)) && l.ring().pending().len() == 0
    &&& new.devices_spec()[n + 1].dev_spec() matches NetDeviceKind::EtherTap(e)
        && e.inner_spec().dev_id == DeviceId((n + 1) as usize) && e.hw_addr_spec()
        == ether_addr_any_bytes()
    &&& forall|k: int|
        n <= k < n + 2 ==> {
            &&& (#[trigger] new.devices_spec()[k]).name_spec() == device_name_spec(k as nat)
            &&& !new.devices_spec()[k].open_spec()
            &&& new.devices_spec()[k].ifaces_spec() == Seq::<NetIface>::empty()
        }
    &&& new.protocols_spec().len() == np + 2
    &&& forall|k: int| 0 <= k < np ==> #[trigger] new.protocols_spec()[k] == old.protocols_spec()[k]
    &&& new.protocols_spec()[np] matches NetProtocolKind::Ip(p) && p.uppers_spec()
        == mock_upper_handlers()
    &&& new.protocols_spec()[np + 1] is Arp
}

proof fn lemma_names_of_first_devices()
    ensures
        device_name_spec(0) == "net0"@,
        device_name_spec(1) == "net1"@,
{
    reveal_strlit("net0");
    reveal_strlit("net1");
    assert(device_name_spec(0) =~= "net0"@);
    assert(device_name_spec(1) =~= "net1"@);
}

/// On a stack without devices, registering the loopback interface on `net0` succeeds.
proof fn lemma_fresh_mock_registers(old: ProtocolStackApp, a1: ProtocolStackApp, a2: ProtocolStackApp, r1: Result<(), AppError>)
    requires
        old.devices_spec().len() == 0,
        mock_devices_added(old, a1),
        iface_registration(a1, a2, mock_loopback_iface(), "net0"@, r1),
    ensures
        r1 is Ok,
        a2.devices_spec().len() == 2,
        a2.devices_spec()[1] == a1.devices_spec()[1],
{
    lemma_names_of_first_devices();
    assert(a1.devices_spec()[0].name_spec() == "net0"@);
    let i = device_index_named(a1.devices_spec(), "net0"@);
    assert(i is Some);
    let c = i->0;
    assert(c == 0) by {
        lemma_device_name_injective(c as nat, 0);
    }
    assert(!has_family(a1.devices_spec()[0].ifaces_spec(), mock_loopback_iface()));
}

/// On a stack without devices, registering the tap interface on `net1` then succeeds too.
proof fn lemma_fresh_mock_registers_tap(a1: ProtocolStackApp, a2: ProtocolStackApp, a3: ProtocolStackApp, r1: Result<(), AppError>, r2: Result<(), AppError>)
    requires
        a1.devices_spec().len() == 2,
        a2.devices_spec().len() == 2,
        a2.devices_spec()[1] == a1.devices_spec()[1],
        a1.devices_spec()[1].name_spec() == device_name_spec(1),
        a1.devices_spec()[1].ifaces_spec() == Seq::<NetIface>::empty(),
        a2.wf(),
        iface_registration(a2, a3, mock_tap_iface(), "net1"@, r2),
    ensures
        r2 is Ok,
{
    lemma_names_of_first_devices();
    let i = device_index_named(a2.devices_spec(), "net1"@);
    assert(a2.devices_spec()[1].name_spec() == "net1"@);
    assert(i is Some);
    let c = i->0;
    assert(c == 1) by {
        lemma_device_name_injective(c as nat, 1);
    }
    assert(!has_family(a2.devices_spec()[1].ifaces_spec(), mock_tap_iface()));
}

/// `new` differs from `old` at most in its device `i`.
pub open spec fn others_unchanged(old: ProtocolStackApp, new: ProtocolStackApp, i: int) -> bool {
    &&& new.protocols_spec() == old.protocols_spec()
    &&& new.devices_spec().len() == old.devices_spec().len()
    &&& forall|k: int|
        0 <= k < old.devices_spec().len() && k != i ==> #[trigger] new.devices_spec()[k]
            == old.devices_spec()[k]
}

/// What `close_devices` does: it closes the devices in order, and stops at the first one that is
/// closed already, `k`, which it reports.
pub open spec fn devices_closed(old: ProtocolStackApp, new: ProtocolStackApp, res: Result<(), AppError>) -> bool {
    let n = old.devices_spec().len() as int;
    &&& new.protocols_spec() == old.protocols_spec()
    &&& new.devices_spec().len() == n
    &&& exists|k: int| #[trigger] closed_up_to(old, new, res, k)
}

/// `close_devices` closed the devices before `k` and stopped there.
pub open spec fn closed_up_to(old: ProtocolStackApp, new: ProtocolStackApp, res: Result<(), AppError>, k: int) -> bool {
    let n = old.devices_spec().len() as int;
    {
            &&& 0 <= k <= n
            &&& forall|j: int| 0 <= j < k ==> (#[trigger] old.devices_spec()[j]).open_spec()
            &&& k < n ==> !old.devices_spec()[k].open_spec()
            &&& forall|j: int|
                0 <= j < k ==> container_close_spec(
                    old.devices_spec()[j],
                    #[trigger] new.devices_spec()[j],
                    Ok(()),
                )
            &&& forall|j: int| k <= j < n ==> #[trigger] new.devices_spec()[j] == old.devices_spec()[j]
            &&& k == n ==> res is Ok
            &&& k < n ==> (res matches Err(AppError::DeviceAlreadyClosed { name }) && name@
                == old.devices_spec()[k].name_spec())
        }
}

/// The protocol stack: its devices and protocols.
#[derive(Debug)]
pub struct ProtocolStackApp {
    devices: Vec<NetDeviceContainer>,
    protocols: Vec<NetProtocolKind>,
}

impl ProtocolStackApp {
    pub closed spec fn devices_spec(&self) -> Seq<NetDeviceContainer> {
        self.devices@
    }

    pub closed spec fn protocols_spec(&self) -> Seq<NetProtocolKind> {
        self.protocols@
    }

    /// Every device is well formed, knows its index as its id, and is named after its index.
    pub open spec fn wf(&self) -> bool {
        forall|i: int|
            0 <= i < self.devices_spec().len() ==> {
                &&& (#[trigger] self.devices_spec()[i]).dev_spec().wf()
                &&& self.devices_spec()[i].dev_spec().inner_spec().dev_id == DeviceId(i as usize)
                &&& self.devices_spec()[i].name_spec() == device_name_spec(i as nat)
            }
    }

    pub fn new() -> (res: Result<ProtocolStackApp, AppError>)
        ensures
            res matches Ok(app) && app.wf() && app.devices_spec().len() == 0
                && app.protocols_spec().len() == 0,
    {
        Ok(ProtocolStackApp { devices: Vec::new(), protocols: Vec::new() })
    }

    pub fn device_count(&self) -> (n: usize)
        ensures
            n == self.devices_spec().len(),
    {
        self.devices.len()
    }

    pub fn device(&self, i: usize) -> (dev: &NetDeviceContainer)
        requires
            i < self.devices_spec().len(),
        ensures
            *dev == self.devices_spec()[i as int],
    {
        &self.devices[i]
    }

    pub fn protocols(&self) -> (protocols: &Vec<NetProtocolKind>)
        ensures
            protocols@ == self.protocols_spec(),
    {
        &self.protocols
    }

    /// Registers the device that `dev_init` makes with the next id, named after that id, closed
    /// and without interfaces.
    pub fn register_net_device<F: Fn(DeviceId) -> NetDeviceKind>(&mut self, dev_init: F)
        requires
            old(self).wf(),
            dev_init.requires((DeviceId(old(self).devices_spec().len() as usize),)),
            forall|d: NetDeviceKind|
                #[trigger] dev_init.ensures((DeviceId(old(self).devices_spec().len() as usize),), d)
                    ==> d.wf() && d.inner_spec().dev_id == DeviceId(
                    old(self).devices_spec().len() as usize,
                ),
            old(self).devices_spec().len() < usize::MAX,
        ensures
            final(self).wf(),
            final(self).protocols_spec() == old(self).protocols_spec(),
            final(self).devices_spec().len() == old(self).devices_spec().len() + 1,
            forall|k: int|
                0 <= k < old(self).devices_spec().len() ==> #[trigger] final(self).devices_spec()[k]
                    == old(self).devices_spec()[k],
            ({
                let c = final(self).devices_spec()[old(self).devices_spec().len() as int];
                &&& dev_init.ensures((DeviceId(old(self).devices_spec().len() as usize),), c.dev_spec())
                &&& c.name_spec() == device_name_spec(old(self).devices_spec().len() as nat)
                &&& !c.open_spec()
                &&& c.ifaces_spec() == Seq::<NetIface>::empty()
            }),
    {
        let n = self.devices.len();
        let dev_id = DeviceId::new(n);
        let dev = dev_init(dev_id);
        let container = NetDeviceContainer {
            dev: dev,
            name: device_name(n),
            state: NetDeviceState { is_open: RcuCell::new(false), ifaces: RcuCell::new(Vec::new()) },
        };
        self.devices.push(container);
        assert forall|i: int| 0 <= i < self.devices_spec().len() implies {
            &&& (#[trigger] self.devices_spec()[i]).dev_spec().wf()
            &&& self.devices_spec()[i].dev_spec().inner_spec().dev_id == DeviceId(i as usize)
            &&& self.devices_spec()[i].name_spec() == device_name_spec(i as nat)
        } by {
            if i < n {
                assert(self.devices_spec()[i] == old(self).devices_spec()[i]);
            }
        }
    }

    pub fn register_net_protocol(&mut self, proto: NetProtocolKind)
        ensures
            final(self).devices_spec() == old(self).devices_spec(),
            final(self).protocols_spec() == old(self).protocols_spec().push(proto),
    {
        self.protocols.push(proto);
    }

    /// Sets up the stack of the demonstration: a loopback device `net<n>` and a tap device
    /// `net<n + 1>`, the IP protocol carrying ICMP and the ARP protocol, then 127.0.0.1/8 on
    /// `net0` and 192.0.2.2/24 on `net1`.
    pub fn setup_mock(self) -> (res: Result<ProtocolStackApp, AppError>)
        requires
            self.wf(),
            self.devices_spec().len() + 2 < usize::MAX,
        ensures
            exists|a1: ProtocolStackApp, a2: ProtocolStackApp, r1: Result<(), AppError>|
                {
                    &&& mock_devices_added(self, a1)
                    &&& iface_registration(a1, a2, mock_loopback_iface(), "net0"@, r1)
                    &&& match r1 {
                        Err(e) => res == Err::<ProtocolStackApp, AppError>(e),
                        Ok(()) => exists|a3: ProtocolStackApp, r2: Result<(), AppError>|
                            {
                                &&& iface_registration(a2, a3, mock_tap_iface(), "net1"@, r2)
                                &&& match r2 {
                                    Err(e) => res == Err::<ProtocolStackApp, AppError>(e),
                                    Ok(()) => res == Ok::<ProtocolStackApp, AppError>(a3),
                                }
                            },
                    }
                },
            res matches Ok(app) ==> app.wf(),
            self.devices_spec().len() == 0 ==> res is Ok,
    {
        let ghost old_self = self;
        let mut app = self;
        let n = app.devices.len();
        let new_loopback = |id: DeviceId| -> (d: NetDeviceKind)
            ensures
                d.wf(),
                d.inner_spec().dev_id == id,
                (d matches NetDeviceKind::Loopback(l) && l.inner_spec() == loopback_inner(id)
                    && l.ring().pending().len() == 0),
            { NetDeviceKind::Loopback(LoopbackDevice::new(id)) };
        app.register_net_device(new_loopback);
        let new_ether_tap = |id: DeviceId| -> (d: NetDeviceKind)
            ensures
                d.wf(),
                d.inner_spec().dev_id == id,
                (d matches NetDeviceKind::EtherTap(e) && e.inner_spec().dev_id == id
                    && e.hw_addr_spec() == ether_addr_any_bytes()),
            { NetDeviceKind::EtherTap(EtherTapDevice::new(id)) };
        app.register_net_device(new_ether_tap);
        let mut ip_proto = IpProtocol::new();
        let registered = ip_proto.register_protocol(IpUpperProtocolHandler::Icmp(IcmpProtocol));
        assert(registered is Ok);
        assert(ip_proto.uppers_spec() =~= mock_upper_handlers());
        app.register_net_protocol(NetProtocolKind::Ip(ip_proto));
        app.register_net_protocol(NetProtocolKind::Arp(ArpProtocol::new()));
        let ghost a1 = app;
        assert(mock_devices_added(old_self, a1));
        let lo = NetIface::Ip(IpIface::new(IpAddr::new(IP_ADDR_LOOPBACK), IpAddr::new(IP_ADDR_LOOPBACK_NETMASK)));
        assert(lo == mock_loopback_iface());
        let r1 = app.register_net_iface_on_device(lo, "net0");
        let ghost a2 = app;
        proof {
            if n == 0 {
                lemma_fresh_mock_registers(old_self, a1, a2, r1);
            }
        }
        match r1 {
            Err(e) => {
                return Err(e);
            },
            Ok(()) => {},
        }
        let tap = NetIface::Ip(IpIface::new(IpAddr::from_octets([192, 0, 2, 2]), IpAddr::from_octets([255, 255, 255, 0])));
        assert(tap == mock_tap_iface());
        let r2 = app.register_net_iface_on_device(tap, "net1");
        proof {
            if n == 0 {
                lemma_fresh_mock_registers_tap(a1, a2, app, r1, r2);
            }
        }
        match r2 {
            Err(e) => {
                return Err(e);
            },
            Ok(()) => {},
        }
        Ok(app)
    }

    /// Opens device `i`.
    pub fn open_device(&mut self, i: usize) -> (res: Result<OpenAction, AppError>)
        requires
            old(self).wf(),
            i < old(self).devices_spec().len(),
        ensures
            final(self).wf(),
            others_unchanged(*old(self), *final(self), i as int),
            container_open_spec(old(self).devices_spec()[i as int], final(self).devices_spec()[i as int], res),
    {
        let r = self.devices[i].open();
        proof { self.lemma_wf_after_state_change(*old(self), i as int); }
        r
    }

    /// Completes the opening of device `i` by its driver, with the driver's result.
    pub fn complete_open_device(&mut self, i: usize, driver: Result<(), NetDeviceError>) -> (res: Result<(), AppError>)
        requires
            old(self).wf(),
            i < old(self).devices_spec().len(),
        ensures
            final(self).wf(),
            others_unchanged(*old(self), *final(self), i as int),
            container_complete_open_spec(old(self).devices_spec()[i as int], final(self).devices_spec()[i as int], driver, res),
    {
        let r = self.devices[i].complete_open(driver);
        proof { self.lemma_wf_after_state_change(*old(self), i as int); }
        r
    }

    /// Closes the devices in order; stops at the first that is closed already.
    pub fn close_devices(&mut self) -> (res: Result<(), AppError>)
        requires
            old(self).wf(),
        ensures
            final(self).wf(),
            devices_closed(*old(self), *final(self), res),
    {
        let mut i: usize = 0;
        while i < self.devices.len()
            invariant
                old(self).wf(),
                self.wf(),
                i <= self.devices@.len(),
                self.devices@.len() == old(self).devices@.len(),
                self.protocols@ == old(self).protocols@,
                forall|j: int| 0 <= j < i ==> (#[trigger] old(self).devices_spec()[j]).open_spec(),
                forall|j: int|
                    0 <= j < i ==> container_close_spec(
                        old(self).devices_spec()[j],
                        #[trigger] self.devices_spec()[j],
                        Ok(()),
                    ),
                forall|j: int| i <= j < self.devices@.len() ==> #[trigger] self.devices@[j] == old(self).devices@[j],
            decreases self.devices@.len() - i,
        {
            let ghost before = *self;
            let r = self.devices[i].close();
            proof { self.lemma_wf_after_state_change(before, i as int); }
            match r {
                Err(e) => {
                    assert(closed_up_to(*old(self), *self, Err(e), i as int));
                    return Err(e);
                },
                Ok(()) => {},
            }
            i = i + 1;
        }
        assert(closed_up_to(*old(self), *self, Ok(()), self.devices@.len() as int));
        Ok(())
    }

    /// Sends `data` of type `typ` to `dst` through device `i`.
    pub fn device_output(&mut self, i: usize, typ: NetProtocolType, data: &[u8], dst: NetDeviceAddr) -> (res: Result<OutputAction, AppError>)
        requires
            old(self).wf(),
            i < old(self).devices_spec().len(),
        ensures
            final(self).wf(),
            others_unchanged(*old(self), *final(self), i as int),
            container_output_spec(old(self).devices_spec()[i as int], final(self).devices_spec()[i as int], typ, data@, dst, res),
    {
        proof { assert(self.devices_spec()[i as int].dev_spec().wf()); }
        let r = self.devices[i].output(typ, data, dst);
        proof { self.lemma_wf_after_state_change(*old(self), i as int); }
        r
    }

    /// The oldest packet that device `i` received and that is not handled yet, copied out, with
    /// its descriptor and protocol.
    pub fn device_rx_next(&self, i: usize) -> (res: Option<(RxBufDesc, Vec<u8>, NetProtocolType)>)
        requires
            self.wf(),
            i < self.devices_spec().len(),
        ensures
            res is None <==> self.devices_spec()[i as int].dev_spec().rx_pending().len() == 0,
            res matches Some((desc, data, typ)) ==> {
                &&& self.devices_spec()[i as int].dev_spec() matches NetDeviceKind::Loopback(d)
                &&& desc.value() == d.ring().next_to_clean()
                &&& data@ == self.devices_spec()[i as int].dev_spec().rx_pending()[0]
                &&& typ == NetProtocolType::Ip
            },
    {
        proof { assert(self.devices_spec()[i as int].dev_spec().wf()); }
        match self.devices[i].dev.rx_next_clean_buf() {
            Some(rx) => {
                let mut data: Vec<u8> = Vec::new();
                crate::protocols::ip::push_slice(&mut data, rx.buf);
                Some((rx.desc, data, rx.typ))
            },
            None => None,
        }
    }

    /// Frees the buffer of the oldest packet device `i` received.
    pub fn device_rx_free(&mut self, i: usize, desc: RxBufDesc)
        requires
            old(self).wf(),
            i < old(self).devices_spec().len(),
            old(self).devices_spec()[i as int].dev_spec() matches NetDeviceKind::Loopback(d)
                && d.ring().pending().len() > 0 && desc.value() == d.ring().next_to_clean(),
        ensures
            final(self).wf(),
            others_unchanged(*old(self), *final(self), i as int),
            final(self).devices_spec()[i as int].dev_spec().rx_pending() == old(self).devices_spec()[i as int].dev_spec().rx_pending().drop_first(),
            final(self).devices_spec()[i as int].name_spec() == old(self).devices_spec()[i as int].name_spec(),
            final(self).devices_spec()[i as int].open_spec() == old(self).devices_spec()[i as int].open_spec(),
            final(self).devices_spec()[i as int].ifaces_spec() == old(self).devices_spec()[i as int].ifaces_spec(),
            final(self).devices_spec()[i as int].dev_spec().inner_spec() == old(self).devices_spec()[i as int].dev_spec().inner_spec(),
            rx_slot_freed(old(self).devices_spec()[i as int].dev_spec(), final(self).devices_spec()[i as int].dev_spec()),
    {
        self.devices[i].dev.rx_free_buf(desc);
        proof { self.lemma_wf_after_state_change(*old(self), i as int); }
    }

    /// Records that the driver opened the tap device `i` with descriptor `fd`, and reads its
    /// hardware address as `hw`.
    pub fn tap_opened(&mut self, i: usize, fd: i32, hw: [u8; 6])
        requires
            old(self).wf(),
            i < old(self).devices_spec().len(),
        ensures
            final(self).wf(),
            others_unchanged(*old(self), *final(self), i as int),
            final(self).devices_spec()[i as int].name_spec() == old(self).devices_spec()[i as int].name_spec(),
            final(self).devices_spec()[i as int].open_spec() == old(self).devices_spec()[i as int].open_spec(),
            final(self).devices_spec()[i as int].ifaces_spec() == old(self).devices_spec()[i as int].ifaces_spec(),
            match old(self).devices_spec()[i as int].dev_spec() {
                NetDeviceKind::EtherTap(d) => final(self).devices_spec()[i as int].dev_spec() matches NetDeviceKind::EtherTap(d2)
                    && d2.tap_file_spec() == fd
                    && d2.hw_addr_spec() == (if d.hw_addr_spec() == ether_addr_any_bytes() { hw@ } else { d.hw_addr_spec() }),
                NetDeviceKind::Loopback(_) => final(self).devices_spec()[i as int] == old(self).devices_spec()[i as int],
            },
    {
        proof { assert(self.devices_spec()[i as int].dev_spec().wf()); }
        match &mut self.devices[i].dev {
            NetDeviceKind::EtherTap(d) => {
                d.set_tap_file(fd);
                d.learn_hw_addr(hw);
            },
            NetDeviceKind::Loopback(_) => {},
        }
        proof { self.lemma_wf_after_state_change(*old(self), i as int); }
    }

    /// A change that keeps device `i` well formed, with its id and name, keeps the stack well
    /// formed.
    proof fn lemma_wf_after_state_change(&self, old: ProtocolStackApp, i: int)
        requires
            old.wf(),
            0 <= i < old.devices_spec().len(),
            self.devices_spec().len() == old.devices_spec().len(),
            forall|k: int| 0 <= k < old.devices_spec().len() && k != i ==> #[trigger] self.devices_spec()[k] == old.devices_spec()[k],
            self.devices_spec()[i].dev_spec().wf(),
            self.devices_spec()[i].dev_spec().inner_spec().dev_id == old.devices_spec()[i].dev_spec().inner_spec().dev_id,
            self.devices_spec()[i].name_spec() == old.devices_spec()[i].name_spec(),
        ensures
            self.wf(),
    {
        assert forall|k: int| 0 <= k < self.devices_spec().len() implies {
            &&& (#[trigger] self.devices_spec()[k]).dev_spec().wf()
            &&& self.devices_spec()[k].dev_spec().inner_spec().dev_id == DeviceId(k as usize)
            &&& self.devices_spec()[k].name_spec() == device_name_spec(k as nat)
        } by {
            if k != i {
                assert(self.devices_spec()[k] == old.devices_spec()[k]);
            }
        }
    }

    /// Registers `iface` on the device named `dev`.
    #[verifier::loop_isolation(false)]
    pub fn register_net_iface_on_device(&mut self, iface: NetIface, dev: &str) -> (res: Result<(), AppError>)
        requires
            old(self).wf(),
        ensures
            final(self).wf(),
            iface_registration(*old(self), *final(self), iface, dev@, res),
    {
        let dev_name = String::from_str(dev);
        let mut i: usize = 0;
        while i < self.devices.len()
            invariant
                i <= self.devices@.len(),
                self.devices@ == old(self).devices@,
                self.protocols@ == old(self).protocols@,
                dev_name@ == dev@,
                forall|j: int| 0 <= j < i ==> (#[trigger] self.devices@[j]).name_spec() != dev@,
            decreases self.devices@.len() - i,
        {
            if self.devices[i].name != dev_name {
                i = i + 1;
                continue;
            }
            proof {
                assert(self.devices_spec()[i as int].name_spec() == dev@);
                let c = choose|k: int| 0 <= k < self.devices_spec().len() && (#[trigger] self.devices_spec()[k]).name_spec() == dev@;
                assert(c == i) by {
                    assert(self.devices_spec()[c].name_spec() == device_name_spec(c as nat));
                    assert(self.devices_spec()[i as int].name_spec() == device_name_spec(i as nat));
                    lemma_device_name_injective(c as nat, i as nat);
                }
            }
            let ifaces = self.devices[i].state.ifaces();
            let mut j: usize = 0;
            while j < ifaces.len()
                invariant
                    j <= ifaces@.len(),
                    ifaces@ == self.devices@[i as int].ifaces_spec(),
                    forall|k: int| 0 <= k < j ==> iface_family(#[trigger] ifaces@[k]) != iface_family(iface),
                decreases ifaces@.len() - j,
            {
                if ifaces[j].family_kind() == iface.family_kind() {
                    assert(device_index_named(old(self).devices_spec(), dev@) == Some(i as int));
                    assert(iface_family(old(self).devices_spec()[i as int].ifaces_spec()[j as int]) == iface_family(iface));
                    assert(has_family(old(self).devices_spec()[i as int].ifaces_spec(), iface));
                    return Err(AppError::DuplicatedIfaceFamily { family: iface.family_kind(), dev: String::from_str(dev) });
                }
                j = j + 1;
            }
            let mut iface = iface;
            iface.set_dev(DeviceId::new(i));
            let ghost old_ifaces = self.devices@[i as int].ifaces_spec();
            let ghost old_c = self.devices@[i as int];
            let push_iface = |o: &Vec<NetIface>| -> (v: Vec<NetIface>)
                ensures
                    v@ == o@.push(iface),
                { ifaces_pushed(o, iface) };
            self.devices[i].state.ifaces.update(push_iface);
            return Ok(());
        }
        Err(AppError::DeviceNotFound { dev: String::from_str(dev) })
    }
}

} // verus!
