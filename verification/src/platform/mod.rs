pub mod ether_tap;

use vstd::prelude::*;

use crate::devices::DeviceId;
use vstd::std_specs::ops::{AddSpec, SubSpec};

verus! {

/// A time, in seconds since the Unix epoch.
#[derive(Clone, Copy, Debug, PartialEq, Eq, Structural)]
pub struct TimeSec(pub u64);

/// A length of time, in seconds.
#[derive(Clone, Copy, Debug, PartialEq, Eq, Structural)]
pub struct DurationSec(pub u64);

impl DurationSec {
    pub fn new(sec: u64) -> (d: DurationSec)
        ensures
            d.0 == sec,
    {
        DurationSec(sec)
    }
}

impl core::ops::Add<DurationSec> for TimeSec {
    type Output = TimeSec;

    /// The time `rhs` after `self`.
    fn add(self, rhs: DurationSec) -> (t: TimeSec) {
        TimeSec(self.0 + rhs.0)
    }
}

impl vstd::std_specs::ops::AddSpecImpl<DurationSec> for TimeSec {
    open spec fn obeys_add_spec() -> bool {
        true
    }

    open spec fn add_req(self, rhs: DurationSec) -> bool {
        self.0 + rhs.0 <= u64::MAX
    }

    open spec fn add_spec(self, rhs: DurationSec) -> TimeSec {
        TimeSec((self.0 + rhs.0) as u64)
    }
}

impl core::ops::Sub<DurationSec> for TimeSec {
    type Output = TimeSec;

    /// The time `rhs` before `self`.
    fn sub(self, rhs: DurationSec) -> (t: TimeSec) {
        TimeSec(self.0 - rhs.0)
    }
}

impl vstd::std_specs::ops::SubSpecImpl<DurationSec> for TimeSec {
    open spec fn obeys_sub_spec() -> bool {
        true
    }

    open spec fn sub_req(self, rhs: DurationSec) -> bool {
        rhs.0 <= self.0
    }

    open spec fn sub_spec(self, rhs: DurationSec) -> TimeSec {
        TimeSec((self.0 - rhs.0) as u64)
    }
}

/// An interrupt line and the device it serves.
#[derive(Clone, Copy, Debug)]
pub struct IrqEntry {
    pub irq: u32,
    pub flags: u16,
    pub dev: DeviceId,
}

/// The flag of an interrupt line that several devices share.
pub const INTR_IRQ_SHARED: u16 = 0x0001;

/// The registered interrupt lines.
#[derive(Debug)]
pub struct Irqs {
    pub irqs: Vec<IrqEntry>,
}

impl Irqs {
    pub fn new() -> (irqs: Irqs)
        ensures
            irqs.irqs@ == Seq::<IrqEntry>::empty(),
    {
        Irqs { irqs: Vec::new() }
    }
}

/// Adding a duration and taking it away gives the time back.
pub proof fn lemma_add_sub_duration(t: TimeSec, d: DurationSec)
    requires
        t.0 + d.0 <= u64::MAX,
    ensures
        t.add_spec(d).sub_req(d),
        t.add_spec(d).sub_spec(d) == t,
{
}

} // verus!
