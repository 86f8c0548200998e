use vstd::prelude::*;
use crate::ledger::{count_acked, Ledger, PROBE_COUNT};

verus! {

/// The verdict drawn from the number of acknowledged probes.
#[derive(Clone, Copy, Debug, PartialEq, Eq, Structural)]
pub enum Summary {
    /// Every probe was acknowledged.
    Working,
    /// Some, but not all, probes were acknowledged.
    PartiallyWorking,
    /// No probe was acknowledged.
    NotWorking,
}

/// The verdict for `count` acknowledged probes.
pub open spec fn summary_of(count: nat) -> Summary {
    if count == PROBE_COUNT {
        Summary::Working
    } else if count == 0 {
        Summary::NotWorking
    } else {
        Summary::PartiallyWorking
    }
}

/// The verdict for `count` acknowledged probes.
pub fn classify(count: usize) -> (r: Summary)
    ensures
        r == summary_of(count as nat),
{
    if count == PROBE_COUNT {
        Summary::Working
    } else if count == 0 {
        Summary::NotWorking
    } else {
        Summary::PartiallyWorking
    }
}

impl Ledger {
    /// The verdict for this ledger.
    pub fn summary(&self) -> (r: Summary)
        ensures
            r == summary_of(count_acked(self@)),
    {
        classify(self.acknowledged_count())
    }
}

impl Summary {
    /// The main line of the verdict.
    pub fn headline(&self) -> (r: &'static str)
        ensures
            *self == Summary::Working ==> r@ == "Multicast across the two devices is working!"@,
            *self == Summary::NotWorking ==> r@
                == "Multicast across the two devices is not working..."@,
            *self == Summary::PartiallyWorking ==> r@
                == "Multicast appears to be partially working, though there is some packet loss."@,
    {
        match self {
            Summary::Working => "Multicast across the two devices is working!",
            Summary::NotWorking => "Multicast across the two devices is not working...",
            Summary::PartiallyWorking => "Multicast appears to be partially working, though there is some packet loss.",
        }
    }

    /// A likely cause of lost probes, when some were lost.
    pub fn hint(&self) -> (r: Option<&'static str>)
        ensures
            *self == Summary::Working ==> r.is_none(),
            *self == Summary::NotWorking ==> r.is_some() && r.unwrap()@
                == "If you're trying to multicast from a wireless device to Ethernet, then this is probably to be expected, sadly."@,
            *self == Summary::PartiallyWorking ==> r.is_some() && r.unwrap()@
                == "If you're testing multicasts between wireless and wired devices, this is a common occurance."@,
    {
        match self {
            Summary::Working => None,
            Summary::NotWorking => Some(
                "If you're trying to multicast from a wireless device to Ethernet, then this is probably to be expected, sadly.",
            ),
            Summary::PartiallyWorking => Some(
                "If you're testing multicasts between wireless and wired devices, this is a common occurance.",
            ),
        }
    }
}

/// How a slot is shown in the per-slot report.
pub fn slot_label(acknowledged: bool) -> (r: &'static str)
    ensures
        acknowledged ==> r@ == "Had Response"@,
        !acknowledged ==> r@ == "No Response"@,
{
    if acknowledged {
        "Had Response"
    } else {
        "No Response"
    }
}

} // verus!
