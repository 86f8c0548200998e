use vstd::prelude::*;
use crate::ledger::PROBE_COUNT;

verus! {

/// What a probe carries. It is advisory only: receivers count probes without
/// looking at it.
#[derive(Clone, Copy, Debug, PartialEq, Eq, Structural)]
pub enum ProbeKind {
    /// Every probe but the last.
    Marker,
    /// The last probe of the batch.
    TerminalMarker,
}

/// One probe of the batch. The index is used for reporting only and is not
/// transmitted.
#[derive(Clone, Copy, Debug, PartialEq, Eq, Structural)]
pub struct Probe {
    pub index: usize,
    pub kind: ProbeKind,
}

/// The kind of the probe at position `index`.
pub open spec fn spec_probe_kind(index: int) -> ProbeKind {
    if index == PROBE_COUNT - 1 {
        ProbeKind::TerminalMarker
    } else {
        ProbeKind::Marker
    }
}

/// The probe at position `index`.
pub open spec fn spec_probe(index: int) -> Probe {
    Probe { index: index as usize, kind: spec_probe_kind(index) }
}

/// The probe at position `index` of the batch.
pub fn probe_at(index: usize) -> (r: Probe)
    requires
        index < PROBE_COUNT,
    ensures
        r == spec_probe(index as int),
{
    let kind = if index == PROBE_COUNT - 1 {
        ProbeKind::TerminalMarker
    } else {
        ProbeKind::Marker
    };
    Probe { index, kind }
}

/// The whole batch, in sending order.
pub fn probe_batch() -> (r: Vec<Probe>)
    ensures
        r@.len() == PROBE_COUNT,
        forall|i: int| 0 <= i < PROBE_COUNT ==> #[trigger] r@[i] == spec_probe(i),
{
    let mut r: Vec<Probe> = Vec::new();
    let mut i: usize = 0;
    while i < PROBE_COUNT
        invariant
            i <= PROBE_COUNT,
            r@.len() == i,
            forall|j: int| 0 <= j < i ==> #[trigger] r@[j] == spec_probe(j),
        decreases PROBE_COUNT - i,
    {
        r.push(probe_at(i));
        i = i + 1;
    }
    r
}

impl ProbeKind {
    /// The datagram text for this kind.
    pub fn payload(&self) -> (r: &'static str)
        ensures
            *self == ProbeKind::Marker ==> r@ == "General Kenobi!"@,
            *self == ProbeKind::TerminalMarker ==> r@ == "Until next time!"@,
    {
        match self {
            ProbeKind::Marker => "General Kenobi!",
            ProbeKind::TerminalMarker => "Until next time!",
        }
    }
}

/// The text a receiver writes over each acknowledgment connection. Its content
/// is not inspected by the collector.
pub fn ack_payload() -> (r: &'static str)
    ensures
        r@ == "Hello there!"@,
{
    "Hello there!"
}

} // verus!
