use vstd::prelude::*;
use crate::error::Error;
use crate::ledger::{count_acked, Ledger, PROBE_COUNT};
use crate::report::{summary_of, Summary};

verus! {

/// What became of one inbound acknowledgment connection.
#[derive(Clone, Copy, Debug, PartialEq, Eq, Structural)]
pub enum Arrival {
    /// A connection was accepted and its payload read until the peer closed it.
    Complete,
    /// Accepting the connection or reading its payload failed.
    Broken,
}

/// The ledger contents after `k` acknowledgments: slots `0..k` acknowledged.
pub open spec fn acked_prefix(k: nat) -> Seq<bool> {
    Seq::new(PROBE_COUNT as nat, |i: int| i < k)
}

/// What an `AckCollector` has seen: how many acknowledgments it has accepted,
/// and its ledger.
pub struct CollectorView {
    pub accepted: nat,
    pub slots: Seq<bool>,
}

/// The broadcaster's collector of acknowledgments. Each acknowledgment is
/// written into the next free slot, in order of arrival, whichever probe the
/// receiver was answering.
pub struct AckCollector {
    ledger: Ledger,
    accepted: usize,
}

impl View for AckCollector {
    type V = CollectorView;

    closed spec fn view(&self) -> CollectorView {
        CollectorView { accepted: self.accepted as nat, slots: self.ledger@ }
    }
}

impl AckCollector {
    /// At most `PROBE_COUNT` acknowledgments, filling the ledger from slot 0 up.
    pub open spec fn wf(&self) -> bool {
        &&& self@.accepted <= PROBE_COUNT
        &&& self@.slots == acked_prefix(self@.accepted)
    }

    /// A collector that has accepted nothing, over a fresh ledger.
    pub fn new() -> (r: AckCollector)
        ensures
            r.wf(),
            r@.accepted == 0,
    {
        let r = AckCollector { ledger: Ledger::new(), accepted: 0 };
        assert(r@.slots =~= acked_prefix(0));
        r
    }

    /// Number of acknowledgments accepted so far.
    pub fn accepted(&self) -> (r: usize)
        ensures
            r == self@.accepted,
    {
        self.accepted
    }

    /// Whether every slot has been filled; the collector then stops accepting.
    pub fn is_finished(&self) -> (r: bool)
        ensures
            r == (self@.accepted == PROBE_COUNT),
    {
        self.accepted == PROBE_COUNT
    }

    /// Records one inbound connection. A complete one acknowledges the next
    /// slot; a broken one fails the collector with `ReadData` and changes
    /// nothing.
    pub fn record(&mut self, arrival: Arrival) -> (r: Result<(), Error>)
        requires
            old(self).wf(),
            old(self)@.accepted < PROBE_COUNT,
        ensures
            final(self).wf(),
            arrival == Arrival::Complete ==> {
                &&& r == Ok::<(), Error>(())
                &&& final(self)@.accepted == old(self)@.accepted + 1
                &&& final(self)@.slots == old(self)@.slots.update(
                    old(self)@.accepted as int,
                    true,
                )
            },
            arrival == Arrival::Broken ==> {
                &&& r == Err::<(), Error>(Error::ReadData)
                &&& final(self)@ == old(self)@
            },
    {
        match arrival {
            Arrival::Complete => {
                self.ledger.mark(self.accepted);
                self.accepted = self.accepted + 1;
                assert(self@.slots =~= acked_prefix(self@.accepted));
                Ok(())
            },
            Arrival::Broken => Err(Error::ReadData),
        }
    }

    /// The ledger as filled so far.
    pub fn ledger(&self) -> (r: &Ledger)
        ensures
            r@ == self@.slots,
    {
        &self.ledger
    }

    /// Ends collection and hands over the ledger.
    pub fn into_ledger(self) -> (r: Ledger)
        ensures
            r@ == self@.slots,
    {
        self.ledger
    }
}

/// Among the first `n` slots of the ledger after `k` acknowledgments, the
/// acknowledged ones number `min(k, n)`.
proof fn lemma_count_acked_prefix(k: nat, n: nat)
    requires
        n <= PROBE_COUNT,
    ensures
        count_acked(acked_prefix(k).subrange(0, n as int)) == if k < n {
            k
        } else {
            n
        },
    decreases n,
{
    if n > 0 {
        lemma_count_acked_prefix(k, (n - 1) as nat);
        assert(acked_prefix(k).subrange(0, n as int).drop_last() =~= acked_prefix(k).subrange(
            0,
            n - 1,
        ));
    }
}

/// A well-formed collector has acknowledged exactly as many slots as it has
/// accepted connections.
pub proof fn lemma_count_equals_accepted(c: AckCollector)
    requires
        c.wf(),
    ensures
        count_acked(c@.slots) == c@.accepted,
{
    lemma_count_acked_prefix(c@.accepted, PROBE_COUNT as nat);
    assert(acked_prefix(c@.accepted).subrange(0, PROBE_COUNT as int) =~= acked_prefix(
        c@.accepted,
    ));
}

/// A collector that fully read `PROBE_COUNT` connections has every slot
/// acknowledged, and the verdict is that multicast works.
pub proof fn lemma_all_read_means_working(c: AckCollector)
    requires
        c.wf(),
        c@.accepted == PROBE_COUNT,
    ensures
        forall|i: int| 0 <= i < PROBE_COUNT ==> #[trigger] c@.slots[i],
        count_acked(c@.slots) == PROBE_COUNT,
        summary_of(count_acked(c@.slots)) == Summary::Working,
{
    lemma_count_equals_accepted(c);
}

/// A collector that accepted nothing leaves the verdict that multicast does not
/// work.
pub proof fn lemma_none_read_means_not_working(c: AckCollector)
    requires
        c.wf(),
        c@.accepted == 0,
    ensures
        count_acked(c@.slots) == 0,
        summary_of(count_acked(c@.slots)) == Summary::NotWorking,
{
    lemma_count_equals_accepted(c);
}

/// A collector that fully read some but not all connections reports that
/// count, and the verdict is that multicast partially works.
pub proof fn lemma_some_read_means_partial(c: AckCollector)
    requires
        c.wf(),
        0 < c@.accepted < PROBE_COUNT,
    ensures
        count_acked(c@.slots) == c@.accepted,
        summary_of(count_acked(c@.slots)) == Summary::PartiallyWorking,
{
    lemma_count_equals_accepted(c);
}

} // verus!
