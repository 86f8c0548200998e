use vstd::prelude::*;
use vstd::set_lib::{lemma_int_range, set_int_range};

verus! {

/// Number of probes in one session, and of slots in the ledger.
pub const PROBE_COUNT: usize = 10;

/// Number of `true` entries in `s`.
pub open spec fn count_acked(s: Seq<bool>) -> nat
    decreases s.len(),
{
    if s.len() == 0 {
        0
    } else {
        count_acked(s.drop_last()) + if s.last() {
            1nat
        } else {
            0nat
        }
    }
}

/// The record of which probe slots have been acknowledged.
///
/// It always holds exactly `PROBE_COUNT` slots; a slot goes from
/// unacknowledged to acknowledged at most once and never back.
pub struct Ledger {
    slots: [bool; 10],
}

impl View for Ledger {
    type V = Seq<bool>;

    closed spec fn view(&self) -> Seq<bool> {
        self.slots@
    }
}

/// The ledger contents in which exactly the slots of `marked` are acknowledged.
pub open spec fn slots_marked(marked: Set<int>) -> Seq<bool> {
    Seq::new(PROBE_COUNT as nat, |i: int| marked.contains(i))
}

/// Counting the first `n` positions of a membership sequence counts the members
/// below `n`.
proof fn lemma_count_members_below(marked: Set<int>, n: nat)
    ensures
        marked.intersect(set_int_range(0, n as int)).finite(),
        count_acked(Seq::new(n, |i: int| marked.contains(i))) == marked.intersect(
            set_int_range(0, n as int),
        ).len(),
    decreases n,
{
    let s = Seq::new(n, |i: int| marked.contains(i));
    lemma_int_range(0, n as int);
    let here = marked.intersect(set_int_range(0, n as int));
    if n == 0 {
        assert(here =~= Set::empty());
    } else {
        let m = (n - 1) as nat;
        lemma_count_members_below(marked, m);
        assert(s.drop_last() =~= Seq::new(m, |i: int| marked.contains(i)));
        let below = marked.intersect(set_int_range(0, m as int));
        if marked.contains(m as int) {
            assert(here =~= below.insert(m as int));
        } else {
            assert(here =~= below);
        }
    }
}

/// Acknowledgments may land in any slots: however they are placed, the count
/// of acknowledged slots is the number of distinct slots that received one.
pub proof fn lemma_count_is_number_of_marked_slots(marked: Set<int>)
    requires
        marked.subset_of(set_int_range(0, PROBE_COUNT as int)),
    ensures
        marked.finite(),
        count_acked(slots_marked(marked)) == marked.len(),
{
    lemma_count_members_below(marked, PROBE_COUNT as nat);
    assert(marked.intersect(set_int_range(0, PROBE_COUNT as int)) =~= marked);
}

/// Acknowledging a slot that was not yet acknowledged raises the count by
/// exactly one, whichever slot it is.
pub proof fn lemma_marking_fresh_slot_adds_one(s: Seq<bool>, slot: int)
    requires
        0 <= slot < s.len(),
        !s[slot],
    ensures
        count_acked(s.update(slot, true)) == count_acked(s) + 1,
    decreases s.len(),
{
    let t = s.update(slot, true);
    if slot == s.len() - 1 {
        assert(t.drop_last() =~= s.drop_last());
    } else {
        lemma_marking_fresh_slot_adds_one(s.drop_last(), slot);
        assert(t.drop_last() =~= s.drop_last().update(slot, true));
    }
}

/// The count never exceeds the length of the sequence.
proof fn lemma_count_acked_bound(s: Seq<bool>)
    ensures
        count_acked(s) <= s.len(),
    decreases s.len(),
{
    if s.len() > 0 {
        lemma_count_acked_bound(s.drop_last());
    }
}

impl Ledger {
    /// Every ledger has exactly `PROBE_COUNT` slots, and its count of
    /// acknowledged slots is never more than that.
    pub proof fn lemma_slots_and_count(l: Ledger)
        ensures
            l@.len() == PROBE_COUNT,
            count_acked(l@) <= PROBE_COUNT,
    {
        lemma_count_acked_bound(l@);
    }

    /// A fresh ledger: every slot unacknowledged.
    pub fn new() -> (r: Ledger)
        ensures
            r@ == Seq::new(PROBE_COUNT as nat, |i: int| false),
    {
        let r = Ledger { slots: [false; 10] };
        assert(r@ =~= Seq::new(PROBE_COUNT as nat, |i: int| false));
        r
    }

    /// Marks slot `slot` acknowledged; the other slots keep their values.
    pub fn mark(&mut self, slot: usize)
        requires
            slot < PROBE_COUNT,
        ensures
            final(self)@ == old(self)@.update(slot as int, true),
    {
        self.slots[slot] = true;
    }

    /// Whether slot `slot` has been acknowledged.
    pub fn is_acknowledged(&self, slot: usize) -> (r: bool)
        requires
            slot < PROBE_COUNT,
        ensures
            r == self@[slot as int],
    {
        self.slots[slot]
    }

    /// Number of acknowledged slots.
    pub fn acknowledged_count(&self) -> (r: usize)
        ensures
            r == count_acked(self@),
            r <= PROBE_COUNT,
    {
        let mut n: usize = 0;
        let mut i: usize = 0;
        while i < PROBE_COUNT
            invariant
                i <= PROBE_COUNT,
                self@.len() == PROBE_COUNT,
                n == count_acked(self@.subrange(0, i as int)),
                n <= i,
            decreases PROBE_COUNT - i,
        {
            assert(self@.subrange(0, i as int + 1).drop_last() =~= self@.subrange(0, i as int));
            if self.slots[i] {
                n = n + 1;
            }
            i = i + 1;
        }
        assert(self@.subrange(0, PROBE_COUNT as int) =~= self@);
        n
    }
}

} // verus!
