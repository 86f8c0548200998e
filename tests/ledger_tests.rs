use multicast_tester::collector::{AckCollector, Arrival};
use multicast_tester::error::Error;
use multicast_tester::ledger::{Ledger, PROBE_COUNT};
use multicast_tester::probe::{ack_payload, probe_at, probe_batch, ProbeKind};
use multicast_tester::report::{classify, slot_label, Summary};

fn collector_after(k: usize) -> AckCollector {
    let mut c = AckCollector::new();
    for _ in 0..k {
        assert_eq!(c.record(Arrival::Complete), Ok(()));
    }
    c
}

#[test]
fn fresh_ledger_has_ten_unacknowledged_slots() {
    let l = Ledger::new();
    assert_eq!(PROBE_COUNT, 10);
    for i in 0..10 {
        assert!(!l.is_acknowledged(i));
    }
    assert_eq!(l.acknowledged_count(), 0);
    assert_eq!(l.summary(), Summary::NotWorking);
}

#[test]
fn marking_sets_only_that_slot() {
    let mut l = Ledger::new();
    l.mark(4);
    for i in 0..10 {
        assert_eq!(l.is_acknowledged(i), i == 4);
    }
    assert_eq!(l.acknowledged_count(), 1);
    l.mark(4);
    assert_eq!(l.acknowledged_count(), 1);
}

#[test]
fn count_never_exceeds_ten() {
    let mut l = Ledger::new();
    for i in 0..10 {
        l.mark(i);
        assert_eq!(l.acknowledged_count(), i + 1);
    }
    l.mark(9);
    assert_eq!(l.acknowledged_count(), 10);
    assert_eq!(l.summary(), Summary::Working);
}

#[test]
fn count_does_not_depend_on_which_slots() {
    let mut a = Ledger::new();
    for i in [0, 1, 2] {
        a.mark(i);
    }
    let mut b = Ledger::new();
    for i in [9, 3, 6] {
        b.mark(i);
    }
    assert_eq!(a.acknowledged_count(), 3);
    assert_eq!(b.acknowledged_count(), 3);
    assert_eq!(a.summary(), b.summary());
}

#[test]
fn ten_complete_arrivals_fill_the_ledger() {
    let c = collector_after(10);
    assert!(c.is_finished());
    assert_eq!(c.accepted(), 10);
    let l = c.into_ledger();
    for i in 0..10 {
        assert!(l.is_acknowledged(i));
    }
    assert_eq!(l.acknowledged_count(), 10);
    assert_eq!(l.summary(), Summary::Working);
}

#[test]
fn no_arrivals_means_not_working() {
    let c = AckCollector::new();
    assert!(!c.is_finished());
    assert_eq!(c.ledger().acknowledged_count(), 0);
    assert_eq!(c.ledger().summary(), Summary::NotWorking);
}

#[test]
fn some_arrivals_mean_partially_working() {
    for k in 1..10 {
        let c = collector_after(k);
        assert!(!c.is_finished());
        assert_eq!(c.ledger().acknowledged_count(), k);
        assert_eq!(c.ledger().summary(), Summary::PartiallyWorking);
        for i in 0..10 {
            assert_eq!(c.ledger().is_acknowledged(i), i < k);
        }
    }
}

#[test]
fn three_acknowledgments_report_three_of_ten() {
    let c = collector_after(3);
    let l = c.into_ledger();
    assert_eq!(l.acknowledged_count(), 3);
    let labels: Vec<&str> = (0..10).map(|i| slot_label(l.is_acknowledged(i))).collect();
    assert_eq!(labels[..3], ["Had Response"; 3]);
    assert_eq!(labels[3..], ["No Response"; 7]);
    assert_eq!(
        format!("We saw responses to {}/{} of the multicast packets", l.acknowledged_count(), PROBE_COUNT),
        "We saw responses to 3/10 of the multicast packets"
    );
    let s = l.summary();
    assert_eq!(s, Summary::PartiallyWorking);
    assert_eq!(
        s.headline(),
        "Multicast appears to be partially working, though there is some packet loss."
    );
}

#[test]
fn broken_arrival_fails_with_read_data() {
    let mut c = collector_after(2);
    assert_eq!(c.record(Arrival::Broken), Err(Error::ReadData));
    assert_eq!(c.accepted(), 2);
    assert_eq!(c.ledger().acknowledged_count(), 2);
}

#[test]
fn classify_exact_values() {
    assert_eq!(classify(0), Summary::NotWorking);
    assert_eq!(classify(1), Summary::PartiallyWorking);
    assert_eq!(classify(9), Summary::PartiallyWorking);
    assert_eq!(classify(10), Summary::Working);
}

#[test]
fn summary_texts() {
    assert_eq!(Summary::Working.headline(), "Multicast across the two devices is working!");
    assert_eq!(Summary::Working.hint(), None);
    assert_eq!(
        Summary::NotWorking.headline(),
        "Multicast across the two devices is not working..."
    );
    assert_eq!(
        Summary::NotWorking.hint(),
        Some("If you're trying to multicast from a wireless device to Ethernet, then this is probably to be expected, sadly.")
    );
    assert_eq!(
        Summary::PartiallyWorking.hint(),
        Some("If you're testing multicasts between wireless and wired devices, this is a common occurance.")
    );
    assert_eq!(slot_label(true), "Had Response");
    assert_eq!(slot_label(false), "No Response");
}

#[test]
fn batch_has_ten_probes_last_one_terminal() {
    let b = probe_batch();
    assert_eq!(b.len(), 10);
    for (i, p) in b.iter().enumerate() {
        assert_eq!(p.index, i);
        let expected = if i == 9 { ProbeKind::TerminalMarker } else { ProbeKind::Marker };
        assert_eq!(p.kind, expected);
        assert_eq!(*p, probe_at(i));
    }
}

#[test]
fn payload_texts() {
    assert_eq!(ProbeKind::Marker.payload(), "General Kenobi!");
    assert_eq!(ProbeKind::TerminalMarker.payload(), "Until next time!");
    assert_eq!(ack_payload(), "Hello there!");
}

#[test]
fn error_messages() {
    assert_eq!(Error::SocketBind.message(), "Failed to bind to a socket");
    assert_eq!(Error::Connection.message(), "Failed to connect to a peer");
    assert_eq!(Error::ReadData.message(), "Failed to read data from a peer!");
    assert_eq!(
        Error::SendData.message(),
        "Failed to respond with data to a caster, check your connection!"
    );
    assert_eq!(Error::BadArguments.message(), "Invalid CLI arguments were supplied!");
    assert_eq!(Error::StdIn.message(), "Failed to read data from the command line!");
}
