use vstd::prelude::*;
use crate::endpoint::{
    group_endpoint, protocol_endpoint, spec_multicast_group, Endpoint, Ipv4Address, PROTOCOL_PORT,
};
use crate::error::Error;
use crate::ledger::PROBE_COUNT;
use crate::probe::{probe_at, spec_probe, Probe};

verus! {

/// Where a broadcaster session stands.
#[derive(Clone, Copy, Debug, PartialEq, Eq, Structural)]
pub enum BroadcastPhase {
    /// Binding the acknowledgment listener and starting the collector on it.
    BindCollector,
    /// Binding the socket that probes are sent from.
    BindAnnouncer,
    /// Sending the probe batch, one probe per step.
    Sending,
    /// Every probe is sent; waiting for the collector to finish.
    AwaitCollector,
    /// The collector finished; the ledger is to be reported.
    Reporting,
    /// The session is over.
    Finished,
}

/// What happened to the action last asked for.
#[derive(Clone, Copy, Debug, PartialEq, Eq)]
pub enum BroadcastEvent {
    /// The action succeeded.
    Completed,
    /// The action failed.
    Failed,
    /// The collector task finished with this result.
    CollectorJoined(Result<(), Error>),
}

/// What the session asks its driver to do next.
#[derive(Clone, Copy, Debug, PartialEq, Eq)]
pub enum BroadcastAction {
    /// Bind a listener at this endpoint and start collecting acknowledgments
    /// on it in the background.
    BindCollector(Endpoint),
    /// Bind the probe socket at this endpoint.
    BindAnnouncer(Endpoint),
    /// Send this probe to this endpoint, then pause about a second.
    SendProbe(Probe, Endpoint),
    /// Wait for the collector task to finish.
    JoinCollector,
    /// Report the ledger.
    Report,
    /// Stop, with this result.
    Finish(Result<(), Error>),
}

/// The state of a broadcaster session as a value.
pub struct BroadcastView {
    pub local: Ipv4Address,
    pub phase: BroadcastPhase,
    pub sent: nat,
    pub outcome: Result<(), Error>,
}

/// The main side of a broadcaster session: it binds, sends the probe batch,
/// waits for the collector and has the result reported. Failures end it at
/// once.
pub struct BroadcasterSession {
    local: Ipv4Address,
    phase: BroadcastPhase,
    sent: usize,
    outcome: Result<(), Error>,
}

impl View for BroadcasterSession {
    type V = BroadcastView;

    closed spec fn view(&self) -> BroadcastView {
        BroadcastView {
            local: self.local,
            phase: self.phase,
            sent: self.sent as nat,
            outcome: self.outcome,
        }
    }
}

/// The session that finished with `outcome`.
pub open spec fn finished_with(v: BroadcastView, outcome: Result<(), Error>) -> BroadcastView {
    BroadcastView { phase: BroadcastPhase::Finished, outcome, ..v }
}

/// The state after `ev` answers the pending action of state `v`. An event that
/// does not answer that action changes nothing.
pub open spec fn broadcast_next(v: BroadcastView, ev: BroadcastEvent) -> BroadcastView {
    match (v.phase, ev) {
        (BroadcastPhase::BindCollector, BroadcastEvent::Completed) => BroadcastView {
            phase: BroadcastPhase::BindAnnouncer,
            ..v
        },
        (BroadcastPhase::BindCollector, BroadcastEvent::Failed) => finished_with(
            v,
            Err(Error::SocketBind),
        ),
        (BroadcastPhase::BindAnnouncer, BroadcastEvent::Completed) => BroadcastView {
            phase: BroadcastPhase::Sending,
            ..v
        },
        (BroadcastPhase::BindAnnouncer, BroadcastEvent::Failed) => finished_with(
            v,
            Err(Error::SocketBind),
        ),
        (BroadcastPhase::Sending, BroadcastEvent::Completed) => BroadcastView {
            phase: if v.sent + 1 == PROBE_COUNT {
                BroadcastPhase::AwaitCollector
            } else {
                BroadcastPhase::Sending
            },
            sent: v.sent + 1,
            ..v
        },
        (BroadcastPhase::Sending, BroadcastEvent::Failed) => finished_with(
            v,
            Err(Error::SendData),
        ),
        (BroadcastPhase::AwaitCollector, BroadcastEvent::CollectorJoined(r)) => match r {
            Ok(()) => BroadcastView { phase: BroadcastPhase::Reporting, ..v },
            Err(e) => finished_with(v, Err(e)),
        },
        (BroadcastPhase::Reporting, BroadcastEvent::Completed) => finished_with(v, Ok(())),
        _ => v,
    }
}

/// The action that state `v` asks for.
pub open spec fn broadcast_action(v: BroadcastView) -> BroadcastAction {
    match v.phase {
        BroadcastPhase::BindCollector => BroadcastAction::BindCollector(
            Endpoint { ip: v.local, port: PROTOCOL_PORT },
        ),
        BroadcastPhase::BindAnnouncer => BroadcastAction::BindAnnouncer(
            Endpoint { ip: v.local, port: PROTOCOL_PORT },
        ),
        BroadcastPhase::Sending => BroadcastAction::SendProbe(
            spec_probe(v.sent as int),
            Endpoint { ip: spec_multicast_group(), port: PROTOCOL_PORT },
        ),
        BroadcastPhase::AwaitCollector => BroadcastAction::JoinCollector,
        BroadcastPhase::Reporting => BroadcastAction::Report,
        BroadcastPhase::Finished => BroadcastAction::Finish(v.outcome),
    }
}

impl BroadcasterSession {
    /// Nothing is sent before both sockets are bound; the batch is sent in
    /// full before the collector is awaited; a clean finish follows a full
    /// batch.
    pub open spec fn wf(&self) -> bool {
        let v = self@;
        &&& v.sent <= PROBE_COUNT
        &&& (v.phase == BroadcastPhase::BindCollector || v.phase == BroadcastPhase::BindAnnouncer)
            ==> v.sent == 0
        &&& v.phase == BroadcastPhase::Sending ==> v.sent < PROBE_COUNT
        &&& (v.phase == BroadcastPhase::AwaitCollector || v.phase == BroadcastPhase::Reporting)
            ==> v.sent == PROBE_COUNT
        &&& (v.phase == BroadcastPhase::Finished && v.outcome is Ok) ==> v.sent == PROBE_COUNT
    }

    /// A session for the host at `local`, about to bind its collector.
    pub fn new(local: Ipv4Address) -> (r: BroadcasterSession)
        ensures
            r.wf(),
            r@.local == local,
            r@.phase == BroadcastPhase::BindCollector,
            r@.sent == 0,
    {
        BroadcasterSession { local, phase: BroadcastPhase::BindCollector, sent: 0, outcome: Ok(()) }
    }

    /// Number of probes sent so far.
    pub fn sent(&self) -> (r: usize)
        ensures
            r == self@.sent,
    {
        self.sent
    }

    /// The pending action.
    pub fn action(&self) -> (r: BroadcastAction)
        requires
            self.wf(),
        ensures
            r == broadcast_action(self@),
    {
        match self.phase {
            BroadcastPhase::BindCollector => BroadcastAction::BindCollector(
                protocol_endpoint(self.local),
            ),
            BroadcastPhase::BindAnnouncer => BroadcastAction::BindAnnouncer(
                protocol_endpoint(self.local),
            ),
            BroadcastPhase::Sending => BroadcastAction::SendProbe(
                probe_at(self.sent),
                group_endpoint(),
            ),
            BroadcastPhase::AwaitCollector => BroadcastAction::JoinCollector,
            BroadcastPhase::Reporting => BroadcastAction::Report,
            BroadcastPhase::Finished => BroadcastAction::Finish(self.outcome),
        }
    }

    /// Takes the result of the pending action and returns the next one.
    pub fn step(&mut self, ev: BroadcastEvent) -> (r: BroadcastAction)
        requires
            old(self).wf(),
        ensures
            final(self).wf(),
            final(self)@ == broadcast_next(old(self)@, ev),
            r == broadcast_action(final(self)@),
    {
        match (self.phase, ev) {
            (BroadcastPhase::BindCollector, BroadcastEvent::Completed) => {
                self.phase = BroadcastPhase::BindAnnouncer;
            },
            (BroadcastPhase::BindCollector, BroadcastEvent::Failed) => {
                self.finish(Err(Error::SocketBind));
            },
            (BroadcastPhase::BindAnnouncer, BroadcastEvent::Completed) => {
                self.phase = BroadcastPhase::Sending;
            },
            (BroadcastPhase::BindAnnouncer, BroadcastEvent::Failed) => {
                self.finish(Err(Error::SocketBind));
            },
            (BroadcastPhase::Sending, BroadcastEvent::Completed) => {
                self.sent = self.sent + 1;
                if self.sent == PROBE_COUNT {
                    self.phase = BroadcastPhase::AwaitCollector;
                }
            },
            (BroadcastPhase::Sending, BroadcastEvent::Failed) => {
                self.finish(Err(Error::SendData));
            },
            (BroadcastPhase::AwaitCollector, BroadcastEvent::CollectorJoined(r)) => {
                match r {
                    Ok(()) => {
                        self.phase = BroadcastPhase::Reporting;
                    },
                    Err(e) => {
                        self.finish(Err(e));
                    },
                }
            },
            (BroadcastPhase::Reporting, BroadcastEvent::Completed) => {
                self.finish(Ok(()));
            },
            _ => {},
        }
        self.action()
    }

    fn finish(&mut self, outcome: Result<(), Error>)
        ensures
            final(self)@ == finished_with(old(self)@, outcome),
    {
        self.phase = BroadcastPhase::Finished;
        self.outcome = outcome;
    }
}

/// However a session is driven, it never sends more than `PROBE_COUNT` probes,
/// it asks for probe `i` only as the `i`-th send, and it awaits the collector,
/// reports, or finishes cleanly only once exactly `PROBE_COUNT` probes are sent.
pub proof fn lemma_batch_is_exactly_probe_count(s: BroadcasterSession)
    requires
        s.wf(),
    ensures
        s@.sent <= PROBE_COUNT,
        broadcast_action(s@) is SendProbe ==> {
            &&& s@.sent < PROBE_COUNT
            &&& broadcast_action(s@) == BroadcastAction::SendProbe(
                spec_probe(s@.sent as int),
                Endpoint { ip: spec_multicast_group(), port: PROTOCOL_PORT },
            )
        },
        (broadcast_action(s@) == BroadcastAction::JoinCollector || broadcast_action(s@)
            == BroadcastAction::Report || broadcast_action(s@) == BroadcastAction::Finish(
            Ok(()),
        )) ==> s@.sent == PROBE_COUNT,
{
}

/// A failed bind ends the session with `SocketBind` before any probe is sent.
pub proof fn lemma_bind_failure_aborts_before_sending(s: BroadcasterSession)
    requires
        s.wf(),
        s@.phase == BroadcastPhase::BindCollector || s@.phase == BroadcastPhase::BindAnnouncer,
    ensures
        broadcast_next(s@, BroadcastEvent::Failed).sent == 0,
        broadcast_action(broadcast_next(s@, BroadcastEvent::Failed)) == BroadcastAction::Finish(
            Err(Error::SocketBind),
        ),
{
}

} // verus!
