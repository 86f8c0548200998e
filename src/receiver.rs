use vstd::prelude::*;
use crate::endpoint::{
    multicast_group, protocol_endpoint, spec_multicast_group, Endpoint, Ipv4Address, PROTOCOL_PORT,
};
use crate::error::Error;
use crate::ledger::PROBE_COUNT;

verus! {

/// Where a receiver session stands.
#[derive(Clone, Copy, Debug, PartialEq, Eq, Structural)]
pub enum ReceivePhase {
    /// Binding the socket that probes arrive on.
    Bind,
    /// Joining the multicast group on the bound interface.
    JoinGroup,
    /// Waiting for the next probe.
    Receiving,
    /// Acknowledging the probe just received to its sender.
    Acknowledging,
    /// The session is over.
    Finished,
}

/// What happened to the action last asked for.
///
/// A failed acknowledgment write ends the session, as every other failure
/// does: the session does not go on past a probe it could not acknowledge.
#[derive(Clone, Copy, Debug, PartialEq, Eq, Structural)]
pub enum ReceiveEvent {
    /// The action succeeded.
    Completed,
    /// Binding, joining or receiving failed.
    Failed,
    /// A probe arrived from this address.
    Datagram(Ipv4Address),
    /// The acknowledgment connection could not be opened.
    ConnectFailed,
    /// The acknowledgment payload could not be written.
    WriteFailed,
}

/// What the session asks its driver to do next.
#[derive(Clone, Copy, Debug, PartialEq, Eq)]
pub enum ReceiveAction {
    /// Bind the probe socket at this endpoint.
    Bind(Endpoint),
    /// Join the multicast group `group` on the interface with address
    /// `interface`.
    JoinGroup { group: Ipv4Address, interface: Ipv4Address },
    /// Wait for one probe.
    Receive,
    /// Connect to this endpoint, write the acknowledgment payload, and close.
    Acknowledge(Endpoint),
    /// Stop, with this result.
    Finish(Result<(), Error>),
}

/// The state of a receiver session as a value.
pub struct ReceiveView {
    pub local: Ipv4Address,
    pub phase: ReceivePhase,
    pub handled: nat,
    pub source: Ipv4Address,
    pub outcome: Result<(), Error>,
}

/// A receiver session: it joins the group, then for each of `PROBE_COUNT`
/// probes opens a connection back to that probe's sender and acknowledges it.
/// Failures end it at once.
pub struct ReceiverSession {
    local: Ipv4Address,
    phase: ReceivePhase,
    handled: usize,
    source: Ipv4Address,
    outcome: Result<(), Error>,
}

impl View for ReceiverSession {
    type V = ReceiveView;

    closed spec fn view(&self) -> ReceiveView {
        ReceiveView {
            local: self.local,
            phase: self.phase,
            handled: self.handled as nat,
            source: self.source,
            outcome: self.outcome,
        }
    }
}

/// The session that finished with `outcome`.
pub open spec fn receive_finished_with(v: ReceiveView, outcome: Result<(), Error>) -> ReceiveView {
    ReceiveView { phase: ReceivePhase::Finished, outcome, ..v }
}

/// The state after `ev` answers the pending action of state `v`. An event that
/// does not answer that action changes nothing.
pub open spec fn receive_next(v: ReceiveView, ev: ReceiveEvent) -> ReceiveView {
    match (v.phase, ev) {
        (ReceivePhase::Bind, ReceiveEvent::Completed) => ReceiveView {
            phase: ReceivePhase::JoinGroup,
            ..v
        },
        (ReceivePhase::Bind, ReceiveEvent::Failed) => receive_finished_with(
            v,
            Err(Error::SocketBind),
        ),
        (ReceivePhase::JoinGroup, ReceiveEvent::Completed) => ReceiveView {
            phase: ReceivePhase::Receiving,
            ..v
        },
        (ReceivePhase::JoinGroup, ReceiveEvent::Failed) => receive_finished_with(
            v,
            Err(Error::SocketBind),
        ),
        (ReceivePhase::Receiving, ReceiveEvent::Datagram(from)) => ReceiveView {
            phase: ReceivePhase::Acknowledging,
            source: from,
            ..v
        },
        (ReceivePhase::Receiving, ReceiveEvent::Failed) => receive_finished_with(
            v,
            Err(Error::ReadData),
        ),
        (ReceivePhase::Acknowledging, ReceiveEvent::Completed) => if v.handled + 1
            == PROBE_COUNT {
            ReceiveView {
                phase: ReceivePhase::Finished,
                handled: v.handled + 1,
                outcome: Ok(()),
                ..v
            }
        } else {
            ReceiveView { phase: ReceivePhase::Receiving, handled: v.handled + 1, ..v }
        },
        (ReceivePhase::Acknowledging, ReceiveEvent::ConnectFailed) => receive_finished_with(
            v,
            Err(Error::Connection),
        ),
        (ReceivePhase::Acknowledging, ReceiveEvent::WriteFailed) => receive_finished_with(
            v,
            Err(Error::SendData),
        ),
        _ => v,
    }
}

/// The action that state `v` asks for.
pub open spec fn receive_action(v: ReceiveView) -> ReceiveAction {
    match v.phase {
        ReceivePhase::Bind => ReceiveAction::Bind(Endpoint { ip: v.local, port: PROTOCOL_PORT }),
        ReceivePhase::JoinGroup => ReceiveAction::JoinGroup {
            group: spec_multicast_group(),
            interface: v.local,
        },
        ReceivePhase::Receiving => ReceiveAction::Receive,
        ReceivePhase::Acknowledging => ReceiveAction::Acknowledge(
            Endpoint { ip: v.source, port: PROTOCOL_PORT },
        ),
        ReceivePhase::Finished => ReceiveAction::Finish(v.outcome),
    }
}

impl ReceiverSession {
    /// Nothing is received before the group is joined; no more than
    /// `PROBE_COUNT` probes are handled; a clean finish follows a full batch.
    pub open spec fn wf(&self) -> bool {
        let v = self@;
        &&& v.handled <= PROBE_COUNT
        &&& (v.phase == ReceivePhase::Bind || v.phase == ReceivePhase::JoinGroup) ==> v.handled
            == 0
        &&& (v.phase == ReceivePhase::Receiving || v.phase == ReceivePhase::Acknowledging)
            ==> v.handled < PROBE_COUNT
        &&& (v.phase == ReceivePhase::Finished && v.outcome is Ok) ==> v.handled == PROBE_COUNT
    }

    /// A session for the host at `local`, about to bind.
    pub fn new(local: Ipv4Address) -> (r: ReceiverSession)
        ensures
            r.wf(),
            r@.local == local,
            r@.phase == ReceivePhase::Bind,
            r@.handled == 0,
    {
        ReceiverSession {
            local,
            phase: ReceivePhase::Bind,
            handled: 0,
            source: local,
            outcome: Ok(()),
        }
    }

    /// Number of probes acknowledged so far.
    pub fn handled(&self) -> (r: usize)
        ensures
            r == self@.handled,
    {
        self.handled
    }

    /// The pending action.
    pub fn action(&self) -> (r: ReceiveAction)
        ensures
            r == receive_action(self@),
    {
        match self.phase {
            ReceivePhase::Bind => ReceiveAction::Bind(protocol_endpoint(self.local)),
            ReceivePhase::JoinGroup => ReceiveAction::JoinGroup {
                group: multicast_group(),
                interface: self.local,
            },
            ReceivePhase::Receiving => ReceiveAction::Receive,
            ReceivePhase::Acknowledging => ReceiveAction::Acknowledge(
                protocol_endpoint(self.source),
            ),
            ReceivePhase::Finished => ReceiveAction::Finish(self.outcome),
        }
    }

    /// Takes the result of the pending action and returns the next one.
    pub fn step(&mut self, ev: ReceiveEvent) -> (r: ReceiveAction)
        requires
            old(self).wf(),
        ensures
            final(self).wf(),
            final(self)@ == receive_next(old(self)@, ev),
            r == receive_action(final(self)@),
    {
        match (self.phase, ev) {
            (ReceivePhase::Bind, ReceiveEvent::Completed) => {
                self.phase = ReceivePhase::JoinGroup;
            },
            (ReceivePhase::Bind, ReceiveEvent::Failed) => {
                self.finish(Err(Error::SocketBind));
            },
            (ReceivePhase::JoinGroup, ReceiveEvent::Completed) => {
                self.phase = ReceivePhase::Receiving;
            },
            (ReceivePhase::JoinGroup, ReceiveEvent::Failed) => {
                self.finish(Err(Error::SocketBind));
            },
            (ReceivePhase::Receiving, ReceiveEvent::Datagram(from)) => {
                self.phase = ReceivePhase::Acknowledging;
                self.source = from;
            },
            (ReceivePhase::Receiving, ReceiveEvent::Failed) => {
                self.finish(Err(Error::ReadData));
            },
            (ReceivePhase::Acknowledging, ReceiveEvent::Completed) => {
                self.handled = self.handled + 1;
                if self.handled == PROBE_COUNT {
                    self.finish(Ok(()));
                } else {
                    self.phase = ReceivePhase::Receiving;
                }
            },
            (ReceivePhase::Acknowledging, ReceiveEvent::ConnectFailed) => {
                self.finish(Err(Error::Connection));
            },
            (ReceivePhase::Acknowledging, ReceiveEvent::WriteFailed) => {
                self.finish(Err(Error::SendData));
            },
            _ => {},
        }
        self.action()
    }

    fn finish(&mut self, outcome: Result<(), Error>)
        ensures
            final(self)@ == receive_finished_with(old(self)@, outcome),
    {
        self.phase = ReceivePhase::Finished;
        self.outcome = outcome;
    }
}

/// Each probe is acknowledged to the protocol port of the address that probe
/// came from, and receiving it does not by itself count as handling it.
pub proof fn lemma_acknowledges_each_probe_to_its_sender(s: ReceiverSession, from: Ipv4Address)
    requires
        s.wf(),
        s@.phase == ReceivePhase::Receiving,
    ensures
        receive_action(receive_next(s@, ReceiveEvent::Datagram(from)))
            == ReceiveAction::Acknowledge(Endpoint { ip: from, port: PROTOCOL_PORT }),
        receive_next(s@, ReceiveEvent::Datagram(from)).handled == s@.handled,
{
}

/// A session that finishes cleanly has acknowledged exactly `PROBE_COUNT`
/// probes, and one that has acknowledged `PROBE_COUNT` probes asks for nothing
/// more.
pub proof fn lemma_clean_finish_after_full_batch(s: ReceiverSession)
    requires
        s.wf(),
    ensures
        receive_action(s@) == ReceiveAction::Finish(Ok(())) ==> s@.handled == PROBE_COUNT,
        s@.handled == PROBE_COUNT ==> s@.phase == ReceivePhase::Finished,
{
}

/// A failed bind or group join ends the session with `SocketBind` before any
/// probe is received.
pub proof fn lemma_receiver_bind_failure_aborts(s: ReceiverSession)
    requires
        s.wf(),
        s@.phase == ReceivePhase::Bind || s@.phase == ReceivePhase::JoinGroup,
    ensures
        receive_next(s@, ReceiveEvent::Failed).handled == 0,
        receive_action(receive_next(s@, ReceiveEvent::Failed)) == ReceiveAction::Finish(
            Err(Error::SocketBind),
        ),
{
}

} // verus!
