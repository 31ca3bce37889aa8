//! Cross-gate mesh trust events and their mapping to DAG event types.

use vstd::prelude::*;
use super::event::{EventType, MeshLeaveReason};

verus! {

/// A trust event received from a cross-gate auth provider.
#[derive(Debug, PartialEq, Eq)]
pub struct MeshTrustEvent {
    /// Event kind.
    pub kind: MeshTrustEventKind,
    /// Gate that originated the event.
    pub source_gate: String,
    /// Unix time (seconds) of the event.
    pub timestamp: u64,
}

/// Event kinds of the auth subsystem.
#[derive(Debug, PartialEq, Eq)]
pub enum MeshTrustEventKind {
    /// A trusted issuer was registered.
    TrustIssuerRegistered {
        /// Public key fingerprint (hex).
        issuer_fingerprint: String,
    },
    /// A key exchange between gates completed.
    KeyExchangeCompleted {
        /// Remote gate.
        remote_gate: String,
        /// Key exchange method.
        method: String,
    },
    /// A primal family enrolled in the mesh.
    FamilyEnrollment {
        /// Family identifier.
        family_id: String,
        /// Number of primals at enrollment.
        primal_count: u32,
    },
    /// A gate joined the mesh.
    MeshJoin {
        /// Mesh network identifier.
        mesh_id: String,
    },
    /// A gate left the mesh.
    MeshLeave {
        /// Mesh network identifier.
        mesh_id: String,
        /// Reason for leaving.
        reason: MeshLeaveReason,
    },
}

/// The DAG event a trust event is recorded as: the kind's fields, with the source gate
/// as the registering, local, enrolling, joining or leaving gate.
pub open spec fn event_type_of(e: MeshTrustEvent) -> EventType {
    match e.kind {
        MeshTrustEventKind::TrustIssuerRegistered { issuer_fingerprint } =>
            EventType::TrustIssuerRegistered {
            issuer_fingerprint,
            registering_gate: e.source_gate,
        },
        MeshTrustEventKind::KeyExchangeCompleted { remote_gate, method } =>
            EventType::KeyExchangeCompleted { local_gate: e.source_gate, remote_gate, method },
        MeshTrustEventKind::FamilyEnrollment { family_id, primal_count } =>
            EventType::FamilyEnrollment { family_id, gate: e.source_gate, primal_count },
        MeshTrustEventKind::MeshJoin { mesh_id } => EventType::MeshJoin {
            gate: e.source_gate,
            mesh_id,
        },
        MeshTrustEventKind::MeshLeave { mesh_id, reason } => EventType::MeshLeave {
            gate: e.source_gate,
            mesh_id,
            reason,
        },
    }
}

impl Clone for MeshTrustEventKind {
    fn clone(&self) -> (r: Self)
        ensures
            r == *self,
    {
        match self {
            MeshTrustEventKind::TrustIssuerRegistered { issuer_fingerprint } =>
                MeshTrustEventKind::TrustIssuerRegistered {
                issuer_fingerprint: issuer_fingerprint.clone(),
            },
            MeshTrustEventKind::KeyExchangeCompleted { remote_gate, method } =>
                MeshTrustEventKind::KeyExchangeCompleted {
                remote_gate: remote_gate.clone(),
                method: method.clone(),
            },
            MeshTrustEventKind::FamilyEnrollment { family_id, primal_count } =>
                MeshTrustEventKind::FamilyEnrollment {
                family_id: family_id.clone(),
                primal_count: *primal_count,
            },
            MeshTrustEventKind::MeshJoin { mesh_id } => MeshTrustEventKind::MeshJoin {
                mesh_id: mesh_id.clone(),
            },
            MeshTrustEventKind::MeshLeave { mesh_id, reason } => MeshTrustEventKind::MeshLeave {
                mesh_id: mesh_id.clone(),
                reason: reason.clone(),
            },
        }
    }
}

impl Clone for MeshTrustEvent {
    fn clone(&self) -> (r: Self)
        ensures
            r == *self,
    {
        MeshTrustEvent {
            kind: self.kind.clone(),
            source_gate: self.source_gate.clone(),
            timestamp: self.timestamp,
        }
    }
}

impl MeshTrustEvent {
    /// The DAG event this trust event is recorded as, leaving the event in place.
    pub fn to_event_type(&self) -> (r: EventType)
        ensures
            r == event_type_of(*self),
    {
        match &self.kind {
            MeshTrustEventKind::TrustIssuerRegistered { issuer_fingerprint } =>
                EventType::TrustIssuerRegistered {
                issuer_fingerprint: issuer_fingerprint.clone(),
                registering_gate: self.source_gate.clone(),
            },
            MeshTrustEventKind::KeyExchangeCompleted { remote_gate, method } =>
                EventType::KeyExchangeCompleted {
                local_gate: self.source_gate.clone(),
                remote_gate: remote_gate.clone(),
                method: method.clone(),
            },
            MeshTrustEventKind::FamilyEnrollment { family_id, primal_count } =>
                EventType::FamilyEnrollment {
                family_id: family_id.clone(),
                gate: self.source_gate.clone(),
                primal_count: *primal_count,
            },
            MeshTrustEventKind::MeshJoin { mesh_id } => EventType::MeshJoin {
                gate: self.source_gate.clone(),
                mesh_id: mesh_id.clone(),
            },
            MeshTrustEventKind::MeshLeave { mesh_id, reason } => EventType::MeshLeave {
                gate: self.source_gate.clone(),
                mesh_id: mesh_id.clone(),
                reason: reason.clone(),
            },
        }
    }

    /// The DAG event this trust event is recorded as, taking the event.
    pub fn into_event_type(self) -> (r: EventType)
        ensures
            r == event_type_of(self),
    {
        match self.kind {
            MeshTrustEventKind::TrustIssuerRegistered { issuer_fingerprint } =>
                EventType::TrustIssuerRegistered {
                issuer_fingerprint,
                registering_gate: self.source_gate,
            },
            MeshTrustEventKind::KeyExchangeCompleted { remote_gate, method } =>
                EventType::KeyExchangeCompleted { local_gate: self.source_gate, remote_gate, method },
            MeshTrustEventKind::FamilyEnrollment { family_id, primal_count } =>
                EventType::FamilyEnrollment { family_id, gate: self.source_gate, primal_count },
            MeshTrustEventKind::MeshJoin { mesh_id } => EventType::MeshJoin {
                gate: self.source_gate,
                mesh_id,
            },
            MeshTrustEventKind::MeshLeave { mesh_id, reason } => EventType::MeshLeave {
                gate: self.source_gate,
                mesh_id,
                reason,
            },
        }
    }
}

/// State of the mesh event listener.
#[derive(Clone, Copy, Debug, PartialEq, Eq, Structural)]
pub enum ListenerState {
    /// Not connected to a signing provider.
    Disconnected,
    /// Connected, ready to poll.
    Connected,
}


/// The latest of `since` and the timestamps of `events`.
pub open spec fn latest_timestamp(since: u64, events: Seq<MeshTrustEvent>) -> u64
    decreases events.len(),
{
    if events.len() == 0 {
        since
    } else {
        let before = latest_timestamp(since, events.drop_last());
        if events.last().timestamp > before {
            events.last().timestamp
        } else {
            before
        }
    }
}

/// The poll watermark never moves back, and no polled event is later than it.
pub proof fn lemma_watermark_bounds(since: u64, events: Seq<MeshTrustEvent>)
    ensures
        latest_timestamp(since, events) >= since,
        forall|i: int|
            0 <= i < events.len() ==> #[trigger] events[i].timestamp <= latest_timestamp(
                since,
                events,
            ),
    decreases events.len(),
{
    if events.len() > 0 {
        lemma_watermark_bounds(since, events.drop_last());
        assert forall|i: int| 0 <= i < events.len() implies #[trigger] events[i].timestamp
            <= latest_timestamp(since, events) by {
            if i < events.len() - 1 {
                assert(events[i] == events.drop_last()[i]);
            }
        }
    }
}

/// The mesh listener's record: the trust events received, in order, and the poll
/// watermark (the latest event time polled so far).
pub struct MeshEventLog {
    events: Vec<MeshTrustEvent>,
    last_poll_timestamp: u64,
}

/// What a mesh event log holds.
pub struct MeshEventLogView {
    pub events: Seq<MeshTrustEvent>,
    pub last_poll_timestamp: u64,
}

impl View for MeshEventLog {
    type V = MeshEventLogView;

    closed spec fn view(&self) -> MeshEventLogView {
        MeshEventLogView { events: self.events@, last_poll_timestamp: self.last_poll_timestamp }
    }
}

impl MeshEventLog {
    /// An empty log with watermark 0.
    pub fn new() -> (r: Self)
        ensures
            r@.events == Seq::<MeshTrustEvent>::empty(),
            r@.last_poll_timestamp == 0,
    {
        MeshEventLog { events: Vec::new(), last_poll_timestamp: 0 }
    }

    /// Records a trust event and returns the DAG event it maps to; the watermark is left
    /// alone.
    pub fn record_event(&mut self, event: MeshTrustEvent) -> (r: EventType)
        ensures
            r == event_type_of(event),
            final(self)@.events == old(self)@.events.push(event),
            final(self)@.last_poll_timestamp == old(self)@.last_poll_timestamp,
    {
        let event_type = event.to_event_type();
        self.events.push(event);
        event_type
    }

    /// Records the events of one poll, in order, and moves the watermark to the latest
    /// of its old value and their timestamps. Returns how many were recorded.
    pub fn record_polled(&mut self, polled: Vec<MeshTrustEvent>) -> (r: usize)
        ensures
            r == polled@.len(),
            final(self)@.events == old(self)@.events + polled@,
            final(self)@.last_poll_timestamp == latest_timestamp(
                old(self)@.last_poll_timestamp,
                polled@,
            ),
    {
        let since = self.last_poll_timestamp;
        let mut max_timestamp = since;
        let mut count: usize = 0;
        let mut i: usize = 0;
        while i < polled.len()
            invariant
                i <= polled@.len(),
                count == i,
                self.last_poll_timestamp == since,
                since == old(self)@.last_poll_timestamp,
                self.events@ == old(self)@.events + polled@.subrange(0, i as int),
                max_timestamp == latest_timestamp(since, polled@.subrange(0, i as int)),
            decreases polled@.len() - i,
        {
            let event = polled[i].clone();
            assert(polled@.subrange(0, i + 1).drop_last() =~= polled@.subrange(0, i as int));
            if event.timestamp > max_timestamp {
                max_timestamp = event.timestamp;
            }
            self.events.push(event);
            count = count + 1;
            i = i + 1;
            assert(self.events@ =~= old(self)@.events + polled@.subrange(0, i as int));
        }
        assert(polled@.subrange(0, i as int) =~= polled@);
        if count > 0 {
            self.last_poll_timestamp = max_timestamp;
        }
        count
    }

    /// Number of recorded events.
    pub fn event_count(&self) -> (r: usize)
        ensures
            r == self@.events.len(),
    {
        self.events.len()
    }

    /// Takes every recorded event, leaving the log empty.
    pub fn drain_events(&mut self) -> (r: Vec<MeshTrustEvent>)
        ensures
            r@ == old(self)@.events,
            final(self)@.events == Seq::<MeshTrustEvent>::empty(),
            final(self)@.last_poll_timestamp == old(self)@.last_poll_timestamp,
    {
        let mut taken: Vec<MeshTrustEvent> = Vec::new();
        std::mem::swap(&mut taken, &mut self.events);
        taken
    }

    /// The poll watermark.
    pub fn last_poll_timestamp(&self) -> (r: u64)
        ensures
            r == self@.last_poll_timestamp,
    {
        self.last_poll_timestamp
    }
}

} // verus!
