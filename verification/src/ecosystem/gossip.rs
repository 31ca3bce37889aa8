//! Gossip events announced to the mesh.

use vstd::prelude::*;

verus! {

/// An event announced to the gossip mesh.
#[derive(Clone, Debug, PartialEq, Eq)]
pub enum GossipEvent {
    /// A session was dehydrated (committed to permanent storage).
    SessionDehydrated {
        /// The session's ID.
        session_id: String,
        /// Hex-encoded Merkle root of the committed session.
        merkle_root: String,
        /// Number of vertices committed.
        vertex_count: u64,
    },
    /// Several sessions were dehydrated in one batch.
    BatchDehydrated {
        /// Number of sessions committed.
        session_count: u32,
        /// Session IDs.
        session_ids: Vec<String>,
    },
    /// Vertices were federated from or to a remote gate.
    Federated {
        /// The session receiving the vertices.
        session_id: String,
        /// Number of vertices imported.
        imported_count: u32,
        /// Source gate, if known.
        source_gate: Option<String>,
    },
}

/// Wire-level kind of a gossip event.
pub open spec fn gossip_kind(e: GossipEvent) -> Seq<char> {
    match e {
        GossipEvent::SessionDehydrated { .. } => "session.dehydrated"@,
        GossipEvent::BatchDehydrated { .. } => "batch.dehydrated"@,
        GossipEvent::Federated { .. } => "federated"@,
    }
}

impl GossipEvent {
    /// Wire-level event kind, for logging and routing.
    pub fn kind_str(&self) -> (r: &'static str)
        ensures
            r@ == gossip_kind(*self),
    {
        match self {
            GossipEvent::SessionDehydrated { .. } => "session.dehydrated",
            GossipEvent::BatchDehydrated { .. } => "batch.dehydrated",
            GossipEvent::Federated { .. } => "federated",
        }
    }
}

} // verus!
