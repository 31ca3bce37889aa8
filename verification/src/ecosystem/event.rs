//! The DAG event types that cross-gate mesh trust events are recorded as.

use vstd::prelude::*;

verus! {

/// Why a gate left the mesh.
#[derive(Debug, PartialEq, Eq, Structural)]
pub enum MeshLeaveReason {
    /// Left of its own accord.
    Graceful,
    /// Its trust was revoked.
    TrustRevoked,
}

impl Clone for MeshLeaveReason {
    fn clone(&self) -> (r: Self)
        ensures
            r == *self,
    {
        match self {
            MeshLeaveReason::Graceful => MeshLeaveReason::Graceful,
            MeshLeaveReason::TrustRevoked => MeshLeaveReason::TrustRevoked,
        }
    }
}

/// DAG event types of cross-gate mesh trust.
#[derive(Clone, Debug, PartialEq, Eq)]
pub enum EventType {
    /// A trusted issuer was registered.
    TrustIssuerRegistered {
        /// Public key fingerprint of the issuer.
        issuer_fingerprint: String,
        /// Gate that registered it.
        registering_gate: String,
    },
    /// A key exchange between gates completed.
    KeyExchangeCompleted {
        /// Local gate.
        local_gate: String,
        /// Remote gate.
        remote_gate: String,
        /// Key exchange method.
        method: String,
    },
    /// A primal family enrolled in the mesh.
    FamilyEnrollment {
        /// Family identifier.
        family_id: String,
        /// Gate of the family.
        gate: String,
        /// Number of primals at enrollment.
        primal_count: u32,
    },
    /// A gate joined the mesh.
    MeshJoin {
        /// Joining gate.
        gate: String,
        /// Mesh network identifier.
        mesh_id: String,
    },
    /// A gate left the mesh.
    MeshLeave {
        /// Leaving gate.
        gate: String,
        /// Mesh network identifier.
        mesh_id: String,
        /// Reason for leaving.
        reason: MeshLeaveReason,
    },
}

} // verus!
