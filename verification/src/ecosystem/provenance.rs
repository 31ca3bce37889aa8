//! Provenance provider configuration and client state.

use vstd::prelude::*;
use crate::text::{parse_u64, parse_unsigned};
use std::collections::HashSet;
use vstd::std_specs::hash::obeys_key_model;
use crate::types::{Did, PayloadRef, SessionId, Timestamp, VertexId};
use super::compute::DEFAULT_CAPABILITY_TIMEOUT_MS;

verus! {

/// Default maximum number of results per provenance query.
pub const PROVENANCE_DEFAULT_MAX_RESULTS: usize = 1000;

/// Reference to a vertex for external queries.
#[derive(Clone, Debug)]
pub struct VertexRef {
    /// Session holding the vertex.
    pub session_id: SessionId,
    /// Vertex identifier.
    pub vertex_id: VertexId,
    /// Event type.
    pub event_type: String,
    /// Agent DID, if any.
    pub agent: Option<Did>,
    /// Creation time.
    pub timestamp: Timestamp,
    /// Payload reference, if any.
    pub payload_ref: Option<PayloadRef>,
}

/// Provenance chain: the vertices of a lineage, in causal order, with the agents and
/// data hashes they involve.
#[derive(Debug)]
pub struct ProvenanceChain {
    /// Vertices in causal order.
    pub vertices: Vec<VertexRef>,
    /// Agents involved.
    pub agents: HashSet<Did>,
    /// Data hashes referenced.
    pub data_hashes: HashSet<[u8; 32]>,
}

impl Default for ProvenanceChain {
    /// An empty chain.
    fn default() -> (r: Self)
        ensures
            r.vertices@.len() == 0,
            r.agents@.len() == 0,
            r.data_hashes@.len() == 0,
    {
        ProvenanceChain { vertices: Vec::new(), agents: HashSet::new(), data_hashes: HashSet::new() }
    }
}

impl ProvenanceChain {
    /// An empty chain.
    pub fn new() -> (r: Self)
        ensures
            r.vertices@.len() == 0,
            r.agents@.len() == 0,
            r.data_hashes@.len() == 0,
    {
        Self::default()
    }

    /// Appends a vertex; its agent joins the agents and its payload hash the data hashes
    /// (the set facts are stated under the hash-table key model of the element types).
    pub fn add_vertex(&mut self, vertex: VertexRef)
        ensures
            final(self).vertices@ == old(self).vertices@.push(vertex),
            obeys_key_model::<Did>() ==> final(self).agents@ == match vertex.agent {
                Some(a) => old(self).agents@.insert(a),
                None => old(self).agents@,
            },
            obeys_key_model::<[u8; 32]>() ==> final(self).data_hashes@ == match vertex.payload_ref {
                Some(p) => old(self).data_hashes@.insert(p.hash),
                None => old(self).data_hashes@,
            },
    {
        match &vertex.agent {
            Some(agent) => {
                self.agents.insert(agent.clone());
            },
            None => {},
        }
        match &vertex.payload_ref {
            Some(payload) => {
                self.data_hashes.insert(payload.hash);
            },
            None => {},
        }
        self.vertices.push(vertex);
    }

    /// Number of vertices in the chain.
    pub fn len(&self) -> (r: usize)
        ensures
            r == self.vertices@.len(),
    {
        self.vertices.len()
    }

    /// Whether the chain has no vertices.
    pub fn is_empty(&self) -> (r: bool)
        ensures
            r == (self.vertices@.len() == 0),
    {
        self.vertices.len() == 0
    }
}

/// An agent's contribution to a session.
#[derive(Clone, Debug)]
pub struct AgentContribution {
    /// Agent DID.
    pub agent: Did,
    /// Number of events created.
    pub event_count: u64,
    /// Types of events created.
    pub event_types: Vec<String>,
    /// First event time.
    pub first_event: Timestamp,
    /// Last event time.
    pub last_event: Timestamp,
}

/// Attribution of a session.
#[derive(Clone, Debug)]
pub struct SessionAttribution {
    /// Session identifier.
    pub session_id: SessionId,
    /// Session type.
    pub session_type: String,
    /// Agent contributions.
    pub agents: Vec<AgentContribution>,
    /// Input data hashes.
    pub data_inputs: Vec<[u8; 32]>,
    /// Output data hashes.
    pub data_outputs: Vec<[u8; 32]>,
    /// Merkle root of the session.
    pub merkle_root: [u8; 32],
}

/// Query parameters for vertex searches.
#[derive(Clone, Debug)]
pub struct VertexQuery {
    /// Filter by agent.
    pub agent: Option<Did>,
    /// Filter by event types.
    pub event_types: Option<Vec<String>>,
    /// Filter by session.
    pub session_id: Option<SessionId>,
    /// Time range start.
    pub after: Option<Timestamp>,
    /// Time range end.
    pub before: Option<Timestamp>,
    /// Filter by payload hash.
    pub payload_hash: Option<[u8; 32]>,
    /// Maximum results.
    pub limit: Option<usize>,
}

impl Default for VertexQuery {
    /// A query with no filter.
    fn default() -> (r: Self)
        ensures
            r.agent is None,
            r.event_types is None,
            r.session_id is None,
            r.after is None,
            r.before is None,
            r.payload_hash is None,
            r.limit is None,
    {
        VertexQuery {
            agent: None,
            event_types: None,
            session_id: None,
            after: None,
            before: None,
            payload_hash: None,
            limit: None,
        }
    }
}

impl VertexQuery {
    /// A query with no filter.
    pub fn new() -> (r: Self)
        ensures
            r.agent is None,
            r.event_types is None,
            r.session_id is None,
            r.after is None,
            r.before is None,
            r.payload_hash is None,
            r.limit is None,
    {
        Self::default()
    }

    /// Filters by agent.
    pub fn with_agent(self, agent: Did) -> (r: Self)
        ensures
            r == (VertexQuery { agent: Some(agent), ..self }),
    {
        VertexQuery { agent: Some(agent), ..self }
    }

    /// Filters by event types.
    pub fn with_event_types(self, types: Vec<String>) -> (r: Self)
        ensures
            r == (VertexQuery { event_types: Some(types), ..self }),
    {
        VertexQuery { event_types: Some(types), ..self }
    }

    /// Filters by session.
    pub fn with_session(self, session_id: SessionId) -> (r: Self)
        ensures
            r == (VertexQuery { session_id: Some(session_id), ..self }),
    {
        VertexQuery { session_id: Some(session_id), ..self }
    }

    /// Limits the number of results.
    pub fn with_limit(self, limit: usize) -> (r: Self)
        ensures
            r == (VertexQuery { limit: Some(limit), ..self }),
    {
        VertexQuery { limit: Some(limit), ..self }
    }
}

/// Configuration of the provenance provider interface.
#[derive(Debug, Clone)]
pub struct ProvenanceProviderConfig {
    /// Service address for push notifications.
    pub push_address: Option<String>,
    /// Query timeout in milliseconds.
    pub timeout_ms: u64,
    /// Maximum results per query.
    pub max_results: usize,
    /// Whether query caching is on.
    pub cache_enabled: bool,
    /// Cache time-to-live in seconds.
    pub cache_ttl_secs: u64,
}

impl Default for ProvenanceProviderConfig {
    /// No push address, 5000 ms timeout, 1000 results, caching on for 300 s.
    fn default() -> (r: Self)
        ensures
            r.push_address is None,
            r.timeout_ms == DEFAULT_CAPABILITY_TIMEOUT_MS,
            r.max_results == PROVENANCE_DEFAULT_MAX_RESULTS,
            r.cache_enabled,
            r.cache_ttl_secs == 300,
    {
        ProvenanceProviderConfig {
            push_address: None,
            timeout_ms: DEFAULT_CAPABILITY_TIMEOUT_MS,
            max_results: PROVENANCE_DEFAULT_MAX_RESULTS,
            cache_enabled: true,
            cache_ttl_secs: 300,
        }
    }
}

impl ProvenanceProviderConfig {
    /// The configuration from the environment's values: the provenance endpoint becomes
    /// the push address; `PROVENANCE_TIMEOUT_MS` sets the timeout when it reads as a
    /// `u64`.
    pub fn from_env_values(endpoint: Option<String>, timeout_value: Option<&str>) -> (r: Self)
        ensures
            r.push_address == endpoint,
            r.timeout_ms == match timeout_value {
                Some(t) => match parse_unsigned(t@, u64::MAX as nat) {
                    Some(v) => v as u64,
                    None => DEFAULT_CAPABILITY_TIMEOUT_MS,
                },
                None => DEFAULT_CAPABILITY_TIMEOUT_MS,
            },
            r.max_results == PROVENANCE_DEFAULT_MAX_RESULTS,
            r.cache_enabled,
            r.cache_ttl_secs == 300,
    {
        let mut config = Self::default();
        config.push_address = endpoint;
        match timeout_value {
            Some(t) => match parse_u64(t) {
                Some(ms) => {
                    config.timeout_ms = ms;
                },
                None => {},
            },
            None => {},
        }
        config
    }

    /// The default configuration with a push address.
    pub fn with_push_address(address: &str) -> (r: Self)
        ensures
            r.push_address matches Some(a) && a@ == address@,
            r.timeout_ms == DEFAULT_CAPABILITY_TIMEOUT_MS,
            r.max_results == PROVENANCE_DEFAULT_MAX_RESULTS,
            r.cache_enabled,
            r.cache_ttl_secs == 300,
    {
        ProvenanceProviderConfig { push_address: Some(String::from_str(address)), ..Self::default() }
    }
}

/// Provenance client connection state.
#[derive(Debug, Clone, Copy, PartialEq, Eq, Structural)]
pub enum ClientState {
    /// Not connected.
    Disconnected,
    /// Connected and ready.
    Connected,
}

impl Default for ClientState {
    /// Disconnected.
    fn default() -> (r: Self)
        ensures
            r == ClientState::Disconnected,
    {
        ClientState::Disconnected
    }
}

} // verus!
