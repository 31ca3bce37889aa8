use rhizo_crypt_core::ecosystem::compute::{
    ClientState as ComputeClientState, ComputeProviderConfig, TaskId,
};
use rhizo_crypt_core::ecosystem::event::{EventType, MeshLeaveReason};
use rhizo_crypt_core::ecosystem::gossip::GossipEvent;
use rhizo_crypt_core::ecosystem::mesh::{MeshEventLog, MeshTrustEvent, MeshTrustEventKind};
use rhizo_crypt_core::ecosystem::provenance::{
    AgentContribution, ClientState, ProvenanceChain, ProvenanceProviderConfig, SessionAttribution,
    VertexQuery, VertexRef,
};
use rhizo_crypt_core::types::{Did, PayloadRef, SessionId, Timestamp, VertexId};

#[test]
fn compute_test_config_default() {
    let config = ComputeProviderConfig::default();
    assert!(config.fallback_address.is_none());
    assert_eq!(config.timeout_ms, 5000);
}

#[test]
fn compute_test_config_with_fallback() {
    let config = ComputeProviderConfig::with_fallback("127.0.0.1:9800");
    assert_eq!(config.fallback_address.as_deref(), Some("127.0.0.1:9800"));
}

#[test]
fn compute_test_task_id_display() {
    let id = TaskId::new([
        0xDE, 0xAD, 0xBE, 0xEF, 0, 0, 0, 0, 0, 0, 0, 0, 0, 0, 0, 0, 0, 0, 0, 0, 0, 0, 0, 0, 0,
        0, 0, 0, 0, 0, 0, 0,
    ]);
    assert_eq!(id.to_string(), "deadbeef00000000");
}

#[test]
fn compute_test_task_id_new() {
    let bytes = [1u8; 32];
    let id = TaskId::new(bytes);
    assert_eq!(id.as_bytes(), &bytes);
}

#[test]
fn compute_test_task_id_now() {
    let id1 = TaskId::now();
    let id2 = TaskId::now();
    // UUIDs should be different
    assert_ne!(id1, id2);
}

#[test]
fn compute_test_task_id_default() {
    let id = TaskId::default();
    // Should not be all zeros
    assert_ne!(id.as_bytes(), &[0u8; 32]);
}

#[test]
fn compute_test_task_id_equality() {
    let bytes = [42u8; 32];
    let id1 = TaskId::new(bytes);
    let id2 = TaskId::new(bytes);
    assert_eq!(id1, id2);

    let id3 = TaskId::now();
    assert_ne!(id1, id3);
}

#[test]
fn compute_test_config_with_custom_values() {
    let mut config = ComputeProviderConfig::default();
    config.timeout_ms = 10000;
    config.event_buffer_size = 200;

    assert_eq!(config.timeout_ms, 10000);
    assert_eq!(config.event_buffer_size, 200);
}

#[test]
fn compute_test_client_state_default() {
    let state = ComputeClientState::default();
    assert_eq!(state, ComputeClientState::Disconnected);
}

#[test]
fn compute_test_client_state_transitions() {
    let state1 = ComputeClientState::Disconnected;
    let state2 = ComputeClientState::Connecting;
    let state3 = ComputeClientState::Connected;
    let state4 = ComputeClientState::Error;

    assert_ne!(state1, state2);
    assert_ne!(state2, state3);
    assert_ne!(state3, state4);
}

#[test]
fn types_test_config_default() {
    let config = ComputeProviderConfig::default();
    assert!(config.fallback_address.is_none());
    assert_eq!(config.timeout_ms, 5000);
}

#[test]
fn types_test_config_with_fallback() {
    let config = ComputeProviderConfig::with_fallback("127.0.0.1:9800");
    assert_eq!(config.fallback_address.as_deref(), Some("127.0.0.1:9800"));
}

#[test]
fn types_test_task_id_display() {
    let id = TaskId::new([
        0xDE, 0xAD, 0xBE, 0xEF, 0, 0, 0, 0, 0, 0, 0, 0, 0, 0, 0, 0, 0, 0, 0, 0, 0, 0, 0, 0, 0,
        0, 0, 0, 0, 0, 0, 0,
    ]);
    assert_eq!(id.to_string(), "deadbeef00000000");
}

#[test]
fn types_test_task_id_new() {
    let bytes = [1u8; 32];
    let id = TaskId::new(bytes);
    assert_eq!(id.as_bytes(), &bytes);
}

#[test]
fn types_test_task_id_now() {
    let id1 = TaskId::now();
    let id2 = TaskId::now();
    // UUIDs should be different
    assert_ne!(id1, id2);
}

#[test]
fn types_test_task_id_default() {
    let id = TaskId::default();
    // Should not be all zeros
    assert_ne!(id.as_bytes(), &[0u8; 32]);
}

#[test]
fn types_test_task_id_equality() {
    let bytes = [42u8; 32];
    let id1 = TaskId::new(bytes);
    let id2 = TaskId::new(bytes);
    assert_eq!(id1, id2);

    let id3 = TaskId::now();
    assert_ne!(id1, id3);
}

#[test]
fn types_test_config_with_custom_values() {
    let mut config = ComputeProviderConfig::default();
    config.timeout_ms = 10000;
    config.event_buffer_size = 200;

    assert_eq!(config.timeout_ms, 10000);
    assert_eq!(config.event_buffer_size, 200);
}

#[test]
fn types_test_client_state_default() {
    let state = ComputeClientState::default();
    assert_eq!(state, ComputeClientState::Disconnected);
}

#[test]
fn types_test_client_state_transitions() {
    let state1 = ComputeClientState::Disconnected;
    let state2 = ComputeClientState::Connecting;
    let state3 = ComputeClientState::Connected;
    let state4 = ComputeClientState::Error;

    assert_ne!(state1, state2);
    assert_ne!(state2, state3);
    assert_ne!(state3, state4);
}

#[test]
fn provenance_test_config_default() {
    let config = ProvenanceProviderConfig::default();
    assert!(config.push_address.is_none());
    assert_eq!(config.timeout_ms, 5000);
    assert!(config.cache_enabled);
}

#[test]
fn provenance_test_config_with_push_address() {
    let config = ProvenanceProviderConfig::with_push_address("127.0.0.1:9900");
    assert_eq!(config.push_address.as_deref(), Some("127.0.0.1:9900"));
}

#[test]
fn provenance_test_provenance_chain() {
    let mut chain = ProvenanceChain::new();
    assert!(chain.is_empty());

    chain.add_vertex(VertexRef {
        session_id: SessionId::now(),
        vertex_id: VertexId::from_bytes(b"test-vertex"),
        event_type: "test".to_string(),
        agent: Some(Did::new("did:key:test")),
        timestamp: Timestamp::now(),
        payload_ref: None,
    });

    assert_eq!(chain.len(), 1);
    assert!(chain.agents.contains("did:key:test"));
}

#[test]
fn provenance_test_vertex_query_builder() {
    let query = VertexQuery::new().with_agent(Did::new("did:key:test")).with_limit(100);

    assert!(query.agent.is_some());
    assert_eq!(query.limit, Some(100));
}

#[test]
fn provenance_test_vertex_ref_creation() {
    let session_id = SessionId::now();
    let vertex_id = VertexId::from_bytes(b"test-vertex-123");
    let did = Did::new("did:key:agent1");
    let timestamp = Timestamp::now();
    let payload = PayloadRef::from_bytes(b"payload-data");

    let vertex = VertexRef {
        session_id,
        vertex_id,
        event_type: "test.event".to_string(),
        agent: Some(did.clone()),
        timestamp,
        payload_ref: Some(payload),
    };

    assert_eq!(vertex.session_id, session_id);
    assert_eq!(vertex.vertex_id, vertex_id);
    assert_eq!(vertex.event_type, "test.event");
    assert_eq!(vertex.agent, Some(did));
    assert!(vertex.payload_ref.is_some());
}

#[test]
fn provenance_test_vertex_ref_without_optional_fields() {
    let vertex = VertexRef {
        session_id: SessionId::now(),
        vertex_id: VertexId::from_bytes(b"vertex"),
        event_type: "event".to_string(),
        agent: None,
        timestamp: Timestamp::now(),
        payload_ref: None,
    };

    assert!(vertex.agent.is_none());
    assert!(vertex.payload_ref.is_none());
}

#[test]
fn provenance_test_provenance_chain_new() {
    let chain = ProvenanceChain::new();
    assert!(chain.is_empty());
    assert_eq!(chain.len(), 0);
    assert!(chain.vertices.is_empty());
    assert!(chain.agents.is_empty());
    assert!(chain.data_hashes.is_empty());
}

#[test]
fn provenance_test_provenance_chain_add_vertex_with_agent() {
    let mut chain = ProvenanceChain::new();
    let did = Did::new("did:key:agent1");

    chain.add_vertex(VertexRef {
        session_id: SessionId::now(),
        vertex_id: VertexId::from_bytes(b"v1"),
        event_type: "test".to_string(),
        agent: Some(did),
        timestamp: Timestamp::now(),
        payload_ref: None,
    });

    assert_eq!(chain.len(), 1);
    assert_eq!(chain.agents.len(), 1);
    assert!(chain.agents.contains("did:key:agent1"));
}

#[test]
fn provenance_test_provenance_chain_add_vertex_with_payload() {
    let mut chain = ProvenanceChain::new();
    let payload = PayloadRef::from_bytes(b"test-data");

    chain.add_vertex(VertexRef {
        session_id: SessionId::now(),
        vertex_id: VertexId::from_bytes(b"v1"),
        event_type: "test".to_string(),
        agent: None,
        timestamp: Timestamp::now(),
        payload_ref: Some(payload),
    });

    assert_eq!(chain.len(), 1);
    assert_eq!(chain.data_hashes.len(), 1);
    assert!(chain.data_hashes.contains(&payload.hash));
}

#[test]
fn provenance_test_provenance_chain_multiple_vertices() {
    let mut chain = ProvenanceChain::new();
    let did1 = Did::new("did:key:agent1");
    let did2 = Did::new("did:key:agent2");

    chain.add_vertex(VertexRef {
        session_id: SessionId::now(),
        vertex_id: VertexId::from_bytes(b"v1"),
        event_type: "event1".to_string(),
        agent: Some(did1),
        timestamp: Timestamp::now(),
        payload_ref: None,
    });

    chain.add_vertex(VertexRef {
        session_id: SessionId::now(),
        vertex_id: VertexId::from_bytes(b"v2"),
        event_type: "event2".to_string(),
        agent: Some(did2),
        timestamp: Timestamp::now(),
        payload_ref: None,
    });

    assert_eq!(chain.len(), 2);
    assert_eq!(chain.agents.len(), 2);
    assert!(chain.agents.contains("did:key:agent1"));
    assert!(chain.agents.contains("did:key:agent2"));
}

#[test]
fn provenance_test_provenance_chain_default() {
    let chain = ProvenanceChain::default();
    assert!(chain.is_empty());
}

#[test]
fn provenance_test_agent_contribution_creation() {
    let did = Did::new("did:key:worker");
    let contribution = AgentContribution {
        agent: did.clone(),
        event_count: 42,
        event_types: vec!["task.created".to_string(), "task.completed".to_string()],
        first_event: Timestamp::now(),
        last_event: Timestamp::now(),
    };

    assert_eq!(contribution.agent, did);
    assert_eq!(contribution.event_count, 42);
    assert_eq!(contribution.event_types.len(), 2);
}

#[test]
fn provenance_test_session_attribution_creation() {
    let session_id = SessionId::now();
    let did = Did::new("did:key:agent");

    let attribution = SessionAttribution {
        session_id,
        session_type: "ml-training".to_string(),
        agents: vec![AgentContribution {
            agent: did,
            event_count: 10,
            event_types: vec!["compute".to_string()],
            first_event: Timestamp::now(),
            last_event: Timestamp::now(),
        }],
        data_inputs: vec![[1u8; 32], [2u8; 32]],
        data_outputs: vec![[3u8; 32]],
        merkle_root: [0u8; 32],
    };

    assert_eq!(attribution.session_id, session_id);
    assert_eq!(attribution.agents.len(), 1);
    assert_eq!(attribution.data_inputs.len(), 2);
    assert_eq!(attribution.data_outputs.len(), 1);
}

#[test]
fn provenance_test_vertex_query_new() {
    let query = VertexQuery::new();
    assert!(query.agent.is_none());
    assert!(query.session_id.is_none());
    assert!(query.event_types.is_none());
    assert!(query.after.is_none());
    assert!(query.before.is_none());
    assert!(query.payload_hash.is_none());
    assert!(query.limit.is_none());
}

#[test]
fn provenance_test_vertex_query_with_agent() {
    let did = Did::new("did:key:test");
    let query = VertexQuery::new().with_agent(did.clone());
    assert_eq!(query.agent, Some(did));
}

#[test]
fn provenance_test_vertex_query_with_session() {
    let session_id = SessionId::now();
    let query = VertexQuery::new().with_session(session_id);
    assert_eq!(query.session_id, Some(session_id));
}

#[test]
fn provenance_test_vertex_query_with_event_types() {
    let query = VertexQuery::new()
        .with_event_types(vec!["task.created".to_string(), "task.completed".to_string()]);
    assert_eq!(
        query.event_types,
        Some(vec!["task.created".to_string(), "task.completed".to_string()])
    );
}

#[test]
fn provenance_test_vertex_query_with_limit() {
    let query = VertexQuery::new().with_limit(50);
    assert_eq!(query.limit, Some(50));
}

#[test]
fn provenance_test_vertex_query_with_time_range() {
    let mut query = VertexQuery::new();
    let after_ts = Timestamp::now();
    let before_ts = Timestamp::now();
    query.after = Some(after_ts);
    query.before = Some(before_ts);
    assert_eq!(query.after, Some(after_ts));
    assert_eq!(query.before, Some(before_ts));
}

#[test]
fn provenance_test_vertex_query_chaining() {
    let did = Did::new("did:key:test");
    let session_id = SessionId::now();

    let query = VertexQuery::new()
        .with_agent(did.clone())
        .with_session(session_id)
        .with_event_types(vec!["test.event".to_string()])
        .with_limit(100);

    assert_eq!(query.agent, Some(did));
    assert_eq!(query.session_id, Some(session_id));
    assert_eq!(query.event_types, Some(vec!["test.event".to_string()]));
    assert_eq!(query.limit, Some(100));
}

#[test]
fn provenance_test_config_with_custom_values() {
    let mut config = ProvenanceProviderConfig::default();
    config.timeout_ms = 10000;
    config.cache_ttl_secs = 120;
    config.cache_enabled = false;

    assert_eq!(config.timeout_ms, 10000);
    assert_eq!(config.cache_ttl_secs, 120);
    assert!(!config.cache_enabled);
}

#[test]
fn provenance_test_client_state_default() {
    let state = ClientState::default();
    assert_eq!(state, ClientState::Disconnected);
}

#[test]
fn provenance_test_client_state_connected() {
    let state1 = ClientState::Disconnected;
    let state2 = ClientState::Connected;
    assert_ne!(state1, state2);
}

#[test]
fn tests_test_config_default() {
    let config = ProvenanceProviderConfig::default();
    assert!(config.push_address.is_none());
    assert_eq!(config.timeout_ms, 5000);
    assert!(config.cache_enabled);
}

#[test]
fn tests_test_config_with_push_address() {
    let config = ProvenanceProviderConfig::with_push_address("127.0.0.1:9900");
    assert_eq!(config.push_address.as_deref(), Some("127.0.0.1:9900"));
}

#[test]
fn tests_test_provenance_chain() {
    let mut chain = ProvenanceChain::new();
    assert!(chain.is_empty());

    chain.add_vertex(VertexRef {
        session_id: SessionId::now(),
        vertex_id: VertexId::from_bytes(b"test-vertex"),
        event_type: "test".to_string(),
        agent: Some(Did::new("did:key:test")),
        timestamp: Timestamp::now(),
        payload_ref: None,
    });

    assert_eq!(chain.len(), 1);
    assert!(chain.agents.contains("did:key:test"));
}

#[test]
fn tests_test_vertex_query_builder() {
    let query = VertexQuery::new().with_agent(Did::new("did:key:test")).with_limit(100);

    assert!(query.agent.is_some());
    assert_eq!(query.limit, Some(100));
}

#[test]
fn tests_test_vertex_ref_creation() {
    let session_id = SessionId::now();
    let vertex_id = VertexId::from_bytes(b"test-vertex-123");
    let did = Did::new("did:key:agent1");
    let timestamp = Timestamp::now();
    let payload = PayloadRef::from_bytes(b"payload-data");

    let vertex = VertexRef {
        session_id,
        vertex_id,
        event_type: "test.event".to_string(),
        agent: Some(did.clone()),
        timestamp,
        payload_ref: Some(payload),
    };

    assert_eq!(vertex.session_id, session_id);
    assert_eq!(vertex.vertex_id, vertex_id);
    assert_eq!(vertex.event_type, "test.event");
    assert_eq!(vertex.agent, Some(did));
    assert!(vertex.payload_ref.is_some());
}

#[test]
fn tests_test_vertex_ref_without_optional_fields() {
    let vertex = VertexRef {
        session_id: SessionId::now(),
        vertex_id: VertexId::from_bytes(b"vertex"),
        event_type: "event".to_string(),
        agent: None,
        timestamp: Timestamp::now(),
        payload_ref: None,
    };

    assert!(vertex.agent.is_none());
    assert!(vertex.payload_ref.is_none());
}

#[test]
fn tests_test_provenance_chain_new() {
    let chain = ProvenanceChain::new();
    assert!(chain.is_empty());
    assert_eq!(chain.len(), 0);
    assert!(chain.vertices.is_empty());
    assert!(chain.agents.is_empty());
    assert!(chain.data_hashes.is_empty());
}

#[test]
fn tests_test_provenance_chain_add_vertex_with_agent() {
    let mut chain = ProvenanceChain::new();
    let did = Did::new("did:key:agent1");

    chain.add_vertex(VertexRef {
        session_id: SessionId::now(),
        vertex_id: VertexId::from_bytes(b"v1"),
        event_type: "test".to_string(),
        agent: Some(did),
        timestamp: Timestamp::now(),
        payload_ref: None,
    });

    assert_eq!(chain.len(), 1);
    assert_eq!(chain.agents.len(), 1);
    assert!(chain.agents.contains("did:key:agent1"));
}

#[test]
fn tests_test_provenance_chain_add_vertex_with_payload() {
    let mut chain = ProvenanceChain::new();
    let payload = PayloadRef::from_bytes(b"test-data");

    chain.add_vertex(VertexRef {
        session_id: SessionId::now(),
        vertex_id: VertexId::from_bytes(b"v1"),
        event_type: "test".to_string(),
        agent: None,
        timestamp: Timestamp::now(),
        payload_ref: Some(payload),
    });

    assert_eq!(chain.len(), 1);
    assert_eq!(chain.data_hashes.len(), 1);
    assert!(chain.data_hashes.contains(&payload.hash));
}

#[test]
fn tests_test_provenance_chain_multiple_vertices() {
    let mut chain = ProvenanceChain::new();
    let did1 = Did::new("did:key:agent1");
    let did2 = Did::new("did:key:agent2");

    chain.add_vertex(VertexRef {
        session_id: SessionId::now(),
        vertex_id: VertexId::from_bytes(b"v1"),
        event_type: "event1".to_string(),
        agent: Some(did1),
        timestamp: Timestamp::now(),
        payload_ref: None,
    });

    chain.add_vertex(VertexRef {
        session_id: SessionId::now(),
        vertex_id: VertexId::from_bytes(b"v2"),
        event_type: "event2".to_string(),
        agent: Some(did2),
        timestamp: Timestamp::now(),
        payload_ref: None,
    });

    assert_eq!(chain.len(), 2);
    assert_eq!(chain.agents.len(), 2);
    assert!(chain.agents.contains("did:key:agent1"));
    assert!(chain.agents.contains("did:key:agent2"));
}

#[test]
fn tests_test_provenance_chain_default() {
    let chain = ProvenanceChain::default();
    assert!(chain.is_empty());
}

#[test]
fn tests_test_agent_contribution_creation() {
    let did = Did::new("did:key:worker");
    let contribution = AgentContribution {
        agent: did.clone(),
        event_count: 42,
        event_types: vec!["task.created".to_string(), "task.completed".to_string()],
        first_event: Timestamp::now(),
        last_event: Timestamp::now(),
    };

    assert_eq!(contribution.agent, did);
    assert_eq!(contribution.event_count, 42);
    assert_eq!(contribution.event_types.len(), 2);
}

#[test]
fn tests_test_session_attribution_creation() {
    let session_id = SessionId::now();
    let did = Did::new("did:key:agent");

    let attribution = SessionAttribution {
        session_id,
        session_type: "ml-training".to_string(),
        agents: vec![AgentContribution {
            agent: did,
            event_count: 10,
            event_types: vec!["compute".to_string()],
            first_event: Timestamp::now(),
            last_event: Timestamp::now(),
        }],
        data_inputs: vec![[1u8; 32], [2u8; 32]],
        data_outputs: vec![[3u8; 32]],
        merkle_root: [0u8; 32],
    };

    assert_eq!(attribution.session_id, session_id);
    assert_eq!(attribution.agents.len(), 1);
    assert_eq!(attribution.data_inputs.len(), 2);
    assert_eq!(attribution.data_outputs.len(), 1);
}

#[test]
fn tests_test_vertex_query_new() {
    let query = VertexQuery::new();
    assert!(query.agent.is_none());
    assert!(query.session_id.is_none());
    assert!(query.event_types.is_none());
    assert!(query.after.is_none());
    assert!(query.before.is_none());
    assert!(query.payload_hash.is_none());
    assert!(query.limit.is_none());
}

#[test]
fn tests_test_vertex_query_with_agent() {
    let did = Did::new("did:key:test");
    let query = VertexQuery::new().with_agent(did.clone());
    assert_eq!(query.agent, Some(did));
}

#[test]
fn tests_test_vertex_query_with_session() {
    let session_id = SessionId::now();
    let query = VertexQuery::new().with_session(session_id);
    assert_eq!(query.session_id, Some(session_id));
}

#[test]
fn tests_test_vertex_query_with_event_types() {
    let query = VertexQuery::new()
        .with_event_types(vec!["task.created".to_string(), "task.completed".to_string()]);
    assert_eq!(
        query.event_types,
        Some(vec!["task.created".to_string(), "task.completed".to_string()])
    );
}

#[test]
fn tests_test_vertex_query_with_limit() {
    let query = VertexQuery::new().with_limit(50);
    assert_eq!(query.limit, Some(50));
}

#[test]
fn tests_test_vertex_query_with_time_range() {
    let mut query = VertexQuery::new();
    let after_ts = Timestamp::now();
    let before_ts = Timestamp::now();
    query.after = Some(after_ts);
    query.before = Some(before_ts);
    assert_eq!(query.after, Some(after_ts));
    assert_eq!(query.before, Some(before_ts));
}

#[test]
fn tests_test_vertex_query_chaining() {
    let did = Did::new("did:key:test");
    let session_id = SessionId::now();

    let query = VertexQuery::new()
        .with_agent(did.clone())
        .with_session(session_id)
        .with_event_types(vec!["test.event".to_string()])
        .with_limit(100);

    assert_eq!(query.agent, Some(did));
    assert_eq!(query.session_id, Some(session_id));
    assert_eq!(query.event_types, Some(vec!["test.event".to_string()]));
    assert_eq!(query.limit, Some(100));
}

#[test]
fn tests_test_config_with_custom_values() {
    let mut config = ProvenanceProviderConfig::default();
    config.timeout_ms = 10000;
    config.cache_ttl_secs = 120;
    config.cache_enabled = false;

    assert_eq!(config.timeout_ms, 10000);
    assert_eq!(config.cache_ttl_secs, 120);
    assert!(!config.cache_enabled);
}

#[test]
fn tests_test_client_state_default() {
    let state = ClientState::default();
    assert_eq!(state, ClientState::Disconnected);
}

#[test]
fn tests_test_client_state_connected() {
    let state1 = ClientState::Disconnected;
    let state2 = ClientState::Connected;
    assert_ne!(state1, state2);
}

#[test]
fn test_gossip_event_kind_str() {
    assert_eq!(
        GossipEvent::SessionDehydrated {
            session_id: String::new(),
            merkle_root: String::new(),
            vertex_count: 0,
        }
        .kind_str(),
        "session.dehydrated"
    );
    assert_eq!(
        GossipEvent::BatchDehydrated {
            session_count: 0,
            session_ids: vec![],
        }
        .kind_str(),
        "batch.dehydrated"
    );
    assert_eq!(
        GossipEvent::Federated {
            session_id: String::new(),
            imported_count: 0,
            source_gate: None,
        }
        .kind_str(),
        "federated"
    );
}

#[test]
fn test_trust_issuer_into_event_type() {
    let event = MeshTrustEvent {
        kind: MeshTrustEventKind::TrustIssuerRegistered {
            issuer_fingerprint: "deadbeef".into(),
        },
        source_gate: "southGate".into(),
        timestamp: 0,
    };
    let et = event.into_event_type();
    assert_eq!(
        et,
        EventType::TrustIssuerRegistered {
            issuer_fingerprint: "deadbeef".into(),
            registering_gate: "southGate".into(),
        }
    );
}

#[test]
fn test_key_exchange_into_event_type() {
    let event = MeshTrustEvent {
        kind: MeshTrustEventKind::KeyExchangeCompleted {
            remote_gate: "ironGate".into(),
            method: "ed25519_dh".into(),
        },
        source_gate: "strandGate".into(),
        timestamp: 0,
    };
    let et = event.into_event_type();
    assert_eq!(
        et,
        EventType::KeyExchangeCompleted {
            local_gate: "strandGate".into(),
            remote_gate: "ironGate".into(),
            method: "ed25519_dh".into(),
        }
    );
}

#[test]
fn test_family_enrollment_into_event_type() {
    let event = MeshTrustEvent {
        kind: MeshTrustEventKind::FamilyEnrollment {
            family_id: "ecoPrimal".into(),
            primal_count: 5,
        },
        source_gate: "biomeGate".into(),
        timestamp: 0,
    };
    let et = event.into_event_type();
    assert_eq!(
        et,
        EventType::FamilyEnrollment {
            family_id: "ecoPrimal".into(),
            gate: "biomeGate".into(),
            primal_count: 5,
        }
    );
}

#[test]
fn test_mesh_join_leave_into_event_type() {
    let join = MeshTrustEvent {
        kind: MeshTrustEventKind::MeshJoin {
            mesh_id: "glacial-v1".into(),
        },
        source_gate: "westGate".into(),
        timestamp: 0,
    };
    assert_eq!(
        join.into_event_type(),
        EventType::MeshJoin {
            gate: "westGate".into(),
            mesh_id: "glacial-v1".into(),
        }
    );

    let leave = MeshTrustEvent {
        kind: MeshTrustEventKind::MeshLeave {
            mesh_id: "glacial-v1".into(),
            reason: MeshLeaveReason::TrustRevoked,
        },
        source_gate: "westGate".into(),
        timestamp: 0,
    };
    assert_eq!(
        leave.into_event_type(),
        EventType::MeshLeave {
            gate: "westGate".into(),
            mesh_id: "glacial-v1".into(),
            reason: MeshLeaveReason::TrustRevoked,
        }
    );
}

fn join_event(gate: &str, timestamp: u64) -> MeshTrustEvent {
    MeshTrustEvent {
        kind: MeshTrustEventKind::MeshJoin {
            mesh_id: "mesh-1".into(),
        },
        source_gate: gate.into(),
        timestamp,
    }
}

#[test]
fn mesh_to_event_type_matches_into_event_type() {
    let event = MeshTrustEvent {
        kind: MeshTrustEventKind::MeshLeave {
            mesh_id: "m".into(),
            reason: MeshLeaveReason::Graceful,
        },
        source_gate: "g".into(),
        timestamp: 3,
    };
    assert_eq!(event.to_event_type(), event.clone().into_event_type());
}

#[test]
fn mesh_log_record_and_drain() {
    let mut log = MeshEventLog::new();
    assert_eq!(log.event_count(), 0);
    assert_eq!(log.last_poll_timestamp(), 0);
    let et = log.record_event(MeshTrustEvent {
        kind: MeshTrustEventKind::TrustIssuerRegistered {
            issuer_fingerprint: "abc123".into(),
        },
        source_gate: "eastGate".into(),
        timestamp: 1_717_444_800,
    });
    assert_eq!(
        et,
        EventType::TrustIssuerRegistered {
            issuer_fingerprint: "abc123".into(),
            registering_gate: "eastGate".into(),
        }
    );
    assert_eq!(log.event_count(), 1);
    // recording does not move the poll watermark
    assert_eq!(log.last_poll_timestamp(), 0);
    log.record_event(join_event("g2", 1));
    let drained = log.drain_events();
    assert_eq!(drained.len(), 2);
    assert_eq!(log.event_count(), 0);
}

#[test]
fn mesh_log_poll_moves_watermark_to_latest() {
    let mut log = MeshEventLog::new();
    assert_eq!(log.record_polled(vec![join_event("a", 5), join_event("b", 42), join_event("c", 7)]), 3);
    assert_eq!(log.last_poll_timestamp(), 42);
    assert_eq!(log.record_polled(vec![join_event("d", 10)]), 1);
    assert_eq!(log.last_poll_timestamp(), 42);
    assert_eq!(log.record_polled(vec![]), 0);
    assert_eq!(log.last_poll_timestamp(), 42);
    assert_eq!(log.event_count(), 4);
}

#[test]
fn compute_config_from_env_values() {
    let config = ComputeProviderConfig::from_env_values(Some("10.0.0.1:9800".to_string()), Some("250"));
    assert_eq!(config.fallback_address.as_deref(), Some("10.0.0.1:9800"));
    assert_eq!(config.timeout_ms, 250);
    let config = ComputeProviderConfig::from_env_values(None, Some("soon"));
    assert!(config.fallback_address.is_none());
    assert_eq!(config.timeout_ms, 5000);
    assert_eq!(config.event_buffer_size, 1000);
    assert_eq!(config.max_retries, 3);
}

#[test]
fn compute_task_id_now_shape() {
    let id = TaskId::now();
    assert_eq!(id.as_bytes()[6] >> 4, 7);
    assert_eq!(id.as_bytes()[8] >> 6, 2);
    assert_eq!(&id.as_bytes()[16..], &[0u8; 16]);
}

#[test]
fn provenance_config_from_env_values() {
    let config = ProvenanceProviderConfig::from_env_values(None, Some("+7000"));
    assert_eq!(config.timeout_ms, 7000);
    assert_eq!(config.max_results, 1000);
    assert_eq!(config.cache_ttl_secs, 300);
    let config = ProvenanceProviderConfig::from_env_values(Some("x".to_string()), Some("-1"));
    assert_eq!(config.push_address.as_deref(), Some("x"));
    assert_eq!(config.timeout_ms, 5000);
}

#[test]
fn provenance_chain_same_agent_counted_once() {
    let mut chain = ProvenanceChain::new();
    for i in 0..3u8 {
        chain.add_vertex(VertexRef {
            session_id: SessionId::now(),
            vertex_id: VertexId::new([i; 32]),
            event_type: "e".to_string(),
            agent: Some(Did::new("did:key:same")),
            timestamp: Timestamp::from_nanos(u64::from(i)),
            payload_ref: Some(PayloadRef::new([9; 32], 1)),
        });
    }
    assert_eq!(chain.len(), 3);
    assert_eq!(chain.agents.len(), 1);
    assert_eq!(chain.data_hashes.len(), 1);
    assert_eq!(chain.vertices[2].vertex_id, VertexId::new([2; 32]));
}
