use std::time::Duration;

use rhizo_crypt_core::slice::{
    ConditionalRouteEntry, LoanTerms, ResolutionCondition, ResolutionOutcome, ResolutionRoute,
    SliceBuilder, SliceConstraints, SliceMode, SliceOrigin, SliceState,
};
use rhizo_crypt_core::types::{Did, SessionId, Timestamp, VertexId};

fn make_origin() -> SliceOrigin {
    SliceOrigin {
        spine_id: "spine-123".to_string(),
        entry_hash: [1u8; 32],
        entry_index: 42,
        certificate_id: None,
        owner: Did::new("did:key:owner"),
    }
}

#[test]
fn slice_test_slice_builder() {
    let origin = make_origin();
    let holder = Did::new("did:key:holder");
    let session_id = SessionId::now();
    let checkout_vertex = VertexId::from_bytes(b"checkout");

    let slice = SliceBuilder::new(
        origin,
        holder.clone(),
        SliceMode::Loan {
            terms: LoanTerms::default(),
            allow_subloan: false,
        },
        session_id,
        checkout_vertex,
    )
    .with_resolution_route(ResolutionRoute::ReturnToOrigin)
    .build();

    assert!(slice.is_active());
    assert!(!slice.is_resolved());
    assert!(!slice.is_expired());
    assert_eq!(slice.holder, holder);
    assert_eq!(slice.origin.spine_id, "spine-123");
}

#[test]
fn slice_test_slice_mode_lineage() {
    assert!(
        !SliceMode::Copy {
            allow_recopy: false
        }
        .can_lineage_back()
    );
    assert!(
        SliceMode::Loan {
            terms: LoanTerms::default(),
            allow_subloan: false
        }
        .can_lineage_back()
    );
    assert!(
        SliceMode::Transfer {
            new_owner: Did::new("did:key:new")
        }
        .can_lineage_back()
    );
}

#[test]
fn slice_test_slice_mode_names() {
    assert_eq!(
        SliceMode::Copy {
            allow_recopy: true
        }
        .name(),
        "copy"
    );
    assert_eq!(
        SliceMode::Escrow {
            parties: vec![],
            required_confirmations: 2,
            confirmations: vec![]
        }
        .name(),
        "escrow"
    );
}

#[test]
fn slice_test_resolution_route() {
    let route = ResolutionRoute::Conditional {
        conditions: vec![ConditionalRouteEntry {
            condition: ResolutionCondition::SessionSuccess,
            route: ResolutionRoute::CommitToOrigin {
                include_summary: true,
            },
        }],
        default: Box::new(ResolutionRoute::ReturnToOrigin),
    };

    if let ResolutionRoute::Conditional {
        conditions,
        ..
    } = &route
    {
        assert_eq!(conditions.len(), 1);
    } else {
        panic!("Expected Conditional route");
    }
}

#[test]
fn slice_test_loan_terms_default() {
    let terms = LoanTerms::default();
    assert!(terms.auto_return);
    assert!(terms.max_duration.is_some());
    assert!(terms.grace_period.is_some());
}

#[test]
fn slice_test_slice_constraints_default() {
    let constraints = SliceConstraints::default();
    assert!(!constraints.allow_reslice);
    assert!(constraints.forbidden_operations.is_empty());
}

#[test]
fn slice_test_slice_state_transitions() {
    let origin = make_origin();
    let holder = Did::new("did:key:holder");
    let session_id = SessionId::now();
    let checkout_vertex = VertexId::from_bytes(b"checkout");

    let mut slice = SliceBuilder::new(
        origin,
        holder,
        SliceMode::Transfer {
            new_owner: Did::new("did:key:new"),
        },
        session_id,
        checkout_vertex,
    )
    .build();

    assert!(slice.is_active());
    assert!(!slice.is_resolved());

    slice.state = SliceState::Resolving {
        started_at: Timestamp::now(),
    };
    assert!(!slice.is_active());
    assert!(!slice.is_resolved());

    slice.state = SliceState::Resolved {
        outcome: ResolutionOutcome::ReturnedUnchanged,
        resolved_at: Timestamp::now(),
    };
    assert!(!slice.is_active());
    assert!(slice.is_resolved());
}

#[test]
fn slice_test_slice_is_active() {
    let origin = make_origin();
    let holder = Did::new("did:key:holder");
    let session_id = SessionId::now();
    let checkout_vertex = VertexId::from_bytes(b"checkout");

    let slice = SliceBuilder::new(
        origin,
        holder,
        SliceMode::Copy {
            allow_recopy: false,
        },
        session_id,
        checkout_vertex,
    )
    .build();

    assert!(slice.is_active());
    assert!(!slice.is_resolved());
}

#[test]
fn slice_test_slice_with_duration() {
    let origin = make_origin();
    let holder = Did::new("did:key:holder");
    let session_id = SessionId::now();
    let checkout_vertex = VertexId::from_bytes(b"checkout");

    let slice = SliceBuilder::new(
        origin,
        holder,
        SliceMode::Loan {
            terms: LoanTerms::default(),
            allow_subloan: false,
        },
        session_id,
        checkout_vertex,
    )
    .expires_in(Duration::from_secs(3600))
    .build();

    assert!(slice.expires_at.is_some());
}

#[test]
fn slice_test_resolution_outcome_variants() {
    let returned = ResolutionOutcome::ReturnedUnchanged;
    assert_eq!(returned, ResolutionOutcome::ReturnedUnchanged);

    let committed = ResolutionOutcome::Committed {
        new_entry: [2u8; 32],
    };
    assert!(matches!(committed, ResolutionOutcome::Committed { .. }));

    let transferred = ResolutionOutcome::Transferred {
        new_spine: "spine-new".to_string(),
        new_entry: [3u8; 32],
        new_owner: Did::new("did:key:buyer"),
    };
    assert!(matches!(transferred, ResolutionOutcome::Transferred { .. }));

    let anchored = ResolutionOutcome::Anchored {
        waypoint_spine: "waypoint".to_string(),
        waypoint_entry: [4u8; 32],
    };
    assert!(matches!(anchored, ResolutionOutcome::Anchored { .. }));

    let consumed = ResolutionOutcome::Consumed;
    assert_eq!(consumed, ResolutionOutcome::Consumed);
}

#[test]
fn slice_test_slice_constraints_custom() {
    let constraints = SliceConstraints {
        max_duration: Some(Duration::from_secs(86400)),
        allow_reslice: true,
        max_reslice_depth: Some(5),
        forbidden_operations: vec!["delete".to_string(), "transfer".to_string()],
    };
    assert_eq!(constraints.max_duration, Some(Duration::from_secs(86400)));
    assert!(constraints.allow_reslice);
    assert_eq!(constraints.max_reslice_depth, Some(5));
    assert_eq!(constraints.forbidden_operations.len(), 2);
}

#[test]
fn slice_tests_test_slice_builder() {
    let origin = make_origin();
    let holder = Did::new("did:key:holder");
    let session_id = SessionId::now();
    let checkout_vertex = VertexId::from_bytes(b"checkout");

    let slice = SliceBuilder::new(
        origin,
        holder.clone(),
        SliceMode::Loan {
            terms: LoanTerms::default(),
            allow_subloan: false,
        },
        session_id,
        checkout_vertex,
    )
    .with_resolution_route(ResolutionRoute::ReturnToOrigin)
    .build();

    assert!(slice.is_active());
    assert!(!slice.is_resolved());
    assert!(!slice.is_expired());
    assert_eq!(slice.holder, holder);
    assert_eq!(slice.origin.spine_id, "spine-123");
}

#[test]
fn slice_tests_test_slice_mode_lineage() {
    assert!(
        !SliceMode::Copy {
            allow_recopy: false
        }
        .can_lineage_back()
    );
    assert!(
        SliceMode::Loan {
            terms: LoanTerms::default(),
            allow_subloan: false
        }
        .can_lineage_back()
    );
    assert!(
        SliceMode::Transfer {
            new_owner: Did::new("did:key:new")
        }
        .can_lineage_back()
    );
}

#[test]
fn slice_tests_test_slice_mode_names() {
    assert_eq!(
        SliceMode::Copy {
            allow_recopy: true
        }
        .name(),
        "copy"
    );
    assert_eq!(
        SliceMode::Escrow {
            parties: vec![],
            required_confirmations: 2,
            confirmations: vec![]
        }
        .name(),
        "escrow"
    );
}

#[test]
fn slice_tests_test_resolution_route() {
    let route = ResolutionRoute::Conditional {
        conditions: vec![ConditionalRouteEntry {
            condition: ResolutionCondition::SessionSuccess,
            route: ResolutionRoute::CommitToOrigin {
                include_summary: true,
            },
        }],
        default: Box::new(ResolutionRoute::ReturnToOrigin),
    };

    if let ResolutionRoute::Conditional {
        conditions,
        ..
    } = &route
    {
        assert_eq!(conditions.len(), 1);
    } else {
        panic!("Expected Conditional route");
    }
}

#[test]
fn slice_tests_test_loan_terms_default() {
    let terms = LoanTerms::default();
    assert!(terms.auto_return);
    assert!(terms.max_duration.is_some());
    assert!(terms.grace_period.is_some());
}

#[test]
fn slice_tests_test_slice_constraints_default() {
    let constraints = SliceConstraints::default();
    assert!(!constraints.allow_reslice);
    assert!(constraints.forbidden_operations.is_empty());
}

#[test]
fn slice_tests_test_slice_state_transitions() {
    let origin = make_origin();
    let holder = Did::new("did:key:holder");
    let session_id = SessionId::now();
    let checkout_vertex = VertexId::from_bytes(b"checkout");

    let mut slice = SliceBuilder::new(
        origin,
        holder,
        SliceMode::Transfer {
            new_owner: Did::new("did:key:new"),
        },
        session_id,
        checkout_vertex,
    )
    .build();

    assert!(slice.is_active());
    assert!(!slice.is_resolved());

    slice.state = SliceState::Resolving {
        started_at: Timestamp::now(),
    };
    assert!(!slice.is_active());
    assert!(!slice.is_resolved());

    slice.state = SliceState::Resolved {
        outcome: ResolutionOutcome::ReturnedUnchanged,
        resolved_at: Timestamp::now(),
    };
    assert!(!slice.is_active());
    assert!(slice.is_resolved());
}

#[test]
fn slice_tests_test_slice_is_active() {
    let origin = make_origin();
    let holder = Did::new("did:key:holder");
    let session_id = SessionId::now();
    let checkout_vertex = VertexId::from_bytes(b"checkout");

    let slice = SliceBuilder::new(
        origin,
        holder,
        SliceMode::Copy {
            allow_recopy: false,
        },
        session_id,
        checkout_vertex,
    )
    .build();

    assert!(slice.is_active());
    assert!(!slice.is_resolved());
}

#[test]
fn slice_tests_test_slice_with_duration() {
    let origin = make_origin();
    let holder = Did::new("did:key:holder");
    let session_id = SessionId::now();
    let checkout_vertex = VertexId::from_bytes(b"checkout");

    let slice = SliceBuilder::new(
        origin,
        holder,
        SliceMode::Loan {
            terms: LoanTerms::default(),
            allow_subloan: false,
        },
        session_id,
        checkout_vertex,
    )
    .expires_in(Duration::from_secs(3600))
    .build();

    assert!(slice.expires_at.is_some());
}

#[test]
fn slice_tests_test_resolution_outcome_variants() {
    let returned = ResolutionOutcome::ReturnedUnchanged;
    assert_eq!(returned, ResolutionOutcome::ReturnedUnchanged);

    let committed = ResolutionOutcome::Committed {
        new_entry: [2u8; 32],
    };
    assert!(matches!(committed, ResolutionOutcome::Committed { .. }));

    let transferred = ResolutionOutcome::Transferred {
        new_spine: "spine-new".to_string(),
        new_entry: [3u8; 32],
        new_owner: Did::new("did:key:buyer"),
    };
    assert!(matches!(transferred, ResolutionOutcome::Transferred { .. }));

    let anchored = ResolutionOutcome::Anchored {
        waypoint_spine: "waypoint".to_string(),
        waypoint_entry: [4u8; 32],
    };
    assert!(matches!(anchored, ResolutionOutcome::Anchored { .. }));

    let consumed = ResolutionOutcome::Consumed;
    assert_eq!(consumed, ResolutionOutcome::Consumed);
}

#[test]
fn slice_tests_test_slice_constraints_custom() {
    let constraints = SliceConstraints {
        max_duration: Some(Duration::from_secs(86400)),
        allow_reslice: true,
        max_reslice_depth: Some(5),
        forbidden_operations: vec!["delete".to_string(), "transfer".to_string()],
    };
    assert_eq!(constraints.max_duration, Some(Duration::from_secs(86400)));
    assert!(constraints.allow_reslice);
    assert_eq!(constraints.max_reslice_depth, Some(5));
    assert_eq!(constraints.forbidden_operations.len(), 2);
}
