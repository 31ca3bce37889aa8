//! Slices: permanent storage state checked out into a DAG session, with the rules for
//! how each slice resolves back to permanence.

use vstd::prelude::*;
use std::time::Duration;
use crate::outside::{duration_as_nanos, duration_from_secs, duration_total_nanos};
use crate::types::{
    ContentHash, Did, SessionId, SliceId, Timestamp, VertexId, is_uuid_v7, saturate_u64, timestamp_of,
    saturating_u128_to_u64,
};

verus! {

/// Default session timeout, in seconds.
pub const DEFAULT_SESSION_TIMEOUT_SECS: u64 = 3600;

/// Default grace period after a loan expires, in seconds.
pub const DEFAULT_LOAN_GRACE_SECS: u64 = 300;

/// A slice of permanent storage state checked out into a session.
#[derive(Clone, Debug)]
pub struct Slice {
    /// Unique slice identifier.
    pub id: SliceId,
    /// Origin in permanent storage.
    pub origin: SliceOrigin,
    /// Current holder.
    pub holder: Did,
    /// Original owner (always the origin owner).
    pub owner: Did,
    /// Slice mode.
    pub mode: SliceMode,
    /// Resolution routing.
    pub resolution_route: ResolutionRoute,
    /// When the slice was checked out.
    pub checked_out_at: Timestamp,
    /// When the slice expires, if it does.
    pub expires_at: Option<Timestamp>,
    /// Slice constraints.
    pub constraints: SliceConstraints,
    /// Current lifecycle state.
    pub state: SliceState,
    /// Session the slice is active in.
    pub session_id: SessionId,
    /// Vertex that checked out the slice.
    pub checkout_vertex: VertexId,
}

/// A slice with expiry `expires_at` has expired at time `now`: it has an expiry and
/// `now` is past it.
pub open spec fn expired_at(expires_at: Option<Timestamp>, now: Timestamp) -> bool {
    match expires_at {
        Some(t) => now.0 > t.0,
        None => false,
    }
}

impl Slice {
    /// Whether the slice has expired at time `now`: it has an expiry and `now` is past it.
    pub fn is_expired_at(&self, now: Timestamp) -> (r: bool)
        ensures
            r == expired_at(self.expires_at, now),
    {
        match self.expires_at {
            Some(t) => now.0 > t.0,
            None => false,
        }
    }

    /// Whether the slice has expired now: the answer of `is_expired_at` for the time the
    /// clock reads. A slice without expiry never expires.
    pub fn is_expired(&self) -> (r: bool)
        ensures
            exists|t: std::time::SystemTime| r == expired_at(self.expires_at, #[trigger] timestamp_of(t)),
            self.expires_at is None ==> !r,
    {
        let now = Timestamp::now();
        let ghost t = choose|t: std::time::SystemTime| now == timestamp_of(t);
        let r = self.is_expired_at(now);
        assert(r == expired_at(self.expires_at, timestamp_of(t)));
        r
    }

    /// Whether the slice is active.
    pub fn is_active(&self) -> (r: bool)
        ensures
            r == (self.state is Active),
    {
        match self.state {
            SliceState::Active => true,
            _ => false,
        }
    }

    /// Whether the slice is resolved.
    pub fn is_resolved(&self) -> (r: bool)
        ensures
            r == (self.state is Resolved),
    {
        match self.state {
            SliceState::Resolved { .. } => true,
            _ => false,
        }
    }

    /// Whether the slice may be re-sliced.
    pub fn can_reslice(&self) -> (r: bool)
        ensures
            r == self.constraints.allow_reslice,
    {
        self.constraints.allow_reslice
    }
}

/// Origin of a slice in permanent storage.
#[derive(Clone, Debug, PartialEq, Eq)]
pub struct SliceOrigin {
    /// Source spine identifier.
    pub spine_id: String,
    /// Entry hash in the spine.
    pub entry_hash: ContentHash,
    /// Entry index in the spine.
    pub entry_index: u64,
    /// Certificate ID, if the slice is of a certificate.
    pub certificate_id: Option<String>,
    /// Owner of the entry.
    pub owner: Did,
}

/// Slice mode: behaviour and resolution semantics.
#[derive(Clone, Debug, PartialEq, Eq)]
pub enum SliceMode {
    /// Local use only; cannot lineage back.
    Copy {
        /// Whether the copy can be copied further.
        allow_recopy: bool,
    },
    /// Use rights for the borrower; returns on expiry or condition.
    Loan {
        /// Loan terms.
        terms: LoanTerms,
        /// Whether the borrower may sub-loan.
        allow_subloan: bool,
    },
    /// Temporary possession; ownership never transfers.
    Consignment {
        /// The consignee (temporary holder).
        consignee: Did,
        /// Conditions that trigger resolution.
        resolution_triggers: Vec<ResolutionTrigger>,
    },
    /// Held pending multi-party agreement.
    Escrow {
        /// Parties involved.
        parties: Vec<Did>,
        /// Confirmations required for release.
        required_confirmations: u32,
        /// Confirmations so far.
        confirmations: Vec<Did>,
    },
    /// Anchors to the holder's local spine, then returns.
    Waypoint {
        /// The waypoint spine.
        waypoint_spine: String,
    },
    /// Full ownership transfer on resolution.
    Transfer {
        /// New owner on resolution.
        new_owner: Did,
    },
}

/// The descriptive name of a mode.
pub open spec fn mode_name(m: SliceMode) -> Seq<char> {
    match m {
        SliceMode::Copy { .. } => "copy"@,
        SliceMode::Loan { .. } => "loan"@,
        SliceMode::Consignment { .. } => "consignment"@,
        SliceMode::Escrow { .. } => "escrow"@,
        SliceMode::Waypoint { .. } => "waypoint"@,
        SliceMode::Transfer { .. } => "transfer"@,
    }
}

impl SliceMode {
    /// Whether the slice can lineage back to its origin: every mode but copy.
    pub fn can_lineage_back(&self) -> (r: bool)
        ensures
            r == !(*self is Copy),
    {
        match self {
            SliceMode::Copy { .. } => false,
            _ => true,
        }
    }

    /// A descriptive name for the mode.
    pub fn name(&self) -> (r: &'static str)
        ensures
            r@ == mode_name(*self),
    {
        match self {
            SliceMode::Copy { .. } => "copy",
            SliceMode::Loan { .. } => "loan",
            SliceMode::Consignment { .. } => "consignment",
            SliceMode::Escrow { .. } => "escrow",
            SliceMode::Waypoint { .. } => "waypoint",
            SliceMode::Transfer { .. } => "transfer",
        }
    }
}

/// Loan terms.
#[derive(Clone, Debug, PartialEq, Eq)]
pub struct LoanTerms {
    /// Maximum loan duration.
    pub max_duration: Option<Duration>,
    /// Grace period after expiry before auto-return.
    pub grace_period: Option<Duration>,
    /// Whether to return automatically on expiry.
    pub auto_return: bool,
}

impl Default for LoanTerms {
    /// The session timeout as maximum duration, the default grace period, and
    /// automatic return.
    fn default() -> (r: Self)
        ensures
            r.max_duration matches Some(d) && duration_total_nanos(d)
                == DEFAULT_SESSION_TIMEOUT_SECS * 1_000_000_000,
            r.grace_period matches Some(d) && duration_total_nanos(d) == DEFAULT_LOAN_GRACE_SECS
                * 1_000_000_000,
            r.auto_return,
    {
        LoanTerms {
            max_duration: Some(duration_from_secs(DEFAULT_SESSION_TIMEOUT_SECS)),
            grace_period: Some(duration_from_secs(DEFAULT_LOAN_GRACE_SECS)),
            auto_return: true,
        }
    }
}

/// Where a slice goes on resolution.
#[derive(Debug, PartialEq, Eq)]
pub enum ResolutionRoute {
    /// Return to the origin spine unchanged.
    ReturnToOrigin,
    /// Commit new state to the origin spine.
    CommitToOrigin {
        /// Include a summary in the commit.
        include_summary: bool,
    },
    /// Route to another spine (transfers).
    RouteToSpine {
        /// Target spine.
        target_spine: String,
    },
    /// Route through a waypoint, then back to the origin.
    WaypointReturn {
        /// Waypoint spine.
        waypoint_spine: String,
    },
    /// Route by resolution outcome.
    Conditional {
        /// Conditions and their routes.
        conditions: Vec<ConditionalRouteEntry>,
        /// Route when no condition matches.
        default: Box<ResolutionRoute>,
    },
}

/// A conditional route entry.
#[derive(Debug, PartialEq, Eq)]
pub struct ConditionalRouteEntry {
    /// Condition to evaluate.
    pub condition: ResolutionCondition,
    /// Route to take when the condition holds.
    pub route: ResolutionRoute,
}

/// Conditions for conditional routing.
#[derive(Debug, PartialEq, Eq)]
pub enum ResolutionCondition {
    /// The session resolved with success.
    SessionSuccess,
    /// The session resolved with rollback.
    SessionRollback,
    /// The session timed out.
    SessionTimeout,
    /// A specific event occurred in the DAG.
    EventOccurred {
        /// Event type to match.
        event_type: String,
    },
    /// An external trigger was received.
    ExternalTrigger {
        /// Trigger identifier.
        trigger_id: String,
    },
    /// All parties confirmed (escrow).
    AllPartiesConfirmed,
    /// The loan expired.
    LoanExpired,
    /// The owner recalled the slice.
    OwnerRecall,
}

impl Clone for ResolutionCondition {
    fn clone(&self) -> (r: Self)
        ensures
            r == *self,
    {
        match self {
            ResolutionCondition::SessionSuccess => ResolutionCondition::SessionSuccess,
            ResolutionCondition::SessionRollback => ResolutionCondition::SessionRollback,
            ResolutionCondition::SessionTimeout => ResolutionCondition::SessionTimeout,
            ResolutionCondition::EventOccurred { event_type } => ResolutionCondition::EventOccurred {
                event_type: event_type.clone(),
            },
            ResolutionCondition::ExternalTrigger { trigger_id } => ResolutionCondition::ExternalTrigger {
                trigger_id: trigger_id.clone(),
            },
            ResolutionCondition::AllPartiesConfirmed => ResolutionCondition::AllPartiesConfirmed,
            ResolutionCondition::LoanExpired => ResolutionCondition::LoanExpired,
            ResolutionCondition::OwnerRecall => ResolutionCondition::OwnerRecall,
        }
    }
}

/// `a` and `b` are the same route: the same variant with the same fields, a conditional
/// route having the same conditions, each with the same route, and the same default.
pub open spec fn same_route(a: ResolutionRoute, b: ResolutionRoute) -> bool
    decreases a,
{
    match a {
        ResolutionRoute::Conditional { conditions, default } => {
            &&& b is Conditional
            &&& conditions@.len() == b->conditions@.len()
            &&& forall|i: int|
                0 <= i < conditions@.len() ==> {
                    &&& #[trigger] conditions@[i].condition == b->conditions@[i].condition
                    &&& same_route(conditions@[i].route, b->conditions@[i].route)
                }
            &&& same_route(*default, *b->default)
        },
        _ => a == b,
    }
}

/// A copy of a resolution route.
fn clone_route(route: &ResolutionRoute) -> (r: ResolutionRoute)
    ensures
        same_route(r, *route),
    decreases route,
{
    match route {
        ResolutionRoute::ReturnToOrigin => ResolutionRoute::ReturnToOrigin,
        ResolutionRoute::CommitToOrigin { include_summary } => ResolutionRoute::CommitToOrigin {
            include_summary: *include_summary,
        },
        ResolutionRoute::RouteToSpine { target_spine } => ResolutionRoute::RouteToSpine {
            target_spine: target_spine.clone(),
        },
        ResolutionRoute::WaypointReturn { waypoint_spine } => ResolutionRoute::WaypointReturn {
            waypoint_spine: waypoint_spine.clone(),
        },
        ResolutionRoute::Conditional { conditions, default } => {
            let mut copied: Vec<ConditionalRouteEntry> = Vec::new();
            let mut i: usize = 0;
            while i < conditions.len()
                invariant
                    i <= conditions@.len(),
                    copied@.len() == i,
                    route is Conditional,
                    route->conditions == *conditions,
                    forall|j: int|
                        0 <= j < i ==> {
                            &&& #[trigger] copied@[j].condition == conditions@[j].condition
                            &&& same_route(copied@[j].route, conditions@[j].route)
                        },
                decreases conditions@.len() - i,
            {
                proof {
                    let ghost entry = conditions@[i as int];
                    assert(decreases_to!(*route => route->conditions));
                    assert(decreases_to!(route->conditions => route->conditions@));
                    assert(decreases_to!(conditions@ => entry));
                    assert(decreases_to!(entry => entry.route));
                }
                let entry = ConditionalRouteEntry {
                    condition: conditions[i].condition.clone(),
                    route: clone_route(&conditions[i].route),
                };
                copied.push(entry);
                i = i + 1;
            }
            let d = clone_route(default);
            ResolutionRoute::Conditional { conditions: copied, default: Box::new(d) }
        },
    }
}

impl Clone for ResolutionRoute {
    fn clone(&self) -> (r: Self) {
        clone_route(self)
    }
}

impl Clone for ConditionalRouteEntry {
    fn clone(&self) -> (r: Self) {
        ConditionalRouteEntry { condition: self.condition.clone(), route: clone_route(&self.route) }
    }
}

/// Trigger for resolution.
#[derive(Clone, Debug, PartialEq, Eq)]
pub enum ResolutionTrigger {
    /// A specific event type occurred.
    EventType(String),
    /// A timeout elapsed.
    Timeout(Duration),
    /// An external trigger.
    External(String),
}

/// Constraints on slice operations.
#[derive(Clone, Debug)]
pub struct SliceConstraints {
    /// Maximum duration the slice can exist.
    pub max_duration: Option<Duration>,
    /// Whether the slice can be re-sliced (sub-lending).
    pub allow_reslice: bool,
    /// Maximum depth of re-slicing.
    pub max_reslice_depth: Option<u32>,
    /// Forbidden operations.
    pub forbidden_operations: Vec<String>,
}

impl Default for SliceConstraints {
    /// No limits, no re-slicing, nothing forbidden.
    fn default() -> (r: Self)
        ensures
            r.max_duration is None,
            !r.allow_reslice,
            r.max_reslice_depth is None,
            r.forbidden_operations@.len() == 0,
    {
        SliceConstraints {
            max_duration: None,
            allow_reslice: false,
            max_reslice_depth: None,
            forbidden_operations: Vec::new(),
        }
    }
}

/// Slice lifecycle state.
#[derive(Clone, Debug, PartialEq, Eq)]
pub enum SliceState {
    /// Active in a session.
    Active,
    /// Anchored at a waypoint.
    Anchored {
        /// Waypoint spine.
        waypoint_spine: String,
        /// Anchor entry hash.
        anchor_entry: ContentHash,
    },
    /// Resolving.
    Resolving {
        /// When resolution started.
        started_at: Timestamp,
    },
    /// Resolved.
    Resolved {
        /// Resolution outcome.
        outcome: ResolutionOutcome,
        /// When resolved.
        resolved_at: Timestamp,
    },
}

/// Outcome of slice resolution.
#[derive(Clone, Debug, PartialEq, Eq)]
pub enum ResolutionOutcome {
    /// Returned to the origin unchanged.
    ReturnedUnchanged,
    /// Committed new state to the origin.
    Committed {
        /// New entry hash.
        new_entry: ContentHash,
    },
    /// Transferred to a new spine and owner.
    Transferred {
        /// New spine.
        new_spine: String,
        /// New entry hash.
        new_entry: ContentHash,
        /// New owner.
        new_owner: Did,
    },
    /// Anchored at a waypoint.
    Anchored {
        /// Waypoint spine.
        waypoint_spine: String,
        /// Waypoint entry.
        waypoint_entry: ContentHash,
    },
    /// Consumed (deleted).
    Consumed,
}

/// Builder for slices.
#[derive(Clone, Debug)]
pub struct SliceBuilder {
    origin: SliceOrigin,
    holder: Did,
    mode: SliceMode,
    resolution_route: ResolutionRoute,
    constraints: SliceConstraints,
    session_id: SessionId,
    checkout_vertex: VertexId,
    expires_at: Option<Timestamp>,
}

/// What a builder holds so far.
pub struct SliceDraft {
    pub origin: SliceOrigin,
    pub holder: Did,
    pub mode: SliceMode,
    pub resolution_route: ResolutionRoute,
    pub constraints: SliceConstraints,
    pub session_id: SessionId,
    pub checkout_vertex: VertexId,
    pub expires_at: Option<Timestamp>,
}

impl View for SliceBuilder {
    type V = SliceDraft;

    closed spec fn view(&self) -> SliceDraft {
        SliceDraft {
            origin: self.origin,
            holder: self.holder,
            mode: self.mode,
            resolution_route: self.resolution_route,
            constraints: self.constraints,
            session_id: self.session_id,
            checkout_vertex: self.checkout_vertex,
            expires_at: self.expires_at,
        }
    }
}

/// The time `nanos` nanoseconds after `now`, saturating at `u64::MAX`.
pub open spec fn expiry_after(now: u64, nanos: nat) -> Timestamp {
    Timestamp(saturate_u64((now + saturate_u64(nanos)) as nat))
}

impl SliceBuilder {
    /// A builder that returns to the origin, has default constraints and no expiry.
    pub fn new(
        origin: SliceOrigin,
        holder: Did,
        mode: SliceMode,
        session_id: SessionId,
        checkout_vertex: VertexId,
    ) -> (r: Self)
        ensures
            r@.origin == origin,
            r@.holder == holder,
            r@.mode == mode,
            r@.resolution_route == ResolutionRoute::ReturnToOrigin,
            r@.constraints.max_duration is None,
            !r@.constraints.allow_reslice,
            r@.constraints.max_reslice_depth is None,
            r@.constraints.forbidden_operations@.len() == 0,
            r@.session_id == session_id,
            r@.checkout_vertex == checkout_vertex,
            r@.expires_at is None,
    {
        SliceBuilder {
            origin,
            holder,
            mode,
            resolution_route: ResolutionRoute::ReturnToOrigin,
            constraints: SliceConstraints::default(),
            session_id,
            checkout_vertex,
            expires_at: None,
        }
    }

    /// Sets the resolution route.
    pub fn with_resolution_route(self, route: ResolutionRoute) -> (r: Self)
        ensures
            r@ == (SliceDraft { resolution_route: route, ..self@ }),
    {
        SliceBuilder { resolution_route: route, ..self }
    }

    /// Sets the constraints.
    pub fn with_constraints(self, constraints: SliceConstraints) -> (r: Self)
        ensures
            r@ == (SliceDraft { constraints, ..self@ }),
    {
        SliceBuilder { constraints, ..self }
    }

    /// Sets the expiry time.
    pub fn with_expires_at(self, expires_at: Timestamp) -> (r: Self)
        ensures
            r@ == (SliceDraft { expires_at: Some(expires_at), ..self@ }),
    {
        SliceBuilder { expires_at: Some(expires_at), ..self }
    }

    /// Sets the expiry to `duration` from the time `now`, saturating at `u64::MAX`.
    pub fn expires_in_from(self, now: Timestamp, duration_nanos: u128) -> (r: Self)
        ensures
            r@ == (SliceDraft { expires_at: Some(expiry_after(now.0, duration_nanos as nat)), ..self@ }),
    {
        let nanos = saturating_u128_to_u64(duration_nanos);
        let expires = Timestamp::from_nanos(now.0.saturating_add(nanos));
        SliceBuilder { expires_at: Some(expires), ..self }
    }

    /// Sets the expiry to `duration` from now (saturating at `u64::MAX`); nothing else
    /// changes. The time now is read from the clock.
    pub fn expires_in(self, duration: Duration) -> (r: Self)
        ensures
            exists|t: std::time::SystemTime|
                r@ == (SliceDraft {
                    expires_at: Some(
                        expiry_after(#[trigger] timestamp_of(t).0, duration_total_nanos(duration)),
                    ),
                    ..self@
                }),
    {
        let now = Timestamp::now();
        let ghost t = choose|t: std::time::SystemTime| now == timestamp_of(t);
        let r = self.expires_in_from(now, duration_as_nanos(&duration));
        assert(r@.expires_at == Some(expiry_after(timestamp_of(t).0, duration_total_nanos(duration))));
        r
    }

    /// Builds the slice: active, owned by the origin's owner, with a new identifier and
    /// checked out now.
    pub fn build(self) -> (s: Slice)
        ensures
            s.origin == self@.origin,
            s.holder == self@.holder,
            s.owner == self@.origin.owner,
            s.mode == self@.mode,
            s.resolution_route == self@.resolution_route,
            s.expires_at == self@.expires_at,
            s.constraints == self@.constraints,
            s.state == SliceState::Active,
            s.session_id == self@.session_id,
            s.checkout_vertex == self@.checkout_vertex,
            is_uuid_v7(s.id.0@),
            exists|t: std::time::SystemTime| s.checked_out_at == #[trigger] timestamp_of(t),
    {
        let now = Timestamp::now();
        let owner = self.origin.owner.clone();
        Slice {
            id: SliceId::now(),
            origin: self.origin,
            holder: self.holder,
            owner,
            mode: self.mode,
            resolution_route: self.resolution_route,
            checked_out_at: now,
            expires_at: self.expires_at,
            constraints: self.constraints,
            state: SliceState::Active,
            session_id: self.session_id,
            checkout_vertex: self.checkout_vertex,
        }
    }
}

} // verus!
