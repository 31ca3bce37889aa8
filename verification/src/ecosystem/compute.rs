//! Compute provider types: task identifiers, client configuration and state.

use vstd::prelude::*;
use crate::text::{hex_chars, parse_u64, parse_unsigned};
use crate::types::{hex_encode, is_uuid_v7, uuid_v7_at, uuid_v7_now};

verus! {

/// Default timeout of a capability call, in milliseconds.
pub const DEFAULT_CAPABILITY_TIMEOUT_MS: u64 = 5000;

/// Task identifier of a compute task.
#[derive(Debug, Clone, Copy, PartialEq, Eq, Hash)]
pub struct TaskId(pub [u8; 32]);

impl TaskId {
    /// A task ID holding `bytes`.
    pub fn new(bytes: [u8; 32]) -> (r: Self)
        ensures
            r.0 == bytes,
    {
        TaskId(bytes)
    }

    /// A new task ID: a version 7 UUID from the clock and the system's random source
    /// (its random bits zero where the source fails) in the first 16 bytes, zeros in the
    /// rest. Its version nibble makes it nonzero.
    pub fn now() -> (r: Self)
        ensures
            is_uuid_v7(r.0@.subrange(0, 16)),
            exists|t: std::time::SystemTime, rand: Seq<u8>|
                rand.len() == 10 && r.0@.subrange(0, 16) == #[trigger] uuid_v7_at(t, rand),
            forall|i: int| 16 <= i < 32 ==> #[trigger] r.0[i] == 0u8,
    {
        let uuid = uuid_v7_now();
        let mut bytes = [0u8; 32];
        let mut i: usize = 0;
        while i < 16
            invariant
                i <= 16,
                forall|k: int| 0 <= k < i ==> #[trigger] bytes[k] == uuid[k],
                forall|k: int| i <= k < 32 ==> #[trigger] bytes[k] == 0u8,
            decreases 16 - i,
        {
            bytes[i] = uuid[i];
            i = i + 1;
        }
        assert(bytes@.subrange(0, 16) =~= uuid@);
        TaskId(bytes)
    }

    /// The bytes.
    pub fn as_bytes(&self) -> (r: &[u8; 32])
        ensures
            *r == self.0,
    {
        &self.0
    }

    /// Display form: the first 8 bytes as 16 lowercase hexadecimal digits.
    pub fn to_string(&self) -> (s: String)
        ensures
            s@ == hex_chars(self.0@.subrange(0, 8)),
    {
        let prefix: [u8; 8] = [
            self.0[0],
            self.0[1],
            self.0[2],
            self.0[3],
            self.0[4],
            self.0[5],
            self.0[6],
            self.0[7],
        ];
        assert(prefix@ =~= self.0@.subrange(0, 8));
        hex_encode(&prefix)
    }
}

impl Default for TaskId {
    /// A new task ID, as `now` makes it.
    fn default() -> (r: Self)
        ensures
            is_uuid_v7(r.0@.subrange(0, 16)),
            exists|t: std::time::SystemTime, rand: Seq<u8>|
                rand.len() == 10 && r.0@.subrange(0, 16) == #[trigger] uuid_v7_at(t, rand),
            forall|i: int| 16 <= i < 32 ==> #[trigger] r.0[i] == 0u8,
    {
        TaskId::now()
    }
}

/// Configuration of the compute provider client.
#[derive(Debug, Clone)]
pub struct ComputeProviderConfig {
    /// Service address used when discovery is unavailable.
    pub fallback_address: Option<String>,
    /// Connection timeout in milliseconds.
    pub timeout_ms: u64,
    /// Event buffer size for subscriptions.
    pub event_buffer_size: usize,
    /// Retry attempts for failed connections.
    pub max_retries: u8,
}

impl Default for ComputeProviderConfig {
    /// No fallback address, 5000 ms timeout, 1000 buffered events, 3 retries.
    fn default() -> (r: Self)
        ensures
            r.fallback_address is None,
            r.timeout_ms == DEFAULT_CAPABILITY_TIMEOUT_MS,
            r.event_buffer_size == 1000,
            r.max_retries == 3,
    {
        ComputeProviderConfig {
            fallback_address: None,
            timeout_ms: DEFAULT_CAPABILITY_TIMEOUT_MS,
            event_buffer_size: 1000,
            max_retries: 3,
        }
    }
}

impl ComputeProviderConfig {
    /// The configuration from the environment's values: the compute endpoint becomes the
    /// fallback address; `COMPUTE_TIMEOUT_MS` sets the timeout when it reads as a `u64`.
    pub fn from_env_values(endpoint: Option<String>, timeout_value: Option<&str>) -> (r: Self)
        ensures
            r.fallback_address == endpoint,
            r.timeout_ms == match timeout_value {
                Some(t) => match parse_unsigned(t@, u64::MAX as nat) {
                    Some(v) => v as u64,
                    None => DEFAULT_CAPABILITY_TIMEOUT_MS,
                },
                None => DEFAULT_CAPABILITY_TIMEOUT_MS,
            },
            r.event_buffer_size == 1000,
            r.max_retries == 3,
    {
        let mut config = Self::default();
        config.fallback_address = endpoint;
        match timeout_value {
            Some(t) => match parse_u64(t) {
                Some(ms) => {
                    config.timeout_ms = ms;
                },
                None => {},
            },
            None => {},
        }
        config
    }

    /// The default configuration with a fallback address.
    pub fn with_fallback(address: &str) -> (r: Self)
        ensures
            r.fallback_address matches Some(a) && a@ == address@,
            r.timeout_ms == DEFAULT_CAPABILITY_TIMEOUT_MS,
            r.event_buffer_size == 1000,
            r.max_retries == 3,
    {
        ComputeProviderConfig { fallback_address: Some(String::from_str(address)), ..Self::default() }
    }
}

/// Client connection state.
#[derive(Debug, Clone, Copy, PartialEq, Eq, Structural)]
pub enum ClientState {
    /// Not connected.
    Disconnected,
    /// Connection in progress.
    Connecting,
    /// Connected and ready.
    Connected,
    /// Disconnected after an error.
    Error,
}

impl Default for ClientState {
    /// Disconnected.
    fn default() -> (r: Self)
        ensures
            r == ClientState::Disconnected,
    {
        ClientState::Disconnected
    }
}

/// The kind of an event in a compute task's life.
#[derive(Clone, Copy, Debug, PartialEq, Eq, Structural)]
pub enum ComputeEventKind {
    /// Task created.
    TaskCreated,
    /// Task started.
    TaskStarted,
    /// Task progress.
    TaskProgress,
    /// Task completed.
    TaskCompleted,
    /// Task failed.
    TaskFailed,
    /// Task cancelled.
    TaskCancelled,
}

/// The event type name of a kind.
pub open spec fn compute_event_name(k: ComputeEventKind) -> Seq<char> {
    match k {
        ComputeEventKind::TaskCreated => "task.created"@,
        ComputeEventKind::TaskStarted => "task.started"@,
        ComputeEventKind::TaskProgress => "task.progress"@,
        ComputeEventKind::TaskCompleted => "task.completed"@,
        ComputeEventKind::TaskFailed => "task.failed"@,
        ComputeEventKind::TaskCancelled => "task.cancelled"@,
    }
}

impl ComputeEventKind {
    /// The event type name.
    pub fn event_type(&self) -> (r: &'static str)
        ensures
            r@ == compute_event_name(*self),
    {
        match self {
            ComputeEventKind::TaskCreated => "task.created",
            ComputeEventKind::TaskStarted => "task.started",
            ComputeEventKind::TaskProgress => "task.progress",
            ComputeEventKind::TaskCompleted => "task.completed",
            ComputeEventKind::TaskFailed => "task.failed",
            ComputeEventKind::TaskCancelled => "task.cancelled",
        }
    }

    /// Whether an event of this kind ends the task: completion, failure or
    /// cancellation.
    pub fn is_terminal(&self) -> (r: bool)
        ensures
            r == (*self is TaskCompleted || *self is TaskFailed || *self is TaskCancelled),
    {
        match self {
            ComputeEventKind::TaskCompleted => true,
            ComputeEventKind::TaskFailed => true,
            ComputeEventKind::TaskCancelled => true,
            _ => false,
        }
    }
}

} // verus!
