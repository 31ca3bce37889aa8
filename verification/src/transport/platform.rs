//! Semantic permission levels and the Unix modes they stand for.

use vstd::prelude::*;

verus! {

/// Semantic permission levels.
#[derive(Debug, Clone, Copy, PartialEq, Eq, Structural)]
pub enum PlatformAccess {
    /// Owner-only access (`0o600` on Unix).
    OwnerOnly,
    /// Owner and group read-write (`0o660` on Unix).
    GroupReadWrite,
    /// World-readable (`0o644` on Unix).
    WorldReadable,
    /// Read-only for everyone (`0o444` on Unix).
    ReadOnly,
    /// Standard directory permissions (`0o755` on Unix).
    DirectoryDefault,
}

impl PlatformAccess {
    /// The POSIX mode bits the access level maps to on Unix.
    pub fn unix_mode(&self) -> (m: u32)
        ensures
            m == match self {
                PlatformAccess::OwnerOnly => 0o600u32,
                PlatformAccess::GroupReadWrite => 0o660u32,
                PlatformAccess::WorldReadable => 0o644u32,
                PlatformAccess::ReadOnly => 0o444u32,
                PlatformAccess::DirectoryDefault => 0o755u32,
            },
    {
        match self {
            PlatformAccess::OwnerOnly => 0o600,
            PlatformAccess::GroupReadWrite => 0o660,
            PlatformAccess::WorldReadable => 0o644,
            PlatformAccess::ReadOnly => 0o444,
            PlatformAccess::DirectoryDefault => 0o755,
        }
    }
}

} // verus!
