//! Types shared with the ecosystem's capability providers: compute tasks, gossip
//! announcements, cross-gate mesh trust events and provenance configuration.

pub mod compute;
pub mod event;
pub mod gossip;
pub mod mesh;
pub mod provenance;
