//! DAG engine core: identifiers and values, the payload store and the byte layout of the
//! persistent DAG stores, transport addressing, slices, validation, chaos runs and the
//! ecosystem's shared types, with their behaviour stated in contracts.

pub mod text;
pub mod outside;
pub mod types;
pub mod transport;
pub mod validation;
pub mod chaos;
pub mod slice;
pub mod ecosystem;
pub mod store;
pub mod dag_keys;
pub mod dag_session;
