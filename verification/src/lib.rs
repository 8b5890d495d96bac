//! Shared data model for a multi-tenant background-job platform: a closed set
//! of worker service kinds with a canonical string codec, per-service
//! configuration descriptors, a per-user registry mapping each kind to its
//! descriptor with a typed accessor, the user record that owns the registry,
//! and the notification envelope published to trigger a worker.

pub mod descriptor;
pub mod envelope;
pub mod error;
pub mod kind;
pub mod registry;
pub mod user;
