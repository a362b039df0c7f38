//! A messaging capability provider for an SQS-style queue backend.
//!
//! The library keeps one authenticated backend connection per linked actor,
//! resolves a destination queue per operation, and sequences publish and
//! request calls as small state machines. The surrounding process performs
//! the actual network calls and feeds their outcomes back into the machines.

pub mod backend;
pub mod config;
pub mod errors;
pub mod messages;
pub mod provider;
pub mod registry;
pub mod resolver;
pub mod router;
