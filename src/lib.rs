//! Commit admission and resource resolution for an Atomic Data server.
//!
//! The verified core decides which commits a store accepts, how a request
//! path becomes a subject, which wire format a request asks for, and how the
//! store's answers become responses. The persistence engine, signature checks
//! and serializers belong to `atomic_lib`, reached through small wrappers.
pub mod agent;
pub mod atomic;
pub mod canonical;
pub mod commit;
pub mod content_type;
pub mod error;
pub mod resource;
pub mod subject;
pub mod text;
