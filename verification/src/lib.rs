//! Module-lifecycle orchestration core of an edge-device agent.
//!
//! The library turns declarative module specifications into container-engine
//! request descriptions, and reconciles the engine's reported state back into
//! the agent's domain model.  Everything that decides or computes lives here,
//! verified; the surrounding process performs the network exchanges and hands
//! the results back as plain values.

pub mod config;
pub mod env;
pub mod error;
pub mod identity;
pub mod json;
pub mod module;
pub mod module_spec;
pub mod provision;
pub mod reconcile;
pub mod requests;
pub mod runtime;
pub mod text;
