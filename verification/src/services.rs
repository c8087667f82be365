//! Capability interfaces the request orchestrator depends on: a description
//! provider and a style translator, each with its own error taxonomy.

pub mod pokemon;
pub mod translation;
