//! Admission-control decision engine for a workload's filesystem-group
//! setting: a validated policy configuration of permitted integer ranges,
//! and a pure decision function that accepts a workload, rejects it with an
//! explanation, or accepts it after filling in a default value.

pub mod engine;
pub mod settings;
pub mod text;
pub mod workload;
