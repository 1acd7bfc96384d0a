//! Planning and sequencing for building an on-chain program: resolves the
//! build configuration, derives the facts about the package to build, turns
//! both into the exact list of external tool invocations, and decides after
//! each invocation whether the build goes on.

pub mod config;
pub mod error;
pub mod laws;
pub mod metadata;
pub mod paths;
pub mod pipeline;
pub mod runner;
