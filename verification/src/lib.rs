//! Orchestrator for running caller-supplied code against a live cluster
//! workload with mirrored traffic.
//!
//! The library holds the request pipeline's logic: JSON configuration
//! parsing and merging, shell-word tokenization of raw command lines,
//! per-language setup plans, classification of external tool outcomes,
//! and the orchestrator state machine that ties one request together.
//! All process spawning and filesystem work is performed by the caller,
//! which drives the state machine with the outcomes it observed.

pub mod config;
pub mod errors;
pub mod executor;
pub mod json;
pub mod process;
pub mod resolve;
pub mod run_service;
pub mod runnable;
pub mod shellwords;
pub mod text;
pub mod tools;
pub mod workspace;
