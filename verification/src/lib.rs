//! Resilience core for a restartable agent worker: the supervisor's
//! crash-loop accounting and rollback state machine, and the worker's
//! durable, deduplicated, retryable task pipeline.
//!
//! All state that must survive process restarts is modelled here as plain
//! data with explicit invariants; the surrounding process (I/O, HTTP,
//! persistence, process control) drives these models and mirrors their
//! mutations to durable storage.

pub mod agent;
pub mod audit;
pub mod config;
pub mod history;
pub mod queue;
pub mod supervisor;
pub mod text;
pub mod worker;

