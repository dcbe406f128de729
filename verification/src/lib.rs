//! Turns audit-log lines into time-series points and drives the handling of
//! one queue delivery at a time.

pub mod config;
pub mod decimal;
pub mod event;
pub mod grammar;
pub mod guard;
pub mod ingest;
pub mod json;
pub mod laws;
pub mod metrics;
pub mod retry;
pub mod strings;
pub mod text;
pub mod worker;
