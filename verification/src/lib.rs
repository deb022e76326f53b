//! A live JVM observability client: discovery of running processes,
//! capability-aware connectors over three transports, parsers that turn
//! semi-structured diagnostic-tool output into typed telemetry, and a
//! bounded-history store fed by a decimated polling plan.
//!
//! Every module here is verified.  Subprocesses, HTTP, remote shells and
//! the terminal live with the callers, which hand plain values in and take
//! plain values back.

pub mod app;
pub mod collector;
pub mod config;
pub mod detector;
pub mod discovery;
pub mod error;
pub mod event;
pub mod export;
pub mod jcmd;
pub mod jdk_tools;
pub mod jdk_tools_error;
pub mod jolokia;
pub mod jstat;
pub mod ring_buffer;
pub mod ssh_jdk;
pub mod store;
pub mod text;
pub mod types;
