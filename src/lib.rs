//! Connection and transfer bookkeeping for a content-addressed storage node.
//!
//! The library keeps the decisions: the connection state machine, the registry
//! of per-operation progress channels and the orchestration of uploads and
//! downloads. The node itself, and every awaited call into it, is driven by the
//! caller, which hands the outcomes back as plain values.
pub mod text;
pub mod progress;
pub mod error;
pub mod registry;
pub mod config;
pub mod manager;
pub mod commands;
