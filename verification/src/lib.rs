//! The window lifecycle and focus-coordination core of a snippet-manager
//! desktop tool: surface profiles and creation plans, the compositor-aware
//! floating policy, the retry-with-backoff focus algorithm, reconciled
//! per-surface diagnostics, and the external-trigger watchdog that measures
//! focus latency. Everything here is decision and state; the host process
//! performs the toolkit requests, the waits and the I/O, and reports their
//! outcomes back.

pub mod chrome;
pub mod color;
pub mod compositor;
pub mod error;
pub mod focus;
pub mod labels;
pub mod metrics;
pub mod models;
pub mod search;
pub mod selection;
pub mod service;
pub mod settings;
pub mod shortcuts;
pub mod strutil;
pub mod theme;
pub mod timeutil;
pub mod validate;
pub mod watchdog;
