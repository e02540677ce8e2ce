//! Interception resolution engine for a controlled browser session.
//!
//! Two independently ordered event streams describe each outbound request:
//! the pause stream, which carries the handle needed to answer a paused
//! request, and the observation stream, which carries what is needed to
//! classify it. The engine correlates the two and answers every paused
//! request with a single terminal command: continue, fail or fulfill.
//!
//! The engine does no input or output. Its caller turns the events of the
//! control plane into [`event::InterceptEvent`] values, hands them to
//! [`driver::ResolutionDriver::handle`] one at a time, and carries out the
//! [`driver::Effect`] that comes back. The module [`laws`] states what holds
//! of the engine over all events and traces.

pub mod command;
pub mod config;
pub mod driver;
pub mod encoding;
pub mod event;
pub mod laws;
pub mod multiplexer;
pub mod policy;
pub mod report;
pub mod resolution;
pub mod session;
pub mod store;
pub mod uri;
