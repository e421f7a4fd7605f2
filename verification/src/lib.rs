//! A local orchestration layer that brings a named container, derived from a
//! caller-supplied image reference, into a running state while reporting
//! fine-grained progress.
//!
//! The core is a sequential state machine: check that the engine is reachable,
//! reuse a container that already carries the derived name, otherwise clean up
//! stale containers of that name, pull the image while aggregating per-layer
//! progress into a single percentage, create the container with a fixed port
//! binding, start it, and report readiness.  All engine I/O is performed by the
//! caller, who executes each [`orchestrator::Command`] and feeds the outcome
//! back as an [`orchestrator::Event`].

pub mod device;
pub mod encoding;
pub mod logging;
pub mod naming;
pub mod orchestrator;
pub mod progress;
pub mod records;
pub mod strutil;

pub use naming::derive_container_name;
