//! A launcher core that embeds a Java-style runtime in a host process.
//!
//! The library decides; the host performs. [`platform`] places the runtime's
//! shared library, [`invocation`] builds the startup options, and
//! [`launch`] drives the whole sequence (load, create, attach, class loading,
//! argument marshalling, entry invocation, shutdown) as a state machine that
//! names each call into the runtime and reads back what the call returned.
//! [`laws`] states and proves what holds of every launch.
pub mod error;
pub mod invocation;
pub mod launch;
pub mod laws;
pub mod platform;
pub mod text;
