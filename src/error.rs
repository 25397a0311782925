//! The ways a launch can fail.
use vstd::prelude::*;
use crate::launch::BridgeStep;

verus! {

/// Why a launch stopped. Every failure ends the launch; none is retried.
#[derive(Clone, Debug, PartialEq, Eq)]
pub enum LaunchError {
    /// The jar path cannot be made absolute.
    ConfigError,
    /// The shared library is missing or could not be loaded.
    LoadError,
    /// The runtime refused to start, with its native status code.
    CreationError { code: i32 },
    /// The calling thread could not be bound to the runtime.
    AttachError { code: i32 },
    /// A step of the class-loading sequence failed for the configured class.
    ClassLoadError { step: BridgeStep, class_name: String },
    /// An exception raised inside the runtime, with the runtime's description.
    EmbeddedRuntimeException { description: String },
    /// The runtime handed back no object while building the argument array.
    MarshalError,
    /// The host answered a request with an event of the wrong kind.
    ProtocolError,
}

} // verus!
