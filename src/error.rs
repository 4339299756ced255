use vstd::prelude::*;

verus! {

/// The ways in which constructing, using or stopping a connection fails.
#[derive(Debug, PartialEq, Eq)]
pub enum NetError {
    /// The backend-kind tag names no registered backend.
    UnknownBackendKind,
    /// The selected backend could not be constructed from its configuration;
    /// holds the backend's own error.
    BackendConstructionFailed(Box<NetError>),
    /// A message was sent on a connection that has been stopped.
    SendAfterStopped,
    /// The backend failed to accept or produce a message.
    BackendOperationFailed,
    /// The backend failed to shut down gracefully; holds the backend's own
    /// error.
    ShutdownFailed(Box<NetError>),
}

} // verus!
