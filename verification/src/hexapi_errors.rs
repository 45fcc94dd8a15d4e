//! Errors of the transport and of the network above it.

use vstd::prelude::*;

verus! {

/// What a physical link can report.
#[derive(Clone, Copy, Debug, PartialEq, Eq, Structural)]
pub enum PhyError {
    UartError,
    SPIError,
    DMAError,
    NotConnected,
    InvalidPort,
    /// The local port is not accepting connections.
    LocalResourceBusy,
    /// The remote port is not accepting connections.
    RemoteResourceBusy,
    InvalidSignal,
}

/// What the network layer can report.
#[derive(Clone, Copy, Debug, PartialEq, Eq, Structural)]
pub enum NetworkError {
    InvalidAddress,
    DestinationUnreachable,
    ChecksumFailure,
    Timeout,
    InvalidConfiguration,
    InvalidMessageContents,
}

/// Errors of queues and connections in general.
#[derive(Clone, Copy, Debug, PartialEq, Eq, Structural)]
pub enum GenError {
    /// A port has to be disconnected before it is connected again.
    ExistingConnectionError,
    /// There is no message in the queue.
    EmptyQueueError,
}

/// A network error together with the transport error that caused it, if one did.
#[derive(Clone, Copy, Debug, PartialEq, Eq, Structural)]
pub struct NetworkFault {
    pub kind: NetworkError,
    pub cause: Option<PhyError>,
}

impl NetworkFault {
    /// A network error with no transport error behind it.
    pub fn new(kind: NetworkError) -> (fault: NetworkFault)
        ensures
            fault == (NetworkFault { kind, cause: None }),
    {
        NetworkFault { kind, cause: None }
    }

    /// The network error `kind`, caused by the transport error `cause`.
    pub fn chain(cause: PhyError, kind: NetworkError) -> (fault: NetworkFault)
        ensures
            fault == (NetworkFault { kind, cause: Some(cause) }),
    {
        NetworkFault { kind, cause: Some(cause) }
    }
}

} // verus!
