//! The kinds of failure, and how far each one travels.
//!
//! A stale head, a serialization failure, a failure of the guest and a failure
//! of the network end one invocation: the caller gets an error response and the
//! cell stays usable. An environment that cannot be opened fails the
//! construction of its cell. A fault inside the storage layer is not recovered
//! from at all: it ends the process, since a chain that may have diverged from
//! its own history is worse than a stop.

use vstd::prelude::*;

verus! {

/// What can go wrong when an environment is opened.
#[derive(Debug, Clone, PartialEq, Eq)]
pub enum DatabaseError {
    /// The directory of the environment is not there and could not be made.
    /// Holds the path that was asked for.
    EnvironmentMissing(String),
    /// No further storage handle can be given out.
    HandlesExhausted,
}

pub type DatabaseResult<T> = Result<T, DatabaseError>;

/// Why a cell could not be made.
#[derive(Debug, Clone, PartialEq, Eq)]
pub enum CellError {
    /// The environment of the cell could not be opened.
    StorageUnavailable(DatabaseError),
}

pub type CellResult<T> = Result<T, CellError>;

/// Why a request to the network brought no response.
#[derive(Debug, Clone, Copy, PartialEq, Eq, Structural)]
pub enum NetError {
    /// No response came within the time that the caller allowed.
    Timeout,
    /// The request could not be carried.
    Transport,
}

/// A failure that the guest surfaced.
#[derive(Debug, Clone, Copy, PartialEq, Eq, Structural)]
pub enum GuestError {
    /// The guest trapped.
    Trap,
    /// The guest ran to its end and returned an error of the application.
    Application,
    /// The payload, or the guest's output, could not be (de)serialized.
    Serialization,
    /// The invocation lacked the capability for the function it named.
    CapabilityDenied,
    /// A network request failed and the guest took that as fatal.
    Network(NetError),
}

/// The error that an invocation response can carry.
#[derive(Debug, Clone, Copy, PartialEq, Eq, Structural)]
pub enum WorkflowError {
    /// The chain head moved on between the start of the invocation and its
    /// commit.
    StaleHead,
    /// The payload or the response could not be (de)serialized.
    SerializationFailure,
    /// The guest trapped, was denied, or returned an error of the application.
    GuestExecutionFailure,
    /// The network timed out or failed to carry a request.
    NetworkFailure,
}

/// Every kind of failure that the engine knows.
#[derive(Debug, Clone, Copy, PartialEq, Eq, Structural)]
pub enum ErrorKind {
    StorageUnavailable,
    StaleHead,
    SerializationFailure,
    GuestExecutionFailure,
    NetworkFailure,
    FatalStorageFault,
}

/// How far a failure travels.
#[derive(Debug, Clone, Copy, PartialEq, Eq, Structural)]
pub enum Propagation {
    /// It becomes the error response of the invocation it arose in.
    Respond,
    /// It fails the construction of the cell.
    FailConstruction,
    /// It ends the process.
    Terminate,
}

/// How far each kind of failure travels.
pub open spec fn spec_propagation(kind: ErrorKind) -> Propagation {
    match kind {
        ErrorKind::StorageUnavailable => Propagation::FailConstruction,
        ErrorKind::FatalStorageFault => Propagation::Terminate,
        _ => Propagation::Respond,
    }
}

/// The failure of an invocation that a failure of the guest becomes.
pub open spec fn spec_workflow_error(error: GuestError) -> WorkflowError {
    match error {
        GuestError::Serialization => WorkflowError::SerializationFailure,
        GuestError::Network(_) => WorkflowError::NetworkFailure,
        _ => WorkflowError::GuestExecutionFailure,
    }
}

impl ErrorKind {
    pub fn propagation(self) -> (r: Propagation)
        ensures
            r == spec_propagation(self),
    {
        match self {
            ErrorKind::StorageUnavailable => Propagation::FailConstruction,
            ErrorKind::FatalStorageFault => Propagation::Terminate,
            _ => Propagation::Respond,
        }
    }
}

impl WorkflowError {
    pub open spec fn spec_kind(self) -> ErrorKind {
        match self {
            WorkflowError::StaleHead => ErrorKind::StaleHead,
            WorkflowError::SerializationFailure => ErrorKind::SerializationFailure,
            WorkflowError::GuestExecutionFailure => ErrorKind::GuestExecutionFailure,
            WorkflowError::NetworkFailure => ErrorKind::NetworkFailure,
        }
    }

    pub fn kind(self) -> (r: ErrorKind)
        ensures
            r == self.spec_kind(),
    {
        match self {
            WorkflowError::StaleHead => ErrorKind::StaleHead,
            WorkflowError::SerializationFailure => ErrorKind::SerializationFailure,
            WorkflowError::GuestExecutionFailure => ErrorKind::GuestExecutionFailure,
            WorkflowError::NetworkFailure => ErrorKind::NetworkFailure,
        }
    }

    /// The failure of an invocation that a failure of the guest becomes.
    pub fn from_guest(error: GuestError) -> (r: WorkflowError)
        ensures
            r == spec_workflow_error(error),
    {
        match error {
            GuestError::Serialization => WorkflowError::SerializationFailure,
            GuestError::Network(_) => WorkflowError::NetworkFailure,
            _ => WorkflowError::GuestExecutionFailure,
        }
    }
}

impl CellError {
    pub fn kind(&self) -> (r: ErrorKind)
        ensures
            r == ErrorKind::StorageUnavailable,
    {
        ErrorKind::StorageUnavailable
    }
}

/// Whatever an invocation can answer with is recovered where the workflow
/// ends: it becomes a response, and neither fails a construction nor ends the
/// process.
pub proof fn lemma_workflow_errors_respond(error: WorkflowError)
    ensures
        spec_propagation(error.spec_kind()) == Propagation::Respond,
{
}

} // verus!
