//! Invocations of zome functions and the responses to them.

use crate::cell_id::CellId;
use crate::error::{GuestError, WorkflowError};
use crate::hash::AgentPubKey;
use holochain_serialized_bytes::SerializedBytes;
use vstd::prelude::*;

verus! {

/// Serialized bytes: a value in the form in which it crosses the boundary
/// between host and guest. The engine carries them and never reads them.
#[verifier::external_type_specification]
#[verifier::external_body]
pub struct ExSerializedBytes(SerializedBytes);

/// The secret that proves a capability.
pub type CapSecret = Vec<u8>;

/// What a guest returns when it ran to a successful end: its serialized
/// output.
pub type GuestOutput = SerializedBytes;

/// What a guest run yields: its output, or the failure that it surfaced.
pub type ZomeInvocationResult = Result<GuestOutput, GuestError>;

/// One zome of one cell.
#[derive(Debug)]
pub struct ZomeId {
    pub cell_id: CellId,
    pub zome_name: String,
}

/// A call of one zome function: the cell it is made on, the function, the
/// serialized argument, who makes it, and the capability it is made under.
#[derive(Debug)]
pub struct ZomeInvocation {
    /// The cell in which the function is to run.
    pub cell_id: CellId,
    /// The zome that holds the function.
    pub zome_name: String,
    /// The name of the function.
    pub fn_name: String,
    /// The capability credential. None is needed where the function is
    /// unrestricted, or where the caller is the author.
    pub cap: Option<CapSecret>,
    /// The agent who makes the call.
    pub provenance: AgentPubKey,
    /// The serialized argument.
    pub payload: SerializedBytes,
}

/// The workflows that can be run against a cell.
#[derive(Debug)]
pub enum WorkflowCall {
    InvokeZome(ZomeInvocation),
}

/// The response to an invocation: the serialized output of the function, or
/// the error that ended the invocation. Never both, never neither.
#[derive(Debug, PartialEq, Eq)]
pub enum ZomeInvocationResponse {
    ZomeApiFn(SerializedBytes),
    Error(WorkflowError),
}

impl ZomeInvocation {
    /// The zome that the invocation is made on.
    pub fn zome_id(&self) -> (r: ZomeId)
        ensures
            r.cell_id@ == self.cell_id@,
            r.zome_name@ == self.zome_name@,
    {
        ZomeId { cell_id: self.cell_id.clone(), zome_name: self.zome_name.clone() }
    }
}

} // verus!
