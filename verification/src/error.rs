//! The operations of the interface and the error that each can fail with.

use vstd::prelude::*;

verus! {

/// One of the six requests the interface offers.
#[derive(Clone, Copy, Debug, PartialEq, Eq, Structural)]
pub enum Operation {
    Bootstrap,
    Updates,
    FinalityUpdate,
    OptimisticUpdate,
    Blocks,
    ChainSpec,
}

impl Operation {
    /// The name under which failures of the operation are reported.
    pub open spec fn tag(self) -> Seq<char> {
        match self {
            Operation::Bootstrap => "bootstrap"@,
            Operation::Updates => "updates"@,
            Operation::FinalityUpdate => "finality_update"@,
            Operation::OptimisticUpdate => "optimistic_update"@,
            Operation::Blocks => "blocks"@,
            Operation::ChainSpec => "spec"@,
        }
    }

    /// The name under which failures of the operation are reported.
    pub fn name(self) -> (s: &'static str)
        ensures
            s@ == self.tag(),
    {
        match self {
            Operation::Bootstrap => "bootstrap",
            Operation::Updates => "updates",
            Operation::FinalityUpdate => "finality_update",
            Operation::OptimisticUpdate => "optimistic_update",
            Operation::Blocks => "blocks",
            Operation::ChainSpec => "spec",
        }
    }
}

/// Why an operation failed.
#[derive(Clone, Debug, PartialEq, Eq)]
pub enum Cause {
    /// No decoded body arrived: the request could not be completed, or the
    /// body was not JSON. The text is the report of whoever sent it.
    Transport(String),
    /// The body is not an object with a `data` member.
    MissingData,
    /// The body of an update list is not an array.
    NotAList,
    /// The block envelope has no `message` member.
    MissingMessage,
    /// The configuration object has no `DEPOSIT_NETWORK_ID` member.
    MissingNetworkId,
    /// `DEPOSIT_NETWORK_ID` is neither an unsigned 64-bit number nor a
    /// decimal string of one.
    InvalidNetworkId,
}

/// The failure of one operation.
#[derive(Clone, Debug, PartialEq, Eq)]
pub struct RpcError {
    pub operation: Operation,
    pub cause: Cause,
}

impl RpcError {
    pub fn new(operation: Operation, cause: Cause) -> (e: RpcError)
        ensures
            e == (RpcError { operation, cause }),
    {
        RpcError { operation, cause }
    }

    /// The name of the operation that failed.
    pub fn operation_name(&self) -> (s: &'static str)
        ensures
            s@ == self.operation.tag(),
    {
        self.operation.name()
    }
}

} // verus!
