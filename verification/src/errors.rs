//! The errors that the signer's state machine ends a call with.

use crate::chain::ConsensusHash;
use vstd::prelude::*;

verus! {

/// Why a response of the node is of no use.
#[derive(Debug, Clone, Copy, PartialEq, Eq)]
pub enum InvalidResponse {
    /// The node's burn chain tip is below the height that is waited for.
    BurnBlockNotProcessed,
    /// There is no second sortition, or it could not be read.
    MissingSortition,
}

impl InvalidResponse {
    /// The text that describes the response.
    pub open spec fn text(self) -> Seq<char> {
        match self {
            InvalidResponse::BurnBlockNotProcessed =>
                "Node has not processed the next burn block yet"@,
            InvalidResponse::MissingSortition =>
                "Fetching latest and last sortitions failed to return both sortitions"@,
        }
    }

    /// Describes the response.
    pub fn message(&self) -> (message: String)
        ensures
            message@ == self.text(),
    {
        match self {
            InvalidResponse::BurnBlockNotProcessed =>
                "Node has not processed the next burn block yet".to_owned(),
            InvalidResponse::MissingSortition =>
                "Fetching latest and last sortitions failed to return both sortitions".to_owned(),
        }
    }
}

/// An error in talking to the node.
#[derive(Debug, Clone, Copy, PartialEq, Eq)]
pub enum ClientError {
    /// The node answered, but not with what was asked for.
    InvalidResponse(InvalidResponse),
}

/// An error in turning the state machine into a message.
#[derive(Debug, Clone, Copy, PartialEq, Eq)]
pub enum CodecError {
    /// The state machine has no settled state to put into a message.
    SerializeError,
}

impl CodecError {
    /// The text that describes the error.
    pub open spec fn text(self) -> Seq<char> {
        "Local state machine is not ready to be serialized into an update message"@
    }

    /// Describes the error.
    pub fn message(&self) -> (message: String)
        ensures
            message@ == self.text(),
    {
        "Local state machine is not ready to be serialized into an update message".to_owned()
    }
}

/// An error that ends a call on the state machine. `E` is the error of the node,
/// the database or any other service behind the replies; it is passed on as it came.
#[derive(Debug, PartialEq, Eq)]
pub enum SignerChainstateError<E> {
    /// A service failed.
    Service(E),
    /// The node's response was of no use.
    ClientError(ClientError),
    /// Neither the node nor the database knows the last block of this tenure, which
    /// is the parent of the tenure to be mined.
    NoParentTenureInfo(ConsensusHash),
}

} // verus!
