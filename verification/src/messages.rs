//! What the message is made of in which a signer tells the others how it sees the chain.

use crate::chain::{ConsensusHash, Hash160, StacksBlockId};
use vstd::prelude::*;

verus! {

/// Who should be mining, as told to other signers.
#[derive(Debug, Clone, Copy, PartialEq, Eq)]
pub enum StateMachineUpdateMinerState {
    /// There is an active miner.
    ActiveMiner {
        /// The pubkeyhash of the current miner's signing key
        current_miner_pkh: Hash160,
        /// The tenure ID of the current miner's active tenure
        tenure_id: ConsensusHash,
        /// The tenure that the current miner is building on top of
        parent_tenure_id: ConsensusHash,
        /// The last block of the parent tenure
        parent_tenure_last_block: StacksBlockId,
        /// The height of the last block of the parent tenure
        parent_tenure_last_block_height: u64,
    },
    /// The signer doesn't believe there's any valid miner
    NoValidMiner,
}

/// The signer's view, in the form that the signing protocol's version fixes.
#[derive(Debug, Clone, Copy, PartialEq, Eq)]
pub enum StateMachineUpdateContent {
    /// Version 0
    V0 {
        /// The tip burn block
        burn_block: ConsensusHash,
        /// The tip burn block height
        burn_block_height: u64,
        /// Who should be mining
        current_miner: StateMachineUpdateMinerState,
    },
}

/// What the message that tells the other signers of a view is made of: the arguments of the
/// message's constructor, which belongs to the signing protocol's message format. The
/// constructor may still refuse them, where the content does not go with the active version.
#[derive(Debug, Clone, Copy, PartialEq, Eq)]
pub struct StateMachineUpdateMessage {
    /// The active signing protocol version
    pub active_signer_protocol_version: u64,
    /// The latest signing protocol version that the sender supports
    pub local_supported_signer_protocol_version: u64,
    /// The view
    pub content: StateMachineUpdateContent,
}

} // verus!
