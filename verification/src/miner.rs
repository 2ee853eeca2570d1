//! The view of who should be mining, and how it is made from a sortition.

use crate::calls::{Progress, Reply, Request};
use crate::chain::{
    BlockTip, ConsensusHash, Hash160, ProposalEvalConfig, SortitionState, StacksBlockId,
};
use crate::errors::SignerChainstateError;
use vstd::prelude::*;

verus! {

/// Enum for capturing the signer state machine's view of who
/// should be the active miner and what their tenure should be
/// built on top of.
#[derive(Debug, Clone, Copy, Eq)]
pub enum MinerState {
    /// The information for the current active miner
    ActiveMiner {
        /// The pubkeyhash of the current miner's signing key
        current_miner_pkh: Hash160,
        /// The tenure ID of the current miner's active tenure
        tenure_id: ConsensusHash,
        /// The tenure that the current miner is building on top of
        parent_tenure_id: ConsensusHash,
        /// The last block of the parent tenure (which should be
        /// the block that the next tenure starts from)
        parent_tenure_last_block: StacksBlockId,
        /// The height of the last block of the parent tenure (which should be
        /// the block that the next tenure starts from)
        parent_tenure_last_block_height: u64,
    },
    /// This signer doesn't believe there's any valid miner
    NoValidMiner,
}

impl PartialEq for MinerState {
    fn eq(&self, other: &Self) -> (equal: bool) {
        match (self, other) {
            (
                MinerState::ActiveMiner {
                    current_miner_pkh,
                    tenure_id,
                    parent_tenure_id,
                    parent_tenure_last_block,
                    parent_tenure_last_block_height,
                },
                MinerState::ActiveMiner {
                    current_miner_pkh: other_miner_pkh,
                    tenure_id: other_tenure_id,
                    parent_tenure_id: other_parent_tenure_id,
                    parent_tenure_last_block: other_last_block,
                    parent_tenure_last_block_height: other_last_block_height,
                },
            ) => {
                *current_miner_pkh == *other_miner_pkh && *tenure_id == *other_tenure_id
                    && *parent_tenure_id == *other_parent_tenure_id && *parent_tenure_last_block
                    == *other_last_block && *parent_tenure_last_block_height
                    == *other_last_block_height
            },
            (MinerState::NoValidMiner, MinerState::NoValidMiner) => true,
            (_, _) => false,
        }
    }
}

impl vstd::std_specs::cmp::PartialEqSpecImpl for MinerState {
    open spec fn obeys_eq_spec() -> bool {
        true
    }

    open spec fn eq_spec(&self, other: &Self) -> bool {
        *self == *other
    }
}

/// What the outside answers to the requests of a `MinerStateCall`, asked or not.
pub struct ParentAnswers<E> {
    /// The node's last block of the parent tenure.
    pub node: Result<BlockTip, E>,
    /// The database's last block of the parent tenure.
    pub signer_db: Result<Option<BlockTip>, E>,
}

/// The last block of a tenure when the node and the database each may know one: the
/// higher of the two, the database's where they are equally high.
pub open spec fn last_block(node: Option<BlockTip>, signer_db: Option<BlockTip>) -> Option<
    BlockTip,
> {
    match (node, signer_db) {
        (Some(n), Some(s)) => Some(
            if n.height > s.height {
                n
            } else {
                s
            },
        ),
        (Some(n), None) => Some(n),
        (None, s) => s,
    }
}

/// The winner of `sortition` as the active miner, building on `parent_block`.
pub open spec fn active_miner(sortition: SortitionState, parent_block: BlockTip) -> MinerState {
    MinerState::ActiveMiner {
        current_miner_pkh: sortition.miner_pkh,
        tenure_id: sortition.consensus_hash,
        parent_tenure_id: sortition.parent_tenure_id,
        parent_tenure_last_block: parent_block.block_id,
        parent_tenure_last_block_height: parent_block.height,
    }
}

/// The winner of `sortition` as the active miner, building on the last block known of
/// its parent tenure. That the node knows none, for whatever reason, is no error; that
/// the database cannot be read is one, and so is that no block is known at all.
pub open spec fn miner_state_of<E>(sortition: SortitionState, answers: ParentAnswers<E>) -> Result<
    MinerState,
    SignerChainstateError<E>,
> {
    match answers.signer_db {
        Err(e) => Err(SignerChainstateError::Service(e)),
        Ok(signer_db) => match last_block(answers.node.ok(), signer_db) {
            Some(block) => Ok(active_miner(sortition, block)),
            None => Err(SignerChainstateError::NoParentTenureInfo(sortition.parent_tenure_id)),
        },
    }
}

/// What a `MinerStateCall` waits on.
#[derive(Debug, Clone, Copy, PartialEq, Eq)]
pub enum MinerStatePhase {
    /// The node's last block of the parent tenure.
    TenureTip,
    /// The database's last block of the parent tenure.
    TenureLastBlock {
        /// The node's.
        node: Option<BlockTip>,
    },
}

/// The making, under way, of a miner state from a sortition.
#[derive(Debug, Clone, Copy, PartialEq, Eq)]
pub struct MinerStateCall {
    /// The sortition.
    pub sortition: SortitionState,
    /// The durations to go by.
    pub config: ProposalEvalConfig,
    /// How far the call has come.
    pub phase: MinerStatePhase,
}

/// The later of the two blocks, as `last_block` says.
pub fn choose_last_block(node: Option<BlockTip>, signer_db: Option<BlockTip>) -> (chosen: Option<
    BlockTip,
>)
    ensures
        chosen == last_block(node, signer_db),
{
    match (node, signer_db) {
        (Some(n), Some(s)) => {
            if n.height > s.height {
                Some(n)
            } else {
                Some(s)
            }
        },
        (None, Some(s)) => Some(s),
        (Some(n), None) => Some(n),
        (None, None) => None,
    }
}

impl MinerStateCall {
    /// The call as it begins.
    pub open spec fn begin(sortition: SortitionState, config: ProposalEvalConfig) -> MinerStateCall {
        MinerStateCall { sortition, config, phase: MinerStatePhase::TenureTip }
    }

    /// Whether `request` is what the call waits on.
    pub open spec fn asks(self, request: Request) -> bool {
        match self.phase {
            MinerStatePhase::TenureTip => request == (Request::TenureTip {
                tenure: self.sortition.parent_tenure_id,
            }),
            MinerStatePhase::TenureLastBlock { .. } => request == (Request::TenureLastBlock {
                tenure: self.sortition.parent_tenure_id,
                tenure_last_block_proposal_timeout: self.config.tenure_last_block_proposal_timeout,
            }),
        }
    }

    /// Where the call stands after `reply`. A reply to a request that it does not
    /// wait on leaves it as it is.
    pub open spec fn after<E>(self, reply: Reply<E>) -> Progress<
        MinerStateCall,
        Result<MinerState, SignerChainstateError<E>>,
    > {
        match (self.phase, reply) {
            (MinerStatePhase::TenureTip, Reply::TenureTip(tip)) => Progress::Ask(
                MinerStateCall {
                    phase: MinerStatePhase::TenureLastBlock { node: tip.ok() },
                    ..self
                },
            ),
            (MinerStatePhase::TenureLastBlock { node }, Reply::TenureLastBlock(Err(e))) => {
                Progress::Done(Err(SignerChainstateError::Service(e)))
            },
            (MinerStatePhase::TenureLastBlock { node }, Reply::TenureLastBlock(Ok(signer_db))) => {
                match last_block(node, signer_db) {
                    Some(block) => Progress::Done(Ok(active_miner(self.sortition, block))),
                    None => Progress::Done(
                        Err(
                            SignerChainstateError::NoParentTenureInfo(
                                self.sortition.parent_tenure_id,
                            ),
                        ),
                    ),
                }
            },
            _ => Progress::Ask(self),
        }
    }

    /// The reply that `answers` holds to what the call waits on.
    pub open spec fn answer<E>(self, answers: ParentAnswers<E>) -> Reply<E> {
        match self.phase {
            MinerStatePhase::TenureTip => Reply::TenureTip(answers.node),
            MinerStatePhase::TenureLastBlock { .. } => Reply::TenureLastBlock(answers.signer_db),
        }
    }

    /// The most requests that are still to come.
    pub open spec fn requests_left(self) -> nat {
        match self.phase {
            MinerStatePhase::TenureTip => 2,
            MinerStatePhase::TenureLastBlock { .. } => 1,
        }
    }

    /// The result of the call when each request is answered from `answers`.
    pub open spec fn run<E>(self, answers: ParentAnswers<E>) -> Result<
        MinerState,
        SignerChainstateError<E>,
    >
        decreases self.requests_left(),
    {
        match self.after(self.answer(answers)) {
            Progress::Ask(next) => next.run(answers),
            Progress::Done(result) => result,
        }
    }

    /// What the call waits on.
    pub fn request(&self) -> (request: Request)
        ensures
            self.asks(request),
    {
        match self.phase {
            MinerStatePhase::TenureTip => Request::TenureTip {
                tenure: self.sortition.parent_tenure_id,
            },
            MinerStatePhase::TenureLastBlock { .. } => Request::TenureLastBlock {
                tenure: self.sortition.parent_tenure_id,
                tenure_last_block_proposal_timeout: self.config.tenure_last_block_proposal_timeout,
            },
        }
    }

    /// Goes on with `reply`.
    pub fn resume<E>(self, reply: Reply<E>) -> (progress: Progress<
        MinerStateCall,
        Result<MinerState, SignerChainstateError<E>>,
    >)
        ensures
            progress == self.after(reply),
    {
        match (self.phase, reply) {
            (MinerStatePhase::TenureTip, Reply::TenureTip(tip)) => {
                let node: Option<BlockTip> = match tip {
                    Ok(block) => Some(block),
                    Err(_) => None,
                };
                Progress::Ask(
                    MinerStateCall { phase: MinerStatePhase::TenureLastBlock { node }, ..self },
                )
            },
            (MinerStatePhase::TenureLastBlock { node }, Reply::TenureLastBlock(last)) => {
                let signer_db: Option<BlockTip> = match last {
                    Ok(block) => block,
                    Err(e) => {
                        return Progress::Done(Err(SignerChainstateError::Service(e)));
                    },
                };
                match choose_last_block(node, signer_db) {
                    Some(block) => Progress::Done(
                        Ok(
                            MinerState::ActiveMiner {
                                current_miner_pkh: self.sortition.miner_pkh,
                                tenure_id: self.sortition.consensus_hash,
                                parent_tenure_id: self.sortition.parent_tenure_id,
                                parent_tenure_last_block: block.block_id,
                                parent_tenure_last_block_height: block.height,
                            },
                        ),
                    ),
                    None => Progress::Done(
                        Err(
                            SignerChainstateError::NoParentTenureInfo(
                                self.sortition.parent_tenure_id,
                            ),
                        ),
                    ),
                }
            },
            (_, _) => Progress::Ask(self),
        }
    }
}

/// The making of a miner state, with each of its requests answered, ends with
/// `miner_state_of`.
pub proof fn law_miner_state_call<E>(
    sortition: SortitionState,
    config: ProposalEvalConfig,
    answers: ParentAnswers<E>,
)
    ensures
        MinerStateCall::begin(sortition, config).run(answers) == miner_state_of(sortition, answers),
{
    reveal_with_fuel(MinerStateCall::run, 3);
}

} // verus!
