//! How a call on the state machine talks to the outside: it asks one `Request` at
//! a time, and goes on with the `Reply`.

use crate::chain::{
    BlockTip, ConsensusHash, CurrentAndLastSortition, NakamotoBlock, PeerInfo, SortitionState,
};
use vstd::prelude::*;

verus! {

/// Which of the two most recent sortitions with a winner is meant.
#[derive(Debug, Clone, Copy, PartialEq, Eq, Structural)]
pub enum Winner {
    /// The winner of the latest sortition.
    Current,
    /// The winner of the sortition before it.
    Last,
}

/// What a call needs to know before it can go on.
#[derive(Debug, PartialEq, Eq)]
pub enum Request {
    /// The burn chain tip that the node has processed.
    PeerInfo,
    /// The two most recent sortitions with a winner.
    CurrentAndLastSortition,
    /// The second of the two most recent sortitions with a winner. The node tells both, but
    /// the latest is not read.
    LastSortition,
    /// Whether the winner of a sortition chose an appropriate parent tenure.
    ParentTenureChoice {
        /// Which of the sortitions that the node told last this is about.
        winner: Winner,
        /// That sortition.
        sortition: SortitionState,
        /// The block to judge the choice by.
        standin_block: NakamotoBlock,
        /// How late a first proposal may reorganize, in nanoseconds.
        first_proposal_burn_block_timing: u128,
    },
    /// Whether this signer has signed a block in a tenure.
    SignedBlockInTenure {
        /// The tenure.
        tenure: ConsensusHash,
    },
    /// When the burn block of a tenure was received, in seconds since the Unix epoch.
    BurnBlockReceiveTime {
        /// The tenure.
        tenure: ConsensusHash,
    },
    /// When the miner of a tenure was last active, in seconds since the Unix epoch.
    LastActivityTime {
        /// The tenure.
        tenure: ConsensusHash,
    },
    /// The time.
    CurrentTime,
    /// The last block of a tenure, as the node knows it.
    TenureTip {
        /// The tenure.
        tenure: ConsensusHash,
    },
    /// The last block of a tenure, as the signer's database knows it.
    TenureLastBlock {
        /// The tenure.
        tenure: ConsensusHash,
        /// How long a proposed block counts, in nanoseconds.
        tenure_last_block_proposal_timeout: u128,
    },
}

/// The reply to the request of the same name.
#[derive(Debug, PartialEq, Eq)]
pub enum Reply<E> {
    /// The node's burn chain tip.
    PeerInfo(Result<PeerInfo, E>),
    /// The two sortitions.
    CurrentAndLastSortition(Result<CurrentAndLastSortition<E>, E>),
    /// The second sortition, or the error met when the node's report was read, if there is
    /// such a sortition.
    LastSortition(Result<Option<Result<SortitionState, E>>, E>),
    /// Whether the parent tenure was an appropriate choice.
    ParentTenureChoice(Result<bool, E>),
    /// Whether a block was signed.
    SignedBlockInTenure(Result<bool, E>),
    /// The time of receipt, if it is known.
    BurnBlockReceiveTime(Result<Option<u64>, E>),
    /// The time of the last activity, if there was any.
    LastActivityTime(Result<Option<u64>, E>),
    /// The time in nanoseconds since the Unix epoch, negative before it.
    CurrentTime(i128),
    /// The node's last block of the tenure.
    TenureTip(Result<BlockTip, E>),
    /// The database's last block of the tenure, if it has one.
    TenureLastBlock(Result<Option<BlockTip>, E>),
}

impl<E> Reply<E> {
    /// Whether this is a reply to `request`.
    pub open spec fn answers(self, request: Request) -> bool {
        match request {
            Request::PeerInfo => self is PeerInfo,
            Request::CurrentAndLastSortition => self is CurrentAndLastSortition,
            Request::LastSortition => self is LastSortition,
            Request::ParentTenureChoice { .. } => self is ParentTenureChoice,
            Request::SignedBlockInTenure { .. } => self is SignedBlockInTenure,
            Request::BurnBlockReceiveTime { .. } => self is BurnBlockReceiveTime,
            Request::LastActivityTime { .. } => self is LastActivityTime,
            Request::CurrentTime => self is CurrentTime,
            Request::TenureTip { .. } => self is TenureTip,
            Request::TenureLastBlock { .. } => self is TenureLastBlock,
        }
    }
}

/// Where a call stands after a reply.
#[derive(Debug, PartialEq, Eq)]
pub enum Progress<C, R> {
    /// It has another request.
    Ask(C),
    /// It has ended with a result.
    Done(R),
}

} // verus!
