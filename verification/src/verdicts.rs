//! What the checks that calls are made of ask for, and what they decide by the replies.

#![allow(unused_imports)]

use crate::calls::{Progress, Reply, Request, Winner};
use crate::chain::{BlockTip, ConsensusHash, ProposalEvalConfig, SortitionState};
use crate::errors::SignerChainstateError;
use crate::miner::{MinerState, MinerStateCall};
use crate::tenure::TenureCheck;
use crate::timeout::{TimeoutAnswers, TimeoutCheck};
use vstd::prelude::*;

verus! {

/// A timeout check asks about its own tenure, and last for the time. Where no block was
/// signed in the tenure and the receipt of its burn block is known, it decides by the time
/// that has passed since the miner's last activity, or since the receipt where there was no
/// activity: whatever the timeout, the tenure has timed out if and only if that is more.
pub proof fn law_timeout_goes_by_time_passed<E>(
    tenure: ConsensusHash,
    timeout: u128,
    received: u64,
    activity: Option<u64>,
    now: i128,
)
    ensures
        ({
            let since: int = match activity {
                Some(active) => active as int,
                None => received as int,
            };
            let begun = TimeoutCheck::begin(tenure, timeout);
            &&& forall|r: Request| #[trigger]
                begun.asks(r) <==> r == (Request::SignedBlockInTenure { tenure })
            &&& begun.after(Reply::<E>::SignedBlockInTenure(Ok(false))) matches Progress::Ask(
                unsigned,
            )
            &&& forall|r: Request| #[trigger]
                unsigned.asks(r) <==> r == (Request::BurnBlockReceiveTime { tenure })
            &&& unsigned.after(
                Reply::<E>::BurnBlockReceiveTime(Ok(Some(received))),
            ) matches Progress::Ask(dated)
            &&& forall|r: Request| #[trigger]
                dated.asks(r) <==> r == (Request::LastActivityTime { tenure })
            &&& dated.after(Reply::<E>::LastActivityTime(Ok(activity))) matches Progress::Ask(
                clocked,
            )
            &&& forall|r: Request| #[trigger] clocked.asks(r) <==> r == Request::CurrentTime
            &&& clocked.after(Reply::<E>::CurrentTime(now)) == Progress::<
                TimeoutCheck,
                Result<bool, E>,
            >::Done(Ok(now - since * 1_000_000_000 > timeout))
        }),
{
}

/// A timeout check ends as soon as the tenure cannot have timed out: when a block was signed
/// in it, or when nothing is known of its burn block. It ends with an error as soon as it
/// meets one.
pub proof fn law_timeout_check_ends_early<E>(
    tenure: ConsensusHash,
    timeout: u128,
    received: u64,
    error: E,
)
    ensures
        ({
            let begun = TimeoutCheck::begin(tenure, timeout);
            let live = Progress::<TimeoutCheck, Result<bool, E>>::Done(Ok(false));
            let failed = Progress::<TimeoutCheck, Result<bool, E>>::Done(Err(error));
            &&& begun.after(Reply::<E>::SignedBlockInTenure(Ok(true))) == live
            &&& begun.after(Reply::<E>::SignedBlockInTenure(Err(error))) == failed
            &&& begun.after(Reply::<E>::SignedBlockInTenure(Ok(false))) matches Progress::Ask(
                unsigned,
            )
            &&& unsigned.after(Reply::<E>::BurnBlockReceiveTime(Ok(None))) == live
            &&& unsigned.after(Reply::<E>::BurnBlockReceiveTime(Err(error))) == failed
            &&& unsigned.after(
                Reply::<E>::BurnBlockReceiveTime(Ok(Some(received))),
            ) matches Progress::Ask(dated)
            &&& dated.after(Reply::<E>::LastActivityTime(Err(error))) == failed
        }),
{
}

/// A tenure has timed out if and only if no block was signed in it, the receipt of its burn
/// block is known, and the miner's last activity, or the receipt where there was none, is
/// more nanoseconds ago than the timeout has.
pub proof fn law_timed_out_if_inactive_for_longer<E>(
    tenure: ConsensusHash,
    timeout: u128,
    answers: TimeoutAnswers<E>,
)
    ensures
        TimeoutCheck::begin(tenure, timeout).run(answers) == Ok::<bool, E>(true) <==> {
            &&& answers.signed == Ok::<bool, E>(false)
            &&& answers.received matches Ok(Some(received))
            &&& answers.activity matches Ok(activity)
            &&& answers.now > timeout + 1_000_000_000 * (match activity {
                Some(active) => active,
                None => received,
            })
        },
{
    crate::timeout::law_timeout_check(tenure, timeout, answers);
}

/// A tenure check first asks whether the sortition's winner chose an appropriate parent
/// tenure, to be judged by a block that names the sortition's tenure and is empty otherwise.
/// A choice that was not appropriate makes the tenure invalid.
pub proof fn law_tenure_check_asks_for_parent_choice<E>(
    winner: Winner,
    sortition: SortitionState,
    config: ProposalEvalConfig,
    request: Request,
    error: E,
)
    requires
        TenureCheck::begin(winner, sortition, config).asks(request),
    ensures
        request matches Request::ParentTenureChoice {
            winner: asked_winner,
            sortition: asked_sortition,
            standin_block: block,
            first_proposal_burn_block_timing,
        } && {
            &&& asked_winner == winner
            &&& asked_sortition == sortition
            &&& first_proposal_burn_block_timing == config.first_proposal_burn_block_timing
            &&& block.header.consensus_hash == sortition.consensus_hash
            &&& block.header.version == 0
            &&& block.header.chain_length == 0
            &&& block.header.burn_spent == 0
            &&& block.header.timestamp == 0
            &&& block.header.parent_block_id is None
            &&& block.header.miner_signature is None
            &&& block.header.signer_signature@.len() == 0
            &&& block.header.pox_treatment@ == seq![true]
            &&& block.txs@.len() == 0
            &&& forall|i: int|
                0 <= i < 32 ==> #[trigger] block.header.tx_merkle_root@[i] == 0
            &&& forall|i: int|
                0 <= i < 32 ==> #[trigger] block.header.state_index_root@[i] == 0
        },
        TenureCheck::begin(winner, sortition, config).after(
            Reply::<E>::ParentTenureChoice(Ok(false)),
        ) == Progress::<TenureCheck, Result<bool, E>>::Done(Ok(false)),
        TenureCheck::begin(winner, sortition, config).after(
            Reply::<E>::ParentTenureChoice(Err(error)),
        ) == Progress::<TenureCheck, Result<bool, E>>::Done(Err(error)),
{
}

/// Once the parent tenure is known to be an appropriate choice, a tenure check goes by the
/// sortition's own tenure: that one is valid unless more time than the timeout has passed
/// since its miner was active.
pub proof fn law_well_founded_tenure_is_valid_while_active<E>(
    winner: Winner,
    sortition: SortitionState,
    config: ProposalEvalConfig,
    received: u64,
    activity: Option<u64>,
    now: i128,
)
    ensures
        ({
            let tenure = sortition.consensus_hash;
            let since: int = match activity {
                Some(active) => active as int,
                None => received as int,
            };
            &&& TenureCheck::begin(winner, sortition, config).after(
                Reply::<E>::ParentTenureChoice(Ok(true)),
            ) matches Progress::Ask(founded)
            &&& forall|r: Request| #[trigger]
                founded.asks(r) <==> r == (Request::SignedBlockInTenure { tenure })
            &&& founded.after(Reply::<E>::SignedBlockInTenure(Ok(true))) == Progress::<
                TenureCheck,
                Result<bool, E>,
            >::Done(Ok(true))
            &&& founded.after(Reply::<E>::SignedBlockInTenure(Ok(false))) matches Progress::Ask(
                unsigned,
            )
            &&& forall|r: Request| #[trigger]
                unsigned.asks(r) <==> r == (Request::BurnBlockReceiveTime { tenure })
            &&& unsigned.after(Reply::<E>::BurnBlockReceiveTime(Ok(None))) == Progress::<
                TenureCheck,
                Result<bool, E>,
            >::Done(Ok(true))
            &&& unsigned.after(
                Reply::<E>::BurnBlockReceiveTime(Ok(Some(received))),
            ) matches Progress::Ask(dated)
            &&& forall|r: Request| #[trigger]
                dated.asks(r) <==> r == (Request::LastActivityTime { tenure })
            &&& dated.after(Reply::<E>::LastActivityTime(Ok(activity))) matches Progress::Ask(
                clocked,
            )
            &&& forall|r: Request| #[trigger] clocked.asks(r) <==> r == Request::CurrentTime
            &&& clocked.after(Reply::<E>::CurrentTime(now)) == Progress::<
                TenureCheck,
                Result<bool, E>,
            >::Done(Ok(now <= since * 1_000_000_000 + config.block_proposal_timeout))
        }),
{
}

/// A tenure check ends with an error as soon as it meets one.
pub proof fn law_tenure_check_passes_errors_on<E>(
    winner: Winner,
    sortition: SortitionState,
    config: ProposalEvalConfig,
    received: u64,
    error: E,
)
    ensures
        ({
            let failed = Progress::<TenureCheck, Result<bool, E>>::Done(Err(error));
            &&& TenureCheck::begin(winner, sortition, config).after(
                Reply::<E>::ParentTenureChoice(Ok(true)),
            ) matches Progress::Ask(founded)
            &&& founded.after(Reply::<E>::SignedBlockInTenure(Err(error))) == failed
            &&& founded.after(Reply::<E>::SignedBlockInTenure(Ok(false))) matches Progress::Ask(
                unsigned,
            )
            &&& unsigned.after(Reply::<E>::BurnBlockReceiveTime(Err(error))) == failed
            &&& unsigned.after(
                Reply::<E>::BurnBlockReceiveTime(Ok(Some(received))),
            ) matches Progress::Ask(dated)
            &&& dated.after(Reply::<E>::LastActivityTime(Err(error))) == failed
        }),
{
}

/// To make a miner of a sortition's winner, the node and then the database are asked for the
/// last block of the parent tenure that the sortition names. The miner has the key, the
/// tenure and the parent tenure of the sortition, and builds on the higher of the two blocks,
/// on the database's where they are equally high.
pub proof fn law_miner_is_the_sortitions_winner<E>(
    sortition: SortitionState,
    config: ProposalEvalConfig,
    node: Result<BlockTip, E>,
    signer_db: Option<BlockTip>,
)
    requires
        node is Ok || signer_db is Some,
    ensures
        ({
            let begun = MinerStateCall::begin(sortition, config);
            &&& forall|r: Request| #[trigger]
                begun.asks(r) <==> r == (Request::TenureTip { tenure: sortition.parent_tenure_id })
            &&& begun.after(Reply::<E>::TenureTip(node)) matches Progress::Ask(informed)
            &&& forall|r: Request| #[trigger]
                informed.asks(r) <==> r == (Request::TenureLastBlock {
                    tenure: sortition.parent_tenure_id,
                    tenure_last_block_proposal_timeout: config.tenure_last_block_proposal_timeout,
                })
            &&& informed.after(Reply::<E>::TenureLastBlock(Ok(signer_db))) matches Progress::Done(
                Ok(
                    MinerState::ActiveMiner {
                        current_miner_pkh,
                        tenure_id,
                        parent_tenure_id,
                        parent_tenure_last_block,
                        parent_tenure_last_block_height,
                    },
                ),
            )
            &&& current_miner_pkh == sortition.miner_pkh
            &&& tenure_id == sortition.consensus_hash
            &&& parent_tenure_id == sortition.parent_tenure_id
            &&& ({
                let block = BlockTip {
                    height: parent_tenure_last_block_height,
                    block_id: parent_tenure_last_block,
                };
                &&& node == Ok::<BlockTip, E>(block) || signer_db == Some(block)
                &&& node matches Ok(n) ==> n.height <= block.height
                &&& signer_db matches Some(s) ==> s.height <= block.height && (s.height
                    == block.height ==> s == block)
            })
        }),
{
}

/// No miner can be made if the database cannot be read, or if neither the node nor the
/// database knows a block of the parent tenure.
pub proof fn law_no_miner_without_parent_block<E>(
    sortition: SortitionState,
    config: ProposalEvalConfig,
    node: Result<BlockTip, E>,
    node_error: E,
    error: E,
)
    ensures
        MinerStateCall::begin(sortition, config).after(Reply::TenureTip(node)) matches Progress::Ask(
            informed,
        ) && informed.after(Reply::<E>::TenureLastBlock(Err(error))) == Progress::<
            MinerStateCall,
            Result<MinerState, SignerChainstateError<E>>,
        >::Done(Err(SignerChainstateError::Service(error))),
        MinerStateCall::begin(sortition, config).after(
            Reply::TenureTip(Err(node_error)),
        ) matches Progress::Ask(uninformed) && uninformed.after(
            Reply::<E>::TenureLastBlock(Ok(None)),
        ) == Progress::<MinerStateCall, Result<MinerState, SignerChainstateError<E>>>::Done(
            Err(SignerChainstateError::NoParentTenureInfo(sortition.parent_tenure_id)),
        ),
{
}

/// The last block of a tenure is one that the node or the database knows. Neither knows a
/// higher one, and where they know equally high ones it is the database's. There is none
/// if and only if neither knows one.
pub proof fn law_last_block_is_the_highest(node: Option<BlockTip>, signer_db: Option<BlockTip>)
    ensures
        match crate::miner::last_block(node, signer_db) {
            Some(block) => {
                &&& node == Some(block) || signer_db == Some(block)
                &&& node matches Some(n) ==> n.height <= block.height
                &&& signer_db matches Some(s) ==> s.height <= block.height && (s.height
                    == block.height ==> s == block)
            },
            None => node is None && signer_db is None,
        },
{
}

} // verus!
