//! The courses that a check on the current miner's activity takes: what it asks, when the
//! miner stays, and who succeeds it.

#![allow(unused_imports)]

use crate::calls::{Progress, Reply, Request, Winner};
use crate::chain::{BlockTip, ConsensusHash, ProposalEvalConfig, SortitionState};
use crate::errors::SignerChainstateError;
use crate::inactivity::{InactivityCheck, InactivityPhase};
use crate::messages::{
    StateMachineUpdateContent, StateMachineUpdateMessage, StateMachineUpdateMinerState,
};
use crate::miner::{MinerState, MinerStateCall};
use crate::signer_state::{
    Call, LocalStateMachine, Outcome, Settled, SignerStateMachine, Step,
};
use crate::tenure::TenureCheck;
use crate::timeout::TimeoutCheck;
use vstd::prelude::*;

verus! {

/// There is nothing to check on a machine that is not initialized, or that has no miner: the
/// check has ended with success, and no one is told.
pub proof fn law_no_check_without_active_miner<E>(
    machine: LocalStateMachine,
    config: ProposalEvalConfig,
)
    requires
        machine matches LocalStateMachine::Initialized(view) ==> view.current_miner
            is NoValidMiner,
    ensures
        machine.inactivity_check::<E>(config) == Step::<E>::Done(
            Outcome { result: Ok(()), update: None },
        ),
{
}

/// A check on the current miner's activity is about that miner's own tenure. It asks whether
/// a block was signed in it, when its burn block was received, when its miner was active last,
/// and for the time. Only if no block was signed in it, and more time than the timeout has
/// passed since the activity, or since the receipt where there was none, is the sortition
/// before the latest asked for; otherwise the check ends and nothing is changed.
pub proof fn law_check_is_on_current_miners_tenure<E>(
    view: SignerStateMachine,
    tenure_id: ConsensusHash,
    config: ProposalEvalConfig,
    received: u64,
    activity: Option<u64>,
    now: i128,
)
    requires
        view.current_miner matches MinerState::ActiveMiner { tenure_id: mined, .. } && mined
            == tenure_id,
    ensures
        ({
            let since: int = match activity {
                Some(active) => active as int,
                None => received as int,
            };
            let stays = Progress::<Call, Settled<E>>::Done(
                Settled {
                    machine: LocalStateMachine::Initialized(view),
                    outcome: Outcome { result: Ok(()), update: None },
                },
            );
            &&& LocalStateMachine::Initialized(view).inactivity_check::<E>(
                config,
            ) matches Progress::Ask(begun)
            &&& forall|r: Request| #[trigger]
                begun.asks(r) <==> r == (Request::SignedBlockInTenure { tenure: tenure_id })
            &&& begun.after(Reply::<E>::SignedBlockInTenure(Ok(true))) == stays
            &&& begun.after(Reply::<E>::SignedBlockInTenure(Ok(false))) matches Progress::Ask(
                unsigned,
            )
            &&& forall|r: Request| #[trigger]
                unsigned.asks(r) <==> r == (Request::BurnBlockReceiveTime { tenure: tenure_id })
            &&& unsigned.after(Reply::<E>::BurnBlockReceiveTime(Ok(None))) == stays
            &&& unsigned.after(
                Reply::<E>::BurnBlockReceiveTime(Ok(Some(received))),
            ) matches Progress::Ask(dated)
            &&& forall|r: Request| #[trigger]
                dated.asks(r) <==> r == (Request::LastActivityTime { tenure: tenure_id })
            &&& dated.after(Reply::<E>::LastActivityTime(Ok(activity))) matches Progress::Ask(
                clocked,
            )
            &&& forall|r: Request| #[trigger] clocked.asks(r) <==> r == Request::CurrentTime
            &&& if now - since * 1_000_000_000 > config.block_proposal_timeout {
                &&& clocked.after(Reply::<E>::CurrentTime(now)) matches Progress::Ask(inactive)
                &&& forall|r: Request| #[trigger] inactive.asks(r) <==> r == Request::LastSortition
            } else {
                clocked.after(Reply::<E>::CurrentTime(now)) == stays
            }
        }),
{
}

/// While it checks on the current miner's timeout, a check goes as the timeout check goes.
proof fn lemma_told_of_timeout<E>(check: InactivityCheck, told: Seq<Reply<E>>)
    requires
        check.phase is Timeout,
        crate::courses::timeout_told(check.phase->Timeout_0, told) is Some,
    ensures
        Call::InactivityCheck(check).after_all(told) == match crate::courses::timeout_told(
            check.phase->Timeout_0,
            told,
        )->0 {
            Progress::Ask(next) => Progress::<Call, Settled<E>>::Ask(
                Call::InactivityCheck(
                    InactivityCheck { phase: InactivityPhase::Timeout(next), ..check },
                ),
            ),
            Progress::Done(Ok(true)) => Progress::Ask(
                Call::InactivityCheck(
                    InactivityCheck { phase: InactivityPhase::LastSortition, ..check },
                ),
            ),
            Progress::Done(Ok(false)) => Progress::Done(
                Settled {
                    machine: LocalStateMachine::Initialized(check.state_machine),
                    outcome: Outcome { result: Ok(()), update: None },
                },
            ),
            Progress::Done(Err(e)) => Progress::Done(
                Settled {
                    machine: LocalStateMachine::Initialized(check.state_machine),
                    outcome: Outcome { result: Err(SignerChainstateError::Service(e)), update: None },
                },
            ),
        },
    decreases told.len(),
{
    reveal_with_fuel(Call::after_all, 2);
    if told.len() > 0 {
        let next = check.after(told.first());
        if check.phase->Timeout_0.after(told.first()) is Ask {
            lemma_told_of_timeout(next->Ask_0, told.drop_first());
        } else {
            assert(told.drop_first() == Seq::<Reply<E>>::empty());
        }
    }
}

/// While it checks on the tenure of the sortition before the latest, a check goes as the
/// tenure check goes.
proof fn lemma_told_of_last<E>(check: InactivityCheck, told: Seq<Reply<E>>)
    requires
        check.phase is LastTenure,
        crate::courses::tenure_told(check.phase->LastTenure_0, told) is Some,
    ensures
        Call::InactivityCheck(check).after_all(told) == match crate::courses::tenure_told(
            check.phase->LastTenure_0,
            told,
        )->0 {
            Progress::Ask(next) => Progress::<Call, Settled<E>>::Ask(
                Call::InactivityCheck(
                    InactivityCheck { phase: InactivityPhase::LastTenure(next), ..check },
                ),
            ),
            Progress::Done(Ok(true)) => Progress::Ask(
                Call::InactivityCheck(
                    InactivityCheck {
                        phase: InactivityPhase::Miner(
                            MinerStateCall::begin(
                                check.phase->LastTenure_0.sortition,
                                check.config,
                            ),
                        ),
                        ..check
                    },
                ),
            ),
            Progress::Done(Ok(false)) => Progress::Done(
                Settled {
                    machine: LocalStateMachine::Initialized(check.state_machine),
                    outcome: Outcome { result: Ok(()), update: None },
                },
            ),
            Progress::Done(Err(e)) => Progress::Done(
                Settled {
                    machine: LocalStateMachine::Initialized(check.state_machine),
                    outcome: Outcome { result: Err(SignerChainstateError::Service(e)), update: None },
                },
            ),
        },
    decreases told.len(),
{
    reveal_with_fuel(Call::after_all, 2);
    if told.len() > 0 {
        let next = check.after(told.first());
        if check.phase->LastTenure_0.after(told.first()) is Ask {
            lemma_told_of_last(next->Ask_0, told.drop_first());
        } else {
            assert(told.drop_first() == Seq::<Reply<E>>::empty());
        }
    }
}

/// Where a check stands once the current miner has timed out and the sortition before the
/// latest is known: at the check on that one's tenure.
proof fn lemma_successor_known<E>(
    view: SignerStateMachine,
    tenure_id: ConsensusHash,
    config: ProposalEvalConfig,
    told_of_timeout: Seq<Reply<E>>,
    last: SortitionState,
) -> (check: InactivityCheck)
    requires
        crate::courses::timeout_told(
            TimeoutCheck::begin(tenure_id, config.block_proposal_timeout),
            told_of_timeout,
        ) == Some(Progress::<TimeoutCheck, Result<bool, E>>::Done(Ok(true))),
    ensures
        Call::InactivityCheck(InactivityCheck::begin(view, tenure_id, config)).after_all(
            told_of_timeout + seq![Reply::<E>::LastSortition(Ok(Some(Ok(last))))],
        ) == Progress::<Call, Settled<E>>::Ask(Call::InactivityCheck(check)),
        check == (InactivityCheck {
            phase: InactivityPhase::LastTenure(TenureCheck::begin(Winner::Last, last, config)),
            ..InactivityCheck::begin(view, tenure_id, config)
        }),
{
    let begun = InactivityCheck::begin(view, tenure_id, config);
    let inactive = InactivityCheck { phase: InactivityPhase::LastSortition, ..begun };
    let told = Reply::<E>::LastSortition(Ok(Some(Ok(last))));
    lemma_told_of_timeout(begun, told_of_timeout);
    crate::courses::law_replies_are_taken_in_turn(
        Call::InactivityCheck(begun),
        told,
        told_of_timeout,
        seq![told],
    );
    crate::courses::law_replies_are_taken_in_turn(
        Call::InactivityCheck(inactive),
        told,
        told_of_timeout,
        seq![told],
    );
    InactivityCheck {
        phase: InactivityPhase::LastTenure(TenureCheck::begin(Winner::Last, last, config)),
        ..begun
    }
}

/// A miner that has timed out is succeeded by the winner of the sortition before the latest
/// if that one's tenure is valid. The new miner has the key, the tenure and the parent tenure
/// of that sortition, and builds on the higher of the blocks that the node and the database
/// know of that parent tenure. Nothing else in the view changes, and the other signers are
/// told of the changed view.
pub proof fn law_inactive_miner_is_succeeded<E>(
    view: SignerStateMachine,
    tenure_id: ConsensusHash,
    config: ProposalEvalConfig,
    told_of_timeout: Seq<Reply<E>>,
    last: SortitionState,
    told_of_last: Seq<Reply<E>>,
    node: Result<BlockTip, E>,
    signer_db: Option<BlockTip>,
)
    requires
        view.current_miner matches MinerState::ActiveMiner { tenure_id: mined, .. } && mined
            == tenure_id,
        crate::courses::timeout_told(
            TimeoutCheck::begin(tenure_id, config.block_proposal_timeout),
            told_of_timeout,
        ) == Some(Progress::<TimeoutCheck, Result<bool, E>>::Done(Ok(true))),
        crate::courses::tenure_told(
            TenureCheck::begin(Winner::Last, last, config),
            told_of_last,
        ) == Some(Progress::<TenureCheck, Result<bool, E>>::Done(Ok(true))),
        node is Ok || signer_db is Some,
    ensures
        ({
            let told = told_of_timeout + seq![Reply::LastSortition(Ok(Some(Ok(last))))]
                + told_of_last + seq![
                Reply::TenureTip(node),
                Reply::TenureLastBlock(Ok(signer_db)),
            ];
            &&& LocalStateMachine::Initialized(view).inactivity_check::<E>(
                config,
            ) matches Progress::Ask(begun)
            &&& begun.after_all(told) matches Progress::Done(settled)
            &&& settled.outcome.result is Ok
            &&& settled.machine matches LocalStateMachine::Initialized(changed)
            &&& changed.burn_block == view.burn_block
            &&& changed.burn_block_height == view.burn_block_height
            &&& changed.active_signer_protocol_version == view.active_signer_protocol_version
            &&& changed.current_miner matches MinerState::ActiveMiner {
                current_miner_pkh,
                tenure_id: new_tenure_id,
                parent_tenure_id,
                parent_tenure_last_block,
                parent_tenure_last_block_height,
            }
            &&& current_miner_pkh == last.miner_pkh
            &&& new_tenure_id == last.consensus_hash
            &&& parent_tenure_id == last.parent_tenure_id
            &&& ({
                let block = BlockTip {
                    height: parent_tenure_last_block_height,
                    block_id: parent_tenure_last_block,
                };
                &&& node == Ok::<BlockTip, E>(block) || signer_db == Some(block)
                &&& node matches Ok(n) ==> n.height <= block.height
                &&& signer_db matches Some(s) ==> s.height <= block.height && (s.height
                    == block.height ==> s == block)
            })
            &&& settled.outcome.update == Some(
                StateMachineUpdateMessage {
                    active_signer_protocol_version: view.active_signer_protocol_version,
                    local_supported_signer_protocol_version: 0,
                    content: StateMachineUpdateContent::V0 {
                        burn_block: view.burn_block,
                        burn_block_height: view.burn_block_height,
                        current_miner: StateMachineUpdateMinerState::ActiveMiner {
                            current_miner_pkh,
                            tenure_id: new_tenure_id,
                            parent_tenure_id,
                            parent_tenure_last_block,
                            parent_tenure_last_block_height,
                        },
                    },
                },
            )
        }),
{
    let begun = InactivityCheck::begin(view, tenure_id, config);
    let call = Call::InactivityCheck(begun);
    let known = lemma_successor_known(view, tenure_id, config, told_of_timeout, last);
    let by_node = Reply::<E>::TenureTip(node);
    let by_db = Reply::<E>::TenureLastBlock(Ok(signer_db));
    let told = told_of_timeout + seq![Reply::<E>::LastSortition(Ok(Some(Ok(last))))];
    crate::courses::law_replies_are_taken_in_turn(call, by_node, told, told_of_last);
    lemma_told_of_last(known, told_of_last);
    crate::courses::law_replies_are_taken_in_turn(
        call,
        by_node,
        told + told_of_last,
        seq![by_node, by_db],
    );
    reveal_with_fuel(Call::after_all, 3);
    assert(seq![by_node, by_db].drop_first() == seq![by_db]);
}

/// Once the current miner has timed out, a check asks what the check on the tenure of the
/// sortition before the latest asks; and if that tenure is valid, it asks the node and then
/// the database for the last block of the parent tenure that this sortition names.
pub proof fn law_successor_is_checked<E>(
    view: SignerStateMachine,
    tenure_id: ConsensusHash,
    config: ProposalEvalConfig,
    told_of_timeout: Seq<Reply<E>>,
    last: SortitionState,
    told_of_last: Seq<Reply<E>>,
    node: Result<BlockTip, E>,
)
    requires
        view.current_miner matches MinerState::ActiveMiner { tenure_id: mined, .. } && mined
            == tenure_id,
        crate::courses::timeout_told(
            TimeoutCheck::begin(tenure_id, config.block_proposal_timeout),
            told_of_timeout,
        ) == Some(Progress::<TimeoutCheck, Result<bool, E>>::Done(Ok(true))),
    ensures
        ({
            let told = told_of_timeout + seq![Reply::LastSortition(Ok(Some(Ok(last))))]
                + told_of_last;
            let of_last = crate::courses::tenure_told(
                TenureCheck::begin(Winner::Last, last, config),
                told_of_last,
            );
            &&& LocalStateMachine::Initialized(view).inactivity_check::<E>(
                config,
            ) matches Progress::Ask(begun)
            &&& of_last matches Some(Progress::Ask(check)) ==> {
                &&& begun.after_all(told) matches Progress::Ask(next)
                &&& forall|r: Request| #[trigger] next.asks(r) <==> check.asks(r)
            }
            &&& of_last matches Some(Progress::Done(Ok(true))) ==> {
                &&& begun.after_all(told) matches Progress::Ask(found)
                &&& forall|r: Request| #[trigger]
                    found.asks(r) <==> r == (Request::TenureTip { tenure: last.parent_tenure_id })
                &&& found.after(Reply::TenureTip(node)) matches Progress::Ask(informed)
                &&& forall|r: Request| #[trigger]
                    informed.asks(r) <==> r == (Request::TenureLastBlock {
                        tenure: last.parent_tenure_id,
                        tenure_last_block_proposal_timeout: config.tenure_last_block_proposal_timeout,
                    })
            }
        }),
{
    let call = Call::InactivityCheck(InactivityCheck::begin(view, tenure_id, config));
    let known = lemma_successor_known(view, tenure_id, config, told_of_timeout, last);
    let reply = Reply::<E>::LastSortition(Ok(Some(Ok(last))));
    crate::courses::law_replies_are_taken_in_turn(
        call,
        reply,
        told_of_timeout + seq![reply],
        told_of_last,
    );
    if crate::courses::tenure_told(
        TenureCheck::begin(Winner::Last, last, config),
        told_of_last,
    ) is Some {
        lemma_told_of_last(known, told_of_last);
    }
}

/// A miner that has timed out stays nevertheless if there is no sortition before the latest,
/// if that one could not be read, or if its tenure is not valid. Then the check succeeds,
/// nothing changes, and no one is told.
pub proof fn law_inactive_miner_stays_without_successor<E>(
    view: SignerStateMachine,
    tenure_id: ConsensusHash,
    config: ProposalEvalConfig,
    told_of_timeout: Seq<Reply<E>>,
    unreadable: Option<Result<SortitionState, E>>,
    last: SortitionState,
    told_of_last: Seq<Reply<E>>,
)
    requires
        view.current_miner matches MinerState::ActiveMiner { tenure_id: mined, .. } && mined
            == tenure_id,
        crate::courses::timeout_told(
            TimeoutCheck::begin(tenure_id, config.block_proposal_timeout),
            told_of_timeout,
        ) == Some(Progress::<TimeoutCheck, Result<bool, E>>::Done(Ok(true))),
    ensures
        ({
            let stays = Progress::<Call, Settled<E>>::Done(
                Settled {
                    machine: LocalStateMachine::Initialized(view),
                    outcome: Outcome { result: Ok(()), update: None },
                },
            );
            &&& LocalStateMachine::Initialized(view).inactivity_check::<E>(
                config,
            ) matches Progress::Ask(begun)
            &&& !(unreadable matches Some(Ok(_))) ==> begun.after_all(
                told_of_timeout + seq![Reply::LastSortition(Ok(unreadable))],
            ) == stays
            &&& crate::courses::tenure_told(
                TenureCheck::begin(Winner::Last, last, config),
                told_of_last,
            ) == Some(Progress::<TenureCheck, Result<bool, E>>::Done(Ok(false)))
                ==> begun.after_all(
                told_of_timeout + seq![Reply::LastSortition(Ok(Some(Ok(last))))] + told_of_last,
            ) == stays
        }),
{
    let begun = InactivityCheck::begin(view, tenure_id, config);
    let call = Call::InactivityCheck(begun);
    let inactive = Call::InactivityCheck(
        InactivityCheck { phase: InactivityPhase::LastSortition, ..begun },
    );
    let missing = Reply::<E>::LastSortition(Ok(unreadable));
    lemma_told_of_timeout(begun, told_of_timeout);
    crate::courses::law_replies_are_taken_in_turn(call, missing, told_of_timeout, seq![missing]);
    crate::courses::law_replies_are_taken_in_turn(
        inactive,
        missing,
        told_of_timeout,
        seq![missing],
    );
    let known = lemma_successor_known(view, tenure_id, config, told_of_timeout, last);
    let reply = Reply::<E>::LastSortition(Ok(Some(Ok(last))));
    crate::courses::law_replies_are_taken_in_turn(
        call,
        reply,
        told_of_timeout + seq![reply],
        told_of_last,
    );
    if crate::courses::tenure_told(
        TenureCheck::begin(Winner::Last, last, config),
        told_of_last,
    ) is Some {
        lemma_told_of_last(known, told_of_last);
    }
}

/// A check that meets an error ends with it, or with the error that no block of the parent
/// tenure is known where that is so; the machine keeps its view, and no one is told.
pub proof fn law_check_fails_with_first_error<E>(
    view: SignerStateMachine,
    tenure_id: ConsensusHash,
    config: ProposalEvalConfig,
    told_of_timeout: Seq<Reply<E>>,
    last: SortitionState,
    told_of_last: Seq<Reply<E>>,
    node: Result<BlockTip, E>,
    error: E,
)
    requires
        view.current_miner matches MinerState::ActiveMiner { tenure_id: mined, .. } && mined
            == tenure_id,
    ensures
        ({
            let failed = Progress::<Call, Settled<E>>::Done(
                Settled {
                    machine: LocalStateMachine::Initialized(view),
                    outcome: Outcome {
                        result: Err(SignerChainstateError::Service(error)),
                        update: None,
                    },
                },
            );
            let unfounded = Progress::<Call, Settled<E>>::Done(
                Settled {
                    machine: LocalStateMachine::Initialized(view),
                    outcome: Outcome {
                        result: Err(
                            SignerChainstateError::NoParentTenureInfo(last.parent_tenure_id),
                        ),
                        update: None,
                    },
                },
            );
            let of_timeout = crate::courses::timeout_told(
                TimeoutCheck::begin(tenure_id, config.block_proposal_timeout),
                told_of_timeout,
            );
            let of_last = crate::courses::tenure_told(
                TenureCheck::begin(Winner::Last, last, config),
                told_of_last,
            );
            let told = told_of_timeout + seq![Reply::LastSortition(Ok(Some(Ok(last))))]
                + told_of_last;
            &&& LocalStateMachine::Initialized(view).inactivity_check::<E>(
                config,
            ) matches Progress::Ask(begun)
            &&& of_timeout == Some(Progress::<TimeoutCheck, Result<bool, E>>::Done(Err(error)))
                ==> begun.after_all(told_of_timeout) == failed
            &&& of_timeout == Some(Progress::<TimeoutCheck, Result<bool, E>>::Done(Ok(true))) ==> {
                &&& begun.after_all(
                    told_of_timeout + seq![Reply::LastSortition(Err(error))],
                ) == failed
                &&& of_last == Some(Progress::<TenureCheck, Result<bool, E>>::Done(Err(error)))
                    ==> begun.after_all(told) == failed
                &&& of_last == Some(Progress::<TenureCheck, Result<bool, E>>::Done(Ok(true))) ==> {
                    &&& begun.after_all(told) matches Progress::Ask(found)
                    &&& found.after(Reply::TenureTip(node)) matches Progress::Ask(informed)
                    &&& informed.after(Reply::<E>::TenureLastBlock(Err(error))) == failed
                    &&& node is Err ==> informed.after(Reply::<E>::TenureLastBlock(Ok(None)))
                        == unfounded
                }
            }
        }),
{
    let begun = InactivityCheck::begin(view, tenure_id, config);
    let call = Call::InactivityCheck(begun);
    let inactive = Call::InactivityCheck(
        InactivityCheck { phase: InactivityPhase::LastSortition, ..begun },
    );
    let of_timeout = crate::courses::timeout_told(
        TimeoutCheck::begin(tenure_id, config.block_proposal_timeout),
        told_of_timeout,
    );
    if of_timeout is Some {
        lemma_told_of_timeout(begun, told_of_timeout);
    }
    if of_timeout == Some(Progress::<TimeoutCheck, Result<bool, E>>::Done(Ok(true))) {
        let erred = Reply::<E>::LastSortition(Err(error));
        let reply = Reply::<E>::LastSortition(Ok(Some(Ok(last))));
        crate::courses::law_replies_are_taken_in_turn(call, erred, told_of_timeout, seq![erred]);
        crate::courses::law_replies_are_taken_in_turn(
            inactive,
            erred,
            told_of_timeout,
            seq![erred],
        );
        let known = lemma_successor_known(view, tenure_id, config, told_of_timeout, last);
        crate::courses::law_replies_are_taken_in_turn(
            call,
            reply,
            told_of_timeout + seq![reply],
            told_of_last,
        );
        if crate::courses::tenure_told(
            TenureCheck::begin(Winner::Last, last, config),
            told_of_last,
        ) is Some {
            lemma_told_of_last(known, told_of_last);
        }
    }
}

} // verus!
