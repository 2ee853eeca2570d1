//! The courses that calls take: what they are told, what they ask next, and how they end.

#![allow(unused_imports)]

use crate::arrival::{ArrivalPhase, BitcoinBlockArrival};
use crate::calls::{Progress, Reply, Request, Winner};
use crate::chain::{
    BlockTip, ConsensusHash, CurrentAndLastSortition, PeerInfo, ProposalEvalConfig, SortitionState,
};
use crate::errors::{ClientError, InvalidResponse, SignerChainstateError};
use crate::messages::{
    StateMachineUpdateContent, StateMachineUpdateMessage, StateMachineUpdateMinerState,
};
use crate::miner::{MinerState, MinerStateCall};
use crate::signer_state::{
    Call, LocalStateMachine, Outcome, Settled, SignerStateMachine, StateMachineUpdate,
};
use crate::tenure::TenureCheck;
use crate::timeout::TimeoutCheck;
use vstd::prelude::*;

verus! {

/// Where a timeout check stands once it was told `told`; `None` if it ended before the last
/// of it.
pub open spec fn timeout_told<E>(check: TimeoutCheck, told: Seq<Reply<E>>) -> Option<
    Progress<TimeoutCheck, Result<bool, E>>,
>
    decreases told.len(),
{
    if told.len() == 0 {
        Some(Progress::Ask(check))
    } else {
        match check.after(told.first()) {
            Progress::Ask(next) => timeout_told(next, told.drop_first()),
            Progress::Done(verdict) => if told.len() == 1 {
                Some(Progress::Done(verdict))
            } else {
                None
            },
        }
    }
}

/// Where a tenure check stands once it was told `told`; `None` if it ended before the last
/// of it.
pub open spec fn tenure_told<E>(check: TenureCheck, told: Seq<Reply<E>>) -> Option<
    Progress<TenureCheck, Result<bool, E>>,
>
    decreases told.len(),
{
    if told.len() == 0 {
        Some(Progress::Ask(check))
    } else {
        match check.after(told.first()) {
            Progress::Ask(next) => tenure_told(next, told.drop_first()),
            Progress::Done(verdict) => if told.len() == 1 {
                Some(Progress::Done(verdict))
            } else {
                None
            },
        }
    }
}

/// A timeout check that was told nothing stands where it began; told one reply more, it
/// stands where that reply takes it from where it stood, if it had not ended.
pub proof fn law_timeout_told_one_reply_more<E>(
    check: TimeoutCheck,
    told: Seq<Reply<E>>,
    reply: Reply<E>,
)
    ensures
        timeout_told(check, Seq::<Reply<E>>::empty()) == Some(
            Progress::<TimeoutCheck, Result<bool, E>>::Ask(check),
        ),
        timeout_told(check, told.push(reply)) == match timeout_told(check, told) {
            Some(Progress::Ask(next)) => Some(next.after(reply)),
            _ => None,
        },
    decreases told.len(),
{
    reveal_with_fuel(timeout_told, 2);
    if told.len() == 0 {
        assert(told.push(reply).drop_first() == Seq::<Reply<E>>::empty());
    } else {
        assert(told.push(reply).first() == told.first());
        assert(told.push(reply).drop_first() == told.drop_first().push(reply));
        if let Progress::Ask(next) = check.after(told.first()) {
            law_timeout_told_one_reply_more(next, told.drop_first(), reply);
        }
    }
}

/// A tenure check that was told nothing stands where it began; told one reply more, it
/// stands where that reply takes it from where it stood, if it had not ended.
pub proof fn law_tenure_told_one_reply_more<E>(
    check: TenureCheck,
    told: Seq<Reply<E>>,
    reply: Reply<E>,
)
    ensures
        tenure_told(check, Seq::<Reply<E>>::empty()) == Some(
            Progress::<TenureCheck, Result<bool, E>>::Ask(check),
        ),
        tenure_told(check, told.push(reply)) == match tenure_told(check, told) {
            Some(Progress::Ask(next)) => Some(next.after(reply)),
            _ => None,
        },
    decreases told.len(),
{
    reveal_with_fuel(tenure_told, 2);
    if told.len() == 0 {
        assert(told.push(reply).drop_first() == Seq::<Reply<E>>::empty());
    } else {
        assert(told.push(reply).first() == told.first());
        assert(told.push(reply).drop_first() == told.drop_first().push(reply));
        if let Progress::Ask(next) = check.after(told.first()) {
            law_tenure_told_one_reply_more(next, told.drop_first(), reply);
        }
    }
}

/// A timeout check that was told of no signed block, of the receipt, of the activity and of
/// the time ends with whether more time than the timeout has passed; one that was told of a
/// signed block, or of no receipt, ends with no timeout.
pub proof fn law_timeout_verdicts<E>(
    tenure: ConsensusHash,
    timeout: u128,
    received: u64,
    activity: Option<u64>,
    now: i128,
)
    ensures
        timeout_told(
            TimeoutCheck::begin(tenure, timeout),
            seq![
                Reply::<E>::SignedBlockInTenure(Ok(false)),
                Reply::BurnBlockReceiveTime(Ok(Some(received))),
                Reply::LastActivityTime(Ok(activity)),
                Reply::CurrentTime(now),
            ],
        ) == Some(
            Progress::<TimeoutCheck, Result<bool, E>>::Done(
                Ok(
                    now - 1_000_000_000 * (match activity {
                        Some(active) => active,
                        None => received,
                    }) > timeout,
                ),
            ),
        ),
        timeout_told(
            TimeoutCheck::begin(tenure, timeout),
            seq![Reply::<E>::SignedBlockInTenure(Ok(true))],
        ) == Some(Progress::<TimeoutCheck, Result<bool, E>>::Done(Ok(false))),
        timeout_told(
            TimeoutCheck::begin(tenure, timeout),
            seq![
                Reply::<E>::SignedBlockInTenure(Ok(false)),
                Reply::BurnBlockReceiveTime(Ok(None)),
            ],
        ) == Some(Progress::<TimeoutCheck, Result<bool, E>>::Done(Ok(false))),
{
    let signed = Reply::<E>::SignedBlockInTenure(Ok(false));
    let dated = Reply::<E>::BurnBlockReceiveTime(Ok(Some(received)));
    let active = Reply::<E>::LastActivityTime(Ok(activity));
    let clock = Reply::<E>::CurrentTime(now);
    let undated = Reply::<E>::BurnBlockReceiveTime(Ok(None));
    reveal_with_fuel(timeout_told, 5);
    assert(seq![signed, dated, active, clock].drop_first() == seq![dated, active, clock]);
    assert(seq![dated, active, clock].drop_first() == seq![active, clock]);
    assert(seq![active, clock].drop_first() == seq![clock]);
    assert(seq![signed, undated].drop_first() == seq![undated]);
}

/// A tenure check that was told of an appropriate parent, of no signed block, of the receipt,
/// of the activity and of the time ends with whether no more time than the timeout has
/// passed. One that was told of a parent that is not appropriate ends with an invalid tenure;
/// one that was told of an appropriate parent, and of a signed block or of no receipt, ends
/// with a valid one.
pub proof fn law_tenure_verdicts<E>(
    winner: Winner,
    sortition: SortitionState,
    config: ProposalEvalConfig,
    received: u64,
    activity: Option<u64>,
    now: i128,
)
    ensures
        tenure_told(
            TenureCheck::begin(winner, sortition, config),
            seq![
                Reply::<E>::ParentTenureChoice(Ok(true)),
                Reply::SignedBlockInTenure(Ok(false)),
                Reply::BurnBlockReceiveTime(Ok(Some(received))),
                Reply::LastActivityTime(Ok(activity)),
                Reply::CurrentTime(now),
            ],
        ) == Some(
            Progress::<TenureCheck, Result<bool, E>>::Done(
                Ok(
                    now - 1_000_000_000 * (match activity {
                        Some(active) => active,
                        None => received,
                    }) <= config.block_proposal_timeout,
                ),
            ),
        ),
        tenure_told(
            TenureCheck::begin(winner, sortition, config),
            seq![Reply::<E>::ParentTenureChoice(Ok(false))],
        ) == Some(Progress::<TenureCheck, Result<bool, E>>::Done(Ok(false))),
        tenure_told(
            TenureCheck::begin(winner, sortition, config),
            seq![Reply::<E>::ParentTenureChoice(Ok(true)), Reply::SignedBlockInTenure(Ok(true))],
        ) == Some(Progress::<TenureCheck, Result<bool, E>>::Done(Ok(true))),
        tenure_told(
            TenureCheck::begin(winner, sortition, config),
            seq![
                Reply::<E>::ParentTenureChoice(Ok(true)),
                Reply::SignedBlockInTenure(Ok(false)),
                Reply::BurnBlockReceiveTime(Ok(None)),
            ],
        ) == Some(Progress::<TenureCheck, Result<bool, E>>::Done(Ok(true))),
{
    let founded = Reply::<E>::ParentTenureChoice(Ok(true));
    let signed = Reply::<E>::SignedBlockInTenure(Ok(true));
    let unsigned = Reply::<E>::SignedBlockInTenure(Ok(false));
    let dated = Reply::<E>::BurnBlockReceiveTime(Ok(Some(received)));
    let active = Reply::<E>::LastActivityTime(Ok(activity));
    let clock = Reply::<E>::CurrentTime(now);
    let undated = Reply::<E>::BurnBlockReceiveTime(Ok(None));
    reveal_with_fuel(tenure_told, 6);
    assert(seq![founded, unsigned, dated, active, clock].drop_first() == seq![
        unsigned,
        dated,
        active,
        clock,
    ]);
    assert(seq![unsigned, dated, active, clock].drop_first() == seq![dated, active, clock]);
    assert(seq![dated, active, clock].drop_first() == seq![active, clock]);
    assert(seq![active, clock].drop_first() == seq![clock]);
    assert(seq![founded, signed].drop_first() == seq![signed]);
    assert(seq![founded, unsigned, undated].drop_first() == seq![unsigned, undated]);
    assert(seq![unsigned, undated].drop_first() == seq![undated]);
}

/// To go on with replies in turn is to go on with the first of them, and then with the
/// others. A call that has ended takes no more.
pub proof fn law_replies_are_taken_in_turn<E>(
    call: Call,
    reply: Reply<E>,
    first: Seq<Reply<E>>,
    rest: Seq<Reply<E>>,
)
    ensures
        call.after_all(Seq::<Reply<E>>::empty()) == Progress::<Call, Settled<E>>::Ask(call),
        call.after_all(seq![reply]) == call.after(reply),
        call.after_all(first + rest) == match call.after_all(first) {
            Progress::Ask(next) => next.after_all(rest),
            Progress::Done(settled) => Progress::Done(settled),
        },
    decreases first.len(),
{
    reveal_with_fuel(Call::after_all, 2);
    assert(seq![reply].drop_first() == Seq::<Reply<E>>::empty());
    if first.len() == 0 {
        assert(first + rest == rest);
    } else {
        assert((first + rest).first() == first.first());
        assert((first + rest).drop_first() == first.drop_first() + rest);
        if let Progress::Ask(next) = call.after(first.first()) {
            law_replies_are_taken_in_turn(next, reply, first.drop_first(), rest);
        }
    }
}

/// The arrival of a burn block first asks for the node's burn chain tip. If that is below the
/// height that was expected, or below the one that the machine was waiting for, the machine
/// comes to wait for the higher of the two and keeps its last view; it says that the node is
/// not ready, and tells no one. Otherwise the two sortitions are asked for.
pub proof fn law_arrival_waits_while_node_is_behind<E>(
    prior: LocalStateMachine,
    expected: Option<u64>,
    config: ProposalEvalConfig,
    tip: PeerInfo,
)
    ensures
        ({
            let call = Call::BitcoinBlockArrival(
                BitcoinBlockArrival::begin(prior, expected, config),
            );
            let below_expected = expected matches Some(height) && tip.burn_block_height < height;
            let below_pending = prior matches LocalStateMachine::Pending {
                update: StateMachineUpdate::BurnBlock(height),
                ..
            } && tip.burn_block_height < height;
            &&& forall|r: Request| #[trigger] call.asks(r) <==> r == Request::PeerInfo
            &&& if below_expected || below_pending {
                &&& call.after(Reply::<E>::PeerInfo(Ok(tip))) matches Progress::Done(settled)
                &&& settled.outcome.result == Err::<(), SignerChainstateError<E>>(
                    SignerChainstateError::ClientError(
                        ClientError::InvalidResponse(InvalidResponse::BurnBlockNotProcessed),
                    ),
                )
                &&& settled.outcome.update is None
                &&& settled.machine matches LocalStateMachine::Pending {
                    update: StateMachineUpdate::BurnBlock(awaited),
                    prior: kept,
                }
                &&& match (expected, prior) {
                    (
                        Some(height),
                        LocalStateMachine::Pending {
                            update: StateMachineUpdate::BurnBlock(pending),
                            ..
                        },
                    ) => {
                        &&& awaited == height || awaited == pending
                        &&& height <= awaited
                        &&& pending <= awaited
                    },
                    (
                        None,
                        LocalStateMachine::Pending {
                            update: StateMachineUpdate::BurnBlock(pending),
                            ..
                        },
                    ) => awaited == pending,
                    (Some(height), _) => awaited == height,
                    (None, _) => false,
                }
                &&& match prior {
                    LocalStateMachine::Uninitialized => {
                        &&& forall|i: int| 0 <= i < 20 ==> #[trigger] kept.burn_block.0@[i] == 0
                        &&& kept.burn_block_height == 0
                        &&& kept.current_miner == MinerState::NoValidMiner
                        &&& kept.active_signer_protocol_version == 0
                    },
                    LocalStateMachine::Initialized(view) => kept == view,
                    LocalStateMachine::Pending { prior: view, .. } => kept == view,
                }
            } else {
                &&& call.after(Reply::<E>::PeerInfo(Ok(tip))) matches Progress::Ask(informed)
                &&& forall|r: Request| #[trigger]
                    informed.asks(r) <==> r == Request::CurrentAndLastSortition
            }
        }),
{
}

/// Where an arrival stands once it knows the node's tip, which is high enough, and the two
/// sortitions: at the check on the latest one.
proof fn lemma_arrival_informed<E>(
    prior: LocalStateMachine,
    expected: Option<u64>,
    config: ProposalEvalConfig,
    tip: PeerInfo,
    current: SortitionState,
    last: SortitionState,
) -> (arrival: BitcoinBlockArrival)
    requires
        expected matches Some(height) ==> height <= tip.burn_block_height,
        prior matches LocalStateMachine::Pending {
            update: StateMachineUpdate::BurnBlock(height),
            ..
        } ==> height <= tip.burn_block_height,
    ensures
        Call::BitcoinBlockArrival(BitcoinBlockArrival::begin(prior, expected, config)).after_all(
            seq![
                Reply::<E>::PeerInfo(Ok(tip)),
                Reply::CurrentAndLastSortition(
                    Ok(
                        CurrentAndLastSortition {
                            current_sortition: Ok(current),
                            last_sortition: Some(Ok(last)),
                        },
                    ),
                ),
            ],
        ) == Progress::<Call, Settled<E>>::Ask(Call::BitcoinBlockArrival(arrival)),
        arrival == (BitcoinBlockArrival {
            phase: ArrivalPhase::CurrentTenure {
                peer_info: tip,
                last,
                check: TenureCheck::begin(Winner::Current, current, config),
            },
            ..BitcoinBlockArrival::begin(prior, expected, config)
        }),
{
    let told = Reply::<E>::PeerInfo(Ok(tip));
    let both = Reply::<E>::CurrentAndLastSortition(
        Ok(
            CurrentAndLastSortition {
                current_sortition: Ok(current),
                last_sortition: Some(Ok(last)),
            },
        ),
    );
    reveal_with_fuel(Call::after_all, 3);
    assert(seq![told, both].drop_first() == seq![both]);
    assert(seq![both].drop_first() == Seq::<Reply<E>>::empty());
    BitcoinBlockArrival {
        phase: ArrivalPhase::CurrentTenure {
            peer_info: tip,
            last,
            check: TenureCheck::begin(Winner::Current, current, config),
        },
        ..BitcoinBlockArrival::begin(prior, expected, config)
    }
}

/// In the phase that checks the latest sortition, an arrival goes as the check goes.
proof fn lemma_arrival_told_of_current<E>(arrival: BitcoinBlockArrival, told: Seq<Reply<E>>)
    requires
        arrival.phase is CurrentTenure,
        tenure_told(arrival.phase->CurrentTenure_check, told) is Some,
    ensures
        Call::BitcoinBlockArrival(arrival).after_all(told) == match tenure_told(
            arrival.phase->CurrentTenure_check,
            told,
        )->0 {
            Progress::Ask(check) => Progress::<Call, Settled<E>>::Ask(
                Call::BitcoinBlockArrival(
                    BitcoinBlockArrival {
                        phase: ArrivalPhase::CurrentTenure {
                            peer_info: arrival.phase->CurrentTenure_peer_info,
                            last: arrival.phase->last,
                            check,
                        },
                        ..arrival
                    },
                ),
            ),
            Progress::Done(Ok(true)) => Progress::Ask(
                Call::BitcoinBlockArrival(
                    BitcoinBlockArrival {
                        phase: ArrivalPhase::Miner {
                            peer_info: arrival.phase->CurrentTenure_peer_info,
                            call: MinerStateCall::begin(
                                arrival.phase->CurrentTenure_check.sortition,
                                arrival.config,
                            ),
                        },
                        ..arrival
                    },
                ),
            ),
            Progress::Done(Ok(false)) => Progress::Ask(
                Call::BitcoinBlockArrival(
                    BitcoinBlockArrival {
                        phase: ArrivalPhase::LastTenure {
                            peer_info: arrival.phase->CurrentTenure_peer_info,
                            check: TenureCheck::begin(
                                Winner::Last,
                                arrival.phase->last,
                                arrival.config,
                            ),
                        },
                        ..arrival
                    },
                ),
            ),
            Progress::Done(Err(e)) => Progress::Done(
                Settled {
                    machine: LocalStateMachine::Uninitialized,
                    outcome: Outcome { result: Err(SignerChainstateError::Service(e)), update: None },
                },
            ),
        },
    decreases told.len(),
{
    reveal_with_fuel(Call::after_all, 2);
    if told.len() > 0 {
        let next = arrival.after(told.first());
        if arrival.phase->CurrentTenure_check.after(told.first()) is Ask {
            lemma_arrival_told_of_current(next->Ask_0, told.drop_first());
        } else {
            assert(told.drop_first() == Seq::<Reply<E>>::empty());
        }
    }
}

/// In the phase that checks the sortition before the latest, an arrival goes as the check
/// goes, up to a verdict by which a miner is to be made, or to an error.
proof fn lemma_arrival_told_of_last<E>(arrival: BitcoinBlockArrival, told: Seq<Reply<E>>)
    requires
        arrival.phase is LastTenure,
        tenure_told(arrival.phase->LastTenure_check, told) is Some,
    ensures
        Call::BitcoinBlockArrival(arrival).after_all(told) == match tenure_told(
            arrival.phase->LastTenure_check,
            told,
        )->0 {
            Progress::Ask(check) => Progress::<Call, Settled<E>>::Ask(
                Call::BitcoinBlockArrival(
                    BitcoinBlockArrival {
                        phase: ArrivalPhase::LastTenure {
                            peer_info: arrival.phase->LastTenure_peer_info,
                            check,
                        },
                        ..arrival
                    },
                ),
            ),
            Progress::Done(Ok(true)) => Progress::Ask(
                Call::BitcoinBlockArrival(
                    BitcoinBlockArrival {
                        phase: ArrivalPhase::Miner {
                            peer_info: arrival.phase->LastTenure_peer_info,
                            call: MinerStateCall::begin(
                                arrival.phase->LastTenure_check.sortition,
                                arrival.config,
                            ),
                        },
                        ..arrival
                    },
                ),
            ),
            Progress::Done(Ok(false)) => Progress::Done(
                arrival.with_miner(arrival.phase->LastTenure_peer_info, MinerState::NoValidMiner),
            ),
            Progress::Done(Err(e)) => Progress::Done(
                Settled {
                    machine: LocalStateMachine::Uninitialized,
                    outcome: Outcome { result: Err(SignerChainstateError::Service(e)), update: None },
                },
            ),
        },
    decreases told.len(),
{
    reveal_with_fuel(Call::after_all, 2);
    if told.len() > 0 {
        let next = arrival.after(told.first());
        if arrival.phase->LastTenure_check.after(told.first()) is Ask {
            lemma_arrival_told_of_last(next->Ask_0, told.drop_first());
        } else {
            assert(told.drop_first() == Seq::<Reply<E>>::empty());
        }
    }
}

/// Where an arrival stands once it was told of the two sortitions' tenures, and one of them
/// is valid: at the making of its winner's miner state.
proof fn lemma_arrival_winner_found<E>(
    prior: LocalStateMachine,
    expected: Option<u64>,
    config: ProposalEvalConfig,
    tip: PeerInfo,
    current: SortitionState,
    last: SortitionState,
    winner: Winner,
    told_of_current: Seq<Reply<E>>,
    told_of_last: Seq<Reply<E>>,
) -> (arrival: BitcoinBlockArrival)
    requires
        expected matches Some(height) ==> height <= tip.burn_block_height,
        prior matches LocalStateMachine::Pending {
            update: StateMachineUpdate::BurnBlock(height),
            ..
        } ==> height <= tip.burn_block_height,
        tenure_told(TenureCheck::begin(Winner::Current, current, config), told_of_current) == Some(
            Progress::<TenureCheck, Result<bool, E>>::Done(Ok(winner == Winner::Current)),
        ),
        match winner {
            Winner::Current => told_of_last.len() == 0,
            Winner::Last => tenure_told(
                TenureCheck::begin(Winner::Last, last, config),
                told_of_last,
            ) == Some(Progress::<TenureCheck, Result<bool, E>>::Done(Ok(true))),
        },
    ensures
        Call::BitcoinBlockArrival(BitcoinBlockArrival::begin(prior, expected, config)).after_all(
            seq![
                Reply::<E>::PeerInfo(Ok(tip)),
                Reply::CurrentAndLastSortition(
                    Ok(
                        CurrentAndLastSortition {
                            current_sortition: Ok(current),
                            last_sortition: Some(Ok(last)),
                        },
                    ),
                ),
            ] + told_of_current + told_of_last,
        ) == Progress::<Call, Settled<E>>::Ask(Call::BitcoinBlockArrival(arrival)),
        arrival == (BitcoinBlockArrival {
            phase: ArrivalPhase::Miner {
                peer_info: tip,
                call: MinerStateCall::begin(
                    if winner == Winner::Current {
                        current
                    } else {
                        last
                    },
                    config,
                ),
            },
            ..BitcoinBlockArrival::begin(prior, expected, config)
        }),
{
    let call = Call::BitcoinBlockArrival(BitcoinBlockArrival::begin(prior, expected, config));
    let known = seq![
        Reply::<E>::PeerInfo(Ok(tip)),
        Reply::CurrentAndLastSortition(
            Ok(
                CurrentAndLastSortition {
                    current_sortition: Ok(current),
                    last_sortition: Some(Ok(last)),
                },
            ),
        ),
    ];
    let informed = lemma_arrival_informed::<E>(prior, expected, config, tip, current, last);
    law_replies_are_taken_in_turn(call, known[0], known, told_of_current);
    lemma_arrival_told_of_current(informed, told_of_current);
    law_replies_are_taken_in_turn(call, known[0], known + told_of_current, told_of_last);
    if winner == Winner::Last {
        lemma_arrival_told_of_last(
            BitcoinBlockArrival {
                phase: ArrivalPhase::LastTenure {
                    peer_info: tip,
                    check: TenureCheck::begin(Winner::Last, last, config),
                },
                ..informed
            },
            told_of_last,
        );
    }
    BitcoinBlockArrival {
        phase: ArrivalPhase::Miner {
            peer_info: tip,
            call: MinerStateCall::begin(
                if winner == Winner::Current {
                    current
                } else {
                    last
                },
                config,
            ),
        },
        ..BitcoinBlockArrival::begin(prior, expected, config)
    }
}

/// An arrival for which the node is ready follows the winner of the latest sortition if that
/// one's tenure is valid, and else the winner of the sortition before it if that one's is.
/// Whatever the machine's state was before, its new view has the node's burn block; its miner
/// has the key, the tenure and the parent tenure of that one sortition, and builds on the
/// higher of the blocks that the node and the database know of that parent tenure. Of the
/// state before, only the signing protocol version stays. The other signers are told of just
/// that view, unless the machine had it before.
pub proof fn law_arrival_follows_first_valid_winner<E>(
    prior: LocalStateMachine,
    expected: Option<u64>,
    config: ProposalEvalConfig,
    tip: PeerInfo,
    current: SortitionState,
    last: SortitionState,
    winner: Winner,
    told_of_current: Seq<Reply<E>>,
    told_of_last: Seq<Reply<E>>,
    node: Result<BlockTip, E>,
    signer_db: Option<BlockTip>,
)
    requires
        expected matches Some(height) ==> height <= tip.burn_block_height,
        prior matches LocalStateMachine::Pending {
            update: StateMachineUpdate::BurnBlock(height),
            ..
        } ==> height <= tip.burn_block_height,
        tenure_told(TenureCheck::begin(Winner::Current, current, config), told_of_current) == Some(
            Progress::<TenureCheck, Result<bool, E>>::Done(Ok(winner == Winner::Current)),
        ),
        match winner {
            Winner::Current => told_of_last.len() == 0,
            Winner::Last => tenure_told(
                TenureCheck::begin(Winner::Last, last, config),
                told_of_last,
            ) == Some(Progress::<TenureCheck, Result<bool, E>>::Done(Ok(true))),
        },
        node is Ok || signer_db is Some,
    ensures
        ({
            let sortition = match winner {
                Winner::Current => current,
                Winner::Last => last,
            };
            let told = seq![
                Reply::<E>::PeerInfo(Ok(tip)),
                Reply::CurrentAndLastSortition(
                    Ok(
                        CurrentAndLastSortition {
                            current_sortition: Ok(current),
                            last_sortition: Some(Ok(last)),
                        },
                    ),
                ),
            ] + told_of_current + told_of_last + seq![
                Reply::TenureTip(node),
                Reply::TenureLastBlock(Ok(signer_db)),
            ];
            &&& Call::BitcoinBlockArrival(
                BitcoinBlockArrival::begin(prior, expected, config),
            ).after_all(told) matches Progress::Done(settled)
            &&& settled.outcome.result is Ok
            &&& settled.machine matches LocalStateMachine::Initialized(view)
            &&& view.burn_block == tip.pox_consensus
            &&& view.burn_block_height == tip.burn_block_height
            &&& view.active_signer_protocol_version == match prior {
                LocalStateMachine::Uninitialized => 0,
                LocalStateMachine::Initialized(before) => before.active_signer_protocol_version,
                LocalStateMachine::Pending { prior: before, .. } => {
                    before.active_signer_protocol_version
                },
            }
            &&& view.current_miner matches MinerState::ActiveMiner {
                current_miner_pkh,
                tenure_id,
                parent_tenure_id,
                parent_tenure_last_block,
                parent_tenure_last_block_height,
            }
            &&& current_miner_pkh == sortition.miner_pkh
            &&& tenure_id == sortition.consensus_hash
            &&& parent_tenure_id == sortition.parent_tenure_id
            &&& ({
                let block = BlockTip {
                    height: parent_tenure_last_block_height,
                    block_id: parent_tenure_last_block,
                };
                &&& node == Ok::<BlockTip, E>(block) || signer_db == Some(block)
                &&& node matches Ok(n) ==> n.height <= block.height
                &&& signer_db matches Some(s) ==> s.height <= block.height && (s.height
                    == block.height ==> s == block)
            })
            &&& settled.outcome.update == if settled.machine == prior {
                None
            } else {
                Some(
                    StateMachineUpdateMessage {
                        active_signer_protocol_version: view.active_signer_protocol_version,
                        local_supported_signer_protocol_version: 0,
                        content: StateMachineUpdateContent::V0 {
                            burn_block: tip.pox_consensus,
                            burn_block_height: tip.burn_block_height,
                            current_miner: StateMachineUpdateMinerState::ActiveMiner {
                                current_miner_pkh,
                                tenure_id,
                                parent_tenure_id,
                                parent_tenure_last_block,
                                parent_tenure_last_block_height,
                            },
                        },
                    },
                )
            }
        }),
{
    let call = Call::BitcoinBlockArrival(BitcoinBlockArrival::begin(prior, expected, config));
    let known = seq![
        Reply::<E>::PeerInfo(Ok(tip)),
        Reply::CurrentAndLastSortition(
            Ok(
                CurrentAndLastSortition {
                    current_sortition: Ok(current),
                    last_sortition: Some(Ok(last)),
                },
            ),
        ),
    ];
    let found = lemma_arrival_winner_found(
        prior,
        expected,
        config,
        tip,
        current,
        last,
        winner,
        told_of_current,
        told_of_last,
    );
    let by_node = Reply::<E>::TenureTip(node);
    let by_db = Reply::<E>::TenureLastBlock(Ok(signer_db));
    law_replies_are_taken_in_turn(
        call,
        by_node,
        known + told_of_current + told_of_last,
        seq![by_node, by_db],
    );
    reveal_with_fuel(Call::after_all, 3);
    assert(seq![by_node, by_db].drop_first() == seq![by_db]);
}

/// An arrival for which the node is ready, and that finds neither of the two sortitions'
/// tenures valid, succeeds: the machine comes to a view with the node's burn block and no
/// miner, whatever miner it had before, and the other signers are told of it unless the
/// machine had that view before.
pub proof fn law_arrival_without_valid_winner<E>(
    prior: LocalStateMachine,
    expected: Option<u64>,
    config: ProposalEvalConfig,
    tip: PeerInfo,
    current: SortitionState,
    last: SortitionState,
    told_of_current: Seq<Reply<E>>,
    told_of_last: Seq<Reply<E>>,
)
    requires
        expected matches Some(height) ==> height <= tip.burn_block_height,
        prior matches LocalStateMachine::Pending {
            update: StateMachineUpdate::BurnBlock(height),
            ..
        } ==> height <= tip.burn_block_height,
        tenure_told(TenureCheck::begin(Winner::Current, current, config), told_of_current) == Some(
            Progress::<TenureCheck, Result<bool, E>>::Done(Ok(false)),
        ),
        tenure_told(TenureCheck::begin(Winner::Last, last, config), told_of_last) == Some(
            Progress::<TenureCheck, Result<bool, E>>::Done(Ok(false)),
        ),
    ensures
        ({
            let told = seq![
                Reply::<E>::PeerInfo(Ok(tip)),
                Reply::CurrentAndLastSortition(
                    Ok(
                        CurrentAndLastSortition {
                            current_sortition: Ok(current),
                            last_sortition: Some(Ok(last)),
                        },
                    ),
                ),
            ] + told_of_current + told_of_last;
            let version: u64 = match prior {
                LocalStateMachine::Uninitialized => 0,
                LocalStateMachine::Initialized(before) => before.active_signer_protocol_version,
                LocalStateMachine::Pending { prior: before, .. } => {
                    before.active_signer_protocol_version
                },
            };
            &&& Call::BitcoinBlockArrival(
                BitcoinBlockArrival::begin(prior, expected, config),
            ).after_all(told) matches Progress::Done(settled)
            &&& settled.outcome.result is Ok
            &&& settled.machine == LocalStateMachine::Initialized(
                SignerStateMachine {
                    burn_block: tip.pox_consensus,
                    burn_block_height: tip.burn_block_height,
                    current_miner: MinerState::NoValidMiner,
                    active_signer_protocol_version: version,
                },
            )
            &&& settled.outcome.update == if settled.machine == prior {
                None
            } else {
                Some(
                    StateMachineUpdateMessage {
                        active_signer_protocol_version: version,
                        local_supported_signer_protocol_version: 0,
                        content: StateMachineUpdateContent::V0 {
                            burn_block: tip.pox_consensus,
                            burn_block_height: tip.burn_block_height,
                            current_miner: StateMachineUpdateMinerState::NoValidMiner,
                        },
                    },
                )
            }
        }),
{
    let call = Call::BitcoinBlockArrival(BitcoinBlockArrival::begin(prior, expected, config));
    let known = seq![
        Reply::<E>::PeerInfo(Ok(tip)),
        Reply::CurrentAndLastSortition(
            Ok(
                CurrentAndLastSortition {
                    current_sortition: Ok(current),
                    last_sortition: Some(Ok(last)),
                },
            ),
        ),
    ];
    let informed = lemma_arrival_informed::<E>(prior, expected, config, tip, current, last);
    law_replies_are_taken_in_turn(call, known[0], known, told_of_current);
    lemma_arrival_told_of_current(informed, told_of_current);
    law_replies_are_taken_in_turn(call, known[0], known + told_of_current, told_of_last);
    lemma_arrival_told_of_last(
        BitcoinBlockArrival {
            phase: ArrivalPhase::LastTenure {
                peer_info: tip,
                check: TenureCheck::begin(Winner::Last, last, config),
            },
            ..informed
        },
        told_of_last,
    );
}

/// Once an arrival knows the two sortitions, it asks what the check on the latest one asks,
/// and where that one's tenure is not valid, what the check on the one before it asks.
pub proof fn law_arrival_checks_latest_sortition_first<E>(
    prior: LocalStateMachine,
    expected: Option<u64>,
    config: ProposalEvalConfig,
    tip: PeerInfo,
    current: SortitionState,
    last: SortitionState,
    told_of_current: Seq<Reply<E>>,
    told_of_last: Seq<Reply<E>>,
)
    requires
        expected matches Some(height) ==> height <= tip.burn_block_height,
        prior matches LocalStateMachine::Pending {
            update: StateMachineUpdate::BurnBlock(height),
            ..
        } ==> height <= tip.burn_block_height,
    ensures
        ({
            let call = Call::BitcoinBlockArrival(
                BitcoinBlockArrival::begin(prior, expected, config),
            );
            let known = seq![
                Reply::<E>::PeerInfo(Ok(tip)),
                Reply::CurrentAndLastSortition(
                    Ok(
                        CurrentAndLastSortition {
                            current_sortition: Ok(current),
                            last_sortition: Some(Ok(last)),
                        },
                    ),
                ),
            ];
            let of_current = tenure_told(
                TenureCheck::begin(Winner::Current, current, config),
                told_of_current,
            );
            let of_last = tenure_told(TenureCheck::begin(Winner::Last, last, config), told_of_last);
            let invalid = Some(Progress::<TenureCheck, Result<bool, E>>::Done(Ok(false)));
            &&& of_current matches Some(Progress::Ask(check)) ==> {
                &&& call.after_all(known + told_of_current) matches Progress::Ask(next)
                &&& forall|r: Request| #[trigger] next.asks(r) <==> check.asks(r)
            }
            &&& of_current == invalid ==> (of_last matches Some(Progress::Ask(check)) ==> {
                &&& call.after_all(known + told_of_current + told_of_last) matches Progress::Ask(
                    next,
                )
                &&& forall|r: Request| #[trigger] next.asks(r) <==> check.asks(r)
            })
        }),
{
    let call = Call::BitcoinBlockArrival(BitcoinBlockArrival::begin(prior, expected, config));
    let known = seq![
        Reply::<E>::PeerInfo(Ok(tip)),
        Reply::CurrentAndLastSortition(
            Ok(
                CurrentAndLastSortition {
                    current_sortition: Ok(current),
                    last_sortition: Some(Ok(last)),
                },
            ),
        ),
    ];
    let informed = lemma_arrival_informed::<E>(prior, expected, config, tip, current, last);
    let of_current = tenure_told(
        TenureCheck::begin(Winner::Current, current, config),
        told_of_current,
    );
    let of_last = tenure_told(TenureCheck::begin(Winner::Last, last, config), told_of_last);
    law_replies_are_taken_in_turn(call, known[0], known, told_of_current);
    if of_current is Some {
        lemma_arrival_told_of_current(informed, told_of_current);
    }
    law_replies_are_taken_in_turn(call, known[0], known + told_of_current, told_of_last);
    if of_last is Some {
        lemma_arrival_told_of_last(
            BitcoinBlockArrival {
                phase: ArrivalPhase::LastTenure {
                    peer_info: tip,
                    check: TenureCheck::begin(Winner::Last, last, config),
                },
                ..informed
            },
            told_of_last,
        );
    }
}

/// Once an arrival has found a winner whose tenure is valid, it asks the node, and then the
/// database, for the last block of the parent tenure that this winner's sortition names. It
/// fails if the database cannot be read, or if neither knows such a block: then the machine
/// has no view any more, and no one is told.
pub proof fn law_arrival_asks_for_winners_parent<E>(
    prior: LocalStateMachine,
    expected: Option<u64>,
    config: ProposalEvalConfig,
    tip: PeerInfo,
    current: SortitionState,
    last: SortitionState,
    winner: Winner,
    told_of_current: Seq<Reply<E>>,
    told_of_last: Seq<Reply<E>>,
    node: Result<BlockTip, E>,
    error: E,
)
    requires
        expected matches Some(height) ==> height <= tip.burn_block_height,
        prior matches LocalStateMachine::Pending {
            update: StateMachineUpdate::BurnBlock(height),
            ..
        } ==> height <= tip.burn_block_height,
        tenure_told(TenureCheck::begin(Winner::Current, current, config), told_of_current) == Some(
            Progress::<TenureCheck, Result<bool, E>>::Done(Ok(winner == Winner::Current)),
        ),
        match winner {
            Winner::Current => told_of_last.len() == 0,
            Winner::Last => tenure_told(
                TenureCheck::begin(Winner::Last, last, config),
                told_of_last,
            ) == Some(Progress::<TenureCheck, Result<bool, E>>::Done(Ok(true))),
        },
    ensures
        ({
            let parent = match winner {
                Winner::Current => current.parent_tenure_id,
                Winner::Last => last.parent_tenure_id,
            };
            let told = seq![
                Reply::<E>::PeerInfo(Ok(tip)),
                Reply::CurrentAndLastSortition(
                    Ok(
                        CurrentAndLastSortition {
                            current_sortition: Ok(current),
                            last_sortition: Some(Ok(last)),
                        },
                    ),
                ),
            ] + told_of_current + told_of_last;
            &&& Call::BitcoinBlockArrival(
                BitcoinBlockArrival::begin(prior, expected, config),
            ).after_all(told) matches Progress::Ask(found)
            &&& forall|r: Request| #[trigger]
                found.asks(r) <==> r == (Request::TenureTip { tenure: parent })
            &&& found.after(Reply::TenureTip(node)) matches Progress::Ask(informed)
            &&& forall|r: Request| #[trigger]
                informed.asks(r) <==> r == (Request::TenureLastBlock {
                    tenure: parent,
                    tenure_last_block_proposal_timeout: config.tenure_last_block_proposal_timeout,
                })
            &&& informed.after(Reply::<E>::TenureLastBlock(Err(error))) == Progress::<
                Call,
                Settled<E>,
            >::Done(
                Settled {
                    machine: LocalStateMachine::Uninitialized,
                    outcome: Outcome {
                        result: Err(SignerChainstateError::Service(error)),
                        update: None,
                    },
                },
            )
            &&& node is Err ==> informed.after(Reply::<E>::TenureLastBlock(Ok(None))) == Progress::<
                Call,
                Settled<E>,
            >::Done(
                Settled {
                    machine: LocalStateMachine::Uninitialized,
                    outcome: Outcome {
                        result: Err(SignerChainstateError::NoParentTenureInfo(parent)),
                        update: None,
                    },
                },
            )
        }),
{
    let found = lemma_arrival_winner_found(
        prior,
        expected,
        config,
        tip,
        current,
        last,
        winner,
        told_of_current,
        told_of_last,
    );
}

/// An arrival that meets an error ends with it; the machine has no view any more, and no one
/// is told. It is an error of the node's response if there is no second sortition, or if it
/// could not be read.
pub proof fn law_arrival_fails_with_first_error<E>(
    prior: LocalStateMachine,
    expected: Option<u64>,
    config: ProposalEvalConfig,
    tip: PeerInfo,
    current: SortitionState,
    last: SortitionState,
    unreadable: Option<Result<SortitionState, E>>,
    told_of_current: Seq<Reply<E>>,
    told_of_last: Seq<Reply<E>>,
    error: E,
)
    requires
        expected matches Some(height) ==> height <= tip.burn_block_height,
        prior matches LocalStateMachine::Pending {
            update: StateMachineUpdate::BurnBlock(height),
            ..
        } ==> height <= tip.burn_block_height,
    ensures
        ({
            let call = Call::BitcoinBlockArrival(
                BitcoinBlockArrival::begin(prior, expected, config),
            );
            let known = seq![
                Reply::<E>::PeerInfo(Ok(tip)),
                Reply::CurrentAndLastSortition(
                    Ok(
                        CurrentAndLastSortition {
                            current_sortition: Ok(current),
                            last_sortition: Some(Ok(last)),
                        },
                    ),
                ),
            ];
            let of_current = tenure_told(
                TenureCheck::begin(Winner::Current, current, config),
                told_of_current,
            );
            let of_last = tenure_told(TenureCheck::begin(Winner::Last, last, config), told_of_last);
            let invalid = Some(Progress::<TenureCheck, Result<bool, E>>::Done(Ok(false)));
            let erred = Some(Progress::<TenureCheck, Result<bool, E>>::Done(Err(error)));
            let failed = Progress::<Call, Settled<E>>::Done(
                Settled {
                    machine: LocalStateMachine::Uninitialized,
                    outcome: Outcome {
                        result: Err(SignerChainstateError::Service(error)),
                        update: None,
                    },
                },
            );
            let incomplete = Progress::<Call, Settled<E>>::Done(
                Settled {
                    machine: LocalStateMachine::Uninitialized,
                    outcome: Outcome {
                        result: Err(
                            SignerChainstateError::ClientError(
                                ClientError::InvalidResponse(InvalidResponse::MissingSortition),
                            ),
                        ),
                        update: None,
                    },
                },
            );
            &&& call.after(Reply::PeerInfo(Err(error))) == failed
            &&& call.after(Reply::<E>::PeerInfo(Ok(tip))) matches Progress::Ask(informed)
            &&& informed.after(Reply::CurrentAndLastSortition(Err(error))) == failed
            &&& informed.after(
                Reply::CurrentAndLastSortition(
                    Ok(
                        CurrentAndLastSortition {
                            current_sortition: Err(error),
                            last_sortition: unreadable,
                        },
                    ),
                ),
            ) == failed
            &&& !(unreadable matches Some(Ok(_))) ==> informed.after(
                Reply::CurrentAndLastSortition(
                    Ok(
                        CurrentAndLastSortition {
                            current_sortition: Ok(current),
                            last_sortition: unreadable,
                        },
                    ),
                ),
            ) == incomplete
            &&& of_current == erred ==> call.after_all(known + told_of_current) == failed
            &&& of_current == invalid && of_last == erred ==> call.after_all(
                known + told_of_current + told_of_last,
            ) == failed
        }),
{
    let call = Call::BitcoinBlockArrival(BitcoinBlockArrival::begin(prior, expected, config));
    let known = seq![
        Reply::<E>::PeerInfo(Ok(tip)),
        Reply::CurrentAndLastSortition(
            Ok(
                CurrentAndLastSortition {
                    current_sortition: Ok(current),
                    last_sortition: Some(Ok(last)),
                },
            ),
        ),
    ];
    let informed = lemma_arrival_informed::<E>(prior, expected, config, tip, current, last);
    let of_current = tenure_told(
        TenureCheck::begin(Winner::Current, current, config),
        told_of_current,
    );
    let of_last = tenure_told(TenureCheck::begin(Winner::Last, last, config), told_of_last);
    law_replies_are_taken_in_turn(call, known[0], known, told_of_current);
    if of_current is Some {
        lemma_arrival_told_of_current(informed, told_of_current);
    }
    law_replies_are_taken_in_turn(call, known[0], known + told_of_current, told_of_last);
    if of_last is Some {
        lemma_arrival_told_of_last(
            BitcoinBlockArrival {
                phase: ArrivalPhase::LastTenure {
                    peer_info: tip,
                    check: TenureCheck::begin(Winner::Last, last, config),
                },
                ..informed
            },
            told_of_last,
        );
    }
}

} // verus!
