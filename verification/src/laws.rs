//! What holds of the state machine whatever the outside answers.

#![allow(unused_imports)]

use crate::arrival::{ArrivalAnswers, BitcoinBlockArrival};
use crate::calls::{Progress, Reply, Request, Winner};
use crate::chain::{
    BlockTip, ConsensusHash, Hash160, ProposalEvalConfig, SortitionState, StacksBlockId,
};
use crate::errors::{ClientError, CodecError, InvalidResponse, SignerChainstateError};
use crate::inactivity::{InactivityAnswers, InactivityCheck};
use crate::messages::{
    StateMachineUpdateContent, StateMachineUpdateMessage, StateMachineUpdateMinerState,
};
use crate::miner::{MinerState, MinerStateCall, ParentAnswers};
use crate::signer_state::{
    Call, LocalStateMachine, Settled, SignerStateMachine, StateMachineUpdate,
    SUPPORTED_SIGNER_PROTOCOL_VERSION,
};
use crate::tenure::{TenureAnswers, TenureCheck};
use crate::timeout::{TimeoutAnswers, TimeoutCheck};
use vstd::prelude::*;

verus! {

/// A reply brings a call nearer to its end if it is a reply to what the call waits on,
/// and leaves it as it is otherwise.
pub proof fn law_replies_make_progress<E>(call: Call, request: Request, reply: Reply<E>)
    requires
        call.asks(request),
    ensures
        reply.answers(request) ==> match call.after(reply) {
            Progress::Ask(next) => next.requests_left() < call.requests_left(),
            Progress::Done(_) => true,
        },
        !reply.answers(request) ==> call.after(reply) == Progress::<
            Call,
            Settled<E>,
        >::Ask(call),
{
}

/// The answers that stand for the outside hold a reply to each request that a call makes.
pub proof fn law_answers_fit_requests<E>(
    arrival: BitcoinBlockArrival,
    arrival_answers: ArrivalAnswers<E>,
    check: InactivityCheck,
    check_answers: InactivityAnswers<E>,
    request: Request,
)
    ensures
        arrival.asks(request) ==> arrival.answer(arrival_answers).answers(request),
        check.asks(request) ==> check.answer(check_answers).answers(request),
{
}

/// The arrival of a burn block takes no more than fourteen replies, the check on the
/// current miner's activity no more than twelve.
pub proof fn law_calls_are_bounded(
    prior: LocalStateMachine,
    expected: Option<u64>,
    state_machine: SignerStateMachine,
    tenure_id: ConsensusHash,
    config: ProposalEvalConfig,
)
    ensures
        BitcoinBlockArrival::begin(prior, expected, config).requests_left() <= 14,
        InactivityCheck::begin(state_machine, tenure_id, config).requests_left() <= 12,
{
}

/// An arrival that fails leaves the machine uninitialized, unless it failed because the
/// node is behind: then the machine is left pending. An arrival that succeeds leaves
/// it initialized.
pub proof fn law_arrival_state_follows_result<E>(
    prior: LocalStateMachine,
    expected: Option<u64>,
    config: ProposalEvalConfig,
    answers: ArrivalAnswers<E>,
)
    ensures
        ({
            let end = BitcoinBlockArrival::begin(prior, expected, config).run(answers);
            let not_processed = Err::<(), SignerChainstateError<E>>(
                SignerChainstateError::ClientError(
                    ClientError::InvalidResponse(InvalidResponse::BurnBlockNotProcessed),
                ),
            );
            &&& end.machine is Initialized <==> end.outcome.result is Ok
            &&& end.machine is Pending <==> end.outcome.result == not_processed
            &&& end.machine is Uninitialized <==> end.outcome.result is Err
                && end.outcome.result != not_processed
        }),
{
    crate::arrival::law_bitcoin_block_arrival(prior, expected, config, answers);
}

/// A machine that an arrival leaves pending keeps its last settled view, and waits for
/// a height that is no lower than the one it waited for before, no lower than the one
/// that was expected, and above the node's.
pub proof fn law_pending_keeps_view_and_height<E>(
    prior: LocalStateMachine,
    expected: Option<u64>,
    config: ProposalEvalConfig,
    answers: ArrivalAnswers<E>,
)
    ensures
        BitcoinBlockArrival::begin(prior, expected, config).run(
            answers,
        ).machine matches LocalStateMachine::Pending {
            update: StateMachineUpdate::BurnBlock(height),
            prior: kept,
        } ==> {
            &&& kept == prior.settled_view()
            &&& prior matches LocalStateMachine::Pending {
                update: StateMachineUpdate::BurnBlock(pending),
                ..
            } ==> pending <= height
            &&& expected matches Some(wanted) ==> wanted <= height
            &&& answers.peer_info matches Ok(peer_info) && peer_info.burn_block_height < height
        },
{
    crate::arrival::law_bitcoin_block_arrival(prior, expected, config, answers);
}

/// A machine that an arrival leaves initialized has the node's burn block, which is not
/// below the expected or the pending height, and the signing protocol version that it
/// had before; the miner is one of the two sortitions' winners, or none.
pub proof fn law_arrival_installs_node_view<E>(
    prior: LocalStateMachine,
    expected: Option<u64>,
    config: ProposalEvalConfig,
    answers: ArrivalAnswers<E>,
)
    ensures
        BitcoinBlockArrival::begin(prior, expected, config).run(
            answers,
        ).machine matches LocalStateMachine::Initialized(view) ==> {
            &&& answers.peer_info matches Ok(peer_info) && view.burn_block
                == peer_info.pox_consensus && view.burn_block_height
                == peer_info.burn_block_height
            &&& expected matches Some(wanted) ==> wanted <= view.burn_block_height
            &&& prior matches LocalStateMachine::Pending {
                update: StateMachineUpdate::BurnBlock(pending),
                ..
            } ==> pending <= view.burn_block_height
            &&& view.active_signer_protocol_version
                == prior.settled_view().active_signer_protocol_version
            &&& answers.sortitions matches Ok(sortitions)
                && sortitions.current_sortition matches Ok(current)
                && sortitions.last_sortition matches Some(Ok(last)) && match view.current_miner {
                MinerState::ActiveMiner { tenure_id, .. } => {
                    ||| tenure_id == current.consensus_hash && crate::tenure::tenure_valid(
                        config,
                        answers.current,
                    ) == Ok::<bool, E>(true)
                    ||| tenure_id == last.consensus_hash && crate::tenure::tenure_valid(
                        config,
                        answers.current,
                    ) == Ok::<bool, E>(false) && crate::tenure::tenure_valid(
                        config,
                        answers.last,
                    ) == Ok::<bool, E>(true)
                },
                MinerState::NoValidMiner => {
                    &&& crate::tenure::tenure_valid(config, answers.current) == Ok::<bool, E>(false)
                    &&& crate::tenure::tenure_valid(config, answers.last) == Ok::<bool, E>(false)
                },
            }
        },
{
    crate::arrival::law_bitcoin_block_arrival(prior, expected, config, answers);
}

/// If an arrival ends with an active miner, then whatever the machine's state was before, that
/// miner has the key, the tenure and the parent tenure of one of the two sortitions, and
/// builds on a block that the node or the database knows of that parent tenure; neither of
/// them knows a higher one.
pub proof fn law_followed_miner_is_a_winner<E>(
    prior: LocalStateMachine,
    expected: Option<u64>,
    config: ProposalEvalConfig,
    answers: ArrivalAnswers<E>,
)
    ensures
        BitcoinBlockArrival::begin(prior, expected, config).run(
            answers,
        ).machine matches LocalStateMachine::Initialized(view)
            ==> (view.current_miner matches MinerState::ActiveMiner {
            current_miner_pkh,
            tenure_id,
            parent_tenure_id,
            parent_tenure_last_block,
            parent_tenure_last_block_height,
        } ==> {
            let named = SortitionState {
                miner_pkh: current_miner_pkh,
                parent_tenure_id,
                consensus_hash: tenure_id,
            };
            let block = BlockTip {
                height: parent_tenure_last_block_height,
                block_id: parent_tenure_last_block,
            };
            &&& answers.sortitions matches Ok(sortitions)
            &&& sortitions.current_sortition == Ok::<SortitionState, E>(named)
                || sortitions.last_sortition == Some(Ok::<SortitionState, E>(named))
            &&& answers.parent.node == Ok::<BlockTip, E>(block) || answers.parent.signer_db == Ok::<
                Option<BlockTip>,
                E,
            >(Some(block))
            &&& answers.parent.node matches Ok(n) ==> n.height <= block.height
            &&& answers.parent.signer_db matches Ok(Some(s)) ==> s.height <= block.height
        }),
{
    crate::arrival::law_bitcoin_block_arrival(prior, expected, config, answers);
}

/// The other signers are told of an arrival if and only if it succeeded and changed the
/// machine's state, and what they are told is the new view.
pub proof fn law_arrival_is_announced_on_change<E>(
    prior: LocalStateMachine,
    expected: Option<u64>,
    config: ProposalEvalConfig,
    answers: ArrivalAnswers<E>,
)
    ensures
        ({
            let end = BitcoinBlockArrival::begin(prior, expected, config).run(answers);
            &&& end.outcome.update is Some <==> end.outcome.result is Ok && end.machine != prior
            &&& end.outcome.update matches Some(message) ==> message
                == end.machine.settled_view().update_message()
        }),
{
    crate::arrival::law_bitcoin_block_arrival(prior, expected, config, answers);
}

/// An arrival that is handled once more with the same answers ends in the same way, and is
/// not announced again. The height that is expected the second time may be another one, as
/// long as it gives no new cause to wait: the node has reached it, or the machine waits
/// for one that is no lower already.
pub proof fn law_arrival_is_idempotent<E>(
    prior: LocalStateMachine,
    expected: Option<u64>,
    expected_again: Option<u64>,
    config: ProposalEvalConfig,
    answers: ArrivalAnswers<E>,
)
    requires
        answers.peer_info matches Ok(peer_info) ==> {
            ||| !crate::arrival::behind(expected_again, peer_info.burn_block_height)
            ||| (BitcoinBlockArrival::begin(prior, expected, config).run(
                answers,
            ).machine matches LocalStateMachine::Pending {
                update: StateMachineUpdate::BurnBlock(pending),
                ..
            } && expected_again->0 <= pending)
        },
    ensures
        ({
            let once = BitcoinBlockArrival::begin(prior, expected, config).run(answers);
            let twice = BitcoinBlockArrival::begin(once.machine, expected_again, config).run(
                answers,
            );
            &&& twice.machine == once.machine
            &&& twice.outcome.result == once.outcome.result
            &&& twice.outcome.update is None
        }),
{
    crate::arrival::law_bitcoin_block_arrival(prior, expected, config, answers);
    let once = BitcoinBlockArrival::begin(prior, expected, config).run(answers);
    crate::arrival::law_bitcoin_block_arrival(once.machine, expected_again, config, answers);
}

/// An arrival that is handled once more with the same answers and the same expected height
/// ends in the same way, and is not announced again.
pub proof fn law_same_arrival_is_idempotent<E>(
    prior: LocalStateMachine,
    expected: Option<u64>,
    config: ProposalEvalConfig,
    answers: ArrivalAnswers<E>,
)
    ensures
        ({
            let once = BitcoinBlockArrival::begin(prior, expected, config).run(answers);
            let twice = BitcoinBlockArrival::begin(once.machine, expected, config).run(answers);
            &&& twice.machine == once.machine
            &&& twice.outcome.result == once.outcome.result
            &&& twice.outcome.update is None
        }),
{
    crate::arrival::law_bitcoin_block_arrival(prior, expected, config, answers);
    law_arrival_is_idempotent(prior, expected, expected, config, answers);
}

/// Once an arrival has succeeded, a further one with the same answers succeeds as well,
/// changes nothing and announces nothing, whatever height is expected that the node has
/// reached.
pub proof fn law_settled_arrival_stays_settled<E>(
    prior: LocalStateMachine,
    expected: Option<u64>,
    expected_again: Option<u64>,
    config: ProposalEvalConfig,
    answers: ArrivalAnswers<E>,
)
    requires
        BitcoinBlockArrival::begin(prior, expected, config).run(answers).outcome.result is Ok,
        answers.peer_info matches Ok(peer_info) && (expected_again matches Some(height) ==> height
            <= peer_info.burn_block_height),
    ensures
        ({
            let once = BitcoinBlockArrival::begin(prior, expected, config).run(answers);
            let twice = BitcoinBlockArrival::begin(once.machine, expected_again, config).run(
                answers,
            );
            &&& twice.machine == once.machine
            &&& twice.outcome.result is Ok
            &&& twice.outcome.update is None
        }),
{
    law_arrival_is_idempotent(prior, expected, expected_again, config, answers);
}

/// To handle a pending burn block is to wait for just that burn block.
pub proof fn law_pending_height_is_awaited(height: u64, prior: SignerStateMachine)
    ensures
        (LocalStateMachine::Pending {
            update: StateMachineUpdate::BurnBlock(height),
            prior,
        }).awaited_height(Some(height)) == Some(height),
{
}

/// A machine that is uninitialized, as it starts out or after a failed arrival, comes to
/// the latest supported signing protocol version with its next successful arrival.
pub proof fn law_first_arrival_has_supported_version<E>(
    expected: Option<u64>,
    config: ProposalEvalConfig,
    answers: ArrivalAnswers<E>,
)
    ensures
        BitcoinBlockArrival::begin(LocalStateMachine::Uninitialized, expected, config).run(
            answers,
        ).machine matches LocalStateMachine::Initialized(view)
            ==> view.active_signer_protocol_version == SUPPORTED_SIGNER_PROTOCOL_VERSION,
{
    crate::arrival::law_bitcoin_block_arrival(
        LocalStateMachine::Uninitialized,
        expected,
        config,
        answers,
    );
}

/// A check on the current miner's activity touches nothing but the current miner, and
/// that only if the miner has timed out and the winner of the sortition before has a
/// valid tenure; the others are told if and only if it does so. A check that fails
/// changes nothing.
pub proof fn law_inactivity_replaces_only_the_miner<E>(
    state_machine: SignerStateMachine,
    tenure_id: ConsensusHash,
    config: ProposalEvalConfig,
    answers: InactivityAnswers<E>,
)
    ensures
        ({
            let end = InactivityCheck::begin(state_machine, tenure_id, config).run(answers);
            let view = end.machine.settled_view();
            &&& end.machine is Initialized
            &&& view == (SignerStateMachine { current_miner: view.current_miner, ..state_machine })
            &&& end.outcome.result is Err ==> view == state_machine
            &&& end.outcome.update is None ==> view == state_machine
            &&& end.outcome.update matches Some(message) ==> {
                &&& message == view.update_message()
                &&& end.outcome.result is Ok
                &&& crate::timeout::timed_out(config.block_proposal_timeout, answers.timeout)
                    == Ok::<bool, E>(true)
                &&& crate::tenure::tenure_valid(config, answers.last) == Ok::<bool, E>(true)
                &&& answers.last_sortition matches Ok(Some(Ok(last)))
                    && view.current_miner matches MinerState::ActiveMiner { tenure_id: new_id, .. }
                    && new_id == last.consensus_hash
            }
        }),
{
    crate::inactivity::law_inactivity_check(state_machine, tenure_id, config, answers);
}

/// A tenure that has timed out is not replaced by itself: where the tenure of the sortition
/// before the latest is answered for as the current miner's tenure is, as it is when they are
/// the same tenure, and the clock does not go back between the two checks, a check on the
/// current miner's activity changes nothing and announces nothing.
pub proof fn law_timed_out_tenure_does_not_replace_itself<E>(
    state_machine: SignerStateMachine,
    tenure_id: ConsensusHash,
    config: ProposalEvalConfig,
    answers: InactivityAnswers<E>,
)
    requires
        answers.last.timeout.signed == answers.timeout.signed,
        answers.last.timeout.received == answers.timeout.received,
        answers.last.timeout.activity == answers.timeout.activity,
        answers.timeout.now <= answers.last.timeout.now,
    ensures
        ({
            let end = InactivityCheck::begin(state_machine, tenure_id, config).run(answers);
            &&& end.machine == LocalStateMachine::Initialized(state_machine)
            &&& end.outcome.update is None
        }),
{
    crate::inactivity::law_inactivity_check(state_machine, tenure_id, config, answers);
}

/// A tenure in which this signer has signed a block has not timed out, at any time.
pub proof fn law_signed_block_prevents_timeout<E>(
    tenure: ConsensusHash,
    timeout: u128,
    answers: TimeoutAnswers<E>,
)
    requires
        answers.signed == Ok::<bool, E>(true),
    ensures
        TimeoutCheck::begin(tenure, timeout).run(answers) == Ok::<bool, E>(false),
{
    crate::timeout::law_timeout_check(tenure, timeout, answers);
}

/// A tenure that has timed out stays so as time goes by, and with any shorter timeout.
pub proof fn law_timeout_is_monotonic<E>(
    tenure: ConsensusHash,
    timeout: u128,
    shorter: u128,
    answers: TimeoutAnswers<E>,
    later: i128,
)
    requires
        TimeoutCheck::begin(tenure, timeout).run(answers) == Ok::<bool, E>(true),
        shorter <= timeout,
        answers.now <= later,
    ensures
        TimeoutCheck::begin(tenure, shorter).run(TimeoutAnswers { now: later, ..answers }) == Ok::<
            bool,
            E,
        >(true),
{
    crate::timeout::law_timeout_check(tenure, timeout, answers);
    crate::timeout::law_timeout_check(tenure, shorter, TimeoutAnswers { now: later, ..answers });
}

/// A tenure has not timed out as long as no more than the timeout lies between the miner's
/// last activity, or the receipt of the burn block where there was none, and the time; a
/// clock that shows an earlier time is a case of that.
pub proof fn law_no_timeout_within_timeout<E>(
    tenure: ConsensusHash,
    timeout: u128,
    answers: TimeoutAnswers<E>,
)
    requires
        answers.activity matches Ok(Some(active)) ==> answers.now <= active
            * crate::timeout::NANOS_PER_SECOND + timeout,
        answers.activity matches Ok(None) ==> (answers.received matches Ok(Some(received))
            ==> answers.now <= received * crate::timeout::NANOS_PER_SECOND + timeout),
    ensures
        TimeoutCheck::begin(tenure, timeout).run(answers) != Ok::<bool, E>(true),
{
    crate::timeout::law_timeout_check(tenure, timeout, answers);
}

/// A tenure is valid if and only if its winner chose an appropriate parent tenure and it
/// has not timed out.
pub proof fn law_valid_tenure_is_well_founded_and_live<E>(
    winner: Winner,
    sortition: SortitionState,
    config: ProposalEvalConfig,
    answers: TenureAnswers<E>,
)
    ensures
        TenureCheck::begin(winner, sortition, config).run(answers) == Ok::<bool, E>(true) <==> (
        answers.parent_choice == Ok::<bool, E>(true) && TimeoutCheck::begin(
            sortition.consensus_hash,
            config.block_proposal_timeout,
        ).run(answers.timeout) == Ok::<bool, E>(false)),
{
    crate::tenure::law_tenure_check(winner, sortition, config, answers);
    crate::timeout::law_timeout_check(
        sortition.consensus_hash,
        config.block_proposal_timeout,
        answers.timeout,
    );
}

/// A miner builds on a block that the node or the database knows, and neither of them
/// knows a higher one.
pub proof fn law_miner_builds_on_highest_block<E>(
    sortition: SortitionState,
    config: ProposalEvalConfig,
    answers: ParentAnswers<E>,
)
    ensures
        MinerStateCall::begin(sortition, config).run(answers) matches Ok(miner) ==> {
            &&& miner matches MinerState::ActiveMiner {
                current_miner_pkh,
                tenure_id,
                parent_tenure_id,
                parent_tenure_last_block,
                parent_tenure_last_block_height,
            }
            &&& current_miner_pkh == sortition.miner_pkh
            &&& tenure_id == sortition.consensus_hash
            &&& parent_tenure_id == sortition.parent_tenure_id
            &&& ({
                let block = BlockTip {
                    height: parent_tenure_last_block_height,
                    block_id: parent_tenure_last_block,
                };
                answers.node == Ok::<BlockTip, E>(block) || answers.signer_db == Ok::<
                    Option<BlockTip>,
                    E,
                >(Some(block))
            })
            &&& answers.node matches Ok(n) ==> n.height <= parent_tenure_last_block_height
            &&& answers.signer_db matches Ok(Some(s)) ==> s.height
                <= parent_tenure_last_block_height
        },
{
    crate::miner::law_miner_state_call(sortition, config, answers);
}

/// A miner state can be made if and only if the database can be read and some block of
/// the parent tenure is known.
pub proof fn law_miner_needs_parent_block<E>(
    sortition: SortitionState,
    config: ProposalEvalConfig,
    answers: ParentAnswers<E>,
)
    ensures
        MinerStateCall::begin(sortition, config).run(answers) is Ok <==> answers.signer_db is Ok
            && (answers.node is Ok || answers.signer_db->Ok_0 is Some),
{
    crate::miner::law_miner_state_call(sortition, config, answers);
}

/// The arrival of a Stacks block leaves a machine that has no settled view alone, and of
/// one that has, touches only the last block of the parent tenure, whose height does not
/// decrease.
pub proof fn law_stacks_block_touches_only_parent_tip(
    machine: LocalStateMachine,
    ch: ConsensusHash,
    height: u64,
    block_id: StacksBlockId,
)
    ensures
        ({
            let after = machine.with_stacks_block(ch, height, block_id);
            &&& !(machine is Initialized) ==> after == machine
            &&& machine matches LocalStateMachine::Initialized(view) ==> {
                &&& after matches LocalStateMachine::Initialized(new_view)
                &&& new_view == (SignerStateMachine {
                    current_miner: new_view.current_miner,
                    ..view
                })
                &&& match (view.current_miner, new_view.current_miner) {
                    (
                        MinerState::ActiveMiner {
                            current_miner_pkh,
                            tenure_id,
                            parent_tenure_id,
                            parent_tenure_last_block_height,
                            ..
                        },
                        MinerState::ActiveMiner {
                            current_miner_pkh: new_miner_pkh,
                            tenure_id: new_tenure_id,
                            parent_tenure_id: new_parent_tenure_id,
                            parent_tenure_last_block_height: new_height,
                            ..
                        },
                    ) => {
                        &&& new_miner_pkh == current_miner_pkh
                        &&& new_tenure_id == tenure_id
                        &&& new_parent_tenure_id == parent_tenure_id
                        &&& new_height >= parent_tenure_last_block_height
                        &&& parent_tenure_id == ch ==> new_height >= height
                    },
                    (old_miner, new_miner) => old_miner == new_miner,
                }
            }
        }),
{
}

/// Where the current miner builds on the tenure of a Stacks block that arrives, and the block
/// is higher than the last one known of that tenure, the block's own identifier and height
/// take the place of that one's. In every other case nothing changes.
pub proof fn law_higher_parent_block_is_taken_over(
    machine: LocalStateMachine,
    ch: ConsensusHash,
    height: u64,
    block_id: StacksBlockId,
)
    ensures
        ({
            let taken_over = machine matches LocalStateMachine::Initialized(view)
                && view.current_miner matches MinerState::ActiveMiner {
                parent_tenure_id,
                parent_tenure_last_block_height,
                ..
            } && parent_tenure_id == ch && parent_tenure_last_block_height < height;
            let after = machine.with_stacks_block(ch, height, block_id);
            &&& taken_over ==> {
                &&& after matches LocalStateMachine::Initialized(view)
                &&& view.current_miner matches MinerState::ActiveMiner {
                    parent_tenure_last_block,
                    parent_tenure_last_block_height,
                    ..
                }
                &&& parent_tenure_last_block == block_id
                &&& parent_tenure_last_block_height == height
            }
            &&& !taken_over ==> after == machine
        }),
{
}

/// A Stacks block that arrives once more changes nothing.
pub proof fn law_stacks_block_is_idempotent(
    machine: LocalStateMachine,
    ch: ConsensusHash,
    height: u64,
    block_id: StacksBlockId,
)
    ensures
        ({
            let once = machine.with_stacks_block(ch, height, block_id);
            once.with_stacks_block(ch, height, block_id) == once
        }),
{
}

/// Two Stacks blocks may arrive in either order, unless they are different blocks of the
/// same height and tenure, of which the first to arrive is taken over.
pub proof fn law_stacks_blocks_commute(
    machine: LocalStateMachine,
    first_ch: ConsensusHash,
    first_height: u64,
    first_id: StacksBlockId,
    second_ch: ConsensusHash,
    second_height: u64,
    second_id: StacksBlockId,
)
    requires
        first_ch == second_ch && first_height == second_height && first_id != second_id
            ==> machine.with_stacks_block(first_ch, first_height, first_id) == machine
            && machine.with_stacks_block(second_ch, second_height, second_id) == machine,
    ensures
        machine.with_stacks_block(first_ch, first_height, first_id).with_stacks_block(
            second_ch,
            second_height,
            second_id,
        ) == machine.with_stacks_block(second_ch, second_height, second_id).with_stacks_block(
            first_ch,
            first_height,
            first_id,
        ),
{
}

/// There is something to make a message of if and only if the machine is initialized.
/// Whether a message can be made of it is up to the signing protocol's message format.
pub proof fn law_only_settled_machines_have_message_parts(machine: LocalStateMachine)
    ensures
        (<StateMachineUpdateMessage as vstd::std_specs::convert::TryFromSpec<
            &LocalStateMachine,
        >>::try_from_spec(&machine) is Ok) <==> machine is Initialized,
{
}

/// What a message is made of holds the view as it is: its burn block, its signing protocol
/// version, and everything known of its miner; and the latest version that is supported.
pub proof fn law_message_parts_are_the_view(view: SignerStateMachine)
    ensures
        ({
            let message = view.update_message();
            let StateMachineUpdateContent::V0 { burn_block, burn_block_height, current_miner } =
                message.content;
            &&& <StateMachineUpdateMessage as vstd::std_specs::convert::TryFromSpec<
                &LocalStateMachine,
            >>::try_from_spec(&LocalStateMachine::Initialized(view)) == Ok::<_, CodecError>(message)
            &&& message.active_signer_protocol_version == view.active_signer_protocol_version
            &&& message.local_supported_signer_protocol_version == 0
            &&& burn_block == view.burn_block
            &&& burn_block_height == view.burn_block_height
            &&& match (view.current_miner, current_miner) {
                (
                    MinerState::ActiveMiner {
                        current_miner_pkh,
                        tenure_id,
                        parent_tenure_id,
                        parent_tenure_last_block,
                        parent_tenure_last_block_height,
                    },
                    StateMachineUpdateMinerState::ActiveMiner {
                        current_miner_pkh: told_miner_pkh,
                        tenure_id: told_tenure_id,
                        parent_tenure_id: told_parent_tenure_id,
                        parent_tenure_last_block: told_last_block,
                        parent_tenure_last_block_height: told_last_block_height,
                    },
                ) => {
                    &&& told_miner_pkh == current_miner_pkh
                    &&& told_tenure_id == tenure_id
                    &&& told_parent_tenure_id == parent_tenure_id
                    &&& told_last_block == parent_tenure_last_block
                    &&& told_last_block_height == parent_tenure_last_block_height
                },
                (MinerState::NoValidMiner, StateMachineUpdateMinerState::NoValidMiner) => true,
                _ => false,
            }
        }),
{
}

/// What a message is made of tells everything of a view: it is different for different
/// views.
pub proof fn law_messages_are_faithful(a: SignerStateMachine, b: SignerStateMachine)
    ensures
        a.update_message() == b.update_message() ==> a == b,
{
}

/// Two hashes are equal, and so are two miners, two views and two states of the machine, if
/// and only if they are the same in everything.
pub proof fn law_equality_is_of_everything(
    hash: (ConsensusHash, ConsensusHash),
    block_id: (StacksBlockId, StacksBlockId),
    key: (Hash160, Hash160),
    miner: (MinerState, MinerState),
    view: (SignerStateMachine, SignerStateMachine),
    machine: (LocalStateMachine, LocalStateMachine),
)
    ensures
        vstd::std_specs::cmp::PartialEqSpec::eq_spec(&hash.0, &hash.1) <==> hash.0 == hash.1,
        vstd::std_specs::cmp::PartialEqSpec::eq_spec(&block_id.0, &block_id.1) <==> block_id.0
            == block_id.1,
        vstd::std_specs::cmp::PartialEqSpec::eq_spec(&key.0, &key.1) <==> key.0 == key.1,
        vstd::std_specs::cmp::PartialEqSpec::eq_spec(&miner.0, &miner.1) <==> miner.0 == miner.1,
        vstd::std_specs::cmp::PartialEqSpec::eq_spec(&view.0, &view.1) <==> view.0 == view.1,
        vstd::std_specs::cmp::PartialEqSpec::eq_spec(&machine.0, &machine.1) <==> machine.0
            == machine.1,
{
}

/// The texts that errors are described with.
pub proof fn law_errors_are_described(response: InvalidResponse, error: CodecError)
    ensures
        response.text() == match response {
            InvalidResponse::BurnBlockNotProcessed => {
                "Node has not processed the next burn block yet"@
            },
            InvalidResponse::MissingSortition => {
                "Fetching latest and last sortitions failed to return both sortitions"@
            },
        },
        error.text() == "Local state machine is not ready to be serialized into an update message"@,
{
}

} // verus!
