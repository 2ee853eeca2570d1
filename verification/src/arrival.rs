//! The handling of a burn block's arrival.

use crate::calls::{Progress, Reply, Request, Winner};
use crate::chain::{
    CurrentAndLastSortition, PeerInfo, ProposalEvalConfig, SortitionState,
};
use crate::errors::{ClientError, InvalidResponse, SignerChainstateError};
use crate::miner::{MinerState, MinerStateCall, ParentAnswers};
use crate::signer_state::{
    LocalStateMachine, Outcome, Settled, SignerStateMachine, StateMachineUpdate,
};
use crate::tenure::{TenureAnswers, TenureCheck};
use vstd::prelude::*;

verus! {

/// What the outside answers to the requests of a `BitcoinBlockArrival`, asked or not.
pub struct ArrivalAnswers<E> {
    /// The node's burn chain tip.
    pub peer_info: Result<PeerInfo, E>,
    /// The two most recent sortitions with a winner.
    pub sortitions: Result<CurrentAndLastSortition<E>, E>,
    /// What bears on the tenure of the latest sortition.
    pub current: TenureAnswers<E>,
    /// What bears on the tenure of the sortition before it.
    pub last: TenureAnswers<E>,
    /// What bears on the parent tenure of the miner that is chosen.
    pub parent: ParentAnswers<E>,
}

/// Whether the tip is below the height that is waited for.
pub open spec fn behind(awaited: Option<u64>, tip: u64) -> bool {
    awaited matches Some(height) && tip < height
}

/// The miner to follow: the winner of the latest sortition if its tenure is valid, else
/// that of the sortition before it if that one's is, else none.
pub open spec fn elected_miner<E>(
    current: SortitionState,
    last: SortitionState,
    config: ProposalEvalConfig,
    answers: ArrivalAnswers<E>,
) -> Result<MinerState, SignerChainstateError<E>> {
    match crate::tenure::tenure_valid(config, answers.current) {
        Err(e) => Err(SignerChainstateError::Service(e)),
        Ok(true) => crate::miner::miner_state_of(current, answers.parent),
        Ok(false) => match crate::tenure::tenure_valid(config, answers.last) {
            Err(e) => Err(SignerChainstateError::Service(e)),
            Ok(true) => crate::miner::miner_state_of(last, answers.parent),
            Ok(false) => Ok(MinerState::NoValidMiner),
        },
    }
}

/// The end of an arrival that failed: the machine is left uninitialized.
pub open spec fn failed<E>(error: SignerChainstateError<E>) -> Settled<E> {
    Settled {
        machine: LocalStateMachine::Uninitialized,
        outcome: Outcome { result: Err(error), update: None },
    }
}

/// The end of an arrival for which the node is not ready: the machine waits for the burn
/// block at `height`, and keeps its last settled view.
pub open spec fn waiting<E>(height: u64, prior: SignerStateMachine) -> Settled<E> {
    Settled {
        machine: LocalStateMachine::Pending { update: StateMachineUpdate::BurnBlock(height), prior },
        outcome: Outcome {
            result: Err(
                SignerChainstateError::ClientError(
                    ClientError::InvalidResponse(InvalidResponse::BurnBlockNotProcessed),
                ),
            ),
            update: None,
        },
    }
}

/// The end of an arrival that succeeded, on a machine in the state `prior`: the new view
/// has the node's burn block and the elected miner, and the other signers are told
/// if the state has changed.
pub open spec fn installed<E>(
    prior: LocalStateMachine,
    active_signer_protocol_version: u64,
    peer_info: PeerInfo,
    miner: MinerState,
) -> Settled<E> {
    let state_machine = SignerStateMachine {
        burn_block: peer_info.pox_consensus,
        burn_block_height: peer_info.burn_block_height,
        current_miner: miner,
        active_signer_protocol_version,
    };
    let machine = LocalStateMachine::Initialized(state_machine);
    Settled {
        machine,
        outcome: Outcome {
            result: Ok(()),
            update: if machine == prior {
                None
            } else {
                Some(state_machine.update_message())
            },
        },
    }
}

/// The end of the arrival of a burn block on a machine in the state `prior`, with
/// `expected` as the height that is waited for.
pub open spec fn arrival_result<E>(
    prior: LocalStateMachine,
    expected: Option<u64>,
    config: ProposalEvalConfig,
    answers: ArrivalAnswers<E>,
) -> Settled<E> {
    let view = prior.settled_view();
    let awaited = prior.awaited_height(expected);
    match answers.peer_info {
        Err(e) => failed(SignerChainstateError::Service(e)),
        Ok(peer_info) => if behind(awaited, peer_info.burn_block_height) {
            waiting(awaited->0, view)
        } else {
            match answers.sortitions {
                Err(e) => failed(SignerChainstateError::Service(e)),
                Ok(sortitions) => match (
                    sortitions.current_sortition,
                    sortitions.last_sortition,
                ) {
                    (Err(e), _) => failed(SignerChainstateError::Service(e)),
                    (Ok(current), Some(Ok(last))) => match elected_miner(
                        current,
                        last,
                        config,
                        answers,
                    ) {
                        Err(e) => failed(e),
                        Ok(miner) => installed(
                            prior,
                            view.active_signer_protocol_version,
                            peer_info,
                            miner,
                        ),
                    },
                    (Ok(_), _) => failed(
                        SignerChainstateError::ClientError(
                            ClientError::InvalidResponse(InvalidResponse::MissingSortition),
                        ),
                    ),
                },
            }
        },
    }
}

/// What a `BitcoinBlockArrival` waits on.
#[derive(Debug, Clone, Copy, PartialEq, Eq)]
pub enum ArrivalPhase {
    /// The node's burn chain tip.
    PeerInfo,
    /// The two most recent sortitions with a winner.
    Sortitions {
        /// The node's burn chain tip.
        peer_info: PeerInfo,
    },
    /// Whether the tenure of the latest sortition is valid.
    CurrentTenure {
        /// The node's burn chain tip.
        peer_info: PeerInfo,
        /// The sortition before the latest.
        last: SortitionState,
        /// The check on the latest sortition.
        check: TenureCheck,
    },
    /// Whether the tenure of the sortition before it is valid.
    LastTenure {
        /// The node's burn chain tip.
        peer_info: PeerInfo,
        /// The check on that sortition.
        check: TenureCheck,
    },
    /// The making of the elected miner's state.
    Miner {
        /// The node's burn chain tip.
        peer_info: PeerInfo,
        /// The call that makes it.
        call: MinerStateCall,
    },
}

/// The handling, under way, of a burn block's arrival.
#[derive(Debug, Clone, Copy, PartialEq, Eq)]
pub struct BitcoinBlockArrival {
    /// The state of the machine before the arrival.
    pub prior_state: LocalStateMachine,
    /// The last settled view before the arrival.
    pub prior_state_machine: SignerStateMachine,
    /// The burn height that is waited for.
    pub expected_burn_height: Option<u64>,
    /// The durations to go by.
    pub config: ProposalEvalConfig,
    /// How far the call has come.
    pub phase: ArrivalPhase,
}

impl BitcoinBlockArrival {
    /// The call as it begins on a machine in the state `prior`.
    pub open spec fn begin(
        prior: LocalStateMachine,
        expected: Option<u64>,
        config: ProposalEvalConfig,
    ) -> BitcoinBlockArrival {
        BitcoinBlockArrival {
            prior_state: prior,
            prior_state_machine: prior.settled_view(),
            expected_burn_height: prior.awaited_height(expected),
            config,
            phase: ArrivalPhase::PeerInfo,
        }
    }

    /// Whether `request` is what the call waits on.
    pub open spec fn asks(self, request: Request) -> bool {
        match self.phase {
            ArrivalPhase::PeerInfo => request == Request::PeerInfo,
            ArrivalPhase::Sortitions { .. } => request == Request::CurrentAndLastSortition,
            ArrivalPhase::CurrentTenure { check, .. } => check.asks(request),
            ArrivalPhase::LastTenure { check, .. } => check.asks(request),
            ArrivalPhase::Miner { call, .. } => call.asks(request),
        }
    }

    /// The call in another phase.
    pub open spec fn in_phase<E>(self, phase: ArrivalPhase) -> Progress<
        BitcoinBlockArrival,
        Settled<E>,
    > {
        Progress::Ask(BitcoinBlockArrival { phase, ..self })
    }

    /// The end of the call with `miner` elected.
    pub open spec fn with_miner<E>(self, peer_info: PeerInfo, miner: MinerState) -> Settled<E> {
        installed(
            self.prior_state,
            self.prior_state_machine.active_signer_protocol_version,
            peer_info,
            miner,
        )
    }

    /// Where the call stands after `reply`. A reply to a request that it does not
    /// wait on leaves it as it is.
    pub open spec fn after<E>(self, reply: Reply<E>) -> Progress<BitcoinBlockArrival, Settled<E>> {
        match self.phase {
            ArrivalPhase::PeerInfo => match reply {
                Reply::PeerInfo(Err(e)) => Progress::Done(failed(SignerChainstateError::Service(e))),
                Reply::PeerInfo(Ok(peer_info)) => if behind(
                    self.expected_burn_height,
                    peer_info.burn_block_height,
                ) {
                    Progress::Done(
                        waiting(self.expected_burn_height->0, self.prior_state_machine),
                    )
                } else {
                    self.in_phase(ArrivalPhase::Sortitions { peer_info })
                },
                _ => Progress::Ask(self),
            },
            ArrivalPhase::Sortitions { peer_info } => match reply {
                Reply::CurrentAndLastSortition(Err(e)) => Progress::Done(
                    failed(SignerChainstateError::Service(e)),
                ),
                Reply::CurrentAndLastSortition(Ok(sortitions)) => match (
                    sortitions.current_sortition,
                    sortitions.last_sortition,
                ) {
                    (Err(e), _) => Progress::Done(failed(SignerChainstateError::Service(e))),
                    (Ok(current), Some(Ok(last))) => self.in_phase(
                        ArrivalPhase::CurrentTenure {
                            peer_info,
                            last,
                            check: TenureCheck::begin(Winner::Current, current, self.config),
                        },
                    ),
                    (Ok(_), _) => Progress::Done(
                        failed(
                            SignerChainstateError::ClientError(
                                ClientError::InvalidResponse(InvalidResponse::MissingSortition),
                            ),
                        ),
                    ),
                },
                _ => Progress::Ask(self),
            },
            ArrivalPhase::CurrentTenure { peer_info, last, check } => match check.after(reply) {
                Progress::Ask(next) => self.in_phase(
                    ArrivalPhase::CurrentTenure { peer_info, last, check: next },
                ),
                Progress::Done(Err(e)) => Progress::Done(
                    failed(SignerChainstateError::Service(e)),
                ),
                Progress::Done(Ok(true)) => self.in_phase(
                    ArrivalPhase::Miner {
                        peer_info,
                        call: MinerStateCall::begin(check.sortition, self.config),
                    },
                ),
                Progress::Done(Ok(false)) => self.in_phase(
                    ArrivalPhase::LastTenure {
                        peer_info,
                        check: TenureCheck::begin(Winner::Last, last, self.config),
                    },
                ),
            },
            ArrivalPhase::LastTenure { peer_info, check } => match check.after(reply) {
                Progress::Ask(next) => self.in_phase(
                    ArrivalPhase::LastTenure { peer_info, check: next },
                ),
                Progress::Done(Err(e)) => Progress::Done(
                    failed(SignerChainstateError::Service(e)),
                ),
                Progress::Done(Ok(true)) => self.in_phase(
                    ArrivalPhase::Miner {
                        peer_info,
                        call: MinerStateCall::begin(check.sortition, self.config),
                    },
                ),
                Progress::Done(Ok(false)) => Progress::Done(
                    self.with_miner(peer_info, MinerState::NoValidMiner),
                ),
            },
            ArrivalPhase::Miner { peer_info, call } => match call.after(reply) {
                Progress::Ask(next) => self.in_phase(ArrivalPhase::Miner { peer_info, call: next }),
                Progress::Done(Err(e)) => Progress::Done(failed(e)),
                Progress::Done(Ok(miner)) => Progress::Done(self.with_miner(peer_info, miner)),
            },
        }
    }

    /// The reply that `answers` holds to what the call waits on.
    pub open spec fn answer<E>(self, answers: ArrivalAnswers<E>) -> Reply<E> {
        match self.phase {
            ArrivalPhase::PeerInfo => Reply::PeerInfo(answers.peer_info),
            ArrivalPhase::Sortitions { .. } => Reply::CurrentAndLastSortition(answers.sortitions),
            ArrivalPhase::CurrentTenure { check, .. } => check.answer(answers.current),
            ArrivalPhase::LastTenure { check, .. } => check.answer(answers.last),
            ArrivalPhase::Miner { call, .. } => call.answer(answers.parent),
        }
    }

    /// The most requests that are still to come.
    pub open spec fn requests_left(self) -> nat {
        match self.phase {
            ArrivalPhase::PeerInfo => 14,
            ArrivalPhase::Sortitions { .. } => 13,
            ArrivalPhase::CurrentTenure { check, .. } => check.requests_left() + 7,
            ArrivalPhase::LastTenure { check, .. } => check.requests_left() + 2,
            ArrivalPhase::Miner { call, .. } => call.requests_left(),
        }
    }

    /// The end of the call when each request is answered from `answers`.
    pub open spec fn run<E>(self, answers: ArrivalAnswers<E>) -> Settled<E>
        decreases self.requests_left(),
    {
        match self.after(self.answer(answers)) {
            Progress::Ask(next) => next.run(answers),
            Progress::Done(settled) => settled,
        }
    }

    /// What the call waits on.
    pub fn request(&self) -> (request: Request)
        ensures
            self.asks(request),
    {
        match self.phase {
            ArrivalPhase::PeerInfo => Request::PeerInfo,
            ArrivalPhase::Sortitions { .. } => Request::CurrentAndLastSortition,
            ArrivalPhase::CurrentTenure { check, .. } => check.request(),
            ArrivalPhase::LastTenure { check, .. } => check.request(),
            ArrivalPhase::Miner { call, .. } => call.request(),
        }
    }

    /// Ends the call with `error`.
    fn fail<E>(error: SignerChainstateError<E>) -> (progress: Progress<
        BitcoinBlockArrival,
        Settled<E>,
    >)
        ensures
            progress == Progress::<BitcoinBlockArrival, Settled<E>>::Done(failed(error)),
    {
        Progress::Done(
            Settled {
                machine: LocalStateMachine::Uninitialized,
                outcome: Outcome { result: Err(error), update: None },
            },
        )
    }

    /// Ends the call with `miner` elected.
    fn install<E>(self, peer_info: PeerInfo, miner: MinerState) -> (progress: Progress<
        BitcoinBlockArrival,
        Settled<E>,
    >)
        ensures
            progress == Progress::<BitcoinBlockArrival, Settled<E>>::Done(
                self.with_miner(peer_info, miner),
            ),
    {
        let machine = LocalStateMachine::Initialized(
            SignerStateMachine {
                burn_block: peer_info.pox_consensus,
                burn_block_height: peer_info.burn_block_height,
                current_miner: miner,
                active_signer_protocol_version: self.prior_state_machine.active_signer_protocol_version,
            },
        );
        let update = if self.prior_state != machine {
            machine.send_signer_update_message()
        } else {
            None
        };
        Progress::Done(Settled { machine, outcome: Outcome { result: Ok(()), update } })
    }

    /// Goes on with `reply`.
    pub fn resume<E>(self, reply: Reply<E>) -> (progress: Progress<BitcoinBlockArrival, Settled<E>>)
        ensures
            progress == self.after(reply),
    {
        match self.phase {
            ArrivalPhase::PeerInfo => {
                let peer_info: PeerInfo = match reply {
                    Reply::PeerInfo(Ok(peer_info)) => peer_info,
                    Reply::PeerInfo(Err(e)) => {
                        return Self::fail(SignerChainstateError::Service(e));
                    },
                    _ => {
                        return Progress::Ask(self);
                    },
                };
                if let Some(expected_burn_height) = self.expected_burn_height {
                    if peer_info.burn_block_height < expected_burn_height {
                        return Progress::Done(
                            Settled {
                                machine: LocalStateMachine::Pending {
                                    update: StateMachineUpdate::BurnBlock(expected_burn_height),
                                    prior: self.prior_state_machine,
                                },
                                outcome: Outcome {
                                    result: Err(
                                        SignerChainstateError::ClientError(
                                            ClientError::InvalidResponse(
                                                InvalidResponse::BurnBlockNotProcessed,
                                            ),
                                        ),
                                    ),
                                    update: None,
                                },
                            },
                        );
                    }
                }
                Progress::Ask(
                    BitcoinBlockArrival { phase: ArrivalPhase::Sortitions { peer_info }, ..self },
                )
            },
            ArrivalPhase::Sortitions { peer_info } => {
                let sortitions: CurrentAndLastSortition<E> = match reply {
                    Reply::CurrentAndLastSortition(Ok(sortitions)) => sortitions,
                    Reply::CurrentAndLastSortition(Err(e)) => {
                        return Self::fail(SignerChainstateError::Service(e));
                    },
                    _ => {
                        return Progress::Ask(self);
                    },
                };
                let current: SortitionState = match sortitions.current_sortition {
                    Ok(current) => current,
                    Err(e) => {
                        return Self::fail(SignerChainstateError::Service(e));
                    },
                };
                let last: SortitionState = match sortitions.last_sortition {
                    Some(Ok(last)) => last,
                    _ => {
                        return Self::fail(
                            SignerChainstateError::ClientError(
                                ClientError::InvalidResponse(InvalidResponse::MissingSortition),
                            ),
                        );
                    },
                };
                let check = LocalStateMachine::is_tenure_valid(
                    Winner::Current,
                    &current,
                    &self.config,
                );
                Progress::Ask(
                    BitcoinBlockArrival {
                        phase: ArrivalPhase::CurrentTenure { peer_info, last, check },
                        ..self
                    },
                )
            },
            ArrivalPhase::CurrentTenure { peer_info, last, check } => match check.resume(reply) {
                Progress::Ask(next) => Progress::Ask(
                    BitcoinBlockArrival {
                        phase: ArrivalPhase::CurrentTenure { peer_info, last, check: next },
                        ..self
                    },
                ),
                Progress::Done(Err(e)) => Self::fail(SignerChainstateError::Service(e)),
                Progress::Done(Ok(is_current_valid)) => {
                    let phase = if is_current_valid {
                        ArrivalPhase::Miner {
                            peer_info,
                            call: LocalStateMachine::make_miner_state(
                                check.sortition,
                                &self.config,
                            ),
                        }
                    } else {
                        ArrivalPhase::LastTenure {
                            peer_info,
                            check: LocalStateMachine::is_tenure_valid(
                                Winner::Last,
                                &last,
                                &self.config,
                            ),
                        }
                    };
                    Progress::Ask(BitcoinBlockArrival { phase, ..self })
                },
            },
            ArrivalPhase::LastTenure { peer_info, check } => match check.resume(reply) {
                Progress::Ask(next) => Progress::Ask(
                    BitcoinBlockArrival {
                        phase: ArrivalPhase::LastTenure { peer_info, check: next },
                        ..self
                    },
                ),
                Progress::Done(Err(e)) => Self::fail(SignerChainstateError::Service(e)),
                Progress::Done(Ok(is_last_valid)) => {
                    if is_last_valid {
                        let call = LocalStateMachine::make_miner_state(
                            check.sortition,
                            &self.config,
                        );
                        Progress::Ask(
                            BitcoinBlockArrival {
                                phase: ArrivalPhase::Miner { peer_info, call },
                                ..self
                            },
                        )
                    } else {
                        // neither the current nor the prior sortition winner is considered a
                        // valid tenure
                        self.install(peer_info, MinerState::NoValidMiner)
                    }
                },
            },
            ArrivalPhase::Miner { peer_info, call } => match call.resume(reply) {
                Progress::Ask(next) => Progress::Ask(
                    BitcoinBlockArrival {
                        phase: ArrivalPhase::Miner { peer_info, call: next },
                        ..self
                    },
                ),
                Progress::Done(Err(e)) => Self::fail(e),
                Progress::Done(Ok(miner)) => self.install(peer_info, miner),
            },
        }
    }
}

/// In the phase that makes the miner's state, the call ends with what the making ends with.
proof fn lemma_miner_phase<E>(arrival: BitcoinBlockArrival, answers: ArrivalAnswers<E>)
    requires
        arrival.phase is Miner,
    ensures
        arrival.run(answers) == match arrival.phase->call.run(answers.parent) {
            Err(e) => failed(e),
            Ok(miner) => arrival.with_miner(arrival.phase->Miner_peer_info, miner),
        },
    decreases arrival.requests_left(),
{
    match arrival.after(arrival.answer(answers)) {
        Progress::Ask(next) => lemma_miner_phase(next, answers),
        Progress::Done(_) => {},
    }
}

/// In the phase that checks the sortition before the latest, the call ends as the check
/// decides.
proof fn lemma_last_tenure_phase<E>(arrival: BitcoinBlockArrival, answers: ArrivalAnswers<E>)
    requires
        arrival.phase is LastTenure,
    ensures
        arrival.run(answers) == match arrival.phase->LastTenure_check.run(answers.last) {
            Err(e) => failed(SignerChainstateError::Service(e)),
            Ok(true) => match crate::miner::miner_state_of(
                arrival.phase->LastTenure_check.sortition,
                answers.parent,
            ) {
                Err(e) => failed(e),
                Ok(miner) => arrival.with_miner(arrival.phase->LastTenure_peer_info, miner),
            },
            Ok(false) => arrival.with_miner(
                arrival.phase->LastTenure_peer_info,
                MinerState::NoValidMiner,
            ),
        },
    decreases arrival.requests_left(),
{
    match arrival.after(arrival.answer(answers)) {
        Progress::Ask(next) => if next.phase is LastTenure {
            lemma_last_tenure_phase(next, answers);
        } else {
            lemma_miner_phase(next, answers);
            crate::miner::law_miner_state_call(
                arrival.phase->LastTenure_check.sortition,
                arrival.config,
                answers.parent,
            );
        },
        Progress::Done(_) => {},
    }
}

/// In the phase that checks the latest sortition, the call ends as the check decides.
proof fn lemma_current_tenure_phase<E>(arrival: BitcoinBlockArrival, answers: ArrivalAnswers<E>)
    requires
        arrival.phase is CurrentTenure,
    ensures
        arrival.run(answers) == match arrival.phase->CurrentTenure_check.run(answers.current) {
            Err(e) => failed(SignerChainstateError::Service(e)),
            Ok(true) => match crate::miner::miner_state_of(
                arrival.phase->CurrentTenure_check.sortition,
                answers.parent,
            ) {
                Err(e) => failed(e),
                Ok(miner) => arrival.with_miner(arrival.phase->CurrentTenure_peer_info, miner),
            },
            Ok(false) => match crate::tenure::tenure_valid(arrival.config, answers.last) {
                Err(e) => failed(SignerChainstateError::Service(e)),
                Ok(true) => match crate::miner::miner_state_of(
                    arrival.phase->last,
                    answers.parent,
                ) {
                    Err(e) => failed(e),
                    Ok(miner) => arrival.with_miner(arrival.phase->CurrentTenure_peer_info, miner),
                },
                Ok(false) => arrival.with_miner(
                    arrival.phase->CurrentTenure_peer_info,
                    MinerState::NoValidMiner,
                ),
            },
        },
    decreases arrival.requests_left(),
{
    match arrival.after(arrival.answer(answers)) {
        Progress::Ask(next) => if next.phase is CurrentTenure {
            lemma_current_tenure_phase(next, answers);
        } else if next.phase is Miner {
            lemma_miner_phase(next, answers);
            crate::miner::law_miner_state_call(
                arrival.phase->CurrentTenure_check.sortition,
                arrival.config,
                answers.parent,
            );
        } else {
            lemma_last_tenure_phase(next, answers);
            crate::tenure::law_tenure_check(
                Winner::Last,
                arrival.phase->last,
                arrival.config,
                answers.last,
            );
        },
        Progress::Done(_) => {},
    }
}

/// The arrival of a burn block, with each of the call's requests answered, ends with
/// `arrival_result`.
pub proof fn law_bitcoin_block_arrival<E>(
    prior: LocalStateMachine,
    expected: Option<u64>,
    config: ProposalEvalConfig,
    answers: ArrivalAnswers<E>,
)
    ensures
        BitcoinBlockArrival::begin(prior, expected, config).run(answers) == arrival_result(
            prior,
            expected,
            config,
            answers,
        ),
{
    reveal_with_fuel(BitcoinBlockArrival::run, 3);
    let arrival = BitcoinBlockArrival::begin(prior, expected, config);
    match arrival.after(arrival.answer(answers)) {
        Progress::Ask(informed) => match informed.after(informed.answer(answers)) {
            Progress::Ask(next) => {
                lemma_current_tenure_phase(next, answers);
                crate::tenure::law_tenure_check(
                    Winner::Current,
                    next.phase->CurrentTenure_check.sortition,
                    config,
                    answers.current,
                );
            },
            Progress::Done(_) => {},
        },
        Progress::Done(_) => {},
    }
}

} // verus!
