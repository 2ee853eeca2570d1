//! The check on the current miner's activity.

use crate::calls::{Progress, Reply, Request, Winner};
use crate::chain::{ConsensusHash, ProposalEvalConfig, SortitionState};
use crate::errors::SignerChainstateError;
use crate::miner::{MinerState, MinerStateCall, ParentAnswers};
use crate::signer_state::{LocalStateMachine, Outcome, Settled, SignerStateMachine};
use crate::tenure::{TenureAnswers, TenureCheck};
use crate::timeout::{TimeoutAnswers, TimeoutCheck};
use vstd::prelude::*;

verus! {

/// What the outside answers to the requests of an `InactivityCheck`, asked or not.
pub struct InactivityAnswers<E> {
    /// What bears on whether the current miner has timed out.
    pub timeout: TimeoutAnswers<E>,
    /// The second of the two most recent sortitions with a winner.
    pub last_sortition: Result<Option<Result<SortitionState, E>>, E>,
    /// What bears on the tenure of the sortition before the latest.
    pub last: TenureAnswers<E>,
    /// What bears on that tenure's parent tenure.
    pub parent: ParentAnswers<E>,
}

/// The end of a check that changes nothing.
pub open spec fn unchanged<E>(
    state_machine: SignerStateMachine,
    result: Result<(), SignerChainstateError<E>>,
) -> Settled<E> {
    Settled {
        machine: LocalStateMachine::Initialized(state_machine),
        outcome: Outcome { result, update: None },
    }
}

/// The end of a check that puts `miner` in the place of the current miner, of which
/// the other signers are told.
pub open spec fn replaced<E>(state_machine: SignerStateMachine, miner: MinerState) -> Settled<E> {
    let changed = SignerStateMachine { current_miner: miner, ..state_machine };
    Settled {
        machine: LocalStateMachine::Initialized(changed),
        outcome: Outcome { result: Ok(()), update: Some(changed.update_message()) },
    }
}

/// The end of a check on the current miner of `state_machine`. If the miner has timed out,
/// the winner of the sortition before the latest takes its place, provided that there is
/// such a sortition and its tenure is valid; otherwise the miner is allowed to continue.
pub open spec fn inactivity_result<E>(
    state_machine: SignerStateMachine,
    config: ProposalEvalConfig,
    answers: InactivityAnswers<E>,
) -> Settled<E> {
    match crate::timeout::timed_out(config.block_proposal_timeout, answers.timeout) {
        Err(e) => unchanged(state_machine, Err(SignerChainstateError::Service(e))),
        Ok(false) => unchanged(state_machine, Ok(())),
        Ok(true) => match answers.last_sortition {
            Err(e) => unchanged(state_machine, Err(SignerChainstateError::Service(e))),
            Ok(last_sortition) => match last_sortition {
                Some(Ok(last)) => match crate::tenure::tenure_valid(config, answers.last) {
                    Err(e) => unchanged(state_machine, Err(SignerChainstateError::Service(e))),
                    Ok(false) => unchanged(state_machine, Ok(())),
                    Ok(true) => match crate::miner::miner_state_of(last, answers.parent) {
                        Err(e) => unchanged(state_machine, Err(e)),
                        Ok(miner) => replaced(state_machine, miner),
                    },
                },
                _ => unchanged(state_machine, Ok(())),
            },
        },
    }
}

/// What an `InactivityCheck` waits on.
#[derive(Debug, Clone, Copy, PartialEq, Eq)]
pub enum InactivityPhase {
    /// Whether the current miner has timed out.
    Timeout(TimeoutCheck),
    /// The second of the two most recent sortitions with a winner.
    LastSortition,
    /// Whether the tenure of the sortition before the latest is valid.
    LastTenure(TenureCheck),
    /// The making of that sortition's miner state.
    Miner(MinerStateCall),
}

/// A check under way on the current miner's activity.
#[derive(Debug, Clone, Copy, PartialEq, Eq)]
pub struct InactivityCheck {
    /// The view whose current miner is checked on.
    pub state_machine: SignerStateMachine,
    /// The durations to go by.
    pub config: ProposalEvalConfig,
    /// How far the check has come.
    pub phase: InactivityPhase,
}

impl InactivityCheck {
    /// The check as it begins on a view whose miner mines the tenure `tenure_id`.
    pub open spec fn begin(
        state_machine: SignerStateMachine,
        tenure_id: ConsensusHash,
        config: ProposalEvalConfig,
    ) -> InactivityCheck {
        InactivityCheck {
            state_machine,
            config,
            phase: InactivityPhase::Timeout(
                TimeoutCheck::begin(tenure_id, config.block_proposal_timeout),
            ),
        }
    }

    /// Whether `request` is what the check waits on.
    pub open spec fn asks(self, request: Request) -> bool {
        match self.phase {
            InactivityPhase::Timeout(check) => check.asks(request),
            InactivityPhase::LastSortition => request == Request::LastSortition,
            InactivityPhase::LastTenure(check) => check.asks(request),
            InactivityPhase::Miner(call) => call.asks(request),
        }
    }

    /// The check in another phase.
    pub open spec fn in_phase<E>(self, phase: InactivityPhase) -> Progress<
        InactivityCheck,
        Settled<E>,
    > {
        Progress::Ask(InactivityCheck { phase, ..self })
    }

    /// The check ended with `result`, and with nothing changed.
    pub open spec fn ended<E>(self, result: Result<(), SignerChainstateError<E>>) -> Progress<
        InactivityCheck,
        Settled<E>,
    > {
        Progress::Done(unchanged(self.state_machine, result))
    }

    /// Where the check stands after `reply`. A reply to a request that it does not
    /// wait on leaves it as it is.
    pub open spec fn after<E>(self, reply: Reply<E>) -> Progress<InactivityCheck, Settled<E>> {
        match self.phase {
            InactivityPhase::Timeout(check) => match check.after(reply) {
                Progress::Ask(next) => self.in_phase(InactivityPhase::Timeout(next)),
                Progress::Done(Err(e)) => self.ended(Err(SignerChainstateError::Service(e))),
                Progress::Done(Ok(false)) => self.ended(Ok(())),
                Progress::Done(Ok(true)) => self.in_phase(InactivityPhase::LastSortition),
            },
            InactivityPhase::LastSortition => match reply {
                Reply::LastSortition(Err(e)) => self.ended(
                    Err(SignerChainstateError::Service(e)),
                ),
                Reply::LastSortition(Ok(last_sortition)) => match last_sortition {
                    Some(Ok(last)) => self.in_phase(
                        InactivityPhase::LastTenure(
                            TenureCheck::begin(Winner::Last, last, self.config),
                        ),
                    ),
                    _ => self.ended(Ok(())),
                },
                _ => Progress::Ask(self),
            },
            InactivityPhase::LastTenure(check) => match check.after(reply) {
                Progress::Ask(next) => self.in_phase(InactivityPhase::LastTenure(next)),
                Progress::Done(Err(e)) => self.ended(Err(SignerChainstateError::Service(e))),
                Progress::Done(Ok(false)) => self.ended(Ok(())),
                Progress::Done(Ok(true)) => self.in_phase(
                    InactivityPhase::Miner(MinerStateCall::begin(check.sortition, self.config)),
                ),
            },
            InactivityPhase::Miner(call) => match call.after(reply) {
                Progress::Ask(next) => self.in_phase(InactivityPhase::Miner(next)),
                Progress::Done(Err(e)) => self.ended(Err(e)),
                Progress::Done(Ok(miner)) => Progress::Done(replaced(self.state_machine, miner)),
            },
        }
    }

    /// The reply that `answers` holds to what the check waits on.
    pub open spec fn answer<E>(self, answers: InactivityAnswers<E>) -> Reply<E> {
        match self.phase {
            InactivityPhase::Timeout(check) => check.answer(answers.timeout),
            InactivityPhase::LastSortition => Reply::LastSortition(answers.last_sortition),
            InactivityPhase::LastTenure(check) => check.answer(answers.last),
            InactivityPhase::Miner(call) => call.answer(answers.parent),
        }
    }

    /// The most requests that are still to come.
    pub open spec fn requests_left(self) -> nat {
        match self.phase {
            InactivityPhase::Timeout(check) => check.requests_left() + 8,
            InactivityPhase::LastSortition => 8,
            InactivityPhase::LastTenure(check) => check.requests_left() + 2,
            InactivityPhase::Miner(call) => call.requests_left(),
        }
    }

    /// The end of the check when each request is answered from `answers`.
    pub open spec fn run<E>(self, answers: InactivityAnswers<E>) -> Settled<E>
        decreases self.requests_left(),
    {
        match self.after(self.answer(answers)) {
            Progress::Ask(next) => next.run(answers),
            Progress::Done(settled) => settled,
        }
    }

    /// What the check waits on.
    pub fn request(&self) -> (request: Request)
        ensures
            self.asks(request),
    {
        match self.phase {
            InactivityPhase::Timeout(check) => check.request(),
            InactivityPhase::LastSortition => Request::LastSortition,
            InactivityPhase::LastTenure(check) => check.request(),
            InactivityPhase::Miner(call) => call.request(),
        }
    }

    /// Moves on to another phase.
    fn ask<E>(self, phase: InactivityPhase) -> (progress: Progress<InactivityCheck, Settled<E>>)
        ensures
            progress == self.in_phase::<E>(phase),
    {
        Progress::Ask(InactivityCheck { phase, ..self })
    }

    /// Ends the check with `result`, and with nothing changed.
    fn end<E>(self, result: Result<(), SignerChainstateError<E>>) -> (progress: Progress<
        InactivityCheck,
        Settled<E>,
    >)
        ensures
            progress == self.ended(result),
    {
        Progress::Done(
            Settled {
                machine: LocalStateMachine::Initialized(self.state_machine),
                outcome: Outcome { result, update: None },
            },
        )
    }

    /// Goes on with `reply`.
    pub fn resume<E>(self, reply: Reply<E>) -> (progress: Progress<InactivityCheck, Settled<E>>)
        ensures
            progress == self.after(reply),
    {
        match self.phase {
            InactivityPhase::Timeout(check) => match check.resume(reply) {
                Progress::Ask(next) => self.ask(InactivityPhase::Timeout(next)),
                Progress::Done(Err(e)) => self.end(Err(SignerChainstateError::Service(e))),
                Progress::Done(Ok(timed_out)) => {
                    if !timed_out {
                        self.end(Ok(()))
                    } else {
                        // the tenure timed out, try to see if we can use the prior tenure instead
                        self.ask(InactivityPhase::LastSortition)
                    }
                },
            },
            InactivityPhase::LastSortition => match reply {
                Reply::LastSortition(Err(e)) => {
                    self.end(Err(SignerChainstateError::Service(e)))
                },
                Reply::LastSortition(Ok(last_sortition)) => {
                    let last: SortitionState = match last_sortition {
                        Some(Ok(last)) => last,
                        _ => {
                            // could not find a valid prior miner: the current miner continues
                            return self.end(Ok(()));
                        },
                    };
                    self.ask(
                        InactivityPhase::LastTenure(
                            LocalStateMachine::is_tenure_valid(Winner::Last, &last, &self.config),
                        ),
                    )
                },
                _ => Progress::Ask(self),
            },
            InactivityPhase::LastTenure(check) => match check.resume(reply) {
                Progress::Ask(next) => self.ask(InactivityPhase::LastTenure(next)),
                Progress::Done(Err(e)) => self.end(Err(SignerChainstateError::Service(e))),
                Progress::Done(Ok(valid)) => {
                    if valid {
                        self.ask(
                            InactivityPhase::Miner(
                                LocalStateMachine::make_miner_state(check.sortition, &self.config),
                            ),
                        )
                    } else {
                        // the prior miner is not valid: the current miner continues
                        self.end(Ok(()))
                    }
                },
            },
            InactivityPhase::Miner(call) => match call.resume(reply) {
                Progress::Ask(next) => self.ask(InactivityPhase::Miner(next)),
                Progress::Done(Err(e)) => self.end(Err(e)),
                Progress::Done(Ok(miner)) => {
                    let machine = LocalStateMachine::Initialized(
                        SignerStateMachine { current_miner: miner, ..self.state_machine },
                    );
                    // We have updated our state, so let other signers know.
                    let update = machine.send_signer_update_message();
                    Progress::Done(Settled { machine, outcome: Outcome { result: Ok(()), update } })
                },
            },
        }
    }
}

/// In the phase that makes the miner's state, the check ends with what the making ends with.
proof fn lemma_miner_phase<E>(check: InactivityCheck, answers: InactivityAnswers<E>)
    requires
        check.phase is Miner,
    ensures
        check.run(answers) == match check.phase->Miner_0.run(answers.parent) {
            Err(e) => unchanged(check.state_machine, Err(e)),
            Ok(miner) => replaced(check.state_machine, miner),
        },
    decreases check.requests_left(),
{
    match check.after(check.answer(answers)) {
        Progress::Ask(next) => lemma_miner_phase(next, answers),
        Progress::Done(_) => {},
    }
}

/// In the phase that checks the sortition before the latest, the check ends as that
/// check decides.
proof fn lemma_last_tenure_phase<E>(check: InactivityCheck, answers: InactivityAnswers<E>)
    requires
        check.phase is LastTenure,
    ensures
        check.run(answers) == match check.phase->LastTenure_0.run(answers.last) {
            Err(e) => unchanged(check.state_machine, Err(SignerChainstateError::Service(e))),
            Ok(true) => match crate::miner::miner_state_of(
                check.phase->LastTenure_0.sortition,
                answers.parent,
            ) {
                Err(e) => unchanged(check.state_machine, Err(e)),
                Ok(miner) => replaced(check.state_machine, miner),
            },
            Ok(false) => unchanged(check.state_machine, Ok(())),
        },
    decreases check.requests_left(),
{
    match check.after(check.answer(answers)) {
        Progress::Ask(next) => if next.phase is LastTenure {
            lemma_last_tenure_phase(next, answers);
        } else {
            lemma_miner_phase(next, answers);
            crate::miner::law_miner_state_call(
                check.phase->LastTenure_0.sortition,
                check.config,
                answers.parent,
            );
        },
        Progress::Done(_) => {},
    }
}

/// In the phase that checks the current miner's timeout, the check ends as that check
/// decides.
proof fn lemma_timeout_phase<E>(check: InactivityCheck, answers: InactivityAnswers<E>)
    requires
        check.phase is Timeout,
    ensures
        check.run(answers) == match check.phase->Timeout_0.run(answers.timeout) {
            Err(e) => unchanged(check.state_machine, Err(SignerChainstateError::Service(e))),
            Ok(false) => unchanged(check.state_machine, Ok(())),
            Ok(true) => (InactivityCheck { phase: InactivityPhase::LastSortition, ..check }).run(
                answers,
            ),
        },
    decreases check.requests_left(),
{
    match check.after(check.answer(answers)) {
        Progress::Ask(next) => if next.phase is Timeout {
            lemma_timeout_phase(next, answers);
        },
        Progress::Done(_) => {},
    }
}

/// A check on the current miner's activity, with each of its requests answered, ends with
/// `inactivity_result`.
pub proof fn law_inactivity_check<E>(
    state_machine: SignerStateMachine,
    tenure_id: ConsensusHash,
    config: ProposalEvalConfig,
    answers: InactivityAnswers<E>,
)
    ensures
        InactivityCheck::begin(state_machine, tenure_id, config).run(answers) == inactivity_result(
            state_machine,
            config,
            answers,
        ),
{
    let check = InactivityCheck::begin(state_machine, tenure_id, config);
    lemma_timeout_phase(check, answers);
    crate::timeout::law_timeout_check(
        tenure_id,
        config.block_proposal_timeout,
        answers.timeout,
    );
    let inactive = InactivityCheck { phase: InactivityPhase::LastSortition, ..check };
    match inactive.after(inactive.answer(answers)) {
        Progress::Ask(next) => {
            lemma_last_tenure_phase(next, answers);
            crate::tenure::law_tenure_check(
                Winner::Last,
                next.phase->LastTenure_0.sortition,
                config,
                answers.last,
            );
        },
        Progress::Done(_) => {},
    }
}

} // verus!
