//! Whether the winner of a sortition may be followed as the miner of its tenure.

use crate::calls::{Progress, Reply, Request, Winner};
use crate::chain::{NakamotoBlock, ProposalEvalConfig, SortitionState};
use crate::signer_state::LocalStateMachine;
use crate::timeout::{TimeoutAnswers, TimeoutCheck};
use vstd::prelude::*;

verus! {

/// What the outside answers to the requests of a `TenureCheck`, asked or not.
pub struct TenureAnswers<E> {
    /// Whether the sortition's winner chose an appropriate parent tenure.
    pub parent_choice: Result<bool, E>,
    /// What bears on whether the tenure has timed out.
    pub timeout: TimeoutAnswers<E>,
}

/// Whether the winner of a sortition chose an appropriate parent tenure and its own
/// tenure has not timed out.
pub open spec fn tenure_valid<E>(config: ProposalEvalConfig, answers: TenureAnswers<E>) -> Result<
    bool,
    E,
> {
    match answers.parent_choice {
        Err(e) => Err(e),
        Ok(false) => Ok(false),
        Ok(true) => match crate::timeout::timed_out(config.block_proposal_timeout, answers.timeout) {
            Err(e) => Err(e),
            Ok(timed_out) => Ok(!timed_out),
        },
    }
}

/// What a `TenureCheck` waits on.
#[derive(Debug, Clone, Copy, PartialEq, Eq)]
pub enum TenurePhase {
    /// Whether the parent tenure was an appropriate choice.
    ParentChoice,
    /// Whether the tenure has timed out.
    Timeout(TimeoutCheck),
}

/// A check under way of whether a tenure is valid.
#[derive(Debug, Clone, Copy, PartialEq, Eq)]
pub struct TenureCheck {
    /// Which of the two known sortitions the tenure comes from.
    pub winner: Winner,
    /// That sortition.
    pub sortition: SortitionState,
    /// The durations to go by.
    pub config: ProposalEvalConfig,
    /// How far the check has come.
    pub phase: TenurePhase,
}

impl TenureCheck {
    /// The check as it begins.
    pub open spec fn begin(
        winner: Winner,
        sortition: SortitionState,
        config: ProposalEvalConfig,
    ) -> TenureCheck {
        TenureCheck { winner, sortition, config, phase: TenurePhase::ParentChoice }
    }

    /// The timeout check that decides once the parent tenure is known to be an
    /// appropriate choice.
    pub open spec fn timeout_check(self) -> TimeoutCheck {
        TimeoutCheck::begin(self.sortition.consensus_hash, self.config.block_proposal_timeout)
    }

    /// Whether `request` is what the check waits on.
    pub open spec fn asks(self, request: Request) -> bool {
        match self.phase {
            TenurePhase::ParentChoice => {
                &&& request matches Request::ParentTenureChoice {
                    winner,
                    sortition,
                    standin_block,
                    first_proposal_burn_block_timing,
                }
                &&& winner == self.winner
                &&& sortition == self.sortition
                &&& standin_block.is_standin_for(self.sortition.consensus_hash)
                &&& first_proposal_burn_block_timing
                    == self.config.first_proposal_burn_block_timing
            },
            TenurePhase::Timeout(check) => check.asks(request),
        }
    }

    /// Where the check stands after `reply`. A reply to a request that it does not
    /// wait on leaves it as it is.
    pub open spec fn after<E>(self, reply: Reply<E>) -> Progress<TenureCheck, Result<bool, E>> {
        match self.phase {
            TenurePhase::ParentChoice => match reply {
                Reply::ParentTenureChoice(Err(e)) => Progress::Done(Err(e)),
                Reply::ParentTenureChoice(Ok(false)) => Progress::Done(Ok(false)),
                Reply::ParentTenureChoice(Ok(true)) => Progress::Ask(
                    TenureCheck { phase: TenurePhase::Timeout(self.timeout_check()), ..self },
                ),
                _ => Progress::Ask(self),
            },
            TenurePhase::Timeout(check) => match check.after(reply) {
                Progress::Ask(next) => Progress::Ask(
                    TenureCheck { phase: TenurePhase::Timeout(next), ..self },
                ),
                Progress::Done(Err(e)) => Progress::Done(Err(e)),
                Progress::Done(Ok(timed_out)) => Progress::Done(Ok(!timed_out)),
            },
        }
    }

    /// The reply that `answers` holds to what the check waits on.
    pub open spec fn answer<E>(self, answers: TenureAnswers<E>) -> Reply<E> {
        match self.phase {
            TenurePhase::ParentChoice => Reply::ParentTenureChoice(answers.parent_choice),
            TenurePhase::Timeout(check) => check.answer(answers.timeout),
        }
    }

    /// The most requests that are still to come.
    pub open spec fn requests_left(self) -> nat {
        match self.phase {
            TenurePhase::ParentChoice => 5,
            TenurePhase::Timeout(check) => check.requests_left(),
        }
    }

    /// The result of the check when each request is answered from `answers`.
    pub open spec fn run<E>(self, answers: TenureAnswers<E>) -> Result<bool, E>
        decreases self.requests_left(),
    {
        match self.after(self.answer(answers)) {
            Progress::Ask(next) => next.run(answers),
            Progress::Done(result) => result,
        }
    }

    /// What the check waits on.
    pub fn request(&self) -> (request: Request)
        ensures
            self.asks(request),
    {
        match self.phase {
            TenurePhase::ParentChoice => Request::ParentTenureChoice {
                winner: self.winner,
                sortition: self.sortition,
                standin_block: NakamotoBlock::standin(self.sortition.consensus_hash),
                first_proposal_burn_block_timing: self.config.first_proposal_burn_block_timing,
            },
            TenurePhase::Timeout(check) => check.request(),
        }
    }

    /// Goes on with `reply`.
    pub fn resume<E>(self, reply: Reply<E>) -> (progress: Progress<TenureCheck, Result<bool, E>>)
        ensures
            progress == self.after(reply),
    {
        match self.phase {
            TenurePhase::ParentChoice => match reply {
                Reply::ParentTenureChoice(Err(e)) => Progress::Done(Err(e)),
                Reply::ParentTenureChoice(Ok(chose_good_parent)) => {
                    if !chose_good_parent {
                        Progress::Done(Ok(false))
                    } else {
                        let check = LocalStateMachine::is_timed_out(
                            &self.sortition.consensus_hash,
                            &self.config,
                        );
                        Progress::Ask(TenureCheck { phase: TenurePhase::Timeout(check), ..self })
                    }
                },
                _ => Progress::Ask(self),
            },
            TenurePhase::Timeout(check) => match check.resume(reply) {
                Progress::Ask(next) => Progress::Ask(
                    TenureCheck { phase: TenurePhase::Timeout(next), ..self },
                ),
                Progress::Done(Err(e)) => Progress::Done(Err(e)),
                Progress::Done(Ok(timed_out)) => Progress::Done(Ok(!timed_out)),
            },
        }
    }
}

/// Once it has come to its timeout check, a tenure check ends with the opposite of
/// what the timeout check ends with.
proof fn lemma_timeout_phase<E>(check: TenureCheck, answers: TenureAnswers<E>)
    requires
        check.phase is Timeout,
    ensures
        check.run(answers) == match check.phase->0.run(answers.timeout) {
            Err(e) => Err(e),
            Ok(timed_out) => Ok(!timed_out),
        },
    decreases check.requests_left(),
{
    match check.after(check.answer(answers)) {
        Progress::Ask(next) => lemma_timeout_phase(next, answers),
        Progress::Done(_) => {},
    }
}

/// A tenure check, with each of its requests answered, ends with `tenure_valid`.
pub proof fn law_tenure_check<E>(
    winner: Winner,
    sortition: SortitionState,
    config: ProposalEvalConfig,
    answers: TenureAnswers<E>,
)
    ensures
        TenureCheck::begin(winner, sortition, config).run(answers) == tenure_valid(
            config,
            answers,
        ),
{
    let check = TenureCheck::begin(winner, sortition, config);
    match check.after(check.answer(answers)) {
        Progress::Ask(next) => {
            lemma_timeout_phase(next, answers);
            crate::timeout::law_timeout_check(
                sortition.consensus_hash,
                config.block_proposal_timeout,
                answers.timeout,
            );
        },
        Progress::Done(_) => {},
    }
}

} // verus!
