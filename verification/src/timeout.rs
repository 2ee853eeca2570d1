//! Whether the miner of a tenure has been inactive for too long.

use crate::calls::{Progress, Reply, Request};
use crate::chain::ConsensusHash;
use vstd::prelude::*;

verus! {

/// How many nanoseconds a second has.
pub const NANOS_PER_SECOND: i128 = 1_000_000_000;

/// What the outside answers to the requests of a `TimeoutCheck`, asked or not.
pub struct TimeoutAnswers<E> {
    /// Whether this signer has signed a block in the tenure.
    pub signed: Result<bool, E>,
    /// When the tenure's burn block was received, in seconds.
    pub received: Result<Option<u64>, E>,
    /// When the miner was last active, in seconds.
    pub activity: Result<Option<u64>, E>,
    /// The time, in nanoseconds.
    pub now: i128,
}

/// Whether more than `timeout` nanoseconds lie between the second `since` and the
/// nanosecond `now`.
pub open spec fn inactive_too_long(since: u64, now: i128, timeout: u128) -> bool {
    now - since * NANOS_PER_SECOND > timeout
}

/// Whether a tenure has timed out. It has not if a block was signed in it, or if
/// nothing is known of its burn block. Otherwise it has if the miner's last activity,
/// or the receipt of the burn block where there was none, is longer ago than `timeout`.
pub open spec fn timed_out<E>(timeout: u128, answers: TimeoutAnswers<E>) -> Result<bool, E> {
    match answers.signed {
        Err(e) => Err(e),
        Ok(true) => Ok(false),
        Ok(false) => match answers.received {
            Err(e) => Err(e),
            Ok(None) => Ok(false),
            Ok(Some(received)) => match answers.activity {
                Err(e) => Err(e),
                Ok(None) => Ok(inactive_too_long(received, answers.now, timeout)),
                Ok(Some(active)) => Ok(inactive_too_long(active, answers.now, timeout)),
            },
        },
    }
}

/// The request that a `TimeoutCheck` waits on.
#[derive(Debug, Clone, Copy, PartialEq, Eq, Structural)]
pub enum TimeoutPhase {
    /// Whether a block was signed in the tenure.
    SignedBlock,
    /// When the tenure's burn block was received.
    ReceiveTime,
    /// When the miner was last active.
    LastActivity {
        /// When the tenure's burn block was received, in seconds.
        received: u64,
    },
    /// The time.
    CurrentTime {
        /// Since when the miner has been inactive, in seconds.
        since: u64,
    },
}

/// A check under way of whether a tenure has timed out.
#[derive(Debug, Clone, Copy, PartialEq, Eq)]
pub struct TimeoutCheck {
    /// The tenure.
    pub tenure: ConsensusHash,
    /// How long its miner may stay inactive, in nanoseconds.
    pub timeout: u128,
    /// How far the check has come.
    pub phase: TimeoutPhase,
}

impl TimeoutCheck {
    /// The check as it begins.
    pub open spec fn begin(tenure: ConsensusHash, timeout: u128) -> TimeoutCheck {
        TimeoutCheck { tenure, timeout, phase: TimeoutPhase::SignedBlock }
    }

    /// Whether `request` is what the check waits on.
    pub open spec fn asks(self, request: Request) -> bool {
        match self.phase {
            TimeoutPhase::SignedBlock =>
                request == (Request::SignedBlockInTenure { tenure: self.tenure }),
            TimeoutPhase::ReceiveTime =>
                request == (Request::BurnBlockReceiveTime { tenure: self.tenure }),
            TimeoutPhase::LastActivity { .. } =>
                request == (Request::LastActivityTime { tenure: self.tenure }),
            TimeoutPhase::CurrentTime { .. } => request == Request::CurrentTime,
        }
    }

    /// Where the check stands after `reply`. A reply to a request that it does not
    /// wait on leaves it as it is.
    pub open spec fn after<E>(self, reply: Reply<E>) -> Progress<TimeoutCheck, Result<bool, E>> {
        match (self.phase, reply) {
            (TimeoutPhase::SignedBlock, Reply::SignedBlockInTenure(signed)) => match signed {
                Err(e) => Progress::Done(Err(e)),
                Ok(true) => Progress::Done(Ok(false)),
                Ok(false) => Progress::Ask(
                    TimeoutCheck { phase: TimeoutPhase::ReceiveTime, ..self },
                ),
            },
            (TimeoutPhase::ReceiveTime, Reply::BurnBlockReceiveTime(received)) => match received {
                Err(e) => Progress::Done(Err(e)),
                Ok(None) => Progress::Done(Ok(false)),
                Ok(Some(received)) => Progress::Ask(
                    TimeoutCheck { phase: TimeoutPhase::LastActivity { received }, ..self },
                ),
            },
            (TimeoutPhase::LastActivity { received }, Reply::LastActivityTime(activity)) => {
                match activity {
                    Err(e) => Progress::Done(Err(e)),
                    Ok(None) => Progress::Ask(
                        TimeoutCheck {
                            phase: TimeoutPhase::CurrentTime { since: received },
                            ..self
                        },
                    ),
                    Ok(Some(active)) => Progress::Ask(
                        TimeoutCheck {
                            phase: TimeoutPhase::CurrentTime { since: active },
                            ..self
                        },
                    ),
                }
            },
            (TimeoutPhase::CurrentTime { since }, Reply::CurrentTime(now)) => Progress::Done(
                Ok(inactive_too_long(since, now, self.timeout)),
            ),
            _ => Progress::Ask(self),
        }
    }

    /// The reply that `answers` holds to what the check waits on.
    pub open spec fn answer<E>(self, answers: TimeoutAnswers<E>) -> Reply<E> {
        match self.phase {
            TimeoutPhase::SignedBlock => Reply::SignedBlockInTenure(answers.signed),
            TimeoutPhase::ReceiveTime => Reply::BurnBlockReceiveTime(answers.received),
            TimeoutPhase::LastActivity { .. } => Reply::LastActivityTime(answers.activity),
            TimeoutPhase::CurrentTime { .. } => Reply::CurrentTime(answers.now),
        }
    }

    /// The most requests that are still to come.
    pub open spec fn requests_left(self) -> nat {
        match self.phase {
            TimeoutPhase::SignedBlock => 4,
            TimeoutPhase::ReceiveTime => 3,
            TimeoutPhase::LastActivity { .. } => 2,
            TimeoutPhase::CurrentTime { .. } => 1,
        }
    }

    /// The result of the check when each request is answered from `answers`.
    pub open spec fn run<E>(self, answers: TimeoutAnswers<E>) -> Result<bool, E>
        decreases self.requests_left(),
    {
        match self.after(self.answer(answers)) {
            Progress::Ask(next) => next.run(answers),
            Progress::Done(result) => result,
        }
    }

    /// What the check waits on.
    pub fn request(&self) -> (request: Request)
        ensures
            self.asks(request),
    {
        match self.phase {
            TimeoutPhase::SignedBlock => Request::SignedBlockInTenure { tenure: self.tenure },
            TimeoutPhase::ReceiveTime => Request::BurnBlockReceiveTime { tenure: self.tenure },
            TimeoutPhase::LastActivity { .. } => Request::LastActivityTime { tenure: self.tenure },
            TimeoutPhase::CurrentTime { .. } => Request::CurrentTime,
        }
    }

    /// Goes on with `reply`.
    pub fn resume<E>(self, reply: Reply<E>) -> (progress: Progress<TimeoutCheck, Result<bool, E>>)
        ensures
            progress == self.after(reply),
    {
        match (self.phase, reply) {
            (TimeoutPhase::SignedBlock, Reply::SignedBlockInTenure(signed)) => match signed {
                Err(e) => Progress::Done(Err(e)),
                Ok(has_block) => {
                    if has_block {
                        // a miner whose block was signed cannot have timed out
                        Progress::Done(Ok(false))
                    } else {
                        Progress::Ask(TimeoutCheck { phase: TimeoutPhase::ReceiveTime, ..self })
                    }
                },
            },
            (TimeoutPhase::ReceiveTime, Reply::BurnBlockReceiveTime(received)) => match received {
                Err(e) => Progress::Done(Err(e)),
                Ok(None) => Progress::Done(Ok(false)),
                Ok(Some(received)) => Progress::Ask(
                    TimeoutCheck { phase: TimeoutPhase::LastActivity { received }, ..self },
                ),
            },
            (TimeoutPhase::LastActivity { received }, Reply::LastActivityTime(activity)) => {
                match activity {
                    Err(e) => Progress::Done(Err(e)),
                    Ok(active) => {
                        let since: u64 = match active {
                            Some(time) => time,
                            None => received,
                        };
                        Progress::Ask(
                            TimeoutCheck { phase: TimeoutPhase::CurrentTime { since }, ..self },
                        )
                    },
                }
            },
            (TimeoutPhase::CurrentTime { since }, Reply::CurrentTime(now)) => {
                let last_activity: i128 = since as i128 * NANOS_PER_SECOND;
                if now < last_activity {
                    Progress::Done(Ok(false))
                } else {
                    let elapsed: u128 = (now - last_activity) as u128;
                    Progress::Done(Ok(elapsed > self.timeout))
                }
            },
            (_, _) => Progress::Ask(self),
        }
    }
}

/// A timeout check, with each of its requests answered, ends with `timed_out`.
pub proof fn law_timeout_check<E>(
    tenure: ConsensusHash,
    timeout: u128,
    answers: TimeoutAnswers<E>,
)
    ensures
        TimeoutCheck::begin(tenure, timeout).run(answers) == timed_out(timeout, answers),
{
    reveal_with_fuel(TimeoutCheck::run, 5);
}

} // verus!
