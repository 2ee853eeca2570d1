//! Calls as they go in practice: with one reply after the other.
//!
//! What a call ends with is stated over the answers that the outside has to each of its
//! requests. Here it is shown that nothing is lost by that. Whatever replies a call gets, in
//! whatever order, there are answers that hold the replies, and the call ends as it does
//! with these answers. `LocalStateMachine::resume_all` drives a machine through replies.

#![allow(unused_imports)]

use crate::arrival::{ArrivalAnswers, ArrivalPhase, BitcoinBlockArrival};
use crate::calls::{Progress, Reply};
use crate::chain::{ConsensusHash, ProposalEvalConfig};
use crate::inactivity::{InactivityAnswers, InactivityCheck, InactivityPhase};
use crate::miner::{MinerStateCall, MinerStatePhase, ParentAnswers};
use crate::signer_state::{Call, LocalStateMachine, Settled, SignerStateMachine};
use crate::tenure::{TenureAnswers, TenureCheck, TenurePhase};
use crate::timeout::{TimeoutAnswers, TimeoutCheck, TimeoutPhase};
use vstd::prelude::*;

verus! {

/// Whether `answers` hold each of `replies` that an arrival takes when it goes on with them
/// in turn: a reply that it takes is the answer to what it waits on then. A reply to what it
/// does not wait on, or one that is left over, is not taken.
pub open spec fn arrival_answers_hold<E>(
    arrival: BitcoinBlockArrival,
    replies: Seq<Reply<E>>,
    answers: ArrivalAnswers<E>,
) -> bool
    decreases replies.len(),
{
    if replies.len() == 0 {
        true
    } else {
        match arrival.after(replies.first()) {
            Progress::Ask(next) => {
                &&& next == arrival || arrival.answer(answers) == replies.first()
                &&& arrival_answers_hold(next, replies.drop_first(), answers)
            },
            Progress::Done(_) => arrival.answer(answers) == replies.first(),
        }
    }
}

/// Whether `answers` hold each of `replies` that an inactivity check takes when it goes on
/// with them in turn: a reply that it takes is the answer to what it waits on then. A reply
/// to what it does not wait on, or one that is left over, is not taken.
pub open spec fn inactivity_answers_hold<E>(
    check: InactivityCheck,
    replies: Seq<Reply<E>>,
    answers: InactivityAnswers<E>,
) -> bool
    decreases replies.len(),
{
    if replies.len() == 0 {
        true
    } else {
        match check.after(replies.first()) {
            Progress::Ask(next) => {
                &&& next == check || check.answer(answers) == replies.first()
                &&& inactivity_answers_hold(next, replies.drop_first(), answers)
            },
            Progress::Done(_) => check.answer(answers) == replies.first(),
        }
    }
}

/// `answers` with `reply` in the place of what the check waits on.
spec fn timeout_record<E>(
    check: TimeoutCheck,
    reply: Reply<E>,
    answers: TimeoutAnswers<E>,
) -> TimeoutAnswers<E> {
    match (check.phase, reply) {
        (TimeoutPhase::SignedBlock, Reply::SignedBlockInTenure(signed)) => TimeoutAnswers {
            signed,
            ..answers
        },
        (TimeoutPhase::ReceiveTime, Reply::BurnBlockReceiveTime(received)) => TimeoutAnswers {
            received,
            ..answers
        },
        (TimeoutPhase::LastActivity { .. }, Reply::LastActivityTime(activity)) => TimeoutAnswers {
            activity,
            ..answers
        },
        (TimeoutPhase::CurrentTime { .. }, Reply::CurrentTime(now)) => TimeoutAnswers {
            now,
            ..answers
        },
        _ => answers,
    }
}

/// `answers` with `reply` in the place of what the check waits on.
spec fn tenure_record<E>(
    check: TenureCheck,
    reply: Reply<E>,
    answers: TenureAnswers<E>,
) -> TenureAnswers<E> {
    match check.phase {
        TenurePhase::ParentChoice => match reply {
            Reply::ParentTenureChoice(parent_choice) => TenureAnswers { parent_choice, ..answers },
            _ => answers,
        },
        TenurePhase::Timeout(timeout_check) => TenureAnswers {
            timeout: timeout_record(timeout_check, reply, answers.timeout),
            ..answers
        },
    }
}

/// `answers` with `reply` in the place of what the call waits on.
spec fn parent_record<E>(
    call: MinerStateCall,
    reply: Reply<E>,
    answers: ParentAnswers<E>,
) -> ParentAnswers<E> {
    match (call.phase, reply) {
        (MinerStatePhase::TenureTip, Reply::TenureTip(node)) => ParentAnswers { node, ..answers },
        (MinerStatePhase::TenureLastBlock { .. }, Reply::TenureLastBlock(signer_db)) => {
            ParentAnswers { signer_db, ..answers }
        },
        _ => answers,
    }
}

/// `answers` with `reply` in the place of what the call waits on.
spec fn arrival_record<E>(
    arrival: BitcoinBlockArrival,
    reply: Reply<E>,
    answers: ArrivalAnswers<E>,
) -> ArrivalAnswers<E> {
    match arrival.phase {
        ArrivalPhase::PeerInfo => match reply {
            Reply::PeerInfo(peer_info) => ArrivalAnswers { peer_info, ..answers },
            _ => answers,
        },
        ArrivalPhase::Sortitions { .. } => match reply {
            Reply::CurrentAndLastSortition(sortitions) => ArrivalAnswers { sortitions, ..answers },
            _ => answers,
        },
        ArrivalPhase::CurrentTenure { check, .. } => ArrivalAnswers {
            current: tenure_record(check, reply, answers.current),
            ..answers
        },
        ArrivalPhase::LastTenure { check, .. } => ArrivalAnswers {
            last: tenure_record(check, reply, answers.last),
            ..answers
        },
        ArrivalPhase::Miner { call, .. } => ArrivalAnswers {
            parent: parent_record(call, reply, answers.parent),
            ..answers
        },
    }
}

/// `answers` with `reply` in the place of what the check waits on.
spec fn inactivity_record<E>(
    check: InactivityCheck,
    reply: Reply<E>,
    answers: InactivityAnswers<E>,
) -> InactivityAnswers<E> {
    match check.phase {
        InactivityPhase::Timeout(timeout_check) => InactivityAnswers {
            timeout: timeout_record(timeout_check, reply, answers.timeout),
            ..answers
        },
        InactivityPhase::LastSortition => match reply {
            Reply::LastSortition(last_sortition) => InactivityAnswers {
                last_sortition,
                ..answers
            },
            _ => answers,
        },
        InactivityPhase::LastTenure(tenure_check) => InactivityAnswers {
            last: tenure_record(tenure_check, reply, answers.last),
            ..answers
        },
        InactivityPhase::Miner(call) => InactivityAnswers {
            parent: parent_record(call, reply, answers.parent),
            ..answers
        },
    }
}

/// Whether `a` and `b` agree on all that the check may still ask.
spec fn timeout_agree<E>(
    check: TimeoutCheck,
    a: TimeoutAnswers<E>,
    b: TimeoutAnswers<E>,
) -> bool {
    &&& check.phase is SignedBlock ==> a.signed == b.signed
    &&& check.phase is SignedBlock || check.phase is ReceiveTime ==> a.received == b.received
    &&& !(check.phase is CurrentTime) ==> a.activity == b.activity
    &&& a.now == b.now
}

/// Whether `a` and `b` agree on all that the check may still ask.
spec fn tenure_agree<E>(check: TenureCheck, a: TenureAnswers<E>, b: TenureAnswers<E>) -> bool {
    match check.phase {
        TenurePhase::ParentChoice => a == b,
        TenurePhase::Timeout(timeout_check) => timeout_agree(timeout_check, a.timeout, b.timeout),
    }
}

/// Whether `a` and `b` agree on all that the call may still ask.
spec fn parent_agree<E>(call: MinerStateCall, a: ParentAnswers<E>, b: ParentAnswers<E>) -> bool {
    &&& call.phase is TenureTip ==> a.node == b.node
    &&& a.signer_db == b.signer_db
}

/// Whether `a` and `b` agree on all that the call may still ask.
spec fn arrival_agree<E>(
    arrival: BitcoinBlockArrival,
    a: ArrivalAnswers<E>,
    b: ArrivalAnswers<E>,
) -> bool {
    match arrival.phase {
        ArrivalPhase::PeerInfo => a == b,
        ArrivalPhase::Sortitions { .. } => a == (ArrivalAnswers { peer_info: a.peer_info, ..b }),
        ArrivalPhase::CurrentTenure { check, .. } => {
            &&& tenure_agree(check, a.current, b.current)
            &&& a.last == b.last
            &&& a.parent == b.parent
        },
        ArrivalPhase::LastTenure { check, .. } => {
            &&& tenure_agree(check, a.last, b.last)
            &&& a.parent == b.parent
        },
        ArrivalPhase::Miner { call, .. } => parent_agree(call, a.parent, b.parent),
    }
}

/// Whether `a` and `b` agree on all that the check may still ask.
spec fn inactivity_agree<E>(
    check: InactivityCheck,
    a: InactivityAnswers<E>,
    b: InactivityAnswers<E>,
) -> bool {
    match check.phase {
        InactivityPhase::Timeout(timeout_check) => {
            &&& timeout_agree(timeout_check, a.timeout, b.timeout)
            &&& a.last_sortition == b.last_sortition
            &&& a.last == b.last
            &&& a.parent == b.parent
        },
        InactivityPhase::LastSortition => {
            &&& a.last_sortition == b.last_sortition
            &&& a.last == b.last
            &&& a.parent == b.parent
        },
        InactivityPhase::LastTenure(tenure_check) => {
            &&& tenure_agree(tenure_check, a.last, b.last)
            &&& a.parent == b.parent
        },
        InactivityPhase::Miner(call) => parent_agree(call, a.parent, b.parent),
    }
}

/// Answers that agree on all that the arrival may still ask hold the same replies.
proof fn lemma_arrival_hold_agree<E>(
    arrival: BitcoinBlockArrival,
    replies: Seq<Reply<E>>,
    a: ArrivalAnswers<E>,
    b: ArrivalAnswers<E>,
)
    requires
        arrival_agree(arrival, a, b),
        arrival_answers_hold(arrival, replies, a),
    ensures
        arrival_answers_hold(arrival, replies, b),
    decreases replies.len(),
{
    if replies.len() > 0 {
        match arrival.after(replies.first()) {
            Progress::Ask(next) => lemma_arrival_hold_agree(next, replies.drop_first(), a, b),
            Progress::Done(_) => {},
        }
    }
}

/// There are answers that hold the replies.
proof fn lemma_arrival_answers<E>(arrival: BitcoinBlockArrival, replies: Seq<Reply<E>>) -> (answers:
    ArrivalAnswers<E>)
    ensures
        arrival_answers_hold(arrival, replies, answers),
    decreases replies.len(),
{
    if replies.len() == 0 {
        arbitrary()
    } else {
        let reply = replies.first();
        match arrival.after(reply) {
            Progress::Ask(next) => {
                let later = lemma_arrival_answers(next, replies.drop_first());
                if next == arrival {
                    later
                } else {
                    let answers = arrival_record(arrival, reply, later);
                    assert(arrival.answer(answers) == reply);
                    lemma_arrival_hold_agree(next, replies.drop_first(), later, answers);
                    answers
                }
            },
            Progress::Done(_) => {
                let answers = arrival_record(arrival, reply, arbitrary());
                assert(arrival.answer(answers) == reply);
                answers
            },
        }
    }
}

/// With answers that hold the replies, the arrival ends as it does with the replies.
proof fn lemma_arrival_end<E>(
    arrival: BitcoinBlockArrival,
    replies: Seq<Reply<E>>,
    answers: ArrivalAnswers<E>,
    settled: Settled<E>,
)
    requires
        arrival_answers_hold(arrival, replies, answers),
        Call::BitcoinBlockArrival(arrival).after_all(replies) == Progress::<Call, Settled<E>>::Done(
            settled,
        ),
    ensures
        arrival.run(answers) == settled,
    decreases replies.len(),
{
    match arrival.after(replies.first()) {
        Progress::Ask(next) => lemma_arrival_end(next, replies.drop_first(), answers, settled),
        Progress::Done(_) => {},
    }
}

/// Answers that agree on all that the check may still ask hold the same replies.
proof fn lemma_inactivity_hold_agree<E>(
    check: InactivityCheck,
    replies: Seq<Reply<E>>,
    a: InactivityAnswers<E>,
    b: InactivityAnswers<E>,
)
    requires
        inactivity_agree(check, a, b),
        inactivity_answers_hold(check, replies, a),
    ensures
        inactivity_answers_hold(check, replies, b),
    decreases replies.len(),
{
    if replies.len() > 0 {
        match check.after(replies.first()) {
            Progress::Ask(next) => lemma_inactivity_hold_agree(next, replies.drop_first(), a, b),
            Progress::Done(_) => {},
        }
    }
}

/// There are answers that hold the replies.
proof fn lemma_inactivity_answers<E>(check: InactivityCheck, replies: Seq<Reply<E>>) -> (answers:
    InactivityAnswers<E>)
    ensures
        inactivity_answers_hold(check, replies, answers),
    decreases replies.len(),
{
    if replies.len() == 0 {
        arbitrary()
    } else {
        let reply = replies.first();
        match check.after(reply) {
            Progress::Ask(next) => {
                let later = lemma_inactivity_answers(next, replies.drop_first());
                if next == check {
                    later
                } else {
                    let answers = inactivity_record(check, reply, later);
                    assert(check.answer(answers) == reply);
                    lemma_inactivity_hold_agree(next, replies.drop_first(), later, answers);
                    answers
                }
            },
            Progress::Done(_) => {
                let answers = inactivity_record(check, reply, arbitrary());
                assert(check.answer(answers) == reply);
                answers
            },
        }
    }
}

/// With answers that hold the replies, the check ends as it does with the replies.
proof fn lemma_inactivity_end<E>(
    check: InactivityCheck,
    replies: Seq<Reply<E>>,
    answers: InactivityAnswers<E>,
    settled: Settled<E>,
)
    requires
        inactivity_answers_hold(check, replies, answers),
        Call::InactivityCheck(check).after_all(replies) == Progress::<Call, Settled<E>>::Done(
            settled,
        ),
    ensures
        check.run(answers) == settled,
    decreases replies.len(),
{
    match check.after(replies.first()) {
        Progress::Ask(next) => lemma_inactivity_end(next, replies.drop_first(), answers, settled),
        Progress::Done(_) => {},
    }
}

/// If the replies that a burn block's arrival gets end it, it ends with `arrival_result` of
/// any answers that hold these replies.
pub proof fn law_arrival_ends_as_replied<E>(
    prior: LocalStateMachine,
    expected: Option<u64>,
    config: ProposalEvalConfig,
    replies: Seq<Reply<E>>,
    answers: ArrivalAnswers<E>,
    settled: Settled<E>,
)
    requires
        arrival_answers_hold(BitcoinBlockArrival::begin(prior, expected, config), replies, answers),
        Call::BitcoinBlockArrival(BitcoinBlockArrival::begin(prior, expected, config)).after_all(
            replies,
        ) == Progress::<Call, Settled<E>>::Done(settled),
    ensures
        settled == crate::arrival::arrival_result(prior, expected, config, answers),
{
    let arrival = BitcoinBlockArrival::begin(prior, expected, config);
    lemma_arrival_end(arrival, replies, answers, settled);
    crate::arrival::law_bitcoin_block_arrival(prior, expected, config, answers);
}

/// Whatever replies a burn block's arrival gets, there are answers of the outside that hold
/// them; and if the replies end the arrival, it ends with `arrival_result` of these answers.
pub proof fn law_every_arrival_has_answers<E>(
    prior: LocalStateMachine,
    expected: Option<u64>,
    config: ProposalEvalConfig,
    replies: Seq<Reply<E>>,
)
    ensures
        exists|answers: ArrivalAnswers<E>|
            {
                &&& #[trigger] arrival_answers_hold(
                    BitcoinBlockArrival::begin(prior, expected, config),
                    replies,
                    answers,
                )
                &&& Call::BitcoinBlockArrival(
                    BitcoinBlockArrival::begin(prior, expected, config),
                ).after_all(replies) matches Progress::Done(settled) ==> settled
                    == crate::arrival::arrival_result(prior, expected, config, answers)
            },
{
    let arrival = BitcoinBlockArrival::begin(prior, expected, config);
    let answers = lemma_arrival_answers(arrival, replies);
    if let Progress::Done(settled) = Call::BitcoinBlockArrival(arrival).after_all(replies) {
        law_arrival_ends_as_replied(prior, expected, config, replies, answers, settled);
    }
}

/// If the replies that a check on the current miner's activity gets end it, it ends with
/// `inactivity_result` of any answers that hold these replies.
pub proof fn law_inactivity_check_ends_as_replied<E>(
    state_machine: SignerStateMachine,
    tenure_id: ConsensusHash,
    config: ProposalEvalConfig,
    replies: Seq<Reply<E>>,
    answers: InactivityAnswers<E>,
    settled: Settled<E>,
)
    requires
        inactivity_answers_hold(
            InactivityCheck::begin(state_machine, tenure_id, config),
            replies,
            answers,
        ),
        Call::InactivityCheck(InactivityCheck::begin(state_machine, tenure_id, config)).after_all(
            replies,
        ) == Progress::<Call, Settled<E>>::Done(settled),
    ensures
        settled == crate::inactivity::inactivity_result(state_machine, config, answers),
{
    let check = InactivityCheck::begin(state_machine, tenure_id, config);
    lemma_inactivity_end(check, replies, answers, settled);
    crate::inactivity::law_inactivity_check(state_machine, tenure_id, config, answers);
}

/// Whatever replies a check on the current miner's activity gets, there are answers of the
/// outside that hold them; and if the replies end the check, it ends with
/// `inactivity_result` of these answers.
pub proof fn law_every_inactivity_check_has_answers<E>(
    state_machine: SignerStateMachine,
    tenure_id: ConsensusHash,
    config: ProposalEvalConfig,
    replies: Seq<Reply<E>>,
)
    ensures
        exists|answers: InactivityAnswers<E>|
            {
                &&& #[trigger] inactivity_answers_hold(
                    InactivityCheck::begin(state_machine, tenure_id, config),
                    replies,
                    answers,
                )
                &&& Call::InactivityCheck(
                    InactivityCheck::begin(state_machine, tenure_id, config),
                ).after_all(replies) matches Progress::Done(settled) ==> settled
                    == crate::inactivity::inactivity_result(state_machine, config, answers)
            },
{
    let check = InactivityCheck::begin(state_machine, tenure_id, config);
    let answers = lemma_inactivity_answers(check, replies);
    if let Progress::Done(settled) = Call::InactivityCheck(check).after_all(replies) {
        law_inactivity_check_ends_as_replied(
            state_machine,
            tenure_id,
            config,
            replies,
            answers,
            settled,
        );
    }
}

} // verus!
