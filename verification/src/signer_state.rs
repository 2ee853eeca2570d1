//! The signer's state machine.

use crate::arrival::{ArrivalPhase, BitcoinBlockArrival};
use crate::calls::{Progress, Reply, Request, Winner};
use crate::chain::{ConsensusHash, ProposalEvalConfig, SortitionState, StacksBlockId};
use crate::errors::{CodecError, SignerChainstateError};
use crate::inactivity::{InactivityCheck, InactivityPhase};
use crate::messages::{
    StateMachineUpdateContent, StateMachineUpdateMessage, StateMachineUpdateMinerState,
};
use crate::miner::{MinerState, MinerStateCall, MinerStatePhase};
use crate::tenure::{TenureCheck, TenurePhase};
use crate::timeout::{TimeoutCheck, TimeoutPhase};
use vstd::prelude::*;

verus! {

/// This is the latest supported protocol version for this signer binary
pub const SUPPORTED_SIGNER_PROTOCOL_VERSION: u64 = 0;

/// A signer state machine view. This struct can
/// be used to encode the local signer's view or
/// the global view.
#[derive(Debug, Clone, Copy, Eq)]
pub struct SignerStateMachine {
    /// The tip burn block (i.e., the latest bitcoin block) seen by this signer
    pub burn_block: ConsensusHash,
    /// The tip burn block height (i.e., the latest bitcoin block) seen by this signer
    pub burn_block_height: u64,
    /// The signer's view of who the current miner should be (and their tenure building info)
    pub current_miner: MinerState,
    /// The active signing protocol version
    pub active_signer_protocol_version: u64,
}

impl PartialEq for SignerStateMachine {
    fn eq(&self, other: &Self) -> (equal: bool) {
        self.burn_block == other.burn_block && self.burn_block_height == other.burn_block_height
            && self.current_miner == other.current_miner && self.active_signer_protocol_version
            == other.active_signer_protocol_version
    }
}

impl vstd::std_specs::cmp::PartialEqSpecImpl for SignerStateMachine {
    open spec fn obeys_eq_spec() -> bool {
        true
    }

    open spec fn eq_spec(&self, other: &Self) -> bool {
        *self == *other
    }
}

/// A pending update for a signer state machine
#[derive(Debug, Clone, Copy, PartialEq, Eq, Structural)]
pub enum StateMachineUpdate {
    /// A new burn block at height u64 is expected
    BurnBlock(u64),
}

/// The local signer state machine
#[derive(Debug, Clone, Copy, Eq)]
pub enum LocalStateMachine {
    /// The local state machine couldn't be instantiated
    Uninitialized,
    /// The local state machine is instantiated
    Initialized(SignerStateMachine),
    /// The local state machine has a pending update
    Pending {
        /// The pending update
        update: StateMachineUpdate,
        /// The local state machine before the pending update
        prior: SignerStateMachine,
    },
}

impl PartialEq for LocalStateMachine {
    fn eq(&self, other: &Self) -> (equal: bool) {
        match (self, other) {
            (LocalStateMachine::Uninitialized, LocalStateMachine::Uninitialized) => true,
            (LocalStateMachine::Initialized(a), LocalStateMachine::Initialized(b)) => *a == *b,
            (
                LocalStateMachine::Pending { update, prior },
                LocalStateMachine::Pending { update: other_update, prior: other_prior },
            ) => *update == *other_update && *prior == *other_prior,
            (_, _) => false,
        }
    }
}

impl vstd::std_specs::cmp::PartialEqSpecImpl for LocalStateMachine {
    open spec fn obeys_eq_spec() -> bool {
        true
    }

    open spec fn eq_spec(&self, other: &Self) -> bool {
        *self == *other
    }
}

impl MinerState {
    /// The miner state as it stands in a message.
    pub open spec fn in_message(self) -> StateMachineUpdateMinerState {
        match self {
            MinerState::ActiveMiner {
                current_miner_pkh,
                tenure_id,
                parent_tenure_id,
                parent_tenure_last_block,
                parent_tenure_last_block_height,
            } => StateMachineUpdateMinerState::ActiveMiner {
                current_miner_pkh,
                tenure_id,
                parent_tenure_id,
                parent_tenure_last_block,
                parent_tenure_last_block_height,
            },
            MinerState::NoValidMiner => StateMachineUpdateMinerState::NoValidMiner,
        }
    }
}

impl SignerStateMachine {
    /// What the message that tells other signers of this view is made of.
    pub open spec fn update_message(self) -> StateMachineUpdateMessage {
        StateMachineUpdateMessage {
            active_signer_protocol_version: self.active_signer_protocol_version,
            local_supported_signer_protocol_version: SUPPORTED_SIGNER_PROTOCOL_VERSION,
            content: StateMachineUpdateContent::V0 {
                burn_block: self.burn_block,
                burn_block_height: self.burn_block_height,
                current_miner: self.current_miner.in_message(),
            },
        }
    }
}

/// Puts together what the message that tells of the machine's view is made of. It is an
/// error if the machine has no settled view; that the message's constructor refuses what was
/// put together is another matter.
impl<'a> TryFrom<&'a LocalStateMachine> for StateMachineUpdateMessage {
    type Error = CodecError;

    fn try_from(machine: &'a LocalStateMachine) -> (message: Result<Self, CodecError>) {
        let state_machine = match machine {
            LocalStateMachine::Initialized(state_machine) => state_machine,
            _ => {
                return Err(CodecError::SerializeError);
            },
        };
        let current_miner = match state_machine.current_miner {
            MinerState::ActiveMiner {
                current_miner_pkh,
                tenure_id,
                parent_tenure_id,
                parent_tenure_last_block,
                parent_tenure_last_block_height,
            } => StateMachineUpdateMinerState::ActiveMiner {
                current_miner_pkh,
                tenure_id,
                parent_tenure_id,
                parent_tenure_last_block,
                parent_tenure_last_block_height,
            },
            MinerState::NoValidMiner => StateMachineUpdateMinerState::NoValidMiner,
        };
        Ok(
            StateMachineUpdateMessage {
                active_signer_protocol_version: state_machine.active_signer_protocol_version,
                local_supported_signer_protocol_version: SUPPORTED_SIGNER_PROTOCOL_VERSION,
                content: StateMachineUpdateContent::V0 {
                    burn_block: state_machine.burn_block,
                    burn_block_height: state_machine.burn_block_height,
                    current_miner,
                },
            },
        )
    }
}

impl<'a> vstd::std_specs::convert::TryFromSpecImpl<&'a LocalStateMachine> for StateMachineUpdateMessage {
    open spec fn obeys_try_from_spec() -> bool {
        true
    }

    open spec fn try_from_spec(machine: &'a LocalStateMachine) -> Result<Self, CodecError> {
        match *machine {
            LocalStateMachine::Initialized(state_machine) => Ok(state_machine.update_message()),
            _ => Err(CodecError::SerializeError),
        }
    }
}

/// How a call on the state machine ends.
#[derive(Debug, PartialEq, Eq)]
pub struct Outcome<E> {
    /// Whether the call succeeded.
    pub result: Result<(), SignerChainstateError<E>>,
    /// What to make a message to the other signers of, if they are to be told of a change.
    pub update: Option<StateMachineUpdateMessage>,
}

/// The end of a call: its outcome, and the state that the machine is left in.
#[derive(Debug, PartialEq, Eq)]
pub struct Settled<E> {
    /// The state of the machine.
    pub machine: LocalStateMachine,
    /// The outcome.
    pub outcome: Outcome<E>,
}

/// A call on the state machine that waits on a reply.
#[derive(Debug, Clone, Copy, PartialEq, Eq)]
pub enum Call {
    /// The handling of a burn block's arrival.
    BitcoinBlockArrival(BitcoinBlockArrival),
    /// The check on the current miner's activity.
    InactivityCheck(InactivityCheck),
}

/// Where a call on the state machine stands.
pub type Step<E> = Progress<Call, Outcome<E>>;

impl Call {
    /// Whether `request` is what the call waits on.
    pub open spec fn asks(self, request: Request) -> bool {
        match self {
            Call::BitcoinBlockArrival(arrival) => arrival.asks(request),
            Call::InactivityCheck(check) => check.asks(request),
        }
    }

    /// Where the call stands after `reply`.
    pub open spec fn after<E>(self, reply: Reply<E>) -> Progress<Call, Settled<E>> {
        match self {
            Call::BitcoinBlockArrival(arrival) => match arrival.after(reply) {
                Progress::Ask(next) => Progress::Ask(Call::BitcoinBlockArrival(next)),
                Progress::Done(settled) => Progress::Done(settled),
            },
            Call::InactivityCheck(check) => match check.after(reply) {
                Progress::Ask(next) => Progress::Ask(Call::InactivityCheck(next)),
                Progress::Done(settled) => Progress::Done(settled),
            },
        }
    }

    /// Where the call stands after it has gone on with each of `replies` in turn, as far as
    /// it needs them.
    pub open spec fn after_all<E>(self, replies: Seq<Reply<E>>) -> Progress<Call, Settled<E>>
        decreases replies.len(),
    {
        if replies.len() == 0 {
            Progress::Ask(self)
        } else {
            match self.after(replies.first()) {
                Progress::Ask(next) => next.after_all(replies.drop_first()),
                Progress::Done(settled) => Progress::Done(settled),
            }
        }
    }

    /// The most requests that are still to come.
    pub open spec fn requests_left(self) -> nat {
        match self {
            Call::BitcoinBlockArrival(arrival) => arrival.requests_left(),
            Call::InactivityCheck(check) => check.requests_left(),
        }
    }

    /// What the call waits on.
    pub fn request(&self) -> (request: Request)
        ensures
            self.asks(request),
    {
        match self {
            Call::BitcoinBlockArrival(arrival) => arrival.request(),
            Call::InactivityCheck(check) => check.request(),
        }
    }
}

impl LocalStateMachine {
    /// The view from which a machine that has none starts out.
    pub open spec fn spec_place_holder() -> SignerStateMachine {
        SignerStateMachine {
            burn_block: ConsensusHash::spec_empty(),
            burn_block_height: 0,
            current_miner: MinerState::NoValidMiner,
            active_signer_protocol_version: SUPPORTED_SIGNER_PROTOCOL_VERSION,
        }
    }

    /// The last settled view, or the place holder where there is none.
    pub open spec fn settled_view(self) -> SignerStateMachine {
        match self {
            LocalStateMachine::Uninitialized => Self::spec_place_holder(),
            LocalStateMachine::Initialized(state_machine) => state_machine,
            LocalStateMachine::Pending { prior, .. } => prior,
        }
    }

    /// The burn height to wait for when a burn block arrives and `expected` is waited
    /// for: the pending one, if it is higher.
    pub open spec fn awaited_height(self, expected: Option<u64>) -> Option<u64> {
        match self {
            LocalStateMachine::Pending { update: StateMachineUpdate::BurnBlock(pending), .. } => {
                if pending > (match expected {
                    Some(height) => height,
                    None => 0,
                }) {
                    Some(pending)
                } else {
                    expected
                }
            },
            _ => expected,
        }
    }

    /// Where a check on the current miner's activity stands as it begins: with a
    /// timeout check on the miner's tenure, or ended where there is no settled view or
    /// no active miner in it.
    pub open spec fn inactivity_check<E>(self, config: ProposalEvalConfig) -> Step<E> {
        match self {
            LocalStateMachine::Initialized(state_machine) => match state_machine.current_miner {
                MinerState::ActiveMiner { tenure_id, .. } => Progress::Ask(
                    Call::InactivityCheck(InactivityCheck::begin(state_machine, tenure_id, config)),
                ),
                MinerState::NoValidMiner => Progress::Done(Outcome { result: Ok(()), update: None }),
            },
            _ => Progress::Done(Outcome { result: Ok(()), update: None }),
        }
    }

    /// Initialize a local state machine by querying the local stacks-node
    /// and signerdb for the current sortition information. If the call that is handed
    /// out ends with an error, there is no machine.
    pub fn new(config: &ProposalEvalConfig) -> (started: (LocalStateMachine, Call))
        ensures
            started.0 == LocalStateMachine::Uninitialized,
            started.1 == Call::BitcoinBlockArrival(
                BitcoinBlockArrival::begin(LocalStateMachine::Uninitialized, None, *config),
            ),
    {
        let mut instance = LocalStateMachine::Uninitialized;
        let call = instance.bitcoin_block_arrival(config, None);
        (instance, call)
    }

    fn place_holder() -> (state_machine: SignerStateMachine)
        ensures
            state_machine == Self::spec_place_holder(),
    {
        SignerStateMachine {
            burn_block: ConsensusHash::empty(),
            burn_block_height: 0,
            current_miner: MinerState::NoValidMiner,
            active_signer_protocol_version: SUPPORTED_SIGNER_PROTOCOL_VERSION,
        }
    }

    /// What the message to the other signers is to be made of, if the state machine is ready
    /// to be put into one. The message's constructor may still refuse it.
    pub fn send_signer_update_message(&self) -> (update: Option<StateMachineUpdateMessage>)
        ensures
            update == match *self {
                LocalStateMachine::Initialized(state_machine) => Some(
                    state_machine.update_message(),
                ),
                _ => None,
            },
    {
        let message: Result<StateMachineUpdateMessage, CodecError> = self.try_into();
        match message {
            Ok(update) => Some(update),
            Err(_) => None,
        }
    }

    /// If this local state machine has pending updates, process them; otherwise check
    /// on the current miner's activity.
    pub fn handle_pending_update<E>(&mut self, config: &ProposalEvalConfig) -> (step: Step<E>)
        ensures
            match *old(self) {
                LocalStateMachine::Pending { update: StateMachineUpdate::BurnBlock(height), .. } => {
                    &&& *final(self) == LocalStateMachine::Uninitialized
                    &&& step == Step::<E>::Ask(
                        Call::BitcoinBlockArrival(
                            BitcoinBlockArrival::begin(*old(self), Some(height), *config),
                        ),
                    )
                },
                _ => {
                    &&& *final(self) == *old(self)
                    &&& step == old(self).inactivity_check::<E>(*config)
                },
            },
    {
        let update = match self {
            LocalStateMachine::Pending { update, .. } => *update,
            _ => {
                return self.check_miner_inactivity(config);
            },
        };
        match update {
            StateMachineUpdate::BurnBlock(expected_burn_height) => Progress::Ask(
                self.bitcoin_block_arrival(config, Some(expected_burn_height)),
            ),
        }
    }

    /// Begins to check whether the tenure `sortition` has timed out.
    pub fn is_timed_out(sortition: &ConsensusHash, config: &ProposalEvalConfig) -> (check:
        TimeoutCheck)
        ensures
            check == TimeoutCheck::begin(*sortition, config.block_proposal_timeout),
    {
        TimeoutCheck {
            tenure: *sortition,
            timeout: config.block_proposal_timeout,
            phase: TimeoutPhase::SignedBlock,
        }
    }

    /// Begins to check on the current miner's activity. If the miner has timed out and
    /// the winner of the sortition before is still valid, that one becomes the current
    /// miner.
    pub fn check_miner_inactivity<E>(&self, config: &ProposalEvalConfig) -> (step: Step<E>)
        ensures
            step == self.inactivity_check::<E>(*config),
    {
        let state_machine = match self {
            LocalStateMachine::Initialized(state_machine) => *state_machine,
            _ => {
                // no inactivity if the state machine isn't initialized
                return Progress::Done(Outcome { result: Ok(()), update: None });
            },
        };
        let tenure_id = match state_machine.current_miner {
            MinerState::ActiveMiner { tenure_id, .. } => tenure_id,
            MinerState::NoValidMiner => {
                // no inactivity if there's no active miner
                return Progress::Done(Outcome { result: Ok(()), update: None });
            },
        };
        Progress::Ask(
            Call::InactivityCheck(
                InactivityCheck {
                    state_machine,
                    config: *config,
                    phase: InactivityPhase::Timeout(Self::is_timed_out(&tenure_id, config)),
                },
            ),
        )
    }

    /// Begins to make the winner of `sortition_to_set` the active miner.
    pub fn make_miner_state(sortition_to_set: SortitionState, config: &ProposalEvalConfig) -> (call:
        MinerStateCall)
        ensures
            call == MinerStateCall::begin(sortition_to_set, *config),
    {
        MinerStateCall {
            sortition: sortition_to_set,
            config: *config,
            phase: MinerStatePhase::TenureTip,
        }
    }

    /// The state after a Stacks block has arrived: where the current miner builds on the
    /// tenure `ch` and the block is higher than the last one known of that tenure, the
    /// block takes its place.
    pub open spec fn with_stacks_block(
        self,
        ch: ConsensusHash,
        height: u64,
        block_id: StacksBlockId,
    ) -> LocalStateMachine {
        match self {
            LocalStateMachine::Initialized(state_machine) => match state_machine.current_miner {
                MinerState::ActiveMiner {
                    current_miner_pkh,
                    tenure_id,
                    parent_tenure_id,
                    parent_tenure_last_block_height,
                    ..
                } => if parent_tenure_id == ch && height > parent_tenure_last_block_height {
                    LocalStateMachine::Initialized(
                        SignerStateMachine {
                            current_miner: MinerState::ActiveMiner {
                                current_miner_pkh,
                                tenure_id,
                                parent_tenure_id,
                                parent_tenure_last_block: block_id,
                                parent_tenure_last_block_height: height,
                            },
                            ..state_machine
                        },
                    )
                } else {
                    self
                },
                MinerState::NoValidMiner => self,
            },
            _ => self,
        }
    }

    /// Handle a new stacks block arrival
    pub fn stacks_block_arrival<E>(
        &mut self,
        ch: &ConsensusHash,
        height: u64,
        block_id: &StacksBlockId,
    ) -> (outcome: Outcome<E>)
        ensures
            *final(self) == old(self).with_stacks_block(*ch, height, *block_id),
            outcome.result == Ok::<(), SignerChainstateError<E>>(()),
            outcome.update == (if *final(self) == *old(self) {
                None
            } else {
                Some(final(self).settled_view().update_message())
            }),
    {
        let prior_state_machine = match *self {
            LocalStateMachine::Initialized(state_machine) => state_machine,
            LocalStateMachine::Uninitialized => {
                // we don't need to update any state when we're uninitialized for new stacks
                // block arrivals
                return Outcome { result: Ok(()), update: None };
            },
            LocalStateMachine::Pending { .. } => {
                // a pending burn block will settle who the miner builds on
                return Outcome { result: Ok(()), update: None };
            },
        };
        match prior_state_machine.current_miner {
            MinerState::ActiveMiner {
                current_miner_pkh,
                tenure_id,
                parent_tenure_id,
                parent_tenure_last_block,
                parent_tenure_last_block_height,
            } => {
                if parent_tenure_id != *ch {
                    // if the new block isn't from the parent tenure, we don't need any updates
                    return Outcome { result: Ok(()), update: None };
                }
                if height <= parent_tenure_last_block_height {
                    // if the new block isn't higher than we already expected, we don't need
                    // any updates
                    return Outcome { result: Ok(()), update: None };
                }
                *self = LocalStateMachine::Initialized(
                    SignerStateMachine {
                        current_miner: MinerState::ActiveMiner {
                            current_miner_pkh,
                            tenure_id,
                            parent_tenure_id,
                            parent_tenure_last_block: *block_id,
                            parent_tenure_last_block_height: height,
                        },
                        ..prior_state_machine
                    },
                );
                // We updated the block id and/or the height. Let other signers know our view
                // has changed
                Outcome { result: Ok(()), update: self.send_signer_update_message() }
            },
            MinerState::NoValidMiner => {
                // if there's no valid miner, then we don't need to update any state for new
                // stacks blocks
                Outcome { result: Ok(()), update: None }
            },
        }
    }

    /// Begins to check if the tenure defined by sortition state:
    ///  (1) chose an appropriate parent tenure
    ///  (2) has not "timed out"
    pub fn is_tenure_valid(
        winner: Winner,
        sortition_state: &SortitionState,
        config: &ProposalEvalConfig,
    ) -> (check: TenureCheck)
        ensures
            check == TenureCheck::begin(winner, *sortition_state, *config),
    {
        TenureCheck {
            winner,
            sortition: *sortition_state,
            config: *config,
            phase: TenurePhase::ParentChoice,
        }
    }

    /// Handle a new bitcoin block arrival. The machine stays uninitialized until the
    /// call that is handed out has ended, so that it is left so if the call fails.
    pub fn bitcoin_block_arrival(
        &mut self,
        config: &ProposalEvalConfig,
        expected_burn_height: Option<u64>,
    ) -> (call: Call)
        ensures
            *final(self) == LocalStateMachine::Uninitialized,
            call == Call::BitcoinBlockArrival(
                BitcoinBlockArrival::begin(*old(self), expected_burn_height, *config),
            ),
    {
        let prior_state = *self;
        *self = LocalStateMachine::Uninitialized;
        let mut expected_burn_height: Option<u64> = expected_burn_height;
        let prior_state_machine = match prior_state {
            // if the local state machine was uninitialized, just initialize it
            LocalStateMachine::Uninitialized => Self::place_holder(),
            LocalStateMachine::Initialized(state_machine) => state_machine,
            LocalStateMachine::Pending { update, prior } => {
                match update {
                    StateMachineUpdate::BurnBlock(pending_burn_height) => {
                        if pending_burn_height > expected_burn_height.unwrap_or(0) {
                            expected_burn_height = Some(pending_burn_height);
                        }
                    },
                }
                prior
            },
        };
        Call::BitcoinBlockArrival(
            BitcoinBlockArrival {
                prior_state,
                prior_state_machine,
                expected_burn_height,
                config: *config,
                phase: ArrivalPhase::PeerInfo,
            },
        )
    }

    /// Goes on with `call`, which was begun on this machine. The end of the call sets the
    /// machine's state by what it was when the call began, so anything else that was done to
    /// the machine since then is lost.
    pub fn resume<E>(&mut self, call: Call, reply: Reply<E>) -> (step: Step<E>)
        ensures
            match call.after(reply) {
                Progress::Ask(next) => {
                    &&& *final(self) == *old(self)
                    &&& step == Step::<E>::Ask(next)
                },
                Progress::Done(settled) => {
                    &&& *final(self) == settled.machine
                    &&& step == Step::<E>::Done(settled.outcome)
                },
            },
    {
        let progress: Progress<Call, Settled<E>> = match call {
            Call::BitcoinBlockArrival(arrival) => match arrival.resume(reply) {
                Progress::Ask(next) => Progress::Ask(Call::BitcoinBlockArrival(next)),
                Progress::Done(settled) => Progress::Done(settled),
            },
            Call::InactivityCheck(check) => match check.resume(reply) {
                Progress::Ask(next) => Progress::Ask(Call::InactivityCheck(next)),
                Progress::Done(settled) => Progress::Done(settled),
            },
        };
        match progress {
            Progress::Ask(next) => Progress::Ask(next),
            Progress::Done(settled) => {
                *self = settled.machine;
                Progress::Done(settled.outcome)
            },
        }
    }

    /// Goes on with `call` with each of `replies` in turn. Replies that are left over when
    /// the call has ended are not used; if they do not suffice, the call is handed back.
    pub fn resume_all<E>(&mut self, call: Call, replies: Vec<Reply<E>>) -> (step: Step<E>)
        ensures
            match call.after_all(replies@) {
                Progress::Ask(next) => {
                    &&& *final(self) == *old(self)
                    &&& step == Step::<E>::Ask(next)
                },
                Progress::Done(settled) => {
                    &&& *final(self) == settled.machine
                    &&& step == Step::<E>::Done(settled.outcome)
                },
            },
    {
        let mut left: Vec<Reply<E>> = replies;
        let mut waiting: Call = call;
        while left.len() > 0
            invariant
                *self == *old(self),
                call.after_all(replies@) == waiting.after_all(left@),
            decreases left@.len(),
        {
            let ghost before = left@;
            let reply: Reply<E> = left.remove(0);
            assert(left@ == before.drop_first());
            match self.resume(waiting, reply) {
                Progress::Ask(next) => {
                    waiting = next;
                },
                Progress::Done(outcome) => {
                    return Progress::Done(outcome);
                },
            }
        }
        Progress::Ask(waiting)
    }
}

} // verus!
