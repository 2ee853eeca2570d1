//! How the other signers are told of the machine's view: a message is made, and sent.

use crate::errors::CodecError;
use crate::messages::StateMachineUpdateMessage;
use crate::signer_state::LocalStateMachine;
use vstd::prelude::*;

verus! {

/// Why a message was not sent. `F` is the error of the message's constructor, `G` that of
/// the message board.
#[derive(Debug, PartialEq, Eq)]
pub enum UpdateError<F, G> {
    /// There is no settled view to make a message of.
    NotReady(CodecError),
    /// The constructor refused what the message was to be made of.
    Refused(F),
    /// The message board did not take the message.
    NotSent(G),
}

/// What is to be done next to tell the other signers of a view. `M` is the message as it is
/// sent.
#[derive(Debug, PartialEq, Eq)]
pub enum UpdateStep<M, F, G> {
    /// To make a message, by its constructor.
    Construct(StateMachineUpdateMessage),
    /// To send the message.
    Send(M),
    /// Nothing; this is what came of it.
    Done(Result<(), UpdateError<F, G>>),
}

impl<M, F, G> UpdateStep<M, F, G> {
    /// The first step for a machine: to make a message, if there is a settled view.
    pub open spec fn first(machine: LocalStateMachine) -> UpdateStep<M, F, G> {
        match machine {
            LocalStateMachine::Initialized(view) => UpdateStep::Construct(view.update_message()),
            _ => UpdateStep::Done(Err(UpdateError::NotReady(CodecError::SerializeError))),
        }
    }

    /// The step after the constructor was called: to send what it made, if anything.
    pub open spec fn after_construction(made: Result<M, F>) -> UpdateStep<M, F, G> {
        match made {
            Ok(message) => UpdateStep::Send(message),
            Err(e) => UpdateStep::Done(Err(UpdateError::Refused(e))),
        }
    }

    /// The step after the message was handed to the message board: none.
    pub open spec fn after_sending(sent: Result<(), G>) -> UpdateStep<M, F, G> {
        match sent {
            Ok(()) => UpdateStep::Done(Ok(())),
            Err(e) => UpdateStep::Done(Err(UpdateError::NotSent(e))),
        }
    }

    /// The message that is handed to the message board when this step is taken and the
    /// constructor gives `made`, if any is.
    pub open spec fn message_sent(self, made: Result<M, F>) -> Option<M> {
        match self {
            UpdateStep::Construct(_) => match Self::after_construction(made) {
                UpdateStep::Send(message) => Some(message),
                _ => None,
            },
            UpdateStep::Send(message) => Some(message),
            UpdateStep::Done(_) => None,
        }
    }

    /// What comes of this step when the constructor gives `made` and the message board
    /// gives `sent`, where they are called.
    pub open spec fn run(self, made: Result<M, F>, sent: Result<(), G>) -> Result<
        (),
        UpdateError<F, G>,
    > {
        match self {
            UpdateStep::Construct(_) => match Self::after_construction(made) {
                UpdateStep::Send(_) => Self::after_sending(sent)->Done_0,
                UpdateStep::Done(result) => result,
                UpdateStep::Construct(_) => arbitrary(),
            },
            UpdateStep::Send(_) => Self::after_sending(sent)->Done_0,
            UpdateStep::Done(result) => result,
        }
    }

    /// Begins to tell the other signers of the machine's view.
    pub fn begin(machine: &LocalStateMachine) -> (step: UpdateStep<M, F, G>)
        ensures
            step == Self::first(*machine),
    {
        let update: Result<StateMachineUpdateMessage, CodecError> = machine.try_into();
        match update {
            Ok(parts) => UpdateStep::Construct(parts),
            Err(e) => UpdateStep::Done(Err(UpdateError::NotReady(e))),
        }
    }

    /// Goes on once the constructor was called.
    pub fn constructed(made: Result<M, F>) -> (step: UpdateStep<M, F, G>)
        ensures
            step == Self::after_construction(made),
    {
        match made {
            Ok(message) => UpdateStep::Send(message),
            Err(e) => UpdateStep::Done(Err(UpdateError::Refused(e))),
        }
    }

    /// Goes on once the message was handed to the message board.
    pub fn sent(sent: Result<(), G>) -> (step: UpdateStep<M, F, G>)
        ensures
            step == Self::after_sending(sent),
    {
        match sent {
            Ok(()) => UpdateStep::Done(Ok(())),
            Err(e) => UpdateStep::Done(Err(UpdateError::NotSent(e))),
        }
    }
}

/// A machine's view is sent if and only if the machine is initialized and the message's
/// constructor accepts what the view is put into; what is sent is what the constructor made.
pub proof fn law_update_is_sent_if_constructed<M, F, G>(
    machine: LocalStateMachine,
    made: Result<M, F>,
)
    ensures
        UpdateStep::<M, F, G>::first(machine).message_sent(made) == (if machine is Initialized {
            made.ok()
        } else {
            None
        }),
{
}

/// Telling the other signers ends with the first error that is met: that there is no settled
/// view, that the constructor refuses, or that the message is not taken.
pub proof fn law_update_ends_with_first_error<M, F, G>(
    machine: LocalStateMachine,
    made: Result<M, F>,
    sent: Result<(), G>,
)
    ensures
        UpdateStep::<M, F, G>::first(machine).run(made, sent) == (match (machine, made, sent) {
            (LocalStateMachine::Initialized(_), Ok(_), Ok(())) => Ok(()),
            (LocalStateMachine::Initialized(_), Ok(_), Err(e)) => Err(UpdateError::NotSent(e)),
            (LocalStateMachine::Initialized(_), Err(e), _) => Err(UpdateError::Refused(e)),
            _ => Err(UpdateError::NotReady(CodecError::SerializeError)),
        }),
{
}

/// A machine that is initialized has its view put into a message, one that is not has nothing
/// to tell. What the constructor makes is what is sent, and what it refuses is not; that the
/// message board takes the message, or does not, is the end.
pub proof fn law_update_steps<M, F, G>(
    machine: LocalStateMachine,
    message: M,
    refusal: F,
    failure: G,
)
    ensures
        machine matches LocalStateMachine::Initialized(view) ==> UpdateStep::<M, F, G>::first(
            machine,
        ) == UpdateStep::<M, F, G>::Construct(view.update_message()),
        !(machine is Initialized) ==> UpdateStep::<M, F, G>::first(machine) == UpdateStep::<
            M,
            F,
            G,
        >::Done(Err(UpdateError::NotReady(CodecError::SerializeError))),
        UpdateStep::<M, F, G>::after_construction(Ok(message)) == UpdateStep::<M, F, G>::Send(
            message,
        ),
        UpdateStep::<M, F, G>::after_construction(Err(refusal)) == UpdateStep::<M, F, G>::Done(
            Err(UpdateError::Refused(refusal)),
        ),
        UpdateStep::<M, F, G>::after_sending(Ok(())) == UpdateStep::<M, F, G>::Done(Ok(())),
        UpdateStep::<M, F, G>::after_sending(Err(failure)) == UpdateStep::<M, F, G>::Done(
            Err(UpdateError::NotSent(failure)),
        ),
{
}

} // verus!
