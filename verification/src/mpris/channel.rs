//! The way to the engine: an unbounded channel of commands.

use crate::mpris::command::MprisCommand;
use tokio::sync::mpsc::error::SendError;
use tokio::sync::mpsc::UnboundedSender;
use vstd::prelude::*;

verus! {

/// `tokio::sync::mpsc::UnboundedSender`: the sending end of the channel, held
/// and used, never looked into.
#[verifier::external_type_specification]
#[verifier::external_body]
#[verifier::reject_recursive_types(T)]
pub struct ExUnboundedSender<T>(UnboundedSender<T>);

/// `UnboundedSender::send` puts the message at the end of the channel and
/// gives `Ok`, without waiting. Where the receiving half is closed or gone it
/// puts nothing and gives the message back in the error. Which of the two
/// happens is the receiver's doing and is left open; what is claimed is that a
/// command that comes back is the one that was handed in. (The call ends the
/// process where the count of waiting messages would overflow `usize`, which
/// memory rules out.)
#[verifier::external_body]
pub(crate) fn send(
    sender: &UnboundedSender<MprisCommand>,
    command: MprisCommand,
) -> (sent: Result<(), MprisCommand>)
    ensures
        sent matches Err(back) ==> back == command,
{
    match sender.send(command) {
        Ok(()) => Ok(()),
        Err(SendError(back)) => Err(back),
    }
}

/// What became of a request.
#[derive(Debug)]
pub enum Outcome {
    /// The request asks nothing of the engine: no command was made.
    Ignored,
    /// The channel took the request's command.
    Enqueued,
    /// The engine no longer listens: the command came back and goes nowhere.
    Dropped(MprisCommand),
}

impl Outcome {
    /// What the channel's answer to a send means: `Enqueued` where it took the
    /// command, `Dropped` with the command that it gave back where it did not.
    pub fn of_send(sent: Result<(), MprisCommand>) -> (outcome: Outcome)
        ensures
            match sent {
                Ok(_) => outcome is Enqueued,
                Err(back) => outcome == Outcome::Dropped(back),
            },
    {
        match sent {
            Ok(_) => Outcome::Enqueued,
            Err(back) => Outcome::Dropped(back),
        }
    }
}

} // verus!
