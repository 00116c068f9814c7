//! The queue of commands to the worker: calls into `tokio`'s unbounded
//! channel.

use vstd::prelude::*;
use crate::protocol::WorkerCommand;

verus! {

/// `tokio::sync::mpsc::UnboundedSender`, whose inside the library does not
/// look at.
#[verifier::external_type_specification]
#[verifier::external_body]
#[verifier::reject_recursive_types(T)]
pub struct ExUnboundedSender<T>(tokio::sync::mpsc::UnboundedSender<T>);

/// The sending end of the queue of commands.
pub type WorkerSender = tokio::sync::mpsc::UnboundedSender<WorkerCommand>;

/// Another handle on the same queue (`UnboundedSender::clone`).
#[verifier::external_body]
pub(crate) fn clone_sender(sender: &WorkerSender) -> (r: WorkerSender) {
    sender.clone()
}

/// Whether the receiving end of the queue is gone
/// (`UnboundedSender::is_closed`). The answer depends on what the receiver
/// has done, so nothing is stated of it.
#[verifier::external_body]
pub(crate) fn sender_is_closed(sender: &WorkerSender) -> (r: bool) {
    sender.is_closed()
}

/// Puts a command at the end of the queue (`UnboundedSender::send`). The
/// queue takes it unless its receiving end is gone; then the error of the
/// queue comes back as text. Which of the two happens depends on the
/// receiver, so nothing is stated of it. Only a command that the controlling
/// layer accepts may be handed over: that is asked of every caller here.
#[verifier::external_body]
pub(crate) fn send_command(sender: &WorkerSender, command: WorkerCommand) -> (r: Result<
    (),
    String,
>)
    requires
        command@.is_accepted(),
{
    sender.send(command).map_err(|error| error.to_string())
}

} // verus!
