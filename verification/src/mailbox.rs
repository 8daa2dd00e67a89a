//! The mailbox of a supervisor: an unbounded channel of commands with many
//! senders and one receiver. The channel itself is crossbeam's; this module
//! states what the library relies on and no more.
//!
//! The two halves of a mailbox are types of their own, and only `mailbox`
//! makes them. So every channel that the library sends on is unbounded, and
//! a send never waits.

use crate::errors::SupersError;
use crate::messages::CommandMsg;
use crossbeam::channel::{Receiver, Sender};
use vstd::prelude::*;

verus! {

/// How long, in milliseconds, a supervisor waits for a command before it
/// looks at its child again.
pub const WAIT_TIMEOUT_MILLIS: u64 = 10;

/// The longest wait, in milliseconds, that the library asks of a mailbox.
pub const LONGEST_WAIT_MILLIS: u64 = 60_000;

/// The sending half of a crossbeam channel, carried through as an opaque value.
#[verifier::external_type_specification]
#[verifier::external_body]
#[verifier::reject_recursive_types(T)]
pub struct ExSender<T>(Sender<T>);

/// The receiving half of a crossbeam channel, carried through as an opaque value.
#[verifier::external_type_specification]
#[verifier::external_body]
#[verifier::reject_recursive_types(T)]
pub struct ExReceiver<T>(Receiver<T>);

/// `crossbeam::channel::unbounded`: makes a channel without a capacity limit
/// and returns its two halves. Nothing is claimed of them.
#[verifier::external_body]
fn unbounded_channel() -> (halves: (Sender<CommandMsg>, Receiver<CommandMsg>)) {
    crossbeam::channel::unbounded()
}

/// `Sender::clone`: a second handle on the same channel. The clone holds the
/// same reference to the channel as the sender it was made from, so the two
/// are equal values.
#[verifier::external_body]
fn clone_sender(tx: &Sender<CommandMsg>) -> (other: Sender<CommandMsg>)
    ensures
        other == *tx,
{
    tx.clone()
}

/// `Sender::send`, on an unbounded channel: puts a message on the channel
/// without waiting. It fails when every receiver is gone, and then hands
/// the message back.
#[verifier::external_body]
fn send(tx: &Sender<CommandMsg>, msg: CommandMsg) -> (sent: Result<(), CommandMsg>)
    ensures
        sent matches Err(back) ==> back == msg,
{
    tx.send(msg).map_err(|e| e.0)
}

/// `Receiver::recv_timeout`: waits up to `millis` milliseconds for the next
/// message. `None` stands for a timeout and for a channel without senders
/// alike; which message arrives depends on the other threads. The wait is
/// kept short because crossbeam waits without limit when the deadline does
/// not fit its clock.
#[verifier::external_body]
fn recv_timeout(rx: &Receiver<CommandMsg>, millis: u64) -> (msg: Option<CommandMsg>)
    requires
        millis <= LONGEST_WAIT_MILLIS,
{
    rx.recv_timeout(core::time::Duration::from_millis(millis)).ok()
}

/// The sending half of a mailbox. There may be many for one mailbox.
pub struct CommandSender {
    tx: Sender<CommandMsg>,
}

/// The receiving half of a mailbox.
pub struct CommandReceiver {
    rx: Receiver<CommandMsg>,
}

/// Makes an empty mailbox and returns its two halves.
pub fn mailbox() -> (halves: (CommandSender, CommandReceiver)) {
    let (tx, rx) = unbounded_channel();
    (CommandSender { tx }, CommandReceiver { rx })
}

/// What a send amounts to for the supervisor: a message that came back is
/// an error that carries it.
pub fn send_result(sent: Result<(), CommandMsg>) -> (r: Result<(), SupersError>)
    ensures
        match sent {
            Ok(()) => r is Ok,
            Err(back) => r == Err::<(), SupersError>(
                SupersError::ProgramCommandChannelSendError { source: back },
            ),
        },
{
    match sent {
        Ok(()) => Ok(()),
        Err(back) => Err(SupersError::ProgramCommandChannelSendError { source: back }),
    }
}

impl CommandSender {
    /// Another sender for the same mailbox.
    pub fn another(&self) -> (other: Self)
        ensures
            other == *self,
    {
        CommandSender { tx: clone_sender(&self.tx) }
    }

    /// Puts `msg` on the mailbox and hands it back if the mailbox did not
    /// take it. Whether it does is the channel's to decide.
    pub fn send(&self, msg: CommandMsg) -> (sent: Result<(), CommandMsg>)
        ensures
            sent matches Err(back) ==> back == msg,
    {
        send(&self.tx, msg)
    }
}

/// Puts `msg` on the mailbox behind `tx`.
///
/// Whether the send succeeds is the channel's to decide; when it does not,
/// the error names the message that could not be delivered.
pub fn enqueue(tx: &CommandSender, msg: CommandMsg) -> (r: Result<(), SupersError>)
    ensures
        r matches Err(e) ==> e == (SupersError::ProgramCommandChannelSendError { source: msg }),
{
    send_result(tx.send(msg))
}

/// Waits for the next command on a supervisor's mailbox, for at most
/// `WAIT_TIMEOUT_MILLIS`. `None` means that no command arrived in time.
pub fn next_command(rx: &CommandReceiver) -> (msg: Option<CommandMsg>) {
    recv_timeout(&rx.rx, WAIT_TIMEOUT_MILLIS)
}

} // verus!
