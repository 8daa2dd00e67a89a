//! The command gateway: the senders of all mailboxes, by program name. It is
//! what the administrative API holds of the supervisors.

use crate::errors::SupersError;
use crate::mailbox::{enqueue, CommandSender};
use crate::messages::CommandMsg;
use crate::names::NameMap;
use vstd::prelude::*;

verus! {

/// What became of a command that was addressed to a program by name.
#[derive(Debug, Clone, Copy, PartialEq, Eq, Structural)]
pub enum Delivery {
    /// The command is on the program's mailbox.
    Delivered,
    /// No program of that name is known; nothing was sent to anyone.
    UnknownProgram,
    /// The program is known, but its mailbox did not take the command.
    MailboxClosed,
}

/// The senders of the supervisors' mailboxes, by program name.
pub struct CommandGateway {
    pub senders: NameMap<CommandSender>,
}

impl View for CommandGateway {
    type V = Map<Seq<char>, CommandSender>;

    open spec fn view(&self) -> Map<Seq<char>, CommandSender> {
        self.senders@
    }
}

impl CommandGateway {
    /// The gateway's map of names is well formed.
    pub open spec fn wf(&self) -> bool {
        self.senders.wf()
    }

    /// A gateway that knows no program.
    pub fn new() -> (g: Self)
        ensures
            g.wf(),
            g@ == Map::<Seq<char>, CommandSender>::empty(),
    {
        CommandGateway { senders: NameMap::new() }
    }

    /// Makes `tx` the sender for the program `name`, in place of any earlier
    /// sender for that name.
    pub fn register(&mut self, name: String, tx: CommandSender)
        requires
            old(self).wf(),
        ensures
            final(self).wf(),
            final(self)@ == old(self)@.insert(name@, tx),
    {
        self.senders.insert(name, tx);
    }

    /// Whether a program of that name is known.
    pub fn contains(&self, name: &str) -> (known: bool)
        requires
            self.wf(),
        ensures
            known == self@.contains_key(name@),
    {
        self.senders.contains_key(name)
    }

    /// The sender for the program `name`, if the program is known.
    pub fn sender(&self, name: &str) -> (tx: Option<&CommandSender>)
        requires
            self.wf(),
        ensures
            match tx {
                Some(t) => self@.contains_key(name@) && *t == self@[name@],
                None => !self@.contains_key(name@),
            },
    {
        self.senders.get(name)
    }

    /// Sends `msg` to the program `name`.
    ///
    /// For an unknown name nothing is sent to anyone and the answer is
    /// `UnknownProgram`. For a known name the command goes to that program's
    /// mailbox and to no other, and the answer says whether the mailbox took
    /// it, which is the channel's to decide.
    pub fn dispatch(&self, name: &str, msg: CommandMsg) -> (d: Delivery)
        requires
            self.wf(),
        ensures
            d == Delivery::UnknownProgram <==> !self@.contains_key(name@),
    {
        match self.sender(name) {
            None => Delivery::UnknownProgram,
            Some(tx) => delivery_of(enqueue(tx, msg).is_ok()),
        }
    }

    /// Sends `msg` to every known program, in the order in which the
    /// programs were registered, and stops at the first mailbox that does
    /// not take it. With no program there is nothing to fail.
    pub fn send_all(&self, msg: CommandMsg) -> (r: Result<(), SupersError>)
        requires
            self.wf(),
        ensures
            r matches Err(e) ==> e == (SupersError::ProgramCommandChannelSendError { source: msg }),
            self@.len() == 0 ==> r is Ok,
    {
        let n = self.senders.len();
        let mut i: usize = 0;
        while i < n
            invariant
                self.wf(),
                n == self.senders.names().len(),
                n == self@.len(),
                i <= n,
            decreases n - i,
        {
            match enqueue(self.senders.value_at(i), msg) {
                Ok(()) => {},
                Err(e) => {
                    return Err(e);
                },
            }
            i += 1;
        }
        Ok(())
    }
}

/// What to answer for a known program, once its mailbox has or has not
/// taken the command.
pub fn delivery_of(taken: bool) -> (d: Delivery)
    ensures
        d == if taken {
            Delivery::Delivered
        } else {
            Delivery::MailboxClosed
        },
{
    if taken {
        Delivery::Delivered
    } else {
        Delivery::MailboxClosed
    }
}

} // verus!
