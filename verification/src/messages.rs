//! Messages that travel on a supervisor's mailbox.

use vstd::prelude::*;

verus! {

/// A command for one supervisor, sent by the administrative API or by the
/// supervisor itself.
#[derive(Debug, Clone, Copy, PartialEq, Eq, Structural)]
pub enum CommandMsg {
    Start,
    Stop,
    Restart,
}

impl CommandMsg {
    /// The verb by which the administrative API names this command.
    pub open spec fn verb(self) -> Seq<char> {
        match self {
            CommandMsg::Start => "start"@,
            CommandMsg::Stop => "stop"@,
            CommandMsg::Restart => "restart"@,
        }
    }

    /// The verb by which the administrative API names this command.
    pub fn name(&self) -> (s: &'static str)
        ensures
            s@ == self.verb(),
    {
        match self {
            CommandMsg::Start => "start",
            CommandMsg::Stop => "stop",
            CommandMsg::Restart => "restart",
        }
    }
}

} // verus!
