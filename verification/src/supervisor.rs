//! The worker of one program, without its side effects.
//!
//! A `Supervisor` decides; its driver acts. At the start of a step the driver
//! hands in what the poll of the child returned and the command it received,
//! and the supervisor plans the step. The driver then carries out the pending
//! actions one by one: it spawns, kills or lets go of the child itself and
//! reports how that went, and it lends the registry and the mailbox for the
//! two actions that touch them.

use crate::config::ProgramConfig;
use crate::errors::SupersError;
use crate::mailbox::CommandSender;
use crate::messages::CommandMsg;
use crate::programs::{
    get_child_status, state_machine_step, status_of, step_actions, update_pgm_status, Action,
    ChildStatus, ExitReport,
};
use crate::semantics::{handle_after, handle_of, lemma_plans_are_safe, safe_plan, Handle};
use crate::state::ApplicationState;
use vstd::prelude::*;

verus! {

/// The decisions of the worker that supervises one program.
pub struct Supervisor {
    config: ProgramConfig,
    handle: Handle,
    pending: Vec<Action>,
}

impl Supervisor {
    /// The program that this supervisor is for.
    pub closed spec fn program(&self) -> ProgramConfig {
        self.config
    }

    /// What the supervisor knows of its child handle.
    pub closed spec fn handle(&self) -> Handle {
        self.handle
    }

    /// The actions of the current step that are still to be carried out, in
    /// order.
    pub closed spec fn pending(&self) -> Seq<Action> {
        self.pending@
    }

    /// The pending actions are safe for the handle: none of them will replace
    /// or let go of a child that may be running.
    pub open spec fn wf(&self) -> bool {
        safe_plan(self.handle(), self.pending())
    }

    /// `next` is `self` after its first pending action has been carried out.
    pub open spec fn advances_to(&self, next: Supervisor) -> bool {
        &&& self.pending().len() > 0
        &&& next.program() == self.program()
        &&& next.handle() == handle_after(self.handle(), self.pending()[0])
        &&& next.pending() == self.pending().skip(1)
    }

    /// `next` is `self` after the rest of its step has been given up: the
    /// handle is as it was, and nothing is pending.
    pub open spec fn abandons_to(&self, next: Supervisor) -> bool {
        &&& next.program() == self.program()
        &&& next.handle() == self.handle()
        &&& next.pending() == Seq::<Action>::empty()
    }

    /// A supervisor for `config` that holds no child and has nothing to do.
    pub fn new(config: ProgramConfig) -> (s: Self)
        ensures
            s.wf(),
            s.program() == config,
            s.handle() == Handle::Absent,
            s.pending() == Seq::<Action>::empty(),
    {
        Supervisor { config, handle: Handle::Absent, pending: Vec::new() }
    }

    /// The program that this supervisor is for.
    pub fn config(&self) -> (config: &ProgramConfig)
        ensures
            *config == self.program(),
    {
        &self.config
    }

    /// Whether a child handle is held, and so whether the next step starts
    /// with a poll.
    pub fn holds_child(&self) -> (held: bool)
        ensures
            held == (self.handle() != Handle::Absent),
    {
        match self.handle {
            Handle::Absent => false,
            _ => true,
        }
    }

    /// Starts a step.
    ///
    /// `polled` is `None` when no handle is held, and else what the poll of
    /// the child returned; `msg` is the command that was received, if any.
    /// A failed poll ends the worker: the error names the program and the
    /// cause, and nothing is pending. Otherwise the supervisor takes the
    /// poll's word for the handle and plans the step by the transition table;
    /// the status it has derived is returned.
    pub fn begin_step(
        &mut self,
        polled: Option<Result<Option<ExitReport>, std::io::Error>>,
        msg: Option<CommandMsg>,
    ) -> (r: Result<ChildStatus, SupersError>)
        ensures
            final(self).wf(),
            final(self).program() == old(self).program(),
            match polled {
                Some(Err(cause)) => {
                    &&& r matches Err(SupersError::ProgramCheckProcessStatusError(program, source))
                    &&& program@ == old(self).program().name@
                    &&& source == cause
                    &&& old(self).abandons_to(*final(self))
                },
                Some(Ok(seen)) => {
                    &&& r == Ok::<ChildStatus, SupersError>(status_of(Some(seen)))
                    &&& final(self).handle() == handle_of(status_of(Some(seen)))
                    &&& final(self).pending() == step_actions(
                        status_of(Some(seen)),
                        msg,
                        old(self).program().restartpolicy,
                    )
                },
                None => {
                    &&& r == Ok::<ChildStatus, SupersError>(ChildStatus::NoChild)
                    &&& final(self).handle() == Handle::Absent
                    &&& final(self).pending() == step_actions(
                        ChildStatus::NoChild,
                        msg,
                        old(self).program().restartpolicy,
                    )
                },
            },
    {
        match get_child_status(self.config.name.as_str(), polled) {
            Ok(status) => {
                self.handle =
                match status {
                    ChildStatus::NoChild => Handle::Absent,
                    ChildStatus::Alive => Handle::Live,
                    ChildStatus::Exited(_) => Handle::Dead,
                };
                self.pending = state_machine_step(&status, &msg, &self.config.restartpolicy);
                proof {
                    lemma_plans_are_safe(status, msg, self.config.restartpolicy);
                }
                Ok(status)
            },
            Err(e) => {
                self.pending = Vec::new();
                Err(e)
            },
        }
    }

    /// The action to carry out next, or `None` when the step is complete.
    pub fn next_action(&self) -> (next: Option<Action>)
        ensures
            next == if self.pending().len() > 0 {
                Some(self.pending()[0])
            } else {
                None
            },
    {
        if self.pending.len() > 0 {
            Some(self.pending[0])
        } else {
            None
        }
    }

    /// Moves past the first pending action.
    fn advance(&mut self)
        requires
            old(self).wf(),
            old(self).pending().len() > 0,
        ensures
            final(self).wf(),
            old(self).advances_to(*final(self)),
    {
        let done = self.pending.remove(0);
        assert(self.pending@ =~= old(self).pending@.skip(1));
        self.handle =
        match done {
            Action::SpawnChild => Handle::Live,
            Action::KillChild => match self.handle {
                Handle::Absent => Handle::Absent,
                _ => Handle::Dead,
            },
            Action::ClearHandle => Handle::Absent,
            _ => self.handle,
        };
    }

    /// Gives up the rest of the step.
    fn abandon(&mut self)
        ensures
            final(self).wf(),
            old(self).abandons_to(*final(self)),
    {
        self.pending = Vec::new();
    }

    /// Reports how the launch of the program went, when `SpawnChild` is next.
    ///
    /// After a launch the supervisor holds the new child and goes on. A
    /// failed launch ends the worker: the error names the program and the
    /// cause, the handle is as it was and the rest of the step is given up.
    pub fn spawned(&mut self, outcome: Result<(), std::io::Error>) -> (r: Result<(), SupersError>)
        requires
            old(self).wf(),
            old(self).pending().len() > 0,
            old(self).pending()[0] == Action::SpawnChild,
        ensures
            final(self).wf(),
            match outcome {
                Ok(()) => r is Ok && old(self).advances_to(*final(self)) && final(self).handle()
                    == Handle::Live,
                Err(cause) => {
                    &&& r matches Err(SupersError::ProgramProcessSpawnError(program, source))
                    &&& program@ == old(self).program().name@
                    &&& source == cause
                    &&& old(self).abandons_to(*final(self))
                },
            },
    {
        match outcome {
            Ok(()) => {
                self.advance();
                Ok(())
            },
            Err(cause) => {
                self.abandon();
                Err(SupersError::ProgramProcessSpawnError(self.config.name.clone(), cause))
            },
        }
    }

    /// Reports how the kill of the child went, when `KillChild` is next.
    ///
    /// After a kill the child counts as dead and the supervisor goes on. A
    /// failed kill does not end the worker: the error, which names the
    /// program and the cause, is returned for the log, the child stays under
    /// supervision as it was, and the rest of the step is given up, so that
    /// no second child is spawned beside it and its handle is not let go.
    pub fn killed(&mut self, outcome: Result<(), std::io::Error>) -> (failure: Option<SupersError>)
        requires
            old(self).wf(),
            old(self).pending().len() > 0,
            old(self).pending()[0] == Action::KillChild,
        ensures
            final(self).wf(),
            match outcome {
                Ok(()) => failure is None && old(self).advances_to(*final(self)) && final(self).handle() == Handle::Dead,
                Err(cause) => {
                    &&& failure matches Some(SupersError::ProgramProcessKillError(program, source))
                    &&& program@ == old(self).program().name@
                    &&& source == cause
                    &&& old(self).abandons_to(*final(self))
                },
            },
    {
        match outcome {
            Ok(()) => {
                self.advance();
                None
            },
            Err(cause) => {
                self.abandon();
                Some(SupersError::ProgramProcessKillError(self.config.name.clone(), cause))
            },
        }
    }

    /// Reports that the handle has been let go, when `ClearHandle` is next.
    pub fn cleared(&mut self)
        requires
            old(self).wf(),
            old(self).pending().len() > 0,
            old(self).pending()[0] == Action::ClearHandle,
        ensures
            final(self).wf(),
            old(self).advances_to(*final(self)),
            final(self).handle() == Handle::Absent,
    {
        self.advance();
    }

    /// Carries out the pending `UpdateStatus`: writes the program's status to
    /// the registry, and nothing else.
    pub fn update_status(&mut self, app_state: &mut ApplicationState)
        requires
            old(self).wf(),
            old(app_state).wf(),
            old(self).pending().len() > 0,
            old(self).pending()[0] is UpdateStatus,
        ensures
            final(self).wf(),
            old(self).advances_to(*final(self)),
            final(self).handle() == old(self).handle(),
            final(app_state).wf(),
            final(app_state).statuses() == old(app_state).statuses().insert(
                old(self).program().name@,
                old(self).pending()[0]->UpdateStatus_0,
            ),
            final(app_state).application_status == old(app_state).application_status,
    {
        match self.pending[0] {
            Action::UpdateStatus(status) => {
                update_pgm_status(app_state, self.config.name.as_str(), status);
            },
            _ => {},
        }
        self.advance();
    }

    /// Reports how the send of the pending `EnqueueCommand` went.
    ///
    /// After a send the supervisor goes on. A command that came back ends the
    /// worker: the error carries the command, and the rest of the step is
    /// given up.
    pub fn enqueued(&mut self, sent: Result<(), CommandMsg>) -> (r: Result<(), SupersError>)
        requires
            old(self).wf(),
            old(self).pending().len() > 0,
            old(self).pending()[0] is EnqueueCommand,
        ensures
            final(self).wf(),
            match sent {
                Ok(()) => r is Ok && old(self).advances_to(*final(self)) && final(self).handle()
                    == old(self).handle(),
                Err(back) => {
                    &&& r == Err::<(), SupersError>(
                        SupersError::ProgramCommandChannelSendError { source: back },
                    )
                    &&& old(self).abandons_to(*final(self))
                },
            },
    {
        match sent {
            Ok(()) => {
                self.advance();
            },
            Err(_) => {
                self.abandon();
            },
        }
        crate::mailbox::send_result(sent)
    }

    /// Carries out the pending `EnqueueCommand`: puts the command on the
    /// mailbox behind `tx`, which is the supervisor's own.
    ///
    /// Whether the send succeeds is the channel's to decide. After a send the
    /// supervisor goes on. A failed send ends the worker: the error carries
    /// the command, and the rest of the step is given up.
    pub fn enqueue(&mut self, tx: &CommandSender) -> (r: Result<(), SupersError>)
        requires
            old(self).wf(),
            old(self).pending().len() > 0,
            old(self).pending()[0] is EnqueueCommand,
        ensures
            final(self).wf(),
            match r {
                Ok(()) => old(self).advances_to(*final(self)) && final(self).handle() == old(self).handle(),
                Err(e) => {
                    &&& e == (SupersError::ProgramCommandChannelSendError {
                        source: old(self).pending()[0]->EnqueueCommand_0,
                    })
                    &&& old(self).abandons_to(*final(self))
                },
            },
    {
        match self.pending[0] {
            Action::EnqueueCommand(msg) => {
                let sent = tx.send(msg);
                self.enqueued(sent)
            },
            _ => Ok(()),
        }
    }
}

} // verus!
