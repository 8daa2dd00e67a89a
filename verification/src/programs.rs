//! The state machine of one supervised program: what a supervisor sees of
//! its child, what it is told, and what it decides to do about it.

use crate::config::RestartPolicy;
use crate::errors::SupersError;
use crate::messages::CommandMsg;
use crate::state::{ApplicationState, ProgramStatus};
use vstd::prelude::*;

verus! {

/// How a child ended, as far as the supervisor cares: whether its exit status
/// reports success by the convention of the host.
#[derive(Debug, Clone, Copy, PartialEq, Eq, Structural)]
pub struct ExitReport {
    pub success: bool,
}

/// What a supervisor sees of its child at the start of a step.
#[derive(Debug, Clone, Copy, PartialEq, Eq, Structural)]
pub enum ChildStatus {
    /// The supervisor holds no child handle.
    NoChild,
    /// It holds a handle, and the child was still running when last polled.
    Alive,
    /// It holds a handle, and the last poll returned the child's exit.
    Exited(ExitReport),
}

/// One thing a supervisor intends to do. A step is a list of these, carried
/// out in order.
#[derive(Debug, Clone, Copy, PartialEq, Eq, Structural)]
pub enum Action {
    /// Launch the program and keep the handle of the new child.
    SpawnChild,
    /// Ask the operating system to terminate the child behind the handle.
    KillChild,
    /// Let go of the handle.
    ClearHandle,
    /// Write the program's status to the registry.
    UpdateStatus(ProgramStatus),
    /// Put a command on the supervisor's own mailbox.
    EnqueueCommand(CommandMsg),
}

/// What the restart policy adds to a step that has observed an exit and has
/// no command to obey: a `Start` on the supervisor's own mailbox, or nothing.
pub open spec fn policy_actions(policy: RestartPolicy, exit: ExitReport) -> Seq<Action> {
    if policy.restarts_after(exit.success) {
        seq![Action::EnqueueCommand(CommandMsg::Start)]
    } else {
        Seq::empty()
    }
}

/// The transition table: the actions of the step that starts with the child
/// in `status` and the command `msg`, under the restart policy `policy`.
pub open spec fn step_actions(
    status: ChildStatus,
    msg: Option<CommandMsg>,
    policy: RestartPolicy,
) -> Seq<Action> {
    match (status, msg) {
        (ChildStatus::NoChild, Some(CommandMsg::Start)) => seq![
            Action::SpawnChild,
            Action::UpdateStatus(ProgramStatus::Running),
        ],
        (ChildStatus::NoChild, _) => Seq::empty(),
        (ChildStatus::Alive, Some(CommandMsg::Stop)) => seq![
            Action::KillChild,
            Action::UpdateStatus(ProgramStatus::Stopped),
            Action::ClearHandle,
        ],
        (ChildStatus::Alive, Some(CommandMsg::Restart)) => seq![
            Action::KillChild,
            Action::SpawnChild,
            Action::UpdateStatus(ProgramStatus::Running),
        ],
        (ChildStatus::Alive, _) => Seq::empty(),
        (ChildStatus::Exited(exit), None) => seq![
            Action::UpdateStatus(ProgramStatus::Stopped),
            Action::ClearHandle,
        ] + policy_actions(policy, exit),
        (ChildStatus::Exited(_), Some(CommandMsg::Stop)) => seq![
            Action::ClearHandle,
            Action::UpdateStatus(ProgramStatus::Stopped),
        ],
        (ChildStatus::Exited(_), Some(_)) => seq![
            Action::SpawnChild,
            Action::UpdateStatus(ProgramStatus::Running),
        ],
    }
}

/// Computes the actions of one step, before any of them is carried out.
pub fn state_machine_step(
    status: &ChildStatus,
    msg: &Option<CommandMsg>,
    policy: &RestartPolicy,
) -> (actions: Vec<Action>)
    ensures
        actions@ == step_actions(*status, *msg, *policy),
{
    let mut actions: Vec<Action> = Vec::new();
    match (status, msg) {
        (ChildStatus::NoChild, Some(CommandMsg::Start)) => {
            actions.push(Action::SpawnChild);
            actions.push(Action::UpdateStatus(ProgramStatus::Running));
        },
        (ChildStatus::NoChild, _) => {
            // Without a child there is nothing to stop, and nothing to cycle.
        },
        (ChildStatus::Alive, Some(CommandMsg::Stop)) => {
            actions.push(Action::KillChild);
            actions.push(Action::UpdateStatus(ProgramStatus::Stopped));
            actions.push(Action::ClearHandle);
        },
        (ChildStatus::Alive, Some(CommandMsg::Restart)) => {
            actions.push(Action::KillChild);
            actions.push(Action::SpawnChild);
            actions.push(Action::UpdateStatus(ProgramStatus::Running));
        },
        (ChildStatus::Alive, _) => {
            // The child runs: leave it alone.
        },
        (ChildStatus::Exited(exit), None) => {
            actions.push(Action::UpdateStatus(ProgramStatus::Stopped));
            actions.push(Action::ClearHandle);
            if policy.wants_restart(exit.success) {
                actions.push(Action::EnqueueCommand(CommandMsg::Start));
            }
        },
        (ChildStatus::Exited(_), Some(CommandMsg::Stop)) => {
            actions.push(Action::ClearHandle);
            actions.push(Action::UpdateStatus(ProgramStatus::Stopped));
        },
        (ChildStatus::Exited(_), Some(_)) => {
            actions.push(Action::SpawnChild);
            actions.push(Action::UpdateStatus(ProgramStatus::Running));
        },
    }
    assert(actions@ =~= step_actions(*status, *msg, *policy));
    actions
}

/// The status that a poll stands for: no handle, a child still running, or
/// the exit that the poll returned.
pub open spec fn status_of(polled: Option<Option<ExitReport>>) -> ChildStatus {
    match polled {
        None => ChildStatus::NoChild,
        Some(None) => ChildStatus::Alive,
        Some(Some(exit)) => ChildStatus::Exited(exit),
    }
}

/// Turns the outcome of a poll into the status of the child of program `name`.
///
/// `polled` is `None` when the supervisor holds no handle; otherwise it is
/// what the non-blocking poll of the handle returned. A poll that failed is
/// an error of the program, which carries the name and the cause.
pub fn get_child_status(
    name: &str,
    polled: Option<Result<Option<ExitReport>, std::io::Error>>,
) -> (status: Result<ChildStatus, SupersError>)
    ensures
        match polled {
            None => status == Ok::<ChildStatus, SupersError>(ChildStatus::NoChild),
            Some(Ok(seen)) => status == Ok::<ChildStatus, SupersError>(status_of(Some(seen))),
            Some(Err(cause)) => status matches Err(
                SupersError::ProgramCheckProcessStatusError(program, source),
            ) && program@ == name@ && source == cause,
        },
{
    match polled {
        None => Ok(ChildStatus::NoChild),
        Some(Ok(None)) => Ok(ChildStatus::Alive),
        Some(Ok(Some(exit))) => Ok(ChildStatus::Exited(exit)),
        Some(Err(cause)) => Err(
            SupersError::ProgramCheckProcessStatusError(String::from_str(name), cause),
        ),
    }
}

/// Sets the status of the program `pgm_name` in the registry to `status`.
pub fn update_pgm_status(app_state: &mut ApplicationState, pgm_name: &str, status: ProgramStatus)
    requires
        old(app_state).wf(),
    ensures
        final(app_state).wf(),
        final(app_state).statuses() == old(app_state).statuses().insert(pgm_name@, status),
        final(app_state).application_status == old(app_state).application_status,
        final(app_state).programs.names() == if old(app_state).statuses().contains_key(
            pgm_name@,
        ) {
            old(app_state).programs.names()
        } else {
            old(app_state).programs.names().push(pgm_name@)
        },
{
    app_state.set(pgm_name, status);
}

} // verus!
