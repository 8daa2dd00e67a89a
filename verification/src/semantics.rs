//! What the actions of a supervisor mean, and what follows for every step.
//!
//! The model keeps, for one supervisor, what its actions can change: the
//! child handle, the program's registry entry, the commands it has put on
//! its own mailbox, and counts of the children it has spawned, killed and
//! lost track of. The theorems below hold of every step of the transition
//! table, whatever the model was before.

use crate::config::RestartPolicy;
use crate::messages::CommandMsg;
use crate::programs::{step_actions, Action, ChildStatus, ExitReport};
use crate::state::ProgramStatus;
use vstd::prelude::*;

verus! {

/// What a supervisor knows of its child handle.
#[derive(Debug, Clone, Copy, PartialEq, Eq, Structural)]
pub enum Handle {
    /// No handle is held.
    Absent,
    /// A handle is held, and its child may be running.
    Live,
    /// A handle is held, and its child has exited or has been killed.
    Dead,
}

/// What a status says of the handle.
pub open spec fn handle_of(status: ChildStatus) -> Handle {
    match status {
        ChildStatus::NoChild => Handle::Absent,
        ChildStatus::Alive => Handle::Live,
        ChildStatus::Exited(_) => Handle::Dead,
    }
}

/// The handle after an action has been carried out.
pub open spec fn handle_after(handle: Handle, action: Action) -> Handle {
    match action {
        Action::SpawnChild => Handle::Live,
        Action::KillChild => if handle == Handle::Absent {
            Handle::Absent
        } else {
            Handle::Dead
        },
        Action::ClearHandle => Handle::Absent,
        _ => handle,
    }
}

/// Whether an action may be carried out on a handle: a child that may be
/// running is neither replaced nor let go, and only a held child is killed.
pub open spec fn permitted(handle: Handle, action: Action) -> bool {
    match action {
        Action::SpawnChild => handle != Handle::Live,
        Action::ClearHandle => handle != Handle::Live,
        Action::KillChild => handle != Handle::Absent,
        _ => true,
    }
}

/// Whether each action of `actions` is permitted when its turn comes,
/// starting from `handle`.
pub open spec fn safe_plan(handle: Handle, actions: Seq<Action>) -> bool
    decreases actions.len(),
{
    if actions.len() == 0 {
        true
    } else {
        permitted(handle, actions[0]) && safe_plan(
            handle_after(handle, actions[0]),
            actions.skip(1),
        )
    }
}

/// One supervisor and what it has done so far.
pub struct Model {
    /// The child handle.
    pub handle: Handle,
    /// The program's entry in the status registry.
    pub status: Option<ProgramStatus>,
    /// The commands that the supervisor has put on its own mailbox, oldest first.
    pub outbox: Seq<CommandMsg>,
    /// How many children it has spawned.
    pub spawns: nat,
    /// How many kills it has delivered.
    pub kills: nat,
    /// How many children that may still run it holds no handle for.
    pub strays: nat,
}

/// The model after one action has been carried out.
pub open spec fn apply(m: Model, action: Action) -> Model {
    match action {
        Action::SpawnChild => Model {
            handle: Handle::Live,
            spawns: m.spawns + 1,
            strays: if m.handle == Handle::Live {
                m.strays + 1
            } else {
                m.strays
            },
            ..m
        },
        Action::KillChild => Model {
            handle: handle_after(m.handle, action),
            kills: if m.handle == Handle::Absent {
                m.kills
            } else {
                m.kills + 1
            },
            ..m
        },
        Action::ClearHandle => Model {
            handle: Handle::Absent,
            strays: if m.handle == Handle::Live {
                m.strays + 1
            } else {
                m.strays
            },
            ..m
        },
        Action::UpdateStatus(status) => Model { status: Some(status), ..m },
        Action::EnqueueCommand(msg) => Model { outbox: m.outbox.push(msg), ..m },
    }
}

/// The model after the first `k` actions of `actions` have been carried out
/// in order.
pub open spec fn apply_first(m: Model, actions: Seq<Action>, k: int) -> Model
    decreases k,
{
    if k <= 0 {
        m
    } else {
        apply(apply_first(m, actions, k - 1), actions[k - 1])
    }
}

/// The model at the start of a step: the poll has told what became of the
/// child behind the handle.
pub open spec fn observe(m: Model, status: ChildStatus) -> Model {
    Model { handle: handle_of(status), ..m }
}

/// The model after a whole step.
pub open spec fn step(
    m: Model,
    status: ChildStatus,
    msg: Option<CommandMsg>,
    policy: RestartPolicy,
) -> Model {
    let plan = step_actions(status, msg, policy);
    apply_first(observe(m, status), plan, plan.len() as int)
}

/// The model after a run of steps, given what each step saw and was told.
pub open spec fn run(
    m: Model,
    inputs: Seq<(ChildStatus, Option<CommandMsg>)>,
    policy: RestartPolicy,
) -> Model
    decreases inputs.len(),
{
    if inputs.len() == 0 {
        m
    } else {
        run(step(m, inputs[0].0, inputs[0].1, policy), inputs.skip(1), policy)
    }
}

/// The plan of every step has at most three actions, and all of them can be
/// unfolded at once.
proof fn lemma_unfold(m: Model, actions: Seq<Action>)
    requires
        actions.len() <= 3,
    ensures
        apply_first(m, actions, 0) == m,
        actions.len() >= 1 ==> apply_first(m, actions, 1) == apply(m, actions[0]),
        actions.len() >= 2 ==> apply_first(m, actions, 2) == apply(
            apply(m, actions[0]),
            actions[1],
        ),
        actions.len() >= 3 ==> apply_first(m, actions, 3) == apply(
            apply(apply(m, actions[0]), actions[1]),
            actions[2],
        ),
{
    reveal_with_fuel(apply_first, 4);
}

/// The plan of a step, read off the transition table: its length and each of
/// its actions.
proof fn lemma_plan_shape(status: ChildStatus, msg: Option<CommandMsg>, policy: RestartPolicy)
    ensures
        step_actions(status, msg, policy).len() <= 3,
        match (status, msg) {
            (ChildStatus::Exited(exit), None) => {
                let plan = step_actions(status, msg, policy);
                &&& plan.len() == if policy.restarts_after(exit.success) {
                    3int
                } else {
                    2int
                }
                &&& plan[0] == Action::UpdateStatus(ProgramStatus::Stopped)
                &&& plan[1] == Action::ClearHandle
                &&& policy.restarts_after(exit.success) ==> plan[2] == Action::EnqueueCommand(
                    CommandMsg::Start,
                )
            },
            _ => true,
        },
{
}

/// Every plan of the transition table is safe for the handle that its step
/// starts with: no step replaces or lets go of a child that may be running,
/// and none kills a child that is not there.
pub proof fn lemma_plans_are_safe(
    status: ChildStatus,
    msg: Option<CommandMsg>,
    policy: RestartPolicy,
)
    ensures
        safe_plan(handle_of(status), step_actions(status, msg, policy)),
{
    let plan = step_actions(status, msg, policy);
    lemma_plan_shape(status, msg, policy);
    reveal_with_fuel(safe_plan, 4);
    if plan.len() >= 1 {
        let rest1 = plan.skip(1);
        assert(rest1.len() == plan.len() - 1);
        if plan.len() >= 2 {
            assert(rest1[0] == plan[1]);
            let rest2 = rest1.skip(1);
            assert(rest2.len() == plan.len() - 2);
            if plan.len() >= 3 {
                assert(rest2[0] == plan[2]);
                assert(rest2.skip(1).len() == 0);
            }
        }
    }
}

/// The model's handle after an action is what `handle_after` says, whatever
/// else the model holds.
pub proof fn lemma_apply_handle(m: Model, action: Action)
    ensures
        apply(m, action).handle == handle_after(m.handle, action),
{
}

/// Carrying out a safe plan, or any part of it from the front, never loses
/// track of a child that may be running; and what is left of the plan is
/// safe for the handle as it then is.
pub proof fn lemma_safe_plan_keeps_track(m: Model, actions: Seq<Action>, k: int)
    requires
        safe_plan(m.handle, actions),
        0 <= k <= actions.len(),
    ensures
        apply_first(m, actions, k).strays == m.strays,
        safe_plan(apply_first(m, actions, k).handle, actions.skip(k)),
    decreases k,
{
    if k == 0 {
        assert(actions.skip(0) =~= actions);
    } else {
        lemma_safe_plan_keeps_track(m, actions, k - 1);
        let before = apply_first(m, actions, k - 1);
        let rest = actions.skip(k - 1);
        assert(rest[0] == actions[k - 1]);
        assert(rest.skip(1) =~= actions.skip(k));
    }
}

/// A supervisor has at most one child at any instant: whatever it had lost
/// track of before a step, no action of the step adds to it, so the only
/// child that can be running is the one behind its single handle.
pub proof fn lemma_single_child(
    m: Model,
    status: ChildStatus,
    msg: Option<CommandMsg>,
    policy: RestartPolicy,
    k: int,
)
    requires
        0 <= k <= step_actions(status, msg, policy).len(),
    ensures
        apply_first(observe(m, status), step_actions(status, msg, policy), k).strays == m.strays,
{
    let plan = step_actions(status, msg, policy);
    lemma_plan_shape(status, msg, policy);
    lemma_unfold(observe(m, status), plan);
}

/// Along any run of steps, the supervisor never loses track of a child that
/// may be running.
pub proof fn lemma_single_child_along_run(
    m: Model,
    inputs: Seq<(ChildStatus, Option<CommandMsg>)>,
    policy: RestartPolicy,
)
    ensures
        run(m, inputs, policy).strays == m.strays,
    decreases inputs.len(),
{
    if inputs.len() > 0 {
        let plan = step_actions(inputs[0].0, inputs[0].1, policy);
        lemma_single_child(m, inputs[0].0, inputs[0].1, policy, plan.len() as int);
        lemma_single_child_along_run(
            step(m, inputs[0].0, inputs[0].1, policy),
            inputs.skip(1),
            policy,
        );
    }
}

/// Whether a step carries out the action `action`.
pub open spec fn performs(
    status: ChildStatus,
    msg: Option<CommandMsg>,
    policy: RestartPolicy,
    action: Action,
) -> bool {
    step_actions(status, msg, policy).contains(action)
}

/// The registry reflects the transitions: after a step that spawns a child
/// the program's status is `Running`; after a step that kills the child or
/// has seen its exit, and does not spawn, the status is `Stopped`.
pub proof fn lemma_status_reflects_transitions(
    m: Model,
    status: ChildStatus,
    msg: Option<CommandMsg>,
    policy: RestartPolicy,
)
    ensures
        performs(status, msg, policy, Action::SpawnChild) ==> step(m, status, msg, policy).status
            == Some(ProgramStatus::Running),
        (performs(status, msg, policy, Action::KillChild) || status is Exited) && !performs(
            status,
            msg,
            policy,
            Action::SpawnChild,
        ) ==> step(m, status, msg, policy).status == Some(ProgramStatus::Stopped),
{
    let plan = step_actions(status, msg, policy);
    lemma_plan_shape(status, msg, policy);
    lemma_unfold(observe(m, status), plan);
    if plan.len() >= 1 {
        assert(plan.contains(plan[0]));
    }
    if plan.len() >= 2 {
        assert(plan.contains(plan[1]));
    }
    if plan.len() >= 3 {
        assert(plan.contains(plan[2]));
    }
}

/// A step that finds the child alive and is told to start it does nothing,
/// under every restart policy.
pub proof fn lemma_start_while_alive(m: Model, policy: RestartPolicy)
    requires
        m.handle == Handle::Live,
    ensures
        step_actions(ChildStatus::Alive, Some(CommandMsg::Start), policy) == Seq::<Action>::empty(),
        step(m, ChildStatus::Alive, Some(CommandMsg::Start), policy) == m,
{
    lemma_unfold(
        observe(m, ChildStatus::Alive),
        step_actions(ChildStatus::Alive, Some(CommandMsg::Start), policy),
    );
}

/// Any number of consecutive `Start` commands while the child is alive
/// change nothing: no child is spawned, under `Always` as under any policy.
pub proof fn lemma_starts_while_alive(
    m: Model,
    inputs: Seq<(ChildStatus, Option<CommandMsg>)>,
    policy: RestartPolicy,
)
    requires
        m.handle == Handle::Live,
        forall|i: int|
            0 <= i < inputs.len() ==> #[trigger] inputs[i] == (
                ChildStatus::Alive,
                Some(CommandMsg::Start),
            ),
    ensures
        run(m, inputs, policy) == m,
        run(m, inputs, policy).spawns == m.spawns,
    decreases inputs.len(),
{
    if inputs.len() > 0 {
        assert(inputs[0] == (ChildStatus::Alive, Some(CommandMsg::Start)));
        lemma_start_while_alive(m, policy);
        assert forall|i: int| 0 <= i < inputs.skip(1).len() implies #[trigger] inputs.skip(1)[i]
            == (ChildStatus::Alive, Some(CommandMsg::Start)) by {
            assert(inputs.skip(1)[i] == inputs[i + 1]);
        }
        lemma_starts_while_alive(m, inputs.skip(1), policy);
    }
}

/// Under `Never`, a step that is told nothing or told to stop spawns no
/// child and puts nothing on the mailbox.
pub proof fn lemma_never_step(m: Model, status: ChildStatus, msg: Option<CommandMsg>)
    requires
        msg is None || msg == Some(CommandMsg::Stop),
    ensures
        step(m, status, msg, RestartPolicy::Never).spawns == m.spawns,
        step(m, status, msg, RestartPolicy::Never).outbox == m.outbox,
{
    let plan = step_actions(status, msg, RestartPolicy::Never);
    lemma_plan_shape(status, msg, RestartPolicy::Never);
    lemma_unfold(observe(m, status), plan);
}

/// Under `Never` a supervisor spawns no child of its own accord: along any
/// run in which nobody sends `Start` or `Restart`, and so in particular
/// after the first exit it has seen, it spawns nothing and puts nothing on
/// its own mailbox.
pub proof fn lemma_never_is_terminal(m: Model, inputs: Seq<(ChildStatus, Option<CommandMsg>)>)
    requires
        forall|i: int|
            0 <= i < inputs.len() ==> (#[trigger] inputs[i]).1 is None || inputs[i].1 == Some(
                CommandMsg::Stop,
            ),
    ensures
        run(m, inputs, RestartPolicy::Never).spawns == m.spawns,
        run(m, inputs, RestartPolicy::Never).outbox == m.outbox,
    decreases inputs.len(),
{
    if inputs.len() > 0 {
        assert(inputs[0].1 is None || inputs[0].1 == Some(CommandMsg::Stop));
        lemma_never_step(m, inputs[0].0, inputs[0].1);
        assert forall|i: int| 0 <= i < inputs.skip(1).len() implies (#[trigger] inputs.skip(
            1,
        )[i]).1 is None || inputs.skip(1)[i].1 == Some(CommandMsg::Stop) by {
            assert(inputs.skip(1)[i] == inputs[i + 1]);
        }
        lemma_never_is_terminal(
            step(m, inputs[0].0, inputs[0].1, RestartPolicy::Never),
            inputs.skip(1),
        );
    }
}

/// Under `OnError`, the step that sees an exit and has no command spawns
/// nothing. After a successful exit it puts nothing on the mailbox; after a
/// failed one it puts exactly one `Start` there. Either way it lets go of
/// the handle, so the same exit is not seen twice.
pub proof fn lemma_on_error_discriminates(m: Model, exit: ExitReport)
    ensures
        step(m, ChildStatus::Exited(exit), None, RestartPolicy::OnError).spawns == m.spawns,
        step(m, ChildStatus::Exited(exit), None, RestartPolicy::OnError).outbox == if exit.success {
            m.outbox
        } else {
            m.outbox.push(CommandMsg::Start)
        },
        step(m, ChildStatus::Exited(exit), None, RestartPolicy::OnError).handle == Handle::Absent,
{
    let status = ChildStatus::Exited(exit);
    let plan = step_actions(status, None, RestartPolicy::OnError);
    lemma_plan_shape(status, None, RestartPolicy::OnError);
    lemma_unfold(observe(m, status), plan);
}

/// Under `Always`, the step that sees an exit and has no command puts
/// exactly one `Start` on the mailbox and spawns nothing itself.
pub proof fn lemma_always_restarts(m: Model, exit: ExitReport)
    ensures
        step(m, ChildStatus::Exited(exit), None, RestartPolicy::Always).spawns == m.spawns,
        step(m, ChildStatus::Exited(exit), None, RestartPolicy::Always).outbox == m.outbox.push(
            CommandMsg::Start,
        ),
        step(m, ChildStatus::Exited(exit), None, RestartPolicy::Always).handle == Handle::Absent,
        step(m, ChildStatus::Exited(exit), None, RestartPolicy::Always).status == Some(
            ProgramStatus::Stopped,
        ),
{
    let status = ChildStatus::Exited(exit);
    let plan = step_actions(status, None, RestartPolicy::Always);
    lemma_plan_shape(status, None, RestartPolicy::Always);
    lemma_unfold(observe(m, status), plan);
}

/// A `Stop` that finds the child alive is final within its step: the child
/// is killed, then the status is `Stopped` and the handle is gone. Nothing
/// is spawned and nothing is put on the mailbox, whatever the policy.
pub proof fn lemma_stop_is_final(m: Model, policy: RestartPolicy)
    ensures
        step(m, ChildStatus::Alive, Some(CommandMsg::Stop), policy) == (Model {
            handle: Handle::Absent,
            status: Some(ProgramStatus::Stopped),
            kills: m.kills + 1,
            ..m
        }),
{
    let plan = step_actions(ChildStatus::Alive, Some(CommandMsg::Stop), policy);
    lemma_unfold(observe(m, ChildStatus::Alive), plan);
}

/// A `Restart` that finds the child alive kills it before it spawns the new
/// one, and leaves the status `Running`.
pub proof fn lemma_restart_cycles(m: Model, policy: RestartPolicy)
    ensures
        step(m, ChildStatus::Alive, Some(CommandMsg::Restart), policy) == (Model {
            handle: Handle::Live,
            status: Some(ProgramStatus::Running),
            kills: m.kills + 1,
            spawns: m.spawns + 1,
            ..m
        }),
{
    let plan = step_actions(ChildStatus::Alive, Some(CommandMsg::Restart), policy);
    lemma_unfold(observe(m, ChildStatus::Alive), plan);
}

} // verus!
