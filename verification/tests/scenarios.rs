use supers::config::{ProgramConfig, RestartPolicy};
use supers::errors::SupersError;
use supers::mailbox::{enqueue, mailbox, next_command, CommandReceiver, CommandSender};
use supers::messages::CommandMsg;
use supers::programs::Action;
use supers::state::{ApplicationState, ProgramStatus};
use supers::supervisor::Supervisor;

/// A stand-in for a child process: it runs for a number of polls and then
/// exits of its own accord, unless it is killed first.
struct FakeChild {
    polls_left: u32,
    success: bool,
    killed: bool,
}

/// A stand-in for the operating system: it hands out fake children and
/// keeps count of what was asked of it.
struct Host {
    child: Option<FakeChild>,
    lifetimes: Vec<(u32, bool)>,
    spawns: usize,
    kills: usize,
    running_unheld: usize,
    history: Vec<ProgramStatus>,
}

impl Host {
    fn new(lifetimes: Vec<(u32, bool)>) -> Host {
        Host { child: None, lifetimes, spawns: 0, kills: 0, running_unheld: 0, history: vec![] }
    }

    fn is_running(child: &FakeChild) -> bool {
        !child.killed && child.polls_left > 0
    }

    fn let_go(&mut self) {
        if let Some(old) = self.child.take() {
            if Host::is_running(&old) {
                self.running_unheld += 1;
            }
        }
    }

    fn spawn(&mut self) {
        self.let_go();
        let (polls_left, success) = self.lifetimes[self.spawns.min(self.lifetimes.len() - 1)];
        self.child = Some(FakeChild { polls_left, success, killed: false });
        self.spawns += 1;
    }

    fn poll(&mut self) -> Option<Result<Option<supers::programs::ExitReport>, std::io::Error>> {
        self.child.as_mut().map(|c| {
            if c.killed {
                Ok(Some(supers::programs::ExitReport { success: false }))
            } else if c.polls_left == 0 {
                Ok(Some(supers::programs::ExitReport { success: c.success }))
            } else {
                c.polls_left -= 1;
                Ok(None)
            }
        })
    }

    fn live_children(&self) -> usize {
        self.running_unheld + self.child.iter().filter(|c| Host::is_running(c)).count()
    }
}

struct Rig {
    sup: Supervisor,
    host: Host,
    registry: ApplicationState,
    tx: CommandSender,
    rx: CommandReceiver,
    self_enqueued: Vec<CommandMsg>,
}

fn rig(name: &str, policy: RestartPolicy, lifetimes: Vec<(u32, bool)>) -> Rig {
    let config = ProgramConfig {
        name: name.to_string(),
        cmd: "/bin/true".to_string(),
        args: vec![],
        env: vec![],
        restartpolicy: policy,
    };
    let (tx, rx) = mailbox();
    Rig {
        sup: Supervisor::new(config),
        host: Host::new(lifetimes),
        registry: ApplicationState::new(),
        tx,
        rx,
        self_enqueued: vec![],
    }
}

/// One step of the worker loop, with the fake host in place of the real one.
fn step(r: &mut Rig) -> Result<(), SupersError> {
    let msg = next_command(&r.rx);
    assert_eq!(r.sup.holds_child(), r.host.child.is_some());
    let polled = r.host.poll();
    r.sup.begin_step(polled, msg)?;
    while let Some(action) = r.sup.next_action() {
        match action {
            Action::SpawnChild => {
                r.host.spawn();
                r.sup.spawned(Ok(()))?;
            }
            Action::KillChild => {
                r.host.child.as_mut().expect("a child to kill").killed = true;
                r.host.kills += 1;
                assert!(r.sup.killed(Ok(())).is_none());
            }
            Action::ClearHandle => {
                r.host.let_go();
                r.sup.cleared();
            }
            Action::UpdateStatus(s) => {
                r.sup.update_status(&mut r.registry);
                r.host.history.push(s);
            }
            Action::EnqueueCommand(c) => {
                r.sup.enqueue(&r.tx)?;
                r.self_enqueued.push(c);
            }
        }
        assert!(r.host.live_children() <= 1);
    }
    assert_eq!(r.sup.holds_child(), r.host.child.is_some());
    Ok(())
}

fn steps(r: &mut Rig, n: usize) {
    for _ in 0..n {
        step(r).unwrap();
    }
}

#[test]
fn start_only_once() {
    let mut r = rig("echo", RestartPolicy::Never, vec![(1, true)]);
    enqueue(&r.tx, CommandMsg::Start).unwrap();
    step(&mut r).unwrap();
    assert_eq!(r.host.spawns, 1);
    assert_eq!(r.registry.get("echo"), Some(ProgramStatus::Running));
    steps(&mut r, 3);
    assert_eq!(r.registry.get("echo"), Some(ProgramStatus::Stopped));
    assert!(!r.sup.holds_child());
    steps(&mut r, 10);
    assert_eq!(r.host.spawns, 1);
    assert_eq!(r.self_enqueued, vec![]);
    assert_eq!(r.host.history, vec![ProgramStatus::Running, ProgramStatus::Stopped]);
}

#[test]
fn restart_storm_under_always() {
    let mut r = rig("flapper", RestartPolicy::Always, vec![(0, true)]);
    enqueue(&r.tx, CommandMsg::Start).unwrap();
    steps(&mut r, 11);
    assert!(r.host.spawns >= 3);
    assert_eq!(r.host.spawns, 6);
    assert_eq!(r.host.kills, 0);
    assert_eq!(r.self_enqueued.len(), 5);
    assert!(r.self_enqueued.iter().all(|c| *c == CommandMsg::Start));
    for pair in r.host.history.windows(2) {
        assert_ne!(pair[0], pair[1]);
    }
    assert_eq!(r.host.history[0], ProgramStatus::Running);
    assert!(r.host.history.contains(&ProgramStatus::Stopped));
}

#[test]
fn on_error_discrimination() {
    let mut good = rig("job", RestartPolicy::OnError, vec![(0, true)]);
    enqueue(&good.tx, CommandMsg::Start).unwrap();
    steps(&mut good, 6);
    assert_eq!(good.host.spawns, 1);
    assert_eq!(good.self_enqueued, vec![]);
    assert_eq!(good.registry.get("job"), Some(ProgramStatus::Stopped));

    let mut bad = rig("job", RestartPolicy::OnError, vec![(0, false), (1000, true)]);
    enqueue(&bad.tx, CommandMsg::Start).unwrap();
    steps(&mut bad, 6);
    assert_eq!(bad.self_enqueued, vec![CommandMsg::Start]);
    assert_eq!(bad.host.spawns, 2);
    assert_eq!(bad.registry.get("job"), Some(ProgramStatus::Running));
}

#[test]
fn stop_while_alive() {
    let mut r = rig("sleep", RestartPolicy::Always, vec![(1000, true)]);
    enqueue(&r.tx, CommandMsg::Start).unwrap();
    step(&mut r).unwrap();
    assert!(r.sup.holds_child());
    enqueue(&r.tx, CommandMsg::Stop).unwrap();
    step(&mut r).unwrap();
    assert_eq!(r.host.kills, 1);
    assert!(!r.sup.holds_child());
    assert_eq!(r.registry.get("sleep"), Some(ProgramStatus::Stopped));
    steps(&mut r, 5);
    assert_eq!(r.host.spawns, 1);
    assert_eq!(r.self_enqueued, vec![]);
    assert_eq!(r.registry.get("sleep"), Some(ProgramStatus::Stopped));
}

#[test]
fn restart_while_alive() {
    let mut r = rig("sleep", RestartPolicy::Never, vec![(1000, true)]);
    enqueue(&r.tx, CommandMsg::Start).unwrap();
    step(&mut r).unwrap();
    enqueue(&r.tx, CommandMsg::Restart).unwrap();
    step(&mut r).unwrap();
    assert_eq!(r.host.kills, 1);
    assert_eq!(r.host.spawns, 2);
    assert_eq!(r.host.live_children(), 1);
    assert!(r.sup.holds_child());
    assert_eq!(r.registry.get("sleep"), Some(ProgramStatus::Running));
}

#[test]
fn restart_without_child_does_nothing() {
    let mut r = rig("idle", RestartPolicy::Always, vec![(1000, true)]);
    enqueue(&r.tx, CommandMsg::Restart).unwrap();
    enqueue(&r.tx, CommandMsg::Stop).unwrap();
    steps(&mut r, 3);
    assert_eq!(r.host.spawns, 0);
    assert_eq!(r.registry.get("idle"), None);
    assert!(!r.sup.holds_child());
}

#[test]
fn starts_while_alive_spawn_nothing() {
    let mut r = rig("sleep", RestartPolicy::Always, vec![(1000, true)]);
    for _ in 0..5 {
        enqueue(&r.tx, CommandMsg::Start).unwrap();
    }
    steps(&mut r, 7);
    assert_eq!(r.host.spawns, 1);
    assert_eq!(r.host.history, vec![ProgramStatus::Running]);
}

#[test]
fn stop_cancels_a_pending_restart() {
    let mut r = rig("flapper", RestartPolicy::Always, vec![(0, false)]);
    enqueue(&r.tx, CommandMsg::Start).unwrap();
    step(&mut r).unwrap();
    assert_eq!(r.host.spawns, 1);
    enqueue(&r.tx, CommandMsg::Stop).unwrap();
    step(&mut r).unwrap();
    assert!(!r.sup.holds_child());
    assert_eq!(r.self_enqueued, vec![]);
    steps(&mut r, 4);
    assert_eq!(r.host.spawns, 1);
    assert_eq!(r.registry.get("flapper"), Some(ProgramStatus::Stopped));
}

#[test]
fn operator_command_ahead_of_a_self_enqueued_start_goes_first() {
    let mut r = rig("flapper", RestartPolicy::Always, vec![(0, true), (1000, true)]);
    enqueue(&r.tx, CommandMsg::Start).unwrap();
    step(&mut r).unwrap();
    assert_eq!(r.host.spawns, 1);

    let polled = r.host.poll();
    r.sup.begin_step(polled, None).unwrap();
    r.sup.update_status(&mut r.registry);
    r.host.let_go();
    r.sup.cleared();
    enqueue(&r.tx, CommandMsg::Stop).unwrap();
    assert_eq!(r.sup.next_action(), Some(Action::EnqueueCommand(CommandMsg::Start)));
    r.sup.enqueue(&r.tx).unwrap();
    assert_eq!(r.sup.next_action(), None);

    step(&mut r).unwrap();
    assert_eq!(r.host.spawns, 1);
    assert_eq!(r.registry.get("flapper"), Some(ProgramStatus::Stopped));
    step(&mut r).unwrap();
    assert_eq!(r.host.spawns, 2);
    assert_eq!(r.registry.get("flapper"), Some(ProgramStatus::Running));
}

#[test]
fn failed_spawn_ends_the_worker_with_the_program_name() {
    let mut r = rig("missing", RestartPolicy::Always, vec![(0, true)]);
    r.sup.begin_step(None, Some(CommandMsg::Start)).unwrap();
    assert_eq!(r.sup.next_action(), Some(Action::SpawnChild));
    let cause = std::io::Error::new(std::io::ErrorKind::NotFound, "no such file");
    match r.sup.spawned(Err(cause)) {
        Err(SupersError::ProgramProcessSpawnError(name, source)) => {
            assert_eq!(name, "missing");
            assert_eq!(source.kind(), std::io::ErrorKind::NotFound);
        }
        other => panic!("unexpected result: {:?}", other),
    }
    assert_eq!(r.sup.next_action(), None);
    assert!(!r.sup.holds_child());
    assert_eq!(r.registry.get("missing"), None);
}

#[test]
fn failed_poll_ends_the_worker_with_the_program_name() {
    let mut r = rig("odd", RestartPolicy::Never, vec![(5, true)]);
    enqueue(&r.tx, CommandMsg::Start).unwrap();
    step(&mut r).unwrap();
    let cause = std::io::Error::new(std::io::ErrorKind::Other, "poll failed");
    match r.sup.begin_step(Some(Err(cause)), Some(CommandMsg::Stop)) {
        Err(SupersError::ProgramCheckProcessStatusError(name, source)) => {
            assert_eq!(name, "odd");
            assert_eq!(source.to_string(), "poll failed");
        }
        other => panic!("unexpected result: {:?}", other),
    }
    assert_eq!(r.sup.next_action(), None);
    assert!(r.sup.holds_child());
}

#[test]
fn failed_kill_is_reported_and_keeps_the_child() {
    for msg in [CommandMsg::Stop, CommandMsg::Restart] {
        let mut r = rig("stubborn", RestartPolicy::Always, vec![(1000, true)]);
        enqueue(&r.tx, CommandMsg::Start).unwrap();
        step(&mut r).unwrap();
        r.sup.begin_step(Some(Ok(None)), Some(msg)).unwrap();
        assert_eq!(r.sup.next_action(), Some(Action::KillChild));
        let cause = std::io::Error::new(std::io::ErrorKind::PermissionDenied, "not yours");
        match r.sup.killed(Err(cause)) {
            Some(SupersError::ProgramProcessKillError(name, source)) => {
                assert_eq!(name, "stubborn");
                assert_eq!(source.kind(), std::io::ErrorKind::PermissionDenied);
            }
            other => panic!("unexpected result: {:?}", other),
        }
        assert_eq!(r.sup.next_action(), None);
        assert!(r.sup.holds_child());
        assert_eq!(r.registry.get("stubborn"), Some(ProgramStatus::Running));
        steps(&mut r, 2);
        assert_eq!(r.host.spawns, 1);
        assert_eq!(r.host.live_children(), 1);
    }
}

#[test]
fn failed_self_enqueue_ends_the_worker() {
    let mut r = rig("orphan", RestartPolicy::Always, vec![(0, true)]);
    let (tx, rx) = mailbox();
    drop(rx);
    r.sup.begin_step(None, Some(CommandMsg::Start)).unwrap();
    r.sup.spawned(Ok(())).unwrap();
    r.sup.update_status(&mut r.registry);
    assert_eq!(r.sup.next_action(), None);
    r.sup
        .begin_step(Some(Ok(Some(supers::programs::ExitReport { success: true }))), None)
        .unwrap();
    r.sup.update_status(&mut r.registry);
    r.sup.cleared();
    assert_eq!(r.sup.next_action(), Some(Action::EnqueueCommand(CommandMsg::Start)));
    match r.sup.enqueue(&tx) {
        Err(SupersError::ProgramCommandChannelSendError { source }) => {
            assert_eq!(source, CommandMsg::Start)
        }
        other => panic!("unexpected result: {:?}", other),
    }
    assert_eq!(r.sup.next_action(), None);
    assert_eq!(r.registry.get("orphan"), Some(ProgramStatus::Stopped));
}

#[test]
fn returned_command_ends_the_worker() {
    let mut r = rig("orphan", RestartPolicy::OnError, vec![(0, false)]);
    let failed = supers::programs::ExitReport { success: false };
    r.sup.begin_step(Some(Ok(Some(failed))), None).unwrap();
    r.sup.update_status(&mut r.registry);
    r.sup.cleared();
    match r.sup.enqueued(Err(CommandMsg::Start)) {
        Err(SupersError::ProgramCommandChannelSendError { source }) => {
            assert_eq!(source, CommandMsg::Start)
        }
        other => panic!("unexpected result: {:?}", other),
    }
    assert_eq!(r.sup.next_action(), None);

    r.sup.begin_step(Some(Ok(Some(failed))), None).unwrap();
    r.sup.update_status(&mut r.registry);
    r.sup.cleared();
    assert!(r.sup.enqueued(Ok(())).is_ok());
    assert_eq!(r.sup.next_action(), None);
    assert!(!r.sup.holds_child());
}

#[test]
fn supervisor_keeps_its_config() {
    let r = rig("echo", RestartPolicy::OnError, vec![(0, true)]);
    assert_eq!(r.sup.config().name, "echo");
    assert_eq!(r.sup.config().cmd, "/bin/true");
    assert_eq!(r.sup.config().restartpolicy, RestartPolicy::OnError);
    assert_eq!(r.sup.next_action(), None);
    assert!(!r.sup.holds_child());
}
