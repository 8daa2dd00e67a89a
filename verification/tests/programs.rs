use supers::config::RestartPolicy;
use supers::errors::SupersError;
use supers::messages::CommandMsg;
use supers::programs::{
    get_child_status, state_machine_step, update_pgm_status, Action, ChildStatus, ExitReport,
};
use supers::state::{ApplicationState, ProgramStatus};

const POLICIES: [RestartPolicy; 3] =
    [RestartPolicy::Always, RestartPolicy::Never, RestartPolicy::OnError];

fn exited(success: bool) -> ChildStatus {
    ChildStatus::Exited(ExitReport { success })
}

#[test]
fn programs_test_foo() {
    println!("in test foo");
}

#[test]
fn no_child_only_start_spawns() {
    for policy in POLICIES {
        assert_eq!(state_machine_step(&ChildStatus::NoChild, &None, &policy), vec![]);
        assert_eq!(
            state_machine_step(&ChildStatus::NoChild, &Some(CommandMsg::Start), &policy),
            vec![Action::SpawnChild, Action::UpdateStatus(ProgramStatus::Running)]
        );
        assert_eq!(
            state_machine_step(&ChildStatus::NoChild, &Some(CommandMsg::Stop), &policy),
            vec![]
        );
        assert_eq!(
            state_machine_step(&ChildStatus::NoChild, &Some(CommandMsg::Restart), &policy),
            vec![]
        );
    }
}

#[test]
fn alive_child_is_left_alone_without_stop_or_restart() {
    for policy in POLICIES {
        assert_eq!(state_machine_step(&ChildStatus::Alive, &None, &policy), vec![]);
        assert_eq!(
            state_machine_step(&ChildStatus::Alive, &Some(CommandMsg::Start), &policy),
            vec![]
        );
    }
}

#[test]
fn alive_child_is_killed_on_stop() {
    for policy in POLICIES {
        assert_eq!(
            state_machine_step(&ChildStatus::Alive, &Some(CommandMsg::Stop), &policy),
            vec![
                Action::KillChild,
                Action::UpdateStatus(ProgramStatus::Stopped),
                Action::ClearHandle
            ]
        );
    }
}

#[test]
fn alive_child_is_cycled_on_restart() {
    for policy in POLICIES {
        assert_eq!(
            state_machine_step(&ChildStatus::Alive, &Some(CommandMsg::Restart), &policy),
            vec![
                Action::KillChild,
                Action::SpawnChild,
                Action::UpdateStatus(ProgramStatus::Running)
            ]
        );
    }
}

#[test]
fn exit_without_command_applies_the_policy() {
    let stopped_and_cleared =
        vec![Action::UpdateStatus(ProgramStatus::Stopped), Action::ClearHandle];
    let and_restarted = vec![
        Action::UpdateStatus(ProgramStatus::Stopped),
        Action::ClearHandle,
        Action::EnqueueCommand(CommandMsg::Start),
    ];
    for success in [true, false] {
        assert_eq!(
            state_machine_step(&exited(success), &None, &RestartPolicy::Always),
            and_restarted
        );
        assert_eq!(
            state_machine_step(&exited(success), &None, &RestartPolicy::Never),
            stopped_and_cleared
        );
    }
    assert_eq!(
        state_machine_step(&exited(true), &None, &RestartPolicy::OnError),
        stopped_and_cleared
    );
    assert_eq!(
        state_machine_step(&exited(false), &None, &RestartPolicy::OnError),
        and_restarted
    );
}

#[test]
fn exit_with_command_obeys_the_command() {
    for policy in POLICIES {
        for success in [true, false] {
            assert_eq!(
                state_machine_step(&exited(success), &Some(CommandMsg::Stop), &policy),
                vec![Action::ClearHandle, Action::UpdateStatus(ProgramStatus::Stopped)]
            );
            for msg in [CommandMsg::Start, CommandMsg::Restart] {
                assert_eq!(
                    state_machine_step(&exited(success), &Some(msg), &policy),
                    vec![Action::SpawnChild, Action::UpdateStatus(ProgramStatus::Running)]
                );
            }
        }
    }
}

#[test]
fn wants_restart_follows_the_policy() {
    assert!(RestartPolicy::Always.wants_restart(true));
    assert!(RestartPolicy::Always.wants_restart(false));
    assert!(!RestartPolicy::Never.wants_restart(true));
    assert!(!RestartPolicy::Never.wants_restart(false));
    assert!(!RestartPolicy::OnError.wants_restart(true));
    assert!(RestartPolicy::OnError.wants_restart(false));
}

#[test]
fn child_status_comes_from_the_poll() {
    assert_eq!(get_child_status("p", None).unwrap(), ChildStatus::NoChild);
    assert_eq!(get_child_status("p", Some(Ok(None))).unwrap(), ChildStatus::Alive);
    assert_eq!(
        get_child_status("p", Some(Ok(Some(ExitReport { success: false })))).unwrap(),
        exited(false)
    );
    assert_eq!(
        get_child_status("p", Some(Ok(Some(ExitReport { success: true })))).unwrap(),
        exited(true)
    );
}

#[test]
fn failed_poll_names_the_program_and_the_cause() {
    let cause = std::io::Error::new(std::io::ErrorKind::PermissionDenied, "no poll for you");
    match get_child_status("flapper", Some(Err(cause))) {
        Err(SupersError::ProgramCheckProcessStatusError(name, source)) => {
            assert_eq!(name, "flapper");
            assert_eq!(source.kind(), std::io::ErrorKind::PermissionDenied);
            assert_eq!(source.to_string(), "no poll for you");
        }
        other => panic!("unexpected result: {:?}", other),
    }
}

#[test]
fn update_pgm_status_inserts_then_overwrites() {
    let mut state = ApplicationState::new();
    assert_eq!(state.get("echo"), None);
    update_pgm_status(&mut state, "echo", ProgramStatus::Running);
    assert_eq!(state.get("echo"), Some(ProgramStatus::Running));
    update_pgm_status(&mut state, "echo", ProgramStatus::Running);
    assert_eq!(state.get("echo"), Some(ProgramStatus::Running));
    update_pgm_status(&mut state, "echo", ProgramStatus::Stopped);
    assert_eq!(state.get("echo"), Some(ProgramStatus::Stopped));
    assert_eq!(state.list(), vec![("echo".to_string(), ProgramStatus::Stopped)]);
}
