use supers::errors::SupersError;
use supers::mailbox::send_result;
use supers::messages::CommandMsg;

fn os_error() -> std::io::Error {
    std::io::Error::new(std::io::ErrorKind::NotFound, "gone")
}

#[test]
fn send_result_wraps_the_returned_command() {
    assert!(send_result(Ok(())).is_ok());
    for msg in [CommandMsg::Start, CommandMsg::Stop, CommandMsg::Restart] {
        match send_result(Err(msg)) {
            Err(SupersError::ProgramCommandChannelSendError { source }) => assert_eq!(source, msg),
            other => panic!("unexpected result: {:?}", other),
        }
    }
}

#[test]
fn every_error_shows_its_program_and_cause() {
    let syntax = toml::from_str::<toml::Value>("port = ").unwrap_err();
    let shown = format!("{:?}", SupersError::ApplicationConfigParseError(syntax));
    assert!(shown.starts_with("ApplicationConfigParseError("));

    let shown = format!("{:?}", SupersError::ApplicationConfigFileError(os_error()));
    assert!(shown.starts_with("ApplicationConfigFileError("));
    assert!(shown.contains("gone"));

    let with_program = [
        (SupersError::ProgramThreadStartError("echo".to_string(), os_error()), "ThreadStart"),
        (
            SupersError::ProgramCheckProcessStatusError("echo".to_string(), os_error()),
            "CheckProcessStatus",
        ),
        (SupersError::ProgramCmdChannelError("echo".to_string(), os_error()), "CmdChannel"),
        (SupersError::ProgramProcessSpawnError("echo".to_string(), os_error()), "ProcessSpawn"),
        (SupersError::ProgramProcessExitError("echo".to_string(), os_error()), "ProcessExit"),
        (SupersError::ProgramProcessKillError("echo".to_string(), os_error()), "ProcessKill"),
    ];
    for (error, what) in with_program {
        let shown = format!("{:?}", error);
        assert!(shown.starts_with(&format!("Program{}Error(", what)));
        assert!(shown.contains("\"echo\""));
        assert!(shown.contains("gone"));
    }

    let shown =
        format!("{:?}", SupersError::ProgramCommandChannelSendError { source: CommandMsg::Stop });
    assert!(shown.contains("Stop"));
}
