//! A local process supervisor: the per-program state machine, the status
//! registry, the command gateway and the replies of the administrative API.

pub mod config;
pub mod errors;
pub mod gateway;
pub mod handlers;
pub mod mailbox;
pub mod messages;
pub mod names;
pub mod pool;
pub mod programs;
pub mod semantics;
pub mod state;
pub mod supervisor;

use crate::config::{ApplicationConfig, IpAddress, ProgramConfig, RestartPolicy, DEFAULT_PORT};
use crate::errors::SupersError;
use vstd::prelude::*;

verus! {

/// Whether `p` is the program `name` that runs `cmd` under `policy`, with
/// the arguments `args` and, if `personal`, the variable `NAME` set to `Joe`.
pub open spec fn is_sample_program(
    p: ProgramConfig,
    name: Seq<char>,
    cmd: Seq<char>,
    args: Seq<Seq<char>>,
    personal: bool,
    policy: RestartPolicy,
) -> bool {
    &&& p.name@ == name
    &&& p.cmd@ == cmd
    &&& p.args@.len() == args.len()
    &&& forall|i: int| 0 <= i < args.len() ==> (#[trigger] p.args@[i])@ == args[i]
    &&& p.env@.len() == if personal {
        1int
    } else {
        0int
    }
    &&& personal ==> p.env@[0].0@ == "NAME"@ && p.env@[0].1@ == "Joe"@
    &&& p.restartpolicy == policy
}

/// A small application for trying the supervisor out: `sleep3`, which
/// sleeps for three seconds and is always restarted; `echo`, which greets
/// once; and `ls`, which is restarted only when it fails.
pub fn get_test_app_config() -> (c: ApplicationConfig)
    ensures
        c.app_name@ == "Test App"@,
        c.address == IpAddress::V4([0u8, 0u8, 0u8, 0u8]),
        c.port == DEFAULT_PORT,
        c.programs@.len() == 3,
        is_sample_program(
            c.programs@[0],
            "sleep3"@,
            "/bin/sleep"@,
            seq!["3"@],
            false,
            RestartPolicy::Always,
        ),
        is_sample_program(
            c.programs@[1],
            "echo"@,
            "/bin/sh"@,
            seq!["-c"@, "echo"@, "Hello, $NAME, from supers"@],
            true,
            RestartPolicy::Never,
        ),
        is_sample_program(
            c.programs@[2],
            "ls"@,
            "ls"@,
            Seq::<Seq<char>>::empty(),
            true,
            RestartPolicy::OnError,
        ),
{
    let mut sleep_args: Vec<String> = Vec::new();
    sleep_args.push(String::from_str("3"));
    let sleeper = ProgramConfig {
        name: String::from_str("sleep3"),
        cmd: String::from_str("/bin/sleep"),
        args: sleep_args,
        env: Vec::new(),
        restartpolicy: RestartPolicy::Always,
    };

    let mut echo_env: Vec<(String, String)> = Vec::new();
    echo_env.push((String::from_str("NAME"), String::from_str("Joe")));
    let mut echo_args: Vec<String> = Vec::new();
    echo_args.push(String::from_str("-c"));
    echo_args.push(String::from_str("echo"));
    echo_args.push(String::from_str("Hello, $NAME, from supers"));
    let greeter = ProgramConfig {
        name: String::from_str("echo"),
        cmd: String::from_str("/bin/sh"),
        args: echo_args,
        env: echo_env,
        restartpolicy: RestartPolicy::Never,
    };

    let mut ls_env: Vec<(String, String)> = Vec::new();
    ls_env.push((String::from_str("NAME"), String::from_str("Joe")));
    let lister = ProgramConfig {
        name: String::from_str("ls"),
        cmd: String::from_str("ls"),
        args: Vec::new(),
        env: ls_env,
        restartpolicy: RestartPolicy::OnError,
    };

    let mut programs: Vec<ProgramConfig> = Vec::new();
    programs.push(sleeper);
    programs.push(greeter);
    programs.push(lister);

    let mut c = ApplicationConfig::default();
    c.app_name = String::from_str("Test App");
    c.programs = programs;
    c
}

/// Starts the server side of the supervisor. There is nothing to start yet,
/// so this always succeeds.
pub fn start_server_thread() -> (r: Result<(), SupersError>)
    ensures
        r is Ok,
{
    Ok(())
}

} // verus!
