//! The description of the application: the programs to supervise and where
//! the administrative API listens.

use vstd::prelude::*;

verus! {

/// When a supervisor starts its program again after the program has exited.
#[derive(Debug, Clone, Copy, PartialEq, Eq, Structural)]
pub enum RestartPolicy {
    /// After every exit, whatever the exit status.
    Always,
    /// Never.
    Never,
    /// Only after an exit that reports failure.
    OnError,
}

impl Default for RestartPolicy {
    fn default() -> (policy: Self)
        ensures
            policy == RestartPolicy::Always,
    {
        RestartPolicy::Always
    }
}

impl RestartPolicy {
    /// Whether this policy asks for a restart after an exit that did or did
    /// not report success.
    pub open spec fn restarts_after(self, success: bool) -> bool {
        match self {
            RestartPolicy::Always => true,
            RestartPolicy::Never => false,
            RestartPolicy::OnError => !success,
        }
    }

    /// Whether this policy asks for a restart after an exit that did or did
    /// not report success.
    pub fn wants_restart(&self, success: bool) -> (restart: bool)
        ensures
            restart == self.restarts_after(success),
    {
        match self {
            RestartPolicy::Always => true,
            RestartPolicy::Never => false,
            RestartPolicy::OnError => !success,
        }
    }
}

/// One program to launch and supervise.
#[derive(Debug, Clone)]
pub struct ProgramConfig {
    /// The name of the program: it names the worker, the mailbox and the
    /// registry entry, and should be unique within the application.
    pub name: String,
    /// The command that starts the program.
    pub cmd: String,
    /// The arguments of the command, in order.
    pub args: Vec<String>,
    /// Environment variables to set for the program, as pairs of name and
    /// value. They are applied in order over the inherited environment.
    pub env: Vec<(String, String)>,
    /// When to start the program again after it has exited.
    pub restartpolicy: RestartPolicy,
}

impl Default for ProgramConfig {
    fn default() -> (p: Self)
        ensures
            p.name@.len() == 0,
            p.cmd@.len() == 0,
            p.args@.len() == 0,
            p.env@.len() == 0,
            p.restartpolicy == RestartPolicy::Always,
    {
        ProgramConfig {
            name: String::new(),
            cmd: String::new(),
            args: Vec::new(),
            env: Vec::new(),
            restartpolicy: RestartPolicy::Always,
        }
    }
}

/// The address on which the administrative API listens.
#[derive(Debug, Clone, Copy, PartialEq, Eq)]
pub enum IpAddress {
    /// An IPv4 address, by its four octets.
    V4([u8; 4]),
    /// An IPv6 address, by its sixteen octets.
    V6([u8; 16]),
}

/// The configuration of the application itself.
#[derive(Debug, Clone)]
pub struct ApplicationConfig {
    /// The name of the application.
    pub app_name: String,
    /// The address where the administrative API listens.
    pub address: IpAddress,
    /// The port where the administrative API listens.
    pub port: u16,
    /// The programs that make up the application.
    pub programs: Vec<ProgramConfig>,
}

/// The port of the administrative API unless the configuration names another.
pub const DEFAULT_PORT: u16 = 8080;

impl Default for ApplicationConfig {
    /// An application without a name and without programs, whose API listens
    /// on every IPv4 interface at the default port.
    fn default() -> (c: Self)
        ensures
            c.app_name@.len() == 0,
            c.address == IpAddress::V4([0u8, 0u8, 0u8, 0u8]),
            c.port == DEFAULT_PORT,
            c.programs@.len() == 0,
    {
        ApplicationConfig {
            app_name: String::new(),
            address: IpAddress::V4([0u8, 0u8, 0u8, 0u8]),
            port: DEFAULT_PORT,
            programs: Vec::new(),
        }
    }
}

} // verus!
