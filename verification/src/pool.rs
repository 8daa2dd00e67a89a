//! The supervisor pool: one worker per configured program, each wired to a
//! mailbox of its own, and the gateway that holds the senders.

use crate::config::ProgramConfig;
use crate::gateway::CommandGateway;
use crate::mailbox::{mailbox, CommandReceiver, CommandSender};
use crate::semantics::Handle;
use crate::programs::Action;
use crate::supervisor::Supervisor;
use vstd::prelude::*;

verus! {

/// All that the worker of one program owns: its supervisor, the receiving
/// half of its mailbox, and a sender for the commands it sends to itself.
pub struct Worker {
    pub supervisor: Supervisor,
    pub cmd_tx: CommandSender,
    pub cmd_rx: CommandReceiver,
}

/// Whether the program at position `i` is the last of its name in `programs`.
pub open spec fn last_of_its_name(programs: Seq<ProgramConfig>, i: int) -> bool {
    forall|j: int| i < j < programs.len() ==> (#[trigger] programs[j]).name@ != programs[i].name@
}

/// Prepares the worker of each program, in the order of the configuration,
/// and the gateway to their mailboxes. The caller gives each worker a thread.
///
/// Every worker gets a fresh unbounded mailbox and an idle supervisor for
/// its program. The gateway knows exactly the configured names, and the
/// sender it holds for a name is the one that the worker of that name sends
/// to itself with. Should a name occur twice, the gateway leads to the last
/// worker of that name.
pub fn start_program_threads(app_config: Vec<ProgramConfig>) -> (pool: (
    Vec<Worker>,
    CommandGateway,
))
    ensures
        pool.0@.len() == app_config@.len(),
        forall|i: int|
            0 <= i < app_config@.len() ==> {
                &&& (#[trigger] pool.0@[i]).supervisor.program() == app_config@[i]
                &&& pool.0@[i].supervisor.wf()
                &&& pool.0@[i].supervisor.handle() == Handle::Absent
                &&& pool.0@[i].supervisor.pending() == Seq::<Action>::empty()
            },
        pool.1.wf(),
        forall|name: Seq<char>|
            pool.1@.contains_key(name) <==> exists|i: int|
                0 <= i < app_config@.len() && (#[trigger] app_config@[i]).name@ == name,
        forall|i: int|
            0 <= i < app_config@.len() && last_of_its_name(app_config@, i) ==> pool.1@[(
                #[trigger] app_config@[i]).name@] == pool.0@[i].cmd_tx,
{
    let mut workers: Vec<Worker> = Vec::new();
    let mut gateway = CommandGateway::new();
    let ghost programs = app_config@;
    for program in it: app_config.into_iter()
        invariant
            it.seq() == programs,
            workers@.len() == it.index(),
            gateway.wf(),
            forall|i: int|
                0 <= i < it.index() ==> {
                    &&& (#[trigger] workers@[i]).supervisor.program() == programs[i]
                    &&& workers@[i].supervisor.wf()
                    &&& workers@[i].supervisor.handle() == Handle::Absent
                    &&& workers@[i].supervisor.pending() == Seq::<Action>::empty()
                },
            forall|name: Seq<char>|
                gateway@.contains_key(name) <==> exists|i: int|
                    0 <= i < it.index() && (#[trigger] programs[i]).name@ == name,
            forall|i: int|
                0 <= i < it.index() && last_of_its_name(programs.take(it.index() as int), i)
                    ==> gateway@[(#[trigger] programs[i]).name@] == workers@[i].cmd_tx,
    {
        let ghost k = it.index() as int;
        let ghost before = gateway@;
        let (tx, rx) = mailbox();
        let name = program.name.clone();
        gateway.register(name, tx.another());
        workers.push(Worker { supervisor: Supervisor::new(program), cmd_tx: tx, cmd_rx: rx });
        proof {
            assert(programs[k] == program);
            assert forall|n: Seq<char>|
                gateway@.contains_key(n) <==> exists|i: int|
                    0 <= i < k + 1 && (#[trigger] programs[i]).name@ == n by {
                if gateway@.contains_key(n) {
                    if n == program.name@ {
                        assert(programs[k].name@ == n);
                    } else {
                        assert(before.contains_key(n));
                        let i = choose|i: int| 0 <= i < k && (#[trigger] programs[i]).name@ == n;
                        assert(0 <= i < k + 1 && programs[i].name@ == n);
                    }
                }
                if exists|i: int| 0 <= i < k + 1 && (#[trigger] programs[i]).name@ == n {
                    let i = choose|i: int| 0 <= i < k + 1 && (#[trigger] programs[i]).name@ == n;
                    if i < k {
                        assert(before.contains_key(n));
                    }
                }
            }
            assert forall|i: int|
                0 <= i < k + 1 && last_of_its_name(
                    programs.take(k + 1),
                    i,
                ) implies gateway@[(#[trigger] programs[i]).name@] == workers@[i].cmd_tx by {
                if i < k {
                    assert(programs.take(k + 1)[k] == programs[k]);
                    assert(programs.take(k + 1)[i] == programs[i]);
                    assert(programs[k].name@ != programs[i].name@);
                    assert forall|j: int| i < j < k implies (#[trigger] programs.take(
                        k,
                    )[j]).name@ != programs.take(k)[i].name@ by {
                        assert(programs.take(k + 1)[j] == programs[j]);
                    }
                    assert(last_of_its_name(programs.take(k), i));
                }
            }
        }
    }
    proof {
        assert(programs.take(programs.len() as int) =~= programs);
    }
    (workers, gateway)
}

} // verus!
