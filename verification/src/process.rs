//! The process observer: queries of the host process table and delivery
//! of kill signals.
//!
//! What the table holds depends on the machine and the moment, so the
//! functions that read it promise nothing about which processes come back;
//! the logic that decides something — picking the one PID that belongs to
//! a VM — takes the observations as arguments and is verified for every
//! value of them.

use sysinfo::{PidExt, ProcessExt, ProcessRefreshKind, RefreshKind, SystemExt};

use vstd::prelude::*;

use crate::error::Error;
use crate::strutil::str_eq;

verus! {

/// One observed process: its PID and its command line.
#[derive(Debug)]
pub struct ProcessInfo {
    /// The process id.
    pub pid: u32,
    /// The argv the process was started with.
    pub cmd: Vec<String>,
}

/// The mathematical content of a [`ProcessInfo`].
pub struct ProcessInfoView {
    /// The process id.
    pub pid: u32,
    /// The argv the process was started with.
    pub cmd: Seq<Seq<char>>,
}

impl View for ProcessInfo {
    type V = ProcessInfoView;

    closed spec fn view(&self) -> ProcessInfoView {
        ProcessInfoView { pid: self.pid, cmd: self.cmd@.map_values(|s: String| s@) }
    }
}

/// How a kill attempt ended.
#[derive(Debug)]
pub enum KillOutcome {
    /// The signal was delivered to the process.
    Killed,
    /// The process table does not know the PID.
    NotFound,
    /// The kill was rejected.
    Rejected,
    /// The terminal session holding the process was ended.
    SessionEnded,
    /// Ending the terminal session failed; the message says how.
    SessionFailed(String),
}

/// Relies on sysinfo's `System::refresh_process_specifics` and
/// `System::process`: whether the host's process table knows the PID right
/// now. The answer depends on the host and the moment.
#[verifier::external_body]
fn probe_process(pid: u32) -> bool {
    let mut sys = sysinfo::System::new();
    sys.refresh_process_specifics(sysinfo::Pid::from_u32(pid), ProcessRefreshKind::new())
        && sys.process(sysinfo::Pid::from_u32(pid)).is_some()
}

/// Relies on sysinfo's `System::refresh_process_specifics`,
/// `System::process` and `Process::kill`: sends the kill signal to the
/// process if the table knows it, and says how that went.
#[verifier::external_body]
fn probe_and_kill(pid: u32) -> (r: KillOutcome)
    ensures
        r is Killed || r is NotFound || r is Rejected,
{
    let mut sys = sysinfo::System::new();
    if !sys.refresh_process_specifics(sysinfo::Pid::from_u32(pid), ProcessRefreshKind::new()) {
        return KillOutcome::NotFound;
    }
    match sys.process(sysinfo::Pid::from_u32(pid)) {
        Some(process) => {
            if process.kill() {
                KillOutcome::Killed
            } else {
                KillOutcome::Rejected
            }
        },
        None => KillOutcome::NotFound,
    }
}

/// Relies on sysinfo's `System::refresh_specifics` and
/// `System::processes_by_name`: the processes whose name contains `name`,
/// each as its PID and command line. Which processes exist depends on the
/// host and the moment.
#[verifier::external_body]
fn processes_with_name(name: &str) -> Vec<ProcessInfo> {
    let mut sys = sysinfo::System::new();
    sys.refresh_specifics(RefreshKind::new().with_processes(ProcessRefreshKind::everything()));
    sys.processes_by_name(name).map(
        |p| ProcessInfo { pid: p.pid().as_u32(), cmd: p.cmd().to_vec() },
    ).collect()
}

/// Whether the host currently knows a process under this PID. The answer
/// is an observation of the moment, so nothing further can be promised of
/// it.
pub fn is_running(pid: u32) -> bool {
    probe_process(pid)
}

/// Sends the default termination signal to the process. The outcome is an
/// observation of the moment; it is one of delivered, unknown PID, or
/// rejected.
pub fn kill_process(pid: u32) -> (r: KillOutcome)
    ensures
        r is Killed || r is NotFound || r is Rejected,
{
    probe_and_kill(pid)
}

/// Observes the processes whose name contains `name`. Which processes
/// exist is an observation of the moment, so nothing further can be
/// promised; [`discover_pid`] draws the verified conclusion from it.
pub fn find_processes(name: &str) -> Vec<ProcessInfo> {
    processes_with_name(name)
}

/// Whether a process's command line mentions the id.
pub open spec fn cmd_mentions(p: ProcessInfoView, id: Seq<char>) -> bool {
    exists|i: int| 0 <= i < p.cmd.len() && p.cmd[i] == id
}

/// The PIDs of the observed processes whose command line mentions the id,
/// in observation order.
pub open spec fn matching_pids(ps: Seq<ProcessInfoView>, id: Seq<char>) -> Seq<u32>
    decreases ps.len(),
{
    if ps.len() == 0 {
        Seq::empty()
    } else {
        matching_pids(ps.drop_last(), id) + (if cmd_mentions(ps.last(), id) {
            seq![ps.last().pid]
        } else {
            Seq::<u32>::empty()
        })
    }
}

fn cmd_contains(cmd: &Vec<String>, id: &str) -> (r: bool)
    ensures
        r == (exists|i: int| 0 <= i < cmd@.len() && #[trigger] cmd@[i]@ == id@),
{
    let n = cmd.len();
    let mut j: usize = 0;
    while j < n
        invariant
            j <= n,
            n == cmd@.len(),
            forall|k: int| 0 <= k < j ==> #[trigger] cmd@[k]@ != id@,
        decreases n - j,
    {
        if str_eq(cmd[j].as_str(), id) {
            return true;
        }
        j = j + 1;
    }
    false
}

/// The views of a sequence of process observations.
pub open spec fn process_views(ps: Seq<ProcessInfo>) -> Seq<ProcessInfoView> {
    ps.map_values(|p: ProcessInfo| p@)
}

/// Picks the PID of the jailed VMM among the observed processes: the ones
/// whose command line mentions the VM id are the candidates, and exactly
/// one is expected. Zero or several candidates fail with `FailedToStart`.
#[verifier::loop_isolation(false)]
pub fn discover_pid(procs: &Vec<ProcessInfo>, vm_id: &str) -> (r: Result<u32, Error>)
    ensures
        matching_pids(process_views(procs@), vm_id@).len() == 1 ==> r == Ok::<u32, Error>(
            matching_pids(process_views(procs@), vm_id@)[0],
        ),
        matching_pids(process_views(procs@), vm_id@).len() != 1 ==> r == Err::<u32, Error>(
            Error::FailedToStart,
        ),
{
    let n = procs.len();
    let mut found: Vec<u32> = Vec::new();
    let mut i: usize = 0;
    while i < n
        invariant
            i <= n,
            found@ == matching_pids(process_views(procs@).take(i as int), vm_id@),
        decreases n - i,
    {
        let p = &procs[i];
        let ghost pre = process_views(procs@).take(i as int);
        let ghost cur = process_views(procs@).take(i + 1 as int);
        proof {
            assert(cur.drop_last() =~= pre);
            assert(cur.last() == p@);
        }
        if cmd_contains(&p.cmd, vm_id) {
            proof {
                let k = choose|k: int| 0 <= k < p.cmd@.len() && #[trigger] p.cmd@[k]@ == vm_id@;
                assert(p@.cmd[k] == vm_id@);
                assert(cmd_mentions(p@, vm_id@));
            }
            found.push(p.pid);
        } else {
            proof {
                assert(!cmd_mentions(p@, vm_id@)) by {
                    if cmd_mentions(p@, vm_id@) {
                        let k = choose|k: int| 0 <= k < p@.cmd.len() && p@.cmd[k] == vm_id@;
                        assert(p.cmd@[k]@ == vm_id@);
                    }
                }
                assert(matching_pids(cur, vm_id@) =~= matching_pids(pre, vm_id@));
            }
        }
        i = i + 1;
    }
    proof {
        assert(process_views(procs@).take(n as int) =~= process_views(procs@));
    }
    if found.len() == 1 {
        Ok(found[0])
    } else {
        Err(Error::FailedToStart)
    }
}

} // verus!
