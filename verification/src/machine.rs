//! The VM lifecycle engine.
//!
//! A [`Machine`] carries a configuration and a state, `Shutoff` or
//! `Running` with the PID of the observed VMM process. The engine decides
//! every step of the lifecycle — which files to remove, which command line
//! to spawn, which requests to send in which order, when to give up
//! waiting, what each outcome means — and the embedding program performs
//! the host I/O between the decisions:
//!
//! * create: [`Machine::create`] validates the configuration and hands
//!   back the machine in `Shutoff` together with the workspace
//!   materialization plan.
//! * start: [`Machine::start_plan`] refuses a running machine and hands
//!   back the pre-start cleanup and the jailer command line; the caller
//!   spawns it, probes `GET /version` under [`socket_poll_step`] until the
//!   socket answers, discovers the PID
//!   ([`crate::process::discover_pid`]), records it with
//!   [`Machine::mark_started`], and performs
//!   [`crate::api::start_requests`] in order. If anything after the spawn
//!   fails, a forced shutdown is attempted and the original error kept.
//! * shutdown: [`Machine::shutdown`] is one polite request; the state does
//!   not change.
//! * force_shutdown: [`Machine::kill_action`] says what to do — signal
//!   the PID or end the tmux session — and
//!   [`Machine::force_shutdown`] records the outcome; the state is
//!   `Shutoff` afterwards whatever the outcome was.
//! * delete: [`Machine::delete`] consumes the machine and hands back the
//!   teardown plan, ending with the removal of the VM directory.

use vstd::prelude::*;

use crate::api::{ApiRequest, spec_drives_ok, spec_initrd_ok, spec_shutdown_request,
    shutdown_request};
use crate::config::{Config, ConfigView, JailerMode, JailerModeView, StdioPolicy};
use crate::error::Error;
use crate::process::KillOutcome;
use crate::strutil::{file_name, path_join, spec_file_name, spec_path_join, spec_udec,
    u64_to_string};
use crate::workspace::{
    CleanupOp, FileOp, cleanup_op_views, cleanup_ops, file_op_views, spec_cleanup_ops,
    spec_create_ops, workspace_ops,
};

verus! {

/// How long a start waits for the control socket to answer.
pub const JAILER_START_TIMEOUT_MILLIS: u64 = 10000;

/// How long a poll of the control socket sleeps before the next probe.
pub const SOCKET_POLL_INTERVAL_MILLIS: u64 = 100;

/// How long a delete waits after a polite shutdown before forcing one.
pub const DELETE_WAIT_MILLIS: u64 = 10000;

/// VM state.
#[derive(Debug, Clone, Copy, PartialEq, Eq, Structural)]
pub enum MachineState {
    /// Machine is not started or already shut down.
    Shutoff,
    /// Machine is running.
    Running {
        /// The PID of the observed VMM process.
        pid: u32,
    },
}

/// The PID carried by a running state.
pub open spec fn state_pid(s: MachineState) -> u32 {
    match s {
        MachineState::Running { pid } => pid,
        MachineState::Shutoff => 0,
    }
}

/// The one shape a lifecycle transition can have: staying put, waking from
/// `Shutoff` to `Running`, or falling to `Shutoff`. No operation moves a
/// machine from one running state into another.
pub open spec fn lifecycle_step(pre: MachineState, post: MachineState) -> bool {
    ||| post == pre
    ||| (pre is Shutoff && post is Running)
    ||| post is Shutoff
}

/// Along any run of lifecycle transitions that begins in `Shutoff`, the
/// observed states read `Shutoff (Running Shutoff)*`: wherever `Running`
/// is observed, it was entered from `Shutoff` or simply kept — never
/// reached from a different `Running` state.
pub proof fn lemma_lifecycle_monotone(t: Seq<MachineState>)
    requires
        t.len() > 0,
        t[0] is Shutoff,
        forall|i: int| 0 <= i < t.len() - 1 ==> lifecycle_step(#[trigger] t[i], t[i + 1]),
    ensures
        forall|i: int|
            0 <= i < t.len() && #[trigger] t[i] is Running ==> i > 0 && (t[i - 1] is Shutoff
                || t[i - 1] == t[i]),
{
    assert forall|i: int| 0 <= i < t.len() && #[trigger] t[i] is Running implies i > 0 && (t[i
        - 1] is Shutoff || t[i - 1] == t[i]) by {
        assert(lifecycle_step(t[i - 1], t[i]));
    }
}

/// The mathematical content of a [`Machine`].
pub struct VmView {
    /// The configuration the machine was created with.
    pub config: ConfigView,
    /// The lifecycle state.
    pub state: MachineState,
}

/// The views of a sequence of command-line words.
pub open spec fn argv_views(args: Seq<String>) -> Seq<Seq<char>> {
    args.map_values(|s: String| s@)
}

/// The tmux session name: the configured one, or the stringified VM id.
pub open spec fn spec_session_name(c: ConfigView) -> Seq<char> {
    match c.jailer_cfg.mode {
        JailerModeView::Tmux(Some(name)) => name,
        _ => c.vm_id,
    }
}

/// The arguments every launch mode passes to the jailer, in order: the VM
/// id, the binary to jail, the UID and GID to switch to, the chroot base,
/// and after `--` the API socket path the jailed VMM should open,
/// guest-visible.
pub open spec fn spec_common_args(c: ConfigView) -> Seq<Seq<char>> {
    seq![
        "--id"@,
        c.vm_id,
        "--exec-file"@,
        c.jailer_cfg.exec_file,
        "--uid"@,
        spec_udec(c.jailer_cfg.uid as nat),
        "--gid"@,
        spec_udec(c.jailer_cfg.gid as nat),
        "--chroot-base-dir"@,
        c.jailer_cfg.chroot_base_dir,
        "--"@,
        "--api-sock"@,
        c.socket_path,
    ]
}

/// The full command line a start spawns, program first. It is a function
/// of the configuration alone: attached mode runs the jailer directly,
/// daemon mode adds `--daemonize`, tmux mode runs the jailer inside a
/// detached session.
pub open spec fn spec_jailer_argv(c: ConfigView) -> Seq<Seq<char>> {
    (match c.jailer_cfg.mode {
        JailerModeView::Daemon => seq![c.jailer_cfg.jailer_binary, "--daemonize"@],
        JailerModeView::Attached(_) => seq![c.jailer_cfg.jailer_binary],
        JailerModeView::Tmux(_) => seq![
            "tmux"@,
            "new-session"@,
            "-d"@,
            "-s"@,
            spec_session_name(c),
            c.jailer_cfg.jailer_binary,
        ],
    }) + spec_common_args(c)
}

/// The command line is decided by the configuration and by nothing else:
/// equal configurations spawn byte-identical command lines, on every run.
pub proof fn lemma_argv_deterministic(c1: ConfigView, c2: ConfigView)
    requires
        c1 == c2,
    ensures
        spec_jailer_argv(c1) == spec_jailer_argv(c2),
{
}

/// A stream policy, with `Inherit` as the fallback.
pub open spec fn spec_or_inherit(p: Option<StdioPolicy>) -> StdioPolicy {
    match p {
        Some(x) => x,
        None => StdioPolicy::Inherit,
    }
}

/// The stream dispositions of the spawned child, `(stdin, stdout,
/// stderr)`: attached mode follows the configured overrides and inherits
/// by default; daemon and tmux mode attach every stream to the null
/// device.
pub open spec fn spec_stdio_policies(mode: JailerModeView) -> (StdioPolicy, StdioPolicy,
StdioPolicy) {
    match mode {
        JailerModeView::Attached(stdio) => (
            spec_or_inherit(stdio.stdin),
            spec_or_inherit(stdio.stdout),
            spec_or_inherit(stdio.stderr),
        ),
        _ => (StdioPolicy::Null, StdioPolicy::Null, StdioPolicy::Null),
    }
}

/// Everything a start does before the control socket is probed: remove the
/// stale files, then spawn the command line with the stream dispositions.
#[derive(Debug)]
pub struct StartPlan {
    /// Stale files to remove first, in order.
    pub cleanup: Vec<CleanupOp>,
    /// The full command line to spawn, program first.
    pub argv: Vec<String>,
    /// Disposition of the child's standard input.
    pub stdin: StdioPolicy,
    /// Disposition of the child's standard output.
    pub stdout: StdioPolicy,
    /// Disposition of the child's standard error.
    pub stderr: StdioPolicy,
}

/// What to do to end the VMM process.
#[derive(Debug)]
pub enum KillAction {
    /// Send the kill signal to the PID.
    Signal {
        /// The tracked PID.
        pid: u32,
    },
    /// End the tmux session that holds the process.
    EndTmuxSession {
        /// The session name.
        session: String,
    },
}

/// The mathematical content of a [`KillAction`].
pub enum KillActionView {
    /// Send the kill signal to the PID.
    Signal {
        /// The tracked PID.
        pid: u32,
    },
    /// End the tmux session that holds the process.
    EndTmuxSession {
        /// The session name.
        session: Seq<char>,
    },
}

impl View for KillAction {
    type V = KillActionView;

    closed spec fn view(&self) -> KillActionView {
        match self {
            KillAction::Signal { pid } => KillActionView::Signal { pid: *pid },
            KillAction::EndTmuxSession { session } => KillActionView::EndTmuxSession {
                session: session@,
            },
        }
    }
}

/// The way a running machine's process is ended: through the process table
/// for attached and daemonized jailers, by ending the session for tmux.
pub open spec fn spec_kill_action(v: VmView) -> KillActionView {
    match v.config.jailer_cfg.mode {
        JailerModeView::Tmux(_) => KillActionView::EndTmuxSession {
            session: spec_session_name(v.config),
        },
        _ => KillActionView::Signal { pid: state_pid(v.state) },
    }
}

/// The teardown of a machine: a polite shutdown and a wait when it is
/// running, then the forced end, then the removal of the VM directory.
#[derive(Debug)]
pub struct DeletePlan {
    /// Whether to send the polite shutdown request first (the machine was
    /// running) and wait before forcing.
    pub shutdown_first: bool,
    /// How long to wait after the polite request, in milliseconds.
    pub wait_millis: u64,
    /// How to end the process, when the machine was running.
    pub kill: Option<KillAction>,
    /// The VM directory — the parent of the workspace — to remove last.
    pub vm_dir: String,
}

/// What the next poll of the control socket should do.
#[derive(Debug, Clone, Copy, PartialEq, Eq, Structural)]
pub enum PollStep {
    /// The socket answered with success: the VMM is ready.
    Ready,
    /// Not ready yet: sleep this long and probe again.
    RetryAfterDelay {
        /// The sleep before the next probe, in milliseconds.
        delay_millis: u64,
    },
}

/// Decides one round of the readiness poll from the probe's status and the
/// time already spent: a success status is ready; anything else retries
/// after 100 ms until 10 s have passed, then the start has timed out.
pub fn socket_poll_step(status: u16, elapsed_millis: u64) -> (r: Result<PollStep, Error>)
    ensures
        (200 <= status < 300) ==> r == Ok::<PollStep, Error>(PollStep::Ready),
        !(200 <= status < 300) && elapsed_millis < 10000 ==> r == Ok::<PollStep, Error>(
            PollStep::RetryAfterDelay { delay_millis: 100 },
        ),
        !(200 <= status < 300) && elapsed_millis >= 10000 ==> r == Err::<PollStep, Error>(
            Error::JailerStartTimedOut,
        ),
{
    if 200 <= status && status < 300 {
        Ok(PollStep::Ready)
    } else if elapsed_millis < JAILER_START_TIMEOUT_MILLIS {
        Ok(PollStep::RetryAfterDelay { delay_millis: SOCKET_POLL_INTERVAL_MILLIS })
    } else {
        Err(Error::JailerStartTimedOut)
    }
}

/// A VMM machine.
#[derive(Debug)]
pub struct Machine {
    config: Config,
    state: MachineState,
}

impl View for Machine {
    type V = VmView;

    closed spec fn view(&self) -> VmView {
        VmView { config: self.config@, state: self.state }
    }
}

impl Machine {
    /// Create a new machine.
    ///
    /// The machine is not started: it comes back in `Shutoff`, together
    /// with the operations that materialize its workspace
    /// ([`spec_create_ops`]), for the embedding program to perform. The
    /// copies are skip-if-exists, so creating twice re-copies nothing.
    /// Fails with `InvalidInitrdPath` or `InvalidDrivePath` when the
    /// initrd or a drive source path has no file name.
    pub fn create(config: Config) -> (r: Result<(Machine, Vec<FileOp>), Error>)
        ensures
            (r is Ok) == (spec_initrd_ok(config@) && spec_drives_ok(config@.drives)),
            r matches Ok(p) ==> p.0@ == (VmView { config: config@, state: MachineState::Shutoff })
                && file_op_views(p.1@) == spec_create_ops(config@),
            !spec_initrd_ok(config@) ==> r == Err::<(Machine, Vec<FileOp>), Error>(
                Error::InvalidInitrdPath,
            ),
            (spec_initrd_ok(config@) && !spec_drives_ok(config@.drives)) ==> r == Err::<
                (Machine, Vec<FileOp>),
                Error,
            >(Error::InvalidDrivePath),
    {
        let ops = match workspace_ops(&config) {
            Ok(ops) => ops,
            Err(e) => {
                return Err(e);
            },
        };
        Ok((Machine { config, state: MachineState::Shutoff }, ops))
    }

    /// Connect to an already created machine.
    ///
    /// The machine should have been created first through
    /// [`Machine::create`]. The caller asserts the supplied state; nothing
    /// verifies it beyond what later operations observe.
    pub fn connect(config: Config, state: MachineState) -> (r: Machine)
        ensures
            r@ == (VmView { config: config@, state }),
    {
        Machine { config, state }
    }

    /// Get the configuration of the machine.
    pub fn config(&self) -> (r: &Config)
        ensures
            r@ == self@.config,
    {
        &self.config
    }

    /// The machine's lifecycle state.
    pub fn state(&self) -> (r: MachineState)
        ensures
            r == self@.state,
    {
        self.state
    }

    /// Begin a start: forbidden while running; otherwise hands back the
    /// pre-start cleanup ([`spec_cleanup_ops`]), the command line
    /// ([`spec_jailer_argv`]) and the stream dispositions to spawn it
    /// with. The state does not change here: the PID is recorded with
    /// [`Machine::mark_started`] only once the socket has answered and the
    /// PID is discovered.
    pub fn start_plan(&self) -> (r: Result<StartPlan, Error>)
        ensures
            (r is Ok) == (self@.state is Shutoff),
            self@.state is Running ==> r == Err::<StartPlan, Error>(Error::ProcessAlreadyRunning),
            r matches Ok(p) ==> {
                &&& cleanup_op_views(p.cleanup@) == spec_cleanup_ops(self@.config)
                &&& argv_views(p.argv@) == spec_jailer_argv(self@.config)
                &&& (p.stdin, p.stdout, p.stderr) == spec_stdio_policies(
                    self@.config.jailer_cfg.mode,
                )
            },
    {
        match self.state {
            MachineState::Running { .. } => Err(Error::ProcessAlreadyRunning),
            MachineState::Shutoff => {
                let cleanup = cleanup_ops(&self.config);
                let jailer = self.config.jailer_cfg();
                let mut argv: Vec<String> = Vec::new();
                let (stdin, stdout, stderr) = match jailer.mode() {
                    JailerMode::Daemon => {
                        argv.push(jailer.jailer_binary().to_owned());
                        argv.push("--daemonize".to_owned());
                        (StdioPolicy::Null, StdioPolicy::Null, StdioPolicy::Null)
                    },
                    JailerMode::Attached(stdio) => {
                        argv.push(jailer.jailer_binary().to_owned());
                        (
                            or_inherit(stdio.stdin),
                            or_inherit(stdio.stdout),
                            or_inherit(stdio.stderr),
                        )
                    },
                    JailerMode::Tmux(name) => {
                        argv.push("tmux".to_owned());
                        argv.push("new-session".to_owned());
                        argv.push("-d".to_owned());
                        argv.push("-s".to_owned());
                        let session = match name {
                            Some(s) => s.clone(),
                            None => self.config.vm_id().as_str().to_owned(),
                        };
                        argv.push(session);
                        argv.push(jailer.jailer_binary().to_owned());
                        (StdioPolicy::Null, StdioPolicy::Null, StdioPolicy::Null)
                    },
                };
                proof {
                    assert(argv_views(argv@) =~= (match self@.config.jailer_cfg.mode {
                        JailerModeView::Daemon => seq![
                            self@.config.jailer_cfg.jailer_binary,
                            "--daemonize"@,
                        ],
                        JailerModeView::Attached(_) => seq![self@.config.jailer_cfg.jailer_binary],
                        JailerModeView::Tmux(_) => seq![
                            "tmux"@,
                            "new-session"@,
                            "-d"@,
                            "-s"@,
                            spec_session_name(self@.config),
                            self@.config.jailer_cfg.jailer_binary,
                        ],
                    }));
                }
                argv.push("--id".to_owned());
                argv.push(self.config.vm_id().as_str().to_owned());
                argv.push("--exec-file".to_owned());
                argv.push(jailer.exec_file().to_owned());
                argv.push("--uid".to_owned());
                argv.push(u64_to_string(jailer.uid() as u64));
                argv.push("--gid".to_owned());
                argv.push(u64_to_string(jailer.gid() as u64));
                argv.push("--chroot-base-dir".to_owned());
                argv.push(jailer.chroot_base_dir().to_owned());
                argv.push("--".to_owned());
                argv.push("--api-sock".to_owned());
                argv.push(self.config.socket_path().to_owned());
                proof {
                    assert(argv_views(argv@) =~= spec_jailer_argv(self@.config));
                }
                Ok(StartPlan { cleanup, argv, stdin, stdout, stderr })
            },
        }
    }

    /// Record that the start succeeded in reaching the VMM: the socket
    /// answered and `pid` was discovered as the jailed process. The
    /// machine is `Running{pid}` from here on.
    pub fn mark_started(&mut self, pid: u32)
        requires
            old(self)@.state is Shutoff,
        ensures
            final(self)@ == (VmView { state: MachineState::Running { pid }, ..old(self)@ }),
            lifecycle_step(old(self)@.state, final(self)@.state),
    {
        self.state = MachineState::Running { pid };
    }

    /// The polite shutdown: the one request that presses Ctrl+Alt+Del on
    /// the virtual keyboard. The state does not change; the VM may take
    /// time to exit or may refuse.
    pub fn shutdown(&self) -> (r: ApiRequest)
        ensures
            r@ == spec_shutdown_request(),
    {
        shutdown_request()
    }

    /// What a forced shutdown must do: nothing when the machine has no
    /// started process (`ProcessNotStarted`); otherwise signal the tracked
    /// PID, or end the tmux session for a tmux-mode jailer
    /// ([`spec_kill_action`]).
    pub fn kill_action(&self) -> (r: Result<KillAction, Error>)
        ensures
            (r is Ok) == (self@.state is Running),
            self@.state is Shutoff ==> r == Err::<KillAction, Error>(Error::ProcessNotStarted),
            r matches Ok(a) ==> a@ == spec_kill_action(self@),
    {
        match self.state {
            MachineState::Shutoff => Err(Error::ProcessNotStarted),
            MachineState::Running { pid } => match self.config.jailer_cfg().mode() {
                JailerMode::Tmux(name) => {
                    let session = match name {
                        Some(s) => s.clone(),
                        None => self.config.vm_id().as_str().to_owned(),
                    };
                    Ok(KillAction::EndTmuxSession { session })
                },
                _ => Ok(KillAction::Signal { pid }),
            },
        }
    }

    /// Record the outcome of a forced shutdown. A machine without a
    /// started process refuses with `ProcessNotStarted` and stays as it
    /// is. A running machine is `Shutoff` afterwards whatever the outcome
    /// was; the outcome decides what is reported: a delivered signal or an
    /// ended session is success, an unknown PID is
    /// `ProcessNotRunning(pid)`, a rejected kill is
    /// `ProcessNotKilled(pid)`, a failed session end surfaces as `Io`.
    pub fn force_shutdown(&mut self, outcome: KillOutcome) -> (r: Result<(), Error>)
        ensures
            old(self)@.state is Shutoff ==> final(self)@ == old(self)@ && r == Err::<(), Error>(
                Error::ProcessNotStarted,
            ),
            old(self)@.state is Running ==> {
                &&& final(self)@ == (VmView { state: MachineState::Shutoff, ..old(self)@ })
                &&& match outcome {
                    KillOutcome::Killed => r is Ok,
                    KillOutcome::SessionEnded => r is Ok,
                    KillOutcome::NotFound => r == Err::<(), Error>(
                        Error::ProcessNotRunning(state_pid(old(self)@.state)),
                    ),
                    KillOutcome::Rejected => r == Err::<(), Error>(
                        Error::ProcessNotKilled(state_pid(old(self)@.state)),
                    ),
                    KillOutcome::SessionFailed(m) => r matches Err(e) && e matches Error::Io(msg)
                        && msg@ == m@,
                }
            },
            lifecycle_step(old(self)@.state, final(self)@.state),
    {
        match self.state {
            MachineState::Shutoff => Err(Error::ProcessNotStarted),
            MachineState::Running { pid } => {
                self.state = MachineState::Shutoff;
                match outcome {
                    KillOutcome::Killed => Ok(()),
                    KillOutcome::SessionEnded => Ok(()),
                    KillOutcome::NotFound => Err(Error::ProcessNotRunning(pid)),
                    KillOutcome::Rejected => Err(Error::ProcessNotKilled(pid)),
                    KillOutcome::SessionFailed(m) => Err(Error::Io(m)),
                }
            },
        }
    }

    /// Delete the machine, consuming it: a running machine is first asked
    /// politely ([`Machine::shutdown`]'s request), given ten seconds, then
    /// ended by its kill action; last, the VM directory — the parent of
    /// the workspace, `chroot_base_dir / basename(exec_file) / vm_id` — is
    /// removed. Failures of the polite and forced steps are not
    /// propagated; cleanup continues regardless.
    pub fn delete(self) -> (r: DeletePlan)
        ensures
            r.shutdown_first == (self@.state is Running),
            r.wait_millis == 10000,
            (r.kill is Some) == (self@.state is Running),
            r.kill matches Some(a) ==> a@ == spec_kill_action(self@),
            r.vm_dir@ == spec_path_join(
                spec_path_join(
                    self@.config.jailer_cfg.chroot_base_dir,
                    spec_file_name(self@.config.jailer_cfg.exec_file)->Some_0,
                ),
                self@.config.vm_id,
            ),
    {
        proof {
            use_type_invariant(&self.config);
        }
        let kill = match self.state {
            MachineState::Shutoff => None,
            MachineState::Running { .. } => match self.kill_action() {
                Ok(a) => Some(a),
                Err(_) => unreached(),
            },
        };
        let shutdown_first = match self.state {
            MachineState::Running { .. } => true,
            MachineState::Shutoff => false,
        };
        let jailer = self.config.jailer_cfg();
        let exec_base = match file_name(jailer.exec_file()) {
            Some(b) => b,
            None => unreached(),
        };
        let under_base = path_join(jailer.chroot_base_dir(), exec_base.as_str());
        let vm_dir = path_join(under_base.as_str(), self.config.vm_id().as_str());
        DeletePlan { shutdown_first, wait_millis: DELETE_WAIT_MILLIS, kill, vm_dir }
    }
}

fn or_inherit(p: Option<StdioPolicy>) -> (r: StdioPolicy)
    ensures
        r == spec_or_inherit(p),
{
    match p {
        Some(x) => x,
        None => StdioPolicy::Inherit,
    }
}

} // verus!
