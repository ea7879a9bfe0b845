//! Configuration of the jailer, the companion binary that sandboxes the
//! VMM into a chroot, switches UID/GID, and optionally daemonizes it.

use vstd::prelude::*;

use crate::config::Builder;

verus! {

/// What a spawned child's standard stream is attached to.
#[derive(Debug, Clone, Copy, PartialEq, Eq, Structural)]
pub enum StdioPolicy {
    /// The stream is inherited from the calling process.
    Inherit,
    /// The stream is redirected to the null device.
    Null,
}

/// The standard stream dispositions to use when spawning the jailer
/// attached. A stream without a policy falls back to `Inherit`; richer
/// redirections are applied by the embedding program when it spawns.
#[derive(Debug, Clone, Copy, PartialEq, Eq, Structural)]
pub struct Stdio {
    /// Policy for the child's standard output.
    pub stdout: Option<StdioPolicy>,
    /// Policy for the child's standard error.
    pub stderr: Option<StdioPolicy>,
    /// Policy for the child's standard input.
    pub stdin: Option<StdioPolicy>,
}

impl Default for Stdio {
    /// All streams left to their `Inherit` fallback.
    fn default() -> (r: Self)
        ensures
            r == (Stdio { stdout: None, stderr: None, stdin: None }),
    {
        Stdio { stdout: None, stderr: None, stdin: None }
    }
}

/// The mathematical content of a [`JailerMode`].
pub enum JailerModeView {
    /// Run attached to the parent process.
    Attached(Stdio),
    /// Daemonize the jailer.
    Daemon,
    /// Run the jailer inside a detached tmux session.
    Tmux(Option<Seq<char>>),
}

/// The mode of the jailer process.
#[derive(Debug)]
pub enum JailerMode {
    /// The jailer child process runs attached to the parent process.
    Attached(Stdio),
    /// The jailer calls setsid() and redirects its standard streams to the
    /// null device.
    Daemon,
    /// Launch the jailer in a detached tmux session.
    ///
    /// If the session name is not provided, the stringified VM ID is used.
    Tmux(Option<String>),
}

impl View for JailerMode {
    type V = JailerModeView;

    open spec fn view(&self) -> JailerModeView {
        match self {
            JailerMode::Attached(stdio) => JailerModeView::Attached(*stdio),
            JailerMode::Daemon => JailerModeView::Daemon,
            JailerMode::Tmux(name) => JailerModeView::Tmux(
                match name {
                    Some(s) => Some(s@),
                    None => None,
                },
            ),
        }
    }
}

/// The mathematical content of a [`Jailer`].
pub struct JailerView {
    /// GID the jailer switches to.
    pub gid: u32,
    /// UID the jailer switches to.
    pub uid: u32,
    /// The NUMA node the process gets assigned to, if any.
    pub numa_node: Option<i32>,
    /// Path to the binary the jailer executes.
    pub exec_file: Seq<char>,
    /// Path of the jailer binary itself.
    pub jailer_binary: Seq<char>,
    /// The base folder where chroot jails are built.
    pub chroot_base_dir: Seq<char>,
    /// The per-VM workspace directory, derived when the configuration is
    /// built.
    pub workspace_dir: Seq<char>,
    /// The mode of the jailer process.
    pub mode: JailerModeView,
}

/// Jailer specific configuration needed to execute the jailer.
#[derive(Debug)]
pub struct Jailer {
    gid: u32,
    uid: u32,
    numa_node: Option<i32>,
    exec_file: String,
    jailer_binary: String,
    chroot_base_dir: String,
    workspace_dir: String,
    mode: JailerMode,
}

impl View for Jailer {
    type V = JailerView;

    closed spec fn view(&self) -> JailerView {
        JailerView {
            gid: self.gid,
            uid: self.uid,
            numa_node: self.numa_node,
            exec_file: self.exec_file@,
            jailer_binary: self.jailer_binary@,
            chroot_base_dir: self.chroot_base_dir@,
            workspace_dir: self.workspace_dir@,
            mode: self.mode@,
        }
    }
}

impl Jailer {
    /// GID the jailer switches to as it execs the target binary.
    pub fn gid(&self) -> (r: u32)
        ensures
            r == self@.gid,
    {
        self.gid
    }

    /// UID the jailer switches to as it execs the target binary.
    pub fn uid(&self) -> (r: u32)
        ensures
            r == self@.uid,
    {
        self.uid
    }

    /// The NUMA node the process gets assigned to.
    pub fn numa_node(&self) -> (r: Option<i32>)
        ensures
            r == self@.numa_node,
    {
        self.numa_node
    }

    /// The path to the binary that will be exec-ed by the jailer.
    pub fn exec_file(&self) -> (r: &str)
        ensures
            r@ == self@.exec_file,
    {
        self.exec_file.as_str()
    }

    /// The jailer binary used for setting up the VM jail.
    pub fn jailer_binary(&self) -> (r: &str)
        ensures
            r@ == self@.jailer_binary,
    {
        self.jailer_binary.as_str()
    }

    /// The base folder where chroot jails are built.
    pub fn chroot_base_dir(&self) -> (r: &str)
        ensures
            r@ == self@.chroot_base_dir,
    {
        self.chroot_base_dir.as_str()
    }

    /// The mode of the jailer process.
    pub fn mode(&self) -> (r: &JailerMode)
        ensures
            r@ == self@.mode,
    {
        &self.mode
    }

    /// The path to the jailer workspace, derived when the configuration
    /// was built.
    pub fn workspace_dir(&self) -> (r: &str)
        ensures
            r@ == self@.workspace_dir,
    {
        self.workspace_dir.as_str()
    }

    pub(crate) fn set_workspace_dir(&mut self, workspace_dir: String)
        ensures
            final(self)@ == (JailerView { workspace_dir: workspace_dir@, ..old(self)@ }),
    {
        self.workspace_dir = workspace_dir;
    }
}

/// Relies on `users::get_effective_uid` (libc `geteuid`): the effective
/// user id of this process.
#[verifier::external_body]
fn effective_uid() -> u32 {
    users::get_effective_uid()
}

/// Relies on `users::get_effective_gid` (libc `getegid`): the effective
/// group id of this process.
#[verifier::external_body]
fn effective_gid() -> u32 {
    users::get_effective_gid()
}

/// The jailer configuration a VM gets when none is supplied: the effective
/// UID/GID of this process, `/usr/bin/firecracker` as the binary to jail,
/// the PATH-resolved `jailer`, chroot jails under `/srv/jailer`, attached
/// mode. The workspace directory is derived later, when the configuration
/// is built.
pub(crate) fn default_jailer() -> (r: Jailer)
    ensures
        r@.numa_node is None,
        r@.exec_file == "/usr/bin/firecracker"@,
        r@.jailer_binary == "jailer"@,
        r@.chroot_base_dir == "/srv/jailer"@,
        r@.mode == JailerModeView::Attached(Stdio { stdout: None, stderr: None, stdin: None }),
{
    Jailer {
        gid: effective_gid(),
        uid: effective_uid(),
        numa_node: None,
        exec_file: "/usr/bin/firecracker".to_owned(),
        jailer_binary: "jailer".to_owned(),
        chroot_base_dir: "/srv/jailer".to_owned(),
        workspace_dir: String::new(),
        mode: JailerMode::Attached(Stdio { stdout: None, stderr: None, stdin: None }),
    }
}

/// Builder for `Jailer` instances.
#[derive(Debug)]
pub struct JailerBuilder {
    jailer: Jailer,
    config_builder: Builder,
}

/// The mathematical content of a [`JailerBuilder`].
pub struct JailerBuilderView {
    /// The jailer configuration under construction.
    pub jailer: JailerView,
    /// The parent configuration builder.
    pub parent: <Builder as View>::V,
}

impl View for JailerBuilder {
    type V = JailerBuilderView;

    closed spec fn view(&self) -> JailerBuilderView {
        JailerBuilderView { jailer: self.jailer@, parent: self.config_builder@ }
    }
}

impl JailerBuilder {
    /// Starts from the defaults: the effective UID/GID of this process,
    /// `/usr/bin/firecracker` as the binary to jail, the PATH-resolved
    /// `jailer`, chroot jails under `/srv/jailer`, attached mode.
    pub(crate) fn new(config_builder: Builder) -> (r: Self)
        ensures
            r@.parent == config_builder@,
            r@.jailer.numa_node is None,
            r@.jailer.exec_file == "/usr/bin/firecracker"@,
            r@.jailer.jailer_binary == "jailer"@,
            r@.jailer.chroot_base_dir == "/srv/jailer"@,
            r@.jailer.mode == JailerModeView::Attached(
                Stdio { stdout: None, stderr: None, stdin: None },
            ),
    {
        Self { config_builder, jailer: default_jailer() }
    }

    /// GID the jailer switches to as it execs the target binary.
    pub fn gid(self, gid: u32) -> (r: Self)
        ensures
            r@.parent == self@.parent,
            r@.jailer == (JailerView { gid, ..self@.jailer }),
    {
        let mut this = self;
        this.jailer.gid = gid;
        this
    }

    /// UID the jailer switches to as it execs the target binary.
    pub fn uid(self, uid: u32) -> (r: Self)
        ensures
            r@.parent == self@.parent,
            r@.jailer == (JailerView { uid, ..self@.jailer }),
    {
        let mut this = self;
        this.jailer.uid = uid;
        this
    }

    /// The NUMA node the process gets assigned to.
    pub fn numa_node(self, numa_node: i32) -> (r: Self)
        ensures
            r@.parent == self@.parent,
            r@.jailer == (JailerView { numa_node: Some(numa_node), ..self@.jailer }),
    {
        let mut this = self;
        this.jailer.numa_node = Some(numa_node);
        this
    }

    /// The path to the binary that will be exec-ed by the jailer.
    ///
    /// The user can provide a path to any binary, but the interaction with
    /// the jailer is mostly Firecracker specific.
    pub fn exec_file(self, exec_file: &str) -> (r: Self)
        ensures
            r@.parent == self@.parent,
            r@.jailer == (JailerView { exec_file: exec_file@, ..self@.jailer }),
    {
        let mut this = self;
        this.jailer.exec_file = exec_file.to_owned();
        this
    }

    /// The jailer binary used for setting up the VM jail.
    ///
    /// If the value contains no path separators, the PATH environment
    /// variable is used at spawn time to resolve the binary. If not
    /// specified it defaults to `jailer`.
    pub fn jailer_binary(self, jailer_binary: &str) -> (r: Self)
        ensures
            r@.parent == self@.parent,
            r@.jailer == (JailerView { jailer_binary: jailer_binary@, ..self@.jailer }),
    {
        let mut this = self;
        this.jailer.jailer_binary = jailer_binary.to_owned();
        this
    }

    /// The base folder where chroot jails are built.
    ///
    /// The default is `/srv/jailer`.
    pub fn chroot_base_dir(self, chroot_base_dir: &str) -> (r: Self)
        ensures
            r@.parent == self@.parent,
            r@.jailer == (JailerView { chroot_base_dir: chroot_base_dir@, ..self@.jailer }),
    {
        let mut this = self;
        this.jailer.chroot_base_dir = chroot_base_dir.to_owned();
        this
    }

    /// The mode of the jailer process.
    pub fn mode(self, mode: JailerMode) -> (r: Self)
        ensures
            r@.parent == self@.parent,
            r@.jailer == (JailerView { mode: mode@, ..self@.jailer }),
    {
        let mut this = self;
        this.jailer.mode = mode;
        this
    }

    /// Hand the jailer configuration to the main configuration builder and
    /// return that builder.
    pub fn build(self) -> (r: Builder)
        ensures
            r@ == self@.parent.with_jailer_cfg(self@.jailer),
    {
        let mut this = self;
        this.config_builder.set_jailer_cfg(this.jailer);
        this.config_builder
    }
}

} // verus!
