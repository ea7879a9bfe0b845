//! VMM configuration.
//!
//! A [`Config`] is an immutable, validated description of a VM. It is put
//! together with a fluent [`Builder`] whose nested builders (jailer,
//! machine, drive) return control to the parent builder on `build()`.
//! The top-level [`Builder::build`] validates the description, derives the
//! per-VM workspace directory, and freezes everything.
//!
//! Two sides of every path. The `socket_path` field (and the payloads sent
//! to the VMM) hold guest-visible paths, rooted at the jail's `/`. The
//! host-visible counterparts are derived by joining the guest path, with
//! its root stripped, under the workspace directory
//! `chroot_base_dir / basename(exec_file) / vm_id / root`.

pub mod network;

mod drive;
mod jailer;
mod machine;
mod vsock;

pub use drive::{Drive, DriveBuilder, DriveBuilderView, DriveView};
pub use jailer::{
    Jailer, JailerBuilder, JailerBuilderView, JailerMode, JailerModeView, JailerView, Stdio,
    StdioPolicy,
};
pub use machine::{Machine, MachineBuilder, MachineBuilderView, MachineView, spec_default_machine};
pub use vsock::{VSock, VSockView};

use vstd::prelude::*;

use crate::error::Error;
use crate::strutil::{
    file_name, path_join, spec_file_name, spec_path_join, spec_strip_root, strip_root,
};
use crate::vm_id::{VmId, spec_is_uuid};
use network::{Interface, InterfaceView};

verus! {

/// Defines the verbosity of the VMM's logging.
#[derive(Debug, Clone, Copy, PartialEq, Eq, Structural)]
pub enum LogLevel {
    /// Error level logging.
    Error,
    /// Warning level logging.
    Warning,
    /// Info level logging.
    Info,
    /// Debug level logging.
    Debug,
}

impl Default for LogLevel {
    /// The default verbosity.
    fn default() -> (r: Self)
        ensures
            r == LogLevel::Info,
    {
        LogLevel::Info
    }
}

/// The view of an optional owned string.
pub open spec fn opt_str_view(o: Option<String>) -> Option<Seq<char>> {
    match o {
        Some(s) => Some(s@),
        None => None,
    }
}

/// The mathematical content of a [`Config`] (and of a [`Builder`]).
pub struct ConfigView {
    /// The guest-visible control socket path.
    pub socket_path: Seq<char>,
    /// The VMM log path, if set.
    pub log_path: Option<Seq<char>>,
    /// The VMM log named-pipe path, if set.
    pub log_fifo: Option<Seq<char>>,
    /// The VMM logging verbosity, if set.
    pub log_level: Option<LogLevel>,
    /// The VMM metrics path, if set.
    pub metrics_path: Option<Seq<char>>,
    /// The VMM metrics named-pipe path, if set.
    pub metrics_fifo: Option<Seq<char>>,
    /// The host-side path of the kernel image.
    pub src_kernel_image_path: Seq<char>,
    /// The host-side path of the initrd image, if set.
    pub src_initrd_path: Option<Seq<char>>,
    /// The kernel command line, if set.
    pub kernel_args: Option<Seq<char>>,
    /// The drives, in insertion order.
    pub drives: Seq<DriveView>,
    /// The machine configuration.
    pub machine_cfg: MachineView,
    /// The jailer configuration.
    pub jailer_cfg: JailerView,
    /// The vsock configuration, if set.
    pub vsock: Option<VSockView>,
    /// The stringified VM identifier.
    pub vm_id: Seq<char>,
    /// The path to a network namespace handle, if set.
    pub net_ns: Option<Seq<char>>,
    /// The network interfaces, in insertion order.
    pub network_interfaces: Seq<InterfaceView>,
}

impl ConfigView {
    /// This view with the drives replaced.
    pub open spec fn with_drives(self, drives: Seq<DriveView>) -> ConfigView {
        ConfigView { drives, ..self }
    }

    /// This view with the machine configuration replaced.
    pub open spec fn with_machine_cfg(self, machine_cfg: MachineView) -> ConfigView {
        ConfigView { machine_cfg, ..self }
    }

    /// This view with the jailer configuration replaced.
    pub open spec fn with_jailer_cfg(self, jailer_cfg: JailerView) -> ConfigView {
        ConfigView { jailer_cfg, ..self }
    }
}

/// The per-VM workspace directory: the chroot base, then the basename of
/// the jailed binary, then the stringified VM id, then `root`.
pub open spec fn spec_workspace_dir(
    chroot_base_dir: Seq<char>,
    exec_file_base: Seq<char>,
    vm_id: Seq<char>,
) -> Seq<char> {
    spec_path_join(
        spec_path_join(spec_path_join(chroot_base_dir, exec_file_base), vm_id),
        "root"@,
    )
}

/// The host-visible control socket path: the guest-visible path, with its
/// root stripped, joined under the workspace directory.
pub open spec fn spec_host_socket_path(c: ConfigView) -> Seq<char> {
    spec_path_join(c.jailer_cfg.workspace_dir, spec_strip_root(c.socket_path))
}

/// At most one drive is the root device.
pub open spec fn at_most_one_root(drives: Seq<DriveView>) -> bool {
    forall|i: int, j: int|
        0 <= i < drives.len() && 0 <= j < drives.len() && drives[i].is_root_device
            && drives[j].is_root_device ==> i == j
}

/// What holds of every built configuration: the jailed binary has a file
/// name, the stored workspace directory is the derived one, and at most
/// one drive is the root device.
pub open spec fn config_wf(c: ConfigView) -> bool {
    &&& spec_file_name(c.jailer_cfg.exec_file) is Some
    &&& c.jailer_cfg.workspace_dir == spec_workspace_dir(
        c.jailer_cfg.chroot_base_dir,
        spec_file_name(c.jailer_cfg.exec_file)->Some_0,
        c.vm_id,
    )
    &&& at_most_one_root(c.drives)
}

/// The configuration that building freezes: the builder's content with the
/// workspace directory derived.
pub open spec fn spec_built_config(b: ConfigView) -> ConfigView {
    b.with_jailer_cfg(
        JailerView {
            workspace_dir: spec_workspace_dir(
                b.jailer_cfg.chroot_base_dir,
                spec_file_name(b.jailer_cfg.exec_file)->Some_0,
                b.vm_id,
            ),
            ..b.jailer_cfg
        },
    )
}

/// VMM configuration: an immutable, validated description of a VM.
#[derive(Debug)]
pub struct Config {
    socket_path: String,
    log_path: Option<String>,
    log_fifo: Option<String>,
    log_level: Option<LogLevel>,
    metrics_path: Option<String>,
    metrics_fifo: Option<String>,
    src_kernel_image_path: String,
    src_initrd_path: Option<String>,
    kernel_args: Option<String>,
    drives: Vec<Drive>,
    machine_cfg: Machine,
    jailer_cfg: Jailer,
    vsock: Option<VSock>,
    vm_id: VmId,
    net_ns: Option<String>,
    network_interfaces: Vec<Interface>,
}

impl View for Config {
    type V = ConfigView;

    closed spec fn view(&self) -> ConfigView {
        ConfigView {
            socket_path: self.socket_path@,
            log_path: opt_str_view(self.log_path),
            log_fifo: opt_str_view(self.log_fifo),
            log_level: self.log_level,
            metrics_path: opt_str_view(self.metrics_path),
            metrics_fifo: opt_str_view(self.metrics_fifo),
            src_kernel_image_path: self.src_kernel_image_path@,
            src_initrd_path: opt_str_view(self.src_initrd_path),
            kernel_args: opt_str_view(self.kernel_args),
            drives: self.drives@.map_values(|d: Drive| d@),
            machine_cfg: self.machine_cfg@,
            jailer_cfg: self.jailer_cfg@,
            vsock: match self.vsock {
                Some(v) => Some(v@),
                None => None,
            },
            vm_id: self.vm_id@,
            net_ns: opt_str_view(self.net_ns),
            network_interfaces: self.network_interfaces@.map_values(|n: Interface| n@),
        }
    }
}

impl Config {
    /// Every value of this type satisfies [`config_wf`]: building
    /// validates, and a built configuration is frozen.
    #[verifier::type_invariant]
    pub open spec fn type_wf(self) -> bool {
        config_wf(self@)
    }

    /// Create a new `Builder` instance.
    ///
    /// # Arguments
    ///
    /// `vm_id` - The ID of the VM, used as the VMM's instance ID. Pass
    ///           `None` to generate a random ID.
    /// `src_kernel_image_path` - The path to the kernel image, which must
    ///           be an uncompressed ELF image.
    pub fn builder(vm_id: Option<VmId>, src_kernel_image_path: &str) -> (r: Builder)
        ensures
            r@.socket_path == "/run/firecracker.socket"@,
            r@.log_path is None,
            r@.log_fifo is None,
            r@.log_level is None,
            r@.metrics_path is None,
            r@.metrics_fifo is None,
            r@.src_kernel_image_path == src_kernel_image_path@,
            r@.src_initrd_path is None,
            r@.kernel_args is None,
            r@.drives == Seq::<DriveView>::empty(),
            r@.machine_cfg == spec_default_machine(),
            r@.jailer_cfg.numa_node is None,
            r@.jailer_cfg.exec_file == "/usr/bin/firecracker"@,
            r@.jailer_cfg.jailer_binary == "jailer"@,
            r@.jailer_cfg.chroot_base_dir == "/srv/jailer"@,
            r@.jailer_cfg.mode == JailerModeView::Attached(
                Stdio { stdout: None, stderr: None, stdin: None },
            ),
            r@.vsock is None,
            match vm_id {
                Some(v) => r@.vm_id == v@,
                None => spec_is_uuid(r@.vm_id),
            },
            r@.net_ns is None,
            r@.network_interfaces == Seq::<InterfaceView>::empty(),
    {
        let id = match vm_id {
            Some(v) => v,
            None => VmId::generate(),
        };
        Builder {
            socket_path: "/run/firecracker.socket".to_owned(),
            log_path: None,
            log_fifo: None,
            log_level: None,
            metrics_path: None,
            metrics_fifo: None,
            src_kernel_image_path: src_kernel_image_path.to_owned(),
            src_initrd_path: None,
            kernel_args: None,
            drives: Vec::new(),
            machine_cfg: Machine::default(),
            jailer_cfg: jailer::default_jailer(),
            vsock: None,
            vm_id: id,
            net_ns: None,
            network_interfaces: Vec::new(),
        }
    }

    /// The guest-visible socket path.
    pub fn socket_path(&self) -> (r: &str)
        ensures
            r@ == self@.socket_path,
    {
        self.socket_path.as_str()
    }

    /// The socket path in its chroot location, as the host sees it: the
    /// workspace directory, then the guest path with its root stripped.
    pub fn host_socket_path(&self) -> (r: String)
        ensures
            r@ == spec_host_socket_path(self@),
            r@ == spec_path_join(
                spec_workspace_dir(
                    self@.jailer_cfg.chroot_base_dir,
                    spec_file_name(self@.jailer_cfg.exec_file)->Some_0,
                    self@.vm_id,
                ),
                spec_strip_root(self@.socket_path),
            ),
    {
        proof {
            use_type_invariant(&*self);
        }
        let stripped = strip_root(self.socket_path.as_str());
        path_join(self.jailer_cfg.workspace_dir(), stripped.as_str())
    }

    /// The log path.
    pub fn log_path(&self) -> (r: Option<&str>)
        ensures
            (r is Some) == (self@.log_path is Some),
            r matches Some(s) ==> Some(s@) == self@.log_path,
    {
        match &self.log_path {
            Some(s) => Some(s.as_str()),
            None => None,
        }
    }

    /// The log fifo path.
    pub fn log_fifo(&self) -> (r: Option<&str>)
        ensures
            (r is Some) == (self@.log_fifo is Some),
            r matches Some(s) ==> Some(s@) == self@.log_fifo,
    {
        match &self.log_fifo {
            Some(s) => Some(s.as_str()),
            None => None,
        }
    }

    /// The logging verbosity, if one was set.
    pub fn log_level(&self) -> (r: Option<LogLevel>)
        ensures
            r == self@.log_level,
    {
        self.log_level
    }

    /// The metrics path.
    pub fn metrics_path(&self) -> (r: Option<&str>)
        ensures
            (r is Some) == (self@.metrics_path is Some),
            r matches Some(s) ==> Some(s@) == self@.metrics_path,
    {
        match &self.metrics_path {
            Some(s) => Some(s.as_str()),
            None => None,
        }
    }

    /// The metrics fifo path.
    pub fn metrics_fifo(&self) -> (r: Option<&str>)
        ensures
            (r is Some) == (self@.metrics_fifo is Some),
            r matches Some(s) ==> Some(s@) == self@.metrics_fifo,
    {
        match &self.metrics_fifo {
            Some(s) => Some(s.as_str()),
            None => None,
        }
    }

    /// The source kernel image path.
    ///
    /// This is the path given by the application. The image is copied into
    /// the chroot workspace when the machine is created; the path inside
    /// the chroot can be queried with [`Config::kernel_image_path`].
    pub fn src_kernel_image_path(&self) -> (r: &str)
        ensures
            r@ == self@.src_kernel_image_path,
    {
        self.src_kernel_image_path.as_str()
    }

    /// The kernel image path in its chroot location, as the host sees it.
    /// The image keeps the fixed name `kernel` inside the workspace.
    pub fn kernel_image_path(&self) -> (r: String)
        ensures
            r@ == spec_path_join(self@.jailer_cfg.workspace_dir, "kernel"@),
    {
        path_join(self.jailer_cfg.workspace_dir(), "kernel")
    }

    /// The source initrd path.
    ///
    /// This is the path given by the application. The image is copied into
    /// the chroot workspace when the machine is created; the path inside
    /// the chroot can be queried with [`Config::initrd_path`].
    pub fn src_initrd_path(&self) -> (r: Option<&str>)
        ensures
            (r is Some) == (self@.src_initrd_path is Some),
            r matches Some(s) ==> Some(s@) == self@.src_initrd_path,
    {
        match &self.src_initrd_path {
            Some(s) => Some(s.as_str()),
            None => None,
        }
    }

    /// The initrd path in its chroot location, as the host sees it: the
    /// initrd keeps its file name inside the workspace. Fails with
    /// `InvalidInitrdPath` if the source path has no file name.
    pub fn initrd_path(&self) -> (r: Result<Option<String>, Error>)
        ensures
            (r is Ok) == !(self@.src_initrd_path is Some && spec_file_name(
                self@.src_initrd_path->Some_0,
            ) is None),
            r matches Err(e) ==> e is InvalidInitrdPath,
            self@.src_initrd_path is None ==> r == Ok::<Option<String>, Error>(None),
            r matches Ok(Some(p)) ==> self@.src_initrd_path is Some && p@ == spec_path_join(
                self@.jailer_cfg.workspace_dir,
                spec_file_name(self@.src_initrd_path->Some_0)->Some_0,
            ),
            (r is Ok && self@.src_initrd_path is Some) ==> r->Ok_0 is Some,
    {
        match &self.src_initrd_path {
            Some(p) => match file_name(p.as_str()) {
                Some(base) => Ok(
                    Some(path_join(self.jailer_cfg.workspace_dir(), base.as_str())),
                ),
                None => Err(Error::InvalidInitrdPath),
            },
            None => Ok(None),
        }
    }

    /// The kernel arguments.
    pub fn kernel_args(&self) -> (r: Option<&str>)
        ensures
            (r is Some) == (self@.kernel_args is Some),
            r matches Some(s) ==> Some(s@) == self@.kernel_args,
    {
        match &self.kernel_args {
            Some(s) => Some(s.as_str()),
            None => None,
        }
    }

    /// The drives.
    pub fn drives(&self) -> (r: &Vec<Drive>)
        ensures
            r@.map_values(|d: Drive| d@) == self@.drives,
    {
        &self.drives
    }

    /// The machine configuration.
    pub fn machine_cfg(&self) -> (r: &Machine)
        ensures
            r@ == self@.machine_cfg,
    {
        &self.machine_cfg
    }

    /// The jailer configuration.
    pub fn jailer_cfg(&self) -> (r: &Jailer)
        ensures
            r@ == self@.jailer_cfg,
    {
        &self.jailer_cfg
    }

    /// The vsock configuration.
    pub fn vsock_cfg(&self) -> (r: Option<&VSock>)
        ensures
            (r is Some) == (self@.vsock is Some),
            r matches Some(v) ==> Some(v@) == self@.vsock,
    {
        match &self.vsock {
            Some(v) => Some(v),
            None => None,
        }
    }

    /// The VM ID.
    pub fn vm_id(&self) -> (r: &VmId)
        ensures
            r@ == self@.vm_id,
    {
        &self.vm_id
    }

    /// The network namespace path.
    pub fn net_ns(&self) -> (r: Option<&str>)
        ensures
            (r is Some) == (self@.net_ns is Some),
            r matches Some(s) ==> Some(s@) == self@.net_ns,
    {
        match &self.net_ns {
            Some(s) => Some(s.as_str()),
            None => None,
        }
    }

    /// The network interfaces.
    pub fn network_interfaces(&self) -> (r: &Vec<Interface>)
        ensures
            r@.map_values(|n: Interface| n@) == self@.network_interfaces,
    {
        &self.network_interfaces
    }

    /// Create the boot source payload content from `self`: the fixed
    /// guest-visible kernel path, the kernel arguments, and the initrd's
    /// file name rooted at the guest's `/`, if an initrd was configured.
    pub fn boot_source(&self) -> (r: Result<BootSource, Error>)
        ensures
            (r is Ok) == !(self@.src_initrd_path is Some && spec_file_name(
                self@.src_initrd_path->Some_0,
            ) is None),
            r matches Err(e) ==> e is InvalidInitrdPath,
            r matches Ok(b) ==> {
                &&& b.kernel_image_path@ == "/kernel"@
                &&& opt_str_view(b.boot_args) == self@.kernel_args
                &&& (self@.src_initrd_path is None ==> b.initrd_path is None)
                &&& (self@.src_initrd_path is Some ==> b.initrd_path is Some
                    && b.initrd_path->Some_0@ == spec_path_join(
                    "/"@,
                    spec_file_name(self@.src_initrd_path->Some_0)->Some_0,
                ))
            },
    {
        let initrd_path = match &self.src_initrd_path {
            Some(p) => match file_name(p.as_str()) {
                Some(base) => Some(path_join("/", base.as_str())),
                None => {
                    return Err(Error::InvalidInitrdPath);
                },
            },
            None => None,
        };
        let boot_args = match &self.kernel_args {
            Some(s) => Some(s.clone()),
            None => None,
        };
        Ok(BootSource { kernel_image_path: "/kernel".to_owned(), boot_args, initrd_path })
    }

}

/// The boot source for the microVM, with guest-visible paths.
#[derive(Debug)]
pub struct BootSource {
    /// The kernel image path.
    pub kernel_image_path: String,
    /// The (optional) kernel command line.
    pub boot_args: Option<String>,
    /// The (optional) initrd image path.
    pub initrd_path: Option<String>,
}

/// Configuration builder.
#[derive(Debug)]
pub struct Builder {
    socket_path: String,
    log_path: Option<String>,
    log_fifo: Option<String>,
    log_level: Option<LogLevel>,
    metrics_path: Option<String>,
    metrics_fifo: Option<String>,
    src_kernel_image_path: String,
    src_initrd_path: Option<String>,
    kernel_args: Option<String>,
    drives: Vec<Drive>,
    machine_cfg: Machine,
    jailer_cfg: Jailer,
    vsock: Option<VSock>,
    vm_id: VmId,
    net_ns: Option<String>,
    network_interfaces: Vec<Interface>,
}

impl View for Builder {
    type V = ConfigView;

    closed spec fn view(&self) -> ConfigView {
        ConfigView {
            socket_path: self.socket_path@,
            log_path: opt_str_view(self.log_path),
            log_fifo: opt_str_view(self.log_fifo),
            log_level: self.log_level,
            metrics_path: opt_str_view(self.metrics_path),
            metrics_fifo: opt_str_view(self.metrics_fifo),
            src_kernel_image_path: self.src_kernel_image_path@,
            src_initrd_path: opt_str_view(self.src_initrd_path),
            kernel_args: opt_str_view(self.kernel_args),
            drives: self.drives@.map_values(|d: Drive| d@),
            machine_cfg: self.machine_cfg@,
            jailer_cfg: self.jailer_cfg@,
            vsock: match self.vsock {
                Some(v) => Some(v@),
                None => None,
            },
            vm_id: self.vm_id@,
            net_ns: opt_str_view(self.net_ns),
            network_interfaces: self.network_interfaces@.map_values(|n: Interface| n@),
        }
    }
}

impl Builder {
    /// Set the file path where the VMM's control socket should be created,
    /// as the guest sees it.
    pub fn socket_path(self, socket_path: &str) -> (r: Self)
        ensures
            r@ == (ConfigView { socket_path: socket_path@, ..self@ }),
    {
        let mut this = self;
        this.socket_path = socket_path.to_owned();
        this
    }

    /// Set the VMM log path.
    pub fn log_path(self, log_path: &str) -> (r: Self)
        ensures
            r@ == (ConfigView { log_path: Some(log_path@), ..self@ }),
    {
        let mut this = self;
        this.log_path = Some(log_path.to_owned());
        this
    }

    /// Set the VMM log named-pipe path.
    pub fn log_fifo(self, log_fifo: &str) -> (r: Self)
        ensures
            r@ == (ConfigView { log_fifo: Some(log_fifo@), ..self@ }),
    {
        let mut this = self;
        this.log_fifo = Some(log_fifo.to_owned());
        this
    }

    /// Set the verbosity of the VMM's logging.
    pub fn log_level(self, log_level: LogLevel) -> (r: Self)
        ensures
            r@ == (ConfigView { log_level: Some(log_level), ..self@ }),
    {
        let mut this = self;
        this.log_level = Some(log_level);
        this
    }

    /// Set the VMM metrics path.
    pub fn metrics_path(self, metrics_path: &str) -> (r: Self)
        ensures
            r@ == (ConfigView { metrics_path: Some(metrics_path@), ..self@ }),
    {
        let mut this = self;
        this.metrics_path = Some(metrics_path.to_owned());
        this
    }

    /// Set the VMM metrics named-pipe path.
    pub fn metrics_fifo(self, metrics_fifo: &str) -> (r: Self)
        ensures
            r@ == (ConfigView { metrics_fifo: Some(metrics_fifo@), ..self@ }),
    {
        let mut this = self;
        this.metrics_fifo = Some(metrics_fifo.to_owned());
        this
    }

    /// Set the initrd image path.
    pub fn initrd_path(self, initrd_path: &str) -> (r: Self)
        ensures
            r@ == (ConfigView { src_initrd_path: Some(initrd_path@), ..self@ }),
    {
        let mut this = self;
        this.src_initrd_path = Some(initrd_path.to_owned());
        this
    }

    /// Set the command-line arguments that should be passed to the kernel.
    pub fn kernel_args(self, kernel_args: &str) -> (r: Self)
        ensures
            r@ == (ConfigView { kernel_args: Some(kernel_args@), ..self@ }),
    {
        let mut this = self;
        this.kernel_args = Some(kernel_args.to_owned());
        this
    }

    /// Add a drive.
    pub fn add_drive(self, drive_id: &str, src_path: &str) -> (r: DriveBuilder)
        ensures
            r@.parent == self@,
            r@.drive == (DriveView {
                drive_id: drive_id@,
                is_read_only: false,
                is_root_device: false,
                part_uuid: None,
                src_path: src_path@,
            }),
    {
        DriveBuilder::new(self, drive_id, src_path)
    }

    /// Set the VMM process configuration builder.
    pub fn machine_cfg(self) -> (r: MachineBuilder)
        ensures
            r@.parent == self@,
            r@.machine == spec_default_machine(),
    {
        MachineBuilder::new(self)
    }

    /// Create the jailer process configuration builder.
    pub fn jailer_cfg(self) -> (r: JailerBuilder)
        ensures
            r@.parent == self@,
            r@.jailer.numa_node is None,
            r@.jailer.exec_file == "/usr/bin/firecracker"@,
            r@.jailer.jailer_binary == "jailer"@,
            r@.jailer.chroot_base_dir == "/srv/jailer"@,
            r@.jailer.mode == JailerModeView::Attached(
                Stdio { stdout: None, stderr: None, stdin: None },
            ),
    {
        JailerBuilder::new(self)
    }

    /// Set the vsock configuration.
    pub fn vsock_cfg(self, vsock: VSock) -> (r: Self)
        ensures
            r@ == (ConfigView { vsock: Some(vsock@), ..self@ }),
    {
        let mut this = self;
        this.vsock = Some(vsock);
        this
    }

    /// Set the path to a network namespace handle.
    ///
    /// If specified, the application will use this to join the associated
    /// network namespace.
    pub fn net_ns(self, net_ns: &str) -> (r: Self)
        ensures
            r@ == (ConfigView { net_ns: Some(net_ns@), ..self@ }),
    {
        let mut this = self;
        this.net_ns = Some(net_ns.to_owned());
        this
    }

    /// Add a network interface: a tap device that should be made available
    /// to the microVM.
    pub fn add_network_interface(self, network_interface: Interface) -> (r: Self)
        ensures
            r@ == (ConfigView {
                network_interfaces: self@.network_interfaces.push(network_interface@),
                ..self@
            }),
    {
        let mut this = self;
        let ghost before = this.network_interfaces@;
        this.network_interfaces.push(network_interface);
        proof {
            assert(this.network_interfaces@.map_values(|n: Interface| n@)
                =~= before.map_values(|n: Interface| n@).push(this.network_interfaces@.last()@));
        }
        this
    }

    pub(crate) fn push_drive(&mut self, drive: Drive)
        ensures
            final(self)@ == old(self)@.with_drives(old(self)@.drives.push(drive@)),
    {
        let ghost before = self.drives@;
        self.drives.push(drive);
        proof {
            assert(self.drives@.map_values(|d: Drive| d@) =~= before.map_values(
                |d: Drive| d@,
            ).push(self.drives@.last()@));
        }
    }

    pub(crate) fn set_machine_cfg(&mut self, machine_cfg: Machine)
        ensures
            final(self)@ == old(self)@.with_machine_cfg(machine_cfg@),
    {
        self.machine_cfg = machine_cfg;
    }

    pub(crate) fn set_jailer_cfg(&mut self, jailer_cfg: Jailer)
        ensures
            final(self)@ == old(self)@.with_jailer_cfg(jailer_cfg@),
    {
        self.jailer_cfg = jailer_cfg;
    }

    /// Build the configuration.
    ///
    /// Validation happens here: the jailed binary's path must have a file
    /// name component (else `InvalidJailerExecPath`), and at most one drive
    /// may be the root device (a second one is rejected as
    /// `InvalidDrivePath`). On success the per-VM workspace directory is
    /// derived and the configuration is frozen.
    pub fn build(self) -> (r: Result<Config, Error>)
        ensures
            (r is Ok) == (spec_file_name(self@.jailer_cfg.exec_file) is Some && at_most_one_root(
                self@.drives,
            )),
            r matches Ok(c) ==> c@ == spec_built_config(self@),
            spec_file_name(self@.jailer_cfg.exec_file) is None ==> r == Err::<
                Config,
                Error,
            >(Error::InvalidJailerExecPath),
            (spec_file_name(self@.jailer_cfg.exec_file) is Some && !at_most_one_root(self@.drives))
                ==> r == Err::<Config, Error>(Error::InvalidDrivePath),
    {
        let exec_base = match file_name(self.jailer_cfg.exec_file()) {
            Some(base) => base,
            None => {
                return Err(Error::InvalidJailerExecPath);
            },
        };
        let mut seen_root = false;
        let mut i: usize = 0;
        let n = self.drives.len();
        while i < n
            invariant
                i <= n,
                n == self.drives.len(),
                spec_file_name(self@.jailer_cfg.exec_file) is Some,
                seen_root == exists|k: int|
                    0 <= k < i && #[trigger] self.drives@[k]@.is_root_device,
                forall|k1: int, k2: int|
                    0 <= k1 < i && 0 <= k2 < i && self.drives@[k1]@.is_root_device
                        && self.drives@[k2]@.is_root_device ==> k1 == k2,
            decreases n - i,
        {
            if self.drives[i].is_root_device() {
                if seen_root {
                    proof {
                        let k = choose|k: int|
                            0 <= k < i && #[trigger] self.drives@[k]@.is_root_device;
                        assert(self@.drives[k].is_root_device);
                        assert(self@.drives[i as int].is_root_device);
                        assert(!at_most_one_root(self@.drives));
                    }
                    return Err(Error::InvalidDrivePath);
                }
                seen_root = true;
            }
            i = i + 1;
        }
        proof {
            assert(at_most_one_root(self@.drives));
        }
        let under_base = path_join(self.jailer_cfg.chroot_base_dir(), exec_base.as_str());
        let under_id = path_join(under_base.as_str(), self.vm_id.as_str());
        let workspace = path_join(under_id.as_str(), "root");
        let mut this = self;
        this.jailer_cfg.set_workspace_dir(workspace);
        let config = Config {
            socket_path: this.socket_path,
            log_path: this.log_path,
            log_fifo: this.log_fifo,
            log_level: this.log_level,
            metrics_path: this.metrics_path,
            metrics_fifo: this.metrics_fifo,
            src_kernel_image_path: this.src_kernel_image_path,
            src_initrd_path: this.src_initrd_path,
            kernel_args: this.kernel_args,
            drives: this.drives,
            machine_cfg: this.machine_cfg,
            jailer_cfg: this.jailer_cfg,
            vsock: this.vsock,
            vm_id: this.vm_id,
            net_ns: this.net_ns,
            network_interfaces: this.network_interfaces,
        };
        Ok(config)
    }
}

} // verus!
