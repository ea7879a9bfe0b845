//! Machine (VMM process) configuration.

use vstd::prelude::*;

use crate::config::Builder;

verus! {

/// The mathematical content of a [`Machine`] configuration.
pub struct MachineView {
    /// Whether simultaneous multithreading is enabled.
    pub smt: bool,
    /// Whether dirty page tracking is enabled.
    pub track_dirty_pages: bool,
    /// Memory size of the VM in MiB.
    pub mem_size_mib: i64,
    /// Number of vCPUs.
    pub vcpu_count: usize,
    /// CPU template, if one was set.
    pub cpu_template: Option<Seq<char>>,
}

/// Machine configuration.
#[derive(Debug)]
pub struct Machine {
    smt: bool,
    track_dirty_pages: bool,
    mem_size_mib: i64,
    vcpu_count: usize,
    cpu_template: Option<String>,
}

impl View for Machine {
    type V = MachineView;

    closed spec fn view(&self) -> MachineView {
        MachineView {
            smt: self.smt,
            track_dirty_pages: self.track_dirty_pages,
            mem_size_mib: self.mem_size_mib,
            vcpu_count: self.vcpu_count,
            cpu_template: match self.cpu_template {
                Some(s) => Some(s@),
                None => None,
            },
        }
    }
}

/// The configuration a machine gets when none is supplied: one vCPU,
/// 1024 MiB of memory, everything else off.
pub open spec fn spec_default_machine() -> MachineView {
    MachineView {
        smt: false,
        track_dirty_pages: false,
        mem_size_mib: 1024,
        vcpu_count: 1,
        cpu_template: None,
    }
}

impl Machine {
    /// If simultaneous multithreading is enabled.
    pub fn smt(&self) -> (r: bool)
        ensures
            r == self@.smt,
    {
        self.smt
    }

    /// If dirty page tracking is enabled.
    pub fn track_dirty_pages(&self) -> (r: bool)
        ensures
            r == self@.track_dirty_pages,
    {
        self.track_dirty_pages
    }

    /// Memory size of VM.
    pub fn mem_size_mib(&self) -> (r: i64)
        ensures
            r == self@.mem_size_mib,
    {
        self.mem_size_mib
    }

    /// Number of vCPUs (either 1 or an even number).
    pub fn vcpu_count(&self) -> (r: usize)
        ensures
            r == self@.vcpu_count,
    {
        self.vcpu_count
    }

    /// CPU template.
    pub fn cpu_template(&self) -> (r: Option<&str>)
        ensures
            (r is Some) == (self@.cpu_template is Some),
            r matches Some(s) ==> Some(s@) == self@.cpu_template,
    {
        match &self.cpu_template {
            Some(s) => Some(s.as_str()),
            None => None,
        }
    }
}

impl Default for Machine {
    /// The default machine configuration.
    fn default() -> (r: Self)
        ensures
            r@ == spec_default_machine(),
    {
        Machine {
            smt: false,
            track_dirty_pages: false,
            mem_size_mib: 1024,
            vcpu_count: 1,
            cpu_template: None,
        }
    }
}

/// Builder for `Machine`.
#[derive(Debug)]
pub struct MachineBuilder {
    config_builder: Builder,
    machine: Machine,
}

/// The mathematical content of a [`MachineBuilder`].
pub struct MachineBuilderView {
    /// The machine configuration under construction.
    pub machine: MachineView,
    /// The parent configuration builder.
    pub parent: <Builder as View>::V,
}

impl View for MachineBuilder {
    type V = MachineBuilderView;

    closed spec fn view(&self) -> MachineBuilderView {
        MachineBuilderView { machine: self.machine@, parent: self.config_builder@ }
    }
}

impl MachineBuilder {
    pub(crate) fn new(config_builder: Builder) -> (r: Self)
        ensures
            r@.parent == config_builder@,
            r@.machine == spec_default_machine(),
    {
        Self { config_builder, machine: Machine::default() }
    }

    /// Flag for enabling/disabling simultaneous multithreading.
    ///
    /// Can be enabled only on x86.
    pub fn smt(self, smt: bool) -> (r: Self)
        ensures
            r@.parent == self@.parent,
            r@.machine == (MachineView { smt, ..self@.machine }),
    {
        let mut this = self;
        this.machine.smt = smt;
        this
    }

    /// Enable dirty page tracking, the basis of incremental guest memory
    /// snapshots.
    pub fn track_dirty_pages(self, track_dirty_pages: bool) -> (r: Self)
        ensures
            r@.parent == self@.parent,
            r@.machine == (MachineView { track_dirty_pages, ..self@.machine }),
    {
        let mut this = self;
        this.machine.track_dirty_pages = track_dirty_pages;
        this
    }

    /// Memory size of VM.
    pub fn mem_size_mib(self, mem_size_mib: i64) -> (r: Self)
        ensures
            r@.parent == self@.parent,
            r@.machine == (MachineView { mem_size_mib, ..self@.machine }),
    {
        let mut this = self;
        this.machine.mem_size_mib = mem_size_mib;
        this
    }

    /// Number of vCPUs (either 1 or an even number).
    ///
    /// Maximum: 32
    /// Minimum: 1
    pub fn vcpu_count(self, vcpu_count: usize) -> (r: Self)
        ensures
            r@.parent == self@.parent,
            r@.machine == (MachineView { vcpu_count, ..self@.machine }),
    {
        let mut this = self;
        this.machine.vcpu_count = vcpu_count;
        this
    }

    /// CPU template.
    pub fn cpu_template(self, cpu_template: &str) -> (r: Self)
        ensures
            r@.parent == self@.parent,
            r@.machine == (MachineView { cpu_template: Some(cpu_template@), ..self@.machine }),
    {
        let mut this = self;
        this.machine.cpu_template = Some(cpu_template.to_owned());
        this
    }

    /// Build the `Machine` instance and return the main configuration
    /// builder carrying it.
    pub fn build(self) -> (r: Builder)
        ensures
            r@ == self@.parent.with_machine_cfg(self@.machine),
    {
        let mut this = self;
        this.config_builder.set_machine_cfg(this.machine);
        this.config_builder
    }
}

} // verus!
