//! Host-side orchestration of a single Firecracker microVM per instance.
//!
//! The crate models a VM's configuration, derives the jailed filesystem
//! layout, builds the jailer command line and the sequence of REST calls
//! that boot the VM, and tracks the machine through its lifecycle states.
//!
//! * [`config`] — the immutable, validated description of a VM and its
//!   fluent builder.
//! * [`Machine`] — the lifecycle engine: `create`, `start_plan`,
//!   `mark_started`, `shutdown`, `kill_action`, `force_shutdown`,
//!   `delete`, with the state machine laws they obey.
//! * [`api`] — the control API: wire payloads, requests, and how answers
//!   are read.
//! * [`workspace`] — the file operations that materialize a chroot
//!   workspace, with the model under which they are idempotent.
//! * [`process`] — the process observer: the host process table, kill
//!   delivery, and PID discovery.

pub mod api;
pub mod config;
mod error;
pub mod json;
mod machine;
pub mod process;
pub mod strutil;
mod vm_id;
pub mod workspace;

pub use error::Error;
pub use error::spec_error_message;
pub use machine::{
    DELETE_WAIT_MILLIS, DeletePlan, JAILER_START_TIMEOUT_MILLIS, KillAction, KillActionView,
    Machine, MachineState, PollStep, SOCKET_POLL_INTERVAL_MILLIS, StartPlan, VmView, argv_views,
    lemma_argv_deterministic, lemma_lifecycle_monotone, lifecycle_step, socket_poll_step,
    spec_common_args, spec_jailer_argv, spec_kill_action, spec_or_inherit, spec_session_name,
    spec_stdio_policies, state_pid,
};
pub use vm_id::VmId;
pub use vm_id::spec_is_uuid;
