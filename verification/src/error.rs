//! The closed set of failure kinds surfaced to callers.

use vstd::prelude::*;

use crate::strutil::{spec_idec, spec_udec, i64_to_string, u64_to_string};

verus! {

/// Error type for this crate.
///
/// Every fallible operation of the library reports one of these kinds and
/// no other. Transport-level failures and failed host I/O surface as `Io`
/// with the reporter's message.
#[derive(Debug)]
pub enum Error {
    /// A host I/O operation or the HTTP transport failed.
    Io(String),
    /// A payload could not be encoded.
    Json(String),
    /// The jailer executable path has no file name component.
    InvalidJailerExecPath,
    /// The initrd source path has no file name component.
    InvalidInitrdPath,
    /// The socket path cannot be used.
    InvalidSocketPath,
    /// A drive source path has no file name component.
    InvalidDrivePath,
    /// The chroot base directory path cannot be used.
    InvalidChrootBasePath,
    /// The control API answered with a non-success status.
    FirecrackerAPIError {
        /// The HTTP status code of the answer.
        status: u16,
        /// The body of the answer, if it had one.
        body: Option<String>,
    },
    /// The control socket did not become responsive in time.
    JailerStartTimedOut,
    /// Zero or several candidate processes were found for the VM.
    FailedToStart,
    /// The machine is already in the running state.
    ProcessAlreadyRunning,
    /// The machine has no started process.
    ProcessNotStarted,
    /// The process table no longer knows the PID.
    ProcessNotRunning(u32),
    /// The kill attempt was rejected.
    ProcessNotKilled(u32),
    /// The spawned child exited before the control socket appeared.
    ProcessExitedImmediatelly {
        /// The exit status of the terminated child.
        exit_status: i32,
    },
}

/// The human-readable description of an error.
pub open spec fn spec_error_message(e: &Error) -> Seq<char> {
    match e {
        Error::Io(m) => "IO error: "@ + m@,
        Error::Json(m) => "JSON error: "@ + m@,
        Error::InvalidJailerExecPath => "Invalid Jailer executable path specified"@,
        Error::InvalidInitrdPath => "Invalid initrd path specified"@,
        Error::InvalidSocketPath => "Invalid socket path specified"@,
        Error::InvalidDrivePath => "Invalid drive path specified"@,
        Error::InvalidChrootBasePath => "Invalid chroot base path specified"@,
        Error::FirecrackerAPIError { status, body } => "Firecracker API call failed with status="@
            + spec_udec(*status as nat) + match body {
            Some(b) => ", body="@ + b@,
            None => Seq::empty(),
        },
        Error::JailerStartTimedOut => "Jailer start timed out"@,
        Error::FailedToStart => "Failed to start the VM"@,
        Error::ProcessAlreadyRunning => "Process already running"@,
        Error::ProcessNotStarted => "Process not started"@,
        Error::ProcessNotRunning(pid) => "Process not running for pid: "@ + spec_udec(
            *pid as nat,
        ),
        Error::ProcessNotKilled(pid) => "Process not killed for pid: "@ + spec_udec(*pid as nat),
        Error::ProcessExitedImmediatelly { exit_status } => "Process exited immediatelly with status: "@
            + spec_idec(*exit_status as int),
    }
}

impl Error {
    /// Renders the error as text.
    pub fn message(&self) -> (r: String)
        ensures
            r@ == spec_error_message(self),
    {
        match self {
            Error::Io(m) => {
                let mut s = "IO error: ".to_owned();
                s.append(m.as_str());
                s
            },
            Error::Json(m) => {
                let mut s = "JSON error: ".to_owned();
                s.append(m.as_str());
                s
            },
            Error::InvalidJailerExecPath => "Invalid Jailer executable path specified".to_owned(),
            Error::InvalidInitrdPath => "Invalid initrd path specified".to_owned(),
            Error::InvalidSocketPath => "Invalid socket path specified".to_owned(),
            Error::InvalidDrivePath => "Invalid drive path specified".to_owned(),
            Error::InvalidChrootBasePath => "Invalid chroot base path specified".to_owned(),
            Error::FirecrackerAPIError { status, body } => {
                let mut s = "Firecracker API call failed with status=".to_owned();
                let st = u64_to_string(*status as u64);
                s.append(st.as_str());
                match body {
                    Some(b) => {
                        s.append(", body=");
                        s.append(b.as_str());
                    },
                    None => {},
                }
                assert(s@ =~= spec_error_message(self));
                s
            },
            Error::JailerStartTimedOut => "Jailer start timed out".to_owned(),
            Error::FailedToStart => "Failed to start the VM".to_owned(),
            Error::ProcessAlreadyRunning => "Process already running".to_owned(),
            Error::ProcessNotStarted => "Process not started".to_owned(),
            Error::ProcessNotRunning(pid) => {
                let mut s = "Process not running for pid: ".to_owned();
                let p = u64_to_string(*pid as u64);
                s.append(p.as_str());
                s
            },
            Error::ProcessNotKilled(pid) => {
                let mut s = "Process not killed for pid: ".to_owned();
                let p = u64_to_string(*pid as u64);
                s.append(p.as_str());
                s
            },
            Error::ProcessExitedImmediatelly { exit_status } => {
                let mut s = "Process exited immediatelly with status: ".to_owned();
                let p = i64_to_string(*exit_status as i64);
                s.append(p.as_str());
                s
            },
        }
    }
}

} // verus!
