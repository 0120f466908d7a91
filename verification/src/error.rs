//! The errors of the daemon and the messages they print.
use vstd::prelude::*;

use crate::util::text::{debug_quoted, debug_text};

verus! {

/// Errors produced by the kontena daemon.
#[derive(Debug, Clone)]
#[non_exhaustive]
pub enum Error {
    /// A numeric configuration value is outside the acceptable range.
    OutOfRange { name: String, value: String, min: String, max: String },
    /// An enum-style configuration value is not one of the allowed variants.
    InvalidEnum { name: String, value: String, allowed: String },
    /// An environment variable is set but cannot be parsed.
    EnvParse { key: String, value: String, reason: String },
    /// An environment variable cannot be read (e.g. invalid UTF-8).
    EnvRead { key: String, reason: String },
    /// A subprocess failed to launch.
    Spawn { bin: String, reason: String },
    /// A subprocess exited with a non-zero status.
    NonZeroExit { bin: String, status: String, stderr: String },
    /// `exec` failed (unix only).
    Exec { bin: String, reason: String },
    /// Podman machine init failed after retry.
    MachineInit { reason: String },
    /// Podman machine start failed.
    MachineStart { reason: String },
    /// Podman machine inspect failed.
    MachineInspect { machine: String, reason: String },
}

/// An [`Error`] with each text field taken as its characters.
pub enum ErrorView {
    OutOfRange { name: Seq<char>, value: Seq<char>, min: Seq<char>, max: Seq<char> },
    InvalidEnum { name: Seq<char>, value: Seq<char>, allowed: Seq<char> },
    EnvParse { key: Seq<char>, value: Seq<char>, reason: Seq<char> },
    EnvRead { key: Seq<char>, reason: Seq<char> },
    Spawn { bin: Seq<char>, reason: Seq<char> },
    NonZeroExit { bin: Seq<char>, status: Seq<char>, stderr: Seq<char> },
    Exec { bin: Seq<char>, reason: Seq<char> },
    MachineInit { reason: Seq<char> },
    MachineStart { reason: Seq<char> },
    MachineInspect { machine: Seq<char>, reason: Seq<char> },
}

impl View for Error {
    type V = ErrorView;

    open spec fn view(&self) -> ErrorView {
        match self {
            Error::OutOfRange { name, value, min, max } => ErrorView::OutOfRange {
                name: name@,
                value: value@,
                min: min@,
                max: max@,
            },
            Error::InvalidEnum { name, value, allowed } => ErrorView::InvalidEnum {
                name: name@,
                value: value@,
                allowed: allowed@,
            },
            Error::EnvParse { key, value, reason } => ErrorView::EnvParse {
                key: key@,
                value: value@,
                reason: reason@,
            },
            Error::EnvRead { key, reason } => ErrorView::EnvRead { key: key@, reason: reason@ },
            Error::Spawn { bin, reason } => ErrorView::Spawn { bin: bin@, reason: reason@ },
            Error::NonZeroExit { bin, status, stderr } => ErrorView::NonZeroExit {
                bin: bin@,
                status: status@,
                stderr: stderr@,
            },
            Error::Exec { bin, reason } => ErrorView::Exec { bin: bin@, reason: reason@ },
            Error::MachineInit { reason } => ErrorView::MachineInit { reason: reason@ },
            Error::MachineStart { reason } => ErrorView::MachineStart { reason: reason@ },
            Error::MachineInspect { machine, reason } => ErrorView::MachineInspect {
                machine: machine@,
                reason: reason@,
            },
        }
    }
}

impl ErrorView {
    /// The message that the error prints.
    pub open spec fn message(self) -> Seq<char> {
        match self {
            ErrorView::OutOfRange { name, value, min, max } => name + "="@ + value
                + " is out of range ["@ + min + ", "@ + max + "]"@,
            ErrorView::InvalidEnum { name, value, allowed } => name + "="@ + debug_text(value)
                + " is not one of ["@ + allowed + "]"@,
            ErrorView::EnvParse { key, value, reason } => key + "="@ + debug_text(value)
                + " is not valid: "@ + reason,
            ErrorView::EnvRead { key, reason } => "cannot read "@ + key + ": "@ + reason,
            ErrorView::Spawn { bin, reason } => "failed to execute "@ + bin + ": "@ + reason,
            ErrorView::NonZeroExit { bin, status, stderr } => bin + " exited with "@ + status
                + ": "@ + stderr,
            ErrorView::Exec { bin, reason } => "exec("@ + bin + ") failed: "@ + reason,
            ErrorView::MachineInit { reason } => "podman machine init failed: "@ + reason,
            ErrorView::MachineStart { reason } => "podman machine start failed: "@ + reason,
            ErrorView::MachineInspect { machine, reason } => "failed to inspect machine "@
                + machine + ": "@ + reason,
        }
    }
}

/// A result with its error taken by its view.
pub open spec fn view_result<T>(r: Result<T, Error>) -> Result<T, ErrorView> {
    match r {
        Ok(v) => Ok(v),
        Err(e) => Err(e@),
    }
}

/// An optional outcome with its error taken by its view.
pub open spec fn view_decision(d: Option<Result<(), Error>>) -> Option<Result<(), ErrorView>> {
    match d {
        None => None,
        Some(r) => Some(view_result(r)),
    }
}

/// A text result with the text and the error taken by their views.
pub open spec fn view_text_result(r: Result<String, Error>) -> Result<Seq<char>, ErrorView> {
    match r {
        Ok(s) => Ok(s@),
        Err(e) => Err(e@),
    }
}

impl Error {
    /// The message that the error prints (what `to_string()` gives).
    pub fn message(&self) -> (r: String)
        ensures
            r@ == self@.message(),
    {
        match self {
            Error::OutOfRange { name, value, min, max } => {
                let mut s = name.clone();
                s.append("=");
                s.append(value.as_str());
                s.append(" is out of range [");
                s.append(min.as_str());
                s.append(", ");
                s.append(max.as_str());
                s.append("]");
                s
            },
            Error::InvalidEnum { name, value, allowed } => {
                let mut s = name.clone();
                s.append("=");
                s.append(debug_quoted(value.as_str()).as_str());
                s.append(" is not one of [");
                s.append(allowed.as_str());
                s.append("]");
                s
            },
            Error::EnvParse { key, value, reason } => {
                let mut s = key.clone();
                s.append("=");
                s.append(debug_quoted(value.as_str()).as_str());
                s.append(" is not valid: ");
                s.append(reason.as_str());
                s
            },
            Error::EnvRead { key, reason } => {
                let mut s = String::from_str("cannot read ");
                s.append(key.as_str());
                s.append(": ");
                s.append(reason.as_str());
                s
            },
            Error::Spawn { bin, reason } => {
                let mut s = String::from_str("failed to execute ");
                s.append(bin.as_str());
                s.append(": ");
                s.append(reason.as_str());
                s
            },
            Error::NonZeroExit { bin, status, stderr } => {
                let mut s = bin.clone();
                s.append(" exited with ");
                s.append(status.as_str());
                s.append(": ");
                s.append(stderr.as_str());
                s
            },
            Error::Exec { bin, reason } => {
                let mut s = String::from_str("exec(");
                s.append(bin.as_str());
                s.append(") failed: ");
                s.append(reason.as_str());
                s
            },
            Error::MachineInit { reason } => {
                let mut s = String::from_str("podman machine init failed: ");
                s.append(reason.as_str());
                s
            },
            Error::MachineStart { reason } => {
                let mut s = String::from_str("podman machine start failed: ");
                s.append(reason.as_str());
                s
            },
            Error::MachineInspect { machine, reason } => {
                let mut s = String::from_str("failed to inspect machine ");
                s.append(machine.as_str());
                s.append(": ");
                s.append(reason.as_str());
                s
            },
        }
    }
}

} // verus!
