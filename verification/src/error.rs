//! What can go wrong in a request, by kind.

use vstd::prelude::*;
use vstd::string::StringExecFns;
use crate::source::{Source, SourceLocation};
use crate::status::CoreStatus;
use crate::text::{decimal_digits, push_decimal};

verus! {

/// A transaction with the probe that failed, with the probe's own words.
#[derive(Debug, PartialEq, Eq)]
pub struct HardwareError {
    pub message: String,
}

/// Why a request failed.
#[derive(Debug, PartialEq, Eq)]
pub enum DebuggerError {
    /// The probe could not read the core or change a breakpoint. The request
    /// cannot go on.
    Hardware(HardwareError),
    /// The core is locked up and cannot be debugged further.
    LockedUp,
    /// The probe read a status that tells nothing.
    UnknownStatus,
    /// The resolver found no place for a breakpoint at the requested
    /// location. The session stays usable.
    LocationUnresolved { reason: String },
    /// A recorded location names no directory or no file to resolve it in.
    SourcePathUnavailable,
    /// The source file of a place to resolve is not where the place says.
    SourceFileNotFound { reason: String },
    /// A source breakpoint could not be set again after the program changed.
    RecomputeFailed { location: SourceLocation, source: Source, cause: Box<DebuggerError> },
}

/// A place in the source as an error names it: the file, a colon and the
/// line, with line 0 where none is recorded.
pub open spec fn place_text(location: SourceLocation) -> Seq<char> {
    (match location.file {
        Some(file) => file@,
        None => "<unknown file>"@,
    }) + ":"@ + decimal_digits(location.request_line() as nat)
}

fn format_place(location: &SourceLocation) -> (text: String)
    ensures
        text@ == place_text(*location),
{
    let mut text = match &location.file {
        Some(file) => file.clone(),
        None => String::from_str("<unknown file>"),
    };
    text.append(":");
    push_decimal(&mut text, location.line_or_zero());
    text
}

impl DebuggerError {
    /// The words for the user. A place that was not resolved comes with
    /// advice: optimization is what most often leaves a line without code.
    pub open spec fn message_text(self) -> Seq<char>
        decreases self,
    {
        match self {
            DebuggerError::Hardware(error) => error.message@,
            DebuggerError::LockedUp => CoreStatus::LockedUp.long_status(None),
            DebuggerError::UnknownStatus => "Unknown device status received from the probe"@,
            DebuggerError::LocationUnresolved { reason } =>
                "Cannot set breakpoint here. Try reducing compile time-, and link time-, optimization in your build configuration, or choose a different source location: "@
                + reason@,
            DebuggerError::SourcePathUnavailable => "The source location names no directory or no file"@,
            DebuggerError::SourceFileNotFound { reason } => reason@,
            DebuggerError::RecomputeFailed { location, source, cause } =>
                "Failed to recompute breakpoint at "@ + place_text(location) + ". Error: "@
                + cause.message_text(),
        }
    }

    /// The words for the user.
    pub fn message(&self) -> (text: String)
        ensures
            text@ == self.message_text(),
        decreases self,
    {
        match self {
            DebuggerError::Hardware(error) => error.message.clone(),
            DebuggerError::LockedUp => CoreStatus::LockedUp.short_long_status(None).1,
            DebuggerError::UnknownStatus => String::from_str(
                "Unknown device status received from the probe",
            ),
            DebuggerError::LocationUnresolved { reason } => {
                let mut text = String::from_str(
                    "Cannot set breakpoint here. Try reducing compile time-, and link time-, optimization in your build configuration, or choose a different source location: ",
                );
                text.append(reason.as_str());
                text
            },
            DebuggerError::SourcePathUnavailable => String::from_str(
                "The source location names no directory or no file",
            ),
            DebuggerError::SourceFileNotFound { reason } => reason.clone(),
            DebuggerError::RecomputeFailed { location, source, cause } => {
                let mut text = String::from_str("Failed to recompute breakpoint at ");
                let place = format_place(location);
                text.append(place.as_str());
                text.append(". Error: ");
                let inner = cause.message();
                text.append(inner.as_str());
                text
            },
        }
    }

    /// Whether the request that met this error must be given up for the
    /// core: true of hardware and status failures, false of failures to place
    /// a breakpoint. A failed recomputation is as grave as its cause.
    pub open spec fn is_fatal_spec(&self) -> bool
        decreases self,
    {
        match self {
            DebuggerError::Hardware(_) => true,
            DebuggerError::LockedUp => true,
            DebuggerError::UnknownStatus => true,
            DebuggerError::LocationUnresolved { .. } => false,
            DebuggerError::SourcePathUnavailable => false,
            DebuggerError::SourceFileNotFound { .. } => false,
            DebuggerError::RecomputeFailed { cause, .. } => cause.is_fatal_spec(),
        }
    }

    #[verifier::when_used_as_spec(is_fatal_spec)]
    pub fn is_fatal(&self) -> (fatal: bool)
        ensures
            fatal == self.is_fatal_spec(),
        decreases self,
    {
        match self {
            DebuggerError::Hardware(_) => true,
            DebuggerError::LockedUp => true,
            DebuggerError::UnknownStatus => true,
            DebuggerError::LocationUnresolved { .. } => false,
            DebuggerError::SourcePathUnavailable => false,
            DebuggerError::SourceFileNotFound { .. } => false,
            DebuggerError::RecomputeFailed { cause, .. } => cause.is_fatal(),
        }
    }
}

} // verus!
