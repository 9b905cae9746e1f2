//! The execution status of a core, and how it is described to the client.

use vstd::prelude::*;
use vstd::string::StringExecFns;
use crate::text::{address_text, format_address};

verus! {

/// What kind of breakpoint halted the core, where the architecture can tell.
#[derive(Clone, Copy, Debug, PartialEq, Eq, Structural)]
pub enum BreakpointCause {
    Hardware,
    Software,
    Unknown,
}

/// Why a core is halted.
#[derive(Clone, Copy, Debug, PartialEq, Eq, Structural)]
pub enum HaltReason {
    /// More than one reason applies, as when a single step ends on a breakpoint.
    Multiple,
    Breakpoint(BreakpointCause),
    Exception,
    Watchpoint,
    /// The core halted after a single step.
    Step,
    /// The debugger asked the core to halt.
    Request,
    External,
    Unknown,
}

/// The coarse execution state of a core.
#[derive(Clone, Copy, Debug, PartialEq, Eq, Structural)]
pub enum CoreStatus {
    Running,
    Halted(HaltReason),
    /// The core met an exception it cannot recover from.
    LockedUp,
    Sleeping,
    /// Not determined: before the first poll, or after a failed one.
    Unknown,
}

/// Where the core stands, for a description: the address, or a placeholder
/// where the program counter could not be read.
pub open spec fn location_text(program_counter: Option<u64>) -> Seq<char> {
    match program_counter {
        Some(address) => address_text(address),
        None => "(unspecified location)"@,
    }
}

pub open spec fn cause_text(cause: BreakpointCause) -> Seq<char> {
    match cause {
        BreakpointCause::Hardware => "Hardware"@,
        BreakpointCause::Software => "Software"@,
        BreakpointCause::Unknown => "Unknown"@,
    }
}

impl CoreStatus {
    /// Whether the core is halted, for whatever reason.
    pub open spec fn is_halted_spec(&self) -> bool {
        self is Halted
    }

    /// Whether this status is announced with a `continued` event.
    pub open spec fn is_resumed(self) -> bool {
        self is Running || self is Sleeping
    }

    /// The one-word reason that the client protocol knows.
    pub open spec fn short_status(self) -> Seq<char> {
        match self {
            CoreStatus::Running => "continued"@,
            CoreStatus::Sleeping => "sleeping"@,
            CoreStatus::LockedUp => "lockedup"@,
            CoreStatus::Unknown => "unknown"@,
            CoreStatus::Halted(reason) => match reason {
                HaltReason::Breakpoint(_) => "breakpoint"@,
                HaltReason::Exception => "exception"@,
                HaltReason::Watchpoint => "data breakpoint"@,
                HaltReason::Step => "step"@,
                HaltReason::Multiple => "breakpoint"@,
                HaltReason::External => "breakpoint"@,
                HaltReason::Request => "pause"@,
                HaltReason::Unknown => "unrecognized"@,
            },
        }
    }

    /// The sentence shown to the user. Only a halt on a breakpoint or after a
    /// step names the place where the core stands.
    pub open spec fn long_status(self, program_counter: Option<u64>) -> Seq<char> {
        match self {
            CoreStatus::Running => "Core is running"@,
            CoreStatus::Sleeping => "Core is in SLEEP mode"@,
            CoreStatus::LockedUp => "Core is in LOCKUP status - encountered an unrecoverable exception"@,
            CoreStatus::Unknown => "Core status cannot be determined"@,
            CoreStatus::Halted(reason) => match reason {
                HaltReason::Breakpoint(cause) => "Halted on breakpoint ("@ + cause_text(cause)
                    + ") @"@ + location_text(program_counter) + "."@,
                HaltReason::Exception => "Core halted due to an exception, e.g. interrupt handler"@,
                HaltReason::Watchpoint => "Core halted due to a watchpoint or data breakpoint"@,
                HaltReason::Step => "Halted after a 'step' instruction @"@ + location_text(
                    program_counter,
                ) + "."@,
                HaltReason::Multiple => "Core halted due to multiple reasons"@,
                HaltReason::External => "Core halted due to an external request"@,
                HaltReason::Request => "Core halted due to a user (debugger client) request"@,
                HaltReason::Unknown => "Core halted with unknown reason"@,
            },
        }
    }

    #[verifier::when_used_as_spec(is_halted_spec)]
    pub fn is_halted(&self) -> (halted: bool)
        ensures
            halted == self.is_halted_spec(),
    {
        match self {
            CoreStatus::Halted(_) => true,
            _ => false,
        }
    }

    /// The short and the long description of this status, the long one with
    /// the program counter where it was read.
    pub fn short_long_status(&self, program_counter: Option<u64>) -> (texts: (String, String))
        ensures
            texts.0@ == self.short_status(),
            texts.1@ == self.long_status(program_counter),
    {
        match self {
            CoreStatus::Running => (
                String::from_str("continued"),
                String::from_str("Core is running"),
            ),
            CoreStatus::Sleeping => (
                String::from_str("sleeping"),
                String::from_str("Core is in SLEEP mode"),
            ),
            CoreStatus::LockedUp => (
                String::from_str("lockedup"),
                String::from_str(
                    "Core is in LOCKUP status - encountered an unrecoverable exception",
                ),
            ),
            CoreStatus::Unknown => (
                String::from_str("unknown"),
                String::from_str("Core status cannot be determined"),
            ),
            CoreStatus::Halted(reason) => match reason {
                HaltReason::Breakpoint(cause) => {
                    let mut long = String::from_str("Halted on breakpoint (");
                    long.append(cause_str(*cause));
                    long.append(") @");
                    let place = format_location(program_counter);
                    long.append(place.as_str());
                    long.append(".");
                    (String::from_str("breakpoint"), long)
                },
                HaltReason::Exception => (
                    String::from_str("exception"),
                    String::from_str("Core halted due to an exception, e.g. interrupt handler"),
                ),
                HaltReason::Watchpoint => (
                    String::from_str("data breakpoint"),
                    String::from_str("Core halted due to a watchpoint or data breakpoint"),
                ),
                HaltReason::Step => {
                    let mut long = String::from_str("Halted after a 'step' instruction @");
                    let place = format_location(program_counter);
                    long.append(place.as_str());
                    long.append(".");
                    (String::from_str("step"), long)
                },
                HaltReason::Multiple => (
                    String::from_str("breakpoint"),
                    String::from_str("Core halted due to multiple reasons"),
                ),
                HaltReason::External => (
                    String::from_str("breakpoint"),
                    String::from_str("Core halted due to an external request"),
                ),
                HaltReason::Request => (
                    String::from_str("pause"),
                    String::from_str("Core halted due to a user (debugger client) request"),
                ),
                HaltReason::Unknown => (
                    String::from_str("unrecognized"),
                    String::from_str("Core halted with unknown reason"),
                ),
            },
        }
    }
}

fn cause_str(cause: BreakpointCause) -> (text: &'static str)
    ensures
        text@ == cause_text(cause),
{
    match cause {
        BreakpointCause::Hardware => "Hardware",
        BreakpointCause::Software => "Software",
        BreakpointCause::Unknown => "Unknown",
    }
}

fn format_location(program_counter: Option<u64>) -> (text: String)
    ensures
        text@ == location_text(program_counter),
{
    match program_counter {
        Some(address) => format_address(address),
        None => String::from_str("(unspecified location)"),
    }
}

} // verus!
