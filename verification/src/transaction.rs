//! What an operation asks of the world outside, and what it is told back.
//!
//! An operation that needs the probe or the symbol resolver does not reach
//! for them. It returns [`Step::Perform`] with the transaction it needs and
//! with its own progress. The caller carries the transaction out and calls
//! the operation again with the progress and the reply. A reply that does
//! not answer the transaction asked for is not taken for an answer: the
//! operation asks again.

use vstd::prelude::*;
use crate::error::HardwareError;
use crate::rtt::{ChannelMode, RttChannel, ScanRegion};
use crate::source::{ResolveError, VerifiedBreakpoint};
use crate::status::CoreStatus;

verus! {

/// One thing to do on the probe, with the symbol resolver or with the
/// program's binary.
#[derive(Debug, PartialEq, Eq)]
pub enum Transaction {
    /// Read the status of the core.
    ReadStatus,
    /// Read the program counter of the core.
    ReadProgramCounter,
    /// Set a hardware breakpoint at `address`.
    SetHwBreakpoint { address: u64 },
    /// Clear the hardware breakpoint at `address`.
    ClearHwBreakpoint { address: u64 },
    /// Find the address nearest to a place in the source at which a
    /// breakpoint can be set. The place is in `file`, taken within
    /// `directory` where one is given; then the file must exist.
    ResolveLocation { directory: Option<String>, file: String, line: u64, column: Option<u64> },
    /// Look in the program's binary for the symbol of the logging control
    /// block.
    FindRttControlBlock,
    /// Attach the logging transport at `region` and list its channels.
    AttachRtt { region: ScanRegion },
    /// Set the buffering mode of an up channel.
    SetChannelMode { channel_number: usize, mode: ChannelMode },
}

/// What became of a transaction.
#[derive(Debug, PartialEq, Eq)]
pub enum Reply {
    Status(Result<CoreStatus, HardwareError>),
    /// The program counter, or nothing where it could not be read.
    ProgramCounter(Option<u64>),
    HwBreakpointSet(Result<(), HardwareError>),
    HwBreakpointCleared(Result<(), HardwareError>),
    /// The place found, or why none was.
    LocationResolved(Result<VerifiedBreakpoint, ResolveError>),
    /// The address of the symbol, nothing where the binary has no such
    /// symbol, or why the binary could not be read.
    RttControlBlock(Result<Option<u64>, String>),
    /// The channels of the attached transport, or why it did not attach.
    RttAttached(Result<Vec<RttChannel>, String>),
    ChannelModeSet(Result<(), HardwareError>),
}

/// Where an operation stands after a call.
#[derive(Debug, PartialEq, Eq)]
pub enum Step<S, T> {
    /// The operation waits for this transaction. Call it again with this
    /// progress and the reply.
    Perform(S, Transaction),
    /// The operation has ended with this result.
    Finished(T),
}

impl<S: View, T> View for Step<S, T> {
    type V = Step<S::V, T>;

    /// The step with the progress by its content.
    open spec fn view(&self) -> Step<S::V, T> {
        match self {
            Step::Perform(progress, transaction) => Step::Perform(progress@, *transaction),
            Step::Finished(result) => Step::Finished(*result),
        }
    }
}

} // verus!
