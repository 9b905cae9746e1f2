//! Setting a breakpoint at a place in the source.

use vstd::prelude::*;
use crate::breakpoint::{ActiveBreakpoint, BreakpointType};
use crate::error::DebuggerError;
use crate::manager::{record_set, Effect};
use crate::session::CoreHandle;
use crate::source::{copy_text, ResolveError, Source, VerifiedBreakpoint};
use crate::transaction::{Reply, Step, Transaction};

verus! {

/// How far the setting of a breakpoint at a place in the source has come.
#[derive(Debug, PartialEq, Eq)]
pub enum VerifyAndSet {
    /// The place is to be resolved to an address: the file, taken within
    /// the directory where one is given, the line and the column.
    Resolve {
        directory: Option<String>,
        file: String,
        line: u64,
        column: Option<u64>,
        source: Source,
    },
    /// The resolver found a place, and the breakpoint is to be set at its
    /// address.
    Install { breakpoint: VerifiedBreakpoint, source: Source },
}

/// The failure of the operation for a place that was not resolved.
pub open spec fn unresolved(error: ResolveError) -> DebuggerError {
    match error {
        ResolveError::SourceFileNotFound(reason) => DebuggerError::SourceFileNotFound { reason },
        ResolveError::Unresolved(reason) => DebuggerError::LocationUnresolved { reason },
    }
}

/// One call of setting a breakpoint at a place in the source.
pub open spec fn verify_step(
    breakpoints: Seq<ActiveBreakpoint>,
    progress: VerifyAndSet,
    reply: Option<Reply>,
) -> Effect<VerifyAndSet, Result<VerifiedBreakpoint, DebuggerError>> {
    match progress {
        VerifyAndSet::Resolve { directory, file, line, column, source } => match reply {
            Some(Reply::LocationResolved(Ok(breakpoint))) => Effect {
                breakpoints,
                step: Step::Perform(
                    VerifyAndSet::Install { breakpoint, source },
                    Transaction::SetHwBreakpoint { address: breakpoint.address },
                ),
            },
            Some(Reply::LocationResolved(Err(error))) => Effect {
                breakpoints,
                step: Step::Finished(Err(unresolved(error))),
            },
            _ => Effect {
                breakpoints,
                step: Step::Perform(
                    progress,
                    Transaction::ResolveLocation { directory, file, line, column },
                ),
            },
        },
        VerifyAndSet::Install { breakpoint, source } => match reply {
            Some(Reply::HwBreakpointSet(outcome)) => Effect {
                breakpoints: record_set(
                    breakpoints,
                    breakpoint.address,
                    BreakpointType::SourceBreakpoint(source, breakpoint.source_location),
                    outcome,
                ),
                step: Step::Finished(
                    match outcome {
                        Ok(_) => Ok(breakpoint),
                        Err(error) => Err(DebuggerError::Hardware(error)),
                    },
                ),
            },
            _ => Effect {
                breakpoints,
                step: Step::Perform(
                    progress,
                    Transaction::SetHwBreakpoint { address: breakpoint.address },
                ),
            },
        },
    }
}

impl VerifyAndSet {
    /// The request of a client for a breakpoint at a line, and maybe a
    /// column, of the file at `source_path`.
    pub fn new(source_path: String, line: u64, column: Option<u64>, source: Source) -> (progress:
        Self)
        ensures
            progress == (VerifyAndSet::Resolve {
                directory: None,
                file: source_path,
                line,
                column,
                source,
            }),
    {
        VerifyAndSet::Resolve { directory: None, file: source_path, line, column, source }
    }
}

impl CoreHandle {
    /// Sets a breakpoint at a place in the source: one call, with the reply
    /// to the transaction that the call before asked for.
    ///
    /// The resolver is asked for the address nearest to the place at which a
    /// breakpoint can be set. If it finds none, or the source file is not
    /// there, the operation fails with the reason and nothing is set. Else a hardware breakpoint is
    /// set at the address and recorded as a source breakpoint, with the
    /// client's descriptor and the place found. The operation ends with the
    /// address and the place found.
    pub fn verify_and_set_breakpoint(&mut self, progress: VerifyAndSet, reply: Option<Reply>) -> (step:
        Step<VerifyAndSet, Result<VerifiedBreakpoint, DebuggerError>>)
        ensures
            step == verify_step(old(self).core_data.breakpoints@, progress, reply).step,
            final(self).core_data.breakpoints@ == verify_step(
                old(self).core_data.breakpoints@,
                progress,
                reply,
            ).breakpoints,
            final(self).same_but_breakpoints(*old(self)),
    {
        match progress {
            VerifyAndSet::Resolve { directory, file, line, column, source } => match reply {
                Some(Reply::LocationResolved(Ok(breakpoint))) => {
                    let address = breakpoint.address;
                    Step::Perform(
                        VerifyAndSet::Install { breakpoint, source },
                        Transaction::SetHwBreakpoint { address },
                    )
                },
                Some(Reply::LocationResolved(Err(error))) => Step::Finished(
                    Err(
                        match error {
                            ResolveError::SourceFileNotFound(reason) => {
                                DebuggerError::SourceFileNotFound { reason }
                            },
                            ResolveError::Unresolved(reason) => {
                                DebuggerError::LocationUnresolved { reason }
                            },
                        },
                    ),
                ),
                _ => {
                    let transaction = Transaction::ResolveLocation {
                        directory: copy_text(&directory),
                        file: file.clone(),
                        line,
                        column,
                    };
                    Step::Perform(
                        VerifyAndSet::Resolve { directory, file, line, column, source },
                        transaction,
                    )
                },
            },
            VerifyAndSet::Install { breakpoint, source } => match reply {
                Some(Reply::HwBreakpointSet(outcome)) => {
                    let location = breakpoint.source_location.clone();
                    match self.hw_breakpoint_set(
                        breakpoint.address,
                        BreakpointType::SourceBreakpoint(source, location),
                        outcome,
                    ) {
                        Ok(_) => Step::Finished(Ok(breakpoint)),
                        Err(error) => Step::Finished(Err(error)),
                    }
                },
                _ => {
                    let address = breakpoint.address;
                    Step::Perform(
                        VerifyAndSet::Install { breakpoint, source },
                        Transaction::SetHwBreakpoint { address },
                    )
                },
            },
        }
    }
}

} // verus!
