//! Setting and clearing hardware breakpoints, and keeping the record of
//! them. The hardware comes first: the record changes only once the probe
//! has done its part.

use vstd::prelude::*;
use crate::breakpoint::{
    first_at, has_address, lemma_without_first_absent, lemma_without_first_at, without_first,
    ActiveBreakpoint, BreakpointType,
};
use crate::error::{DebuggerError, HardwareError};
use crate::session::CoreHandle;
use crate::transaction::{Reply, Step, Transaction};

verus! {

/// What one call of a breakpoint operation does.
pub struct Effect<S, T> {
    /// The record of breakpoints after the call.
    pub breakpoints: Seq<ActiveBreakpoint>,
    pub step: Step<S, T>,
}

/// A breakpoint that is being set.
#[derive(Debug, PartialEq, Eq)]
pub struct SetBreakpoint {
    pub address: u64,
    pub breakpoint_type: BreakpointType,
}

/// A breakpoint that is being cleared.
#[derive(Clone, Copy, Debug, PartialEq, Eq, Structural)]
pub struct ClearBreakpoint {
    pub address: u64,
}

/// The record after the probe was asked to set a breakpoint at `address`:
/// with the new breakpoint last if the probe did, as it was if not.
pub open spec fn record_set(
    breakpoints: Seq<ActiveBreakpoint>,
    address: u64,
    breakpoint_type: BreakpointType,
    outcome: Result<(), HardwareError>,
) -> Seq<ActiveBreakpoint> {
    match outcome {
        Ok(_) => breakpoints.push(ActiveBreakpoint { breakpoint_type, address }),
        Err(_) => breakpoints,
    }
}

/// The record after the probe was asked to clear the breakpoint at
/// `address`: without its first breakpoint there if the probe did, as it was
/// if not.
pub open spec fn record_cleared(
    breakpoints: Seq<ActiveBreakpoint>,
    address: u64,
    outcome: Result<(), HardwareError>,
) -> Seq<ActiveBreakpoint> {
    match outcome {
        Ok(_) => without_first(breakpoints, address),
        Err(_) => breakpoints,
    }
}

/// What the caller of a breakpoint operation is told of the probe's part.
pub open spec fn hardware_result(outcome: Result<(), HardwareError>) -> Result<(), DebuggerError> {
    match outcome {
        Ok(_) => Ok(()),
        Err(error) => Err(DebuggerError::Hardware(error)),
    }
}

/// One call of setting a breakpoint.
pub open spec fn set_step(
    breakpoints: Seq<ActiveBreakpoint>,
    progress: SetBreakpoint,
    reply: Option<Reply>,
) -> Effect<SetBreakpoint, Result<(), DebuggerError>> {
    match reply {
        Some(Reply::HwBreakpointSet(outcome)) => Effect {
            breakpoints: record_set(
                breakpoints,
                progress.address,
                progress.breakpoint_type,
                outcome,
            ),
            step: Step::Finished(hardware_result(outcome)),
        },
        _ => Effect {
            breakpoints,
            step: Step::Perform(
                progress,
                Transaction::SetHwBreakpoint { address: progress.address },
            ),
        },
    }
}

/// One call of clearing a breakpoint.
pub open spec fn clear_step(
    breakpoints: Seq<ActiveBreakpoint>,
    progress: ClearBreakpoint,
    reply: Option<Reply>,
) -> Effect<ClearBreakpoint, Result<(), DebuggerError>> {
    match reply {
        Some(Reply::HwBreakpointCleared(outcome)) => Effect {
            breakpoints: record_cleared(breakpoints, progress.address, outcome),
            step: Step::Finished(hardware_result(outcome)),
        },
        _ => Effect {
            breakpoints,
            step: Step::Perform(
                progress,
                Transaction::ClearHwBreakpoint { address: progress.address },
            ),
        },
    }
}

impl CoreHandle {
    /// Takes note of what became of setting a hardware breakpoint at
    /// `address`. If the probe set it, it is recorded behind the breakpoints
    /// already there, also where one of them is at the same address. If the
    /// probe failed, nothing is recorded and the failure is handed on.
    pub fn hw_breakpoint_set(
        &mut self,
        address: u64,
        breakpoint_type: BreakpointType,
        outcome: Result<(), HardwareError>,
    ) -> (result: Result<(), DebuggerError>)
        ensures
            result == hardware_result(outcome),
            final(self).core_data.breakpoints@ == record_set(
                old(self).core_data.breakpoints@,
                address,
                breakpoint_type,
                outcome,
            ),
            final(self).same_but_breakpoints(*old(self)),
    {
        match outcome {
            Ok(_) => {
                self.core_data.breakpoints.push(ActiveBreakpoint { breakpoint_type, address });
                Ok(())
            },
            Err(error) => Err(DebuggerError::Hardware(error)),
        }
    }

    /// Takes note of what became of clearing the hardware breakpoint at
    /// `address`. If the probe cleared it, the first breakpoint recorded at
    /// that address leaves the record; that none is recorded there is no
    /// failure. If the probe failed, the record stays and the failure is
    /// handed on.
    pub fn hw_breakpoint_cleared(&mut self, address: u64, outcome: Result<(), HardwareError>) -> (result:
        Result<(), DebuggerError>)
        ensures
            result == hardware_result(outcome),
            final(self).core_data.breakpoints@ == record_cleared(
                old(self).core_data.breakpoints@,
                address,
                outcome,
            ),
            final(self).same_but_breakpoints(*old(self)),
    {
        match outcome {
            Ok(_) => {
                let mut position: usize = 0;
                while position < self.core_data.breakpoints.len()
                    invariant
                        outcome is Ok,
                        *self == *old(self),
                        position <= self.core_data.breakpoints@.len(),
                        forall|j: int|
                            0 <= j < position
                                ==> #[trigger] self.core_data.breakpoints@[j].address != address,
                    decreases self.core_data.breakpoints@.len() - position,
                {
                    if self.core_data.breakpoints[position].address == address {
                        proof {
                            assert(first_at(
                                self.core_data.breakpoints@,
                                address,
                                position as int,
                            ));
                            lemma_without_first_at(
                                self.core_data.breakpoints@,
                                address,
                                position as int,
                            );
                        }
                        self.core_data.breakpoints.remove(position);
                        return Ok(());
                    }
                    position = position + 1;
                }
                proof {
                    assert(!has_address(self.core_data.breakpoints@, address));
                    lemma_without_first_absent(self.core_data.breakpoints@, address);
                }
                Ok(())
            },
            Err(error) => Err(DebuggerError::Hardware(error)),
        }
    }

    /// Sets a hardware breakpoint and records it: one call, with the reply
    /// to the transaction that the call before asked for.
    pub fn set_breakpoint(&mut self, progress: SetBreakpoint, reply: Option<Reply>) -> (step: Step<
        SetBreakpoint,
        Result<(), DebuggerError>,
    >)
        ensures
            step == set_step(old(self).core_data.breakpoints@, progress, reply).step,
            final(self).core_data.breakpoints@ == set_step(
                old(self).core_data.breakpoints@,
                progress,
                reply,
            ).breakpoints,
            final(self).same_but_breakpoints(*old(self)),
    {
        match reply {
            Some(Reply::HwBreakpointSet(outcome)) => Step::Finished(
                self.hw_breakpoint_set(progress.address, progress.breakpoint_type, outcome),
            ),
            _ => {
                let address = progress.address;
                Step::Perform(progress, Transaction::SetHwBreakpoint { address })
            },
        }
    }

    /// Clears a hardware breakpoint and strikes it from the record: one
    /// call, with the reply to the transaction that the call before asked for.
    pub fn clear_breakpoint(&mut self, progress: ClearBreakpoint, reply: Option<Reply>) -> (step:
        Step<ClearBreakpoint, Result<(), DebuggerError>>)
        ensures
            step == clear_step(old(self).core_data.breakpoints@, progress, reply).step,
            final(self).core_data.breakpoints@ == clear_step(
                old(self).core_data.breakpoints@,
                progress,
                reply,
            ).breakpoints,
            final(self).same_but_breakpoints(*old(self)),
    {
        match reply {
            Some(Reply::HwBreakpointCleared(outcome)) => Step::Finished(
                self.hw_breakpoint_cleared(progress.address, outcome),
            ),
            _ => Step::Perform(
                progress,
                Transaction::ClearHwBreakpoint { address: progress.address },
            ),
        }
    }
}

} // verus!
