//! Setting the source breakpoints again after the program has changed.
//!
//! A rebuilt program may have another address for the same line. So every
//! source breakpoint is cleared at its old address and set again at the
//! address that the resolver now finds for its place.

use vstd::prelude::*;
use crate::breakpoint::{without_first, ActiveBreakpoint, BreakpointType};
use crate::error::DebuggerError;
use crate::manager::Effect;
use crate::session::CoreHandle;
use crate::source::{Source, SourceLocation, VerifiedBreakpoint};
use crate::transaction::{Reply, Step, Transaction};
use crate::verify_set::{verify_step, VerifyAndSet};

verus! {

/// A source breakpoint to set again: where it is now, and what it was set
/// for.
#[derive(Debug, PartialEq, Eq)]
pub struct SourceTarget {
    pub address: u64,
    pub source: Source,
    pub location: SourceLocation,
}

/// How far the recomputation has come.
#[derive(Debug, PartialEq, Eq)]
pub enum Recompute {
    /// Nothing was done yet.
    Begin,
    /// The source breakpoints were taken from the record, and those before
    /// `next` are set again. The one at `next` is to be cleared.
    Clear { targets: Vec<SourceTarget>, next: usize },
    /// The one at `next` is cleared and is being set again.
    Install { targets: Vec<SourceTarget>, next: usize, setting: VerifyAndSet },
}

pub enum RecomputeView {
    Begin,
    Clear { targets: Seq<SourceTarget>, next: nat },
    Install { targets: Seq<SourceTarget>, next: nat, setting: VerifyAndSet },
}

impl View for Recompute {
    type V = RecomputeView;

    open spec fn view(&self) -> RecomputeView {
        match self {
            Recompute::Begin => RecomputeView::Begin,
            Recompute::Clear { targets, next } => RecomputeView::Clear {
                targets: targets@,
                next: *next as nat,
            },
            Recompute::Install { targets, next, setting } => RecomputeView::Install {
                targets: targets@,
                next: *next as nat,
                setting: *setting,
            },
        }
    }
}

/// The source breakpoints of the record, in its order.
pub open spec fn source_targets(breakpoints: Seq<ActiveBreakpoint>) -> Seq<SourceTarget>
    decreases breakpoints.len(),
{
    if breakpoints.len() == 0 {
        Seq::empty()
    } else {
        let before = source_targets(breakpoints.drop_last());
        match breakpoints.last().breakpoint_type {
            BreakpointType::SourceBreakpoint(source, location) => before.push(
                SourceTarget { address: breakpoints.last().address, source, location },
            ),
            BreakpointType::InstructionBreakpoint => before,
        }
    }
}

/// How a source breakpoint is resolved again: in its recorded file, within
/// its recorded directory, at its recorded line, or line 0 where none is
/// recorded, and at its recorded column, the left edge being column 0.
/// Nothing where no directory or no file is recorded.
pub open spec fn resolve_again(target: SourceTarget) -> Option<VerifyAndSet> {
    match (target.location.directory, target.location.file) {
        (Some(directory), Some(file)) => Some(
            VerifyAndSet::Resolve {
                directory: Some(directory),
                file,
                line: target.location.request_line(),
                column: target.location.request_column(),
                source: target.source,
            },
        ),
        _ => None,
    }
}

/// The failure of the recomputation at `target`.
pub open spec fn failed_at(target: SourceTarget, cause: DebuggerError) -> DebuggerError {
    DebuggerError::RecomputeFailed {
        location: target.location,
        source: target.source,
        cause: Box::new(cause),
    }
}

/// The step that goes on with the breakpoint at `next`, or ends where none
/// is left.
pub open spec fn recompute_from(targets: Seq<SourceTarget>, next: nat) -> Step<
    RecomputeView,
    Result<(), DebuggerError>,
> {
    if next < targets.len() {
        Step::Perform(
            RecomputeView::Clear { targets, next },
            Transaction::ClearHwBreakpoint { address: targets[next as int].address },
        )
    } else {
        Step::Finished(Ok(()))
    }
}

/// What a call of the recomputation does when it has made `inner` of the
/// setting of the breakpoint at `next`.
pub open spec fn setting_effect(
    targets: Seq<SourceTarget>,
    next: nat,
    inner: Effect<VerifyAndSet, Result<VerifiedBreakpoint, DebuggerError>>,
) -> Effect<RecomputeView, Result<(), DebuggerError>> {
    Effect {
        breakpoints: inner.breakpoints,
        step: match inner.step {
            Step::Perform(setting, transaction) => Step::Perform(
                RecomputeView::Install { targets, next, setting },
                transaction,
            ),
            Step::Finished(Ok(_)) => recompute_from(targets, next + 1),
            Step::Finished(Err(cause)) => Step::Finished(
                Err(
                    if cause is Hardware {
                        cause
                    } else {
                        failed_at(targets[next as int], cause)
                    },
                ),
            ),
        },
    }
}

/// One call of the recomputation.
pub open spec fn recompute_step(
    breakpoints: Seq<ActiveBreakpoint>,
    progress: RecomputeView,
    reply: Option<Reply>,
) -> Effect<RecomputeView, Result<(), DebuggerError>> {
    match progress {
        RecomputeView::Begin => Effect {
            breakpoints,
            step: recompute_from(source_targets(breakpoints), 0),
        },
        RecomputeView::Clear { targets, next } => if next >= targets.len() {
            Effect { breakpoints, step: Step::Finished(Ok(())) }
        } else {
            match reply {
                Some(Reply::HwBreakpointCleared(Err(error))) => Effect {
                    breakpoints,
                    step: Step::Finished(Err(DebuggerError::Hardware(error))),
                },
                Some(Reply::HwBreakpointCleared(Ok(_))) => {
                    let cleared = without_first(breakpoints, targets[next as int].address);
                    match resolve_again(targets[next as int]) {
                        Some(setting) => setting_effect(
                            targets,
                            next,
                            verify_step(cleared, setting, None),
                        ),
                        None => Effect {
                            breakpoints: cleared,
                            step: Step::Finished(
                                Err(
                                    failed_at(
                                        targets[next as int],
                                        DebuggerError::SourcePathUnavailable,
                                    ),
                                ),
                            ),
                        },
                    }
                },
                _ => Effect { breakpoints, step: recompute_from(targets, next) },
            }
        },
        RecomputeView::Install { targets, next, setting } => if next >= targets.len() {
            Effect { breakpoints, step: Step::Finished(Ok(())) }
        } else {
            setting_effect(targets, next, verify_step(breakpoints, setting, reply))
        },
    }
}

fn next_target(targets: Vec<SourceTarget>, next: usize) -> (step: Step<
    Recompute,
    Result<(), DebuggerError>,
>)
    ensures
        step@ == recompute_from(targets@, next as nat),
{
    if next < targets.len() {
        let address = targets[next].address;
        Step::Perform(
            Recompute::Clear { targets, next },
            Transaction::ClearHwBreakpoint { address },
        )
    } else {
        Step::Finished(Ok(()))
    }
}

fn failure_at(target: &SourceTarget, cause: DebuggerError) -> (error: DebuggerError)
    ensures
        error == failed_at(*target, cause),
{
    DebuggerError::RecomputeFailed {
        location: target.location.clone(),
        source: target.source.clone(),
        cause: Box::new(cause),
    }
}

fn request_again(target: &SourceTarget) -> (setting: Option<VerifyAndSet>)
    ensures
        setting == resolve_again(*target),
{
    match (&target.location.directory, &target.location.file) {
        (Some(directory), Some(file)) => Some(
            VerifyAndSet::Resolve {
                directory: Some(directory.clone()),
                file: file.clone(),
                line: target.location.line_or_zero(),
                column: target.location.column_number(),
                source: target.source.clone(),
            },
        ),
        _ => None,
    }
}

fn setting_made(
    targets: Vec<SourceTarget>,
    next: usize,
    inner: Step<VerifyAndSet, Result<VerifiedBreakpoint, DebuggerError>>,
) -> (step: Step<Recompute, Result<(), DebuggerError>>)
    requires
        next < targets.len(),
    ensures
        forall|breakpoints: Seq<ActiveBreakpoint>|
            step@ == (#[trigger] setting_effect(
                targets@,
                next as nat,
                Effect { breakpoints, step: inner },
            )).step,
{
    match inner {
        Step::Perform(setting, transaction) => Step::Perform(
            Recompute::Install { targets, next, setting },
            transaction,
        ),
        Step::Finished(Ok(_)) => next_target(targets, next + 1),
        Step::Finished(Err(cause)) => match cause {
            DebuggerError::Hardware(_) => Step::Finished(Err(cause)),
            _ => Step::Finished(Err(failure_at(&targets[next], cause))),
        },
    }
}

impl CoreHandle {
    /// The recorded source breakpoints, in the order of the record.
    pub fn source_breakpoints(&self) -> (targets: Vec<SourceTarget>)
        ensures
            targets@ == source_targets(self.core_data.breakpoints@),
    {
        let mut targets: Vec<SourceTarget> = Vec::new();
        let mut position: usize = 0;
        assert(self.core_data.breakpoints@.take(0) =~= Seq::<ActiveBreakpoint>::empty());
        while position < self.core_data.breakpoints.len()
            invariant
                position <= self.core_data.breakpoints@.len(),
                targets@ == source_targets(self.core_data.breakpoints@.take(position as int)),
            decreases self.core_data.breakpoints@.len() - position,
        {
            let breakpoint = &self.core_data.breakpoints[position];
            proof {
                let upto = self.core_data.breakpoints@.take(position + 1);
                assert(upto.drop_last() =~= self.core_data.breakpoints@.take(position as int));
                assert(upto.last() == *breakpoint);
            }
            match &breakpoint.breakpoint_type {
                BreakpointType::SourceBreakpoint(source, location) => {
                    targets.push(
                        SourceTarget {
                            address: breakpoint.address,
                            source: source.clone(),
                            location: location.clone(),
                        },
                    );
                },
                BreakpointType::InstructionBreakpoint => {},
            }
            position = position + 1;
        }
        assert(self.core_data.breakpoints@.take(position as int) =~= self.core_data.breakpoints@);
        targets
    }

    /// Sets the source breakpoints again after the program has changed: one
    /// call, with the reply to the transaction that the call before asked
    /// for.
    ///
    /// The source breakpoints are those that the record holds when the
    /// operation begins, and they are taken in the order of the record. Each
    /// is cleared at its address and struck from the record, then resolved
    /// and set again as a new source breakpoint with the same descriptor.
    /// The operation ends at the first failure. A failure of the probe,
    /// while clearing or while setting, is handed on as it is: the request
    /// cannot go on. A place that cannot be resolved again is wrapped in one
    /// error that names the place. The breakpoints not yet reached stay as
    /// they were, and the one that failed stays cleared. Other breakpoints
    /// are not asked about at all.
    pub fn recompute_breakpoints(&mut self, progress: Recompute, reply: Option<Reply>) -> (step:
        Step<Recompute, Result<(), DebuggerError>>)
        ensures
            step@ == recompute_step(old(self).core_data.breakpoints@, progress@, reply).step,
            final(self).core_data.breakpoints@ == recompute_step(
                old(self).core_data.breakpoints@,
                progress@,
                reply,
            ).breakpoints,
            final(self).same_but_breakpoints(*old(self)),
    {
        match progress {
            Recompute::Begin => {
                let targets = self.source_breakpoints();
                next_target(targets, 0)
            },
            Recompute::Clear { targets, next } => {
                if next >= targets.len() {
                    return Step::Finished(Ok(()));
                }
                match reply {
                    Some(Reply::HwBreakpointCleared(outcome)) => {
                        match self.hw_breakpoint_cleared(targets[next].address, outcome) {
                            Err(error) => Step::Finished(Err(error)),
                            Ok(_) => match request_again(&targets[next]) {
                                Some(setting) => {
                                    let inner = self.verify_and_set_breakpoint(setting, None);
                                    setting_made(targets, next, inner)
                                },
                                None => Step::Finished(
                                    Err(
                                        failure_at(
                                            &targets[next],
                                            DebuggerError::SourcePathUnavailable,
                                        ),
                                    ),
                                ),
                            },
                        }
                    },
                    _ => next_target(targets, next),
                }
            },
            Recompute::Install { targets, next, setting } => {
                if next >= targets.len() {
                    return Step::Finished(Ok(()));
                }
                let inner = self.verify_and_set_breakpoint(setting, reply);
                setting_made(targets, next, inner)
            },
        }
    }
}

} // verus!
