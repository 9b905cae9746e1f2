//! Clearing the breakpoints of one kind together.

use vstd::prelude::*;
use crate::breakpoint::{addresses, selected, ActiveBreakpoint, BreakpointType};
use crate::error::DebuggerError;
use crate::manager::{record_cleared, Effect};
use crate::session::CoreHandle;
use crate::transaction::{Reply, Step, Transaction};

verus! {

/// How far the clearing of the breakpoints of one kind has come.
#[derive(Debug, PartialEq, Eq)]
pub enum ClearBreakpoints {
    /// Nothing was done yet. The filter says which breakpoints are to go:
    /// those of its kind, or the source breakpoints where there is none.
    Begin(Option<BreakpointType>),
    /// The addresses to clear were taken from the record, and those before
    /// `next` are cleared.
    Clearing { addresses: Vec<u64>, next: usize },
}

pub enum ClearBreakpointsView {
    Begin(Option<BreakpointType>),
    Clearing { addresses: Seq<u64>, next: nat },
}

impl View for ClearBreakpoints {
    type V = ClearBreakpointsView;

    open spec fn view(&self) -> ClearBreakpointsView {
        match self {
            ClearBreakpoints::Begin(filter) => ClearBreakpointsView::Begin(*filter),
            ClearBreakpoints::Clearing { addresses, next } => ClearBreakpointsView::Clearing {
                addresses: addresses@,
                next: *next as nat,
            },
        }
    }
}

/// The step that goes on with the address at `next`, or ends where none is
/// left.
pub open spec fn clear_from(addresses: Seq<u64>, next: nat) -> Step<
    ClearBreakpointsView,
    Result<(), DebuggerError>,
> {
    if next < addresses.len() {
        Step::Perform(
            ClearBreakpointsView::Clearing { addresses, next },
            Transaction::ClearHwBreakpoint { address: addresses[next as int] },
        )
    } else {
        Step::Finished(Ok(()))
    }
}

/// One call of clearing the breakpoints of one kind.
pub open spec fn clear_all_step(
    breakpoints: Seq<ActiveBreakpoint>,
    progress: ClearBreakpointsView,
    reply: Option<Reply>,
) -> Effect<ClearBreakpointsView, Result<(), DebuggerError>> {
    match progress {
        ClearBreakpointsView::Begin(filter) => Effect {
            breakpoints,
            step: clear_from(addresses(selected(breakpoints, filter)), 0),
        },
        ClearBreakpointsView::Clearing { addresses, next } => if next >= addresses.len() {
            Effect { breakpoints, step: Step::Finished(Ok(())) }
        } else {
            match reply {
                Some(Reply::HwBreakpointCleared(outcome)) => Effect {
                    breakpoints: record_cleared(breakpoints, addresses[next as int], outcome),
                    step: match outcome {
                        Ok(_) => clear_from(addresses, next + 1),
                        Err(error) => Step::Finished(Err(DebuggerError::Hardware(error))),
                    },
                },
                _ => Effect { breakpoints, step: clear_from(addresses, next) },
            }
        },
    }
}

fn next_clear(addresses: Vec<u64>, next: usize) -> (step: Step<
    ClearBreakpoints,
    Result<(), DebuggerError>,
>)
    ensures
        step@ == clear_from(addresses@, next as nat),
{
    if next < addresses.len() {
        let address = addresses[next];
        Step::Perform(
            ClearBreakpoints::Clearing { addresses, next },
            Transaction::ClearHwBreakpoint { address },
        )
    } else {
        Step::Finished(Ok(()))
    }
}

impl CoreHandle {
    /// The addresses of the recorded breakpoints that `filter` selects, in
    /// the order of the record.
    pub fn selected_addresses(&self, filter: &Option<BreakpointType>) -> (targets: Vec<u64>)
        ensures
            targets@ == addresses(selected(self.core_data.breakpoints@, *filter)),
    {
        let mut targets: Vec<u64> = Vec::new();
        let mut position: usize = 0;
        assert(self.core_data.breakpoints@.take(0) =~= Seq::<ActiveBreakpoint>::empty());
        assert(targets@ =~= addresses(selected(self.core_data.breakpoints@.take(0), *filter)));
        while position < self.core_data.breakpoints.len()
            invariant
                position <= self.core_data.breakpoints@.len(),
                targets@ == addresses(
                    selected(self.core_data.breakpoints@.take(position as int), *filter),
                ),
            decreases self.core_data.breakpoints@.len() - position,
        {
            let breakpoint = &self.core_data.breakpoints[position];
            proof {
                let upto = self.core_data.breakpoints@.take(position + 1);
                assert(upto.drop_last() =~= self.core_data.breakpoints@.take(position as int));
                assert(upto.last() == *breakpoint);
            }
            if breakpoint.breakpoint_type.selected_by(filter) {
                targets.push(breakpoint.address);
            }
            position = position + 1;
            assert(targets@ =~= addresses(
                selected(self.core_data.breakpoints@.take(position as int), *filter),
            ));
        }
        assert(self.core_data.breakpoints@.take(position as int) =~= self.core_data.breakpoints@);
        targets
    }

    /// Clears the breakpoints that a filter selects: one call, with the
    /// reply to the transaction that the call before asked for.
    ///
    /// The addresses to clear are those that the record holds for the
    /// selected breakpoints when the operation begins. They are cleared one
    /// by one, in the order of the record. The first failure of the probe
    /// ends the operation: the breakpoints not yet reached stay set and
    /// recorded.
    pub fn clear_breakpoints(&mut self, progress: ClearBreakpoints, reply: Option<Reply>) -> (step:
        Step<ClearBreakpoints, Result<(), DebuggerError>>)
        ensures
            step@ == clear_all_step(old(self).core_data.breakpoints@, progress@, reply).step,
            final(self).core_data.breakpoints@ == clear_all_step(
                old(self).core_data.breakpoints@,
                progress@,
                reply,
            ).breakpoints,
            final(self).same_but_breakpoints(*old(self)),
    {
        match progress {
            ClearBreakpoints::Begin(filter) => {
                let targets = self.selected_addresses(&filter);
                next_clear(targets, 0)
            },
            ClearBreakpoints::Clearing { addresses, next } => {
                if next >= addresses.len() {
                    return Step::Finished(Ok(()));
                }
                match reply {
                    Some(Reply::HwBreakpointCleared(outcome)) => {
                        match self.hw_breakpoint_cleared(addresses[next], outcome) {
                            Ok(_) => next_clear(addresses, next + 1),
                            Err(error) => Step::Finished(Err(error)),
                        }
                    },
                    _ => next_clear(addresses, next),
                }
            },
        }
    }
}

} // verus!
