//! What holds of every record of breakpoints.

use vstd::prelude::*;
use crate::breakpoint::{
    addresses, distinct_addresses, first_at, has_address, lemma_without_first_at, selected,
    selects, unselected, ActiveBreakpoint, BreakpointType,
};
use crate::clear_all::{clear_all_step, ClearBreakpointsView};
use crate::error::DebuggerError;
use crate::manager::{clear_step, set_step, ClearBreakpoint, Effect, SetBreakpoint};
use crate::transaction::{Reply, Step, Transaction};

verus! {

/// A breakpoint that is set where none was, and then cleared, leaves the
/// record as it was before. The probe is asked to set and then to clear a
/// breakpoint at that one address, and in between the record holds it.
pub proof fn lemma_set_then_clear(
    breakpoints: Seq<ActiveBreakpoint>,
    address: u64,
    breakpoint_type: BreakpointType,
)
    requires
        !has_address(breakpoints, address),
    ensures
        ({
            let setting = SetBreakpoint { address, breakpoint_type };
            let clearing = ClearBreakpoint { address };
            let set = set_step(breakpoints, setting, Some(Reply::HwBreakpointSet(Ok(()))));
            let cleared = clear_step(
                set.breakpoints,
                clearing,
                Some(Reply::HwBreakpointCleared(Ok(()))),
            );
            &&& set_step(breakpoints, setting, None).breakpoints == breakpoints
            &&& set_step(breakpoints, setting, None).step == Step::<
                SetBreakpoint,
                Result<(), DebuggerError>,
            >::Perform(setting, Transaction::SetHwBreakpoint { address })
            &&& set.step == Step::<SetBreakpoint, Result<(), DebuggerError>>::Finished(Ok(()))
            &&& has_address(set.breakpoints, address)
            &&& clear_step(set.breakpoints, clearing, None).breakpoints == set.breakpoints
            &&& clear_step(set.breakpoints, clearing, None).step == Step::<
                ClearBreakpoint,
                Result<(), DebuggerError>,
            >::Perform(clearing, Transaction::ClearHwBreakpoint { address })
            &&& cleared.step == Step::<ClearBreakpoint, Result<(), DebuggerError>>::Finished(
                Ok(()),
            )
            &&& cleared.breakpoints == breakpoints
            &&& !has_address(cleared.breakpoints, address)
        }),
{
    let added = breakpoints.push(ActiveBreakpoint { breakpoint_type, address });
    let last = breakpoints.len() as int;
    assert(added[last].address == address);
    assert(first_at(added, address, last)) by {
        assert forall|j: int| 0 <= j < last implies #[trigger] added[j].address != address by {
            assert(added[j] == breakpoints[j]);
        }
    }
    lemma_without_first_at(added, address, last);
    assert(added.remove(last) =~= breakpoints);
}

/// Whether `i` is the place of the first breakpoint that `filter` selects.
pub open spec fn first_selected(
    breakpoints: Seq<ActiveBreakpoint>,
    filter: Option<BreakpointType>,
    i: int,
) -> bool {
    &&& 0 <= i < breakpoints.len()
    &&& selects(filter, breakpoints[i].breakpoint_type)
    &&& forall|j: int| 0 <= j < i ==> !selects(filter, #[trigger] breakpoints[j].breakpoint_type)
}

/// A record of which a filter selects nothing is what the filter leaves.
pub proof fn lemma_nothing_selected(
    breakpoints: Seq<ActiveBreakpoint>,
    filter: Option<BreakpointType>,
)
    requires
        selected(breakpoints, filter).len() == 0,
    ensures
        unselected(breakpoints, filter) == breakpoints,
        forall|j: int|
            0 <= j < breakpoints.len() ==> !selects(
                filter,
                #[trigger] breakpoints[j].breakpoint_type,
            ),
    decreases breakpoints.len(),
{
    if breakpoints.len() > 0 {
        lemma_nothing_selected(breakpoints.drop_last(), filter);
        assert(breakpoints.drop_last().push(breakpoints.last()) =~= breakpoints);
        assert forall|j: int| 0 <= j < breakpoints.len() implies !selects(
            filter,
            #[trigger] breakpoints[j].breakpoint_type,
        ) by {
            if j < breakpoints.len() - 1 {
                assert(breakpoints[j] == breakpoints.drop_last()[j]);
            }
        }
    } else {
        assert(unselected(breakpoints, filter) =~= breakpoints);
    }
}

/// Of a record before whose place `i` a filter selects nothing, it selects
/// nothing at all up to there.
proof fn lemma_none_before(
    breakpoints: Seq<ActiveBreakpoint>,
    filter: Option<BreakpointType>,
)
    requires
        forall|j: int|
            0 <= j < breakpoints.len() ==> !selects(
                filter,
                #[trigger] breakpoints[j].breakpoint_type,
            ),
    ensures
        selected(breakpoints, filter) == Seq::<ActiveBreakpoint>::empty(),
    decreases breakpoints.len(),
{
    if breakpoints.len() > 0 {
        assert forall|j: int| 0 <= j < breakpoints.drop_last().len() implies !selects(
            filter,
            #[trigger] breakpoints.drop_last()[j].breakpoint_type,
        ) by {
            assert(breakpoints.drop_last()[j] == breakpoints[j]);
        }
        lemma_none_before(breakpoints.drop_last(), filter);
        assert(!selects(filter, breakpoints[breakpoints.len() - 1].breakpoint_type));
    }
}

/// Where a filter selects something, there is a first place that it selects.
pub proof fn lemma_first_selected_exists(
    breakpoints: Seq<ActiveBreakpoint>,
    filter: Option<BreakpointType>,
) -> (i: int)
    requires
        selected(breakpoints, filter).len() > 0,
    ensures
        first_selected(breakpoints, filter, i),
    decreases breakpoints.len(),
{
    let before = breakpoints.drop_last();
    if selected(before, filter).len() > 0 {
        let i = lemma_first_selected_exists(before, filter);
        assert(breakpoints[i] == before[i]);
        assert forall|j: int| 0 <= j < i implies !selects(
            filter,
            #[trigger] breakpoints[j].breakpoint_type,
        ) by {
            assert(breakpoints[j] == before[j]);
        }
        i
    } else {
        lemma_nothing_selected(before, filter);
        let i = breakpoints.len() - 1;
        assert forall|j: int| 0 <= j < i implies !selects(
            filter,
            #[trigger] breakpoints[j].breakpoint_type,
        ) by {
            assert(breakpoints[j] == before[j]);
        }
        i
    }
}

/// Taking the first selected breakpoint out of a record takes it off the
/// front of what the filter selects, and leaves what the filter leaves.
pub proof fn lemma_remove_first_selected(
    breakpoints: Seq<ActiveBreakpoint>,
    filter: Option<BreakpointType>,
    i: int,
)
    requires
        first_selected(breakpoints, filter, i),
    ensures
        selected(breakpoints, filter).len() > 0,
        selected(breakpoints, filter)[0] == breakpoints[i],
        selected(breakpoints.remove(i), filter) == selected(breakpoints, filter).skip(1),
        unselected(breakpoints.remove(i), filter) == unselected(breakpoints, filter),
    decreases breakpoints.len(),
{
    let before = breakpoints.drop_last();
    let last = breakpoints.len() - 1;
    if i == last {
        assert forall|j: int| 0 <= j < before.len() implies !selects(
            filter,
            #[trigger] before[j].breakpoint_type,
        ) by {
            assert(before[j] == breakpoints[j]);
        }
        lemma_none_before(before, filter);
        assert(breakpoints.remove(i) =~= before);
        assert(selected(breakpoints, filter) =~= seq![breakpoints[i]]);
        assert(selected(breakpoints, filter).skip(1) =~= Seq::<ActiveBreakpoint>::empty());
    } else {
        assert(before[i] == breakpoints[i]);
        assert forall|j: int| 0 <= j < i implies !selects(
            filter,
            #[trigger] before[j].breakpoint_type,
        ) by {
            assert(before[j] == breakpoints[j]);
        }
        lemma_remove_first_selected(before, filter, i);
        let removed = breakpoints.remove(i);
        assert(removed.drop_last() =~= before.remove(i));
        assert(removed.last() == breakpoints.last());
        assert(selected(removed, filter) =~= selected(breakpoints, filter).skip(1));
    }
}

/// The run of clearing the breakpoints of one kind: the calls of the
/// operation, each given the next reply of `script` in answer to the
/// transaction that the call before asked for, until the operation has ended
/// or the script is used up.
pub open spec fn clear_all_run(
    breakpoints: Seq<ActiveBreakpoint>,
    progress: ClearBreakpointsView,
    reply: Option<Reply>,
    script: Seq<Reply>,
) -> Effect<ClearBreakpointsView, Result<(), DebuggerError>>
    decreases script.len(),
{
    let effect = clear_all_step(breakpoints, progress, reply);
    match effect.step {
        Step::Finished(_) => effect,
        Step::Perform(next, _) => if script.len() == 0 {
            effect
        } else {
            clear_all_run(effect.breakpoints, next, Some(script[0]), script.skip(1))
        },
    }
}

/// Whether the addresses from `next` on are those of the breakpoints that
/// the filter still selects in a record without an address twice.
pub open spec fn clearing_on(
    breakpoints: Seq<ActiveBreakpoint>,
    filter: Option<BreakpointType>,
    targets: Seq<u64>,
    next: nat,
) -> bool {
    &&& distinct_addresses(breakpoints)
    &&& next <= targets.len()
    &&& addresses(selected(breakpoints, filter)) == targets.skip(next as int)
}

/// A run of clearing that stands at `next` spares what the filter leaves.
proof fn lemma_clearing_run(
    breakpoints: Seq<ActiveBreakpoint>,
    filter: Option<BreakpointType>,
    targets: Seq<u64>,
    next: nat,
    reply: Option<Reply>,
    script: Seq<Reply>,
)
    requires
        clearing_on(breakpoints, filter, targets, next),
    ensures
        ({
            let end = clear_all_run(
                breakpoints,
                ClearBreakpointsView::Clearing { addresses: targets, next },
                reply,
                script,
            );
            &&& unselected(end.breakpoints, filter) == unselected(breakpoints, filter)
            &&& distinct_addresses(end.breakpoints)
            &&& end.step == Step::<ClearBreakpointsView, Result<(), DebuggerError>>::Finished(
                Ok(()),
            ) ==> end.breakpoints == unselected(breakpoints, filter)
        }),
    decreases script.len(),
{
    let progress = ClearBreakpointsView::Clearing { addresses: targets, next };
    let effect = clear_all_step(breakpoints, progress, reply);
    let chosen = selected(breakpoints, filter);
    assert(addresses(chosen).len() == targets.len() - next);
    if next >= targets.len() {
        assert(chosen.len() == 0);
        lemma_nothing_selected(breakpoints, filter);
    } else {
        let address = targets[next as int];
        assert(targets.skip(next as int)[0] == address);
        assert(addresses(chosen)[0] == chosen[0].address);
        let i = lemma_first_selected_exists(breakpoints, filter);
        lemma_remove_first_selected(breakpoints, filter, i);
        assert(breakpoints[i].address == address);
        assert(first_at(breakpoints, address, i));
        lemma_without_first_at(breakpoints, address, i);
        let cleared = breakpoints.remove(i);
        assert(distinct_addresses(cleared)) by {
            assert forall|a: int, b: int| 0 <= a < b < cleared.len() implies #[trigger] cleared[a].address
                != #[trigger] cleared[b].address by {
                let a0 = if a < i { a } else { a + 1 };
                let b0 = if b < i { b } else { b + 1 };
                assert(cleared[a] == breakpoints[a0]);
                assert(cleared[b] == breakpoints[b0]);
            }
        }
        assert(addresses(selected(cleared, filter)) =~= targets.skip(next as int + 1)) by {
            assert forall|k: int| 0 <= k < chosen.len() - 1 implies addresses(
                chosen.skip(1),
            )[k] == targets.skip(next as int + 1)[k] by {
                assert(addresses(chosen)[k + 1] == targets.skip(next as int)[k + 1]);
            }
        }
        match reply {
            Some(Reply::HwBreakpointCleared(Ok(_))) => {
                assert(effect.breakpoints == cleared);
                if next + 1 < targets.len() {
                    if script.len() > 0 {
                        lemma_clearing_run(
                            cleared,
                            filter,
                            targets,
                            next + 1,
                            Some(script[0]),
                            script.skip(1),
                        );
                    }
                } else {
                    assert(selected(cleared, filter).len() == 0);
                    lemma_nothing_selected(cleared, filter);
                }
            },
            Some(Reply::HwBreakpointCleared(Err(_))) => {},
            _ => {
                if script.len() > 0 {
                    lemma_clearing_run(
                        breakpoints,
                        filter,
                        targets,
                        next,
                        Some(script[0]),
                        script.skip(1),
                    );
                }
            },
        }
    }
}

/// Clearing the breakpoints that a filter selects, in a record without an
/// address twice, touches no other breakpoint: however the probe answers
/// and wherever the run stands, the record holds the breakpoints that the
/// filter does not select as it held them before. If the operation ends
/// well, the record holds just these.
pub proof fn lemma_clear_all_spares_the_rest(
    breakpoints: Seq<ActiveBreakpoint>,
    filter: Option<BreakpointType>,
    script: Seq<Reply>,
)
    requires
        distinct_addresses(breakpoints),
    ensures
        ({
            let end = clear_all_run(
                breakpoints,
                ClearBreakpointsView::Begin(filter),
                None,
                script,
            );
            &&& unselected(end.breakpoints, filter) == unselected(breakpoints, filter)
            &&& distinct_addresses(end.breakpoints)
            &&& end.step == Step::<ClearBreakpointsView, Result<(), DebuggerError>>::Finished(
                Ok(()),
            ) ==> end.breakpoints == unselected(breakpoints, filter)
        }),
{
    let targets = addresses(selected(breakpoints, filter));
    assert(targets.skip(0) =~= targets);
    if targets.len() == 0 {
        lemma_nothing_selected(breakpoints, filter);
    } else if script.len() > 0 {
        lemma_clearing_run(breakpoints, filter, targets, 0, Some(script[0]), script.skip(1));
    }
}

/// With no filter, clearing takes source breakpoints only: a breakpoint
/// that was not set for a place in the source stays in the record, at its
/// place among the others of its kind.
pub proof fn lemma_clear_all_takes_source_breakpoints_only(
    breakpoints: Seq<ActiveBreakpoint>,
    script: Seq<Reply>,
    i: int,
)
    requires
        distinct_addresses(breakpoints),
        0 <= i < unselected(breakpoints, None).len(),
    ensures
        ({
            let end = clear_all_run(breakpoints, ClearBreakpointsView::Begin(None), None, script);
            &&& unselected(end.breakpoints, None) == unselected(breakpoints, None)
            &&& !(unselected(breakpoints, None)[i].breakpoint_type is SourceBreakpoint)
            &&& end.breakpoints.contains(unselected(breakpoints, None)[i])
        }),
{
    lemma_clear_all_spares_the_rest(breakpoints, None, script);
    let end = clear_all_run(breakpoints, ClearBreakpointsView::Begin(None), None, script);
    lemma_unselected_within(breakpoints, None, i);
    lemma_unselected_within(end.breakpoints, None, i);
}

/// What a filter leaves of a record is in the record, and is not selected.
pub proof fn lemma_unselected_within(
    breakpoints: Seq<ActiveBreakpoint>,
    filter: Option<BreakpointType>,
    i: int,
)
    requires
        0 <= i < unselected(breakpoints, filter).len(),
    ensures
        breakpoints.contains(unselected(breakpoints, filter)[i]),
        !selects(filter, unselected(breakpoints, filter)[i].breakpoint_type),
    decreases breakpoints.len(),
{
    let before = breakpoints.drop_last();
    let kept = unselected(before, filter);
    if i < kept.len() {
        lemma_unselected_within(before, filter, i);
        let k = choose|k: int| 0 <= k < before.len() && before[k] == kept[i];
        assert(breakpoints[k] == kept[i]);
    } else {
        assert(unselected(breakpoints, filter)[i] == breakpoints[breakpoints.len() - 1]);
    }
}

/// Whether every reply of a script says that a breakpoint was cleared.
pub open spec fn every_clear_done(script: Seq<Reply>) -> bool {
    forall|i: int|
        0 <= i < script.len() ==> #[trigger] script[i] == Reply::HwBreakpointCleared(Ok(()))
}

/// A run of clearing that stands at `next` ends well if every clear is done.
proof fn lemma_clearing_succeeds(
    breakpoints: Seq<ActiveBreakpoint>,
    targets: Seq<u64>,
    next: nat,
    script: Seq<Reply>,
)
    requires
        next < targets.len(),
        every_clear_done(script),
        script.len() + 1 >= targets.len() - next,
    ensures
        clear_all_run(
            breakpoints,
            ClearBreakpointsView::Clearing { addresses: targets, next },
            Some(Reply::HwBreakpointCleared(Ok(()))),
            script,
        ).step == Step::<ClearBreakpointsView, Result<(), DebuggerError>>::Finished(Ok(())),
    decreases script.len(),
{
    let progress = ClearBreakpointsView::Clearing { addresses: targets, next };
    let effect = clear_all_step(breakpoints, progress, Some(Reply::HwBreakpointCleared(Ok(()))));
    if next + 1 < targets.len() {
        assert(script[0] == Reply::HwBreakpointCleared(Ok(())));
        assert(every_clear_done(script.skip(1))) by {
            assert forall|i: int| 0 <= i < script.skip(1).len() implies #[trigger] script.skip(
                1,
            )[i] == Reply::HwBreakpointCleared(Ok(())) by {
                assert(script.skip(1)[i] == script[i + 1]);
            }
        }
        lemma_clearing_succeeds(effect.breakpoints, targets, next + 1, script.skip(1));
    }
}

/// Clearing the breakpoints that a filter selects ends well if the probe
/// clears every breakpoint it is asked to clear. In a record without an
/// address twice, the record then holds just the breakpoints that the filter
/// does not select.
pub proof fn lemma_clear_all_succeeds(
    breakpoints: Seq<ActiveBreakpoint>,
    filter: Option<BreakpointType>,
    script: Seq<Reply>,
)
    requires
        every_clear_done(script),
        script.len() >= selected(breakpoints, filter).len(),
    ensures
        ({
            let end = clear_all_run(
                breakpoints,
                ClearBreakpointsView::Begin(filter),
                None,
                script,
            );
            &&& end.step == Step::<ClearBreakpointsView, Result<(), DebuggerError>>::Finished(
                Ok(()),
            )
            &&& distinct_addresses(breakpoints) ==> end.breakpoints == unselected(
                breakpoints,
                filter,
            )
        }),
{
    let targets = addresses(selected(breakpoints, filter));
    if targets.len() > 0 {
        assert(script[0] == Reply::HwBreakpointCleared(Ok(())));
        assert(every_clear_done(script.skip(1))) by {
            assert forall|i: int| 0 <= i < script.skip(1).len() implies #[trigger] script.skip(
                1,
            )[i] == Reply::HwBreakpointCleared(Ok(())) by {
                assert(script.skip(1)[i] == script[i + 1]);
            }
        }
        lemma_clearing_succeeds(breakpoints, targets, 0, script.skip(1));
    }
    if distinct_addresses(breakpoints) {
        lemma_clear_all_spares_the_rest(breakpoints, filter, script);
    }
}

} // verus!
