//! What holds of every poll.

use vstd::prelude::*;
use crate::error::{DebuggerError, HardwareError};
use crate::poll::{announcement, poll_step, verdict, PollCore};
use crate::protocol::MessageView;
use crate::status::{CoreStatus, HaltReason};
use crate::transaction::{Reply, Step, Transaction};

verus! {

/// What the probe reads from a core while nothing about the core changes.
pub struct Observation {
    pub status: Result<CoreStatus, HardwareError>,
    pub program_counter: Option<u64>,
}

/// What a whole poll comes to.
pub struct PollOutcome {
    /// The status remembered after the poll.
    pub status: CoreStatus,
    /// The messages queued by the poll.
    pub sent: Seq<MessageView>,
    pub result: Result<CoreStatus, DebuggerError>,
}

/// What a poll of a core in state `observation` comes to.
pub open spec fn poll_outcome(
    cached: CoreStatus,
    configuration_done: bool,
    all_cores_halted: bool,
    core_id: usize,
    observation: Observation,
) -> PollOutcome {
    if !configuration_done {
        PollOutcome { status: cached, sent: Seq::empty(), result: Ok(CoreStatus::Unknown) }
    } else {
        match observation.status {
            Err(error) => PollOutcome {
                status: CoreStatus::Unknown,
                sent: Seq::empty(),
                result: Err(DebuggerError::Hardware(error)),
            },
            Ok(observed) => PollOutcome {
                status: observed,
                sent: announcement(
                    cached,
                    observed,
                    core_id,
                    all_cores_halted,
                    observation.program_counter,
                ),
                result: verdict(cached, observed),
            },
        }
    }
}

/// The reply of a core in state `observation` to a transaction of a poll.
pub open spec fn reading(observation: Observation, transaction: Transaction) -> Option<Reply> {
    match transaction {
        Transaction::ReadStatus => Some(Reply::Status(observation.status)),
        Transaction::ReadProgramCounter => Some(
            Reply::ProgramCounter(observation.program_counter),
        ),
        _ => None,
    }
}

/// The calls of a poll, each given the reply of a core in state
/// `observation` to the transaction that the call before asked for, until
/// the poll has ended or `calls` calls were made.
pub open spec fn poll_run(
    cached: CoreStatus,
    configuration_done: bool,
    all_cores_halted: bool,
    core_id: usize,
    observation: Observation,
    progress: PollCore,
    reply: Option<Reply>,
    calls: nat,
) -> Option<PollOutcome>
    decreases calls,
{
    if calls == 0 {
        None
    } else {
        let effect = poll_step(
            cached,
            configuration_done,
            all_cores_halted,
            core_id,
            progress,
            reply,
        );
        match effect.step {
            Step::Finished(result) => Some(
                PollOutcome { status: effect.status, sent: effect.sent, result },
            ),
            Step::Perform(next, transaction) => match poll_run(
                effect.status,
                configuration_done,
                all_cores_halted,
                core_id,
                observation,
                next,
                reading(observation, transaction),
                (calls - 1) as nat,
            ) {
                Some(rest) => Some(
                    PollOutcome {
                        status: rest.status,
                        sent: effect.sent + rest.sent,
                        result: rest.result,
                    },
                ),
                None => None,
            },
        }
    }
}

/// A poll that is driven as asked ends within three calls, and comes to
/// what `poll_outcome` says.
pub proof fn lemma_poll_run(
    cached: CoreStatus,
    configuration_done: bool,
    all_cores_halted: bool,
    core_id: usize,
    observation: Observation,
)
    ensures
        poll_run(
            cached,
            configuration_done,
            all_cores_halted,
            core_id,
            observation,
            PollCore::Begin,
            None,
            3,
        ) == Some(
            poll_outcome(cached, configuration_done, all_cores_halted, core_id, observation),
        ),
{
    reveal_with_fuel(poll_run, 4);
    let run = poll_run(
        cached,
        configuration_done,
        all_cores_halted,
        core_id,
        observation,
        PollCore::Begin,
        None,
        3,
    );
    let outcome = poll_outcome(
        cached,
        configuration_done,
        all_cores_halted,
        core_id,
        observation,
    );
    assert(run is Some);
    assert(run->0.sent =~= outcome.sent);
}

/// A second poll of a core about which nothing has changed tells the client
/// nothing and leaves what is remembered as the first poll left it.
pub proof fn lemma_poll_twice(
    cached: CoreStatus,
    configuration_done: bool,
    all_cores_halted: bool,
    core_id: usize,
    observation: Observation,
)
    ensures
        ({
            let first = poll_outcome(
                cached,
                configuration_done,
                all_cores_halted,
                core_id,
                observation,
            );
            let second = poll_outcome(
                first.status,
                configuration_done,
                all_cores_halted,
                core_id,
                observation,
            );
            &&& second.sent == Seq::<MessageView>::empty()
            &&& second.status == first.status
        }),
{
}

/// A core that is seen running or sleeping, and was not remembered so, is
/// announced with exactly one `continued` event, which names the core.
pub proof fn lemma_resume_announced(
    cached: CoreStatus,
    all_cores_halted: bool,
    core_id: usize,
    observed: CoreStatus,
    program_counter: Option<u64>,
)
    requires
        observed.is_resumed(),
        observed != cached,
    ensures
        ({
            let outcome = poll_outcome(
                cached,
                true,
                all_cores_halted,
                core_id,
                Observation { status: Ok(observed), program_counter },
            );
            &&& outcome.sent == seq![
                MessageView::Continued { all_threads_continued: true, thread_id: core_id },
            ]
            &&& outcome.status == observed
            &&& outcome.result == Ok::<CoreStatus, DebuggerError>(observed)
        }),
{
}

/// A core that is seen halted, and was not remembered in that very status,
/// is announced with exactly one `stopped` event, unless it was remembered
/// as halted after a step: then nothing is announced. The halt is
/// remembered either way.
pub proof fn lemma_halt_announced(
    cached: CoreStatus,
    all_cores_halted: bool,
    core_id: usize,
    observed: CoreStatus,
    program_counter: Option<u64>,
)
    requires
        observed is Halted,
        observed != cached,
    ensures
        ({
            let outcome = poll_outcome(
                cached,
                true,
                all_cores_halted,
                core_id,
                Observation { status: Ok(observed), program_counter },
            );
            &&& cached != CoreStatus::Halted(HaltReason::Step) ==> outcome.sent == seq![
                MessageView::Stopped {
                    reason: observed.short_status(),
                    description: observed.long_status(program_counter),
                    thread_id: core_id,
                    preserve_focus_hint: false,
                    all_threads_stopped: all_cores_halted,
                },
            ]
            &&& cached == CoreStatus::Halted(HaltReason::Step) ==> outcome.sent == Seq::<
                MessageView,
            >::empty()
            &&& outcome.status == observed
            &&& outcome.result == Ok::<CoreStatus, DebuggerError>(observed)
        }),
{
}

/// A core that is seen locked up or in no known status, and was not
/// remembered so, fails the poll, and the status seen is remembered.
pub proof fn lemma_dead_core_fails(
    cached: CoreStatus,
    all_cores_halted: bool,
    core_id: usize,
    observed: CoreStatus,
    program_counter: Option<u64>,
)
    requires
        observed is LockedUp || observed is Unknown,
        observed != cached,
    ensures
        ({
            let outcome = poll_outcome(
                cached,
                true,
                all_cores_halted,
                core_id,
                Observation { status: Ok(observed), program_counter },
            );
            &&& outcome.result is Err
            &&& outcome.result->Err_0.is_fatal()
            &&& outcome.status == observed
            &&& outcome.sent.len() == 1
        }),
{
}

/// A status that cannot be read fails the poll with the probe's error, the
/// client is told nothing, and `Unknown` is remembered.
pub proof fn lemma_unread_status_fails(
    cached: CoreStatus,
    all_cores_halted: bool,
    core_id: usize,
    error: HardwareError,
    program_counter: Option<u64>,
)
    ensures
        ({
            let outcome = poll_outcome(
                cached,
                true,
                all_cores_halted,
                core_id,
                Observation { status: Err(error), program_counter },
            );
            &&& outcome.result == Err::<CoreStatus, DebuggerError>(DebuggerError::Hardware(error))
            &&& outcome.status == CoreStatus::Unknown
            &&& outcome.sent == Seq::<MessageView>::empty()
        }),
{
}

} // verus!
