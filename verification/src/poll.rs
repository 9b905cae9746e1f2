//! Keeping the client's picture of the core in step with the core.
//!
//! The probe pushes nothing: the session polls. A poll reads the status of
//! the core, compares it with the status the client was last told of, tells
//! the client what changed, and remembers the new status.

use vstd::prelude::*;
use crate::error::DebuggerError;
use crate::protocol::{DebugAdapter, MessageSeverity, MessageView, ProtocolMessage};
use crate::session::{CoreData, CoreHandle};
use crate::status::{CoreStatus, HaltReason};
use crate::transaction::{Reply, Step, Transaction};

verus! {

/// How far a poll has come.
#[derive(Clone, Copy, Debug, PartialEq, Eq, Structural)]
pub enum PollCore {
    /// Nothing was asked yet.
    Begin,
    /// The status of the core was asked for.
    Status,
    /// The core was seen halted with this status, and its program counter
    /// was asked for.
    ProgramCounter(CoreStatus),
}

/// Whether the client is told that the core halted, and so where: a halt is
/// news unless the status is the remembered one, or the core was remembered
/// as halted after a step, which the answer to the step request has already
/// told the client.
pub open spec fn announces_halt(cached: CoreStatus, observed: CoreStatus) -> bool {
    observed is Halted && observed != cached && cached != CoreStatus::Halted(HaltReason::Step)
}

/// What the client is told when the core is seen in status `observed` while
/// `cached` is remembered.
pub open spec fn announcement(
    cached: CoreStatus,
    observed: CoreStatus,
    core_id: usize,
    all_cores_halted: bool,
    program_counter: Option<u64>,
) -> Seq<MessageView> {
    if observed == cached {
        Seq::empty()
    } else {
        match observed {
            CoreStatus::Running | CoreStatus::Sleeping => seq![
                MessageView::Continued { all_threads_continued: true, thread_id: core_id },
            ],
            CoreStatus::Halted(_) => if cached == CoreStatus::Halted(HaltReason::Step) {
                Seq::empty()
            } else {
                seq![
                    MessageView::Stopped {
                        reason: observed.short_status(),
                        description: observed.long_status(program_counter),
                        thread_id: core_id,
                        preserve_focus_hint: false,
                        all_threads_stopped: all_cores_halted,
                    },
                ]
            },
            CoreStatus::LockedUp => seq![
                MessageView::ShowMessage {
                    severity: MessageSeverity::Error,
                    message: observed.long_status(None),
                },
            ],
            CoreStatus::Unknown => seq![
                MessageView::ErrorResponse { error: DebuggerError::UnknownStatus },
            ],
        }
    }
}

/// How a poll ends when the core is seen in status `observed` while `cached`
/// is remembered: a change to locked up or unknown is a failure, anything
/// else is the status seen.
pub open spec fn verdict(cached: CoreStatus, observed: CoreStatus) -> Result<
    CoreStatus,
    DebuggerError,
> {
    if observed == cached {
        Ok(observed)
    } else {
        match observed {
            CoreStatus::LockedUp => Err(DebuggerError::LockedUp),
            CoreStatus::Unknown => Err(DebuggerError::UnknownStatus),
            _ => Ok(observed),
        }
    }
}

/// What one call of a poll does.
pub struct PollEffect {
    /// The status remembered after the call.
    pub status: CoreStatus,
    /// The messages queued by the call.
    pub sent: Seq<MessageView>,
    pub step: Step<PollCore, Result<CoreStatus, DebuggerError>>,
}

/// The effect of seeing the core in status `observed`.
pub open spec fn observed_effect(
    cached: CoreStatus,
    observed: CoreStatus,
    core_id: usize,
    all_cores_halted: bool,
    program_counter: Option<u64>,
) -> PollEffect {
    PollEffect {
        status: observed,
        sent: announcement(cached, observed, core_id, all_cores_halted, program_counter),
        step: Step::Finished(verdict(cached, observed)),
    }
}

/// One call of a poll, from what is remembered and what the call is given.
pub open spec fn poll_step(
    cached: CoreStatus,
    configuration_done: bool,
    all_cores_halted: bool,
    core_id: usize,
    progress: PollCore,
    reply: Option<Reply>,
) -> PollEffect {
    let nothing = Seq::<MessageView>::empty();
    match progress {
        PollCore::Begin => if configuration_done {
            PollEffect {
                status: cached,
                sent: nothing,
                step: Step::Perform(PollCore::Status, Transaction::ReadStatus),
            }
        } else {
            PollEffect {
                status: cached,
                sent: nothing,
                step: Step::Finished(Ok(CoreStatus::Unknown)),
            }
        },
        PollCore::Status => match reply {
            Some(Reply::Status(Err(error))) => PollEffect {
                status: CoreStatus::Unknown,
                sent: nothing,
                step: Step::Finished(Err(DebuggerError::Hardware(error))),
            },
            Some(Reply::Status(Ok(observed))) => if announces_halt(cached, observed) {
                PollEffect {
                    status: cached,
                    sent: nothing,
                    step: Step::Perform(
                        PollCore::ProgramCounter(observed),
                        Transaction::ReadProgramCounter,
                    ),
                }
            } else {
                observed_effect(cached, observed, core_id, all_cores_halted, None)
            },
            _ => PollEffect {
                status: cached,
                sent: nothing,
                step: Step::Perform(PollCore::Status, Transaction::ReadStatus),
            },
        },
        PollCore::ProgramCounter(observed) => match reply {
            Some(Reply::ProgramCounter(program_counter)) => observed_effect(
                cached,
                observed,
                core_id,
                all_cores_halted,
                program_counter,
            ),
            _ => PollEffect {
                status: cached,
                sent: nothing,
                step: Step::Perform(
                    PollCore::ProgramCounter(observed),
                    Transaction::ReadProgramCounter,
                ),
            },
        },
    }
}

impl CoreHandle {
    /// Takes note that the core was seen in status `observed`, with the
    /// program counter at `program_counter` where it was read: tells the
    /// client what changed, remembers the status, and says how the poll ends.
    pub fn status_observed(
        &mut self,
        debug_adapter: &mut DebugAdapter,
        observed: CoreStatus,
        program_counter: Option<u64>,
    ) -> (result: Result<CoreStatus, DebuggerError>)
        ensures
            result == verdict(old(self).core_data.last_known_status, observed),
            *final(self) == (CoreHandle {
                core_data: CoreData { last_known_status: observed, ..old(self).core_data },
                ..*old(self)
            }),
            final(debug_adapter).sent() == old(debug_adapter).sent() + announcement(
                old(self).core_data.last_known_status,
                observed,
                old(self).core_id,
                old(debug_adapter).all_cores_halted,
                program_counter,
            ),
            final(debug_adapter).configuration_done == old(debug_adapter).configuration_done,
            final(debug_adapter).all_cores_halted == old(debug_adapter).all_cores_halted,
    {
        let cached = self.core_data.last_known_status;
        self.core_data.last_known_status = observed;
        if observed == cached {
            assert(debug_adapter.sent() =~= old(debug_adapter).sent() + Seq::<
                MessageView,
            >::empty());
            return Ok(observed);
        }
        match observed {
            CoreStatus::Running | CoreStatus::Sleeping => {
                debug_adapter.send(
                    ProtocolMessage::Continued {
                        all_threads_continued: true,
                        thread_id: self.core_id,
                    },
                );
                assert(debug_adapter.sent() =~= old(debug_adapter).sent() + announcement(
                    cached,
                    observed,
                    self.core_id,
                    old(debug_adapter).all_cores_halted,
                    program_counter,
                ));
                Ok(observed)
            },
            CoreStatus::Halted(_) => {
                if cached != CoreStatus::Halted(HaltReason::Step) {
                    let (reason, description) = observed.short_long_status(program_counter);
                    let all_threads_stopped = debug_adapter.all_cores_halted;
                    debug_adapter.send(
                        ProtocolMessage::Stopped {
                            reason,
                            description,
                            thread_id: self.core_id,
                            preserve_focus_hint: false,
                            text: None,
                            all_threads_stopped,
                            hit_breakpoint_ids: None,
                        },
                    );
                }
                assert(debug_adapter.sent() =~= old(debug_adapter).sent() + announcement(
                    cached,
                    observed,
                    self.core_id,
                    old(debug_adapter).all_cores_halted,
                    program_counter,
                ));
                Ok(observed)
            },
            CoreStatus::LockedUp => {
                let (_, message) = observed.short_long_status(None);
                debug_adapter.send(
                    ProtocolMessage::ShowMessage { severity: MessageSeverity::Error, message },
                );
                assert(debug_adapter.sent() =~= old(debug_adapter).sent() + announcement(
                    cached,
                    observed,
                    self.core_id,
                    old(debug_adapter).all_cores_halted,
                    program_counter,
                ));
                Err(DebuggerError::LockedUp)
            },
            CoreStatus::Unknown => {
                debug_adapter.send(
                    ProtocolMessage::ErrorResponse { error: DebuggerError::UnknownStatus },
                );
                assert(debug_adapter.sent() =~= old(debug_adapter).sent() + announcement(
                    cached,
                    observed,
                    self.core_id,
                    old(debug_adapter).all_cores_halted,
                    program_counter,
                ));
                Err(DebuggerError::UnknownStatus)
            },
        }
    }

    /// Whether seeing the core in status `observed` will be announced as a
    /// halt, so that the place of the halt is wanted.
    pub fn wants_program_counter(&self, observed: CoreStatus) -> (wanted: bool)
        ensures
            wanted == announces_halt(self.core_data.last_known_status, observed),
    {
        observed.is_halted() && observed != self.core_data.last_known_status
            && self.core_data.last_known_status != CoreStatus::Halted(HaltReason::Step)
    }

    /// Polls the core: one call of the poll, with the reply to the
    /// transaction that the call before asked for.
    ///
    /// Before the client has finished its configuration nothing is read and
    /// the poll ends with `Unknown`. Else the status is read. If that fails,
    /// `Unknown` is remembered and the poll fails. A status that is news is
    /// announced; a halt is announced with the program counter, which is
    /// read for it. The status read is remembered in every case.
    pub fn poll_core(
        &mut self,
        debug_adapter: &mut DebugAdapter,
        progress: PollCore,
        reply: Option<Reply>,
    ) -> (step: Step<PollCore, Result<CoreStatus, DebuggerError>>)
        ensures
            ({
                let effect = poll_step(
                    old(self).core_data.last_known_status,
                    old(debug_adapter).configuration_done,
                    old(debug_adapter).all_cores_halted,
                    old(self).core_id,
                    progress,
                    reply,
                );
                &&& step == effect.step
                &&& *final(self) == (CoreHandle {
                    core_data: CoreData { last_known_status: effect.status, ..old(self).core_data },
                    ..*old(self)
                })
                &&& final(debug_adapter).sent() == old(debug_adapter).sent() + effect.sent
            }),
            final(debug_adapter).configuration_done == old(debug_adapter).configuration_done,
            final(debug_adapter).all_cores_halted == old(debug_adapter).all_cores_halted,
    {
        proof {
            assert(debug_adapter.sent() =~= debug_adapter.sent() + Seq::<MessageView>::empty());
        }
        match progress {
            PollCore::Begin => {
                if debug_adapter.configuration_is_done() {
                    Step::Perform(PollCore::Status, Transaction::ReadStatus)
                } else {
                    Step::Finished(Ok(CoreStatus::Unknown))
                }
            },
            PollCore::Status => match reply {
                Some(Reply::Status(Err(error))) => {
                    self.core_data.last_known_status = CoreStatus::Unknown;
                    Step::Finished(Err(DebuggerError::Hardware(error)))
                },
                Some(Reply::Status(Ok(observed))) => {
                    if self.wants_program_counter(observed) {
                        Step::Perform(
                            PollCore::ProgramCounter(observed),
                            Transaction::ReadProgramCounter,
                        )
                    } else {
                        Step::Finished(self.status_observed(debug_adapter, observed, None))
                    }
                },
                _ => Step::Perform(PollCore::Status, Transaction::ReadStatus),
            },
            PollCore::ProgramCounter(observed) => match reply {
                Some(Reply::ProgramCounter(program_counter)) => Step::Finished(
                    self.status_observed(debug_adapter, observed, program_counter),
                ),
                _ => Step::Perform(
                    PollCore::ProgramCounter(observed),
                    Transaction::ReadProgramCounter,
                ),
            },
        }
    }
}

} // verus!
