use debugger_core::error::{DebuggerError, HardwareError};
use debugger_core::poll::PollCore;
use debugger_core::protocol::{DebugAdapter, MessageSeverity, ProtocolMessage};
use debugger_core::session::{CoreData, CoreHandle};
use debugger_core::status::{BreakpointCause, CoreStatus, HaltReason};
use debugger_core::transaction::{Reply, Step, Transaction};

fn handle_with(status: CoreStatus) -> CoreHandle {
    let mut core_data = CoreData::new(3, String::from("nrf52840"));
    core_data.last_known_status = status;
    CoreHandle::new(3, core_data)
}

fn configured(all_cores_halted: bool) -> DebugAdapter {
    let mut adapter = DebugAdapter::new();
    adapter.configuration_done = true;
    adapter.all_cores_halted = all_cores_halted;
    adapter
}

/// Drives a poll against a core that reads `status` and `program_counter`.
fn poll(
    handle: &mut CoreHandle,
    adapter: &mut DebugAdapter,
    status: Result<CoreStatus, String>,
    program_counter: Option<u64>,
) -> (Result<CoreStatus, DebuggerError>, Vec<Transaction>) {
    let mut asked = Vec::new();
    let mut step = handle.poll_core(adapter, PollCore::Begin, None);
    loop {
        match step {
            Step::Finished(result) => return (result, asked),
            Step::Perform(progress, transaction) => {
                let reply = match transaction {
                    Transaction::ReadStatus => Reply::Status(
                        status.clone().map_err(|message| HardwareError { message }),
                    ),
                    Transaction::ReadProgramCounter => Reply::ProgramCounter(program_counter),
                    _ => panic!("a poll asked for {:?}", transaction),
                };
                asked.push(transaction);
                step = handle.poll_core(adapter, progress, Some(reply));
            }
        }
    }
}

#[test]
fn halt_on_breakpoint_is_announced_with_the_program_counter() {
    let mut handle = handle_with(CoreStatus::Running);
    let mut adapter = configured(true);
    let halted = CoreStatus::Halted(HaltReason::Breakpoint(BreakpointCause::Hardware));
    let (result, asked) = poll(&mut handle, &mut adapter, Ok(halted), Some(0x0800_0120));
    assert_eq!(result, Ok(halted));
    assert_eq!(asked, vec![Transaction::ReadStatus, Transaction::ReadProgramCounter]);
    assert_eq!(
        adapter.outbox,
        vec![ProtocolMessage::Stopped {
            reason: String::from("breakpoint"),
            description: String::from("Halted on breakpoint (Hardware) @0x08000120."),
            thread_id: 3,
            preserve_focus_hint: false,
            text: None,
            all_threads_stopped: true,
            hit_breakpoint_ids: None,
        }]
    );
    assert_eq!(handle.core_data.last_known_status, halted);
}

#[test]
fn poll_before_configuration_reads_nothing() {
    let mut handle = handle_with(CoreStatus::Running);
    let mut adapter = DebugAdapter::new();
    let (result, asked) = poll(&mut handle, &mut adapter, Ok(CoreStatus::Sleeping), None);
    assert_eq!(result, Ok(CoreStatus::Unknown));
    assert!(asked.is_empty());
    assert!(adapter.outbox.is_empty());
    assert_eq!(handle.core_data.last_known_status, CoreStatus::Running);
}

#[test]
fn locked_up_core_fails_the_poll() {
    let mut handle = handle_with(CoreStatus::Running);
    let mut adapter = configured(false);
    let (result, asked) = poll(&mut handle, &mut adapter, Ok(CoreStatus::LockedUp), None);
    assert_eq!(result, Err(DebuggerError::LockedUp));
    assert_eq!(asked, vec![Transaction::ReadStatus]);
    assert_eq!(
        adapter.outbox,
        vec![ProtocolMessage::ShowMessage {
            severity: MessageSeverity::Error,
            message: String::from(
                "Core is in LOCKUP status - encountered an unrecoverable exception"
            ),
        }]
    );
    assert_eq!(handle.core_data.last_known_status, CoreStatus::LockedUp);
}

#[test]
fn second_poll_of_an_unchanged_core_is_silent() {
    let statuses = [
        CoreStatus::Running,
        CoreStatus::Sleeping,
        CoreStatus::Halted(HaltReason::Exception),
        CoreStatus::Halted(HaltReason::Step),
        CoreStatus::LockedUp,
        CoreStatus::Unknown,
    ];
    for status in statuses {
        let mut handle = handle_with(CoreStatus::Halted(HaltReason::Request));
        let mut adapter = configured(true);
        let _ = poll(&mut handle, &mut adapter, Ok(status), Some(0x2000_0000));
        let remembered = handle.core_data.last_known_status;
        let queued = adapter.outbox.len();
        let (second, _) = poll(&mut handle, &mut adapter, Ok(status), Some(0x2000_0000));
        assert_eq!(second, Ok(status));
        assert_eq!(adapter.outbox.len(), queued);
        assert_eq!(handle.core_data.last_known_status, remembered);
    }
}

#[test]
fn second_poll_of_an_unreadable_core_is_silent() {
    let mut handle = handle_with(CoreStatus::Running);
    let mut adapter = configured(true);
    let (first, _) = poll(&mut handle, &mut adapter, Err(String::from("probe unplugged")), None);
    assert_eq!(
        first,
        Err(DebuggerError::Hardware(HardwareError { message: String::from("probe unplugged") }))
    );
    assert_eq!(handle.core_data.last_known_status, CoreStatus::Unknown);
    let (second, _) = poll(&mut handle, &mut adapter, Err(String::from("probe unplugged")), None);
    assert!(second.is_err());
    assert!(adapter.outbox.is_empty());
    assert_eq!(handle.core_data.last_known_status, CoreStatus::Unknown);
}

#[test]
fn resumed_core_is_announced_once() {
    for status in [CoreStatus::Running, CoreStatus::Sleeping] {
        let mut handle = handle_with(CoreStatus::Halted(HaltReason::Breakpoint(
            BreakpointCause::Software,
        )));
        let mut adapter = configured(true);
        let (result, asked) = poll(&mut handle, &mut adapter, Ok(status), Some(4));
        assert_eq!(result, Ok(status));
        assert_eq!(asked, vec![Transaction::ReadStatus]);
        assert_eq!(
            adapter.outbox,
            vec![ProtocolMessage::Continued { all_threads_continued: true, thread_id: 3 }]
        );
        assert_eq!(handle.core_data.last_known_status, status);
    }
}

#[test]
fn halt_after_step_is_not_announced_again() {
    let mut handle = handle_with(CoreStatus::Halted(HaltReason::Step));
    let mut adapter = configured(true);
    let halted = CoreStatus::Halted(HaltReason::Breakpoint(BreakpointCause::Unknown));
    let (result, asked) = poll(&mut handle, &mut adapter, Ok(halted), Some(0x100));
    assert_eq!(result, Ok(halted));
    assert_eq!(asked, vec![Transaction::ReadStatus]);
    assert!(adapter.outbox.is_empty());
    assert_eq!(handle.core_data.last_known_status, halted);
}

#[test]
fn halt_without_program_counter_is_announced_without_a_place() {
    let mut handle = handle_with(CoreStatus::Running);
    let mut adapter = configured(false);
    let halted = CoreStatus::Halted(HaltReason::Step);
    let (result, _) = poll(&mut handle, &mut adapter, Ok(halted), None);
    assert_eq!(result, Ok(halted));
    assert_eq!(
        adapter.outbox,
        vec![ProtocolMessage::Stopped {
            reason: String::from("step"),
            description: String::from(
                "Halted after a 'step' instruction @(unspecified location)."
            ),
            thread_id: 3,
            preserve_focus_hint: false,
            text: None,
            all_threads_stopped: false,
            hit_breakpoint_ids: None,
        }]
    );
}

#[test]
fn unknown_status_fails_the_poll_with_an_error_response() {
    let mut handle = handle_with(CoreStatus::Sleeping);
    let mut adapter = configured(false);
    let (result, _) = poll(&mut handle, &mut adapter, Ok(CoreStatus::Unknown), None);
    assert_eq!(result, Err(DebuggerError::UnknownStatus));
    assert_eq!(
        adapter.outbox,
        vec![ProtocolMessage::ErrorResponse { error: DebuggerError::UnknownStatus }]
    );
    assert_eq!(handle.core_data.last_known_status, CoreStatus::Unknown);
}

#[test]
fn unanswered_poll_asks_again() {
    let mut handle = handle_with(CoreStatus::Running);
    let mut adapter = configured(false);
    let step = handle.poll_core(&mut adapter, PollCore::Status, Some(Reply::ProgramCounter(None)));
    assert_eq!(step, Step::Perform(PollCore::Status, Transaction::ReadStatus));
    let step = handle.poll_core(&mut adapter, PollCore::Status, None);
    assert_eq!(step, Step::Perform(PollCore::Status, Transaction::ReadStatus));
    assert!(adapter.outbox.is_empty());
    assert_eq!(handle.core_data.last_known_status, CoreStatus::Running);
}

#[test]
fn presumed_running_is_not_announced() {
    let mut handle = handle_with(CoreStatus::Halted(HaltReason::Request));
    let mut adapter = configured(true);
    handle.reset_core_status(&mut adapter);
    assert_eq!(handle.core_data.last_known_status, CoreStatus::Running);
    assert!(!adapter.all_cores_halted);
    assert!(adapter.configuration_done);
    assert!(adapter.outbox.is_empty());
    let halted = CoreStatus::Halted(HaltReason::Step);
    let (result, _) = poll(&mut handle, &mut adapter, Ok(halted), Some(0x0800_0004));
    assert_eq!(result, Ok(halted));
    assert_eq!(adapter.outbox.len(), 1);
}

#[test]
fn every_status_has_its_description() {
    let place = Some(0x0800_0120_u64);
    let cases = [
        (CoreStatus::Running, "continued", "Core is running"),
        (CoreStatus::Sleeping, "sleeping", "Core is in SLEEP mode"),
        (
            CoreStatus::LockedUp,
            "lockedup",
            "Core is in LOCKUP status - encountered an unrecoverable exception",
        ),
        (CoreStatus::Unknown, "unknown", "Core status cannot be determined"),
        (
            CoreStatus::Halted(HaltReason::Breakpoint(BreakpointCause::Software)),
            "breakpoint",
            "Halted on breakpoint (Software) @0x08000120.",
        ),
        (
            CoreStatus::Halted(HaltReason::Breakpoint(BreakpointCause::Unknown)),
            "breakpoint",
            "Halted on breakpoint (Unknown) @0x08000120.",
        ),
        (
            CoreStatus::Halted(HaltReason::Exception),
            "exception",
            "Core halted due to an exception, e.g. interrupt handler",
        ),
        (
            CoreStatus::Halted(HaltReason::Watchpoint),
            "data breakpoint",
            "Core halted due to a watchpoint or data breakpoint",
        ),
        (
            CoreStatus::Halted(HaltReason::Step),
            "step",
            "Halted after a 'step' instruction @0x08000120.",
        ),
        (
            CoreStatus::Halted(HaltReason::Multiple),
            "breakpoint",
            "Core halted due to multiple reasons",
        ),
        (
            CoreStatus::Halted(HaltReason::External),
            "breakpoint",
            "Core halted due to an external request",
        ),
        (
            CoreStatus::Halted(HaltReason::Request),
            "pause",
            "Core halted due to a user (debugger client) request",
        ),
        (
            CoreStatus::Halted(HaltReason::Unknown),
            "unrecognized",
            "Core halted with unknown reason",
        ),
    ];
    for (status, short, long) in cases {
        let (reason, description) = status.short_long_status(place);
        assert_eq!(reason, short);
        assert_eq!(description, long);
    }
    assert!(CoreStatus::Halted(HaltReason::Multiple).is_halted());
    assert!(!CoreStatus::LockedUp.is_halted());
}

#[test]
fn fatal_errors_are_those_of_the_hardware_and_the_status() {
    assert!(DebuggerError::Hardware(HardwareError { message: String::new() }).is_fatal());
    assert!(DebuggerError::LockedUp.is_fatal());
    assert!(DebuggerError::UnknownStatus.is_fatal());
    assert!(!DebuggerError::LocationUnresolved { reason: String::new() }.is_fatal());
    assert!(!DebuggerError::SourcePathUnavailable.is_fatal());
}
