use debugger_core::breakpoint::{ActiveBreakpoint, BreakpointType};
use debugger_core::clear_all::ClearBreakpoints;
use debugger_core::error::{DebuggerError, HardwareError};
use debugger_core::manager::{ClearBreakpoint, SetBreakpoint};
use debugger_core::recompute::Recompute;
use debugger_core::session::{CoreData, CoreHandle};
use debugger_core::source::{
    ColumnType, ResolveError, Source, SourceLocation, VerifiedBreakpoint,
};
use debugger_core::transaction::{Reply, Step, Transaction};
use debugger_core::verify_set::VerifyAndSet;

fn handle() -> CoreHandle {
    CoreHandle::new(0, CoreData::new(0, String::from("stm32f407")))
}

fn source(name: &str) -> Source {
    Source { name: Some(String::from(name)), path: Some(format!("/work/src/{name}")) }
}

fn location(file: &str, line: u64, column: Option<ColumnType>) -> SourceLocation {
    SourceLocation {
        line: Some(line),
        column,
        file: Some(String::from(file)),
        directory: Some(String::from("/work/src")),
        low_pc: None,
        high_pc: None,
    }
}

fn source_breakpoint(file: &str, line: u64, address: u64) -> ActiveBreakpoint {
    ActiveBreakpoint {
        breakpoint_type: BreakpointType::SourceBreakpoint(source(file), location(file, line, None)),
        address,
    }
}

fn instruction_breakpoint(address: u64) -> ActiveBreakpoint {
    ActiveBreakpoint { breakpoint_type: BreakpointType::InstructionBreakpoint, address }
}

fn failure(message: &str) -> HardwareError {
    HardwareError { message: String::from(message) }
}

fn addresses(handle: &CoreHandle) -> Vec<u64> {
    handle.core_data.breakpoints.iter().map(|breakpoint| breakpoint.address).collect()
}

#[test]
fn set_asks_the_probe_and_then_records() {
    let mut handle = handle();
    let progress = SetBreakpoint {
        address: 0x0800_0100,
        breakpoint_type: BreakpointType::InstructionBreakpoint,
    };
    let step = handle.set_breakpoint(progress, None);
    assert!(handle.core_data.breakpoints.is_empty());
    let Step::Perform(progress, transaction) = step else { panic!("ended early") };
    assert_eq!(transaction, Transaction::SetHwBreakpoint { address: 0x0800_0100 });
    let step = handle.set_breakpoint(progress, Some(Reply::HwBreakpointSet(Ok(()))));
    assert_eq!(step, Step::Finished(Ok(())));
    assert_eq!(handle.core_data.breakpoints, vec![instruction_breakpoint(0x0800_0100)]);
}

#[test]
fn set_records_nothing_when_the_probe_fails() {
    let mut handle = handle();
    handle.core_data.breakpoints.push(instruction_breakpoint(0x10));
    let result = handle.hw_breakpoint_set(
        0x20,
        BreakpointType::InstructionBreakpoint,
        Err(failure("no free comparator")),
    );
    assert_eq!(result, Err(DebuggerError::Hardware(failure("no free comparator"))));
    assert_eq!(addresses(&handle), vec![0x10]);
}

#[test]
fn set_does_not_look_for_the_address_in_the_record() {
    let mut handle = handle();
    handle.core_data.breakpoints.push(instruction_breakpoint(0x10));
    let result = handle.hw_breakpoint_set(0x10, source_breakpoint("a.c", 1, 0).breakpoint_type, Ok(()));
    assert_eq!(result, Ok(()));
    assert_eq!(
        handle.core_data.breakpoints,
        vec![instruction_breakpoint(0x10), source_breakpoint("a.c", 1, 0x10)]
    );
}

#[test]
fn set_then_clear_restores_the_record() {
    let mut handle = handle();
    handle.core_data.breakpoints.push(source_breakpoint("main.c", 7, 0x0800_0010));
    let before = addresses(&handle);
    let setting = SetBreakpoint {
        address: 0x0800_0100,
        breakpoint_type: BreakpointType::InstructionBreakpoint,
    };
    let Step::Perform(setting, set) = handle.set_breakpoint(setting, None) else {
        panic!("ended early")
    };
    assert_eq!(
        handle.set_breakpoint(setting, Some(Reply::HwBreakpointSet(Ok(())))),
        Step::Finished(Ok(()))
    );
    assert_eq!(addresses(&handle), vec![0x0800_0010, 0x0800_0100]);
    let clearing = ClearBreakpoint { address: 0x0800_0100 };
    let Step::Perform(clearing, cleared) = handle.clear_breakpoint(clearing, None) else {
        panic!("ended early")
    };
    assert_eq!(
        handle.clear_breakpoint(clearing, Some(Reply::HwBreakpointCleared(Ok(())))),
        Step::Finished(Ok(()))
    );
    assert_eq!(set, Transaction::SetHwBreakpoint { address: 0x0800_0100 });
    assert_eq!(cleared, Transaction::ClearHwBreakpoint { address: 0x0800_0100 });
    assert_eq!(addresses(&handle), before);
}

#[test]
fn clear_strikes_the_first_match_only() {
    let mut handle = handle();
    handle.core_data.breakpoints = vec![
        instruction_breakpoint(0x30),
        source_breakpoint("a.c", 1, 0x10),
        instruction_breakpoint(0x10),
        source_breakpoint("b.c", 2, 0x20),
    ];
    assert_eq!(handle.hw_breakpoint_cleared(0x10, Ok(())), Ok(()));
    assert_eq!(
        handle.core_data.breakpoints,
        vec![
            instruction_breakpoint(0x30),
            instruction_breakpoint(0x10),
            source_breakpoint("b.c", 2, 0x20)
        ]
    );
}

#[test]
fn clear_of_an_unrecorded_address_is_no_failure() {
    let mut handle = handle();
    handle.core_data.breakpoints = vec![instruction_breakpoint(0x30)];
    assert_eq!(handle.hw_breakpoint_cleared(0x10, Ok(())), Ok(()));
    assert_eq!(addresses(&handle), vec![0x30]);
}

#[test]
fn clear_keeps_the_record_when_the_probe_fails() {
    let mut handle = handle();
    handle.core_data.breakpoints = vec![instruction_breakpoint(0x30)];
    let step = handle.clear_breakpoint(
        ClearBreakpoint { address: 0x30 },
        Some(Reply::HwBreakpointCleared(Err(failure("timeout")))),
    );
    assert_eq!(step, Step::Finished(Err(DebuggerError::Hardware(failure("timeout")))));
    assert_eq!(addresses(&handle), vec![0x30]);
}

/// Drives the clearing of the selected breakpoints against a probe that
/// fails at the addresses in `failing`.
fn clear_all(
    handle: &mut CoreHandle,
    filter: Option<BreakpointType>,
    failing: &[u64],
) -> (Result<(), DebuggerError>, Vec<u64>) {
    let mut asked = Vec::new();
    let mut step = handle.clear_breakpoints(ClearBreakpoints::Begin(filter), None);
    loop {
        match step {
            Step::Finished(result) => return (result, asked),
            Step::Perform(progress, Transaction::ClearHwBreakpoint { address }) => {
                asked.push(address);
                let outcome =
                    if failing.contains(&address) { Err(failure("clear failed")) } else { Ok(()) };
                step = handle.clear_breakpoints(progress, Some(Reply::HwBreakpointCleared(outcome)));
            }
            Step::Perform(_, other) => panic!("clearing asked for {:?}", other),
        }
    }
}

#[test]
fn clear_all_without_filter_takes_source_breakpoints_only() {
    let mut handle = handle();
    handle.core_data.breakpoints = vec![
        source_breakpoint("a.c", 1, 0x10),
        instruction_breakpoint(0x20),
        source_breakpoint("b.c", 2, 0x30),
        instruction_breakpoint(0x40),
    ];
    let (result, asked) = clear_all(&mut handle, None, &[]);
    assert_eq!(result, Ok(()));
    assert_eq!(asked, vec![0x10, 0x30]);
    assert_eq!(
        handle.core_data.breakpoints,
        vec![instruction_breakpoint(0x20), instruction_breakpoint(0x40)]
    );
}

#[test]
fn clear_all_with_filter_takes_that_kind_only() {
    let mut handle = handle();
    handle.core_data.breakpoints = vec![
        source_breakpoint("a.c", 1, 0x10),
        instruction_breakpoint(0x20),
        source_breakpoint("b.c", 2, 0x30),
        instruction_breakpoint(0x40),
    ];
    let (result, asked) =
        clear_all(&mut handle, Some(BreakpointType::InstructionBreakpoint), &[]);
    assert_eq!(result, Ok(()));
    assert_eq!(asked, vec![0x20, 0x40]);
    assert_eq!(addresses(&handle), vec![0x10, 0x30]);
    let (result, asked) =
        clear_all(&mut handle, Some(source_breakpoint("b.c", 2, 0).breakpoint_type), &[]);
    assert_eq!(result, Ok(()));
    assert_eq!(asked, vec![0x30]);
    assert_eq!(addresses(&handle), vec![0x10]);
}

#[test]
fn clear_all_stops_at_the_first_failure() {
    let mut handle = handle();
    handle.core_data.breakpoints = vec![
        source_breakpoint("a.c", 1, 0x10),
        source_breakpoint("b.c", 2, 0x30),
        source_breakpoint("c.c", 3, 0x50),
    ];
    let (result, asked) = clear_all(&mut handle, None, &[0x30]);
    assert_eq!(result, Err(DebuggerError::Hardware(failure("clear failed"))));
    assert_eq!(asked, vec![0x10, 0x30]);
    assert_eq!(addresses(&handle), vec![0x30, 0x50]);
}

#[test]
fn clear_all_of_nothing_asks_nothing() {
    let mut handle = handle();
    handle.core_data.breakpoints = vec![instruction_breakpoint(0x20)];
    let (result, asked) = clear_all(&mut handle, None, &[]);
    assert_eq!(result, Ok(()));
    assert!(asked.is_empty());
    assert_eq!(addresses(&handle), vec![0x20]);
}

#[test]
fn verify_and_set_records_the_place_found() {
    let mut handle = handle();
    let progress = VerifyAndSet::new(String::from("/work/src/main.c"), 42, Some(5), source("main.c"));
    let Step::Perform(progress, asked) = handle.verify_and_set_breakpoint(progress, None) else {
        panic!("ended early")
    };
    assert_eq!(
        asked,
        Transaction::ResolveLocation {
            directory: None,
            file: String::from("/work/src/main.c"),
            line: 42,
            column: Some(5),
        }
    );
    let found = VerifiedBreakpoint {
        address: 0x0800_0100,
        source_location: location("main.c", 43, Some(ColumnType::LeftEdge)),
    };
    let Step::Perform(progress, asked) =
        handle.verify_and_set_breakpoint(progress, Some(Reply::LocationResolved(Ok(found))))
    else {
        panic!("ended early")
    };
    assert_eq!(asked, Transaction::SetHwBreakpoint { address: 0x0800_0100 });
    assert!(handle.core_data.breakpoints.is_empty());
    let step = handle.verify_and_set_breakpoint(progress, Some(Reply::HwBreakpointSet(Ok(()))));
    assert_eq!(
        step,
        Step::Finished(Ok(VerifiedBreakpoint {
            address: 0x0800_0100,
            source_location: location("main.c", 43, Some(ColumnType::LeftEdge)),
        }))
    );
    assert_eq!(
        handle.core_data.breakpoints,
        vec![ActiveBreakpoint {
            breakpoint_type: BreakpointType::SourceBreakpoint(
                source("main.c"),
                location("main.c", 43, Some(ColumnType::LeftEdge))
            ),
            address: 0x0800_0100,
        }]
    );
}

#[test]
fn verify_and_set_reports_an_unresolved_place() {
    let mut handle = handle();
    let progress = VerifyAndSet::new(String::from("/work/src/main.c"), 9000, None, source("main.c"));
    let step = handle.verify_and_set_breakpoint(
        progress,
        Some(Reply::LocationResolved(Err(ResolveError::Unresolved(String::from("no line 9000"))))),
    );
    assert_eq!(
        step,
        Step::Finished(Err(DebuggerError::LocationUnresolved {
            reason: String::from("no line 9000")
        }))
    );
    assert!(handle.core_data.breakpoints.is_empty());
}

#[test]
fn verify_and_set_hands_on_a_failure_of_the_probe() {
    let mut handle = handle();
    let progress = VerifyAndSet::Install {
        breakpoint: VerifiedBreakpoint {
            address: 0x40,
            source_location: location("main.c", 1, None),
        },
        source: source("main.c"),
    };
    let step = handle.verify_and_set_breakpoint(
        progress,
        Some(Reply::HwBreakpointSet(Err(failure("no free comparator")))),
    );
    assert_eq!(step, Step::Finished(Err(DebuggerError::Hardware(failure("no free comparator")))));
    assert!(handle.core_data.breakpoints.is_empty());
}

/// Drives a recomputation against a probe that never fails and a resolver
/// that knows the lines in `lines` of main.c.
fn recompute(
    handle: &mut CoreHandle,
    lines: &[(u64, u64)],
) -> (Result<(), DebuggerError>, Vec<Transaction>) {
    let mut asked = Vec::new();
    let mut step = handle.recompute_breakpoints(Recompute::Begin, None);
    loop {
        match step {
            Step::Finished(result) => return (result, asked),
            Step::Perform(progress, transaction) => {
                let reply = match &transaction {
                    Transaction::ClearHwBreakpoint { .. } => Reply::HwBreakpointCleared(Ok(())),
                    Transaction::SetHwBreakpoint { .. } => Reply::HwBreakpointSet(Ok(())),
                    Transaction::ResolveLocation { file, line, .. } => Reply::LocationResolved(
                        match lines.iter().find(|(known, _)| known == line) {
                            Some((_, address)) => Ok(VerifiedBreakpoint {
                                address: *address,
                                source_location: location(file, *line, None),
                            }),
                            None => Err(ResolveError::Unresolved(format!("no code at line {line}"))),
                        },
                    ),
                    other => panic!("recomputing asked for {:?}", other),
                };
                asked.push(transaction);
                step = handle.recompute_breakpoints(progress, Some(reply));
            }
        }
    }
}

fn resolve(file: &str, line: u64, column: Option<u64>) -> Transaction {
    Transaction::ResolveLocation {
        directory: Some(String::from("/work/src")),
        file: String::from(file),
        line,
        column,
    }
}

#[test]
fn recompute_moves_a_breakpoint_to_its_new_address() {
    let mut handle = handle();
    handle.core_data.breakpoints = vec![source_breakpoint("main.c", 42, 0x0800_0100)];
    let (result, asked) = recompute(&mut handle, &[(42, 0x0800_0108)]);
    assert_eq!(result, Ok(()));
    assert_eq!(
        asked,
        vec![
            Transaction::ClearHwBreakpoint { address: 0x0800_0100 },
            resolve("main.c", 42, None),
            Transaction::SetHwBreakpoint { address: 0x0800_0108 },
        ]
    );
    assert_eq!(handle.core_data.breakpoints, vec![source_breakpoint("main.c", 42, 0x0800_0108)]);
}

#[test]
fn recompute_stops_at_the_unresolvable_breakpoint() {
    let mut handle = handle();
    handle.core_data.breakpoints = vec![
        source_breakpoint("main.c", 10, 0x100),
        instruction_breakpoint(0x180),
        source_breakpoint("main.c", 20, 0x200),
        source_breakpoint("main.c", 30, 0x300),
    ];
    let (result, asked) = recompute(&mut handle, &[(10, 0x110), (30, 0x310)]);
    assert_eq!(
        result,
        Err(DebuggerError::RecomputeFailed {
            location: location("main.c", 20, None),
            source: source("main.c"),
            cause: Box::new(DebuggerError::LocationUnresolved {
                reason: String::from("no code at line 20")
            }),
        })
    );
    assert_eq!(
        asked,
        vec![
            Transaction::ClearHwBreakpoint { address: 0x100 },
            resolve("main.c", 10, None),
            Transaction::SetHwBreakpoint { address: 0x110 },
            Transaction::ClearHwBreakpoint { address: 0x200 },
            resolve("main.c", 20, None),
        ]
    );
    assert_eq!(
        handle.core_data.breakpoints,
        vec![
            instruction_breakpoint(0x180),
            source_breakpoint("main.c", 30, 0x300),
            source_breakpoint("main.c", 10, 0x110),
        ]
    );
}

#[test]
fn recompute_asks_for_the_left_edge_as_column_zero() {
    let mut handle = handle();
    handle.core_data.breakpoints = vec![
        ActiveBreakpoint {
            breakpoint_type: BreakpointType::SourceBreakpoint(
                source("main.c"),
                location("main.c", 5, Some(ColumnType::LeftEdge)),
            ),
            address: 0x50,
        },
        ActiveBreakpoint {
            breakpoint_type: BreakpointType::SourceBreakpoint(
                source("main.c"),
                SourceLocation { line: None, ..location("main.c", 0, Some(ColumnType::Column(9))) },
            ),
            address: 0x60,
        },
    ];
    let (result, asked) = recompute(&mut handle, &[(5, 0x54), (0, 0x64)]);
    assert_eq!(result, Ok(()));
    assert_eq!(asked[1], resolve("main.c", 5, Some(0)));
    assert_eq!(asked[4], resolve("main.c", 0, Some(9)));
    assert_eq!(addresses(&handle), vec![0x54, 0x64]);
}

#[test]
fn recompute_fails_without_a_source_path() {
    let mut handle = handle();
    let nowhere = SourceLocation { directory: None, ..location("main.c", 5, None) };
    handle.core_data.breakpoints = vec![ActiveBreakpoint {
        breakpoint_type: BreakpointType::SourceBreakpoint(source("main.c"), nowhere.clone()),
        address: 0x50,
    }];
    let (result, asked) = recompute(&mut handle, &[(5, 0x54)]);
    assert_eq!(
        result,
        Err(DebuggerError::RecomputeFailed {
            location: nowhere,
            source: source("main.c"),
            cause: Box::new(DebuggerError::SourcePathUnavailable),
        })
    );
    assert_eq!(asked, vec![Transaction::ClearHwBreakpoint { address: 0x50 }]);
    assert!(handle.core_data.breakpoints.is_empty());
}

#[test]
fn recompute_hands_on_a_failure_to_clear() {
    let mut handle = handle();
    handle.core_data.breakpoints = vec![source_breakpoint("main.c", 10, 0x100)];
    let Step::Perform(progress, _) = handle.recompute_breakpoints(Recompute::Begin, None) else {
        panic!("ended early")
    };
    let step = handle
        .recompute_breakpoints(progress, Some(Reply::HwBreakpointCleared(Err(failure("timeout")))));
    assert_eq!(step, Step::Finished(Err(DebuggerError::Hardware(failure("timeout")))));
    assert_eq!(handle.core_data.breakpoints, vec![source_breakpoint("main.c", 10, 0x100)]);
}

#[test]
fn recompute_leaves_other_breakpoints_alone() {
    let mut handle = handle();
    handle.core_data.breakpoints = vec![instruction_breakpoint(0x20), instruction_breakpoint(0x40)];
    let (result, asked) = recompute(&mut handle, &[]);
    assert_eq!(result, Ok(()));
    assert!(asked.is_empty());
    assert_eq!(addresses(&handle), vec![0x20, 0x40]);
}

#[test]
fn kinds_are_compared_with_their_places() {
    let kind = source_breakpoint("a.c", 1, 0).breakpoint_type;
    assert!(kind.same_as(&source_breakpoint("a.c", 1, 9).breakpoint_type));
    assert!(!kind.same_as(&source_breakpoint("a.c", 2, 0).breakpoint_type));
    assert!(!kind.same_as(&source_breakpoint("b.c", 1, 0).breakpoint_type));
    assert!(!kind.same_as(&BreakpointType::InstructionBreakpoint));
    assert!(kind.is_source());
    assert!(kind.selected_by(&None));
    assert!(!BreakpointType::InstructionBreakpoint.selected_by(&None));
    assert!(BreakpointType::InstructionBreakpoint
        .selected_by(&Some(BreakpointType::InstructionBreakpoint)));
    assert_eq!(kind.clone(), kind);
    assert_eq!(ColumnType::LeftEdge.to_number(), 0);
    assert_eq!(ColumnType::Column(17).to_number(), 17);
}

#[test]
fn errors_have_words_for_the_user() {
    assert_eq!(DebuggerError::Hardware(failure("probe unplugged")).message(), "probe unplugged");
    assert_eq!(
        DebuggerError::LockedUp.message(),
        "Core is in LOCKUP status - encountered an unrecoverable exception"
    );
    assert_eq!(
        DebuggerError::UnknownStatus.message(),
        "Unknown device status received from the probe"
    );
    assert_eq!(
        DebuggerError::LocationUnresolved { reason: String::from("no code at line 20") }.message(),
        "Cannot set breakpoint here. Try reducing compile time-, and link time-, optimization in \
         your build configuration, or choose a different source location: no code at line 20"
    );
    assert_eq!(
        DebuggerError::RecomputeFailed {
            location: location("main.c", 20, None),
            source: source("main.c"),
            cause: Box::new(DebuggerError::LocationUnresolved {
                reason: String::from("gone")
            }),
        }
        .message(),
        "Failed to recompute breakpoint at main.c:20. Error: Cannot set breakpoint here. Try \
         reducing compile time-, and link time-, optimization in your build configuration, or \
         choose a different source location: gone"
    );
    assert_eq!(
        DebuggerError::RecomputeFailed {
            location: SourceLocation { file: None, line: None, ..location("x", 1, None) },
            source: source("main.c"),
            cause: Box::new(DebuggerError::SourcePathUnavailable),
        }
        .message(),
        "Failed to recompute breakpoint at <unknown file>:0. Error: The source location names \
         no directory or no file"
    );
}

#[test]
fn verify_and_set_tells_a_missing_file_from_an_unresolved_place() {
    let mut handle = handle();
    let progress = VerifyAndSet::new(String::from("/work/src/gone.c"), 1, None, source("gone.c"));
    let step = handle.verify_and_set_breakpoint(
        progress,
        Some(Reply::LocationResolved(Err(ResolveError::SourceFileNotFound(String::from(
            "Unable to find source file gone.c",
        ))))),
    );
    let Step::Finished(Err(error)) = step else { panic!("went on") };
    assert_eq!(
        error,
        DebuggerError::SourceFileNotFound {
            reason: String::from("Unable to find source file gone.c")
        }
    );
    assert_eq!(error.message(), "Unable to find source file gone.c");
    assert!(!error.is_fatal());
    assert!(handle.core_data.breakpoints.is_empty());
}

#[test]
fn recompute_hands_on_a_failure_to_set() {
    let mut handle = handle();
    handle.core_data.breakpoints =
        vec![source_breakpoint("main.c", 10, 0x100), source_breakpoint("main.c", 20, 0x200)];
    let mut step = handle.recompute_breakpoints(Recompute::Begin, None);
    let replies = [
        Reply::HwBreakpointCleared(Ok(())),
        Reply::LocationResolved(Ok(VerifiedBreakpoint {
            address: 0x110,
            source_location: location("main.c", 10, None),
        })),
        Reply::HwBreakpointSet(Err(failure("no free comparator"))),
    ];
    for reply in replies {
        let Step::Perform(progress, _) = step else { panic!("ended early") };
        step = handle.recompute_breakpoints(progress, Some(reply));
    }
    let Step::Finished(Err(error)) = step else { panic!("went on") };
    assert_eq!(error, DebuggerError::Hardware(failure("no free comparator")));
    assert!(error.is_fatal());
    assert_eq!(handle.core_data.breakpoints, vec![source_breakpoint("main.c", 20, 0x200)]);
}

#[test]
fn failed_recomputation_is_as_grave_as_its_cause() {
    let wrap = |cause: DebuggerError| DebuggerError::RecomputeFailed {
        location: location("main.c", 20, None),
        source: source("main.c"),
        cause: Box::new(cause),
    };
    assert!(!wrap(DebuggerError::LocationUnresolved { reason: String::new() }).is_fatal());
    assert!(!wrap(DebuggerError::SourcePathUnavailable).is_fatal());
    assert!(wrap(DebuggerError::Hardware(failure("timeout"))).is_fatal());
    assert!(wrap(wrap(DebuggerError::LockedUp)).is_fatal());
}
