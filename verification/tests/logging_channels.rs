use debugger_core::error::{DebuggerError, HardwareError};
use debugger_core::logging::AttachToRtt;
use debugger_core::protocol::{DebugAdapter, ProtocolMessage};
use debugger_core::rtt::{
    region_of, ChannelMode, DataFormat, DebuggerRttChannel, RttChannel, RttConnection, ScanRegion,
};
use debugger_core::session::{CoreData, CoreHandle};
use debugger_core::transaction::{Reply, Step, Transaction};

fn handle() -> CoreHandle {
    CoreHandle::new(0, CoreData::new(0, String::from("nrf52840")))
}

fn channel(up_channel: Option<usize>, name: &str, data_format: DataFormat) -> RttChannel {
    RttChannel { up_channel, channel_name: String::from(name), data_format }
}

fn window(number: usize, name: &str, data_format: DataFormat) -> ProtocolMessage {
    ProtocolMessage::RttWindow {
        channel_number: number,
        channel_name: String::from(name),
        data_format,
    }
}

fn recorded(number: usize) -> DebuggerRttChannel {
    DebuggerRttChannel { channel_number: number, has_client_window: false }
}

/// Drives an attempt to attach against a target with these channels, on
/// which the channels in `stuck` refuse a new mode.
fn attach(
    handle: &mut CoreHandle,
    adapter: &mut DebugAdapter,
    symbol: Result<Option<u64>, String>,
    channels: Result<Vec<RttChannel>, String>,
    stuck: &[usize],
) -> (Result<(), DebuggerError>, Vec<Transaction>) {
    let mut channels = Some(channels);
    let mut asked = Vec::new();
    let mut step = handle.attach_to_rtt(adapter, AttachToRtt::FindControlBlock, None);
    loop {
        match step {
            Step::Finished(result) => return (result, asked),
            Step::Perform(progress, transaction) => {
                let reply = match &transaction {
                    Transaction::FindRttControlBlock => Reply::RttControlBlock(symbol.clone()),
                    Transaction::AttachRtt { .. } => {
                        Reply::RttAttached(channels.take().expect("attached twice"))
                    }
                    Transaction::SetChannelMode { channel_number, .. } => {
                        Reply::ChannelModeSet(if stuck.contains(channel_number) {
                            Err(HardwareError { message: String::from("write failed") })
                        } else {
                            Ok(())
                        })
                    }
                    other => panic!("attaching asked for {:?}", other),
                };
                asked.push(transaction);
                step = handle.attach_to_rtt(adapter, progress, Some(reply));
            }
        }
    }
}

#[test]
fn attach_without_control_block_ends_well_and_changes_nothing() {
    let mut handle = handle();
    let mut adapter = DebugAdapter::new();
    let (result, asked) = attach(&mut handle, &mut adapter, Ok(None), Ok(vec![]), &[]);
    assert_eq!(result, Ok(()));
    assert_eq!(asked, vec![Transaction::FindRttControlBlock]);
    assert!(handle.core_data.rtt_connection.is_none());
    assert!(adapter.outbox.is_empty());
}

#[test]
fn attach_with_unreadable_binary_ends_well_and_changes_nothing() {
    let mut handle = handle();
    handle.core_data.rtt_connection =
        Some(RttConnection { debugger_rtt_channels: vec![recorded(4)] });
    let mut adapter = DebugAdapter::new();
    let (result, _) = attach(
        &mut handle,
        &mut adapter,
        Err(String::from("No such file or directory")),
        Ok(vec![]),
        &[],
    );
    assert_eq!(result, Ok(()));
    assert_eq!(
        handle.core_data.rtt_connection,
        Some(RttConnection { debugger_rtt_channels: vec![recorded(4)] })
    );
    assert!(adapter.outbox.is_empty());
}

#[test]
fn attach_that_is_refused_ends_well_and_changes_nothing() {
    let mut handle = handle();
    let mut adapter = DebugAdapter::new();
    let (result, asked) = attach(
        &mut handle,
        &mut adapter,
        Ok(Some(0x2000_0400)),
        Err(String::from("control block not initialized")),
        &[],
    );
    assert_eq!(result, Ok(()));
    assert_eq!(
        asked,
        vec![
            Transaction::FindRttControlBlock,
            Transaction::AttachRtt { region: ScanRegion::Exact(0x2000_0400) },
        ]
    );
    assert!(handle.core_data.rtt_connection.is_none());
    assert!(adapter.outbox.is_empty());
}

#[test]
fn attach_with_one_defmt_channel_blocks_it_and_records_it() {
    let mut handle = handle();
    let mut adapter = DebugAdapter::new();
    let (result, asked) = attach(
        &mut handle,
        &mut adapter,
        Ok(Some(0x2000_0400)),
        Ok(vec![channel(Some(0), "defmt", DataFormat::Defmt)]),
        &[],
    );
    assert_eq!(result, Ok(()));
    assert_eq!(
        asked,
        vec![
            Transaction::FindRttControlBlock,
            Transaction::AttachRtt { region: ScanRegion::Exact(0x2000_0400) },
            Transaction::SetChannelMode { channel_number: 0, mode: ChannelMode::BlockIfFull },
        ]
    );
    assert_eq!(
        handle.core_data.rtt_connection,
        Some(RttConnection { debugger_rtt_channels: vec![recorded(0)] })
    );
    assert_eq!(adapter.outbox, vec![window(0, "defmt", DataFormat::Defmt)]);
}

#[test]
fn attach_records_the_up_channels_in_order() {
    let mut handle = handle();
    handle.core_data.rtt_connection =
        Some(RttConnection { debugger_rtt_channels: vec![recorded(9)] });
    let mut adapter = DebugAdapter::new();
    let (result, asked) = attach(
        &mut handle,
        &mut adapter,
        Ok(Some(0x2000_0400)),
        Ok(vec![
            channel(Some(0), "Terminal", DataFormat::String),
            channel(None, "Console in", DataFormat::String),
            channel(Some(1), "defmt", DataFormat::Defmt),
            channel(Some(2), "trace", DataFormat::BinaryLE),
        ]),
        &[],
    );
    assert_eq!(result, Ok(()));
    assert_eq!(
        asked[2..],
        [Transaction::SetChannelMode { channel_number: 1, mode: ChannelMode::BlockIfFull }]
    );
    assert_eq!(
        handle.core_data.rtt_connection,
        Some(RttConnection { debugger_rtt_channels: vec![recorded(0), recorded(1), recorded(2)] })
    );
    assert_eq!(
        adapter.outbox,
        vec![
            window(0, "Terminal", DataFormat::String),
            window(1, "defmt", DataFormat::Defmt),
            window(2, "trace", DataFormat::BinaryLE),
        ]
    );
}

#[test]
fn attach_absorbs_a_channel_that_cannot_be_made_to_block() {
    let mut handle = handle();
    handle.core_data.rtt_connection =
        Some(RttConnection { debugger_rtt_channels: vec![recorded(7)] });
    let mut adapter = DebugAdapter::new();
    let (result, asked) = attach(
        &mut handle,
        &mut adapter,
        Ok(Some(0x2000_0400)),
        Ok(vec![
            channel(Some(0), "Terminal", DataFormat::String),
            channel(Some(1), "defmt", DataFormat::Defmt),
        ]),
        &[1],
    );
    assert_eq!(result, Ok(()));
    assert_eq!(
        asked[2..],
        [Transaction::SetChannelMode { channel_number: 1, mode: ChannelMode::BlockIfFull }]
    );
    assert_eq!(
        handle.core_data.rtt_connection,
        Some(RttConnection { debugger_rtt_channels: vec![recorded(7)] })
    );
    assert!(adapter.outbox.is_empty());
}

#[test]
fn attach_announces_nothing_before_the_last_channel_is_dealt_with() {
    let mut handle = handle();
    let mut adapter = DebugAdapter::new();
    let channels = vec![
        channel(Some(0), "Terminal", DataFormat::String),
        channel(Some(1), "defmt", DataFormat::Defmt),
    ];
    let step = handle.attach_to_rtt(
        &mut adapter,
        AttachToRtt::Attach { region: ScanRegion::Exact(0x2000_0400) },
        Some(Reply::RttAttached(Ok(channels))),
    );
    let Step::Perform(progress, asked) = step else { panic!("ended early") };
    assert_eq!(
        asked,
        Transaction::SetChannelMode { channel_number: 1, mode: ChannelMode::BlockIfFull }
    );
    assert!(adapter.outbox.is_empty());
    assert!(handle.core_data.rtt_connection.is_none());
    let step = handle.attach_to_rtt(&mut adapter, progress, Some(Reply::ChannelModeSet(Ok(()))));
    assert_eq!(step, Step::Finished(Ok(())));
    assert_eq!(
        adapter.outbox,
        vec![window(0, "Terminal", DataFormat::String), window(1, "defmt", DataFormat::Defmt)]
    );
    assert_eq!(
        handle.core_data.rtt_connection,
        Some(RttConnection { debugger_rtt_channels: vec![recorded(0), recorded(1)] })
    );
}

#[test]
fn attach_without_channels_makes_an_empty_connection() {
    let mut handle = handle();
    let mut adapter = DebugAdapter::new();
    let (result, _) = attach(&mut handle, &mut adapter, Ok(Some(0x2000_0400)), Ok(vec![]), &[]);
    assert_eq!(result, Ok(()));
    assert_eq!(
        handle.core_data.rtt_connection,
        Some(RttConnection { debugger_rtt_channels: vec![] })
    );
    assert!(adapter.outbox.is_empty());
}

#[test]
fn region_is_the_low_half_of_the_symbol_address() {
    assert_eq!(region_of(0x2000_0400), ScanRegion::Exact(0x2000_0400));
    assert_eq!(region_of(0xffff_ffff), ScanRegion::Exact(0xffff_ffff));
    assert_eq!(region_of(0x1_2000_0400), ScanRegion::Exact(0x2000_0400));
    assert_eq!(region_of(0), ScanRegion::Exact(0));
}

#[test]
fn adapter_queues_messages_in_order() {
    let mut adapter = DebugAdapter::new();
    assert!(!adapter.configuration_is_done());
    adapter.send(window(1, "a", DataFormat::String));
    adapter.send(ProtocolMessage::Continued { all_threads_continued: true, thread_id: 0 });
    assert_eq!(
        adapter.outbox,
        vec![
            window(1, "a", DataFormat::String),
            ProtocolMessage::Continued { all_threads_continued: true, thread_id: 0 },
        ]
    );
}
