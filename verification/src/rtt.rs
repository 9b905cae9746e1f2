//! The real-time logging channels of a target, as far as the session
//! keeps track of them.

use vstd::prelude::*;

verus! {

/// How the payload of a logging channel is encoded.
#[derive(Clone, Copy, Debug, PartialEq, Eq, Structural)]
pub enum DataFormat {
    String,
    BinaryLE,
    /// The compact binary log format. Its frames must arrive complete and in
    /// order.
    Defmt,
}

/// What the target does when the buffer of an up channel is full.
#[derive(Clone, Copy, Debug, PartialEq, Eq, Structural)]
pub enum ChannelMode {
    NoBlockSkip,
    NoBlockTrim,
    /// The target waits until the host has read: nothing is lost.
    BlockIfFull,
}

/// Where in target memory to look for the logging control block.
#[derive(Clone, Copy, Debug, PartialEq, Eq, Structural)]
pub enum ScanRegion {
    /// At this address and nowhere else.
    Exact(u32),
}

/// A channel that the logging transport found on the target.
#[derive(Debug, PartialEq, Eq)]
pub struct RttChannel {
    /// The number of the channel's up (target to host) side, if it has one.
    pub up_channel: Option<usize>,
    pub channel_name: String,
    pub data_format: DataFormat,
}

/// An up channel of the connection, and whether the client has opened a
/// window for it.
#[derive(Clone, Copy, Debug, PartialEq, Eq, Structural)]
pub struct DebuggerRttChannel {
    pub channel_number: usize,
    pub has_client_window: bool,
}

/// An attached logging transport: its up channels, in the order in which
/// the transport listed them.
#[derive(Debug, PartialEq, Eq)]
pub struct RttConnection {
    pub debugger_rtt_channels: Vec<DebuggerRttChannel>,
}

/// The low 32 bits of the address of the control block symbol: the region
/// to attach at.
pub open spec fn exact_region(symbol_address: u64) -> ScanRegion {
    ScanRegion::Exact((symbol_address % 0x1_0000_0000) as u32)
}

/// The region to attach at for a control block symbol: its address and
/// nothing around it, so that stale memory is never taken for a control block.
pub fn region_of(symbol_address: u64) -> (region: ScanRegion)
    ensures
        region == exact_region(symbol_address),
{
    ScanRegion::Exact((symbol_address % 0x1_0000_0000) as u32)
}

} // verus!
