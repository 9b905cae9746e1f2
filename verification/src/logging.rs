//! Attaching the real-time logging transport.
//!
//! Logging is an extra. The firmware may not have set up its control block
//! yet when the session begins. So an attempt that fails at any point ends
//! well and leaves things as they were, the client none the wiser: the
//! caller tries again later.

use vstd::prelude::*;
use crate::error::DebuggerError;
use crate::protocol::{DebugAdapter, MessageView, ProtocolMessage};
use crate::rtt::{
    exact_region, region_of, ChannelMode, DataFormat, DebuggerRttChannel, RttChannel,
    RttConnection, ScanRegion,
};
use crate::session::{CoreData, CoreHandle};
use crate::transaction::{Reply, Step, Transaction};

verus! {

/// How far an attempt to attach has come.
#[derive(Debug, PartialEq, Eq)]
pub enum AttachToRtt {
    /// The symbol of the control block is to be looked up in the binary.
    FindControlBlock,
    /// The transport is to be attached at `region`.
    Attach { region: ScanRegion },
    /// The transport is attached. The channels before `next` are dealt
    /// with, `registered` holds the up channels among them, and the channel
    /// at `next` is to block when its buffer is full.
    Register { channels: Vec<RttChannel>, next: usize, registered: Vec<DebuggerRttChannel> },
}

pub enum AttachToRttView {
    FindControlBlock,
    Attach { region: ScanRegion },
    Register { channels: Seq<RttChannel>, next: nat, registered: Seq<DebuggerRttChannel> },
}

impl View for AttachToRtt {
    type V = AttachToRttView;

    open spec fn view(&self) -> AttachToRttView {
        match self {
            AttachToRtt::FindControlBlock => AttachToRttView::FindControlBlock,
            AttachToRtt::Attach { region } => AttachToRttView::Attach { region: *region },
            AttachToRtt::Register { channels, next, registered } => AttachToRttView::Register {
                channels: channels@,
                next: *next as nat,
                registered: registered@,
            },
        }
    }
}

/// What one call of an attempt to attach does.
pub struct AttachEffect {
    /// The up channels of the connection after the call, where there is a
    /// connection.
    pub connection: Option<Seq<DebuggerRttChannel>>,
    /// The messages queued by the call.
    pub sent: Seq<MessageView>,
    pub step: Step<AttachToRttView, Result<(), DebuggerError>>,
}

impl CoreData {
    /// The up channels of the logging connection, where there is one.
    pub open spec fn connection(&self) -> Option<Seq<DebuggerRttChannel>> {
        match self.rtt_connection {
            Some(connection) => Some(connection.debugger_rtt_channels@),
            None => None,
        }
    }
}

/// The announcement of an up channel to the client.
pub open spec fn window(channel: RttChannel, number: usize) -> MessageView {
    MessageView::RttWindow {
        channel_number: number,
        channel_name: channel.channel_name@,
        data_format: channel.data_format,
    }
}

/// What an up channel is recorded as: the client has no window for it yet.
pub open spec fn descriptor(number: usize) -> DebuggerRttChannel {
    DebuggerRttChannel { channel_number: number, has_client_window: false }
}

/// The announcements of the up channels among `channels`, in their order.
pub open spec fn windows(channels: Seq<RttChannel>) -> Seq<MessageView>
    decreases channels.len(),
{
    if channels.len() == 0 {
        Seq::empty()
    } else {
        let before = windows(channels.drop_last());
        match channels.last().up_channel {
            Some(number) => before.push(window(channels.last(), number)),
            None => before,
        }
    }
}

/// Dealing with the channels from `next` on. A channel without an up side
/// is passed over. An up channel in the compact binary format must first be
/// made to block when full: the call stops there and asks for it. Any other
/// up channel is recorded. With the last channel dealt with, the channels
/// recorded become the connection, and only then are the up channels
/// announced to the client: an attempt that fails on the way shows nothing.
pub open spec fn register_from(
    connection: Option<Seq<DebuggerRttChannel>>,
    channels: Seq<RttChannel>,
    next: nat,
    registered: Seq<DebuggerRttChannel>,
) -> AttachEffect
    decreases channels.len() - next,
{
    if next >= channels.len() {
        AttachEffect {
            connection: Some(registered),
            sent: windows(channels),
            step: Step::Finished(Ok(())),
        }
    } else {
        match channels[next as int].up_channel {
            None => register_from(connection, channels, next + 1, registered),
            Some(number) => if channels[next as int].data_format == DataFormat::Defmt {
                AttachEffect {
                    connection,
                    sent: Seq::empty(),
                    step: Step::Perform(
                        AttachToRttView::Register { channels, next, registered },
                        Transaction::SetChannelMode {
                            channel_number: number,
                            mode: ChannelMode::BlockIfFull,
                        },
                    ),
                }
            } else {
                register_from(connection, channels, next + 1, registered.push(descriptor(number)))
            },
        }
    }
}

/// One call of an attempt to attach. Whatever fails, the binary, the
/// symbol, the transport or the probe when it changes the mode of a channel,
/// the attempt ends well, with the connection as it was and nothing told.
pub open spec fn attach_step(
    connection: Option<Seq<DebuggerRttChannel>>,
    progress: AttachToRttView,
    reply: Option<Reply>,
) -> AttachEffect {
    let given_up = AttachEffect {
        connection,
        sent: Seq::empty(),
        step: Step::Finished(Ok(())),
    };
    match progress {
        AttachToRttView::FindControlBlock => match reply {
            Some(Reply::RttControlBlock(Ok(Some(address)))) => AttachEffect {
                connection,
                sent: Seq::empty(),
                step: Step::Perform(
                    AttachToRttView::Attach { region: exact_region(address) },
                    Transaction::AttachRtt { region: exact_region(address) },
                ),
            },
            Some(Reply::RttControlBlock(_)) => given_up,
            _ => AttachEffect {
                connection,
                sent: Seq::empty(),
                step: Step::Perform(progress, Transaction::FindRttControlBlock),
            },
        },
        AttachToRttView::Attach { region } => match reply {
            Some(Reply::RttAttached(Ok(channels))) => register_from(
                connection,
                channels@,
                0,
                Seq::empty(),
            ),
            Some(Reply::RttAttached(Err(_))) => given_up,
            _ => AttachEffect {
                connection,
                sent: Seq::empty(),
                step: Step::Perform(progress, Transaction::AttachRtt { region }),
            },
        },
        AttachToRttView::Register { channels, next, registered } => match reply {
            Some(Reply::ChannelModeSet(Err(_))) => given_up,
            Some(Reply::ChannelModeSet(Ok(_))) => if next < channels.len() {
                match channels[next as int].up_channel {
                    Some(number) => register_from(
                        connection,
                        channels,
                        next + 1,
                        registered.push(descriptor(number)),
                    ),
                    None => register_from(connection, channels, next, registered),
                }
            } else {
                register_from(connection, channels, next, registered)
            },
            _ => register_from(connection, channels, next, registered),
        },
    }
}

/// Announces the up channels among `channels` to the client, in their order.
fn announce(debug_adapter: &mut DebugAdapter, channels: &Vec<RttChannel>)
    ensures
        final(debug_adapter).sent() == old(debug_adapter).sent() + windows(channels@),
        final(debug_adapter).configuration_done == old(debug_adapter).configuration_done,
        final(debug_adapter).all_cores_halted == old(debug_adapter).all_cores_halted,
{
    let mut position: usize = 0;
    assert(channels@.take(0) =~= Seq::<RttChannel>::empty());
    assert(debug_adapter.sent() =~= old(debug_adapter).sent() + windows(channels@.take(0)));
    while position < channels.len()
        invariant
            position <= channels@.len(),
            debug_adapter.sent() == old(debug_adapter).sent() + windows(
                channels@.take(position as int),
            ),
            debug_adapter.configuration_done == old(debug_adapter).configuration_done,
            debug_adapter.all_cores_halted == old(debug_adapter).all_cores_halted,
        decreases channels@.len() - position,
    {
        let channel = &channels[position];
        proof {
            let upto = channels@.take(position + 1);
            assert(upto.drop_last() =~= channels@.take(position as int));
            assert(upto.last() == *channel);
        }
        match channel.up_channel {
            Some(number) => {
                debug_adapter.send(
                    ProtocolMessage::RttWindow {
                        channel_number: number,
                        channel_name: channel.channel_name.clone(),
                        data_format: channel.data_format,
                    },
                );
            },
            None => {},
        }
        position = position + 1;
        assert(debug_adapter.sent() =~= old(debug_adapter).sent() + windows(
            channels@.take(position as int),
        ));
    }
    assert(channels@.take(position as int) =~= channels@);
}

impl CoreHandle {
    /// Deals with the channels of an attached transport from `from` on,
    /// `recorded` holding the up channels recorded so far.
    pub fn register_channels(
        &mut self,
        debug_adapter: &mut DebugAdapter,
        channels: Vec<RttChannel>,
        from: usize,
        recorded: Vec<DebuggerRttChannel>,
    ) -> (step: Step<AttachToRtt, Result<(), DebuggerError>>)
        ensures
            ({
                let effect = register_from(
                    old(self).core_data.connection(),
                    channels@,
                    from as nat,
                    recorded@,
                );
                &&& step@ == effect.step
                &&& final(self).core_data.connection() == effect.connection
                &&& final(debug_adapter).sent() == old(debug_adapter).sent() + effect.sent
            }),
            final(self).same_but_rtt(*old(self)),
            final(debug_adapter).configuration_done == old(debug_adapter).configuration_done,
            final(debug_adapter).all_cores_halted == old(debug_adapter).all_cores_halted,
    {
        let ghost connection = self.core_data.connection();
        let mut next = from;
        let mut registered = recorded;
        while next < channels.len()
            invariant
                *self == *old(self),
                *debug_adapter == *old(debug_adapter),
                connection == old(self).core_data.connection(),
                register_from(connection, channels@, from as nat, recorded@) == register_from(
                    connection,
                    channels@,
                    next as nat,
                    registered@,
                ),
            decreases channels.len() - next,
        {
            match channels[next].up_channel {
                None => {},
                Some(number) => {
                    if channels[next].data_format == DataFormat::Defmt {
                        assert(debug_adapter.sent() =~= old(debug_adapter).sent() + Seq::<
                            MessageView,
                        >::empty());
                        return Step::Perform(
                            AttachToRtt::Register { channels, next, registered },
                            Transaction::SetChannelMode {
                                channel_number: number,
                                mode: ChannelMode::BlockIfFull,
                            },
                        );
                    }
                    registered.push(
                        DebuggerRttChannel { channel_number: number, has_client_window: false },
                    );
                },
            }
            next = next + 1;
        }
        announce(debug_adapter, &channels);
        self.core_data.rtt_connection = Some(RttConnection { debugger_rtt_channels: registered });
        Step::Finished(Ok(()))
    }

    /// Tries to attach the logging transport: one call, with the reply to
    /// the transaction that the call before asked for.
    ///
    /// The binary is searched for the symbol of the control block, and the
    /// transport is attached at the address of the symbol and nowhere else.
    /// Of the channels of the attached transport, every up channel is
    /// recorded, one in the compact binary format after it was made to
    /// block when full. With the last channel dealt with, the channels
    /// recorded replace the connection and are announced to the client.
    ///
    /// The attempt never fails. If the binary cannot be read or has no such
    /// symbol, if the transport does not attach, or if the probe cannot
    /// change the mode of a channel, the attempt ends well all the same:
    /// the client is told nothing and the connection stays as it was.
    pub fn attach_to_rtt(
        &mut self,
        debug_adapter: &mut DebugAdapter,
        progress: AttachToRtt,
        reply: Option<Reply>,
    ) -> (step: Step<AttachToRtt, Result<(), DebuggerError>>)
        ensures
            ({
                let effect = attach_step(old(self).core_data.connection(), progress@, reply);
                &&& step@ == effect.step
                &&& final(self).core_data.connection() == effect.connection
                &&& final(debug_adapter).sent() == old(debug_adapter).sent() + effect.sent
            }),
            final(self).same_but_rtt(*old(self)),
            final(debug_adapter).configuration_done == old(debug_adapter).configuration_done,
            final(debug_adapter).all_cores_halted == old(debug_adapter).all_cores_halted,
    {
        proof {
            assert(debug_adapter.sent() =~= debug_adapter.sent() + Seq::<MessageView>::empty());
        }
        match progress {
            AttachToRtt::FindControlBlock => match reply {
                Some(Reply::RttControlBlock(Ok(Some(address)))) => {
                    let region = region_of(address);
                    Step::Perform(AttachToRtt::Attach { region }, Transaction::AttachRtt { region })
                },
                Some(Reply::RttControlBlock(_)) => Step::Finished(Ok(())),
                _ => Step::Perform(AttachToRtt::FindControlBlock, Transaction::FindRttControlBlock),
            },
            AttachToRtt::Attach { region } => match reply {
                Some(Reply::RttAttached(Ok(channels))) => self.register_channels(
                    debug_adapter,
                    channels,
                    0,
                    Vec::new(),
                ),
                Some(Reply::RttAttached(Err(_))) => Step::Finished(Ok(())),
                _ => Step::Perform(AttachToRtt::Attach { region }, Transaction::AttachRtt { region }),
            },
            AttachToRtt::Register { channels, next, registered } => match reply {
                Some(Reply::ChannelModeSet(Err(_))) => Step::Finished(Ok(())),
                Some(Reply::ChannelModeSet(Ok(_))) => {
                    if next < channels.len() {
                        match channels[next].up_channel {
                            Some(number) => {
                                let mut registered = registered;
                                registered.push(
                                    DebuggerRttChannel {
                                        channel_number: number,
                                        has_client_window: false,
                                    },
                                );
                                self.register_channels(
                                    debug_adapter,
                                    channels,
                                    next + 1,
                                    registered,
                                )
                            },
                            None => self.register_channels(
                                debug_adapter,
                                channels,
                                next,
                                registered,
                            ),
                        }
                    } else {
                        self.register_channels(debug_adapter, channels, next, registered)
                    }
                },
                _ => self.register_channels(debug_adapter, channels, next, registered),
            },
        }
    }
}

} // verus!
