//! What holds of every attempt to attach the logging transport.

use vstd::prelude::*;
use crate::error::HardwareError;
use crate::logging::{
    attach_step, descriptor, register_from, windows, AttachEffect, AttachToRttView,
};
use crate::protocol::MessageView;
use crate::rtt::{ChannelMode, DataFormat, DebuggerRttChannel, RttChannel, ScanRegion};
use crate::transaction::{Reply, Step, Transaction};

verus! {

/// The up channels among `channels`, in their order, as they are recorded.
pub open spec fn up_channels(channels: Seq<RttChannel>) -> Seq<DebuggerRttChannel>
    decreases channels.len(),
{
    if channels.len() == 0 {
        Seq::empty()
    } else {
        let before = up_channels(channels.drop_last());
        match channels.last().up_channel {
            Some(number) => before.push(descriptor(number)),
            None => before,
        }
    }
}

/// The run of an attempt to attach: the calls of the operation, each given
/// the next reply of `script` in answer to the transaction that the call
/// before asked for, until the attempt has ended or the script is used up.
/// The messages of all the calls are put together.
pub open spec fn attach_run(
    connection: Option<Seq<DebuggerRttChannel>>,
    progress: AttachToRttView,
    reply: Option<Reply>,
    script: Seq<Reply>,
) -> AttachEffect
    decreases script.len(),
{
    let effect = attach_step(connection, progress, reply);
    match effect.step {
        Step::Finished(_) => effect,
        Step::Perform(next, _) => if script.len() == 0 {
            effect
        } else {
            let rest = attach_run(effect.connection, next, Some(script[0]), script.skip(1));
            AttachEffect {
                connection: rest.connection,
                sent: effect.sent + rest.sent,
                step: rest.step,
            }
        },
    }
}

/// The effect of an attempt that has ended well without a new connection:
/// the connection is as it was and the client was told nothing.
pub open spec fn absorbed(connection: Option<Seq<DebuggerRttChannel>>) -> AttachEffect {
    AttachEffect { connection, sent: Seq::empty(), step: Step::Finished(Ok(())) }
}

/// The effect of an attempt that has attached: the up channels of the
/// transport are the connection, and each was announced to the client.
pub open spec fn attached(channels: Seq<RttChannel>) -> AttachEffect {
    AttachEffect {
        connection: Some(up_channels(channels)),
        sent: windows(channels),
        step: Step::Finished(Ok(())),
    }
}

/// An attempt that finds no control block in the binary, or cannot read the
/// binary, ends well at once: the client is told nothing and the connection
/// stays as it was.
pub proof fn lemma_attach_without_control_block(
    connection: Option<Seq<DebuggerRttChannel>>,
    found: Result<Option<u64>, String>,
)
    requires
        !(found matches Ok(Some(_))),
    ensures
        attach_step(
            connection,
            AttachToRttView::FindControlBlock,
            Some(Reply::RttControlBlock(found)),
        ) == absorbed(connection),
{
}

/// A transport that does not attach ends the attempt well: the client is
/// told nothing and the connection stays as it was.
pub proof fn lemma_attach_refused(
    connection: Option<Seq<DebuggerRttChannel>>,
    region: ScanRegion,
    reason: String,
)
    ensures
        attach_step(
            connection,
            AttachToRttView::Attach { region },
            Some(Reply::RttAttached(Err(reason))),
        ) == absorbed(connection),
{
}

/// A channel that the probe cannot make to block when full ends the attempt
/// well: the client is told nothing, not even of the channels dealt with
/// before, and the connection stays as it was.
pub proof fn lemma_attach_mode_refused(
    connection: Option<Seq<DebuggerRttChannel>>,
    channels: Seq<RttChannel>,
    next: nat,
    registered: Seq<DebuggerRttChannel>,
    error: HardwareError,
)
    ensures
        attach_step(
            connection,
            AttachToRttView::Register { channels, next, registered },
            Some(Reply::ChannelModeSet(Err(error))),
        ) == absorbed(connection),
{
}

/// Whether an effect waits for an up channel in the compact binary format,
/// at `from` or behind it, to block when full: the connection is as it was,
/// nothing is told, and the up channels before that channel are recorded.
pub open spec fn waits_for_mode(
    effect: AttachEffect,
    connection: Option<Seq<DebuggerRttChannel>>,
    channels: Seq<RttChannel>,
    from: nat,
) -> bool {
    &&& effect.step matches Step::Perform(
        AttachToRttView::Register { channels: waiting, next, registered },
        asked,
    )
    &&& effect.connection == connection
    &&& effect.sent == Seq::<MessageView>::empty()
    &&& waiting == channels
    &&& from <= next < channels.len()
    &&& channels[next as int].up_channel is Some
    &&& channels[next as int].data_format == DataFormat::Defmt
    &&& asked == Transaction::SetChannelMode {
        channel_number: channels[next as int].up_channel->0,
        mode: ChannelMode::BlockIfFull,
    }
    &&& registered == up_channels(channels.take(next as int))
}

/// Whether a run stands as every run of an attempt with these channels
/// does: ended well with the up channels attached and announced, ended well
/// with nothing changed and nothing told, or waiting, with nothing changed
/// and nothing told, for a channel to block when full.
pub open spec fn all_or_nothing(
    end: AttachEffect,
    connection: Option<Seq<DebuggerRttChannel>>,
    channels: Seq<RttChannel>,
) -> bool {
    match end.step {
        Step::Finished(_) => end == attached(channels) || end == absorbed(connection),
        Step::Perform(_, _) => waits_for_mode(end, connection, channels, 0),
    }
}

/// Dealing with the channels from `next` on, with the up channels before
/// recorded, attaches or waits for a mode.
proof fn lemma_register_from(
    connection: Option<Seq<DebuggerRttChannel>>,
    channels: Seq<RttChannel>,
    next: nat,
    registered: Seq<DebuggerRttChannel>,
)
    requires
        next <= channels.len(),
        registered == up_channels(channels.take(next as int)),
    ensures
        ({
            let effect = register_from(connection, channels, next, registered);
            match effect.step {
                Step::Finished(_) => effect == attached(channels),
                Step::Perform(_, _) => waits_for_mode(effect, connection, channels, next),
            }
        }),
    decreases channels.len() - next,
{
    if next >= channels.len() {
        assert(channels.take(next as int) =~= channels);
    } else {
        let upto = channels.take(next as int + 1);
        assert(upto.drop_last() =~= channels.take(next as int));
        assert(upto.last() == channels[next as int]);
        match channels[next as int].up_channel {
            None => {
                lemma_register_from(connection, channels, next + 1, registered);
            },
            Some(number) => {
                if channels[next as int].data_format != DataFormat::Defmt {
                    lemma_register_from(
                        connection,
                        channels,
                        next + 1,
                        registered.push(descriptor(number)),
                    );
                }
            },
        }
    }
}

/// A run that waits for the channel at `next` goes on to all or nothing.
proof fn lemma_registering_run(
    connection: Option<Seq<DebuggerRttChannel>>,
    channels: Seq<RttChannel>,
    next: nat,
    registered: Seq<DebuggerRttChannel>,
    reply: Option<Reply>,
    script: Seq<Reply>,
)
    requires
        next < channels.len(),
        channels[next as int].up_channel is Some,
        channels[next as int].data_format == DataFormat::Defmt,
        registered == up_channels(channels.take(next as int)),
    ensures
        all_or_nothing(
            attach_run(
                connection,
                AttachToRttView::Register { channels, next, registered },
                reply,
                script,
            ),
            connection,
            channels,
        ),
    decreases script.len(),
{
    let progress = AttachToRttView::Register { channels, next, registered };
    let effect = attach_step(connection, progress, reply);
    match reply {
        Some(Reply::ChannelModeSet(Err(_))) => {},
        Some(Reply::ChannelModeSet(Ok(_))) => {
            let number = channels[next as int].up_channel->0;
            let upto = channels.take(next as int + 1);
            assert(upto.drop_last() =~= channels.take(next as int));
            assert(upto.last() == channels[next as int]);
            lemma_register_from(
                connection,
                channels,
                next + 1,
                registered.push(descriptor(number)),
            );
        },
        _ => {
            lemma_register_from(connection, channels, next, registered);
        },
    }
    match effect.step {
        Step::Finished(_) => {},
        Step::Perform(AttachToRttView::Register { channels: waiting, next: at, registered: so_far }, _) => {
            if script.len() > 0 {
                lemma_registering_run(
                    connection,
                    channels,
                    at,
                    so_far,
                    Some(script[0]),
                    script.skip(1),
                );
                let rest = attach_run(connection, effect.step->Perform_0, Some(script[0]), script.skip(1));
                assert(effect.sent + rest.sent =~= rest.sent);
            }
        },
        Step::Perform(_, _) => {},
    }
}

/// An attempt shows all or nothing. Once it has the channels of an attached
/// transport, then however the probe answers and wherever the run stands:
/// if it has ended, it has ended well, and either every up channel is
/// recorded, in the order of the transport, and announced once, and these
/// channels are the connection, or the connection is as it was and the
/// client was told nothing. While it goes on, it asks only for up channels
/// in the compact binary format to block when full, and nothing has changed.
pub proof fn lemma_attach_shows_all_or_nothing(
    connection: Option<Seq<DebuggerRttChannel>>,
    region: ScanRegion,
    channels: Vec<RttChannel>,
    script: Seq<Reply>,
)
    ensures
        all_or_nothing(
            attach_run(
                connection,
                AttachToRttView::Attach { region },
                Some(Reply::RttAttached(Ok(channels))),
                script,
            ),
            connection,
            channels@,
        ),
{
    let effect = attach_step(
        connection,
        AttachToRttView::Attach { region },
        Some(Reply::RttAttached(Ok(channels))),
    );
    assert(channels@.take(0) =~= Seq::<RttChannel>::empty());
    lemma_register_from(connection, channels@, 0, Seq::empty());
    match effect.step {
        Step::Finished(_) => {},
        Step::Perform(AttachToRttView::Register { channels: waiting, next: at, registered: so_far }, _) => {
            if script.len() > 0 {
                lemma_registering_run(
                    connection,
                    channels@,
                    at,
                    so_far,
                    Some(script[0]),
                    script.skip(1),
                );
                let rest = attach_run(connection, effect.step->Perform_0, Some(script[0]), script.skip(1));
                assert(effect.sent + rest.sent =~= rest.sent);
            }
        },
        Step::Perform(_, _) => {},
    }
}

/// Whether every reply of a script says that a channel now blocks when
/// full.
pub open spec fn every_mode_set(script: Seq<Reply>) -> bool {
    forall|i: int| 0 <= i < script.len() ==> #[trigger] script[i] == Reply::ChannelModeSet(Ok(()))
}

/// A run that waits for the channel at `next` attaches if every mode is set.
proof fn lemma_registering_succeeds(
    connection: Option<Seq<DebuggerRttChannel>>,
    channels: Seq<RttChannel>,
    next: nat,
    registered: Seq<DebuggerRttChannel>,
    script: Seq<Reply>,
)
    requires
        next < channels.len(),
        channels[next as int].up_channel is Some,
        channels[next as int].data_format == DataFormat::Defmt,
        registered == up_channels(channels.take(next as int)),
        every_mode_set(script),
        script.len() + 1 >= channels.len() - next,
    ensures
        attach_run(
            connection,
            AttachToRttView::Register { channels, next, registered },
            Some(Reply::ChannelModeSet(Ok(()))),
            script,
        ) == attached(channels),
    decreases script.len(),
{
    let progress = AttachToRttView::Register { channels, next, registered };
    let effect = attach_step(connection, progress, Some(Reply::ChannelModeSet(Ok(()))));
    let number = channels[next as int].up_channel->0;
    let upto = channels.take(next as int + 1);
    assert(upto.drop_last() =~= channels.take(next as int));
    assert(upto.last() == channels[next as int]);
    lemma_register_from(connection, channels, next + 1, registered.push(descriptor(number)));
    match effect.step {
        Step::Finished(_) => {},
        Step::Perform(AttachToRttView::Register { channels: waiting, next: at, registered: so_far }, _) => {
            assert(script[0] == Reply::ChannelModeSet(Ok(())));
            assert(every_mode_set(script.skip(1))) by {
                assert forall|i: int| 0 <= i < script.skip(1).len() implies #[trigger] script.skip(
                    1,
                )[i] == Reply::ChannelModeSet(Ok(())) by {
                    assert(script.skip(1)[i] == script[i + 1]);
                }
            }
            lemma_registering_succeeds(connection, channels, at, so_far, script.skip(1));
            let rest = attach_run(connection, effect.step->Perform_0, Some(script[0]), script.skip(1));
            assert(effect.sent + rest.sent =~= rest.sent);
        },
        Step::Perform(_, _) => {},
    }
}

/// An attempt that has the channels of an attached transport, and in which
/// the probe sets every mode it is asked for, ends well: every up channel is
/// recorded, in the order of the transport, and announced once, and these
/// channels are the connection.
pub proof fn lemma_attach_succeeds(
    connection: Option<Seq<DebuggerRttChannel>>,
    region: ScanRegion,
    channels: Vec<RttChannel>,
    script: Seq<Reply>,
)
    requires
        every_mode_set(script),
        script.len() >= channels@.len(),
    ensures
        attach_run(
            connection,
            AttachToRttView::Attach { region },
            Some(Reply::RttAttached(Ok(channels))),
            script,
        ) == attached(channels@),
{
    let effect = attach_step(
        connection,
        AttachToRttView::Attach { region },
        Some(Reply::RttAttached(Ok(channels))),
    );
    assert(channels@.take(0) =~= Seq::<RttChannel>::empty());
    lemma_register_from(connection, channels@, 0, Seq::empty());
    match effect.step {
        Step::Finished(_) => {},
        Step::Perform(AttachToRttView::Register { channels: waiting, next: at, registered: so_far }, _) => {
            assert(script[0] == Reply::ChannelModeSet(Ok(())));
            assert(every_mode_set(script.skip(1))) by {
                assert forall|i: int| 0 <= i < script.skip(1).len() implies #[trigger] script.skip(
                    1,
                )[i] == Reply::ChannelModeSet(Ok(())) by {
                    assert(script.skip(1)[i] == script[i + 1]);
                }
            }
            lemma_registering_succeeds(connection, channels@, at, so_far, script.skip(1));
            let rest = attach_run(connection, effect.step->Perform_0, Some(script[0]), script.skip(1));
            assert(effect.sent + rest.sent =~= rest.sent);
        },
        Step::Perform(_, _) => {},
    }
}

/// No channel is recorded with a window of the client.
pub proof fn lemma_up_channels_have_no_window(channels: Seq<RttChannel>, i: int)
    requires
        0 <= i < up_channels(channels).len(),
    ensures
        !up_channels(channels)[i].has_client_window,
    decreases channels.len(),
{
    if i < up_channels(channels.drop_last()).len() {
        lemma_up_channels_have_no_window(channels.drop_last(), i);
    }
}

} // verus!
