//! The client's side of the session: what the client has been told about
//! the session, and what it is to be told next.

use vstd::prelude::*;
use crate::error::DebuggerError;
use crate::rtt::DataFormat;

verus! {

#[derive(Clone, Copy, Debug, PartialEq, Eq, Structural)]
pub enum MessageSeverity {
    Information,
    Warning,
    Error,
}

/// Something to tell the client outside of the answer to a request.
#[derive(Debug, PartialEq, Eq)]
pub enum ProtocolMessage {
    /// The core runs again.
    Continued { all_threads_continued: bool, thread_id: usize },
    /// The core has halted.
    Stopped {
        reason: String,
        description: String,
        thread_id: usize,
        preserve_focus_hint: bool,
        text: Option<String>,
        all_threads_stopped: bool,
        hit_breakpoint_ids: Option<Vec<usize>>,
    },
    /// A notice for the user.
    ShowMessage { severity: MessageSeverity, message: String },
    /// A failure, sent in place of an answer.
    ErrorResponse { error: DebuggerError },
    /// A logging channel that the client may open a window for.
    RttWindow { channel_number: usize, channel_name: String, data_format: DataFormat },
}

/// A message by its content.
pub enum MessageView {
    Continued { all_threads_continued: bool, thread_id: usize },
    /// A `stopped` event. It carries neither a text nor breakpoint ids.
    Stopped {
        reason: Seq<char>,
        description: Seq<char>,
        thread_id: usize,
        preserve_focus_hint: bool,
        all_threads_stopped: bool,
    },
    /// A `stopped` event that carries a text or breakpoint ids.
    StoppedWithDetails,
    ShowMessage { severity: MessageSeverity, message: Seq<char> },
    ErrorResponse { error: DebuggerError },
    RttWindow { channel_number: usize, channel_name: Seq<char>, data_format: DataFormat },
}

impl View for ProtocolMessage {
    type V = MessageView;

    open spec fn view(&self) -> MessageView {
        match self {
            ProtocolMessage::Continued { all_threads_continued, thread_id } => {
                MessageView::Continued {
                    all_threads_continued: *all_threads_continued,
                    thread_id: *thread_id,
                }
            },
            ProtocolMessage::Stopped {
                reason,
                description,
                thread_id,
                preserve_focus_hint,
                text,
                all_threads_stopped,
                hit_breakpoint_ids,
            } => {
                if text is None && hit_breakpoint_ids is None {
                    MessageView::Stopped {
                        reason: reason@,
                        description: description@,
                        thread_id: *thread_id,
                        preserve_focus_hint: *preserve_focus_hint,
                        all_threads_stopped: *all_threads_stopped,
                    }
                } else {
                    MessageView::StoppedWithDetails
                }
            },
            ProtocolMessage::ShowMessage { severity, message } => {
                MessageView::ShowMessage { severity: *severity, message: message@ }
            },
            ProtocolMessage::ErrorResponse { error } => {
                MessageView::ErrorResponse { error: *error }
            },
            ProtocolMessage::RttWindow { channel_number, channel_name, data_format } => {
                MessageView::RttWindow {
                    channel_number: *channel_number,
                    channel_name: channel_name@,
                    data_format: *data_format,
                }
            },
        }
    }
}

/// The state of the client's session, and the messages that wait to be sent
/// to it. Whoever owns the connection sends them, oldest first, and may then
/// empty the queue.
#[derive(Debug, PartialEq, Eq)]
pub struct DebugAdapter {
    /// Whether the client has finished its configuration handshake.
    pub configuration_done: bool,
    /// Whether every core of the target is known to be halted.
    pub all_cores_halted: bool,
    pub outbox: Vec<ProtocolMessage>,
}

impl DebugAdapter {
    /// The content of the queued messages, oldest first.
    pub open spec fn sent(&self) -> Seq<MessageView> {
        Seq::new(self.outbox@.len(), |i: int| self.outbox@[i]@)
    }

    /// An adapter for a session that has just begun: not configured, no core
    /// known to be halted, nothing to send.
    pub fn new() -> (adapter: Self)
        ensures
            !adapter.configuration_done,
            !adapter.all_cores_halted,
            adapter.sent() == Seq::<MessageView>::empty(),
    {
        let adapter = DebugAdapter {
            configuration_done: false,
            all_cores_halted: false,
            outbox: Vec::new(),
        };
        assert(adapter.sent() =~= Seq::<MessageView>::empty());
        adapter
    }

    pub open spec fn configuration_is_done_spec(&self) -> bool {
        self.configuration_done
    }

    #[verifier::when_used_as_spec(configuration_is_done_spec)]
    pub fn configuration_is_done(&self) -> (done: bool)
        ensures
            done == self.configuration_done,
    {
        self.configuration_done
    }

    /// Queues `message` behind the messages that already wait.
    pub fn send(&mut self, message: ProtocolMessage)
        ensures
            final(self).sent() == old(self).sent().push(message@),
            final(self).outbox@ == old(self).outbox@.push(message),
            final(self).configuration_done == old(self).configuration_done,
            final(self).all_cores_halted == old(self).all_cores_halted,
    {
        self.outbox.push(message);
        assert(self.sent() =~= old(self).sent().push(message@));
    }
}

} // verus!
