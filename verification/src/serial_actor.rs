//! The serial actor: the one owner of the port. This module holds what it
//! decides; reading, writing and publishing are done by its caller.

use vstd::prelude::*;
use vstd::slice::slice_subrange;
use std::sync::Arc;

verus! {

/// How many commands the channel to the actor holds.
pub const COMMAND_CAPACITY: usize = 100;

/// How many events the broadcast from the actor holds.
pub const BROADCAST_CAPACITY: usize = 128;

/// The size of the buffer that the actor reads the port into.
pub const READ_BUFFER_SIZE: usize = 4096;

/// How long a break is held, in milliseconds.
pub const BREAK_HOLD_MS: u64 = 500;

/// A command to the actor.
#[non_exhaustive]
#[derive(Debug)]
pub enum SerialMessage {
    /// Write these bytes to the port.
    Write(Vec<u8>),
    /// Send a break over the port.
    SendBreak,
    /// Close the session.
    Shutdown,
}

/// An event that the actor publishes to every subscriber.
#[non_exhaustive]
#[derive(Clone, Debug)]
pub enum SerialEvent {
    /// Bytes read from the port, shared and not copied.
    Data(Arc<[u8]>),
    /// The message of a failure of the port.
    Error(String),
    /// The connection is closed.
    ConnectionClosed,
}

/// What a [`SerialEvent`] is in specifications.
pub enum SerialEventView {
    Data(Seq<u8>),
    Error(Seq<char>),
    ConnectionClosed,
}

impl View for SerialEvent {
    type V = SerialEventView;

    open spec fn view(&self) -> SerialEventView {
        match self {
            SerialEvent::Data(d) => SerialEventView::Data(d@),
            SerialEvent::Error(e) => SerialEventView::Error(e@),
            SerialEvent::ConnectionClosed => SerialEventView::ConnectionClosed,
        }
    }
}

/// What the actor's caller is to do on the port.
#[derive(Debug)]
pub enum PortRequest {
    /// Write all of these bytes.
    Write(Vec<u8>),
    /// Raise the break, hold it for so many milliseconds, lower it.
    Break(u64),
    /// Nothing.
    Nothing,
}

/// What a [`PortRequest`] is in specifications.
pub enum PortRequestView {
    Write(Seq<u8>),
    Break(u64),
    Nothing,
}

impl View for PortRequest {
    type V = PortRequestView;

    open spec fn view(&self) -> PortRequestView {
        match self {
            PortRequest::Write(d) => PortRequestView::Write(d@),
            PortRequest::Break(ms) => PortRequestView::Break(*ms),
            PortRequest::Nothing => PortRequestView::Nothing,
        }
    }
}

/// One decision of the actor: what to do on the port, what to publish, and
/// whether the actor ends.
#[derive(Debug)]
pub struct ActorStep {
    pub port: PortRequest,
    pub publish: Option<SerialEvent>,
    pub stop: bool,
}

/// What an [`ActorStep`] is in specifications.
pub struct ActorStepView {
    pub port: PortRequestView,
    pub publish: Option<SerialEventView>,
    pub stop: bool,
}

impl View for ActorStep {
    type V = ActorStepView;

    open spec fn view(&self) -> ActorStepView {
        ActorStepView {
            port: self.port@,
            publish: match self.publish {
                Some(e) => Some(e@),
                None => None,
            },
            stop: self.stop,
        }
    }
}

/// What a [`SerialMessage`] is in specifications.
pub enum SerialMessageView {
    Write(Seq<u8>),
    SendBreak,
    Shutdown,
}

impl View for SerialMessage {
    type V = SerialMessageView;

    open spec fn view(&self) -> SerialMessageView {
        match self {
            SerialMessage::Write(d) => SerialMessageView::Write(d@),
            SerialMessage::SendBreak => SerialMessageView::SendBreak,
            SerialMessage::Shutdown => SerialMessageView::Shutdown,
        }
    }
}

/// The decision on a command, or on the end of the command channel: bytes
/// are written, a break is sent, a shutdown publishes the close and ends the
/// actor, and the end of the channel ends it without a word.
pub open spec fn command_step(message: Option<SerialMessageView>) -> ActorStepView {
    match message {
        Some(SerialMessageView::Write(data)) => ActorStepView {
            port: PortRequestView::Write(data),
            publish: None,
            stop: false,
        },
        Some(SerialMessageView::SendBreak) => ActorStepView {
            port: PortRequestView::Break(BREAK_HOLD_MS),
            publish: None,
            stop: false,
        },
        Some(SerialMessageView::Shutdown) => ActorStepView {
            port: PortRequestView::Nothing,
            publish: Some(SerialEventView::ConnectionClosed),
            stop: true,
        },
        None => ActorStepView { port: PortRequestView::Nothing, publish: None, stop: true },
    }
}

/// The decision on the outcome of a write: a failure is published, and the
/// actor goes on.
pub open spec fn write_step(failure: Option<Seq<char>>) -> ActorStepView {
    ActorStepView {
        port: PortRequestView::Nothing,
        publish: match failure {
            Some(message) => Some(SerialEventView::Error(message)),
            None => None,
        },
        stop: false,
    }
}

/// The decision on the outcome of a read into `buffer`: no byte means the
/// connection is closed, and the actor ends; bytes are published; a failure
/// is published, and the actor ends.
pub open spec fn read_step(outcome: Result<usize, Seq<char>>, buffer: Seq<u8>) -> ActorStepView {
    match outcome {
        Ok(n) => if n == 0 {
            ActorStepView {
                port: PortRequestView::Nothing,
                publish: Some(SerialEventView::ConnectionClosed),
                stop: true,
            }
        } else {
            ActorStepView {
                port: PortRequestView::Nothing,
                publish: Some(
                    SerialEventView::Data(
                        buffer.subrange(
                            0,
                            if n <= buffer.len() {
                                n as int
                            } else {
                                buffer.len() as int
                            },
                        ),
                    ),
                ),
                stop: false,
            }
        },
        Err(message) => ActorStepView {
            port: PortRequestView::Nothing,
            publish: Some(SerialEventView::Error(message)),
            stop: true,
        },
    }
}

/// `Arc::from` makes a shared copy of the bytes.
#[verifier::external_body]
fn shared(bytes: &[u8]) -> (r: Arc<[u8]>)
    ensures
        r@ == bytes@,
{
    Arc::from(bytes)
}

/// Decides on a command, or on the end of the command channel.
pub fn on_command(message: Option<SerialMessage>) -> (step: ActorStep)
    ensures
        step@ == command_step(
            match message {
                Some(m) => Some(m@),
                None => None,
            },
        ),
{
    match message {
        Some(SerialMessage::Write(data)) => ActorStep {
            port: PortRequest::Write(data),
            publish: None,
            stop: false,
        },
        Some(SerialMessage::SendBreak) => ActorStep {
            port: PortRequest::Break(BREAK_HOLD_MS),
            publish: None,
            stop: false,
        },
        Some(SerialMessage::Shutdown) => ActorStep {
            port: PortRequest::Nothing,
            publish: Some(SerialEvent::ConnectionClosed),
            stop: true,
        },
        None => ActorStep { port: PortRequest::Nothing, publish: None, stop: true },
    }
}

/// Decides on the outcome of a write; `failure` is the message of the error,
/// if there was one.
pub fn on_write(failure: Option<String>) -> (step: ActorStep)
    ensures
        step@ == write_step(
            match failure {
                Some(m) => Some(m@),
                None => None,
            },
        ),
{
    match failure {
        Some(message) => ActorStep {
            port: PortRequest::Nothing,
            publish: Some(SerialEvent::Error(message)),
            stop: false,
        },
        None => ActorStep { port: PortRequest::Nothing, publish: None, stop: false },
    }
}

/// Decides on the outcome of a read into `buffer`: the number of bytes
/// read, or the message of the error.
pub fn on_read(outcome: Result<usize, String>, buffer: &[u8]) -> (step: ActorStep)
    ensures
        step@ == read_step(
            match outcome {
                Ok(n) => Ok(n),
                Err(m) => Err(m@),
            },
            buffer@,
        ),
{
    match outcome {
        Ok(n) => {
            if n == 0 {
                ActorStep {
                    port: PortRequest::Nothing,
                    publish: Some(SerialEvent::ConnectionClosed),
                    stop: true,
                }
            } else {
                let end = if n <= buffer.len() {
                    n
                } else {
                    buffer.len()
                };
                let data = shared(slice_subrange(buffer, 0, end));
                ActorStep {
                    port: PortRequest::Nothing,
                    publish: Some(SerialEvent::Data(data)),
                    stop: false,
                }
            }
        },
        Err(message) => ActorStep {
            port: PortRequest::Nothing,
            publish: Some(SerialEvent::Error(message)),
            stop: true,
        },
    }
}

} // verus!
