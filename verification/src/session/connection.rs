//! The decisions of a single WebSocket connection's loop: what an inbound
//! frame is, and what each event of the loop leads to.
use vstd::prelude::*;
use crate::routing::{extract_id, spec_extract_id};

verus! {

/// The opcode of a WebSocket frame.
#[derive(Debug, Clone, Copy, PartialEq, Eq, Structural)]
pub enum FrameKind {
    Text,
    Binary,
    Continuation,
    Ping,
    Pong,
    Close,
}

/// What an inbound frame is for the client.
#[derive(Debug, Clone, Copy, PartialEq, Eq, Structural)]
pub enum InboundAction {
    /// A text frame that answers request `request_id`.
    Respond { request_id: i32 },
    /// A text frame carrying an event.
    DecodeEvent,
    /// A frame with nothing for the client (ping, pong, binary, ...).
    Ignore,
    /// The server closed the connection.
    ServerClosed,
}

/// What an inbound frame of kind `kind` with payload `payload` is: a text
/// frame starting `{"rid":<digits>` answers that request (the id taken to
/// 32 bits), any other text frame is an event.
pub open spec fn inbound_action(kind: FrameKind, payload: Seq<u8>) -> InboundAction {
    match kind {
        FrameKind::Text => match spec_extract_id(payload) {
            Some(id) => InboundAction::Respond { request_id: id as i32 },
            None => InboundAction::DecodeEvent,
        },
        FrameKind::Close => InboundAction::ServerClosed,
        _ => InboundAction::Ignore,
    }
}

/// Classifies an inbound frame.
pub fn classify_frame(kind: FrameKind, payload: &[u8]) -> (r: InboundAction)
    ensures
        r == inbound_action(kind, payload@),
{
    match kind {
        FrameKind::Text => match extract_id(payload) {
            Some(id) => InboundAction::Respond { request_id: id as i32 },
            None => InboundAction::DecodeEvent,
        },
        FrameKind::Close => InboundAction::ServerClosed,
        _ => InboundAction::Ignore,
    }
}

/// Something that wakes the connection loop.
#[derive(Debug, Clone, Copy, PartialEq, Eq, Structural)]
pub enum LoopEvent {
    /// The ping interval elapsed.
    PingDue,
    /// The shutdown signal changed; `requested` is its new value.
    ShutdownSignal { requested: bool },
    /// A frame is to be sent.
    SendCommand,
    /// The client asked to close.
    CloseCommand,
    /// The command channel was closed.
    CommandsClosed,
    /// The stream of inbound frames ended.
    StreamEnded,
    /// A frame came in.
    Inbound(InboundAction),
    /// No frame came in for the read timeout.
    ReadTimeout,
}

/// Why a connection failed.
#[derive(Debug, Clone, Copy, PartialEq, Eq, Structural)]
pub enum ConnectionFailure {
    /// The inbound stream ended.
    StreamEnded,
    /// The server sent a close frame.
    ClosedByServer,
    /// Nothing came in for the read timeout.
    ReadTimeout,
}

/// What the loop does next.
#[derive(Debug, Clone, Copy, PartialEq, Eq, Structural)]
pub enum LoopAction {
    /// Send a ping.
    SendPing,
    /// Nothing; wait for the next event.
    Continue,
    /// Send the frame of the command.
    SendFrame,
    /// Close the socket and end without error.
    CloseAndFinish,
    /// End with an error.
    Fail(ConnectionFailure),
    /// Hand the payload to whoever waits for request `request_id`.
    RouteResponse(i32),
    /// Decode the payload as an event and pass it on.
    DecodeEvent,
}

/// The step of the connection loop for an event.
pub open spec fn loop_action(e: LoopEvent) -> LoopAction {
    match e {
        LoopEvent::PingDue => LoopAction::SendPing,
        LoopEvent::ShutdownSignal { requested } => if requested {
            LoopAction::CloseAndFinish
        } else {
            LoopAction::Continue
        },
        LoopEvent::SendCommand => LoopAction::SendFrame,
        LoopEvent::CloseCommand => LoopAction::CloseAndFinish,
        LoopEvent::CommandsClosed => LoopAction::CloseAndFinish,
        LoopEvent::StreamEnded => LoopAction::Fail(ConnectionFailure::StreamEnded),
        LoopEvent::Inbound(a) => match a {
            InboundAction::Respond { request_id } => LoopAction::RouteResponse(request_id),
            InboundAction::DecodeEvent => LoopAction::DecodeEvent,
            InboundAction::Ignore => LoopAction::Continue,
            InboundAction::ServerClosed => LoopAction::Fail(ConnectionFailure::ClosedByServer),
        },
        LoopEvent::ReadTimeout => LoopAction::Fail(ConnectionFailure::ReadTimeout),
    }
}

impl LoopEvent {
    /// What the loop does for this event.
    pub fn action(&self) -> (r: LoopAction)
        ensures
            r == loop_action(*self),
    {
        match self {
            LoopEvent::PingDue => LoopAction::SendPing,
            LoopEvent::ShutdownSignal { requested } => {
                if *requested {
                    LoopAction::CloseAndFinish
                } else {
                    LoopAction::Continue
                }
            },
            LoopEvent::SendCommand => LoopAction::SendFrame,
            LoopEvent::CloseCommand => LoopAction::CloseAndFinish,
            LoopEvent::CommandsClosed => LoopAction::CloseAndFinish,
            LoopEvent::StreamEnded => LoopAction::Fail(ConnectionFailure::StreamEnded),
            LoopEvent::Inbound(a) => match a {
                InboundAction::Respond { request_id } => LoopAction::RouteResponse(*request_id),
                InboundAction::DecodeEvent => LoopAction::DecodeEvent,
                InboundAction::Ignore => LoopAction::Continue,
                InboundAction::ServerClosed => LoopAction::Fail(ConnectionFailure::ClosedByServer),
            },
            LoopEvent::ReadTimeout => LoopAction::Fail(ConnectionFailure::ReadTimeout),
        }
    }

    /// Whether the event restarts the read timeout: anything read from the
    /// socket does, an inbound frame or the end of the stream.
    pub fn resets_read_deadline(&self) -> (r: bool)
        ensures
            r == (*self is Inbound || *self is StreamEnded),
    {
        match self {
            LoopEvent::Inbound(_) => true,
            LoopEvent::StreamEnded => true,
            _ => false,
        }
    }
}

/// The loop ends on exactly the events that close or fail it, and only a
/// shutdown, a close command or a closed command channel end it cleanly.
pub proof fn lemma_loop_ends(e: LoopEvent)
    ensures
        (loop_action(e) == LoopAction::CloseAndFinish) <==> (e == LoopEvent::ShutdownSignal { requested: true }
            || e == LoopEvent::CloseCommand || e == LoopEvent::CommandsClosed),
        (loop_action(e) is Fail) <==> (e == LoopEvent::StreamEnded || e == LoopEvent::ReadTimeout || e
            == LoopEvent::Inbound(InboundAction::ServerClosed)),
{
}

} // verus!
