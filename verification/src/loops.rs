//! The decisions of a session's two loops: what the receive loop does with
//! what the peer sent, and what the send loop does with what its outbound
//! channel and its socket answer. The loops themselves, which wait on the
//! socket and on the channel, run outside this crate and ask here at every
//! turn.

use vstd::prelude::*;

verus! {

/// One of the two loops of a session.
#[derive(Clone, Copy, Debug, PartialEq, Eq, Structural)]
pub enum LoopSide {
    /// The loop that reads frames from the peer.
    Receive,
    /// The loop that writes queued messages to the peer.
    Send,
}

impl LoopSide {
    /// The loop that is not this one.
    pub open spec fn opposite(self) -> LoopSide {
        match self {
            LoopSide::Receive => LoopSide::Send,
            LoopSide::Send => LoopSide::Receive,
        }
    }

    /// The loop that is not this one.
    pub fn other(&self) -> (side: LoopSide)
        ensures
            side == self.opposite(),
    {
        match self {
            LoopSide::Receive => LoopSide::Send,
            LoopSide::Send => LoopSide::Receive,
        }
    }
}

/// Why a loop stopped.
#[derive(Clone, Copy, Debug, PartialEq, Eq, Structural)]
pub enum Ending {
    /// The peer sent a close frame.
    PeerClosed,
    /// The inbound stream ended or reported an error.
    ReceiveFailed,
    /// The session's own outbound channel will yield no further message.
    OutboundClosed,
    /// A text frame could not be written to the peer.
    WriteFailed,
}

impl Ending {
    /// The loop that stops for this reason.
    pub open spec fn side(self) -> LoopSide {
        match self {
            Ending::PeerClosed => LoopSide::Receive,
            Ending::ReceiveFailed => LoopSide::Receive,
            Ending::OutboundClosed => LoopSide::Send,
            Ending::WriteFailed => LoopSide::Send,
        }
    }

    /// The loop that stops for this reason.
    pub fn loop_side(&self) -> (side: LoopSide)
        ensures
            side == self.side(),
    {
        match self {
            Ending::PeerClosed => LoopSide::Receive,
            Ending::ReceiveFailed => LoopSide::Receive,
            Ending::OutboundClosed => LoopSide::Send,
            Ending::WriteFailed => LoopSide::Send,
        }
    }
}

/// What the receive loop got when it waited for the next frame.
#[derive(Debug, PartialEq, Eq)]
pub enum Inbound {
    /// A text frame with its payload.
    Text(String),
    /// A close frame.
    Close,
    /// A frame that is neither text nor close.
    Other,
    /// The stream ended or reported an error.
    Failed,
}

/// What the receive loop does next.
#[derive(Debug, PartialEq, Eq)]
pub enum ReceiveStep {
    /// Broadcast the payload to every registered connection, then wait for
    /// the next frame.
    Relay(String),
    /// Drop the frame and wait for the next one.
    Ignore,
    /// Leave the loop.
    Stop(Ending),
}

/// The receive loop's rule: a text frame is relayed with its payload as it
/// came, a close frame and a failure end the loop, any other frame is
/// dropped.
pub open spec fn receive_step(inbound: Inbound) -> ReceiveStep {
    match inbound {
        Inbound::Text(payload) => ReceiveStep::Relay(payload),
        Inbound::Close => ReceiveStep::Stop(Ending::PeerClosed),
        Inbound::Other => ReceiveStep::Ignore,
        Inbound::Failed => ReceiveStep::Stop(Ending::ReceiveFailed),
    }
}

/// Decides what the receive loop does with `inbound`.
pub fn on_inbound(inbound: Inbound) -> (step: ReceiveStep)
    ensures
        step == receive_step(inbound),
{
    match inbound {
        Inbound::Text(payload) => ReceiveStep::Relay(payload),
        Inbound::Close => ReceiveStep::Stop(Ending::PeerClosed),
        Inbound::Other => ReceiveStep::Ignore,
        Inbound::Failed => ReceiveStep::Stop(Ending::ReceiveFailed),
    }
}

/// What the send loop got: the answer of its outbound channel when it
/// waited for a message, or the answer of the socket when it wrote one.
#[derive(Debug, PartialEq, Eq)]
pub enum Outbound {
    /// The channel yielded a message.
    Message(String),
    /// The channel is closed and empty.
    Closed,
    /// The last text frame was written.
    Written,
    /// The last text frame could not be written.
    WriteFailed,
}

/// What the send loop does next.
#[derive(Debug, PartialEq, Eq)]
pub enum SendStep {
    /// Write the message to the peer as a text frame.
    Write(String),
    /// Wait for the next message on the outbound channel.
    Wait,
    /// Leave the loop.
    Stop(Ending),
}

/// The send loop's rule: a message is written as it came, a written frame
/// is followed by the wait for the next message, a closed channel and a
/// failed write end the loop.
pub open spec fn send_step(outbound: Outbound) -> SendStep {
    match outbound {
        Outbound::Message(message) => SendStep::Write(message),
        Outbound::Closed => SendStep::Stop(Ending::OutboundClosed),
        Outbound::Written => SendStep::Wait,
        Outbound::WriteFailed => SendStep::Stop(Ending::WriteFailed),
    }
}

/// Decides what the send loop does with `outbound`.
pub fn on_outbound(outbound: Outbound) -> (step: SendStep)
    ensures
        step == send_step(outbound),
{
    match outbound {
        Outbound::Message(message) => SendStep::Write(message),
        Outbound::Closed => SendStep::Stop(Ending::OutboundClosed),
        Outbound::Written => SendStep::Wait,
        Outbound::WriteFailed => SendStep::Stop(Ending::WriteFailed),
    }
}

} // verus!
