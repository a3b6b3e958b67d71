//! The echo that the websocket endpoint plays: what is sent back for each
//! message that comes in, and when the conversation ends.

use vstd::prelude::*;

verus! {

/// A message that came in.
#[derive(Debug)]
pub enum Incoming {
    Text(String),
    Binary(Vec<u8>),
    Ping(Vec<u8>),
    Pong(Vec<u8>),
    Close,
    /// A frame that carries no whole message.
    Other,
}

/// A message to send back.
#[derive(Debug)]
pub enum Outgoing {
    Text(String),
    Binary(Vec<u8>),
    Pong(Vec<u8>),
}

/// What the echo does next.
#[derive(Debug)]
pub enum EchoStep {
    /// Send this and wait for the next message.
    Send(Outgoing),
    /// Send nothing and wait for the next message.
    Wait,
    /// Stop listening.
    Stop,
}

/// The step that the echo takes on a message: text and bytes go back as
/// they came, a ping is answered with a pong of the same bytes, a close ends
/// the conversation, and everything else is passed over.
pub fn echo(message: Incoming) -> (step: EchoStep)
    ensures
        step == match message {
            Incoming::Text(text) => EchoStep::Send(Outgoing::Text(text)),
            Incoming::Binary(bytes) => EchoStep::Send(Outgoing::Binary(bytes)),
            Incoming::Ping(bytes) => EchoStep::Send(Outgoing::Pong(bytes)),
            Incoming::Close => EchoStep::Stop,
            Incoming::Pong(_) => EchoStep::Wait,
            Incoming::Other => EchoStep::Wait,
        },
{
    match message {
        Incoming::Text(text) => EchoStep::Send(Outgoing::Text(text)),
        Incoming::Binary(bytes) => EchoStep::Send(Outgoing::Binary(bytes)),
        Incoming::Ping(bytes) => EchoStep::Send(Outgoing::Pong(bytes)),
        Incoming::Close => EchoStep::Stop,
        Incoming::Pong(_) => EchoStep::Wait,
        Incoming::Other => EchoStep::Wait,
    }
}

} // verus!
