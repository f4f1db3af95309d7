//! The messages of the control protocol and what the host makes of them.
//!
//! The protocol is a request and response protocol: a client sends a
//! payload with an id of its own choosing and gets back a payload with the
//! same id that says whether the request was carried out. Ids need only be
//! unique within one connection.

use vstd::prelude::*;
use crate::context::{WinbarAction, WinbarContext};

verus! {

/// A message sent to the server by the client.
#[derive(Clone, Copy, Debug, PartialEq, Eq, Structural)]
pub enum ServerMessage {
    UpdateWindow,
    Shutdown,
    ShowWindow,
    HideWindow,
}

/// A server-bound payload.
#[derive(Clone, Copy, Debug, PartialEq, Eq, Structural)]
pub struct WinbarServerPayload {
    /// The id of the payload, unique within the connection.
    pub id: u32,
    /// The server-bound message.
    pub message: ServerMessage,
}

/// A message sent to the client by the server.
#[derive(Clone, Debug)]
pub enum ClientMessage {
    /// Denotes that the sent message was successful
    Success,
    /// Denotes that the sent message was not successful
    Error(String),
}

/// A client-bound payload.
#[derive(Clone, Debug)]
pub struct WinbarClientPayload {
    /// The id of the payload this one answers.
    pub id: u32,
    /// The client-bound message.
    pub message: ClientMessage,
}

impl ServerMessage {
    /// The action that the message asks the host for.
    pub open spec fn spec_action(self) -> WinbarAction {
        match self {
            ServerMessage::UpdateWindow => WinbarAction::UpdateWindow,
            ServerMessage::Shutdown => WinbarAction::Shutdown,
            ServerMessage::ShowWindow => WinbarAction::ShowWindow,
            ServerMessage::HideWindow => WinbarAction::HideWindow,
        }
    }

    /// The action that the message asks the host for.
    pub fn action(self) -> (r: WinbarAction)
        ensures
            r == self.spec_action(),
    {
        match self {
            ServerMessage::UpdateWindow => WinbarAction::UpdateWindow,
            ServerMessage::Shutdown => WinbarAction::Shutdown,
            ServerMessage::ShowWindow => WinbarAction::ShowWindow,
            ServerMessage::HideWindow => WinbarAction::HideWindow,
        }
    }
}

/// The payload that answers request `id`, given how handing its action to
/// the host went: success, or the error with its text.
pub fn respond(id: u32, outcome: Result<(), String>) -> (r: WinbarClientPayload)
    ensures
        r.id == id,
        outcome is Ok ==> r.message is Success,
        outcome matches Err(text) ==> r.message == ClientMessage::Error(text),
{
    match outcome {
        Ok(()) => WinbarClientPayload { id, message: ClientMessage::Success },
        Err(text) => WinbarClientPayload { id, message: ClientMessage::Error(text) },
    }
}

/// Hands the action that a request asks for to the host and returns the
/// payload that answers the request.
///
/// The answer carries the id of the request. It reports success where the
/// host took the action and the error's text where it did not.
pub fn process(ctx: &WinbarContext, payload: &WinbarServerPayload) -> (r: WinbarClientPayload)
    ensures
        r.id == payload.id,
{
    respond(payload.id, ctx.request(payload.message.action()))
}

} // verus!
