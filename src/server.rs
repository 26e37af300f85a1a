//! The web-socket server's own rules: which connection requests it accepts,
//! what it replies to each incoming message, and the close code for each
//! read failure.

use vstd::prelude::*;

verus! {

/// Supplies the server's timeouts.
pub struct ServerTimer;

/// Handles one upgraded web-socket connection.
pub struct WebSocket;

/// The query string of a connection request.
pub struct QueryParams {
    pub session: String,
}

/// Why a connection request is refused.
#[derive(Clone, Copy, Debug, PartialEq, Eq, Structural)]
pub enum ConnectionRejection {
    /// The request could not be upgraded to a web socket.
    NotUpgradable,
    /// The request has no query string.
    MissingQuery,
    /// The query string does not parse.
    InvalidQuery,
    /// The session id is empty.
    MissingSession,
}

/// Where an incoming command was forwarded.
#[derive(Clone, Copy, Debug, PartialEq, Eq, Structural)]
pub enum CommandTarget {
    /// The queue of the device dispatcher.
    Devices,
    /// The queue of the LED strip.
    Leds,
}

/// Ways reading a web-socket message can fail, short of the connection's own
/// I/O failing.
#[derive(Clone, Copy, Debug, PartialEq, Eq, Structural)]
pub enum ReadFailure {
    TextIsNotUtf8,
    ReservedOpcode,
    ReadFrame,
    UnexpectedMessageStart,
    MessageStartsWithContinuation,
}

/// Close code for a frame whose text is not valid UTF-8.
pub const CLOSE_INVALID_PAYLOAD: u16 = 1007;

/// Close code for a frame whose type the server does not accept.
pub const CLOSE_UNSUPPORTED_DATA: u16 = 1003;

/// Close code for a frame that breaks the protocol.
pub const CLOSE_PROTOCOL_ERROR: u16 = 1002;

/// The close code the server sends after a read failure.
pub open spec fn close_code_of(f: ReadFailure) -> u16 {
    match f {
        ReadFailure::TextIsNotUtf8 => CLOSE_INVALID_PAYLOAD,
        ReadFailure::ReservedOpcode => CLOSE_UNSUPPORTED_DATA,
        _ => CLOSE_PROTOCOL_ERROR,
    }
}

impl ConnectionRejection {
    /// The text sent back with the refusal.
    pub fn message(&self) -> (r: &'static str)
        ensures
            *self == ConnectionRejection::NotUpgradable ==> r@ == "Failed to extract WebSocketUpgrade"@,
            *self == ConnectionRejection::MissingQuery ==> r@ == "Missing query parameters"@,
            *self == ConnectionRejection::InvalidQuery ==> r@ == "Invalid query parameters"@,
            *self == ConnectionRejection::MissingSession ==> r@ == "Session ID is required"@,
    {
        match self {
            ConnectionRejection::NotUpgradable => "Failed to extract WebSocketUpgrade",
            ConnectionRejection::MissingQuery => "Missing query parameters",
            ConnectionRejection::InvalidQuery => "Invalid query parameters",
            ConnectionRejection::MissingSession => "Session ID is required",
        }
    }
}

impl QueryParams {
    /// The query of a connection request that names a session; a request
    /// with an empty session id is refused.
    pub fn validate(self) -> (r: Result<QueryParams, ConnectionRejection>)
        ensures
            r is Ok <==> self.session@.len() > 0,
            r matches Ok(q) ==> q.session@ == self.session@,
            r matches Err(e) ==> e == ConnectionRejection::MissingSession,
    {
        if self.session.as_str().is_empty() {
            Err(ConnectionRejection::MissingSession)
        } else {
            Ok(self)
        }
    }
}

/// The reply to an incoming message: which queue the command went to, or
/// `None` when the message did not hold a command.
pub fn reply_text(forwarded: Option<CommandTarget>) -> (r: &'static str)
    ensures
        forwarded == Some(CommandTarget::Devices) ==> r@ == "I2C command received and forwarded"@,
        forwarded == Some(CommandTarget::Leds) ==> r@ == "LED command received and forwarded"@,
        forwarded is None ==> r@ == "Invalid command format"@,
{
    match forwarded {
        Some(CommandTarget::Devices) => "I2C command received and forwarded",
        Some(CommandTarget::Leds) => "LED command received and forwarded",
        None => "Invalid command format",
    }
}

/// The close code the server sends after a read failure.
pub fn close_code(f: ReadFailure) -> (r: u16)
    ensures
        r == close_code_of(f),
{
    match f {
        ReadFailure::TextIsNotUtf8 => CLOSE_INVALID_PAYLOAD,
        ReadFailure::ReservedOpcode => CLOSE_UNSUPPORTED_DATA,
        ReadFailure::ReadFrame => CLOSE_PROTOCOL_ERROR,
        ReadFailure::UnexpectedMessageStart => CLOSE_PROTOCOL_ERROR,
        ReadFailure::MessageStartsWithContinuation => CLOSE_PROTOCOL_ERROR,
    }
}

} // verus!
