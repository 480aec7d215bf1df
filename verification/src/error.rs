//! Errors of the administrative calls.

use vstd::prelude::*;
use vstd::string::*;
use crate::id::{uuid_text, ConnectionId};

verus! {

/// Why an administrative call was refused.
#[derive(Debug, Clone, Copy, PartialEq, Eq, Structural)]
pub enum GatewayError {
    /// No live connection has this identifier.
    NotFound(ConnectionId),
    /// No connection with this identifier awaits a decision.
    NotPending(ConnectionId),
    /// The gateway is stopped.
    ServerNotRunning,
    /// The gateway is already started.
    ServerAlreadyRunning,
}

impl GatewayError {
    /// The message for this error, given the name of the call that failed and
    /// the text of the identifier involved.
    pub open spec fn message(self, op: Seq<char>, id_text: Seq<char>) -> Seq<char> {
        match self {
            GatewayError::NotFound(_) => "connection not found @ "@ + id_text,
            GatewayError::NotPending(_) => op + ": no pending connection found for id "@ + id_text,
            GatewayError::ServerNotRunning => op + ": server not running"@,
            GatewayError::ServerAlreadyRunning => "Server already running"@,
        }
    }

    /// The identifier that the error is about, if any.
    pub open spec fn subject(self) -> Option<ConnectionId> {
        match self {
            GatewayError::NotFound(id) => Some(id),
            GatewayError::NotPending(id) => Some(id),
            _ => None,
        }
    }

    /// Renders the error for the caller of `op`, with `id_text` as the text
    /// of the identifier.
    pub fn describe_with(&self, op: &str, id_text: &str) -> (text: String)
        ensures
            text@ == self.message(op@, id_text@),
    {
        match self {
            GatewayError::NotFound(_) => "connection not found @ ".to_owned().concat(id_text),
            GatewayError::NotPending(_) => op.to_owned().concat(
                ": no pending connection found for id ",
            ).concat(id_text),
            GatewayError::ServerNotRunning => op.to_owned().concat(": server not running"),
            GatewayError::ServerAlreadyRunning => "Server already running".to_owned(),
        }
    }

    /// Renders the error for the caller of `op`. An identifier is shown as
    /// a UUID.
    pub fn describe(&self, op: &str) -> (text: String)
        ensures
            text@ == self.message(
                op@,
                match self.subject() {
                    Some(id) => uuid_text(id@),
                    None => Seq::empty(),
                },
            ),
    {
        match self {
            GatewayError::NotFound(id) => {
                let id_text = id.to_text();
                self.describe_with(op, id_text.as_str())
            },
            GatewayError::NotPending(id) => {
                let id_text = id.to_text();
                self.describe_with(op, id_text.as_str())
            },
            _ => self.describe_with(op, ""),
        }
    }
}

} // verus!
