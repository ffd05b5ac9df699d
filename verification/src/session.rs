//! The state of one WebSocket connection and its authentication handshake:
//! the client has five seconds to send `{"type": "auth", "payload": {"token":
//! ...}}`; any other first message, a bad token or an unknown account ends
//! the connection.
use vstd::prelude::*;
use crate::account::Account;
use crate::auth::TokenCheck;
use crate::ids::{parse_uuid, spec_parse_uuid};
use crate::protocol::WsMessage;
use crate::text::text_eq;
use crate::time::utc_now_millis;

verus! {

/// How long a new connection may take to authenticate, in seconds.
pub const AUTH_TIMEOUT_SECS: u64 = 5;

/// The state of a connection.
#[derive(Debug, Clone)]
pub enum SessionState {
    /// Open, waiting for authentication.
    Connected,
    /// Authenticated as an account.
    Authenticated { account_id: u128, username: String },
    /// Closed.
    Disconnected,
}

/// One WebSocket connection.
#[derive(Debug)]
pub struct WsSession {
    pub state: SessionState,
    /// When the connection was opened, in milliseconds since the Unix epoch.
    pub connected_at_ms: i64,
}

/// The error a connection is closed with when it did not authenticate in time.
pub open spec fn auth_timeout_message(m: WsMessage) -> bool {
    m matches WsMessage::Error { request_id, code, message } && request_id is None && code@
        == "AUTH_TIMEOUT"@ && message@ == "Authentication timeout"@
}

/// The error a connection is closed with when its authentication failed.
pub open spec fn auth_failed_message(m: WsMessage) -> bool {
    m matches WsMessage::Error { request_id, code, message } && request_id is None && code@
        == "AUTH_FAILED"@ && message@ == "Invalid credentials or token format"@
}

/// The token of a first message, if that message is an authentication
/// request: the message must have been read as a type and a token, and the
/// type must be `auth`.
pub fn handshake_token(first: Option<(String, String)>) -> (res: Option<String>)
    ensures
        match first {
            Some((ty, token)) => if ty@ == "auth"@ {
                res == Some(token)
            } else {
                res is None
            },
            None => res is None,
        },
{
    match first {
        Some((ty, token)) => {
            if text_eq(ty.as_str(), "auth") {
                Some(token)
            } else {
                None
            }
        },
        None => None,
    }
}

/// The account a handshake token stands for: only a valid token whose
/// subject is a UUID stands for one; an expired token fails like any other.
pub fn handshake_account(check: TokenCheck) -> (res: Option<u128>)
    ensures
        match check {
            TokenCheck::Valid { sub } => res == spec_parse_uuid(sub@),
            _ => res is None,
        },
{
    match check {
        TokenCheck::Valid { sub } => parse_uuid(sub.as_str()),
        _ => None,
    }
}

impl WsSession {
    /// A connection just opened, waiting for authentication.
    pub fn new() -> (s: WsSession)
        ensures
            s.state is Connected,
    {
        WsSession { state: SessionState::Connected, connected_at_ms: utc_now_millis() }
    }

    /// Marks the connection as authenticated as an account.
    pub fn authenticate(&mut self, account_id: u128, username: String)
        ensures
            final(self).state == (SessionState::Authenticated { account_id, username }),
            final(self).connected_at_ms == old(self).connected_at_ms,
    {
        self.state = SessionState::Authenticated { account_id, username };
    }

    /// Marks the connection as closed.
    pub fn disconnect(&mut self)
        ensures
            final(self).state is Disconnected,
            final(self).connected_at_ms == old(self).connected_at_ms,
    {
        self.state = SessionState::Disconnected;
    }

    /// The account the connection is authenticated as, if it is.
    pub fn account_id(&self) -> (res: Option<u128>)
        ensures
            match self.state {
                SessionState::Authenticated { account_id, .. } => res == Some(account_id),
                _ => res is None,
            },
    {
        match &self.state {
            SessionState::Authenticated { account_id, .. } => Some(*account_id),
            _ => None,
        }
    }

    /// Whether the connection is authenticated.
    pub fn is_authenticated(&self) -> (res: bool)
        ensures
            res == self.state is Authenticated,
    {
        match &self.state {
            SessionState::Authenticated { .. } => true,
            _ => false,
        }
    }

    /// The client did not authenticate in time: the connection is closed with
    /// an `AUTH_TIMEOUT` error.
    pub fn on_auth_timeout(&mut self) -> (m: WsMessage)
        ensures
            final(self).state is Disconnected,
            auth_timeout_message(m),
    {
        self.disconnect();
        WsMessage::Error {
            request_id: None,
            code: String::from_str("AUTH_TIMEOUT"),
            message: String::from_str("Authentication timeout"),
        }
    }

    /// Ends the handshake with the account the token's subject named, as
    /// looked up (`None` when there was no usable token, the lookup failed or
    /// no such account exists). With an account the connection is
    /// authenticated as it and nothing is sent; without one it is closed with
    /// an `AUTH_FAILED` error.
    pub fn finish_auth(&mut self, account: Option<Account>) -> (reply: Option<WsMessage>)
        ensures
            match account {
                Some(a) => reply is None && final(self).state == (SessionState::Authenticated {
                    account_id: a.id,
                    username: a.username,
                }),
                None => final(self).state is Disconnected && (reply matches Some(m)
                    && auth_failed_message(m)),
            },
    {
        match account {
            Some(a) => {
                self.authenticate(a.id, a.username);
                None
            },
            None => {
                self.disconnect();
                Some(
                    WsMessage::Error {
                        request_id: None,
                        code: String::from_str("AUTH_FAILED"),
                        message: String::from_str("Invalid credentials or token format"),
                    },
                )
            },
        }
    }
}

impl Default for WsSession {
    fn default() -> (s: WsSession)
        ensures
            s.state is Connected,
    {
        WsSession::new()
    }
}

} // verus!
