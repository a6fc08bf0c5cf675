//! The connection handshake between the manager and its peers, and the
//! failures the manager answers a refused login with.

use vstd::prelude::*;
use crate::messages::SteamUser;

verus! {

/// Messages that are being sent to client (Client <- Manager)
#[derive(Clone, Debug)]
pub enum ClientIncomingRequest {
    ClientJoined,
    ClientDisconnected,
    GameData {},
    Authorized { steamid2: String, auth_token: String, user: SteamUser },
    ManagerDisconnected,
}

/// Messages that are being sent to server (Server <- Manager)
#[derive(Clone, Debug)]
pub enum ServerIncomingRequest {
    Authorized,
    ManagerDisconnected,
}

/// Messages that are being received from server. (Server -> Manager)
#[derive(Clone, Debug)]
pub enum ServerOutgoingEvent {
    PlayerJoined { steamid: String },
    PlayerLeft { steamid: String },
    GameState {},
    Disconnecting,
}

/// The first message of a connection: who is logging in.
#[derive(Debug)]
pub enum InitConnectionReqPayload {
    Client { auth_token: Option<String> },
    Server { auth_token: String },
}

/// The manager's answer to the first message of a connection.
#[derive(Debug)]
pub enum InitConnectionResPayload {
    PendingClientLogin { url: String },
    ClientAuthorized,
    ServerAuthorized,
    InvalidPayload { message: Option<String> },
    AuthError(AuthFailure),
}

/// Why a login was refused.
#[derive(Debug)]
pub enum AuthFailure {
    InvalidAuthToken(Option<String>),
    Unknown,
    General(String),
    Timeout,
    ObjectNotFound,
}

/// The text a login failure is displayed as.
pub open spec fn login_failure_text(f: AuthFailure) -> Seq<char> {
    match f {
        AuthFailure::General(msg) => msg@,
        AuthFailure::InvalidAuthToken(msg) => match msg {
            Some(m) => m@,
            None => "auth token is either invalid or unauthorized"@,
        },
        AuthFailure::ObjectNotFound => "client or server being authorized does not exist"@,
        _ => "generic authentication failure"@,
    }
}

impl AuthFailure {
    /// The text the failure is displayed as.
    pub fn describe(&self) -> (r: String)
        ensures
            r@ == login_failure_text(*self),
    {
        match self {
            AuthFailure::General(msg) => msg.clone(),
            AuthFailure::InvalidAuthToken(msg) => match msg {
                Some(m) => m.clone(),
                None => String::from_str("auth token is either invalid or unauthorized"),
            },
            AuthFailure::ObjectNotFound => String::from_str(
                "client or server being authorized does not exist",
            ),
            _ => String::from_str("generic authentication failure"),
        }
    }
}

} // verus!
