//! The messages exchanged between game servers, the manager and overlay
//! clients, and the errors they carry.

use vstd::prelude::*;
use crate::game::{ServerInfo, TeamConfig};

verus! {

/// The type of an element's state.
pub type ElementState = serde_json::Value;

#[derive(Clone, Copy, Debug)]
pub struct ElementOptions {
    /// If set, after N seconds after element started on client, it will delete itself
    /// Default: None
    pub expires_seconds: Option<u64>,
    /// Should element be visible to client on start?
    /// Default: false
    pub start_visible: Option<bool>,
}

#[derive(Clone, Debug)]
pub enum ClientSelection {
    /// Apply to a single steamid
    Steamid { steamid: String },
    /// Apply to multiple steamids
    Steamids { steamids: Vec<String> },
    /// apply to all clients connected to server
    All,
}

#[derive(Clone, Debug)]
pub struct SteamUser {
    pub avatar: String,
    pub avatar_full: String,
    pub avatar_hash: String,
    pub avatar_medium: String,
    pub community_visibility_state: i64,
    pub last_log_off: i64,
    pub loc_country_code: String,
    pub loc_state_code: String,
    pub persona_name: String,
    pub persona_state: i64,
    pub persona_state_flags: i64,
    pub primary_clan_id: String,
    pub profile_state: i64,
    pub profile_url: String,
    pub steamid: String,
    pub time_created: i64,
}

/// Which players a server request is meant for.
#[derive(Clone, Debug)]
pub enum TargetSelection {
    /// A single player
    SteamID(String),
    SteamIDs(Vec<String>),
    /// All players
    All,
}

/// Messages that are being sent to client (Client <- Manager). The volume and
/// start time of an audio change are carried by the application's copy.
#[derive(Debug)]
pub enum ClientEvent {
    /// The server client is connected to has changed (either connected, switched, or disconnected)
    ChangedServer(Option<ServerInfo>),
    JoinedServer { server_id: String, server_name: String, server_ip: String },
    LeftServer,
    GameData {},
    Authorized { steamid2: String, auth_token: String, user: SteamUser },
    /// Server is requesting a new element to be displayed
    RequestElement {
        elem_id: String,
        template_id: String,
        state: ElementState,
        options: Option<ElementOptions>,
    },
    /// Server is updating an existing element
    UpdateElement { elem_id: String, state: ElementState, new_options: Option<ElementOptions> },
    ChangeAudioState { source: String, state: u8, repeat: Option<bool> },
}

/// Messages that are being sent to server (Server <- Manager)
#[derive(Clone, Debug)]
pub enum ServerEvent {
    Authorized,
    ManagerDisconnected,
    Action { steamid2: String, command: String, namespace: String, input: String, instance_id: String },
}

/// Messages that are being received from the client (Client -> Manager)
#[derive(Clone, Debug)]
pub enum ClientRequest {
    /// Perform an action (command) on server
    Action { command: String, namespace: String, input: String, instance_id: String },
}

/// Messages that are being received from server. (Server -> Manager). The
/// volume and start time of an audio change are carried by the application's
/// copy.
#[derive(Debug)]
pub enum ServerRequest {
    InitialServerInfo { hostname: String, teams: Vec<TeamConfig> },
    ServerInfo { hostname: Option<String> },
    PlayerJoined { steamid: String },
    PlayerLeft { steamid: String },
    GameState {},
    /// Creates a new element for a client
    RequestElement {
        target: TargetSelection,
        elem_id: String,
        template_id: String,
        state: ElementState,
        options: Option<ElementOptions>,
    },
    /// Updates an element by id, with optional new options (overwrites existing)
    UpdateElement {
        target: TargetSelection,
        elem_id: String,
        state: ElementState,
        new_options: Option<ElementOptions>,
    },
    ChangeAudioState {
        steamids: Option<Vec<String>>,
        source: String,
        state: u8,
        repeat: Option<bool>,
    },
}

/// Requests from connections before authenticated
/// After authentication, it becomes ClientRequest or ServerRequest
#[derive(Debug)]
pub enum AuthRequest {
    Client { auth_token: Option<String> },
    Server(AuthReq_Server),
}

#[allow(non_camel_case_types)]
#[derive(Debug)]
pub struct AuthReq_Server {
    pub auth_token: String,
    pub info: InitialServerInfo,
}

/// Initial server information, sent in authentication, before server is registered
/// Necessary to prevent Option<...> in server
#[derive(Debug)]
pub struct InitialServerInfo {
    pub hostname: String,
    pub teams: Vec<TeamConfig>,
    pub game_type: u32,
}

/// Represents an authentication error
#[derive(Debug)]
pub enum AuthFailure {
    InvalidAuthToken { message: Option<String> },
    InternalError { message: Option<String> },
    IPMismatch { message: String },
    Unknown,
    BadRequest { message: String },
    Timeout,
    ObjectNotFound,
}

#[derive(Debug)]
pub enum WSRequest {
    Auth(AuthRequest),
    Server(ServerRequest),
}

/// Any response from manager (to either client OR server)
#[derive(Debug)]
pub enum WSResponse {
    /// An error occurred processing auth
    Error(AppError),
    /// Client has started an oauth2 login session
    PendingLogin { url: String },
    /// A bad or malformed request was made
    InvalidRequest { message: Option<String> },
    /// Session was started successfully
    SessionStarted { sess_token: String, expires_at: u64 },
    ServerEvent(ServerEvent),
}

#[derive(Debug)]
pub enum AppError {
    AuthError(AuthFailure),
    SocketError { message: Option<String> },
    BadRequest { message: Option<String> },
    InternalServerError { message: String },
    EntityNotFound { message: String },
    MissingQueryParameter(String),
    DatabaseError { message: String },
}

/// The text an authentication failure is displayed as.
pub open spec fn auth_failure_text(f: AuthFailure) -> Seq<char> {
    match f {
        AuthFailure::BadRequest { message } => message@,
        AuthFailure::InvalidAuthToken { message } => match message {
            Some(m) => m@,
            None => "auth token is either invalid or unauthorized"@,
        },
        AuthFailure::ObjectNotFound => "client or server being authorized does not exist"@,
        _ => "generic authentication failure"@,
    }
}

impl AuthFailure {
    /// The text the failure is displayed as.
    pub fn describe(&self) -> (r: String)
        ensures
            r@ == auth_failure_text(*self),
    {
        match self {
            AuthFailure::BadRequest { message } => message.clone(),
            AuthFailure::InvalidAuthToken { message } => match message {
                Some(m) => m.clone(),
                None => String::from_str("auth token is either invalid or unauthorized"),
            },
            AuthFailure::ObjectNotFound => String::from_str(
                "client or server being authorized does not exist",
            ),
            _ => String::from_str("generic authentication failure"),
        }
    }
}

/// An authentication failure as an HTTP error response.
#[derive(Debug)]
pub struct ResponseError(pub AuthFailure);

impl From<AuthFailure> for ResponseError {
    fn from(err: AuthFailure) -> (r: ResponseError) {
        ResponseError(err)
    }
}

impl vstd::std_specs::convert::FromSpecImpl<AuthFailure> for ResponseError {
    open spec fn obeys_from_spec() -> bool {
        true
    }

    open spec fn from_spec(err: AuthFailure) -> ResponseError {
        ResponseError(err)
    }
}

/// The HTTP status an authentication failure is answered with.
pub open spec fn auth_failure_status(f: AuthFailure) -> u16 {
    match f {
        AuthFailure::Unknown => 400,
        AuthFailure::ObjectNotFound => 404,
        AuthFailure::InvalidAuthToken { .. } => 400,
        AuthFailure::IPMismatch { .. } => 401,
        AuthFailure::Timeout => 408,
        _ => 500,
    }
}

impl ResponseError {
    pub fn status_code(&self) -> (r: u16)
        ensures
            r == auth_failure_status(self.0),
    {
        match self.0 {
            AuthFailure::Unknown => 400,
            AuthFailure::ObjectNotFound => 404,
            AuthFailure::InvalidAuthToken { .. } => 400,
            AuthFailure::IPMismatch { .. } => 401,
            AuthFailure::Timeout => 408,
            _ => 500,
        }
    }
}

} // verus!
