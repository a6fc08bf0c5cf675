//! The manager's web pages: the Steam login page a client is sent to, the
//! callback Steam answers with, and the errors these pages reply with.

use vstd::prelude::*;
use crate::address::PeerAddr;
use crate::manager::ManagerInstance;
use crate::steam::OpenIDPayload;

verus! {

/// An error of the manager's web pages.
#[derive(Debug)]
pub enum AppError {
    SessionExpired,
    GenericServerError { message: String },
    EntityNotFound { message: String },
    MissingQueryParameter(String),
    DatabaseError { message: String },
}

/// The reply to an error: the HTTP status and the members of the JSON body
/// (`param` is left out of the body when it is `None`).
#[derive(Debug)]
pub struct ErrorReply {
    pub status: u16,
    pub error: String,
    pub message: String,
    pub param: Option<String>,
}

/// The status, `error` tag, message and parameter of the reply to `e`.
pub open spec fn error_reply_spec(e: AppError) -> (u16, Seq<char>, Seq<char>, Option<Seq<char>>) {
    match e {
        AppError::MissingQueryParameter(p) => (
            400,
            "MISSING_QUERY_PARAMETER"@,
            "The parameter \""@ + p@ + "\" is required"@,
            Some(p@),
        ),
        AppError::EntityNotFound { message } => (404, "entity_not_found"@, message@, None),
        AppError::GenericServerError { message } => (500, "generic_server_error"@, message@, None),
        AppError::DatabaseError { message } => (500, "database_error"@, message@, None),
        AppError::SessionExpired => (404, "SESSION_EXPIRED"@, "Session has expired or id is invalid"@, None),
    }
}

pub open spec fn reply_matches(r: ErrorReply, e: AppError) -> bool {
    let (status, error, message, param) = error_reply_spec(e);
    &&& r.status == status
    &&& r.error@ == error
    &&& r.message@ == message
    &&& match param {
        Some(p) => r.param matches Some(q) && q@ == p,
        None => r.param is None,
    }
}

impl AppError {
    /// The reply that the page sends for this error.
    pub fn into_response(self) -> (r: ErrorReply)
        ensures
            reply_matches(r, self),
    {
        match self {
            AppError::MissingQueryParameter(param) => {
                let message = String::from_str("The parameter \"").concat(param.as_str()).concat("\" is required");
                ErrorReply {
                    status: 400,
                    error: String::from_str("MISSING_QUERY_PARAMETER"),
                    message,
                    param: Some(param),
                }
            },
            AppError::EntityNotFound { message } => ErrorReply {
                status: 404,
                error: String::from_str("entity_not_found"),
                message,
                param: None,
            },
            AppError::GenericServerError { message } => ErrorReply {
                status: 500,
                error: String::from_str("generic_server_error"),
                message,
                param: None,
            },
            AppError::DatabaseError { message } => ErrorReply {
                status: 500,
                error: String::from_str("database_error"),
                message,
                param: None,
            },
            AppError::SessionExpired => ErrorReply {
                status: 404,
                error: String::from_str("SESSION_EXPIRED"),
                message: String::from_str("Session has expired or id is invalid"),
                param: None,
            },
        }
    }
}

/// The query of the page Steam sends the user back to: the id of the client
/// that logs in, and Steam's OpenID answer.
#[derive(Debug)]
pub struct OpenIdCallback {
    pub id: String,
    pub openid: OpenIDPayload,
}

/// The values the login page is drawn with.
#[derive(Debug)]
pub struct LoginPage {
    pub host: String,
    pub id: String,
}

/// The login page: asked without an `id`, it answers that the parameter is
/// missing; for an id that is not a waiting client at the caller's address,
/// that the session expired; otherwise it is drawn with the public address
/// and the id.
pub fn route_steam_login(manager: &ManagerInstance, id: Option<String>, addr: &PeerAddr, public_url: &String) -> (r:
    Result<LoginPage, AppError>)
    requires
        manager.wf(),
    ensures
        match id {
            None => r matches Err(AppError::MissingQueryParameter(p)) && p@ == "id"@,
            Some(i) => if manager@.clients.contains_key(i@) && manager@.clients[i@].ip == addr.ip {
                r matches Ok(page) && page.host == *public_url && page.id == i
            } else {
                r matches Err(AppError::SessionExpired)
            },
        },
{
    match id {
        None => Err(AppError::MissingQueryParameter(String::from_str("id"))),
        Some(i) => {
            if manager.verify_client(i.as_str(), addr) {
                Ok(LoginPage { host: public_url.clone(), id: i })
            } else {
                Err(AppError::SessionExpired)
            }
        },
    }
}

/// A failed step of the callback (checking the answer with Steam, or
/// authorizing the client) becomes a server error carrying its message.
pub fn server_error<T>(step: Result<T, String>) -> (r: Result<T, AppError>)
    ensures
        match step {
            Ok(v) => r matches Ok(w) && w == v,
            Err(m) => r matches Err(AppError::GenericServerError { message }) && message == m,
        },
{
    match step {
        Ok(v) => Ok(v),
        Err(m) => Err(AppError::GenericServerError { message: m }),
    }
}

/// A JSON request body; one that could not be read is answered with the
/// status the reader gave and an `INVALID_JSON` body carrying its text.
#[derive(Debug)]
pub struct AppJson<T>(pub T);

impl<T> AppJson<T> {
    /// `parsed` is the body as read, or the status and text of the reader's
    /// rejection.
    pub fn from_request(parsed: Result<T, (u16, String)>) -> (r: Result<AppJson<T>, ErrorReply>)
        ensures
            match parsed {
                Ok(v) => r matches Ok(j) && j.0 == v,
                Err((status, text)) => r matches Err(e) && e.status == status && e.error@ == "INVALID_JSON"@
                    && e.message == text && e.param is None,
            },
    {
        match parsed {
            Ok(v) => Ok(AppJson(v)),
            Err((status, text)) => Err(
                ErrorReply { status, error: String::from_str("INVALID_JSON"), message: text, param: None },
            ),
        }
    }
}

} // verus!
