//! The first exchange on a new connection to the manager: a client is sent
//! to the login page or logged in with its token; a server is logged in with
//! its token. The application runs the socket and the token checks; these
//! functions decide what is answered and what the manager keeps.

use vstd::prelude::*;
use crate::handshake::{AuthFailure, InitConnectionResPayload, login_failure_text};
use crate::manager::{ManagerInstance, ManagerView};

verus! {

/// The address of the login page for the client `id`.
pub open spec fn login_page_url(public_url: Seq<char>, id: Seq<char>) -> Seq<char> {
    public_url + "/auth/login?id="@ + id
}

pub fn login_url_for(public_url: &str, id: &str) -> (r: String)
    ensures
        r@ == login_page_url(public_url@, id@),
{
    String::from_str(public_url).concat("/auth/login?id=").concat(id)
}

/// What the manager answers a client that has just connected, as `id`,
/// and what it keeps of it. Without a token the client is sent the login
/// page, and stays. With one, `token_login` is how logging in with it went:
/// on success nothing is answered (the client is told it is authorized
/// separately); on failure the client is forgotten and told why.
pub fn client_login_reply(
    manager: &mut ManagerInstance,
    id: &str,
    token_login: Option<Result<(), AuthFailure>>,
    public_url: &str,
) -> (r: Option<InitConnectionResPayload>)
    requires
        old(manager).wf(),
    ensures
        final(manager).wf(),
        match token_login {
            None => r matches Some(InitConnectionResPayload::PendingClientLogin { url }) && url@
                == login_page_url(public_url@, id@) && final(manager)@ == old(manager)@,
            Some(Ok(())) => r is None && final(manager)@ == old(manager)@,
            Some(Err(e)) => r matches Some(InitConnectionResPayload::AuthError(AuthFailure::General(m))) && m@
                == login_failure_text(e) && final(manager)@ == (ManagerView {
                clients: old(manager)@.clients.remove(id@),
                ..old(manager)@
            }),
        },
{
    match token_login {
        None => Some(InitConnectionResPayload::PendingClientLogin { url: login_url_for(public_url, id) }),
        Some(Ok(())) => None,
        Some(Err(e)) => {
            let message = e.describe();
            manager.remove_client(id);
            Some(InitConnectionResPayload::AuthError(AuthFailure::General(message)))
        },
    }
}

/// What the manager answers a server whose login was refused.
pub fn server_login_refused(e: AuthFailure) -> (r: InitConnectionResPayload)
    ensures
        r == InitConnectionResPayload::AuthError(e),
{
    InitConnectionResPayload::AuthError(e)
}

/// What the manager answers a first message it could not read.
pub fn invalid_payload(error_text: String) -> (r: InitConnectionResPayload)
    ensures
        r == (InitConnectionResPayload::InvalidPayload { message: Some(error_text) }),
{
    InitConnectionResPayload::InvalidPayload { message: Some(error_text) }
}

/// What the manager answers a client that did not log in in time.
pub fn login_timed_out() -> (r: InitConnectionResPayload)
    ensures
        r == InitConnectionResPayload::AuthError(AuthFailure::Timeout),
{
    InitConnectionResPayload::AuthError(AuthFailure::Timeout)
}

} // verus!
