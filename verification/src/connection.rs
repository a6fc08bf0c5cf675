//! The overlay's link to the manager: reconnecting with a delay that grows
//! with each failed attempt,
//! logging in, and the state shown to the player. The socket itself lives in
//! the application, which reports what happened to it.

use vstd::prelude::*;
use crate::messages::{ClientEvent, ClientRequest, SteamUser, WSResponse};
use crate::handshake::{ClientIncomingRequest, InitConnectionResPayload};
use crate::overlay::ServerInfo;

verus! {

/// Represents the state of the manager's connection
#[derive(Debug)]
pub enum ManagerConnStatus {
    /// Manager has been disconnected
    Disconnected { reason: Option<String> },
    /// Manager is connected, either for first time or reconnected.
    /// May or may not be authenticated
    Connected,
    /// Manager is connected, has sent auth details, is waiting for response
    /// ClientIncomingRequest:Authorized sent if authorized
    WaitingForAuth,
}

/// What the UI reads of the manager connection.
#[derive(Debug)]
pub struct ManagerState {
    pub connection_status: ManagerConnStatus,
    pub server: Option<ServerInfo>,
}

impl ManagerState {
    pub fn new() -> (r: ManagerState)
        ensures
            r.connection_status matches ManagerConnStatus::Disconnected { reason: None },
            r.server is None,
    {
        ManagerState { server: None, connection_status: ManagerConnStatus::Disconnected { reason: None } }
    }
}

/// The manager accepted the client's login.
#[derive(Debug)]
pub struct ClientAuthorized {
    pub steamid2: String,
    pub user: SteamUser,
    pub auth_token: String,
}

/// Whether a message read from the manager goes on to the UI.
#[derive(Clone, Copy, Debug, PartialEq, Eq, Structural)]
pub enum ReadResult {
    /// Continue to send to UI
    Continue,
    /// Do not send to UI
    Handled,
}

/// How long to wait before the next connection attempt, in milliseconds,
/// after `attempts` counted failures: half a second times the square of
/// `attempts`.
pub open spec fn retry_delay_spec(attempts: u16) -> int {
    attempts * attempts * 500
}

pub fn retry_delay_ms(attempts: u16) -> (r: u64)
    ensures
        r == retry_delay_spec(attempts),
{
    let a: u64 = attempts as u64;
    assert(a * a <= 65535 * 65535) by (nonlinear_arith)
        requires
            a <= 65535,
    ;
    a * a * 500
}

/// The delay grows strictly with each counted failure.
pub proof fn law_retry_delay_increases(a: u16, b: u16)
    requires
        a < b,
    ensures
        retry_delay_spec(a) < retry_delay_spec(b),
{
    assert(a * a < b * b) by (nonlinear_arith)
        requires
            a < b,
    ;
}

/// How an attempt to open a socket to the manager went.
#[derive(Clone, Copy, Debug, PartialEq, Eq, Structural)]
pub enum ConnectOutcome {
    /// The socket is open.
    Connected,
    /// The network connection could not be made: a failed attempt.
    TcpFailed,
    /// The connection was made but the websocket handshake failed: a failed
    /// attempt.
    HandshakeFailed,
}

/// What one read from the manager's socket gave.
#[derive(Debug)]
pub enum ReadOutcome {
    Message(ClientEvent),
    /// The socket failed with an I/O error: the connection is lost.
    Lost,
    /// Any other error (a message that could not be read, no socket).
    Failed,
}

/// What the read loop does next.
#[derive(Debug)]
pub enum ReadAction {
    /// Pass the message on to the UI.
    Forward(ClientEvent),
    /// Wait for a new connection.
    Reconnect,
    Ignore,
}

/// The state of the overlay's connection to the manager.
#[derive(Debug)]
pub struct WebsocketClient {
    connected: bool,
    connect_attempts: u16,
    authorized: bool,
}

pub struct ConnectionView {
    /// A socket is open.
    pub connected: bool,
    /// Failed attempts since the last successful one.
    pub connect_attempts: u16,
    /// The manager has accepted the login on this socket.
    pub authorized: bool,
}

/// The connection after one attempt with `outcome` from `before`, and the
/// delay returned: none after a success; after a failure, the delay for the
/// count with this failure added.
pub open spec fn after_attempt(before: ConnectionView, outcome: ConnectOutcome) -> (
    ConnectionView,
    Option<int>,
) {
    match outcome {
        ConnectOutcome::Connected => (
            ConnectionView { connected: true, connect_attempts: 0, authorized: false },
            None,
        ),
        _ => (
            ConnectionView {
                connect_attempts: (before.connect_attempts + 1) as u16,
                authorized: false,
                ..before
            },
            Some(retry_delay_spec((before.connect_attempts + 1) as u16)),
        ),
    }
}

/// Two failed attempts in a row, of either kind, return delays of which the
/// second is the longer: the back-off grows with each failure.
pub proof fn law_failed_attempts_back_off(
    before: ConnectionView,
    first: ConnectOutcome,
    second: ConnectOutcome,
)
    requires
        first != ConnectOutcome::Connected,
        second != ConnectOutcome::Connected,
        before.connect_attempts + 2 <= u16::MAX,
    ensures
        ({
            let (mid, d1) = after_attempt(before, first);
            let (_, d2) = after_attempt(mid, second);
            d1 matches Some(a) && d2 matches Some(b) && a < b
        }),
{
    law_retry_delay_increases(
        (before.connect_attempts + 1) as u16,
        (before.connect_attempts + 2) as u16,
    );
}

impl View for WebsocketClient {
    type V = ConnectionView;

    closed spec fn view(&self) -> ConnectionView {
        ConnectionView {
            connected: self.connected,
            connect_attempts: self.connect_attempts,
            authorized: self.authorized,
        }
    }
}

impl WebsocketClient {
    pub fn new() -> (r: WebsocketClient)
        ensures
            r@ == (ConnectionView { connected: false, connect_attempts: 0, authorized: false }),
    {
        WebsocketClient { connected: false, connect_attempts: 0, authorized: false }
    }

    pub fn is_connected(&self) -> (r: bool)
        ensures
            r == self@.connected,
    {
        self.connected
    }

    pub fn is_authorized(&self) -> (r: bool)
        ensures
            r == self@.authorized,
    {
        self.authorized
    }

    pub fn connect_attempts(&self) -> (r: u16)
        ensures
            r == self@.connect_attempts,
    {
        self.connect_attempts
    }

    /// The application tried to open a socket to the manager, with
    /// `outcome`. Any attempt forgets the login. A success opens the socket
    /// and resets the count of failed attempts; a failure, of the network
    /// connection or of the handshake, adds one to the count and leaves any
    /// socket that was open. After a failure, returns how long to wait before
    /// the next attempt, in milliseconds, for the count as it now is: each
    /// failure in a row waits longer than the one before.
    pub fn reconnect_delayed(&mut self, outcome: ConnectOutcome) -> (r: Option<u64>)
        requires
            outcome == ConnectOutcome::Connected || old(self)@.connect_attempts < u16::MAX,
        ensures
            final(self)@ == after_attempt(old(self)@, outcome).0,
            match after_attempt(old(self)@, outcome).1 {
                None => r is None,
                Some(d) => r matches Some(x) && x == d,
            },
    {
        self.authorized = false;
        match outcome {
            ConnectOutcome::Connected => {
                self.connected = true;
                self.connect_attempts = 0;
                None
            },
            _ => {
                self.connect_attempts = self.connect_attempts + 1;
                Some(retry_delay_ms(self.connect_attempts))
            },
        }
    }

    /// Checks that a message can be sent.
    pub fn check_send(&self) -> (r: Result<(), String>)
        ensures
            r is Ok <==> self@.connected,
            r matches Err(e) ==> e@ == "Not connected to socket"@,
    {
        if !self.connected {
            return Err(String::from_str("Not connected to socket"));
        }
        Ok(())
    }

    /// The message that was read while waiting for the login to be accepted
    /// (or the error reading it gave): the login is accepted exactly when the
    /// manager says `Authorized`.
    pub fn wait_for_authorized(&mut self, read: Result<ClientEvent, String>) -> (r: Result<ClientAuthorized, String>)
        ensures
            match read {
                Ok(ClientEvent::Authorized { steamid2, auth_token, user }) => r matches Ok(a)
                    && a.steamid2 == steamid2 && a.auth_token == auth_token && a.user == user
                    && final(self)@ == (ConnectionView { authorized: true, ..old(self)@ }),
                Ok(_) => r matches Err(e) && e@ == "manager sent unexpected data"@ && final(self)@ == old(
                    self,
                )@,
                Err(e) => r == Err::<ClientAuthorized, String>(e) && final(self)@ == old(self)@,
            },
    {
        match read {
            Ok(ClientEvent::Authorized { steamid2, auth_token, user }) => {
                self.authorized = true;
                Ok(ClientAuthorized { steamid2, user, auth_token })
            },
            Ok(_) => Err(String::from_str("manager sent unexpected data")),
            Err(e) => Err(e),
        }
    }

    /// Whether sending an action still has to wait, `elapsed_secs` after it
    /// was asked for: it waits while the login is not accepted, for at most
    /// 30 seconds; then it is sent, or fails for want of a login.
    pub fn action_must_wait(&self, elapsed_secs: u64) -> (r: bool)
        ensures
            r == (!self@.authorized && elapsed_secs <= 30),
    {
        !self.authorized && elapsed_secs <= 30
    }

    /// Processes a message read from the manager; every message goes on to
    /// the UI.
    pub fn process_request(&mut self, req: &ClientEvent) -> (r: ReadResult)
        ensures
            r == ReadResult::Continue,
            final(self)@ == old(self)@,
    {
        ReadResult::Continue
    }

    /// The request to send for an action, once the wait for the login is
    /// over: without an accepted login the action fails; without a socket it
    /// cannot be sent; otherwise it is the action, a missing input sent as
    /// the empty text.
    pub fn send_action(&self, instance_id: String, namespace: String, command: String, input: Option<String>) -> (r:
        Result<ClientRequest, String>)
        ensures
            !self@.authorized ==> (r matches Err(e) && e@ == "Authentication time out"@),
            self@.authorized && !self@.connected ==> (r matches Err(e) && e@ == "Not connected to socket"@),
            self@.authorized && self@.connected ==> (r matches Ok(ClientRequest::Action { command: c, namespace: n, input: i, instance_id: id })
                && c == command && n == namespace && id == instance_id && match input {
                Some(t) => i == t,
                None => i@ == Seq::<char>::empty(),
            }),
    {
        if !self.authorized {
            return Err(String::from_str("Authentication time out"));
        }
        match self.check_send() {
            Err(e) => Err(e),
            Ok(()) => Ok(action_request(instance_id, namespace, command, input)),
        }
    }

    /// What the read loop does with the outcome of one read: a message goes
    /// on to the UI (as `process_request` says); a lost socket means
    /// reconnecting, and the socket is closed and the login forgotten; other
    /// errors are ignored.
    pub fn after_read(&mut self, outcome: ReadOutcome) -> (r: ReadAction)
        ensures
            match outcome {
                ReadOutcome::Message(ev) => r == ReadAction::Forward(ev) && final(self)@ == old(self)@,
                ReadOutcome::Lost => r == ReadAction::Reconnect && final(self)@ == (ConnectionView {
                    connected: false,
                    authorized: false,
                    ..old(self)@
                }),
                ReadOutcome::Failed => r == ReadAction::Ignore && final(self)@ == old(self)@,
            },
    {
        match outcome {
            ReadOutcome::Message(ev) => {
                if self.process_request(&ev) == ReadResult::Continue {
                    ReadAction::Forward(ev)
                } else {
                    ReadAction::Ignore
                }
            },
            ReadOutcome::Lost => {
                self.connected = false;
                self.authorized = false;
                ReadAction::Reconnect
            },
            ReadOutcome::Failed => ReadAction::Ignore,
        }
    }
}

/// One step of waiting for a connection: after `count` failed attempts and
/// one more, gives up (`None`) when more than `max_attempts` have failed,
/// otherwise returns the new count, to sleep and try again.
pub fn after_failed_attempt(count: u16, max_attempts: Option<u16>) -> (r: Option<u16>)
    requires
        count < u16::MAX,
    ensures
        match max_attempts {
            Some(m) => if count + 1 > m {
                r is None
            } else {
                r == Some((count + 1) as u16)
            },
            None => r == Some((count + 1) as u16),
        },
{
    let c = count + 1;
    match max_attempts {
        Some(max) => if c > max {
            None
        } else {
            Some(c)
        },
        None => Some(c),
    }
}

/// The login page the manager answered a first login with; any other answer
/// is unexpected.
pub fn login_url(resp: WSResponse) -> (r: Result<String, String>)
    ensures
        match resp {
            WSResponse::PendingLogin { url } => r == Ok::<String, String>(url),
            _ => r matches Err(e) && e@ == "manager returned unexpected response"@,
        },
{
    match resp {
        WSResponse::PendingLogin { url } => Ok(url),
        _ => Err(String::from_str("manager returned unexpected response")),
    }
}

/// The request that performs an action on the server; a missing input is
/// sent as the empty text.
pub fn action_request(instance_id: String, namespace: String, command: String, input: Option<String>) -> (r:
    ClientRequest)
    ensures
        r matches ClientRequest::Action { command: c, namespace: n, input: i, instance_id: id } && c
            == command && n == namespace && id == instance_id && match input {
            Some(t) => i == t,
            None => i@ == Seq::<char>::empty(),
        },
{
    let input = match input {
        Some(t) => t,
        None => String::new(),
    };
    ClientRequest::Action { command, namespace, input, instance_id }
}

/// The desktop application's link to the manager: like `WebsocketClient`,
/// without the login flag; the messages it reads may also be frames that
/// carry no text.
#[derive(Debug)]
pub struct OverlayManagerInstance {
    url: String,
    connected: bool,
    connect_attempts: u16,
}

impl OverlayManagerInstance {
    pub closed spec fn spec_url(&self) -> Seq<char> {
        self.url@
    }

    pub closed spec fn spec_connected(&self) -> bool {
        self.connected
    }

    pub closed spec fn spec_connect_attempts(&self) -> u16 {
        self.connect_attempts
    }

    pub fn new(url: String) -> (r: OverlayManagerInstance)
        ensures
            r.spec_url() == url@,
            !r.spec_connected(),
            r.spec_connect_attempts() == 0,
    {
        OverlayManagerInstance { url, connected: false, connect_attempts: 0 }
    }

    pub fn url(&self) -> (r: &String)
        ensures
            r@ == self.spec_url(),
    {
        &self.url
    }

    pub fn is_connected(&self) -> (r: bool)
        ensures
            r == self.spec_connected(),
    {
        self.connected
    }

    /// As `WebsocketClient::reconnect_delayed`: a success opens the socket
    /// and resets the count; a failure of either kind counts one more. After
    /// a failure, returns the delay before the next attempt, in
    /// milliseconds, for the count as it now is.
    pub fn reconnect_delayed(&mut self, outcome: ConnectOutcome) -> (r: Option<u64>)
        requires
            outcome == ConnectOutcome::Connected || old(self).spec_connect_attempts() < u16::MAX,
        ensures
            final(self).spec_url() == old(self).spec_url(),
            match outcome {
                ConnectOutcome::Connected => r is None && final(self).spec_connected()
                    && final(self).spec_connect_attempts() == 0,
                _ => r matches Some(d) && d == retry_delay_spec(
                    (old(self).spec_connect_attempts() + 1) as u16,
                ) && final(self).spec_connected() == old(self).spec_connected()
                    && final(self).spec_connect_attempts() == old(self).spec_connect_attempts() + 1,
            },
    {
        match outcome {
            ConnectOutcome::Connected => {
                self.connected = true;
                self.connect_attempts = 0;
                None
            },
            _ => {
                self.connect_attempts = self.connect_attempts + 1;
                Some(retry_delay_ms(self.connect_attempts))
            },
        }
    }

    /// One message read while waiting for the login to be accepted: `None`
    /// (keep reading) for a frame without text, the login details for
    /// `Authorized`, an error for anything else.
    pub fn wait_for_authorized(&self, read: Result<Option<ClientIncomingRequest>, String>) -> (r: Option<
        Result<ClientAuthorized, String>,
    >)
        ensures
            match read {
                Ok(Some(ClientIncomingRequest::Authorized { steamid2, auth_token, user })) => r matches Some(
                    Ok(a),
                ) && a.steamid2 == steamid2 && a.auth_token == auth_token && a.user == user,
                Ok(Some(_)) => r matches Some(Err(e)) && e@ == "manager sent unexpected data"@,
                Ok(None) => r is None,
                Err(e) => r == Some(Err::<ClientAuthorized, String>(e)),
            },
    {
        match read {
            Ok(Some(ClientIncomingRequest::Authorized { steamid2, auth_token, user })) => {
                Some(Ok(ClientAuthorized { steamid2, user, auth_token }))
            },
            Ok(Some(_)) => Some(Err(String::from_str("manager sent unexpected data"))),
            Ok(None) => None,
            Err(e) => Some(Err(e)),
        }
    }

    /// Checks that a message can be sent.
    pub fn check_send(&self) -> (r: Result<(), String>)
        ensures
            r is Ok <==> self.spec_connected(),
            r matches Err(e) ==> e@ == "Not connected to socket"@,
    {
        if !self.connected {
            return Err(String::from_str("Not connected to socket"));
        }
        Ok(())
    }
}

/// The login page the manager answered a first login with, on the desktop
/// application's protocol; any other answer is unexpected.
pub fn pending_login_url(resp: InitConnectionResPayload) -> (r: Result<String, String>)
    ensures
        match resp {
            InitConnectionResPayload::PendingClientLogin { url } => r == Ok::<String, String>(url),
            _ => r matches Err(e) && e@ == "manager returned unexpected response"@,
        },
{
    match resp {
        InitConnectionResPayload::PendingClientLogin { url } => Ok(url),
        _ => Err(String::from_str("manager returned unexpected response")),
    }
}

/// The path under the manager's web address at which a template is fetched.
pub open spec fn template_path_spec(namespace: Seq<char>, id: Seq<char>) -> Seq<char> {
    "/templates/"@ + namespace + "/"@ + id
}

pub fn template_path(namespace: &str, id: &str) -> (r: String)
    ensures
        r@ == template_path_spec(namespace@, id@),
{
    String::from_str("/templates/").concat(namespace).concat("/").concat(id)
}

/// What fetching a template does once the manager's status is known.
#[derive(Clone, Copy, Debug, PartialEq, Eq, Structural)]
pub enum FetchStep {
    /// There is no such template: the answer is `None`.
    NotFound,
    /// The manager failed the request: the answer is the error.
    Failed,
    /// Read the template from the body.
    ReadBody,
}

/// A 404 means there is no such template; any other client or server error
/// status fails the fetch; otherwise the body holds the template.
pub fn fetch_template_step(status: u16) -> (r: FetchStep)
    ensures
        status == 404 ==> r == FetchStep::NotFound,
        status != 404 && 400 <= status < 600 ==> r == FetchStep::Failed,
        !(400 <= status < 600) ==> r == FetchStep::ReadBody,
{
    if status == 404 {
        FetchStep::NotFound
    } else if 400 <= status && status < 600 {
        FetchStep::Failed
    } else {
        FetchStep::ReadBody
    }
}

} // verus!
