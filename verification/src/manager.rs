//! The manager: which overlay clients and game servers are logged in, which
//! player is on which server, and which messages the manager sends when a
//! client or a server asks something of it.
//!
//! The sockets live in the application: every decision here returns the
//! messages to send as `Delivery` values, addressed by client or server id.

use vstd::prelude::*;
use crate::address::{IpAddress, PeerAddr};
use crate::keyed_map::{KeyedMap, MapKey};
use crate::ids::{spec_uuid_parse, spec_uuid_text, uuid_parse, uuid_text, random_uuid};
use crate::steam::{steam2_form, steamid_valid, steamid_from_steam2, steamid_steam2, spec_steam2_parse, spec_steam2_text, SteamError, steam_error_text};
use crate::messages::{ClientEvent, ServerEvent, ClientRequest, ServerRequest, TargetSelection, SteamUser, ElementOptions, ElementState};
use crate::handshake::AuthFailure;
use crate::game::{ServerInfo, PlayerInfo, TeamConfig};
use crate::json::{json_clone, json_parse, spec_json_parse, spec_json_is_null, spec_json_member};
use crate::token::{
    read_client_token, read_server_token, sign_client_claims, spec_jwt_claims, spec_jwt_sign, client_claims_readable,
    client_claim_key,
    server_claims_readable, number_member, text_member, opt_member, token_text_steamid,
};

verus! {

#[derive(Debug)]
pub enum RequestError {
    Disconnected,
    RequestNotSerializable,
    InvalidData,
}

/// What a client's login token says.
#[derive(Debug)]
pub struct ClientTokenClaims {
    pub subject: String,
    pub issuer: String,
    pub issued_at: u64,
    pub jwt_id: Option<String>,
    pub ip_addr: Option<String>,
}

/// What a server's login token says.
#[derive(Debug)]
pub struct ServerTokenClaims {
    pub namespace: String,
    pub subject: String,
    pub issuer: String,
    pub issued_at: u64,
    pub ip_addr: Option<String>,
}

/// A template stored for a server.
#[derive(Debug)]
pub struct TemplateEntry {
    pub namespace: String,
    pub id: String,
    pub data: String,
}

/// A client without a SteamID cannot join a server.
#[derive(Debug)]
pub struct ClientNotAuthorized;

/// The abstract state of a client connection.
pub struct ClientView {
    pub id: u128,
    pub steamid: Option<u64>,
    pub server: Option<Seq<char>>,
    pub ip: IpAddress,
    pub port: u16,
    pub addr_text: Seq<char>,
    pub ip_text: Seq<char>,
}

/// A client is consistent when its SteamID is one that steamid-ng accepts.
pub open spec fn client_ok(c: ClientView) -> bool {
    c.steamid matches Some(s) ==> steamid_valid(s)
}

pub open spec fn opt_view(s: Option<String>) -> Option<Seq<char>> {
    match s {
        Some(t) => Some(t@),
        None => None,
    }
}

/// An overlay client connected to the manager.
pub struct ClientInstance {
    id: u128,
    steamid: Option<u64>,
    server: Option<String>,
    addr: PeerAddr,
}

impl View for ClientInstance {
    type V = ClientView;

    closed spec fn view(&self) -> ClientView {
        ClientView {
            id: self.id,
            steamid: self.steamid,
            server: opt_view(self.server),
            ip: self.addr.ip,
            port: self.addr.port,
            addr_text: self.addr.text@,
            ip_text: self.addr.ip_text@,
        }
    }
}

impl ClientInstance {
    /// A fresh random client id.
    pub fn next_id() -> (r: String)
        ensures
            r@.len() == 36,
            spec_uuid_parse(r@) is Some,
            r@ == spec_uuid_text(spec_uuid_parse(r@)->0),
    {
        crate::ids::next_id()
    }

    /// A client that has just connected from `addr`; `id` must be a UUID.
    pub fn with_id(addr: PeerAddr, id: String) -> (r: ClientInstance)
        requires
            spec_uuid_parse(id@) is Some,
        ensures
            r@.id == spec_uuid_parse(id@)->0,
            r@.steamid is None,
            r@.server is None,
            r@.ip == addr.ip,
            r@.port == addr.port,
            r@.addr_text == addr.text@,
            r@.ip_text == addr.ip_text@,
            client_ok(r@),
    {
        let v = uuid_parse(id.as_str()).unwrap();
        ClientInstance { id: v, steamid: None, server: None, addr }
    }

    pub fn id(&self) -> (r: String)
        ensures
            r@ == spec_uuid_text(self@.id),
    {
        uuid_text(self.id)
    }

    pub fn steamid(&self) -> (r: Option<u64>)
        ensures
            r == self@.steamid,
    {
        self.steamid
    }

    pub fn steamid2(&self) -> (r: Option<String>)
        requires
            client_ok(self@),
        ensures
            match self@.steamid {
                Some(s) => r matches Some(t) && t@ == spec_steam2_text(s),
                None => r is None,
            },
    {
        match self.steamid {
            Some(s) => Some(steamid_steam2(s)),
            None => None,
        }
    }

    pub fn addr(&self) -> (r: &PeerAddr)
        ensures
            r.ip == self@.ip,
            r.port == self@.port,
            r.text@ == self@.addr_text,
            r.ip_text@ == self@.ip_text,
    {
        &self.addr
    }

    /// The id of the server the client is on.
    pub fn connected_server(&self) -> (r: Option<String>)
        ensures
            opt_view(r) == self@.server,
    {
        match &self.server {
            Some(s) => Some(s.clone()),
            None => None,
        }
    }

    /// Does the client have a steamid authorized or not (temporary, in process of authorizing)
    pub fn is_temp_client(&self) -> (r: bool)
        ensures
            r == (self@.steamid is None),
    {
        self.steamid.is_none()
    }

    /// Is the client authorized with a steamid (not temporary)
    pub fn is_authorized(&self) -> (r: bool)
        ensures
            r == (self@.steamid is Some),
    {
        self.steamid.is_some()
    }

    pub fn _set_steamid(&mut self, steamid: u64)
        ensures
            final(self)@ == (ClientView { steamid: Some(steamid), ..old(self)@ }),
    {
        self.steamid = Some(steamid);
    }

    pub fn _set_server(&mut self, server: Option<String>)
        ensures
            final(self)@ == (ClientView { server: opt_view(server), ..old(self)@ }),
    {
        self.server = server;
    }

    pub fn is_connected(&self) -> (r: bool)
        ensures
            r == (self@.server is Some),
    {
        self.server.is_some()
    }

    /// The claims of the login token the client is given: its SteamID in the
    /// `STEAM_X:Y:Z` form, issued by the manager at `now`, bound to the
    /// client's address. A client without a SteamID gets none.
    pub fn auth_token_claims(&self, now: u64) -> (r: Result<ClientTokenClaims, String>)
        requires
            client_ok(self@),
        ensures
            match self@.steamid {
                None => r matches Err(e) && e@ == "Client is not authorized/missing steamid"@,
                Some(s) => r matches Ok(c) && c.subject@ == spec_steam2_text(s) && c.issuer@
                    == "manager"@ && c.issued_at == now && opt_view(c.jwt_id) == Some(self@.addr_text)
                    && opt_view(c.ip_addr) == Some(self@.addr_text)
                    && (steam2_form(s) ==> spec_steam2_parse(c.subject@) == Some(s)),
            },
    {
        match self.steamid {
            None => Err(String::from_str("Client is not authorized/missing steamid")),
            Some(s) => Ok(
                ClientTokenClaims {
                    subject: steamid_steam2(s),
                    issuer: String::from_str("manager"),
                    issued_at: now,
                    jwt_id: Some(self.addr.text.clone()),
                    ip_addr: Some(self.addr.text.clone()),
                },
            ),
        }
    }

    /// The client's login token, signed with `key` at `now`: its claims are
    /// those of `auth_token_claims` and no other; a client without a SteamID
    /// gets none. Checked with the same key at any time not
    /// before `now`, the token logs in the client's SteamID, when that has
    /// the `STEAM_X:Y:Z` shape.
    pub fn generate_auth_token(&self, key: &[u8], now: u64) -> (r: Result<String, String>)
        requires
            client_ok(self@),
        ensures
            match self@.steamid {
                None => r matches Err(e) && e@ == "Client is not authorized/missing steamid"@,
                Some(s) => r matches Ok(t) && (exists|v: serde_json::Value|
                    #![trigger spec_jwt_sign(v, key@)]
                    text_member(v, "sub"@) == Some(spec_steam2_text(s)) && text_member(v, "iss"@) == Some(
                        "manager"@,
                    ) && number_member(v, "iat"@) == Some(now) && opt_member(v, "jti"@) == Some(
                        self@.addr_text,
                    ) && opt_member(v, "ip"@) == Some(self@.addr_text) && (forall|k: Seq<char>|
                        !client_claim_key(k) ==> #[trigger] spec_json_is_null(spec_json_member(v, k)))
                        && spec_jwt_sign(v, key@) == t@) && (steam2_form(s) ==> forall|later: u64|
                    later >= now ==> #[trigger] token_text_steamid(t@, key@, later) == Some(s)),
            },
    {
        match self.auth_token_claims(now) {
            Err(e) => Err(e),
            Ok(claims) => sign_client_claims(&claims, key),
        }
    }
}

/// The abstract state of a server connection.
pub struct ServerView {
    pub id: Seq<char>,
    pub namespace: Seq<char>,
    /// SteamID of each player on the server, mapped to the id of its client.
    pub clients: Map<u64, Seq<char>>,
    /// The SteamIDs of `clients`, in the order they joined.
    pub client_order: Seq<u64>,
    pub ip: IpAddress,
    pub port: u16,
    pub addr_text: Seq<char>,
    pub ip_text: Seq<char>,
}

/// A game server connected to the manager.
pub struct ServerInstance {
    namespace: String,
    id: String,
    clients: KeyedMap<u64, String>,
    addr: PeerAddr,
    template_ids: Vec<String>,
}

/// The name a server is shown with: the first four characters of its id and
/// its address.
pub open spec fn server_name_spec(id: Seq<char>, addr_text: Seq<char>) -> Seq<char> {
    let n = if id.len() < 4 {
        id.len()
    } else {
        4
    };
    id.subrange(0, n as int) + " "@ + addr_text
}

impl View for ServerInstance {
    type V = ServerView;

    closed spec fn view(&self) -> ServerView {
        ServerView {
            id: self.id@,
            namespace: self.namespace@,
            clients: self.clients@.map_values(|s: String| s@),
            client_order: self.clients.key_seq(),
            ip: self.addr.ip,
            port: self.addr.port,
            addr_text: self.addr.text@,
            ip_text: self.addr.ip_text@,
        }
    }
}

impl ServerInstance {
    pub closed spec fn wf(&self) -> bool {
        &&& self.clients.wf()
    }

    /// A fresh random server id, as the UUID's 128-bit value.
    pub fn next_id() -> (r: u128) {
        random_uuid()
    }

    pub fn with_id(addr: PeerAddr, namespace: String, id: String) -> (r: ServerInstance)
        ensures
            r.wf(),
            r@.id == id@,
            r@.namespace == namespace@,
            r@.clients == Map::<u64, Seq<char>>::empty(),
            r@.client_order == Seq::<u64>::empty(),
            r@.ip == addr.ip,
            r@.port == addr.port,
            r@.addr_text == addr.text@,
            r@.ip_text == addr.ip_text@,
    {
        let r = ServerInstance {
            addr,
            namespace,
            id,
            clients: KeyedMap::new(),
            template_ids: Vec::new(),
        };
        assert(r@.clients =~= Map::<u64, Seq<char>>::empty());
        r
    }

    pub fn namespace(&self) -> (r: &str)
        ensures
            r@ == self@.namespace,
    {
        self.namespace.as_str()
    }

    pub fn id(&self) -> (r: &str)
        ensures
            r@ == self@.id,
    {
        self.id.as_str()
    }

    pub fn num_clients(&self) -> (r: usize)
        requires
            self.wf(),
        ensures
            r == self@.clients.dom().len(),
    {
        proof {
            assert(self@.clients.dom() =~= self.clients@.dom());
        }
        self.clients.len()
    }

    /// The SteamIDs of the players on the server.
    pub fn client_ids(&self) -> (r: Vec<u64>)
        requires
            self.wf(),
        ensures
            r@ == self@.client_order,
    {
        let r = self.clients.keys();
        proof {
            assert(r@ =~= crate::keyed_map::key_models(r@));
        }
        r
    }

    /// The IP of the server, as text.
    pub fn addr(&self) -> (r: String)
        ensures
            r@ == self@.ip_text,
    {
        self.addr.ip_text.clone()
    }

    /// The id of the client of a player on the server.
    fn get_client(&self, steamid: u64) -> (r: Option<String>)
        requires
            self.wf(),
        ensures
            opt_view(r) == (if self@.clients.contains_key(steamid) {
                Some(self@.clients[steamid])
            } else {
                None
            }),
    {
        match self.clients.get(&steamid) {
            Some(c) => Some(c.clone()),
            None => None,
        }
    }

    /// Puts a client's player on the server; a client without a SteamID is refused.
    pub fn add_client(&mut self, client: &ClientInstance) -> (r: Result<(), ClientNotAuthorized>)
        requires
            old(self).wf(),
        ensures
            final(self).wf(),
            match client@.steamid {
                Some(s) => r is Ok && final(self)@ == (ServerView {
                    clients: old(self)@.clients.insert(s, spec_uuid_text(client@.id)),
                    client_order: if old(self)@.clients.contains_key(s) {
                        old(self)@.client_order
                    } else {
                        old(self)@.client_order.push(s)
                    },
                    ..old(self)@
                }),
                None => r is Err && final(self)@ == old(self)@,
            },
    {
        match client.steamid() {
            Some(id) => {
                let cid = client.id();
                self.clients.insert(id, cid);
                proof {
                    assert(self@.clients =~= old(self)@.clients.insert(id, spec_uuid_text(client@.id)));
                }
                Ok(())
            },
            None => Err(ClientNotAuthorized),
        }
    }

    pub fn has_client_steamid(&self, id: u64) -> (r: bool)
        requires
            self.wf(),
        ensures
            r == self@.clients.contains_key(id),
    {
        self.clients.contains_key(&id)
    }

    /// Takes a player off the server; tells whether it was on it.
    pub fn remove_client(&mut self, id: u64) -> (r: bool)
        requires
            old(self).wf(),
        ensures
            final(self).wf(),
            r == old(self)@.clients.contains_key(id),
            final(self)@ == server_without_player(old(self)@, id),
    {
        let r = self.clients.remove(&id);
        proof {
            assert(self@.clients =~= old(self)@.clients.remove(id));
            let f1 = |x: u64| x != id;
            let f2 = |x: <u64 as MapKey>::Model| x != id.model();
            assert(f1 =~= f2);
            assert(self@.client_order == old(self)@.client_order.filter(f1));
            assert(self@ == server_without_player(old(self)@, id));
        }
        r.is_some()
    }

    /// The ids of the templates stored for the server, in the order they were
    /// stored.
    pub closed spec fn spec_template_ids(&self) -> Seq<Seq<char>> {
        self.template_ids@.map_values(|t: String| t@)
    }

    /// Stores a template for the server: its data must read as JSON, which
    /// is returned; only then is its id added to the server's templates.
    pub fn _insert_template(&mut self, template: TemplateEntry) -> (r: Result<serde_json::Value, String>)
        ensures
            final(self)@ == old(self)@,
            final(self).wf() == old(self).wf(),
            match spec_json_parse(template.data@) {
                Ok(v) => r == Ok::<serde_json::Value, String>(v) && final(self).spec_template_ids()
                    == old(self).spec_template_ids().push(template.id@),
                Err(e) => r matches Err(m) && m@ == e && final(self).spec_template_ids()
                    == old(self).spec_template_ids(),
            },
    {
        let json = match json_parse(template.data.as_str()) {
            Ok(v) => v,
            Err(e) => {
                return Err(e);
            },
        };
        let ghost before = self.template_ids@;
        self.template_ids.push(template.id);
        proof {
            assert(self.spec_template_ids() =~= before.map_values(|t: String| t@).push(template.id@));
        }
        Ok(json)
    }

    /// The server as it is described to the clients of its players.
    pub fn info(&self) -> (r: ServerInfo)
        ensures
            r.id@ == self@.id,
            r.name@ == server_name_spec(self@.id, self@.addr_text),
            r.ip_addr == self@.ip,
            r.game_type == 0,
            r.players@.len() == 0,
            r.teams@.len() == 0,
    {
        let n = self.id.as_str().unicode_len();
        let k: usize = if n < 4 {
            n
        } else {
            4
        };
        let head = self.id.as_str().substring_char(0, k);
        let name = String::from_str(head).concat(" ").concat(self.addr.text.as_str());
        ServerInfo {
            id: self.id.clone(),
            name,
            ip_addr: self.addr.ip,
            game_type: 0,
            players: Vec::new(),
            teams: Vec::new(),
        }
    }
}


/// A message the manager sends, addressed by the id of a client or a server.
#[derive(Debug)]
pub enum Delivery {
    ToClient { client_id: String, event: ClientEvent },
    ToServer { server_id: String, event: ServerEvent },
}

/// The abstract state of the manager.
pub struct ManagerView {
    /// Connected clients by id.
    pub clients: Map<Seq<char>, ClientView>,
    /// The client id each authorized SteamID was last given to.
    pub steamids: Map<u64, Seq<char>>,
    /// Connected servers by id.
    pub servers: Map<Seq<char>, ServerView>,
}

/// The manager is consistent when each client is stored under the text of its
/// own id and is consistent, and each server is stored under its own id.
pub open spec fn manager_inv(v: ManagerView) -> bool {
    &&& forall|k: Seq<char>| #[trigger]
        v.clients.contains_key(k) ==> client_ok(v.clients[k]) && spec_uuid_text(v.clients[k].id) == k
    &&& forall|k: Seq<char>| #[trigger] v.servers.contains_key(k) ==> v.servers[k].id == k
}

/// The client that a SteamID leads to: the one it was last given to, if that
/// client is still connected.
pub open spec fn client_for_steamid(v: ManagerView, s: u64) -> Option<Seq<char>> {
    if v.steamids.contains_key(s) && v.clients.contains_key(v.steamids[s]) {
        Some(v.steamids[s])
    } else {
        None
    }
}

/// The SteamIDs named by a list of `STEAM_X:Y:Z` texts; none when one of them
/// is not a SteamID.
pub open spec fn parse_steamids(list: Seq<String>) -> Option<Seq<u64>>
    decreases list.len(),
{
    if list.len() == 0 {
        Some(Seq::empty())
    } else {
        match parse_steamids(list.drop_last()) {
            Some(p) => match spec_steam2_parse(list.last()@) {
                Some(id) => Some(p.push(id)),
                None => None,
            },
            None => None,
        }
    }
}

/// The SteamIDs a target selection names, given the players on the server.
pub open spec fn selection_spec(all: Seq<u64>, sel: TargetSelection) -> Option<Seq<u64>> {
    match sel {
        TargetSelection::SteamID(s) => match spec_steam2_parse(s@) {
            Some(id) => Some(seq![id]),
            None => None,
        },
        TargetSelection::SteamIDs(list) => parse_steamids(list@),
        TargetSelection::All => Some(all),
    }
}

/// The clients an element event reaches: in the order of `ids`, one for each
/// SteamID that is on the server and leads to a connected client.
pub open spec fn recipients(v: ManagerView, on_server: Map<u64, Seq<char>>, ids: Seq<u64>) -> Seq<
    Seq<char>,
>
    decreases ids.len(),
{
    if ids.len() == 0 {
        Seq::empty()
    } else {
        let prev = recipients(v, on_server, ids.drop_last());
        let s = ids.last();
        if on_server.contains_key(s) {
            match client_for_steamid(v, s) {
                Some(c) => prev.push(c),
                None => prev,
            }
        } else {
            prev
        }
    }
}

/// The clients that an element event aimed at `sel` on server `sid` reaches;
/// none when the selection names something that is not a SteamID.
pub open spec fn selection_recipients(v: ManagerView, sid: Seq<char>, sel: TargetSelection) -> Option<
    Seq<Seq<char>>,
> {
    match selection_spec(v.servers[sid].client_order, sel) {
        Some(ids) => Some(recipients(v, v.servers[sid].clients, ids)),
        None => None,
    }
}

/// `ds` sends `ev` to each of `targets`, in order.
pub open spec fn deliveries_to(ds: Seq<Delivery>, targets: Seq<Seq<char>>, ev: ClientEvent) -> bool {
    &&& ds.len() == targets.len()
    &&& forall|i: int|
        0 <= i < ds.len() ==> (#[trigger] ds[i] matches Delivery::ToClient { client_id, event }
            && client_id@ == targets[i] && event == ev)
}

/// A server after the player of client `c` has joined it.
pub open spec fn server_with_player(sv: ServerView, c: ClientView) -> ServerView {
    match c.steamid {
        Some(t) => ServerView {
            clients: sv.clients.insert(t, spec_uuid_text(c.id)),
            client_order: if sv.clients.contains_key(t) {
                sv.client_order
            } else {
                sv.client_order.push(t)
            },
            ..sv
        },
        None => sv,
    }
}

/// `d` tells client `cid` that it is now on server `sid`, described as `sv`.
pub open spec fn joined_delivery(d: Delivery, cid: Seq<char>, sid: Seq<char>, sv: ServerView) -> bool {
    d matches Delivery::ToClient { client_id, event: ClientEvent::ChangedServer(Some(info)) }
        && client_id@ == cid && info.id@ == sid && info.name@ == server_name_spec(sv.id, sv.addr_text)
        && info.ip_addr == sv.ip && info.game_type == 0 && info.players@.len() == 0
        && info.teams@.len() == 0
}

/// `d` tells client `cid` that it is on no server.
pub open spec fn left_delivery(d: Delivery, cid: Seq<char>) -> bool {
    d matches Delivery::ToClient { client_id, event: ClientEvent::ChangedServer(None) } && client_id@ == cid
}

/// A server after player `s` has left it.
pub open spec fn server_without_player(sv: ServerView, s: u64) -> ServerView {
    ServerView {
        clients: sv.clients.remove(s),
        client_order: sv.client_order.filter(|x: u64| x != s),
        ..sv
    }
}

/// A server just registered by `try_authorize_server`, with the id and
/// namespace its token names.
pub open spec fn fresh_server(namespace: Seq<char>, subject: Seq<char>, addr: PeerAddr) -> ServerView {
    ServerView {
        id: subject,
        namespace,
        clients: Map::empty(),
        client_order: Seq::empty(),
        ip: addr.ip,
        port: addr.port,
        addr_text: addr.text@,
        ip_text: addr.ip_text@,
    }
}

/// Clients `cids` (those connected) lose their server.
pub open spec fn clear_servers(clients: Map<Seq<char>, ClientView>, cids: Seq<Seq<char>>) -> Map<
    Seq<char>,
    ClientView,
>
    decreases cids.len(),
{
    if cids.len() == 0 {
        clients
    } else {
        let m = clear_servers(clients, cids.drop_last());
        let c = cids.last();
        if m.contains_key(c) {
            m.insert(c, ClientView { server: None, ..m[c] })
        } else {
            m
        }
    }
}

/// The client ids of the players on a server, in the order they joined.
pub open spec fn server_client_ids(sv: ServerView) -> Seq<Seq<char>> {
    sv.client_order.map_values(|s: u64| sv.clients[s])
}

/// The clients among `cids` that are connected.
pub open spec fn connected_among(clients: Map<Seq<char>, ClientView>, cids: Seq<Seq<char>>) -> Seq<Seq<char>> {
    cids.filter(|c: Seq<char>| clients.contains_key(c))
}

/// The manager's state of the clients and servers.
pub struct ManagerInstance {
    clients: KeyedMap<String, ClientInstance>,
    client_steamid_map: KeyedMap<u64, String>,
    servers: KeyedMap<String, ServerInstance>,
}

impl View for ManagerInstance {
    type V = ManagerView;

    closed spec fn view(&self) -> ManagerView {
        ManagerView {
            clients: self.clients@.map_values(|c: ClientInstance| c@),
            steamids: self.client_steamid_map@.map_values(|s: String| s@),
            servers: self.servers@.map_values(|s: ServerInstance| s@),
        }
    }
}

impl ManagerInstance {
    pub closed spec fn wf(&self) -> bool {
        &&& self.clients.wf()
        &&& self.client_steamid_map.wf()
        &&& self.servers.wf()
        &&& forall|k: Seq<char>| #[trigger] self.servers@.contains_key(k) ==> self.servers@[k].wf()
        &&& manager_inv(self@)
    }

    /// Every state the manager can reach is consistent: each client is stored
    /// under the text of its own id and has a SteamID steamid-ng accepts, if
    /// any, and each server is stored under its own id.
    pub proof fn law_manager_is_consistent(&self)
        requires
            self.wf(),
        ensures
            manager_inv(self@),
    {
    }

    pub fn new() -> (r: ManagerInstance)
        ensures
            r.wf(),
            r@.clients == Map::<Seq<char>, ClientView>::empty(),
            r@.steamids == Map::<u64, Seq<char>>::empty(),
            r@.servers == Map::<Seq<char>, ServerView>::empty(),
    {
        let r = ManagerInstance {
            clients: KeyedMap::new(),
            client_steamid_map: KeyedMap::new(),
            servers: KeyedMap::new(),
        };
        assert(r@.clients =~= Map::<Seq<char>, ClientView>::empty());
        assert(r@.steamids =~= Map::<u64, Seq<char>>::empty());
        assert(r@.servers =~= Map::<Seq<char>, ServerView>::empty());
        r
    }

    /// Starts a new client connection from `addr`, under a fresh id, which is
    /// returned; the client has no SteamID yet.
    pub fn start_client(&mut self, addr: PeerAddr) -> (r: String)
        requires
            old(self).wf(),
        ensures
            final(self).wf(),
            spec_uuid_parse(r@) is Some,
            r@ == spec_uuid_text(spec_uuid_parse(r@)->0),
            final(self)@ == (ManagerView {
                clients: old(self)@.clients.insert(
                    r@,
                    ClientView {
                        id: spec_uuid_parse(r@)->0,
                        steamid: None,
                        server: None,
                        ip: addr.ip,
                        port: addr.port,
                        addr_text: addr.text@,
                        ip_text: addr.ip_text@,
                    },
                ),
                ..old(self)@
            }),
    {
        let id = ClientInstance::next_id();
        let client = ClientInstance::with_id(addr, id.clone());
        self.clients.insert(id.clone(), client);
        proof {
            assert(self@.clients =~= old(self)@.clients.insert(id@, client@));
        }
        id
    }

    /// Forgets a client; tells whether it was connected.
    pub fn remove_client(&mut self, id: &str) -> (r: bool)
        requires
            old(self).wf(),
        ensures
            final(self).wf(),
            r == old(self)@.clients.contains_key(id@),
            final(self)@ == (ManagerView { clients: old(self)@.clients.remove(id@), ..old(self)@ }),
    {
        let key = String::from_str(id);
        let r = self.clients.remove(&key);
        proof {
            assert(self@.clients =~= old(self)@.clients.remove(id@));
        }
        r.is_some()
    }

    pub fn get_client(&self, id: &str) -> (r: Option<&ClientInstance>)
        requires
            self.wf(),
        ensures
            match r {
                Some(c) => self@.clients.contains_key(id@) && c@ == self@.clients[id@],
                None => !self@.clients.contains_key(id@),
            },
    {
        let key = String::from_str(id);
        self.clients.get(&key)
    }

    /// The client a SteamID was last given to, if it is still connected.
    pub fn get_client_from_steamid(&self, steamid: u64) -> (r: Option<&ClientInstance>)
        requires
            self.wf(),
        ensures
            match client_for_steamid(self@, steamid) {
                Some(k) => r matches Some(c) && c@ == self@.clients[k],
                None => r is None,
            },
    {
        match self.client_steamid_map.get(&steamid) {
            Some(client_id) => self.clients.get(client_id),
            None => None,
        }
    }

    pub fn has_client(&self, id: &str) -> (r: bool)
        requires
            self.wf(),
        ensures
            r == self@.clients.contains_key(id@),
    {
        let key = String::from_str(id);
        self.clients.contains_key(&key)
    }

    /// Verifies that the client ID exists and the IP matches (ignoring port)
    pub fn verify_client(&self, id: &str, addr: &PeerAddr) -> (r: bool)
        requires
            self.wf(),
        ensures
            r == (self@.clients.contains_key(id@) && self@.clients[id@].ip == addr.ip),
    {
        match self.get_client(id) {
            Some(client) => client.addr().same_ip(addr),
            None => false,
        }
    }

    pub fn find_client_by_steamid(&self, steamid: u64) -> (r: Option<&ClientInstance>)
        requires
            self.wf(),
        ensures
            match client_for_steamid(self@, steamid) {
                Some(k) => r matches Some(c) && c@ == self@.clients[k],
                None => r is None,
            },
    {
        self.get_client_from_steamid(steamid)
    }

    /// Registers a server whose login token has been read into `claims` (or
    /// failed to be read, with the error's text); a token issued after `now`
    /// is refused. A server registered under the same id before is replaced.
    pub fn try_authorize_server_claims(
        &mut self,
        addr: PeerAddr,
        claims: Result<ServerTokenClaims, String>,
        now: u64,
    ) -> (r: Result<String, AuthFailure>)
        requires
            old(self).wf(),
        ensures
            final(self).wf(),
            match claims {
                Err(e) => r == Err::<String, AuthFailure>(AuthFailure::InvalidAuthToken(Some(e)))
                    && final(self)@ == old(self)@,
                Ok(c) => if c.issued_at > now {
                    r matches Err(AuthFailure::InvalidAuthToken(Some(m))) && m@
                        == "token issued in the future and is invalid"@ && final(self)@ == old(self)@
                } else {
                    r matches Ok(id) && id@ == c.subject@ && final(self)@ == (ManagerView {
                        servers: old(self)@.servers.insert(c.subject@, fresh_server(c.namespace@, c.subject@, addr)),
                        ..old(self)@
                    })
                },
            },
    {
        let claims = match claims {
            Err(e) => {
                return Err(AuthFailure::InvalidAuthToken(Some(e)));
            },
            Ok(c) => c,
        };
        if claims.issued_at > now {
            return Err(
                AuthFailure::InvalidAuthToken(
                    Some(String::from_str("token issued in the future and is invalid")),
                ),
            );
        }
        let ghost c0 = claims;
        let id = claims.subject.clone();
        let server = ServerInstance::with_id(addr, claims.namespace, claims.subject);
        self.servers.insert(id.clone(), server);
        proof {
            assert(self@.servers =~= old(self)@.servers.insert(
                c0.subject@,
                fresh_server(c0.namespace@, c0.subject@, addr),
            ));
        }
        Ok(id)
    }

    /// Registers a server that logs in with `token`, checked with `key` at
    /// `now`: a token that jwt refuses, whose claims are not a server's, or
    /// that was issued after `now` is refused; otherwise the server is
    /// registered under the subject of the token, in its namespace.
    pub fn try_authorize_server(&mut self, addr: PeerAddr, token: &str, key: &[u8], now: u64) -> (r: Result<
        String,
        AuthFailure,
    >)
        requires
            old(self).wf(),
        ensures
            final(self).wf(),
            match spec_jwt_claims(token@, key@) {
                Err(e) => r matches Err(AuthFailure::InvalidAuthToken(Some(m))) && m@ == e && final(self)@
                    == old(self)@,
                Ok(v) => if !server_claims_readable(v) {
                    r matches Err(AuthFailure::InvalidAuthToken(Some(m))) && m@ == "invalid token claims"@
                        && final(self)@ == old(self)@
                } else if number_member(v, "iat"@)->0 > now {
                    r matches Err(AuthFailure::InvalidAuthToken(Some(m))) && m@
                        == "token issued in the future and is invalid"@ && final(self)@ == old(self)@
                } else {
                    let sub = text_member(v, "sub"@)->0;
                    r matches Ok(id) && id@ == sub && final(self)@ == (ManagerView {
                        servers: old(self)@.servers.insert(
                            sub,
                            fresh_server(text_member(v, "namespace"@)->0, sub, addr),
                        ),
                        ..old(self)@
                    })
                },
            },
    {
        let claims = read_server_token(token, key);
        self.try_authorize_server_claims(addr, claims, now)
    }

    /// Checks a client's login token with `key` at `now`: the SteamID it
    /// logs in, or why it does not (a token that jwt refuses or whose claims
    /// are not a client's, one issued after `now`, one whose subject is not
    /// a SteamID in the `STEAM_X:Y:Z` form).
    pub fn check_client_token_text(token: &str, key: &[u8], now: u64) -> (r: Result<u64, AuthFailure>)
        ensures
            match r {
                Ok(s) => token_text_steamid(token@, key@, now) == Some(s) && steamid_valid(s) && steam2_form(s),
                Err(_) => token_text_steamid(token@, key@, now) is None,
            },
            match spec_jwt_claims(token@, key@) {
                Err(e) => r matches Err(AuthFailure::InvalidAuthToken(Some(m))) && m@ == e,
                Ok(v) => if !client_claims_readable(v) {
                    r matches Err(AuthFailure::InvalidAuthToken(Some(m))) && m@ == "invalid token claims"@
                } else if number_member(v, "iat"@)->0 > now {
                    r matches Err(AuthFailure::InvalidAuthToken(Some(m))) && m@
                        == "token issued in the future and is invalid"@
                } else {
                    spec_steam2_parse(text_member(v, "sub"@)->0) is None ==> r matches Err(
                        AuthFailure::InvalidAuthToken(None),
                    )
                },
            },
    {
        let claims = read_client_token(token, key);
        ManagerInstance::check_client_token(claims, now)
    }

    /// Forgets a server; tells whether it was connected.
    pub fn remove_server(&mut self, id: &str) -> (r: bool)
        requires
            old(self).wf(),
        ensures
            final(self).wf(),
            r == old(self)@.servers.contains_key(id@),
            final(self)@ == (ManagerView { servers: old(self)@.servers.remove(id@), ..old(self)@ }),
    {
        let key = String::from_str(id);
        let r = self.servers.remove(&key);
        proof {
            assert(self@.servers =~= old(self)@.servers.remove(id@));
        }
        r.is_some()
    }

    pub fn get_server(&self, id: &str) -> (r: Option<&ServerInstance>)
        requires
            self.wf(),
        ensures
            match r {
                Some(s) => self@.servers.contains_key(id@) && s@ == self@.servers[id@] && s.wf(),
                None => !self@.servers.contains_key(id@),
            },
    {
        let key = String::from_str(id);
        self.servers.get(&key)
    }
}

/// The SteamID that a client's login token with these claims logs in, when
/// checked at `now`: none for a token issued after `now` or whose subject is
/// not a SteamID in the `STEAM_X:Y:Z` form.
pub open spec fn token_steamid(claims: ClientTokenClaims, now: u64) -> Option<u64> {
    if claims.issued_at > now {
        None
    } else {
        spec_steam2_parse(claims.subject@)
    }
}

impl ManagerInstance {
    /// Checks the claims of a client's login token (or the error reading the
    /// token gave): a token issued after `now` is refused, and its subject
    /// must be a SteamID in the `STEAM_X:Y:Z` form.
    pub fn check_client_token(claims: Result<ClientTokenClaims, String>, now: u64) -> (r: Result<
        u64,
        AuthFailure,
    >)
        ensures
            match claims {
                Err(e) => r == Err::<u64, AuthFailure>(AuthFailure::InvalidAuthToken(Some(e))),
                Ok(c) => if c.issued_at > now {
                    r matches Err(AuthFailure::InvalidAuthToken(Some(m))) && m@
                        == "token issued in the future and is invalid"@
                } else {
                    match spec_steam2_parse(c.subject@) {
                        Some(s) => r == Ok::<u64, AuthFailure>(s) && steamid_valid(s) && steam2_form(s)
                            && token_steamid(c, now) == Some(s),
                        None => r == Err::<u64, AuthFailure>(AuthFailure::InvalidAuthToken(None)),
                    }
                },
            },
    {
        let claims = match claims {
            Err(e) => {
                return Err(AuthFailure::InvalidAuthToken(Some(e)));
            },
            Ok(c) => c,
        };
        if claims.issued_at > now {
            return Err(
                AuthFailure::InvalidAuthToken(
                    Some(String::from_str("token issued in the future and is invalid")),
                ),
            );
        }
        match steamid_from_steam2(claims.subject.as_str()) {
            Some(s) => Ok(s),
            None => Err(AuthFailure::InvalidAuthToken(None)),
        }
    }

    /// First half of marking a client authorized as `steamid`, once Steam
    /// has been asked for the user's details: the client gets its SteamID,
    /// and the claims of its new login token are returned, for the
    /// application to sign.
    pub fn begin_authorization(
        &mut self,
        id: &str,
        steamid: u64,
        user: &Result<SteamUser, SteamError>,
        now: u64,
    ) -> (r: Result<ClientTokenClaims, AuthFailure>)
        requires
            old(self).wf(),
            steamid_valid(steamid),
        ensures
            final(self).wf(),
            match user {
                Err(e) => r matches Err(AuthFailure::General(m)) && m@ == steam_error_text(*e)
                    && final(self)@ == old(self)@,
                Ok(_) => if !old(self)@.clients.contains_key(id@) {
                    r matches Err(AuthFailure::ObjectNotFound) && final(self)@ == old(self)@
                } else {
                    let c = old(self)@.clients[id@];
                    &&& final(self)@ == (ManagerView {
                        clients: old(self)@.clients.insert(
                            id@,
                            ClientView { steamid: Some(steamid), ..c },
                        ),
                        ..old(self)@
                    })
                    &&& r matches Ok(claims) && claims.subject@ == spec_steam2_text(steamid)
                        && claims.issuer@ == "manager"@ && claims.issued_at == now && opt_view(
                        claims.jwt_id,
                    ) == Some(c.addr_text) && opt_view(claims.ip_addr) == Some(c.addr_text)
                        && (steam2_form(steamid) ==> forall|t: u64|
                        t >= now ==> #[trigger] token_steamid(claims, t) == Some(steamid))
                },
            },
    {
        match user {
            Err(e) => {
                return Err(AuthFailure::General(e.describe()));
            },
            Ok(_) => {},
        }
        let key = String::from_str(id);
        let mut client = match self.clients.remove(&key) {
            Some(c) => c,
            None => {
                proof {
                    assert(self@.clients =~= old(self)@.clients);
                }
                return Err(AuthFailure::ObjectNotFound);
            },
        };
        client._set_steamid(steamid);
        let claims = client.auth_token_claims(now);
        self.clients.insert(key, client);
        proof {
            assert(self@.clients =~= old(self)@.clients.insert(
                id@,
                ClientView { steamid: Some(steamid), ..old(self)@.clients[id@] },
            ));
        }
        match claims {
            Ok(c) => Ok(c),
            Err(e) => Err(AuthFailure::General(e)),
        }
    }

    /// Second half of marking a client authorized, once the application has
    /// signed its login token (or failed to): the SteamID now leads to the
    /// client, which is told its SteamID, token and Steam user details.
    pub fn finish_authorization(&mut self, id: &str, user: SteamUser, signed: Result<String, String>) -> (r:
        Result<Delivery, AuthFailure>)
        requires
            old(self).wf(),
        ensures
            final(self).wf(),
            match signed {
                Err(e) => r == Err::<Delivery, AuthFailure>(AuthFailure::General(e)) && final(self)@
                    == old(self)@,
                Ok(t) => if old(self)@.clients.contains_key(id@) && old(self)@.clients[id@].steamid is Some {
                    let s = old(self)@.clients[id@].steamid->0;
                    &&& final(self)@ == (ManagerView {
                        steamids: old(self)@.steamids.insert(s, id@),
                        ..old(self)@
                    })
                    &&& r matches Ok(Delivery::ToClient { client_id, event: ClientEvent::Authorized { steamid2, auth_token, user: u } })
                        && client_id@ == id@ && steamid2@ == spec_steam2_text(s) && auth_token == t && u
                        == user
                } else {
                    r matches Err(AuthFailure::ObjectNotFound) && final(self)@ == old(self)@
                },
            },
    {
        let token = match signed {
            Err(e) => {
                return Err(AuthFailure::General(e));
            },
            Ok(t) => t,
        };
        let key = String::from_str(id);
        let (s, cid, steamid2) = match self.clients.get(&key) {
            Some(client) => match client.steamid() {
                Some(s) => {
                    proof {
                        assert(self@.clients.contains_key(id@));
                        assert(self@.clients[id@] == client@);
                        assert(client_ok(client@));
                    }
                    (s, client.id(), client.steamid2().unwrap())
                },
                None => {
                    return Err(AuthFailure::ObjectNotFound);
                },
            },
            None => {
                return Err(AuthFailure::ObjectNotFound);
            },
        };
        let cid2 = cid.clone();
        self.client_steamid_map.insert(s, cid);
        proof {
            assert(self@.steamids =~= old(self)@.steamids.insert(s, id@));
        }
        Ok(
            Delivery::ToClient {
                client_id: cid2,
                event: ClientEvent::Authorized { steamid2, auth_token: token, user },
            },
        )
    }

    /// Marks the client `id` authorized as `steamid`, once Steam has been
    /// asked for the user's details (`user`): the client gets its SteamID
    /// and a login token signed with `key` at `now`, the SteamID leads to the
    /// client, and the client is told its SteamID, token and details.
    /// Checked with `key` at any time not before `now`, the token logs in
    /// `steamid` again, when that has the `STEAM_X:Y:Z` shape.
    pub fn mark_client_authorized(
        &mut self,
        id: &str,
        steamid: u64,
        user: Result<SteamUser, SteamError>,
        key: &[u8],
        now: u64,
    ) -> (r: Result<Delivery, AuthFailure>)
        requires
            old(self).wf(),
            steamid_valid(steamid),
        ensures
            final(self).wf(),
            match user {
                Err(e) => r matches Err(AuthFailure::General(m)) && m@ == steam_error_text(e)
                    && final(self)@ == old(self)@,
                Ok(u) => if !old(self)@.clients.contains_key(id@) {
                    r matches Err(AuthFailure::ObjectNotFound) && final(self)@ == old(self)@
                } else {
                    let c = old(self)@.clients[id@];
                    let marked = old(self)@.clients.insert(id@, ClientView { steamid: Some(steamid), ..c });
                    &&& final(self)@ == (ManagerView {
                        clients: marked,
                        steamids: old(self)@.steamids.insert(steamid, id@),
                        ..old(self)@
                    })
                    &&& r matches Ok(Delivery::ToClient {
                        client_id,
                        event: ClientEvent::Authorized { steamid2, auth_token, user: u2 },
                    }) && client_id@ == id@ && steamid2@ == spec_steam2_text(steamid) && u2 == u
                        && (steam2_form(steamid) ==> forall|later: u64|
                        later >= now ==> #[trigger] token_text_steamid(auth_token@, key@, later)
                            == Some(steamid))
                },
            },
    {
        let claims = match self.begin_authorization(id, steamid, &user, now) {
            Err(e) => {
                return Err(e);
            },
            Ok(c) => c,
        };
        let u = match user {
            Ok(u) => u,
            Err(_) => {
                return Err(AuthFailure::Unknown);
            },
        };
        let signed = sign_client_claims(&claims, key);
        self.finish_authorization(id, u, signed)
    }

    /// Handles a request of a client: an action is passed on to the server
    /// the client is on, with the client's SteamID.
    pub fn on_client_request(&self, event: &ClientRequest, client_id: &str) -> (r: Option<Delivery>)
        requires
            self.wf(),
            self@.clients.contains_key(client_id@) && self@.clients[client_id@].server is Some
                ==> self@.clients[client_id@].steamid is Some,
        ensures
            if self@.clients.contains_key(client_id@) && self@.clients[client_id@].server is Some {
                let c = self@.clients[client_id@];
                match *event {
                    ClientRequest::Action { command, namespace, input, instance_id } => r matches Some(
                        Delivery::ToServer { server_id, event: ServerEvent::Action { steamid2, command: c2, namespace: n2, input: i2, instance_id: id2 } },
                    ) && server_id@ == c.server->0 && steamid2@ == spec_steam2_text(c.steamid->0) && c2
                        == command && n2 == namespace && i2 == input && id2 == instance_id,
                }
            } else {
                r is None
            },
    {
        match event {
            ClientRequest::Action { command, namespace, input, instance_id } => {
                let client = match self.get_client(client_id) {
                    Some(c) => c,
                    None => {
                        return None;
                    },
                };
                match client.connected_server() {
                    Some(server) => {
                        let steamid2 = client.steamid2().unwrap();
                        Some(
                            Delivery::ToServer {
                                server_id: server,
                                event: ServerEvent::Action {
                                    steamid2,
                                    command: command.clone(),
                                    namespace: namespace.clone(),
                                    instance_id: instance_id.clone(),
                                    input: input.clone(),
                                },
                            },
                        )
                    },
                    None => None,
                }
            },
        }
    }
}

proof fn lemma_parse_steamids_prefix_none(list: Seq<String>, k: int)
    requires
        0 <= k <= list.len(),
        parse_steamids(list.subrange(0, k)) is None,
    ensures
        parse_steamids(list) is None,
    decreases list.len() - k,
{
    if k < list.len() {
        let t = list.subrange(0, k + 1);
        assert(t.drop_last() =~= list.subrange(0, k));
        lemma_parse_steamids_prefix_none(list, k + 1);
    } else {
        assert(list.subrange(0, k) =~= list);
    }
}

/// The SteamIDs a target selection names; `None` when one of its texts is not
/// a SteamID.
pub fn selection_to_list(all_players: &Vec<u64>, selection: &TargetSelection) -> (r: Option<Vec<u64>>)
    ensures
        match selection_spec(all_players@, *selection) {
            Some(ids) => r matches Some(v) && v@ == ids,
            None => r is None,
        },
{
    match selection {
        TargetSelection::SteamID(s) => match steamid_from_steam2(s.as_str()) {
            Some(id) => {
                let mut v: Vec<u64> = Vec::new();
                v.push(id);
                assert(v@ =~= seq![id]);
                Some(v)
            },
            None => None,
        },
        TargetSelection::SteamIDs(list) => {
            let mut out: Vec<u64> = Vec::new();
            let mut i: usize = 0;
            assert(list@.subrange(0, 0) =~= Seq::<String>::empty());
            while i < list.len()
                invariant
                    i <= list@.len(),
                    *selection == TargetSelection::SteamIDs(*list),
                    parse_steamids(list@.subrange(0, i as int)) == Some(out@),
                decreases list@.len() - i,
            {
                let ghost t = list@.subrange(0, i as int + 1);
                assert(t.drop_last() =~= list@.subrange(0, i as int));
                assert(t.last() == list@[i as int]);
                match steamid_from_steam2(list[i].as_str()) {
                    Some(id) => {
                        out.push(id);
                    },
                    None => {
                        proof {
                            assert(spec_steam2_parse(t.last()@) is None);
                            assert(parse_steamids(t) is None);
                            lemma_parse_steamids_prefix_none(list@, i as int + 1);
                            assert(selection_spec(all_players@, *selection) is None);
                        }
                        return None;
                    },
                }
                i = i + 1;
            }
            assert(list@.subrange(0, i as int) =~= list@);
            Some(out)
        },
        TargetSelection::All => Some(all_players.clone()),
    }
}

impl ManagerInstance {
    /// The clients that an element event aimed at `selection` on the server
    /// reaches, by id; `None` when the selection names something that is not a
    /// SteamID.
    pub fn perform_selection(&self, server_id: &str, selection: &TargetSelection) -> (r: Option<Vec<String>>)
        requires
            self.wf(),
            self@.servers.contains_key(server_id@),
        ensures
            match selection_recipients(self@, server_id@, *selection) {
                Some(ts) => r matches Some(v) && v@.map_values(|s: String| s@) == ts,
                None => r is None,
            },
    {
        let server = self.get_server(server_id).unwrap();
        let all_players = server.client_ids();
        let ids = match selection_to_list(&all_players, selection) {
            Some(ids) => ids,
            None => {
                return None;
            },
        };
        let ghost on_server = self@.servers[server_id@].clients;
        let mut out: Vec<String> = Vec::new();
        let mut i: usize = 0;
        assert(ids@.subrange(0, 0) =~= Seq::<u64>::empty());
        assert(out@.map_values(|s: String| s@) =~= Seq::<Seq<char>>::empty());
        while i < ids.len()
            invariant
                self.wf(),
                server.wf(),
                server@ == self@.servers[server_id@],
                on_server == server@.clients,
                i <= ids@.len(),
                out@.map_values(|s: String| s@) == recipients(self@, on_server, ids@.subrange(0, i as int)),
            decreases ids@.len() - i,
        {
            let s = ids[i];
            let ghost before = out@;
            let ghost t = ids@.subrange(0, i as int + 1);
            assert(t.drop_last() =~= ids@.subrange(0, i as int));
            if server.has_client_steamid(s) {
                match self.client_steamid_map.get(&s) {
                    Some(cid) => {
                        if self.clients.contains_key(cid) {
                            out.push(cid.clone());
                            assert(out@.map_values(|s: String| s@) =~= before.map_values(
                                |s: String| s@,
                            ).push(cid@));
                        }
                    },
                    None => {},
                }
            }
            i = i + 1;
        }
        assert(ids@.subrange(0, i as int) =~= ids@);
        Some(out)
    }

    /// Handles a request of a server: a player joining or leaving it, or an
    /// element to create or update on the clients of players on it. Players
    /// are named by SteamIDs in the `STEAM_X:Y:Z` form; a player without a
    /// connected client is left alone.
    pub fn on_server_request(&mut self, event: ServerRequest, server_id: &str) -> (r: Result<
        Vec<Delivery>,
        RequestError,
    >)
        requires
            old(self).wf(),
            old(self)@.servers.contains_key(server_id@),
            event is PlayerJoined || event is PlayerLeft || event is RequestElement
                || event is UpdateElement,
        ensures
            final(self).wf(),
            match event {
                ServerRequest::PlayerJoined { steamid } => match spec_steam2_parse(steamid@) {
                    None => r matches Err(RequestError::InvalidData) && final(self)@ == old(self)@,
                    Some(s) => match client_for_steamid(old(self)@, s) {
                        None => r matches Ok(ds) && ds@.len() == 0 && final(self)@ == old(self)@,
                        Some(cid) => {
                            let c = old(self)@.clients[cid];
                            let sv = server_with_player(old(self)@.servers[server_id@], c);
                            &&& final(self)@ == (ManagerView {
                                clients: old(self)@.clients.insert(
                                    cid,
                                    ClientView { server: Some(server_id@), ..c },
                                ),
                                servers: old(self)@.servers.insert(server_id@, sv),
                                ..old(self)@
                            })
                            &&& r matches Ok(ds) && ds@.len() == 1 && joined_delivery(ds@[0], cid, server_id@, sv)
                        },
                    },
                },
                ServerRequest::PlayerLeft { steamid } => match spec_steam2_parse(steamid@) {
                    None => r matches Err(RequestError::InvalidData) && final(self)@ == old(self)@,
                    Some(s) => {
                        let sv = server_without_player(old(self)@.servers[server_id@], s);
                        match client_for_steamid(old(self)@, s) {
                            None => r matches Ok(ds) && ds@.len() == 0 && final(self)@ == (ManagerView {
                                servers: old(self)@.servers.insert(server_id@, sv),
                                ..old(self)@
                            }),
                            Some(cid) => {
                                &&& final(self)@ == (ManagerView {
                                    clients: old(self)@.clients.insert(
                                        cid,
                                        ClientView { server: None, ..old(self)@.clients[cid] },
                                    ),
                                    servers: old(self)@.servers.insert(server_id@, sv),
                                    ..old(self)@
                                })
                                &&& r matches Ok(ds) && ds@.len() == 1 && left_delivery(ds@[0], cid)
                            },
                        }
                    },
                },
                ServerRequest::RequestElement { target, elem_id, template_id, state, options } => {
                    &&& final(self)@ == old(self)@
                    &&& r matches Ok(ds) && match selection_recipients(old(self)@, server_id@, target) {
                        None => ds@.len() == 0,
                        Some(ts) => deliveries_to(
                            ds@,
                            ts,
                            ClientEvent::RequestElement { elem_id, template_id, state, options },
                        ),
                    }
                },
                ServerRequest::UpdateElement { target, elem_id, state, new_options } => {
                    &&& final(self)@ == old(self)@
                    &&& r matches Ok(ds) && match selection_recipients(old(self)@, server_id@, target) {
                        None => ds@.len() == 0,
                        Some(ts) => deliveries_to(
                            ds@,
                            ts,
                            ClientEvent::UpdateElement { elem_id, state, new_options },
                        ),
                    }
                },
                _ => false,
            },
    {
        match event {
            ServerRequest::PlayerJoined { steamid } => {
                let s = match steamid_from_steam2(steamid.as_str()) {
                    Some(s) => s,
                    None => {
                        return Err(RequestError::InvalidData);
                    },
                };
                self.player_joined(server_id, s)
            },
            ServerRequest::PlayerLeft { steamid } => {
                let s = match steamid_from_steam2(steamid.as_str()) {
                    Some(s) => s,
                    None => {
                        return Err(RequestError::InvalidData);
                    },
                };
                self.player_left(server_id, s)
            },
            ServerRequest::RequestElement { target, elem_id, template_id, state, options } => {
                let ghost ev = ClientEvent::RequestElement { elem_id, template_id, state, options };
                let targets = self.perform_selection(server_id, &target);
                let mut ds: Vec<Delivery> = Vec::new();
                match targets {
                    None => {},
                    Some(ts) => {
                        let mut i: usize = 0;
                        while i < ts.len()
                            invariant
                                i <= ts@.len(),
                                ds@.len() == i,
                                ev == (ClientEvent::RequestElement { elem_id, template_id, state, options }),
                                forall|j: int|
                                    0 <= j < i ==> (#[trigger] ds@[j] matches Delivery::ToClient {
                                        client_id,
                                        event,
                                    } && client_id@ == ts@[j]@ && event == ev),
                            decreases ts@.len() - i,
                        {
                            ds.push(
                                Delivery::ToClient {
                                    client_id: ts[i].clone(),
                                    event: ClientEvent::RequestElement {
                                        elem_id: elem_id.clone(),
                                        template_id: template_id.clone(),
                                        state: json_clone(&state),
                                        options: options,
                                    },
                                },
                            );
                            i = i + 1;
                        }
                    },
                }
                Ok(ds)
            },
            ServerRequest::UpdateElement { target, elem_id, state, new_options } => {
                let ghost ev = ClientEvent::UpdateElement { elem_id, state, new_options };
                let targets = self.perform_selection(server_id, &target);
                let mut ds: Vec<Delivery> = Vec::new();
                match targets {
                    None => {},
                    Some(ts) => {
                        let mut i: usize = 0;
                        while i < ts.len()
                            invariant
                                i <= ts@.len(),
                                ds@.len() == i,
                                ev == (ClientEvent::UpdateElement { elem_id, state, new_options }),
                                forall|j: int|
                                    0 <= j < i ==> (#[trigger] ds@[j] matches Delivery::ToClient {
                                        client_id,
                                        event,
                                    } && client_id@ == ts@[j]@ && event == ev),
                            decreases ts@.len() - i,
                        {
                            ds.push(
                                Delivery::ToClient {
                                    client_id: ts[i].clone(),
                                    event: ClientEvent::UpdateElement {
                                        elem_id: elem_id.clone(),
                                        state: json_clone(&state),
                                        new_options: new_options,
                                    },
                                },
                            );
                            i = i + 1;
                        }
                    },
                }
                Ok(ds)
            },
            _ => {
                proof {
                    assert(false);
                }
                Ok(Vec::new())
            },
        }
    }

    /// The player with SteamID `s` joined server `server_id`.
    fn player_joined(&mut self, server_id: &str, s: u64) -> (r: Result<Vec<Delivery>, RequestError>)
        requires
            old(self).wf(),
            old(self)@.servers.contains_key(server_id@),
        ensures
            final(self).wf(),
            match client_for_steamid(old(self)@, s) {
                None => r matches Ok(ds) && ds@.len() == 0 && final(self)@ == old(self)@,
                Some(cid) => {
                    let c = old(self)@.clients[cid];
                    let sv = server_with_player(old(self)@.servers[server_id@], c);
                    &&& final(self)@ == (ManagerView {
                        clients: old(self)@.clients.insert(cid, ClientView { server: Some(server_id@), ..c }),
                        servers: old(self)@.servers.insert(server_id@, sv),
                        ..old(self)@
                    })
                    &&& r matches Ok(ds) && ds@.len() == 1 && joined_delivery(ds@[0], cid, server_id@, sv)
                },
            },
    {
        let cid: String = match self.client_steamid_map.get(&s) {
            Some(c) => c.clone(),
            None => {
                return Ok(Vec::new());
            },
        };
        if !self.clients.contains_key(&cid) {
            return Ok(Vec::new());
        }
        let ghost old_view = self@;
        let key = String::from_str(server_id);
        proof {
            assert(self@.servers.contains_key(key@));
            assert(self.servers@.contains_key(key@));
        }
        let mut server = self.servers.remove(&key).unwrap();
        let mut client = self.clients.remove(&cid).unwrap();
        proof {
            assert(old_view.servers.contains_key(key@));
            assert(old_view.servers[key@].id == key@);
            assert(old_view.clients.contains_key(cid@));
        }
        let _ = server.add_client(&client);
        let info = server.info();
        client._set_server(Some(key.clone()));
        self.clients.insert(cid.clone(), client);
        self.servers.insert(key, server);
        proof {
            let c = old_view.clients[cid@];
            let sv = server_with_player(old_view.servers[server_id@], c);
            assert(self@.clients =~= old_view.clients.insert(cid@, ClientView { server: Some(server_id@), ..c }));
            assert(self@.servers =~= old_view.servers.insert(server_id@, sv));
            assert forall|k: Seq<char>| #[trigger] self.servers@.contains_key(k) implies self.servers@[k].wf() by {
                if k != key@ {
                    assert(old(self).servers@.contains_key(k));
                }
            }
        }
        let mut ds: Vec<Delivery> = Vec::new();
        ds.push(Delivery::ToClient { client_id: cid, event: ClientEvent::ChangedServer(Some(info)) });
        Ok(ds)
    }

    /// The player with SteamID `s` left server `server_id`.
    fn player_left(&mut self, server_id: &str, s: u64) -> (r: Result<Vec<Delivery>, RequestError>)
        requires
            old(self).wf(),
            old(self)@.servers.contains_key(server_id@),
        ensures
            final(self).wf(),
            ({
                let sv = server_without_player(old(self)@.servers[server_id@], s);
                match client_for_steamid(old(self)@, s) {
                    None => r matches Ok(ds) && ds@.len() == 0 && final(self)@ == (ManagerView {
                        servers: old(self)@.servers.insert(server_id@, sv),
                        ..old(self)@
                    }),
                    Some(cid) => {
                        &&& final(self)@ == (ManagerView {
                            clients: old(self)@.clients.insert(
                                cid,
                                ClientView { server: None, ..old(self)@.clients[cid] },
                            ),
                            servers: old(self)@.servers.insert(server_id@, sv),
                            ..old(self)@
                        })
                        &&& r matches Ok(ds) && ds@.len() == 1 && left_delivery(ds@[0], cid)
                    },
                }
            }),
    {
        let ghost old_view = self@;
        let mut ds: Vec<Delivery> = Vec::new();
        let found: Option<String> = match self.client_steamid_map.get(&s) {
            Some(c) => if self.clients.contains_key(c) {
                Some(c.clone())
            } else {
                None
            },
            None => None,
        };
        match found {
            Some(cid) => {
                let mut client = self.clients.remove(&cid).unwrap();
                client._set_server(None);
                self.clients.insert(cid.clone(), client);
                proof {
                    assert(self@.clients =~= old_view.clients.insert(
                        cid@,
                        ClientView { server: None, ..old_view.clients[cid@] },
                    ));
                }
                ds.push(Delivery::ToClient { client_id: cid, event: ClientEvent::ChangedServer(None) });
            },
            None => {},
        }
        let ghost mid = self@;
        let key = String::from_str(server_id);
        proof {
            assert(self.servers@.contains_key(key@));
        }
        let mut server = self.servers.remove(&key).unwrap();
        server.remove_client(s);
        self.servers.insert(key, server);
        proof {
            let sv = server_without_player(old_view.servers[server_id@], s);
            assert(self@.servers =~= old_view.servers.insert(server_id@, sv));
            assert forall|k: Seq<char>| #[trigger] self.servers@.contains_key(k) implies self.servers@[k].wf() by {
                if k != key@ {
                    assert(old(self).servers@.contains_key(k));
                }
            }
        }
        Ok(ds)
    }
}

proof fn lemma_filter_take_step<T>(s: Seq<T>, p: spec_fn(T) -> bool, i: int)
    requires
        0 <= i < s.len(),
    ensures
        s.take(i + 1).filter(p) == (if p(s[i]) {
            s.take(i).filter(p).push(s[i])
        } else {
            s.take(i).filter(p)
        }),
{
    reveal(Seq::filter);
    assert(s.take(i + 1).drop_last() =~= s.take(i));
}

impl ManagerInstance {
    /// Tells the clients of the players on a server that is going away that
    /// they are on no server any more, and clears their server.
    pub fn notify_disconnect(&mut self, server_id: &str) -> (r: Vec<Delivery>)
        requires
            old(self).wf(),
            old(self)@.servers.contains_key(server_id@),
        ensures
            final(self).wf(),
            final(self)@ == (ManagerView {
                clients: clear_servers(
                    old(self)@.clients,
                    server_client_ids(old(self)@.servers[server_id@]),
                ),
                ..old(self)@
            }),
            deliveries_to(
                r@,
                connected_among(old(self)@.clients, server_client_ids(old(self)@.servers[server_id@])),
                ClientEvent::LeftServer,
            ),
    {
        let server = self.get_server(server_id).unwrap();
        let ids = server.client_ids();
        let ghost sv = server@;
        let ghost scids = server_client_ids(sv);
        let ghost old_clients = self@.clients;
        let ghost pred = |c: Seq<char>| old_clients.contains_key(c);
        let mut cids: Vec<String> = Vec::new();
        let mut k: usize = 0;
        while k < ids.len()
            invariant
                server.wf(),
                server@ == sv,
                ids@ == sv.client_order,
                k <= ids@.len(),
                cids@.len() == k,
                forall|j: int| 0 <= j < k ==> (#[trigger] cids@[j])@ == scids[j],
                scids == server_client_ids(sv),
            decreases ids@.len() - k,
        {
            let cid = server.get_client(ids[k]);
            proof {
                assert(sv.client_order.contains(ids@[k as int]));
                assert(scids[k as int] == sv.clients[ids@[k as int]]);
            }
            cids.push(cid.unwrap());
            k = k + 1;
        }
        let mut ds: Vec<Delivery> = Vec::new();
        let mut i: usize = 0;
        assert(scids.take(0) =~= Seq::<Seq<char>>::empty());
        assert(scids.take(0).filter(pred) =~= Seq::<Seq<char>>::empty()) by {
            reveal(Seq::filter);
        }
        while i < cids.len()
            invariant
                self.wf(),
                cids@.len() == scids.len(),
                forall|j: int| 0 <= j < cids@.len() ==> (#[trigger] cids@[j])@ == scids[j],
                i <= cids@.len(),
                self@ == (ManagerView { clients: clear_servers(old_clients, scids.take(i as int)), ..old(self)@ }),
                forall|c: Seq<char>| #[trigger] self@.clients.contains_key(c) == old_clients.contains_key(c),
                pred == (|c: Seq<char>| old_clients.contains_key(c)),
                deliveries_to(ds@, scids.take(i as int).filter(pred), ClientEvent::LeftServer),
            decreases cids@.len() - i,
        {
            let ghost before_ds = ds@;
            let ghost before = self@;
            proof {
                lemma_filter_take_step(scids, pred, i as int);
                assert(scids.take(i + 1).drop_last() =~= scids.take(i as int));
                assert(scids.take(i + 1).last() == scids[i as int]);
            }
            let cid = cids[i].clone();
            if self.clients.contains_key(&cid) {
                let mut client = self.clients.remove(&cid).unwrap();
                client._set_server(None);
                self.clients.insert(cid.clone(), client);
                proof {
                    assert(self@.clients =~= before.clients.insert(
                        cid@,
                        ClientView { server: None, ..before.clients[cid@] },
                    ));
                }
                ds.push(Delivery::ToClient { client_id: cid, event: ClientEvent::LeftServer });
            } else {
                proof {
                    assert(self@.clients == before.clients);
                }
            }
            i = i + 1;
        }
        proof {
            assert(scids.take(cids@.len() as int) =~= scids);
        }
        ds
    }
}

/// A client that completed both halves of authorization with SteamID `s` is
/// the one that SteamID leads to.
pub proof fn law_authorized_client_found(before: ManagerView, after: ManagerView, id: Seq<char>, s: u64)
    requires
        before.clients.contains_key(id),
        after == (ManagerView { steamids: before.steamids.insert(s, id), ..before }),
    ensures
        client_for_steamid(after, s) == Some(id),
{
}

/// Client `c` is the client of some player on the server.
pub open spec fn client_of_player_on(v: ManagerView, on_server: Map<u64, Seq<char>>, c: Seq<char>) -> bool {
    exists|s: u64| on_server.contains_key(s) && #[trigger] client_for_steamid(v, s) == Some(c)
}

/// An element event only reaches clients of players that are on the server
/// it came from.
pub proof fn law_recipients_are_on_server(v: ManagerView, on_server: Map<u64, Seq<char>>, ids: Seq<u64>)
    ensures
        forall|i: int|
            0 <= i < recipients(v, on_server, ids).len() ==> client_of_player_on(
                v,
                on_server,
                #[trigger] recipients(v, on_server, ids)[i],
            ),
    decreases ids.len(),
{
    if ids.len() > 0 {
        law_recipients_are_on_server(v, on_server, ids.drop_last());
        let prev = recipients(v, on_server, ids.drop_last());
        let s = ids.last();
        assert forall|i: int| 0 <= i < recipients(v, on_server, ids).len() implies client_of_player_on(
            v,
            on_server,
            #[trigger] recipients(v, on_server, ids)[i],
        ) by {
            if i < prev.len() {
                assert(recipients(v, on_server, ids)[i] == prev[i]);
                assert(client_of_player_on(v, on_server, prev[i]));
            } else {
                assert(on_server.contains_key(s));
                assert(client_for_steamid(v, s) == Some(recipients(v, on_server, ids)[i]));
            }
        }
    }
}

/// Every selected player that is on the server and leads to a connected
/// client gets the event, wherever it stands in the selection.
pub proof fn law_selected_players_receive(v: ManagerView, on_server: Map<u64, Seq<char>>, ids: Seq<u64>)
    ensures
        forall|i: int|
            0 <= i < ids.len() && on_server.contains_key(#[trigger] ids[i]) && v.steamids.contains_key(ids[i])
                && v.clients.contains_key(v.steamids[ids[i]]) ==> recipients(v, on_server, ids).contains(
                v.steamids[ids[i]],
            ),
    decreases ids.len(),
{
    if ids.len() > 0 {
        law_selected_players_receive(v, on_server, ids.drop_last());
        let prev = recipients(v, on_server, ids.drop_last());
        let r = recipients(v, on_server, ids);
        assert forall|i: int|
            0 <= i < ids.len() && on_server.contains_key(#[trigger] ids[i]) && v.steamids.contains_key(ids[i])
                && v.clients.contains_key(v.steamids[ids[i]]) implies r.contains(v.steamids[ids[i]]) by {
            if i < ids.len() - 1 {
                assert(ids.drop_last()[i] == ids[i]);
                let j = choose|j: int| 0 <= j < prev.len() && prev[j] == v.steamids[ids[i]];
                assert(r[j] == prev[j]);
            } else {
                assert(r[prev.len() as int] == v.steamids[ids[i]]);
            }
        }
    }
}

/// Selecting more players never takes a recipient away: the recipients of a
/// selection come first, in the same order, among those of any longer one.
pub proof fn law_recipients_grow(v: ManagerView, on_server: Map<u64, Seq<char>>, ids: Seq<u64>, more: Seq<u64>)
    ensures
        recipients(v, on_server, ids).len() <= recipients(v, on_server, ids + more).len(),
        forall|j: int|
            0 <= j < recipients(v, on_server, ids).len() ==> #[trigger] recipients(v, on_server, ids + more)[j]
                == recipients(v, on_server, ids)[j],
    decreases more.len(),
{
    if more.len() == 0 {
        assert(ids + more =~= ids);
    } else {
        law_recipients_grow(v, on_server, ids, more.drop_last());
        assert((ids + more).drop_last() =~= ids + more.drop_last());
        let mid = recipients(v, on_server, ids + more.drop_last());
        let full = recipients(v, on_server, ids + more);
        assert forall|j: int| 0 <= j < recipients(v, on_server, ids).len() implies #[trigger] full[j]
            == recipients(v, on_server, ids)[j] by {
            assert(full[j] == mid[j]);
        }
    }
}

/// A player that joins a server and then leaves it is no longer listed on it;
/// the other players stay as they were.
pub proof fn law_join_then_leave(sv: ServerView, c: ClientView, s: u64)
    requires
        c.steamid == Some(s),
    ensures
        server_without_player(server_with_player(sv, c), s).clients == sv.clients.remove(s),
        !server_without_player(server_with_player(sv, c), s).client_order.contains(s),
{
    let after = server_without_player(server_with_player(sv, c), s);
    assert(after.clients =~= sv.clients.remove(s));
    let order = server_with_player(sv, c).client_order;
    if after.client_order.contains(s) {
        let j = choose|j: int| 0 <= j < after.client_order.len() && after.client_order[j] == s;
        assert(order.filter(|x: u64| x != s).contains(s));
        order.lemma_filter_contains_rev(|x: u64| x != s, s);
    }
}

} // verus!
