use game_overlay::address::{IpAddress, PeerAddr};
use game_overlay::handshake::AuthFailure;
use game_overlay::manager::{
    selection_to_list, ClientInstance, ClientTokenClaims, Delivery, ManagerInstance, RequestError, ServerInstance,
    ServerTokenClaims, TemplateEntry,
};
use game_overlay::messages::{ClientEvent, ClientRequest, ServerEvent, ServerRequest, SteamUser, TargetSelection};
use game_overlay::steam::SteamError;
use game_overlay::token::{
    client_claims_from_json, client_claims_to_json, read_client_token, server_claims_from_json, sign_client_claims,
};
use hmac::Mac;
use jwt::{SignWithKey, VerifyWithKey};

const GABE: u64 = 76561197960287930;
const GABE2: &str = "STEAM_1:0:11101";
const OTHER: u64 = 76561197960287932;
const OTHER2: &str = "STEAM_1:0:11102";

fn addr(last: u8, port: u16) -> PeerAddr {
    let ip = format!("10.0.0.{last}");
    PeerAddr::new(IpAddress::V4(0x0a00_0000 | last as u32), port, format!("{ip}:{port}"), ip)
}

fn user(name: &str) -> SteamUser {
    SteamUser {
        avatar: String::new(),
        avatar_full: String::new(),
        avatar_hash: String::new(),
        avatar_medium: String::new(),
        community_visibility_state: 3,
        last_log_off: 0,
        loc_country_code: String::new(),
        loc_state_code: String::new(),
        persona_name: name.to_string(),
        persona_state: 1,
        persona_state_flags: 0,
        primary_clan_id: String::new(),
        profile_state: 1,
        profile_url: String::new(),
        steamid: String::new(),
        time_created: 0,
    }
}

fn server_claims(subject: &str, issued_at: u64) -> ServerTokenClaims {
    ServerTokenClaims {
        namespace: "l4d2".to_string(),
        subject: subject.to_string(),
        issuer: "manager".to_string(),
        issued_at,
        ip_addr: None,
    }
}

/// A manager with one server `srv-1234` and a client logged in as `steamid`.
fn logged_in(m: &mut ManagerInstance, steamid: u64, last: u8) -> String {
    let id = m.start_client(addr(last, 5000));
    let claims = m.begin_authorization(&id, steamid, &Ok(user("gabe")), 100).unwrap();
    let _ = claims;
    m.finish_authorization(&id, user("gabe"), Ok("token".to_string())).unwrap();
    id
}

fn with_server() -> ManagerInstance {
    let mut m = ManagerInstance::new();
    assert_eq!(m.try_authorize_server_claims(addr(9, 27015), Ok(server_claims("srv-1234", 10)), 100).unwrap(), "srv-1234");
    m
}

#[test]
fn start_client_registers_a_temporary_client() {
    let mut m = ManagerInstance::new();
    let a = addr(1, 5000);
    let id = m.start_client(addr(1, 5000));
    assert_eq!(id.len(), 36);
    assert!(m.has_client(&id));
    let c = m.get_client(&id).unwrap();
    assert_eq!(c.id(), id);
    assert!(c.is_temp_client());
    assert!(!c.is_authorized());
    assert_eq!(c.steamid(), None);
    assert_eq!(c.connected_server(), None);
    assert!(m.verify_client(&id, &a));
}

#[test]
fn verify_client_compares_ip_only() {
    let mut m = ManagerInstance::new();
    let id = m.start_client(addr(1, 5000));
    assert!(m.verify_client(&id, &addr(1, 6000)));
    assert!(!m.verify_client(&id, &addr(2, 5000)));
    assert!(!m.verify_client("00000000-0000-0000-0000-000000000000", &addr(1, 5000)));
}

#[test]
fn remove_client_tells_whether_it_was_there() {
    let mut m = ManagerInstance::new();
    let id = m.start_client(addr(1, 5000));
    assert!(m.remove_client(&id));
    assert!(!m.has_client(&id));
    assert!(!m.remove_client(&id));
}

#[test]
fn server_login_with_token_claims() {
    let mut m = ManagerInstance::new();
    let r = m.try_authorize_server_claims(addr(9, 27015), Ok(server_claims("srv-1234", 10)), 100);
    assert_eq!(r.unwrap(), "srv-1234");
    let s = m.get_server("srv-1234").unwrap();
    assert_eq!(s.id(), "srv-1234");
    assert_eq!(s.namespace(), "l4d2");
    assert_eq!(s.num_clients(), 0);
    assert_eq!(s.addr(), "10.0.0.9");
    let info = s.info();
    assert_eq!(info.name, "srv- 10.0.0.9:27015");
    assert_eq!(info.id, "srv-1234");
    assert_eq!(info.game_type, 0);
    assert!(info.players.is_empty() && info.teams.is_empty());
}

#[test]
fn server_token_from_the_future_is_refused() {
    let mut m = ManagerInstance::new();
    let r = m.try_authorize_server_claims(addr(9, 27015), Ok(server_claims("srv", 200)), 100);
    match r {
        Err(AuthFailure::InvalidAuthToken(Some(msg))) => assert_eq!(msg, "token issued in the future and is invalid"),
        other => panic!("unexpected {other:?}"),
    }
    assert!(m.get_server("srv").is_none());
    let r = m.try_authorize_server_claims(addr(9, 27015), Err("bad signature".to_string()), 100);
    assert!(matches!(r, Err(AuthFailure::InvalidAuthToken(Some(ref m))) if m == "bad signature"));
}

#[test]
fn remove_server_forgets_it() {
    let mut m = with_server();
    assert!(m.remove_server("srv-1234"));
    assert!(!m.remove_server("srv-1234"));
    assert!(m.get_server("srv-1234").is_none());
}

#[test]
fn client_token_checks() {
    let claims = |subject: &str, issued_at: u64| ClientTokenClaims {
        subject: subject.to_string(),
        issuer: "manager".to_string(),
        issued_at,
        jwt_id: None,
        ip_addr: None,
    };
    assert_eq!(ManagerInstance::check_client_token(Ok(claims(GABE2, 50)), 100).unwrap(), GABE);
    match ManagerInstance::check_client_token(Ok(claims(GABE2, 150)), 100) {
        Err(AuthFailure::InvalidAuthToken(Some(m))) => assert_eq!(m, "token issued in the future and is invalid"),
        other => panic!("unexpected {other:?}"),
    }
    assert!(matches!(
        ManagerInstance::check_client_token(Ok(claims("BOT", 50)), 100),
        Err(AuthFailure::InvalidAuthToken(None))
    ));
    assert!(matches!(
        ManagerInstance::check_client_token(Err("expired".to_string()), 100),
        Err(AuthFailure::InvalidAuthToken(Some(ref m))) if m == "expired"
    ));
}

#[test]
fn authorization_gives_claims_then_tells_the_client() {
    let mut m = ManagerInstance::new();
    let id = m.start_client(addr(1, 5000));
    let claims = m.begin_authorization(&id, GABE, &Ok(user("gabe")), 1234).unwrap();
    assert_eq!(claims.subject, GABE2);
    assert_eq!(claims.issuer, "manager");
    assert_eq!(claims.issued_at, 1234);
    assert_eq!(claims.jwt_id.as_deref(), Some("10.0.0.1:5000"));
    assert_eq!(claims.ip_addr.as_deref(), Some("10.0.0.1:5000"));
    assert_eq!(m.get_client(&id).unwrap().steamid(), Some(GABE));
    assert_eq!(m.get_client(&id).unwrap().steamid2().as_deref(), Some(GABE2));
    assert!(m.get_client_from_steamid(GABE).is_none());

    let d = m.finish_authorization(&id, user("gabe"), Ok("signed".to_string())).unwrap();
    match d {
        Delivery::ToClient { client_id, event: ClientEvent::Authorized { steamid2, auth_token, user } } => {
            assert_eq!(client_id, id);
            assert_eq!(steamid2, GABE2);
            assert_eq!(auth_token, "signed");
            assert_eq!(user.persona_name, "gabe");
        },
        other => panic!("unexpected {other:?}"),
    }
    assert_eq!(m.get_client_from_steamid(GABE).unwrap().id(), id);
    assert_eq!(m.find_client_by_steamid(GABE).unwrap().id(), id);
    assert!(m.get_client(&id).unwrap().is_authorized());
}

#[test]
fn authorization_errors() {
    let mut m = ManagerInstance::new();
    let r = m.begin_authorization("nobody", GABE, &Ok(user("x")), 1);
    assert!(matches!(r, Err(AuthFailure::ObjectNotFound)));
    let r = m.begin_authorization("nobody", GABE, &Err(SteamError::APIError("down".to_string())), 1);
    assert!(matches!(r, Err(AuthFailure::General(ref msg)) if msg == "API Error: down"));
    let id = m.start_client(addr(1, 5000));
    let r = m.finish_authorization(&id, user("x"), Ok("t".to_string()));
    assert!(matches!(r, Err(AuthFailure::ObjectNotFound)));
    let r = m.finish_authorization(&id, user("x"), Err("sign failed".to_string()));
    assert!(matches!(r, Err(AuthFailure::General(ref msg)) if msg == "sign failed"));
}

#[test]
fn player_joined_moves_the_client_onto_the_server() {
    let mut m = with_server();
    let id = logged_in(&mut m, GABE, 1);
    let ds = m.on_server_request(ServerRequest::PlayerJoined { steamid: GABE2.to_string() }, "srv-1234").unwrap();
    assert_eq!(ds.len(), 1);
    match &ds[0] {
        Delivery::ToClient { client_id, event: ClientEvent::ChangedServer(Some(info)) } => {
            assert_eq!(client_id, &id);
            assert_eq!(info.id, "srv-1234");
            assert_eq!(info.name, "srv- 10.0.0.9:27015");
        },
        other => panic!("unexpected {other:?}"),
    }
    assert_eq!(m.get_client(&id).unwrap().connected_server().as_deref(), Some("srv-1234"));
    let s = m.get_server("srv-1234").unwrap();
    assert!(s.has_client_steamid(GABE));
    assert_eq!(s.client_ids(), vec![GABE]);
}

#[test]
fn player_join_and_leave_restores_the_server() {
    let mut m = with_server();
    let id = logged_in(&mut m, GABE, 1);
    m.on_server_request(ServerRequest::PlayerJoined { steamid: GABE2.to_string() }, "srv-1234").unwrap();
    let ds = m.on_server_request(ServerRequest::PlayerLeft { steamid: GABE2.to_string() }, "srv-1234").unwrap();
    assert_eq!(ds.len(), 1);
    assert!(matches!(&ds[0], Delivery::ToClient { client_id, event: ClientEvent::ChangedServer(None) } if client_id == &id));
    assert_eq!(m.get_client(&id).unwrap().connected_server(), None);
    assert_eq!(m.get_server("srv-1234").unwrap().num_clients(), 0);
}

#[test]
fn unknown_players_and_bad_steamids() {
    let mut m = with_server();
    let ds = m.on_server_request(ServerRequest::PlayerJoined { steamid: OTHER2.to_string() }, "srv-1234").unwrap();
    assert!(ds.is_empty());
    let r = m.on_server_request(ServerRequest::PlayerJoined { steamid: "BOT".to_string() }, "srv-1234");
    assert!(matches!(r, Err(RequestError::InvalidData)));
    let r = m.on_server_request(ServerRequest::PlayerLeft { steamid: "nope".to_string() }, "srv-1234");
    assert!(matches!(r, Err(RequestError::InvalidData)));
}

#[test]
fn elements_go_to_the_selected_players() {
    let mut m = with_server();
    let a = logged_in(&mut m, GABE, 1);
    let b = logged_in(&mut m, OTHER, 2);
    m.on_server_request(ServerRequest::PlayerJoined { steamid: GABE2.to_string() }, "srv-1234").unwrap();
    m.on_server_request(ServerRequest::PlayerJoined { steamid: OTHER2.to_string() }, "srv-1234").unwrap();

    let state: serde_json::Value = serde_json::from_str("{\"content\": \"hi\"}").unwrap();
    let ds = m
        .on_server_request(
            ServerRequest::RequestElement {
                target: TargetSelection::All,
                elem_id: "e1".to_string(),
                template_id: "overlay:generic_text".to_string(),
                state: state.clone(),
                options: None,
            },
            "srv-1234",
        )
        .unwrap();
    let to: Vec<&String> = ds
        .iter()
        .map(|d| match d {
            Delivery::ToClient { client_id, event: ClientEvent::RequestElement { elem_id, state: s, .. } } => {
                assert_eq!(elem_id, "e1");
                assert_eq!(s, &state);
                client_id
            },
            other => panic!("unexpected {other:?}"),
        })
        .collect();
    assert_eq!(to, vec![&a, &b]);

    let ds = m
        .on_server_request(
            ServerRequest::UpdateElement {
                target: TargetSelection::SteamID(OTHER2.to_string()),
                elem_id: "e1".to_string(),
                state: state.clone(),
                new_options: None,
            },
            "srv-1234",
        )
        .unwrap();
    assert_eq!(ds.len(), 1);
    assert!(matches!(&ds[0], Delivery::ToClient { client_id, event: ClientEvent::UpdateElement { .. } } if client_id == &b));

    let ds = m
        .on_server_request(
            ServerRequest::UpdateElement {
                target: TargetSelection::SteamIDs(vec![GABE2.to_string(), "garbage".to_string()]),
                elem_id: "e1".to_string(),
                state,
                new_options: None,
            },
            "srv-1234",
        )
        .unwrap();
    assert!(ds.is_empty());
}

#[test]
fn selection_lists() {
    let all = vec![GABE, OTHER];
    assert_eq!(selection_to_list(&all, &TargetSelection::All), Some(vec![GABE, OTHER]));
    assert_eq!(selection_to_list(&all, &TargetSelection::SteamID(OTHER2.to_string())), Some(vec![OTHER]));
    assert_eq!(
        selection_to_list(&all, &TargetSelection::SteamIDs(vec![OTHER2.to_string(), GABE2.to_string()])),
        Some(vec![OTHER, GABE])
    );
    assert_eq!(selection_to_list(&all, &TargetSelection::SteamID("x".to_string())), None);
}

#[test]
fn perform_selection_names_client_ids() {
    let mut m = with_server();
    let a = logged_in(&mut m, GABE, 1);
    m.on_server_request(ServerRequest::PlayerJoined { steamid: GABE2.to_string() }, "srv-1234").unwrap();
    assert_eq!(m.perform_selection("srv-1234", &TargetSelection::All), Some(vec![a.clone()]));
    assert_eq!(m.perform_selection("srv-1234", &TargetSelection::SteamID(OTHER2.to_string())), Some(vec![]));
    assert_eq!(m.perform_selection("srv-1234", &TargetSelection::SteamID("x".to_string())), None);
}

#[test]
fn client_actions_go_to_its_server() {
    let mut m = with_server();
    let id = logged_in(&mut m, GABE, 1);
    let action = ClientRequest::Action {
        command: "kick".to_string(),
        namespace: "overlay".to_string(),
        input: "#23".to_string(),
        instance_id: "i1".to_string(),
    };
    assert!(m.on_client_request(&action, &id).is_none());
    m.on_server_request(ServerRequest::PlayerJoined { steamid: GABE2.to_string() }, "srv-1234").unwrap();
    match m.on_client_request(&action, &id) {
        Some(Delivery::ToServer { server_id, event: ServerEvent::Action { steamid2, command, namespace, input, instance_id } }) => {
            assert_eq!(server_id, "srv-1234");
            assert_eq!(steamid2, GABE2);
            assert_eq!(command, "kick");
            assert_eq!(namespace, "overlay");
            assert_eq!(input, "#23");
            assert_eq!(instance_id, "i1");
        },
        other => panic!("unexpected {other:?}"),
    }
    assert!(m.on_client_request(&action, "unknown").is_none());
}

#[test]
fn server_disconnect_tells_its_players() {
    let mut m = with_server();
    let a = logged_in(&mut m, GABE, 1);
    let b = logged_in(&mut m, OTHER, 2);
    m.on_server_request(ServerRequest::PlayerJoined { steamid: GABE2.to_string() }, "srv-1234").unwrap();
    m.on_server_request(ServerRequest::PlayerJoined { steamid: OTHER2.to_string() }, "srv-1234").unwrap();
    m.remove_client(&b);
    let ds = m.notify_disconnect("srv-1234");
    assert_eq!(ds.len(), 1);
    assert!(matches!(&ds[0], Delivery::ToClient { client_id, event: ClientEvent::LeftServer } if client_id == &a));
    assert_eq!(m.get_client(&a).unwrap().connected_server(), None);
}

#[test]
fn server_instance_clients() {
    let mut s = ServerInstance::with_id(addr(9, 27015), "ns".to_string(), "abcdefgh".to_string());
    let mut c = ClientInstance::with_id(addr(1, 5000), "67e55044-10b1-426f-9247-bb680e5fe0c8".to_string());
    assert!(s.add_client(&c).is_err());
    c._set_steamid(GABE);
    assert!(s.add_client(&c).is_ok());
    assert!(s.has_client_steamid(GABE));
    assert_eq!(s.num_clients(), 1);
    assert!(s.remove_client(GABE));
    assert!(!s.remove_client(GABE));
    assert_eq!(s.info().name, "abcd 10.0.0.9:27015");
}

#[test]
fn client_token_claims_need_a_steamid() {
    let c = ClientInstance::with_id(addr(1, 5000), "67e55044-10b1-426f-9247-bb680e5fe0c8".to_string());
    match c.auth_token_claims(5) {
        Err(e) => assert_eq!(e, "Client is not authorized/missing steamid"),
        Ok(_) => panic!("claims without steamid"),
    }
}

#[test]
fn templates_must_be_json() {
    let mut s = ServerInstance::with_id(addr(9, 27015), "ns".to_string(), "abcdefgh".to_string());
    let ok = s._insert_template(TemplateEntry { namespace: "ns".to_string(), id: "t1".to_string(), data: "{\"a\": 1}".to_string() });
    assert_eq!(ok.unwrap(), serde_json::from_str::<serde_json::Value>("{\"a\": 1}").unwrap());
    let bad = s._insert_template(TemplateEntry { namespace: "ns".to_string(), id: "t2".to_string(), data: "{".to_string() });
    assert_eq!(bad.unwrap_err(), serde_json::from_str::<serde_json::Value>("{").unwrap_err().to_string());
}

#[test]
fn issued_token_logs_in_again() {
    let mut m = ManagerInstance::new();
    let id = m.start_client(addr(1, 5000));
    let claims = m.begin_authorization(&id, GABE, &Ok(user("gabe")), 100).unwrap();
    assert_eq!(ManagerInstance::check_client_token(Ok(claims), 250).unwrap(), GABE);
}

const KEY: &[u8] = b"test secret";

fn sign_json(v: &serde_json::Value, key: &[u8]) -> String {
    let k = hmac::Hmac::<sha2::Sha256>::new_from_slice(key).unwrap();
    v.sign_with_key(&k).unwrap()
}

#[test]
fn client_tokens_round_trip() {
    let mut m = ManagerInstance::new();
    let id = m.start_client(addr(1, 5000));
    let claims = m.begin_authorization(&id, GABE, &Ok(user("gabe")), 100).unwrap();
    let json = client_claims_to_json(&claims);
    assert_eq!(json["sub"], "STEAM_1:0:11101");
    assert_eq!(json["iat"], 100);
    assert_eq!(json["jti"], "10.0.0.1:5000");
    let back = client_claims_from_json(&json).unwrap();
    assert_eq!((back.subject.as_str(), back.issued_at), ("STEAM_1:0:11101", 100));
    let token = sign_client_claims(&claims, KEY).unwrap();
    assert_eq!(ManagerInstance::check_client_token_text(&token, KEY, 100).unwrap(), GABE);
    assert_eq!(ManagerInstance::check_client_token_text(&token, KEY, 5000).unwrap(), GABE);
    assert!(matches!(
        ManagerInstance::check_client_token_text(&token, KEY, 99),
        Err(AuthFailure::InvalidAuthToken(Some(ref msg))) if msg == "token issued in the future and is invalid"
    ));
    assert!(matches!(
        ManagerInstance::check_client_token_text(&token, b"other secret", 100),
        Err(AuthFailure::InvalidAuthToken(Some(_)))
    ));
    assert!(matches!(
        ManagerInstance::check_client_token_text("not a token", KEY, 100),
        Err(AuthFailure::InvalidAuthToken(Some(_)))
    ));
    assert_eq!(read_client_token(&token, KEY).unwrap().issuer, "manager");
}

#[test]
fn signed_claims_hold_only_the_client_members() {
    let mut m = ManagerInstance::new();
    let id = m.start_client(addr(1, 5000));
    let claims = m.begin_authorization(&id, GABE, &Ok(user("gabe")), 100).unwrap();
    let mut keys: Vec<String> = client_claims_to_json(&claims).as_object().unwrap().keys().cloned().collect();
    keys.sort();
    assert_eq!(keys, vec!["iat", "ip", "iss", "jti", "sub"]);
    let token = sign_client_claims(&claims, KEY).unwrap();
    let k = hmac::Hmac::<sha2::Sha256>::new_from_slice(KEY).unwrap();
    let back: serde_json::Value = token.as_str().verify_with_key(&k).unwrap();
    let mut keys: Vec<String> = back.as_object().unwrap().keys().cloned().collect();
    keys.sort();
    assert_eq!(keys, vec!["iat", "ip", "iss", "jti", "sub"]);
    assert_eq!(back["ip"], "10.0.0.1:5000");
    assert!(sign_client_claims(&claims, b"").is_ok());
}

#[test]
fn claims_that_are_not_an_object_are_refused() {
    let list: serde_json::Value = serde_json::from_str("[\"STEAM_1:0:11101\", \"manager\", 1, null, null]").unwrap();
    assert_eq!(client_claims_from_json(&list).err().unwrap(), "invalid token claims");
    assert_eq!(server_claims_from_json(&list).err().unwrap(), "invalid token claims");
    let token = sign_json(&list, KEY);
    match ManagerInstance::check_client_token_text(&token, KEY, 100) {
        Err(AuthFailure::InvalidAuthToken(Some(msg))) => assert_eq!(msg, "invalid token claims"),
        other => panic!("unexpected {other:?}"),
    }
}

#[test]
fn tokens_with_other_claims_are_refused() {
    let token = sign_json(&serde_json::from_str("{\"sub\": 5, \"iss\": \"manager\", \"iat\": 1}").unwrap(), KEY);
    match ManagerInstance::check_client_token_text(&token, KEY, 100) {
        Err(AuthFailure::InvalidAuthToken(Some(msg))) => assert_eq!(msg, "invalid token claims"),
        other => panic!("unexpected {other:?}"),
    }
    let token = sign_json(&serde_json::from_str("{\"sub\": \"BOT\", \"iss\": \"manager\", \"iat\": 1}").unwrap(), KEY);
    assert!(matches!(ManagerInstance::check_client_token_text(&token, KEY, 100), Err(AuthFailure::InvalidAuthToken(None))));
}

#[test]
fn generated_token_logs_the_client_in_again() {
    let mut c = ClientInstance::with_id(addr(1, 5000), "67e55044-10b1-426f-9247-bb680e5fe0c8".to_string());
    assert_eq!(c.generate_auth_token(KEY, 10).unwrap_err(), "Client is not authorized/missing steamid");
    c._set_steamid(GABE);
    let token = c.generate_auth_token(KEY, 10).unwrap();
    assert_eq!(ManagerInstance::check_client_token_text(&token, KEY, 10).unwrap(), GABE);
}

#[test]
fn mark_client_authorized_signs_a_token() {
    let mut m = ManagerInstance::new();
    let id = m.start_client(addr(1, 5000));
    let d = m.mark_client_authorized(&id, GABE, Ok(user("gabe")), KEY, 100).unwrap();
    match d {
        Delivery::ToClient { client_id, event: ClientEvent::Authorized { steamid2, auth_token, .. } } => {
            assert_eq!(client_id, id);
            assert_eq!(steamid2, GABE2);
            assert_eq!(ManagerInstance::check_client_token_text(&auth_token, KEY, 200).unwrap(), GABE);
        },
        other => panic!("unexpected {other:?}"),
    }
    assert_eq!(m.find_client_by_steamid(GABE).unwrap().id(), id);
    let r = m.mark_client_authorized(&id, GABE, Err(SteamError::APIError("down".to_string())), KEY, 100);
    assert!(matches!(r, Err(AuthFailure::General(ref msg)) if msg == "API Error: down"));
    assert!(matches!(m.mark_client_authorized("nobody", GABE, Ok(user("x")), KEY, 100), Err(AuthFailure::ObjectNotFound)));
}

#[test]
fn servers_log_in_with_tokens() {
    let mut m = ManagerInstance::new();
    let good = sign_json(
        &serde_json::from_str("{\"namespace\": \"l4d2\", \"sub\": \"srv-9\", \"iss\": \"manager\", \"iat\": 10, \"ip\": null}").unwrap(),
        KEY,
    );
    assert_eq!(m.try_authorize_server(addr(9, 27015), &good, KEY, 100).unwrap(), "srv-9");
    assert_eq!(m.get_server("srv-9").unwrap().namespace(), "l4d2");
    let future = sign_json(
        &serde_json::from_str("{\"namespace\": \"l4d2\", \"sub\": \"srv-8\", \"iss\": \"manager\", \"iat\": 500}").unwrap(),
        KEY,
    );
    assert!(matches!(
        m.try_authorize_server(addr(9, 27015), &future, KEY, 100),
        Err(AuthFailure::InvalidAuthToken(Some(ref msg))) if msg == "token issued in the future and is invalid"
    ));
    let no_ns = sign_json(&serde_json::from_str("{\"sub\": \"srv-7\", \"iss\": \"manager\", \"iat\": 1}").unwrap(), KEY);
    assert!(matches!(
        m.try_authorize_server(addr(9, 27015), &no_ns, KEY, 100),
        Err(AuthFailure::InvalidAuthToken(Some(ref msg))) if msg == "invalid token claims"
    ));
    assert!(matches!(m.try_authorize_server(addr(9, 27015), &good, b"wrong", 100), Err(AuthFailure::InvalidAuthToken(Some(_)))));
    assert!(m.get_server("srv-7").is_none() && m.get_server("srv-8").is_none());
}
