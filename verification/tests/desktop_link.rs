use game_overlay::desktop_link::{link_step_exec, LinkEvent, LinkInput, LinkPhase, ReadFailure};
use game_overlay::handshake::ClientIncomingRequest;
use game_overlay::messages::SteamUser;

fn user() -> SteamUser {
    SteamUser {
        avatar: String::new(),
        avatar_full: String::new(),
        avatar_hash: String::new(),
        avatar_medium: String::new(),
        community_visibility_state: 3,
        last_log_off: 0,
        loc_country_code: String::new(),
        loc_state_code: String::new(),
        persona_name: "gabe".to_string(),
        persona_state: 1,
        persona_state_flags: 0,
        primary_clan_id: String::new(),
        profile_state: 1,
        profile_url: String::new(),
        steamid: String::new(),
        time_created: 0,
    }
}

fn authorized() -> ClientIncomingRequest {
    ClientIncomingRequest::Authorized { steamid2: "STEAM_1:0:11101".to_string(), auth_token: "t".to_string(), user: user() }
}

fn label(e: &Option<LinkEvent>) -> &'static str {
    match e {
        None => "-",
        Some(LinkEvent::ManagerConnected) => "connected",
        Some(LinkEvent::ManagerDisconnected) => "disconnected",
        Some(LinkEvent::Message(ClientIncomingRequest::Authorized { .. })) => "authorized",
        Some(LinkEvent::Message(_)) => "message",
    }
}

#[test]
fn reading_thread_tells_events_in_order() {
    let inputs = vec![
        LinkInput::Read(Ok(Some(ClientIncomingRequest::ClientJoined))),
        LinkInput::Connect(false),
        LinkInput::Connect(true),
        LinkInput::Read(Ok(None)),
        LinkInput::Read(Ok(Some(authorized()))),
        LinkInput::Read(Ok(Some(ClientIncomingRequest::ClientJoined))),
        LinkInput::Read(Err(ReadFailure::Other)),
        LinkInput::Read(Err(ReadFailure::Io)),
        LinkInput::Read(Ok(Some(ClientIncomingRequest::ClientJoined))),
        LinkInput::Connect(false),
        LinkInput::Connect(true),
        LinkInput::Read(Ok(Some(ClientIncomingRequest::ClientDisconnected))),
    ];
    let mut phase = LinkPhase::Connecting;
    let mut told = vec![];
    for input in inputs {
        let (next, ev) = link_step_exec(phase, input).unwrap();
        told.push(label(&ev));
        phase = next;
    }
    assert_eq!(
        told,
        vec!["-", "-", "connected", "-", "authorized", "message", "-", "disconnected", "-", "-", "connected", "message"]
    );
    assert_eq!(phase, LinkPhase::Reading);
}

#[test]
fn login_fails_on_other_answers() {
    let (p, _) = link_step_exec(LinkPhase::Connecting, LinkInput::Connect(true)).unwrap();
    assert_eq!(p, LinkPhase::Authorizing);
    assert!(link_step_exec(p, LinkInput::Read(Ok(Some(ClientIncomingRequest::ClientJoined)))).is_none());
    assert!(link_step_exec(LinkPhase::Authorizing, LinkInput::Read(Err(ReadFailure::Io))).is_none());
}
