use game_overlay::cache::Cache;
use game_overlay::connection::{
    action_request, after_failed_attempt, fetch_template_step, login_url, pending_login_url, retry_delay_ms,
    ConnectOutcome,
    template_path, ClientAuthorized, FetchStep, ManagerState, OverlayManagerInstance, ReadAction, ReadOutcome,
    ReadResult, WebsocketClient, ManagerConnStatus,
};
use game_overlay::game::{PlayerInfo, PlayerTeam, TeamConfig, TeamShow};
use game_overlay::handshake::{ClientIncomingRequest, InitConnectionResPayload};
use game_overlay::messages::{ClientEvent, ClientRequest, SteamUser, WSResponse};
use game_overlay::overlay::{ServerInfo, UIState};
use game_overlay::player_list::{admin_perms_text, is_steam_account, list_players_layout, profile_steamid, team_members};
use game_overlay::address::{IpAddress, PeerAddr};
use game_overlay::window::{
    apply_activity, check_for_process, default_target_process, game_is_active, overlay_key, passthrough,
    process_check_step, supervise, target_process, AppConfig, ChildState, StartupMessage, SupervisorAction,
    ViewState, WindowChange,
};

fn user() -> SteamUser {
    SteamUser {
        avatar: String::new(),
        avatar_full: String::new(),
        avatar_hash: String::new(),
        avatar_medium: String::new(),
        community_visibility_state: 3,
        last_log_off: 0,
        loc_country_code: String::new(),
        loc_state_code: String::new(),
        persona_name: "gabe".to_string(),
        persona_state: 1,
        persona_state_flags: 0,
        primary_clan_id: String::new(),
        profile_state: 1,
        profile_url: String::new(),
        steamid: "76561197960287930".to_string(),
        time_created: 0,
    }
}

fn player(name: &str, steamid: &str, team: u8) -> PlayerInfo {
    PlayerInfo {
        steamid: steamid.to_string(),
        user_id: 7,
        name: name.to_string(),
        team: PlayerTeam(team),
        is_idle: false,
        admin_perms: None,
    }
}

#[test]
fn retry_delay_grows_with_attempts() {
    assert_eq!(retry_delay_ms(0), 0);
    assert_eq!(retry_delay_ms(1), 500);
    assert_eq!(retry_delay_ms(2), 2000);
    assert_eq!(retry_delay_ms(4), 8000);
    assert_eq!(retry_delay_ms(65535), 65535u64 * 65535 * 500);
}

#[test]
fn reconnect_counts_every_failed_attempt() {
    let mut c = WebsocketClient::new();
    assert!(!c.is_connected());
    assert_eq!(c.check_send(), Err("Not connected to socket".to_string()));
    assert_eq!(c.reconnect_delayed(ConnectOutcome::HandshakeFailed), Some(500));
    assert_eq!(c.reconnect_delayed(ConnectOutcome::HandshakeFailed), Some(2000));
    assert_eq!(c.connect_attempts(), 2);
    assert_eq!(c.reconnect_delayed(ConnectOutcome::TcpFailed), Some(4500));
    assert_eq!(c.reconnect_delayed(ConnectOutcome::TcpFailed), Some(8000));
    assert_eq!(c.connect_attempts(), 4);
    assert_eq!(c.reconnect_delayed(ConnectOutcome::Connected), None);
    assert_eq!(c.connect_attempts(), 0);
    assert!(c.is_connected());
    assert!(c.check_send().is_ok());
}

#[test]
fn login_is_accepted_on_authorized() {
    let mut c = WebsocketClient::new();
    c.reconnect_delayed(ConnectOutcome::Connected);
    let read = Ok(ClientEvent::Authorized {
        steamid2: "STEAM_1:0:11101".to_string(),
        auth_token: "tok".to_string(),
        user: user(),
    });
    let a: ClientAuthorized = c.wait_for_authorized(read).ok().unwrap();
    assert_eq!(a.steamid2, "STEAM_1:0:11101");
    assert_eq!(a.auth_token, "tok");
    assert!(c.is_authorized());
    assert!(!c.action_must_wait(3));
    assert!(!c.action_must_wait(31));
    c.reconnect_delayed(ConnectOutcome::HandshakeFailed);
    assert!(!c.is_authorized());
    assert!(c.action_must_wait(0));
    assert!(c.action_must_wait(30));
    assert!(!c.action_must_wait(31));
}

#[test]
fn login_refuses_other_messages() {
    let mut c = WebsocketClient::new();
    let r = c.wait_for_authorized(Ok(ClientEvent::LeftServer));
    assert_eq!(r.err().unwrap(), "manager sent unexpected data");
    let r = c.wait_for_authorized(Err("socket closed".to_string()));
    assert_eq!(r.err().unwrap(), "socket closed");
    assert!(!c.is_authorized());
    assert_eq!(c.process_request(&ClientEvent::LeftServer), ReadResult::Continue);
}

#[test]
fn waiting_for_connection_gives_up() {
    assert_eq!(after_failed_attempt(0, None), Some(1));
    assert_eq!(after_failed_attempt(2, Some(3)), Some(3));
    assert_eq!(after_failed_attempt(3, Some(3)), None);
}

#[test]
fn login_answers() {
    assert_eq!(login_url(WSResponse::PendingLogin { url: "http://x/auth/login?id=1".to_string() }).unwrap(), "http://x/auth/login?id=1");
    assert_eq!(
        login_url(WSResponse::InvalidRequest { message: None }).unwrap_err(),
        "manager returned unexpected response"
    );
    assert_eq!(pending_login_url(InitConnectionResPayload::PendingClientLogin { url: "u".to_string() }).unwrap(), "u");
    assert_eq!(
        pending_login_url(InitConnectionResPayload::ClientAuthorized).unwrap_err(),
        "manager returned unexpected response"
    );
}

#[test]
fn actions_default_to_empty_input() {
    match action_request("i".to_string(), "ns".to_string(), "cmd".to_string(), None) {
        ClientRequest::Action { command, namespace, input, instance_id } => {
            assert_eq!((command.as_str(), namespace.as_str(), input.as_str(), instance_id.as_str()), ("cmd", "ns", "", "i"));
        },
    }
    match action_request("i".to_string(), "ns".to_string(), "cmd".to_string(), Some("#23".to_string())) {
        ClientRequest::Action { input, .. } => assert_eq!(input, "#23"),
    }
}

#[test]
fn desktop_link_reads_frames() {
    let mut m = OverlayManagerInstance::new("ws://127.0.0.1:3011/socket".to_string());
    assert_eq!(m.url(), "ws://127.0.0.1:3011/socket");
    assert_eq!(m.reconnect_delayed(ConnectOutcome::HandshakeFailed), Some(500));
    assert_eq!(m.reconnect_delayed(ConnectOutcome::TcpFailed), Some(2000));
    assert_eq!(m.reconnect_delayed(ConnectOutcome::Connected), None);
    assert!(m.is_connected());
    assert!(m.wait_for_authorized(Ok(None)).is_none());
    let a = m
        .wait_for_authorized(Ok(Some(ClientIncomingRequest::Authorized {
            steamid2: "STEAM_1:0:11101".to_string(),
            auth_token: "t".to_string(),
            user: user(),
        })))
        .unwrap()
        .ok()
        .unwrap();
    assert_eq!(a.user.persona_name, "gabe");
    let r = m.wait_for_authorized(Ok(Some(ClientIncomingRequest::ClientJoined))).unwrap();
    assert_eq!(r.err().unwrap(), "manager sent unexpected data");
}

#[test]
fn manager_state_starts_disconnected() {
    let s = ManagerState::new();
    assert!(matches!(s.connection_status, ManagerConnStatus::Disconnected { reason: None }));
    assert!(s.server.is_none());
}

#[test]
fn template_fetch() {
    assert_eq!(template_path("overlay", "list_players"), "/templates/overlay/list_players");
    assert_eq!(fetch_template_step(404), FetchStep::NotFound);
    assert_eq!(fetch_template_step(500), FetchStep::Failed);
    assert_eq!(fetch_template_step(403), FetchStep::Failed);
    assert_eq!(fetch_template_step(200), FetchStep::ReadBody);
}

#[test]
fn hotkey_toggles_interaction() {
    let mut v = ViewState::Hidden;
    assert!(overlay_key(&mut v));
    assert_eq!(v, ViewState::Interactable);
    assert!(!overlay_key(&mut v));
    assert_eq!(v, ViewState::Visible);
    assert!(overlay_key(&mut v));
    assert_eq!(v, ViewState::Interactable);
}

#[test]
fn process_check_follows_the_game() {
    let target = "left4dead2".to_string();
    assert!(game_is_active(&target, Some(42), 42, &"other".to_string()));
    assert!(game_is_active(&target, None, 1, &"left4dead2".to_string()));
    assert!(!game_is_active(&target, Some(42), 43, &"other".to_string()));
    let mut v = ViewState::Hidden;
    assert_eq!(apply_activity(&mut v, true), WindowChange::Show);
    assert_eq!(v, ViewState::Visible);
    assert_eq!(apply_activity(&mut v, true), WindowChange::Unchanged);
    assert_eq!(apply_activity(&mut v, false), WindowChange::Hide);
    assert_eq!(v, ViewState::Hidden);
    assert_eq!(process_check_step(&mut v, 7, Some((42, "x".to_string())), &target, Some(42)), (WindowChange::Show, Some(42)));
    assert_eq!(process_check_step(&mut v, 7, Some((42, "x".to_string())), &target, Some(42)), (WindowChange::Unchanged, Some(42)));
    assert_eq!(process_check_step(&mut v, 7, Some((7, "overlay".to_string())), &target, Some(42)), (WindowChange::Unchanged, None));
    assert_eq!(process_check_step(&mut v, 7, None, &target, Some(42)), (WindowChange::Unchanged, None));
    assert_eq!(process_check_step(&mut v, 7, Some((1, "left4dead2".to_string())), &target, None), (WindowChange::Unchanged, None));
    assert_eq!(process_check_step(&mut v, 7, Some((1, "browser".to_string())), &target, Some(42)), (WindowChange::Hide, None));
    assert_eq!(v, ViewState::Hidden);
    assert_eq!(process_check_step(&mut v, 7, Some((1, "left4dead2".to_string())), &target, None), (WindowChange::Show, None));
    assert_eq!(v, ViewState::Visible);
}

#[test]
fn interactive_overlay_is_left_alone() {
    let target = "left4dead2".to_string();
    let mut v = ViewState::Interactable;
    assert_eq!(apply_activity(&mut v, false), WindowChange::Unchanged);
    assert_eq!(process_check_step(&mut v, 7, Some((1, "browser".to_string())), &target, None), (WindowChange::Unchanged, None));
    assert_eq!(process_check_step(&mut v, 7, Some((42, "x".to_string())), &target, Some(42)), (WindowChange::Unchanged, Some(42)));
    assert_eq!(v, ViewState::Interactable);
}

#[test]
fn target_process_defaults() {
    assert_eq!(default_target_process(true), "left4dead2.exe");
    assert_eq!(default_target_process(false), "left4dead2");
    assert_eq!(target_process(Some("hl2".to_string()), false), "hl2");
    assert_eq!(target_process(None, true), "left4dead2.exe");
    assert_eq!(check_for_process(true, None), Some(0));
    assert_eq!(check_for_process(false, Some(9)), Some(9));
    assert_eq!(check_for_process(false, None), None);
}

#[test]
fn supervisor_keeps_one_ui_child() {
    assert_eq!(supervise(true, ChildState::Absent), SupervisorAction::Spawn);
    assert_eq!(supervise(true, ChildState::Ended), SupervisorAction::Forget);
    assert_eq!(supervise(true, ChildState::Running), SupervisorAction::Nothing);
    assert_eq!(supervise(false, ChildState::Running), SupervisorAction::Terminate);
    assert_eq!(supervise(false, ChildState::Ended), SupervisorAction::Terminate);
    assert_eq!(supervise(false, ChildState::Absent), SupervisorAction::Nothing);
}

#[test]
fn passthrough_rules() {
    assert!(!passthrough(UIState::DetailActive, false, false));
    assert!(passthrough(UIState::Active, false, false));
    assert!(!passthrough(UIState::Active, true, false));
    assert!(!passthrough(UIState::Inactive, false, true));
}

#[test]
fn startup_message_ends_after_eight_seconds() {
    let mut m = StartupMessage::new();
    assert!(m.is_showing());
    assert!(m.run_ui());
    m.after_shown(8);
    assert!(m.is_showing());
    m.after_shown(9);
    assert!(!m.is_showing());
    assert!(!m.run_ui());
    assert!(!m.is_showing());
    m.after_shown(0);
    assert!(!m.is_showing());
    let _ = AppConfig::new();
}

#[test]
fn cache_returns_the_replaced_item() {
    let mut c: Cache<u32> = Cache::new();
    assert_eq!(c.insert("a".to_string(), 1), None);
    assert_eq!(c.insert("b".to_string(), 2), None);
    assert_eq!(c.insert("a".to_string(), 3), Some(1));
    assert_eq!(c.get(&"a".to_string()), Some(&3));
    assert_eq!(c.get(&"b".to_string()), Some(&2));
    assert_eq!(c.get(&"c".to_string()), None);
}

#[test]
fn player_list_groups_by_visible_team() {
    let server = ServerInfo {
        name: "My Server".to_string(),
        ip_addr: PeerAddr::new(IpAddress::V4(1), 1, "0.0.0.1:1".to_string(), "0.0.0.1".to_string()),
        players: vec![
            player("Jackzie", "STEAM_1:0:49243767", 2),
            player("Hunter", "BOT", 3),
            player("Rochelle", "BOT", 2),
            player("Lost", "BOT", 0),
        ],
        my_player: player("Jackzie", "STEAM_1:0:49243767", 2),
        teams: vec![
            TeamConfig { name: "Unassigned".to_string(), show: TeamShow::Hidden },
            TeamConfig { name: "Spectators".to_string(), show: TeamShow::Collapsed },
            TeamConfig { name: "Survivors".to_string(), show: TeamShow::Open },
            TeamConfig { name: "Infected".to_string(), show: TeamShow::Collapsed },
            TeamConfig { name: "Holdout Bots".to_string(), show: TeamShow::Hidden },
        ],
    };
    let sections = list_players_layout(&server);
    let summary: Vec<(usize, &str, bool, Vec<usize>)> =
        sections.iter().map(|s| (s.team, s.title.as_str(), s.default_open, s.players.clone())).collect();
    assert_eq!(
        summary,
        vec![
            (1, "Spectators (-1)", false, vec![]),
            (2, "Survivors (-1)", true, vec![0, 2]),
            (3, "Infected (-1)", false, vec![1]),
        ]
    );
    assert_eq!(team_members(&server.players, 258), vec![0, 2]);
}

#[test]
fn player_details() {
    assert!(is_steam_account(&"STEAM_1:0:49243767".to_string()));
    assert!(!is_steam_account(&"BOT".to_string()));
    assert!(!is_steam_account(&"STEA".to_string()));
    assert_eq!(profile_steamid(&player("a", "STEAM_1:0:11101", 2)), Some(76561197960287930));
    assert_eq!(profile_steamid(&player("a", "BOT", 2)), None);
    let mut p = player("a", "BOT", 2);
    assert_eq!(admin_perms_text(&p), "-");
    p.admin_perms = Some("xz".to_string());
    assert_eq!(admin_perms_text(&p), "xz");
}

#[test]
fn retry_delay_increases_with_each_failure() {
    for a in 0u16..64 {
        assert!(retry_delay_ms(a) < retry_delay_ms(a + 1), "{a}");
    }
}

#[test]
fn actions_need_a_login_and_a_socket() {
    let mut c = WebsocketClient::new();
    let act = |c: &WebsocketClient| c.send_action("i".to_string(), "ns".to_string(), "cmd".to_string(), None);
    assert_eq!(act(&c).err().unwrap(), "Authentication time out");
    c.reconnect_delayed(ConnectOutcome::Connected);
    let authorized = ClientEvent::Authorized { steamid2: "STEAM_1:0:1".to_string(), auth_token: "t".to_string(), user: user() };
    assert!(c.wait_for_authorized(Ok(authorized)).is_ok());
    match act(&c).unwrap() {
        ClientRequest::Action { command, input, .. } => {
            assert_eq!(command, "cmd");
            assert_eq!(input, "");
        },
    }
    assert!(matches!(c.after_read(ReadOutcome::Lost), ReadAction::Reconnect));
    assert!(!c.is_connected() && !c.is_authorized());
    assert_eq!(act(&c).err().unwrap(), "Authentication time out");
}

#[test]
fn read_loop_forwards_messages() {
    let mut c = WebsocketClient::new();
    c.reconnect_delayed(ConnectOutcome::Connected);
    assert!(matches!(c.after_read(ReadOutcome::Message(ClientEvent::LeftServer)), ReadAction::Forward(ClientEvent::LeftServer)));
    assert!(matches!(c.after_read(ReadOutcome::Failed), ReadAction::Ignore));
    assert!(c.is_connected());
}
