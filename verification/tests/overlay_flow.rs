use game_overlay::address::{IpAddress, PeerAddr};
use game_overlay::game::{PlayerInfo, PlayerTeam, TeamConfig, TeamShow};
use game_overlay::overlay::{
    ApproveEntry, Element, MessageType, OverlayData, OverlayStorage, Registry, ServerInfo, UIState,
};
use game_overlay::templates::{
    CoreTemplate, TemplateGenericImage, TemplateGenericText, TemplateId, TemplateKind, TemplateListPlayers,
};
use serde_json::Value;
use game_overlay::player_list::player_actions;

fn addr() -> PeerAddr {
    PeerAddr::new(IpAddress::V4(0x7f00_0001), 27015, "127.0.0.1:27015".to_string(), "127.0.0.1".to_string())
}

fn player(name: &str, steamid: &str, team: u8, idle: bool) -> PlayerInfo {
    PlayerInfo {
        steamid: steamid.to_string(),
        user_id: 0,
        name: name.to_string(),
        team: PlayerTeam(team),
        is_idle: idle,
        admin_perms: None,
    }
}

fn server() -> ServerInfo {
    ServerInfo {
        name: "My Server".to_string(),
        ip_addr: addr(),
        players: vec![player("Jackzie", "STEAM_1:0:49243767", 2, false)],
        my_player: player("Jackzie", "STEAM_1:0:49243767", 2, false),
        teams: vec![
            TeamConfig { name: "Unassigned".to_string(), show: TeamShow::Hidden },
            TeamConfig { name: "Spectators".to_string(), show: TeamShow::Collapsed },
            TeamConfig { name: "Survivors".to_string(), show: TeamShow::Open },
        ],
    }
}

fn registry() -> Registry {
    let mut r = Registry::new();
    r.register("overlay:list_players", TemplateKind::ListPlayers);
    r.register("overlay:generic_text", TemplateKind::GenericText);
    r.register("overlay:generic_image", TemplateKind::GenericImage);
    r
}

fn json(text: &str) -> Value {
    serde_json::from_str(text).unwrap()
}

fn overlay() -> OverlayData {
    OverlayData::new(Some(server()), registry(), OverlayStorage::new(), 4242)
}

#[test]
fn template_ids_render_as_text() {
    assert_eq!(TemplateId::custom("myplugin", "scoreboard").to_text(), "myplugin:scoreboard");
    assert_eq!(TemplateId::from_core(CoreTemplate::ListPlayers).to_text(), "core:list_players");
    assert_eq!(CoreTemplate::default_template(), CoreTemplate::Invalid);
    for t in [CoreTemplate::Invalid, CoreTemplate::ListPlayers, CoreTemplate::GenericText, CoreTemplate::GenericImage, CoreTemplate::MOTD] {
        assert_eq!(CoreTemplate::from_text(&t.to_text()), Some(t));
    }
    assert_eq!(CoreTemplate::from_text("nope"), None);
}

#[test]
fn template_ids_and_state_checks() {
    assert_eq!(TemplateListPlayers.id(), "overlay:list_players");
    assert_eq!(TemplateGenericText.id(), "overlay:generic_text");
    assert_eq!(TemplateGenericImage.id(), "overlay:generic_image");
    assert!(TemplateListPlayers.is_state_valid(&json("{\"actions\": {}}")).is_ok());
    assert_eq!(TemplateListPlayers.is_state_valid(&json("{}")).unwrap_err(), "'actions' field is missing");
    assert_eq!(TemplateListPlayers.is_state_valid(&json("{\"actions\": null}")).unwrap_err(), "'actions' field is missing");
    assert_eq!(TemplateGenericText.is_state_valid(&json("[1]")).unwrap_err(), "'content' field is missing");
    assert!(TemplateGenericText.is_state_valid(&json("{\"content\": \"hi\"}")).is_ok());
    assert_eq!(TemplateGenericImage.is_state_valid(&json("{}")).unwrap_err(), "'url' field is missing");
    assert!(TemplateKind::Invalid.is_state_valid(&json("{}")).is_ok());
}

#[test]
fn registry_lookups() {
    let r = registry();
    assert!(r.has("overlay:invalid"));
    assert!(r.has("overlay:list_players"));
    assert!(!r.has("overlay:nope"));
    assert_eq!(r.get_2("overlay:generic_text"), Some(TemplateKind::GenericText));
    assert_eq!(r.get(&TemplateId::custom("overlay", "generic_image")), Some(TemplateKind::GenericImage));
    assert_eq!(r.get(&TemplateId::from_core(CoreTemplate::MOTD)), None);
    let e = r.named("overlay:generic_text", "e1".to_string(), json("{\"content\": \"x\"}")).unwrap();
    assert_eq!(e.id, "e1");
    assert_eq!(e.template, TemplateKind::GenericText);
    assert!(r.named("overlay:nope", "e2".to_string(), json("{}")).is_none());
    let t = r.temp("overlay:list_players", json("{}")).unwrap();
    assert_eq!(t.id.len(), 36);
    assert!(r.temp("overlay:nope", json("{}")).is_none());
}

#[test]
fn unknown_templates_fall_back_to_invalid() {
    let r = registry();
    let e = r.try_temp("template:blah", json("{}"));
    assert_eq!(e.template, TemplateKind::Invalid);
    assert_eq!(e.state, json("{\"template\": \"template:blah\"}"));
    let e = r.try_temp("overlay:generic_text", json("{\"content\": 1}"));
    assert_eq!(e.template, TemplateKind::GenericText);
    assert_eq!(r.invalid("x").state, json("{\"template\": \"x\"}"));
    let e = Element::with_id("id".to_string(), TemplateKind::Invalid, json("{}"));
    assert_eq!(e.id, "id");
}

#[test]
fn first_request_waits_for_approval() {
    let mut o = overlay();
    let state = json("{\"actions\": {}}");
    assert_eq!(o.request_elem("overlay:list_players", "list_players_test", state.clone()), Ok(false));
    let entry = o.store().approval(&addr(), "list_players_test").unwrap();
    assert!(!entry.enabled);
    assert_eq!(entry.template_id, "overlay:list_players");
    assert_eq!(entry.state, Some(state));
    assert!(o.element("list_players_test").is_none());
}

#[test]
fn approved_elements_show_on_request() {
    let mut o = overlay();
    let state = json("{\"actions\": {\"STEAM_1:0:49243767\": []}}");
    assert_eq!(o.request_elem("overlay:list_players", "plist", state.clone()), Ok(false));
    assert!(o.set_element_enabled("plist", true));
    let shown = o.element("plist").unwrap();
    assert_eq!(shown.template, TemplateKind::ListPlayers);
    assert_eq!(shown.state, state);
    assert_eq!(o.request_elem("overlay:list_players", "plist", json("{\"actions\": 2}")), Ok(true));
    assert_eq!(o.element("plist").unwrap().state, json("{}"));
    assert!(!o.set_element_enabled("plist", true));
    assert!(o.set_element_enabled("plist", false));
    assert_eq!(o.request_elem("overlay:list_players", "plist", json("{}")), Ok(false));
}

#[test]
fn request_errors() {
    let mut o = overlay();
    assert_eq!(o.request_elem("overlay:nope", "x", json("{}")), Err("Template not registered".to_string()));
    let mut off = OverlayData::new(None, registry(), OverlayStorage::new(), 0);
    assert_eq!(off.request_elem("overlay:generic_text", "x", json("{}")), Err("Not connected to any server".to_string()));
    assert_eq!(o.request_elem("overlay:generic_text", "x", json("{}")), Ok(false));
    assert_eq!(
        o.request_elem("overlay:generic_image", "x", json("{}")),
        Err("Requested template (overlay:generic_image) does not match registered template (overlay:generic_text)".to_string())
    );
}

#[test]
fn spawn_without_state_uses_empty_object() {
    let mut o = overlay();
    o.spawn_elem("overlay:generic_text", "e".to_string(), None);
    assert_eq!(o.element("e").unwrap().state, json("{}"));
    o.spawn_elem("overlay:generic_text", "e".to_string(), Some(json("{\"content\": \"a\"}")));
    assert_eq!(o.element("e").unwrap().state, json("{\"content\": \"a\"}"));
}

#[test]
fn toggle_switches_detail_view() {
    let mut o = overlay();
    assert_eq!(o.ui_state(), UIState::Inactive);
    o.toggle_ui_state();
    assert_eq!(o.ui_state(), UIState::DetailActive);
    o.toggle_ui_state();
    assert_eq!(o.ui_state(), UIState::Active);
    o.toggle_ui_state();
    assert_eq!(o.ui_state(), UIState::DetailActive);
}

#[test]
fn storage_keeps_approvals_per_server() {
    let mut s = OverlayStorage::new();
    assert!(s.servers().is_empty());
    s.approved_elems(&addr());
    assert_eq!(s.servers().len(), 1);
    assert!(s.element_ids(&addr()).is_empty());
    s.set_approval(&addr(), "a".to_string(), ApproveEntry { enabled: true, template_id: "t".to_string(), state: None });
    assert_eq!(s.element_ids(&addr()), vec!["a".to_string()]);
    assert!(s.approval(&addr(), "a").unwrap().enabled);
    assert!(s.approval(&addr(), "b").is_none());
}

#[test]
fn server_info_and_notifications() {
    let mut o = overlay();
    assert_eq!(o.server().unwrap().name, "My Server");
    assert_eq!(o.server_id().unwrap().text, "127.0.0.1:27015");
    let s = o.server().unwrap();
    assert_eq!(s.get_team_config_name(&PlayerTeam(2)), Some("Survivors"));
    assert!(s.get_team_config(&PlayerTeam(7)).is_none());
    o.notify(MessageType::Error, Some("Saving failed".to_string()), "disk full".to_string());
    assert!(o.registry().has("overlay:generic_text"));
}

#[test]
fn player_labels() {
    assert_eq!(player("Rochelle", "BOT", 2, false).label_name(), "Rochelle [BOT]");
    assert_eq!(player("Player 2", "STEAM_1:0:1", 2, true).label_name(), "Player 2 [IDLE]");
    assert_eq!(player("Bot idle", "BOT", 2, true).label_name(), "Bot idle [IDLE]");
    assert_eq!(player("Jackzie", "STEAM_1:0:49243767", 2, false).label_name(), "Jackzie");
}

#[test]
fn default_registry_knows_the_overlay_templates() {
    let r = game_overlay::overlay::default_registry();
    assert!(r.has("overlay:invalid"));
    assert_eq!(r.get_2("overlay:list_players"), Some(TemplateKind::ListPlayers));
    assert_eq!(r.get_2("overlay:generic_text"), Some(TemplateKind::GenericText));
    assert_eq!(r.get_2("overlay:generic_image"), Some(TemplateKind::GenericImage));
    assert_eq!(r.get_2("template:blah"), None);
}

#[test]
fn example_overlay_requests_the_player_list() {
    let state = json("{\"actions\": {\"STEAM_1:0:49243767\": [{\"label\": \"Kick Player\", \"command\": \"sm_kick #23\"}]}}");
    let o = OverlayData::example(OverlayStorage::new(), state.clone(), 77);
    assert_eq!(o.ui_state(), UIState::Inactive);
    assert_eq!(o.target_pid(), 77);
    let demo = o.server().unwrap();
    assert_eq!(demo.name, "My Server");
    assert_eq!(demo.ip_addr.text, "127.0.0.1:27015");
    let players: Vec<(&str, &str, u8, bool)> =
        demo.players.iter().map(|p| (p.name.as_str(), p.steamid.as_str(), p.team.0, p.is_idle)).collect();
    assert_eq!(
        players,
        vec![
            ("Jackzie", "STEAM_1:0:49243767", 2, false),
            ("Rochelle", "BOT", 2, false),
            ("Player 2", "STEAM_#:#:######1", 2, true),
            ("Hunter", "BOT", 3, false),
        ]
    );
    let teams: Vec<&str> = demo.teams.iter().map(|t| t.name.as_str()).collect();
    assert_eq!(teams, vec!["Unassigned", "Spectators", "Survivors", "Infected", "Holdout Bots"]);
    assert_eq!(demo.my_player.name, "Jackzie");
    assert!(o.element("list_players_test").is_none());
    let entry = o.store().approval(&addr(), "list_players_test").unwrap();
    assert!(!entry.enabled);
    assert_eq!(entry.state, Some(state.clone()));

    let mut store = OverlayStorage::new();
    store.set_approval(
        &addr(),
        "list_players_test".to_string(),
        ApproveEntry { enabled: true, template_id: "overlay:list_players".to_string(), state: None },
    );
    let o = OverlayData::example(store, state.clone(), 77);
    assert_eq!(o.element("list_players_test").unwrap().template, TemplateKind::ListPlayers);
    assert_eq!(o.element("list_players_test").unwrap().state, json("{}"));

    let mut store = OverlayStorage::new();
    store.set_approval(
        &addr(),
        "list_players_test".to_string(),
        ApproveEntry { enabled: true, template_id: "overlay:list_players".to_string(), state: Some(state.clone()) },
    );
    let o = OverlayData::example(store, json("{\"actions\": {}}"), 77);
    assert_eq!(o.element("list_players_test").unwrap().state, state);
    assert_eq!(o.store().approval(&addr(), "list_players_test").unwrap().state, None);
}

#[test]
fn generic_templates_show_their_member() {
    assert_eq!(TemplateGenericText.content(&json("{\"content\": \"Welcome!\"}")), "Welcome!");
    assert_eq!(TemplateGenericImage.url(&json("{\"url\": \"https://x/y.png\"}")), "https://x/y.png");
}

#[test]
fn generic_templates_try_their_member() {
    assert_eq!(TemplateGenericText.try_content(&json("{\"content\": \"Welcome!\"}")), Some("Welcome!".to_string()));
    assert_eq!(TemplateGenericText.try_content(&json("{\"content\": 1}")), None);
    assert_eq!(TemplateGenericText.try_content(&json("{}")), None);
    assert_eq!(TemplateGenericImage.try_url(&json("{\"url\": \"https://x/y.png\"}")), Some("https://x/y.png".to_string()));
    assert_eq!(TemplateGenericImage.try_url(&json("{\"url\": [\"a\"]}")), None);
}

#[test]
fn player_actions_come_from_the_state() {
    let state = json(
        "{\"actions\": {\"STEAM_1:0:49243767\": [{\"label\": \"Kick Player\", \"command\": \"sm_kick #23\"}, {\"label\": 5, \"command\": \"sm_slay #23\"}, {\"label\": \"Note\"}]}}",
    );
    let acts: Vec<(String, Option<String>)> =
        player_actions(&state, "STEAM_1:0:49243767").into_iter().map(|a| (a.label, a.command)).collect();
    assert_eq!(
        acts,
        vec![
            ("Kick Player".to_string(), Some("sm_kick #23".to_string())),
            ("?".to_string(), Some("sm_slay #23".to_string())),
            ("Note".to_string(), None),
        ]
    );
    assert!(player_actions(&state, "BOT").is_empty());
    assert!(player_actions(&json("{\"actions\": {\"BOT\": {}}}"), "BOT").is_empty());
    assert!(player_actions(&json("[]"), "BOT").is_empty());
}

#[test]
fn failed_saves_are_reported() {
    let mut o = overlay();
    o.approvals_saved(Ok(()));
    assert!(o.messages().is_empty());
    o.approvals_saved(Err("disk full".to_string()));
    let m = &o.messages()[0];
    assert_eq!(o.messages().len(), 1);
    assert_eq!(m.kind, MessageType::Error);
    assert_eq!(m.title.as_deref(), Some("Saving failed"));
    assert_eq!(m.content, "disk full");
    assert_eq!(o.target_pid(), 4242);
}
