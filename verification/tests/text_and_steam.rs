use game_overlay::steam::{
    last_player, openid_check_verdict, prepare_openid_check, steamid_from_identity, OpenIDPayload, SteamError,
};
use game_overlay::address::{IpAddress, PeerAddr};
use game_overlay::game::{PlayerInfo, PlayerTeam};
use game_overlay::manager::{ClientInstance, ManagerInstance};
use game_overlay::player_list::profile_steamid;
use game_overlay::messages::SteamUser;
use game_overlay::text::{chars_of, contains_text, parse_u64, text_after_last_slash};
use game_overlay::ids::next_id;

fn addr() -> PeerAddr {
    PeerAddr::new(IpAddress::V4(0x0a00_0001), 5000, "10.0.0.1:5000".to_string(), "10.0.0.1".to_string())
}

fn player_with(steamid: &str) -> PlayerInfo {
    PlayerInfo {
        steamid: steamid.to_string(),
        user_id: 7,
        name: "p".to_string(),
        team: PlayerTeam(2),
        is_idle: false,
        admin_perms: None,
    }
}

const GABE: u64 = 76561197960287930;

fn user(name: &str) -> SteamUser {
    SteamUser {
        avatar: String::new(),
        avatar_full: String::new(),
        avatar_hash: String::new(),
        avatar_medium: String::new(),
        community_visibility_state: 3,
        last_log_off: 0,
        loc_country_code: String::new(),
        loc_state_code: String::new(),
        persona_name: name.to_string(),
        persona_state: 1,
        persona_state_flags: 0,
        primary_clan_id: String::new(),
        profile_state: 1,
        profile_url: String::new(),
        steamid: GABE.to_string(),
        time_created: 0,
    }
}

fn payload(error: Option<String>) -> OpenIDPayload {
    OpenIDPayload {
        mode: "id_res".to_string(),
        claimed_id: "https://steamcommunity.com/openid/id/76561197960287930".to_string(),
        identity: "https://steamcommunity.com/openid/id/76561197960287930".to_string(),
        return_to: "http://localhost/auth/callback".to_string(),
        response_nonce: "nonce".to_string(),
        assoc_handle: "1234567890".to_string(),
        signed: "signed,op_endpoint".to_string(),
        sig: "sig".to_string(),
        ns: "http://specs.openid.net/auth/2.0".to_string(),
        op_endpoint: "https://steamcommunity.com/openid/login".to_string(),
        error,
    }
}

#[test]
fn parse_u64_reads_decimal_numbers() {
    assert_eq!(parse_u64(&chars_of("123")), Some(123));
    assert_eq!(parse_u64(&chars_of("+5")), Some(5));
    assert_eq!(parse_u64(&chars_of("0")), Some(0));
    assert_eq!(parse_u64(&chars_of("18446744073709551615")), Some(u64::MAX));
}

#[test]
fn parse_u64_refuses_what_from_str_refuses() {
    assert_eq!(parse_u64(&chars_of("")), None);
    assert_eq!(parse_u64(&chars_of("+")), None);
    assert_eq!(parse_u64(&chars_of("-1")), None);
    assert_eq!(parse_u64(&chars_of("12a")), None);
    assert_eq!(parse_u64(&chars_of("18446744073709551616")), None);
    for text in ["7", "42", "+9", "x", "", "99999999999999999999"] {
        assert_eq!(parse_u64(&chars_of(text)), text.parse::<u64>().ok());
    }
}

#[test]
fn after_last_slash_takes_the_tail() {
    let tail = text_after_last_slash("https://steamcommunity.com/openid/id/76561197960287930").unwrap();
    assert_eq!(tail.iter().collect::<String>(), "76561197960287930");
    assert_eq!(text_after_last_slash("a/b/").unwrap().len(), 0);
    assert!(text_after_last_slash("no slash").is_none());
}

#[test]
fn contains_text_finds_pieces() {
    assert!(contains_text("ns:http://x\nis_valid:true\n", "valid:true"));
    assert!(!contains_text("is_valid:false\n", "valid:true"));
    assert!(contains_text("abc", ""));
}

#[test]
fn identity_gives_the_steamid() {
    assert_eq!(steamid_from_identity("https://steamcommunity.com/openid/id/76561197960287930"), Some(GABE));
    assert_eq!(steamid_from_identity("https://steamcommunity.com/openid/id/abc"), None);
    assert_eq!(steamid_from_identity("76561197960287930"), None);
}

#[test]
fn steam2_round_trip() {
    assert_eq!(profile_steamid(&player_with("STEAM_1:0:11101")), Some(GABE));
    assert_eq!(profile_steamid(&player_with("STEAM_0:0:11101")), Some(GABE));
    assert_eq!(profile_steamid(&player_with("BOT")), None);
    assert_eq!(profile_steamid(&player_with("STEAM_#:#:######1")), None);
    let mut m = ManagerInstance::new();
    let id = m.start_client(addr());
    let claims = m.begin_authorization(&id, GABE, &Ok(user("gabe")), 100).unwrap();
    assert_eq!(claims.subject, "STEAM_1:0:11101");
    assert_eq!(m.get_client(&id).unwrap().steamid2(), Some("STEAM_1:0:11101".to_string()));
}

#[test]
fn steam64_accepts_known_account_kinds() {
    assert_eq!(steamid_from_identity("https://steamcommunity.com/openid/id/76561197960287930"), Some(GABE));
    assert_eq!(steamid_from_identity("https://steamcommunity.com/openid/id/18446744073709551615"), None);
}

#[test]
fn openid_error_ends_the_check() {
    let mut q = payload(Some("cancelled".to_string()));
    let r = prepare_openid_check(&mut q);
    assert!(matches!(r, Err(SteamError::OpenIdError(ref m)) if m == "cancelled"));
    assert_eq!(q.mode, "id_res");
    assert_eq!(SteamError::OpenIdError("cancelled".to_string()).describe(), "openid error: cancelled");
}

#[test]
fn openid_check_switches_mode() {
    let mut q = payload(None);
    assert!(prepare_openid_check(&mut q).is_ok());
    assert_eq!(q.mode, "check_authentication");
    assert_eq!(q.identity, "https://steamcommunity.com/openid/id/76561197960287930");
}

#[test]
fn openid_verdict_reads_valid_true() {
    assert!(openid_check_verdict("ns:http://specs.openid.net/auth/2.0\nis_valid:true\n", false).is_ok());
    assert!(matches!(
        openid_check_verdict("ns:http://specs.openid.net/auth/2.0\nis_valid:false\n", false),
        Err(SteamError::OpenIdValidationFailed)
    ));
    assert!(openid_check_verdict("is_valid:false", true).is_ok());
    assert_eq!(SteamError::OpenIdValidationFailed.describe(), "steam openid validation failed");
    assert_eq!(SteamError::APIError("down".to_string()).describe(), "API Error: down");
}

#[test]
fn summaries_take_the_last_player() {
    assert!(last_player(vec![]).is_none());
    let u = last_player(vec![user("first"), user("second")]).unwrap();
    assert_eq!(u.persona_name, "second");
}

#[test]
fn uuid_text_and_parse_agree() {
    let c = ClientInstance::with_id(addr(), "01234567-89AB-cdef-0123-456789abcdef".to_string());
    assert_eq!(c.id(), "01234567-89ab-cdef-0123-456789abcdef");
    let id = next_id();
    assert_eq!(id.len(), 36);
    assert_eq!(ClientInstance::with_id(addr(), id.clone()).id(), id);
    assert_ne!(next_id(), id);
}
