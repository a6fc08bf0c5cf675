//! Steam identities and Steam's OpenID login: SteamIDs are held as their
//! 64-bit value; reading and rendering the `STEAM_X:Y:Z` form is done by
//! steamid-ng.

use vstd::prelude::*;
use crate::messages::SteamUser;
use crate::text::{after_last_slash, contains_piece, parse_u64_spec, parse_u64, text_after_last_slash, contains_text};

verus! {

/// Whether a 64-bit value is a SteamID that steamid-ng accepts: its account
/// type (bits 52..56) is at most 10 and its universe (bits 56..64) at most 5.
pub open spec fn steamid_valid(id: u64) -> bool {
    ((id >> 52u64) & 0xFu64) <= 10 && ((id >> 56u64) & 0xFFu64) <= 5
}

/// Whether a SteamID has the shape of those read from the `STEAM_X:Y:Z`
/// form: an individual account (type 1, bits 52..56) on the desktop
/// instance (1, bits 32..52) of a universe from 1 to 5 (bits 56..64).
pub open spec fn steam2_form(id: u64) -> bool {
    &&& (id >> 32u64) & 0xFFFFFu64 == 1
    &&& (id >> 52u64) & 0xFu64 == 1
    &&& 1 <= (id >> 56u64) & 0xFFu64 <= 5
}

/// What `SteamID::from_steam2` reads from a text, as a 64-bit value.
pub uninterp spec fn spec_steam2_parse(text: Seq<char>) -> Option<u64>;

/// The decimal digits of `n`, as `Display` writes an unsigned number.
pub open spec fn decimal_text(n: nat) -> Seq<char>
    decreases n,
{
    if n < 10 {
        seq![((n + 48) as u8) as char]
    } else {
        decimal_text(n / 10).push((((n % 10) + 48) as u8) as char)
    }
}

/// What `SteamID::steam2` renders a SteamID as: for an individual (or
/// invalid) account, `STEAM_` and the universe, the low bit of the account
/// number and the rest of it, joined by `:`; for any other account type the
/// 64-bit value in decimal.
pub open spec fn spec_steam2_text(id: u64) -> Seq<char> {
    let account_type = (id >> 52u64) & 0xFu64;
    let account = id & 0xFFFF_FFFFu64;
    if account_type == 0 || account_type == 1 {
        "STEAM_"@ + decimal_text(((id >> 56u64) & 0xFFu64) as nat) + ":"@ + decimal_text((account % 2) as nat)
            + ":"@ + decimal_text((account / 2) as nat)
    } else {
        decimal_text(id as nat)
    }
}

/// Calls `SteamID::from_steam2` of steamid-ng and turns the SteamID into its
/// 64-bit value. The contract claims that the result is a function of the
/// text, that the text then starts with `STEAM_`, and that the value is one
/// that steamid-ng accepts, of the shape the parser builds: an individual
/// account on the desktop instance of a universe from 1 to 5 (a universe
/// digit 0 is read as 1, digits above 5 are refused).
#[verifier::external_body]
pub(crate) fn steamid_from_steam2(text: &str) -> (r: Option<u64>)
    ensures
        r == spec_steam2_parse(text@),
        r matches Some(id) ==> steamid_valid(id) && steam2_form(id),
        r is Some ==> text@.len() >= 6 && text@.subrange(0, 6) == "STEAM_"@,
{
    match steamid_ng::SteamID::from_steam2(text) {
        Ok(id) => Some(u64::from(id)),
        Err(_) => None,
    }
}

/// Calls `SteamID::from_steam64` and then `SteamID::steam2`. The contract
/// claims that the text is the one `spec_steam2_text` describes, and that
/// for a SteamID
/// of the `STEAM_X:Y:Z` shape `SteamID::from_steam2` reads the same value
/// back from it (`steam2` writes the universe, the low bit of the account
/// number and the rest of it, which is what the parser reads).
#[verifier::external_body]
pub(crate) fn steamid_steam2(id: u64) -> (r: String)
    requires
        steamid_valid(id),
    ensures
        r@ == spec_steam2_text(id),
        steam2_form(id) ==> spec_steam2_parse(r@) == Some(id),
{
    steamid_ng::SteamID::from_steam64(id).unwrap().steam2()
}

/// Calls `SteamID::from_steam64`, which accepts exactly the values whose
/// account type and universe are known.
#[verifier::external_body]
pub(crate) fn steamid_from_steam64(value: u64) -> (r: Option<u64>)
    ensures
        r == (if steamid_valid(value) {
            Some(value)
        } else {
            None
        }),
{
    match steamid_ng::SteamID::from_steam64(value) {
        Ok(id) => Some(u64::from(id)),
        Err(_) => None,
    }
}

/// The SteamID that an OpenID identity URL names: the decimal number after
/// its last `/`.
pub open spec fn identity_steamid_spec(identity: Seq<char>) -> Option<u64> {
    match after_last_slash(identity) {
        Some(t) => match parse_u64_spec(t) {
            Some(v) => if steamid_valid(v) {
                Some(v)
            } else {
                None
            },
            None => None,
        },
        None => None,
    }
}

/// Reads the SteamID out of the identity URL that Steam's OpenID login returns
/// (`https://steamcommunity.com/openid/id/<steamid64>`).
pub fn steamid_from_identity(identity: &str) -> (r: Option<u64>)
    ensures
        r == identity_steamid_spec(identity@),
{
    match text_after_last_slash(identity) {
        Some(tail) => match parse_u64(&tail) {
            Some(v) => steamid_from_steam64(v),
            None => None,
        },
        None => None,
    }
}

/// The query of Steam's OpenID callback.
#[derive(Debug)]
pub struct OpenIDPayload {
    pub mode: String,
    pub claimed_id: String,
    pub identity: String,
    pub return_to: String,
    pub response_nonce: String,
    pub assoc_handle: String,
    pub signed: String,
    pub sig: String,
    pub ns: String,
    pub op_endpoint: String,
    pub error: Option<String>,
}

#[derive(Clone, Debug)]
pub enum SteamError {
    OpenIdError(String),
    OpenIdValidationFailed,
    APIError(String),
}

pub open spec fn steam_error_text(e: SteamError) -> Seq<char> {
    match e {
        SteamError::OpenIdError(msg) => "openid error: "@ + msg@,
        SteamError::OpenIdValidationFailed => "steam openid validation failed"@,
        SteamError::APIError(msg) => "API Error: "@ + msg@,
    }
}

impl SteamError {
    /// The text the error is displayed as.
    pub fn describe(&self) -> (r: String)
        ensures
            r@ == steam_error_text(*self),
    {
        match self {
            SteamError::OpenIdError(msg) => String::from_str("openid error: ").concat(msg.as_str()),
            SteamError::OpenIdValidationFailed => String::from_str("steam openid validation failed"),
            SteamError::APIError(msg) => String::from_str("API Error: ").concat(msg.as_str()),
        }
    }
}

/// The envelope of a Steam Web API answer.
#[derive(Debug)]
pub struct SteamResponse<T> {
    pub response: T,
}

#[derive(Debug)]
pub struct PlayerSummariesResponse {
    pub players: Vec<SteamUser>,
}

/// First step of verifying an OpenID login: an error reported by Steam ends
/// it; otherwise the query is turned into a `check_authentication` request,
/// which the application sends to Steam.
pub fn prepare_openid_check(query: &mut OpenIDPayload) -> (r: Result<(), SteamError>)
    ensures
        match old(query).error {
            Some(e) => r == Err::<(), SteamError>(SteamError::OpenIdError(e)) && *final(query)
                == *old(query),
            None => r is Ok && final(query).mode@ == "check_authentication"@
                && final(query).claimed_id == old(query).claimed_id
                && final(query).identity == old(query).identity
                && final(query).return_to == old(query).return_to
                && final(query).response_nonce == old(query).response_nonce
                && final(query).assoc_handle == old(query).assoc_handle
                && final(query).signed == old(query).signed
                && final(query).sig == old(query).sig
                && final(query).ns == old(query).ns
                && final(query).op_endpoint == old(query).op_endpoint
                && final(query).error == old(query).error,
        },
{
    match &query.error {
        Some(e) => {
            return Err(SteamError::OpenIdError(e.clone()));
        },
        None => {},
    }
    query.mode = String::from_str("check_authentication");
    Ok(())
}

/// Last step of verifying an OpenID login: Steam's answer must say
/// `valid:true`, unless validation is switched off.
pub fn openid_check_verdict(answer: &str, skip_validation: bool) -> (r: Result<(), SteamError>)
    ensures
        r is Ok <==> (contains_piece(answer@, "valid:true"@) || skip_validation),
        r is Err ==> r == Err::<(), SteamError>(SteamError::OpenIdValidationFailed),
{
    if !contains_text(answer, "valid:true") && !skip_validation {
        return Err(SteamError::OpenIdValidationFailed);
    }
    Ok(())
}

/// The player that a summaries answer describes: the last one listed.
pub fn last_player(players: Vec<SteamUser>) -> (r: Option<SteamUser>)
    ensures
        match r {
            Some(u) => players@.len() > 0 && u == players@.last(),
            None => players@.len() == 0,
        },
{
    let mut players = players;
    players.pop()
}

} // verus!
