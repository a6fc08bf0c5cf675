//! Login tokens: JSON web tokens signed with HMAC-SHA256 by the jwt crate.
//! The claims travel as a JSON object; this module writes and reads them,
//! member by member.

use vstd::prelude::*;
use hmac::Mac;
use jwt::{SignWithKey, VerifyWithKey};
use crate::json::{
    json_as_str, json_as_u64, json_empty_object, json_flat, json_insert, json_is_null, json_is_object,
    json_member, json_null,
    json_number, json_string, spec_json_is_null, spec_json_is_object, spec_json_member, spec_json_str,
    spec_json_u64,
};
use crate::manager::{ClientTokenClaims, ServerTokenClaims, opt_view, token_steamid};
use crate::steam::spec_steam2_parse;

verus! {

/// The claims that jwt reads from a token checked with `key`: the claims
/// object, or the text of the error (a malformed token, a signature that
/// does not match).
pub uninterp spec fn spec_jwt_claims(token: Seq<char>, key: Seq<u8>) -> Result<serde_json::Value, Seq<char>>;

/// Makes the HMAC-SHA256 key from `key` (`Hmac::new_from_slice`) and calls
/// `VerifyWithKey::verify_with_key` of jwt on the token, reading the claims
/// as a JSON value; errors become their text. The contract claims only that
/// the result is a function of the token and the key.
#[verifier::external_body]
pub(crate) fn jwt_claims(token: &str, key: &[u8]) -> (r: Result<serde_json::Value, String>)
    ensures
        match r {
            Ok(v) => spec_jwt_claims(token@, key@) == Ok::<serde_json::Value, Seq<char>>(v),
            Err(e) => spec_jwt_claims(token@, key@) == Err::<serde_json::Value, Seq<char>>(e@),
        },
{
    let k = match hmac::Hmac::<sha2::Sha256>::new_from_slice(key) {
        Ok(k) => k,
        Err(e) => return Err(e.to_string()),
    };
    VerifyWithKey::<serde_json::Value>::verify_with_key(token, &k).map_err(|e| e.to_string())
}

/// The token that jwt signs for these claims with `key`.
pub uninterp spec fn spec_jwt_sign(claims: serde_json::Value, key: Seq<u8>) -> Seq<char>;

/// Makes the HMAC-SHA256 key from `key` and calls `SignWithKey::sign_with_key`
/// of jwt on the claims. The contract claims that signing succeeds (an HMAC
/// key takes a key of any length, and a JSON value always writes out), that
/// the token is a function of the claims and the key, and, for a flat
/// object, that checking the token with the same key reads back claims whose
/// members read as the same texts, the same unsigned numbers and the same
/// nulls, in an object again (jwt writes the claims as JSON and parses that
/// JSON back; strings, whole numbers and nulls one level deep come back as
/// they were). Of other claims, which jwt may fail to read back (it parses
/// no deeper than 128 levels), nothing is said.
#[verifier::external_body]
pub(crate) fn jwt_sign(claims: &serde_json::Value, key: &[u8]) -> (r: Result<String, String>)
    ensures
        r is Ok,
        r matches Ok(t) ==> t@ == spec_jwt_sign(*claims, key@),
        r matches Ok(t) ==> (json_flat(*claims) ==> (spec_jwt_claims(t@, key@) matches Ok(back)
            && spec_json_is_object(back) && forall|k: Seq<char>|
            #![trigger spec_json_member(back, k)]
            spec_json_str(spec_json_member(back, k)) == spec_json_str(spec_json_member(*claims, k))
                && spec_json_u64(spec_json_member(back, k)) == spec_json_u64(spec_json_member(*claims, k))
                && spec_json_is_null(spec_json_member(back, k)) == spec_json_is_null(
                spec_json_member(*claims, k),
            ))),
{
    let k = match hmac::Hmac::<sha2::Sha256>::new_from_slice(key) {
        Ok(k) => k,
        Err(e) => return Err(e.to_string()),
    };
    SignWithKey::<String>::sign_with_key(claims, &k).map_err(|e| e.to_string())
}

/// An optional text member: absent or `null` reads as none, a string as its
/// text.
pub open spec fn opt_member(v: serde_json::Value, k: Seq<char>) -> Option<Seq<char>> {
    if spec_json_is_null(spec_json_member(v, k)) {
        None
    } else {
        spec_json_str(spec_json_member(v, k))
    }
}

/// An optional text member is readable when it is absent, `null` or a
/// string.
pub open spec fn opt_member_ok(v: serde_json::Value, k: Seq<char>) -> bool {
    spec_json_is_null(spec_json_member(v, k)) || spec_json_str(spec_json_member(v, k)) is Some
}

/// A required text member.
pub open spec fn text_member(v: serde_json::Value, k: Seq<char>) -> Option<Seq<char>> {
    spec_json_str(spec_json_member(v, k))
}

/// A required unsigned number member.
pub open spec fn number_member(v: serde_json::Value, k: Seq<char>) -> Option<u64> {
    spec_json_u64(spec_json_member(v, k))
}

/// `v` holds the claims of a client's token: an object in which `sub`,
/// `iss` and `iat` are there, `jti` and `ip` are texts or absent.
pub open spec fn client_claims_readable(v: serde_json::Value) -> bool {
    &&& spec_json_is_object(v)
    &&& text_member(v, "sub"@) is Some
    &&& text_member(v, "iss"@) is Some
    &&& number_member(v, "iat"@) is Some
    &&& opt_member_ok(v, "jti"@)
    &&& opt_member_ok(v, "ip"@)
}

/// `v` writes out exactly these claims of a client's token.
pub open spec fn client_claims_json(v: serde_json::Value, c: ClientTokenClaims) -> bool {
    &&& client_claims_readable(v)
    &&& text_member(v, "sub"@) == Some(c.subject@)
    &&& text_member(v, "iss"@) == Some(c.issuer@)
    &&& number_member(v, "iat"@) == Some(c.issued_at)
    &&& opt_member(v, "jti"@) == opt_view(c.jwt_id)
    &&& opt_member(v, "ip"@) == opt_view(c.ip_addr)
}

/// The members of the claims of a client's token.
pub open spec fn client_claim_key(k: Seq<char>) -> bool {
    k == "sub"@ || k == "iss"@ || k == "iat"@ || k == "jti"@ || k == "ip"@
}

/// `v` writes out exactly these claims of a client's token, and no other
/// member.
pub open spec fn client_claims_exact(v: serde_json::Value, c: ClientTokenClaims) -> bool {
    &&& client_claims_json(v, c)
    &&& forall|k: Seq<char>|
        !client_claim_key(k) ==> #[trigger] spec_json_is_null(spec_json_member(v, k))
}

/// `v` holds the claims of a server's token: an object in which
/// `namespace`, `sub`, `iss` and `iat` are there, `ip` is a text or absent.
pub open spec fn server_claims_readable(v: serde_json::Value) -> bool {
    &&& spec_json_is_object(v)
    &&& text_member(v, "namespace"@) is Some
    &&& text_member(v, "sub"@) is Some
    &&& text_member(v, "iss"@) is Some
    &&& number_member(v, "iat"@) is Some
    &&& opt_member_ok(v, "ip"@)
}

/// The SteamID a client's token logs in when checked with `key` at `now`:
/// none for a token that jwt refuses, whose claims are not a client's,
/// that was issued after `now`, or whose subject is not a SteamID in the
/// `STEAM_X:Y:Z` form.
pub open spec fn token_text_steamid(token: Seq<char>, key: Seq<u8>, now: u64) -> Option<u64> {
    match spec_jwt_claims(token, key) {
        Ok(v) => if !client_claims_readable(v) {
            None
        } else if number_member(v, "iat"@)->0 > now {
            None
        } else {
            spec_steam2_parse(text_member(v, "sub"@)->0)
        },
        Err(_) => None,
    }
}

fn put_text(v: &mut serde_json::Value, key: &str, t: &str)
    requires
        spec_json_is_object(*old(v)),
    ensures
        spec_json_is_object(*final(v)),
        text_member(*final(v), key@) == Some(t@),
        !spec_json_is_null(spec_json_member(*final(v), key@)),
        forall|k: Seq<char>|
            k != key@ ==> #[trigger] spec_json_member(*final(v), k) == spec_json_member(*old(v), k),
{
    json_insert(v, key, json_string(t));
}

fn put_opt_text(v: &mut serde_json::Value, key: &str, t: &Option<String>)
    requires
        spec_json_is_object(*old(v)),
    ensures
        spec_json_is_object(*final(v)),
        opt_member(*final(v), key@) == opt_view(*t),
        opt_member_ok(*final(v), key@),
        forall|k: Seq<char>|
            k != key@ ==> #[trigger] spec_json_member(*final(v), k) == spec_json_member(*old(v), k),
{
    match t {
        Some(s) => put_text(v, key, s.as_str()),
        None => json_insert(v, key, json_null()),
    }
}

/// The claims of a client's token as a JSON object, with no other member.
pub fn client_claims_to_json(c: &ClientTokenClaims) -> (r: serde_json::Value)
    ensures
        client_claims_exact(r, *c),
        json_flat(r),
{
    proof {
        reveal_strlit("sub");
        reveal_strlit("iss");
        reveal_strlit("iat");
        reveal_strlit("jti");
        reveal_strlit("ip");
    }
    let mut v = json_empty_object();
    let ghost v0 = v;
    put_text(&mut v, "sub", c.subject.as_str());
    put_text(&mut v, "iss", c.issuer.as_str());
    json_insert(&mut v, "iat", json_number(c.issued_at));
    put_opt_text(&mut v, "jti", &c.jwt_id);
    put_opt_text(&mut v, "ip", &c.ip_addr);
    assert("sub"@[0] != "iss"@[0] && "sub"@[0] != "iat"@[0] && "sub"@[0] != "jti"@[0] && "sub"@.len()
        != "ip"@.len());
    assert("iss"@[1] != "iat"@[1] && "iss"@[0] != "jti"@[0] && "iss"@.len() != "ip"@.len());
    assert("iat"@[0] != "jti"@[0] && "iat"@.len() != "ip"@.len() && "jti"@.len() != "ip"@.len());
    assert forall|k: Seq<char>| !client_claim_key(k) implies #[trigger] spec_json_is_null(
        spec_json_member(v, k),
    ) by {
        assert(spec_json_member(v, k) == spec_json_member(v0, k));
    }
    v
}

fn read_text(v: &serde_json::Value, key: &str) -> (r: Option<String>)
    ensures
        opt_view(r) == text_member(*v, key@),
{
    json_as_str(&json_member(v, key))
}

fn read_opt_text(v: &serde_json::Value, key: &str) -> (r: Result<Option<String>, ()>)
    ensures
        r is Ok <==> opt_member_ok(*v, key@),
        r matches Ok(t) ==> opt_view(t) == opt_member(*v, key@),
{
    let m = json_member(v, key);
    if json_is_null(&m) {
        Ok(None)
    } else {
        match json_as_str(&m) {
            Some(t) => Ok(Some(t)),
            None => Err(()),
        }
    }
}

/// Reads the claims of a client's token from a JSON object; claims that are
/// not a client's give the error `invalid token claims`.
pub fn client_claims_from_json(v: &serde_json::Value) -> (r: Result<ClientTokenClaims, String>)
    ensures
        r is Ok <==> client_claims_readable(*v),
        r matches Ok(c) ==> client_claims_json(*v, c),
        r matches Err(e) ==> e@ == "invalid token claims"@,
{
    if !json_is_object(v) {
        return Err(String::from_str("invalid token claims"));
    }
    let subject = read_text(v, "sub");
    let issuer = read_text(v, "iss");
    let issued_at = json_as_u64(&json_member(v, "iat"));
    let jwt_id = read_opt_text(v, "jti");
    let ip_addr = read_opt_text(v, "ip");
    match (subject, issuer, issued_at, jwt_id, ip_addr) {
        (Some(subject), Some(issuer), Some(issued_at), Ok(jwt_id), Ok(ip_addr)) => Ok(
            ClientTokenClaims { subject, issuer, issued_at, jwt_id, ip_addr },
        ),
        _ => Err(String::from_str("invalid token claims")),
    }
}

/// Reads the claims of a server's token from a JSON object; claims that are
/// not a server's give the error `invalid token claims`.
pub fn server_claims_from_json(v: &serde_json::Value) -> (r: Result<ServerTokenClaims, String>)
    ensures
        r is Ok <==> server_claims_readable(*v),
        r matches Ok(c) ==> text_member(*v, "namespace"@) == Some(c.namespace@) && text_member(*v, "sub"@)
            == Some(c.subject@) && text_member(*v, "iss"@) == Some(c.issuer@) && number_member(*v, "iat"@)
            == Some(c.issued_at) && opt_member(*v, "ip"@) == opt_view(c.ip_addr),
        r matches Err(e) ==> e@ == "invalid token claims"@,
{
    if !json_is_object(v) {
        return Err(String::from_str("invalid token claims"));
    }
    let namespace = read_text(v, "namespace");
    let subject = read_text(v, "sub");
    let issuer = read_text(v, "iss");
    let issued_at = json_as_u64(&json_member(v, "iat"));
    let ip_addr = read_opt_text(v, "ip");
    match (namespace, subject, issuer, issued_at, ip_addr) {
        (Some(namespace), Some(subject), Some(issuer), Some(issued_at), Ok(ip_addr)) => Ok(
            ServerTokenClaims { namespace, subject, issuer, issued_at, ip_addr },
        ),
        _ => Err(String::from_str("invalid token claims")),
    }
}

/// The claims of a client's token checked with `key`: jwt's error, or the
/// claims read from the token.
pub fn read_client_token(token: &str, key: &[u8]) -> (r: Result<ClientTokenClaims, String>)
    ensures
        match spec_jwt_claims(token@, key@) {
            Err(e) => r matches Err(m) && m@ == e,
            Ok(v) => if client_claims_readable(v) {
                r matches Ok(c) && client_claims_json(v, c)
            } else {
                r matches Err(m) && m@ == "invalid token claims"@
            },
        },
{
    match jwt_claims(token, key) {
        Err(e) => Err(e),
        Ok(v) => client_claims_from_json(&v),
    }
}

/// The claims of a server's token checked with `key`: jwt's error, or the
/// claims read from the token.
pub fn read_server_token(token: &str, key: &[u8]) -> (r: Result<ServerTokenClaims, String>)
    ensures
        match spec_jwt_claims(token@, key@) {
            Err(e) => r matches Err(m) && m@ == e,
            Ok(v) => if server_claims_readable(v) {
                r matches Ok(c) && text_member(v, "namespace"@) == Some(c.namespace@) && text_member(
                    v,
                    "sub"@,
                ) == Some(c.subject@) && text_member(v, "iss"@) == Some(c.issuer@) && number_member(v, "iat"@)
                    == Some(c.issued_at) && opt_member(v, "ip"@) == opt_view(c.ip_addr)
            } else {
                r matches Err(m) && m@ == "invalid token claims"@
            },
        },
{
    match jwt_claims(token, key) {
        Err(e) => Err(e),
        Ok(v) => server_claims_from_json(&v),
    }
}

/// Signs the claims of a client's token with `key`. The token is what jwt
/// signs for a JSON object holding exactly these claims and no other member,
/// and checked with the same key it logs in the SteamID the claims do, at
/// any time.
pub fn sign_client_claims(claims: &ClientTokenClaims, key: &[u8]) -> (r: Result<String, String>)
    ensures
        r matches Ok(t) && exists|v: serde_json::Value|
            client_claims_exact(v, *claims) && #[trigger] spec_jwt_sign(v, key@) == t@,
        r matches Ok(t) ==> forall|now: u64|
            #[trigger] token_text_steamid(t@, key@, now) == token_steamid(*claims, now),
{
    let v = client_claims_to_json(claims);
    let r = jwt_sign(&v, key);
    proof {
        let back = spec_jwt_claims(spec_jwt_sign(v, key@), key@)->Ok_0;
        assert(text_member(back, "sub"@) == text_member(v, "sub"@));
        assert(text_member(back, "iss"@) == text_member(v, "iss"@));
        assert(number_member(back, "iat"@) == number_member(v, "iat"@));
        assert(opt_member_ok(back, "jti"@) == opt_member_ok(v, "jti"@));
        assert(opt_member_ok(back, "ip"@) == opt_member_ok(v, "ip"@));
        assert(client_claims_readable(back));
    }
    r
}

} // verus!
