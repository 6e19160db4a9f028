//! Validation of a bearer token against a tenant's published keys.

use crate::forward::opt_view;
use crate::keys::jwk_set_ids;
use jsonwebtoken::jwk::{Jwk, JwkSet};
use jsonwebtoken::{Algorithm, DecodingKey, Validation};
use serde_json::Value;
use vstd::prelude::*;

verus! {

#[verifier::external_type_specification]
#[verifier::external_body]
pub struct ExJwk(jsonwebtoken::jwk::Jwk);

#[verifier::external_type_specification]
#[verifier::external_body]
pub struct ExDecodingKey(jsonwebtoken::DecodingKey);

/// Any failure to validate a token.
pub enum AuthError {
    Unauthorized,
}

/// The key identifier in a token's unsigned header, if the header decodes
/// and names one.
pub uninterp spec fn header_kid(token: Seq<char>) -> Option<Seq<char>>;

/// Whether some key of `keys` carries the identifier `kid`.
pub open spec fn lists_key(keys: JwkSet, kid: Seq<char>) -> bool {
    exists|i: int| 0 <= i < jwk_set_ids(keys).len() && jwk_set_ids(keys)[i] == Some(kid)
}

/// Relies on `jsonwebtoken::decode_header`: the header is decoded from the
/// token's text alone, and `kid` is its key identifier field.
#[verifier::external_body]
fn token_key_id(token: &str) -> (r: Option<String>)
    ensures
        opt_view(r) == header_kid(token@),
{
    jsonwebtoken::decode_header(token).ok().and_then(|h| h.kid)
}

/// Relies on `jsonwebtoken::jwk::JwkSet::find`: the first key whose `kid`
/// equals the given one, and none when no key carries it.
#[verifier::external_body]
fn find_key<'a>(keys: &'a JwkSet, kid: &str) -> (r: Option<&'a Jwk>)
    ensures
        r is Some == (exists|i: int|
            0 <= i < jwk_set_ids(*keys).len() && jwk_set_ids(*keys)[i] == Some(kid@)),
{
    keys.find(kid)
}

/// Relies on `jsonwebtoken::DecodingKey::from_jwk`: the verification key
/// that a published key describes, when its parameters are usable.
#[verifier::external_body]
fn decoding_key(jwk: &Jwk) -> (r: Option<DecodingKey>) {
    DecodingKey::from_jwk(jwk).ok()
}

#[verifier::external_type_specification]
pub struct ExAlgorithm(jsonwebtoken::Algorithm);

/// The claim `name` of a token's payload: absent, or present with its text
/// when it is a string.
pub uninterp spec fn token_claim(token: Seq<char>, name: Seq<char>) -> Option<Option<Seq<char>>>;

/// Relies on `jsonwebtoken::decode` into a `serde_json::Value`, under a
/// validation that accepts `algorithm` only, the audiences `audience` and the
/// issuers `issuers`: when the token passes, its payload is the token's own,
/// and each of `names` is read from it with `Value::get` and `Value::as_str`.
#[verifier::external_body]
fn decode_claims(
    token: &str,
    key: &DecodingKey,
    algorithm: Algorithm,
    audience: &Vec<String>,
    issuers: &Vec<String>,
    names: &Vec<String>,
) -> (r: Option<Vec<Option<Option<String>>>>)
    ensures
        r matches Some(texts) ==> (texts@.len() == names@.len() && forall|i: int|
            0 <= i < names@.len() ==> #[trigger] claim_view(texts@[i]) == token_claim(
                token@,
                names@[i]@,
            )),
{
    let mut validation = Validation::new(algorithm);
    validation.set_audience(audience);
    validation.set_issuer(issuers);
    let claims = jsonwebtoken::decode::<Value>(token, key, &validation).ok()?.claims;
    Some(names.iter().map(|n| claims.get(n.as_str()).map(|v| v.as_str().map(String::from))).collect())
}

/// The identity reported when a token names none.
pub open spec fn unknown_identity() -> Seq<char> {
    "unknown"@
}

/// A claim as read from a token: absent, or present with its text when it
/// is a string.
pub open spec fn claim_view(c: Option<Option<String>>) -> Option<Option<Seq<char>>> {
    match c {
        Some(t) => Some(opt_view(t)),
        None => None,
    }
}

/// The identity a token asserts: the first present of preferred username,
/// user principal name and subject, when that claim is a string.
pub open spec fn identity_of(
    preferred: Option<Option<Seq<char>>>,
    upn: Option<Option<Seq<char>>>,
    sub: Option<Option<Seq<char>>>,
) -> Seq<char> {
    let chosen = if preferred is Some {
        preferred
    } else if upn is Some {
        upn
    } else {
        sub
    };
    match chosen {
        Some(Some(name)) => name,
        _ => unknown_identity(),
    }
}

/// Picks the identity out of the three claims.
pub fn identity_from_claims(
    preferred: Option<Option<String>>,
    upn: Option<Option<String>>,
    sub: Option<Option<String>>,
) -> (r: String)
    ensures
        r@ == identity_of(claim_view(preferred), claim_view(upn), claim_view(sub)),
{
    let chosen = if preferred.is_some() {
        preferred
    } else if upn.is_some() {
        upn
    } else {
        sub
    };
    proof {
        reveal_strlit("unknown");
    }
    match chosen {
        Some(Some(name)) => name,
        _ => String::from_str("unknown"),
    }
}

/// The text after the `Bearer ` scheme of an authorization header.
pub open spec fn bearer_of(header: Seq<char>) -> Option<Seq<char>> {
    if header.len() >= 7 && header.subrange(0, 7) == "Bearer "@ {
        Some(header.subrange(7, header.len() as int))
    } else {
        None
    }
}

/// The bearer token of an authorization header, if it carries one.
pub fn bearer_token(header: &str) -> (r: Option<String>)
    ensures
        opt_view(r) == bearer_of(header@),
{
    let n = header.unicode_len();
    if n < 7 {
        return None;
    }
    let scheme = String::from_str(header.substring_char(0, 7));
    let expected = String::from_str("Bearer ");
    if scheme == expected {
        Some(String::from_str(header.substring_char(7, n)))
    } else {
        None
    }
}

/// The issuer that the current token format names for a tenant.
pub open spec fn issuer_v2_of(tenant_id: Seq<char>) -> Seq<char> {
    "https://login.microsoftonline.com/"@ + tenant_id + "/v2.0"@
}

/// The issuer that the older token format names for a tenant.
pub open spec fn issuer_v1_of(tenant_id: Seq<char>) -> Seq<char> {
    "https://sts.windows.net/"@ + tenant_id + "/"@
}

/// Both issuers accepted for a tenant.
pub fn accepted_issuers(tenant_id: &str) -> (r: Vec<String>)
    ensures
        r@.len() == 2,
        r@[0]@ == issuer_v2_of(tenant_id@),
        r@[1]@ == issuer_v1_of(tenant_id@),
{
    let mut v2 = String::from_str("https://login.microsoftonline.com/");
    v2.append(tenant_id);
    v2.append("/v2.0");
    let mut v1 = String::from_str("https://sts.windows.net/");
    v1.append(tenant_id);
    v1.append("/");
    proof {
        reveal_strlit("https://login.microsoftonline.com/");
        reveal_strlit("/v2.0");
        reveal_strlit("https://sts.windows.net/");
        reveal_strlit("/");
    }
    let mut r: Vec<String> = Vec::new();
    r.push(v2);
    r.push(v1);
    r
}

/// What a token must meet: RS256 signatures only, the client as the one
/// audience, and the tenant's two issuers.
pub fn token_requirements(tenant_id: &str, client_id: &str) -> (r: (Algorithm, Vec<String>, Vec<
    String,
>))
    ensures
        r.0 == Algorithm::RS256,
        r.1@.len() == 1,
        r.1@[0]@ == client_id@,
        r.2@.len() == 2,
        r.2@[0]@ == issuer_v2_of(tenant_id@),
        r.2@[1]@ == issuer_v1_of(tenant_id@),
{
    let mut audience: Vec<String> = Vec::new();
    audience.push(String::from_str(client_id));
    (Algorithm::RS256, audience, accepted_issuers(tenant_id))
}

/// The identity that the payload of `token` asserts.
pub open spec fn token_identity(token: Seq<char>) -> Seq<char> {
    identity_of(
        token_claim(token, "preferred_username"@),
        token_claim(token, "upn"@),
        token_claim(token, "sub"@),
    )
}

/// Validates `token` with the key set of `tenant_id` for the client
/// `client_id`, and returns the identity it asserts. The token's header must
/// name a key of `keys`; the signature must verify under that key with
/// RS256, the audience must be `client_id`, and the issuer one of the two
/// accepted for the tenant.
pub fn validate_token(token: &str, keys: &JwkSet, tenant_id: &str, client_id: &str) -> (r: Result<
    String,
    AuthError,
>)
    ensures
        header_kid(token@) is None ==> r is Err,
        header_kid(token@) matches Some(kid) && !lists_key(*keys, kid) ==> r is Err,
        r matches Ok(id) ==> id@ == token_identity(token@),
{
    let kid = match token_key_id(token) {
        Some(k) => k,
        None => return Err(AuthError::Unauthorized),
    };
    let jwk = match find_key(keys, kid.as_str()) {
        Some(j) => j,
        None => return Err(AuthError::Unauthorized),
    };
    let key = match decoding_key(jwk) {
        Some(k) => k,
        None => return Err(AuthError::Unauthorized),
    };
    let (algorithm, audience, issuers) = token_requirements(tenant_id, client_id);
    let mut names: Vec<String> = Vec::new();
    names.push(String::from_str("preferred_username"));
    names.push(String::from_str("upn"));
    names.push(String::from_str("sub"));
    let texts = match decode_claims(token, &key, algorithm, &audience, &issuers, &names) {
        Some(t) => t,
        None => return Err(AuthError::Unauthorized),
    };
    assert(claim_view(texts@[0]) == token_claim(token@, names@[0]@));
    assert(claim_view(texts@[1]) == token_claim(token@, names@[1]@));
    assert(claim_view(texts@[2]) == token_claim(token@, names@[2]@));
    let preferred = texts[0].clone();
    let upn = texts[1].clone();
    let sub = texts[2].clone();
    Ok(identity_from_claims(preferred, upn, sub))
}

} // verus!
