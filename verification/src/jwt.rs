//! Signed tokens: reading a header, checking a token against an RSA public
//! key, and signing claims with an RSA private key. The work is
//! `jsonwebtoken`'s; this module states what the rest of the library relies
//! on.

use vstd::prelude::*;
use crate::json::{all_scalar, members, JsonObject, Member};
use crate::text::text_view;

verus! {

/// `jsonwebtoken::errors::Error`, why a token could not be read, checked or
/// signed. It is never looked into.
#[verifier::external_type_specification]
#[verifier::external_body]
pub struct ExTokenError(jsonwebtoken::errors::Error);

/// The key identifier in a token's header: `None` where the token has no
/// readable header, `Some(None)` where the header names no key.
pub uninterp spec fn header_key_id(token: Seq<char>) -> Option<Option<Seq<char>>>;

/// The token that signing gives for a key identifier, claims and a private
/// key in PEM form, with RSASSA-PKCS1-v1_5 and SHA-256; `None` where the key
/// cannot sign.
pub uninterp spec fn rs256_token(
    key_id: Seq<char>,
    claims: Map<Seq<char>, Member>,
    pem: Seq<char>,
) -> Option<Seq<char>>;

/// Whether a modulus and an exponent, as the strings of a key-set document,
/// can be read as an RSA public key.
pub uninterp spec fn rsa_components_readable(modulus: Seq<char>, exponent: Seq<char>) -> bool;

/// Whether a PEM text can be read as an RSA key.
pub uninterp spec fn rsa_pem_readable(pem: Seq<char>) -> bool;

/// `jsonwebtoken::decode_header`, of which the `kid` field is kept. The
/// function splits the token at its dots and reads the first part as
/// base64url-encoded JSON; nothing is verified. The result depends on the
/// token alone.
#[verifier::external_body]
pub(crate) fn read_header_key_id(token: &str) -> (r: Result<Option<String>, jsonwebtoken::errors::Error>)
    ensures
        r is Ok <==> header_key_id(token@) is Some,
        r is Ok ==> header_key_id(token@) == Some(text_view(r->Ok_0)),
{
    jsonwebtoken::decode_header(token).map(|header| header.kid)
}

/// `jsonwebtoken::decode` with the claims read as a JSON object, for the
/// algorithm RS256 and the public key that
/// `jsonwebtoken::DecodingKey::from_rsa_components` makes of `modulus` and
/// `exponent`. The validation asks for the given audience and issuer, checks
/// `exp` against the system clock, and checks `nbf` too where
/// `check_not_before` is set, each with a tolerance of a minute. The
/// outcome depends on the clock, so nothing is stated of it. The clock is
/// taken to show a time after the epoch.
#[verifier::external_body]
pub(crate) fn verify_rs256(
    token: &str,
    modulus: &str,
    exponent: &str,
    audience: &str,
    issuer: &str,
    check_not_before: bool,
) -> (r: Result<JsonObject, jsonwebtoken::errors::Error>)
{
    let key = jsonwebtoken::DecodingKey::from_rsa_components(modulus, exponent)?;
    let mut validation = jsonwebtoken::Validation::new(jsonwebtoken::Algorithm::RS256);
    validation.set_audience(&[audience]);
    validation.set_issuer(&[issuer]);
    validation.validate_nbf = check_not_before;
    let data = jsonwebtoken::decode::<JsonObject>(token, &key, &validation)?;
    Ok(data.claims)
}

/// `jsonwebtoken::encode` with a header for RS256 that carries `key_id`, and
/// the key that `jsonwebtoken::EncodingKey::from_rsa_pem` makes of `pem`. The
/// claims are written with `serde_json`, their members in the order of
/// their names, and the padding of RS256 adds nothing random, so the token
/// depends on the three arguments alone.
#[verifier::external_body]
pub(crate) fn sign_rs256(key_id: &str, claims: &JsonObject, pem: &str) -> (r: Result<String, jsonwebtoken::errors::Error>)
    requires
        all_scalar(members(*claims)),
    ensures
        r is Ok <==> rs256_token(key_id@, members(*claims), pem@) is Some,
        r is Ok ==> rs256_token(key_id@, members(*claims), pem@) == Some(r->Ok_0@),
{
    let key = jsonwebtoken::EncodingKey::from_rsa_pem(pem.as_bytes())?;
    let mut header = jsonwebtoken::Header::new(jsonwebtoken::Algorithm::RS256);
    header.kid = Some(key_id.to_string());
    jsonwebtoken::encode(&header, claims, &key)
}

/// `jsonwebtoken::DecodingKey::from_rsa_components`, of which only success
/// is kept: the function decodes both strings as unpadded base64url.
#[verifier::external_body]
pub(crate) fn rsa_components_ok(modulus: &str, exponent: &str) -> (ok: bool)
    ensures
        ok == rsa_components_readable(modulus@, exponent@),
{
    jsonwebtoken::DecodingKey::from_rsa_components(modulus, exponent).is_ok()
}

/// `jsonwebtoken::EncodingKey::from_rsa_pem`, of which only success is kept:
/// the function reads the PEM armour and the ASN.1 inside, and accepts PKCS#1
/// keys and PKCS#8 keys marked as RSA.
#[verifier::external_body]
pub(crate) fn rsa_pem_ok(pem: &str) -> (ok: bool)
    ensures
        ok == rsa_pem_readable(pem@),
{
    jsonwebtoken::EncodingKey::from_rsa_pem(pem.as_bytes()).is_ok()
}

} // verus!
