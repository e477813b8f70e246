//! Checking a presented refresh token against an issuer's key set.

use vstd::prelude::*;
use crate::claims::{access_claims, claims_members, claims_of, lemma_audiences_differ, lemma_claims_survive_writing, refresh_claims, ClaimsView, IncomingClaims, REFRESH_AUDIENCE};
use crate::error::ValidationError;
use crate::json::{members, JsonObject, Member};
use crate::jwt::{header_key_id, read_header_key_id, verify_rs256};
use crate::keyset::{KeySet, RsaView};

verus! {

/// A refresh token that passed: its claims, and the scope that access
/// tokens derived from it are to have.
#[derive(Clone, Debug, PartialEq, Eq)]
pub struct Validated {
    pub claims: IncomingClaims,
    pub scope: String,
}

/// A refresh token that passed, as values.
pub ghost struct ValidatedView {
    pub claims: ClaimsView,
    pub scope: Seq<char>,
}

impl View for Validated {
    type V = ValidatedView;

    open spec fn view(&self) -> ValidatedView {
        ValidatedView { claims: self.claims@, scope: self.scope@ }
    }
}

/// The view of a validation's result.
pub open spec fn validation_view(r: Result<Validated, ValidationError>) -> Result<ValidatedView, ValidationError> {
    match r {
        Ok(validated) => Ok(validated@),
        Err(e) => Err(e),
    }
}

/// The key identifier that a token must name to get any further.
pub open spec fn named_key(token: Seq<char>) -> Result<Seq<char>, ValidationError> {
    match header_key_id(token) {
        Some(Some(key_id)) => Ok(key_id),
        _ => Err(ValidationError::MalformedToken),
    }
}

/// What the claims of a token whose signature matched come to: they must
/// have the shape of claims, be meant for refreshing, come from the
/// expected issuer, and state the scope of the access tokens.
pub open spec fn accepted(issuer: Seq<char>, content: Map<Seq<char>, Member>) -> Result<ValidatedView, ValidationError> {
    match claims_of(content) {
        None => Err(ValidationError::InvalidSignatureOrClaims),
        Some(claims) => if claims.aud != REFRESH_AUDIENCE@ || claims.iss != issuer {
            Err(ValidationError::InvalidSignatureOrClaims)
        } else {
            match claims.access_token_scope {
                None => Err(ValidationError::MissingScopeClaim),
                Some(scope) => Ok(ValidatedView { claims, scope }),
            }
        },
    }
}

/// What holds of every token that passes: it was meant for refreshing, it
/// comes from the expected issuer, and the scope handed out is the one it
/// states.
pub open spec fn passes(issuer: Seq<char>, validated: ValidatedView) -> bool {
    &&& validated.claims.aud == REFRESH_AUDIENCE@
    &&& validated.claims.iss == issuer
    &&& validated.claims.access_token_scope == Some(validated.scope)
}

/// What validating a token against a key set may come to. A token that
/// names no key is malformed. A token that names a key which the set lacks
/// is turned away for that, whatever its signature. For any other token the
/// signature check decides, which reads the clock: such a token passes, or
/// is turned away for its signature or claims or for its missing scope.
pub open spec fn validation_allows(
    issuer: Seq<char>,
    token: Seq<char>,
    keys: Map<Seq<char>, RsaView>,
    r: Result<ValidatedView, ValidationError>,
) -> bool {
    match named_key(token) {
        Err(e) => r == Err::<ValidatedView, ValidationError>(e),
        Ok(key_id) => if !keys.contains_key(key_id) {
            r == Err::<ValidatedView, ValidationError>(ValidationError::UnknownKey)
        } else {
            match r {
                Ok(validated) => passes(issuer, validated),
                Err(e) => e == ValidationError::InvalidSignatureOrClaims || e == ValidationError::MissingScopeClaim,
            }
        },
    }
}

/// Reads the key identifier from a token's header. Nothing is verified.
pub fn key_id_of(token: &str) -> (r: Result<String, ValidationError>)
    ensures
        match r {
            Ok(key_id) => named_key(token@) == Ok::<Seq<char>, ValidationError>(key_id@),
            Err(e) => named_key(token@) == Err::<Seq<char>, ValidationError>(e),
        },
{
    match read_header_key_id(token) {
        Ok(Some(key_id)) => Ok(key_id),
        _ => Err(ValidationError::MalformedToken),
    }
}

/// Judges the claims of a token whose signature matched.
pub fn accept_claims(issuer: &str, object: &JsonObject) -> (r: Result<Validated, ValidationError>)
    ensures
        validation_view(r) == accepted(issuer@, members(*object)),
{
    match IncomingClaims::from_object(object) {
        None => Err(ValidationError::InvalidSignatureOrClaims),
        Some(claims) => {
            if claims.aud != REFRESH_AUDIENCE.to_owned() || claims.iss != issuer.to_owned() {
                Err(ValidationError::InvalidSignatureOrClaims)
            } else {
                match &claims.access_token_scope {
                    None => Err(ValidationError::MissingScopeClaim),
                    Some(scope) => {
                        let scope = scope.clone();
                        Ok(Validated { claims, scope })
                    },
                }
            }
        },
    }
}

/// Validates a refresh token for an issuer whose current keys are `keys`.
///
/// The key is chosen by the identifier in the token's header and by nothing
/// else: a token that names a key which the set lacks is turned away
/// without any key being tried. Whether the signature matches and the
/// token is within its time is then for the signature check to say, which
/// reads the clock.
pub fn validate(issuer: &str, token: &str, keys: &KeySet) -> (r: Result<Validated, ValidationError>)
    ensures
        validation_allows(issuer@, token@, keys@, validation_view(r)),
{
    let key_id = match key_id_of(token) {
        Ok(key_id) => key_id,
        Err(e) => { return Err(e); },
    };
    let key = match keys.get(key_id.as_str()) {
        Some(key) => key,
        None => { return Err(ValidationError::UnknownKey); },
    };
    match verify_rs256(token, key.modulus.as_str(), key.exponent.as_str(), REFRESH_AUDIENCE, issuer, true) {
        Ok(object) => accept_claims(issuer, &object),
        Err(_) => Err(ValidationError::InvalidSignatureOrClaims),
    }
}

/// Claims are accepted only from tokens that pass: whatever a signature
/// check hands on, what is accepted of it was meant for refreshing, comes
/// from the expected issuer, and carries the scope that is handed out.
pub proof fn lemma_accepted_claims_pass(issuer: Seq<char>, content: Map<Seq<char>, Member>)
    ensures
        accepted(issuer, content) matches Ok(validated) ==> passes(issuer, validated),
{
}

/// What is minted can be presented again: the claims of a rotated refresh
/// token, whatever it was minted from, pass for the issuer of the token
/// that it replaces, with the scope that it was minted with.
pub proof fn lemma_rotated_claims_pass(presented: ClaimsView, scope: Seq<char>, key_id: Seq<char>, now: int)
    ensures
        accepted(presented.iss, claims_members(refresh_claims(presented, scope, key_id, now)))
            == Ok::<ValidatedView, ValidationError>(
            ValidatedView { claims: refresh_claims(presented, scope, key_id, now), scope },
        ),
{
    lemma_claims_survive_writing(refresh_claims(presented, scope, key_id, now));
}

/// An access token is no refresh token: its claims pass for no issuer.
pub proof fn lemma_access_claims_do_not_pass(
    issuer: Seq<char>,
    presented: ClaimsView,
    scope: Seq<char>,
    key_id: Seq<char>,
    now: int,
)
    ensures
        accepted(issuer, claims_members(access_claims(presented, scope, key_id, now)))
            == Err::<ValidatedView, ValidationError>(ValidationError::InvalidSignatureOrClaims),
{
    lemma_claims_survive_writing(access_claims(presented, scope, key_id, now));
    lemma_audiences_differ(presented, scope, key_id, now);
}

/// The key is chosen by its identifier and by nothing else: a token that
/// names a key which the current set lacks is turned away with
/// `UnknownKey`, whatever the set holds and whatever the token's signature
/// would match.
pub proof fn lemma_unknown_key_is_never_tried(
    issuer: Seq<char>,
    token: Seq<char>,
    key_id: Seq<char>,
    keys: Map<Seq<char>, RsaView>,
    r: Result<ValidatedView, ValidationError>,
)
    requires
        header_key_id(token) == Some(Some(key_id)),
        !keys.contains_key(key_id),
        validation_allows(issuer, token, keys, r),
    ensures
        r == Err::<ValidatedView, ValidationError>(ValidationError::UnknownKey),
{
}

} // verus!
