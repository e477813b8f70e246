//! Minting the two tokens that a validated refresh token is traded for.

use vstd::prelude::*;
use crate::claims::{
    access_claims, claims_members, integer_at, lemma_access_lifetime_is_fixed, lemma_claims_survive_writing,
    lemma_rotation_keeps_expiry, refresh_claims, text_at, ClaimsView, IncomingClaims, OutgoingClaims,
    ACCESS_TOKEN_LIFETIME,
};
use crate::error::IssuanceFailure;
use crate::jwt::{rs256_token, sign_rs256};
use crate::signing_key::{SigningKeyMaterial, SigningKeyView};

verus! {

/// A fresh access token and the refresh token that replaces the presented
/// one.
#[derive(Clone, Debug, PartialEq, Eq)]
pub struct TokenPair {
    pub access_token: String,
    pub refresh_token: String,
}

/// A token pair as values.
pub ghost struct TokenPairView {
    pub access_token: Seq<char>,
    pub refresh_token: Seq<char>,
}

impl View for TokenPair {
    type V = TokenPairView;

    open spec fn view(&self) -> TokenPairView {
        TokenPairView { access_token: self.access_token@, refresh_token: self.refresh_token@ }
    }
}

/// The view of an issuance's result.
pub open spec fn issuance_view(r: Result<TokenPair, IssuanceFailure>) -> Result<TokenPairView, IssuanceFailure> {
    match r {
        Ok(pair) => Ok(pair@),
        Err(e) => Err(e),
    }
}

/// The refresh token minted at `now` for the holder of the presented
/// claims.
pub open spec fn refresh_token_for(presented: ClaimsView, scope: Seq<char>, key: SigningKeyView, now: int) -> Option<Seq<char>> {
    rs256_token(key.key_id, claims_members(refresh_claims(presented, scope, key.key_id, now)), key.pem)
}

/// The access token minted at `now` for the holder of the presented claims.
pub open spec fn access_token_for(presented: ClaimsView, scope: Seq<char>, key: SigningKeyView, now: int) -> Option<Seq<char>> {
    rs256_token(key.key_id, claims_members(access_claims(presented, scope, key.key_id, now)), key.pem)
}

/// The pair minted at `now`: both tokens carry the signing key's identifier
/// in their header and in their claims, and are signed with that key.
pub open spec fn minted(presented: ClaimsView, scope: Seq<char>, key: SigningKeyView, now: int) -> Result<TokenPairView, IssuanceFailure> {
    match (refresh_token_for(presented, scope, key, now), access_token_for(presented, scope, key, now)) {
        (Some(refresh_token), Some(access_token)) => Ok(TokenPairView { access_token, refresh_token }),
        _ => Err(IssuanceFailure::SigningFailed),
    }
}

/// Mints an access token and a rotated refresh token for the holder of
/// validated claims, at the time `now` in seconds since the epoch.
pub fn issue(presented: &IncomingClaims, scope: &str, key: &SigningKeyMaterial, now: i64) -> (r: Result<TokenPair, IssuanceFailure>)
    requires
        now + ACCESS_TOKEN_LIFETIME <= i64::MAX,
    ensures
        issuance_view(r) == minted(presented@, scope@, key@, now as int),
{
    let refresh = OutgoingClaims::refresh(presented, scope, key.key_id(), now).to_object();
    let refresh_token = match sign_rs256(key.key_id(), &refresh, key.pem()) {
        Ok(token) => token,
        Err(_) => { return Err(IssuanceFailure::SigningFailed); },
    };
    let access = OutgoingClaims::access(presented, scope, key.key_id(), now).to_object();
    let access_token = match sign_rs256(key.key_id(), &access, key.pem()) {
        Ok(token) => token,
        Err(_) => { return Err(IssuanceFailure::SigningFailed); },
    };
    Ok(TokenPair { access_token, refresh_token })
}

/// Every minted token names the key that signed it: the identifier in its
/// claims is the one that its header carries, that of the signing key.
pub proof fn lemma_tokens_name_their_key(presented: ClaimsView, scope: Seq<char>, key: SigningKeyView, now: int)
    ensures
        text_at(claims_members(refresh_claims(presented, scope, key.key_id, now)), "kid"@) == Some(key.key_id),
        text_at(claims_members(access_claims(presented, scope, key.key_id, now)), "kid"@) == Some(key.key_id),
{
    lemma_claims_survive_writing(refresh_claims(presented, scope, key.key_id, now));
    lemma_claims_survive_writing(access_claims(presented, scope, key.key_id, now));
}

/// What is minted expires as it should: the refresh token of a minted pair
/// is the signed form of claims that expire when the presented token
/// would have, and the access token that of claims that expire
/// [`ACCESS_TOKEN_LIFETIME`] seconds after `now`.
pub proof fn lemma_minted_tokens_expire_as_they_should(
    presented: ClaimsView,
    scope: Seq<char>,
    key: SigningKeyView,
    now: int,
)
    ensures
        minted(presented, scope, key, now) matches Ok(pair) ==> {
            &&& rs256_token(key.key_id, claims_members(refresh_claims(presented, scope, key.key_id, now)), key.pem)
                == Some(pair.refresh_token)
            &&& integer_at(claims_members(refresh_claims(presented, scope, key.key_id, now)), "exp"@) == Some(
                presented.exp,
            )
            &&& rs256_token(key.key_id, claims_members(access_claims(presented, scope, key.key_id, now)), key.pem)
                == Some(pair.access_token)
            &&& integer_at(claims_members(access_claims(presented, scope, key.key_id, now)), "exp"@) == Some(
                now + ACCESS_TOKEN_LIFETIME,
            )
        },
{
    lemma_rotation_keeps_expiry(presented, scope, key.key_id, now);
    lemma_access_lifetime_is_fixed(presented, scope, key.key_id, now);
}

} // verus!
