//! What can go wrong, by the stage at which it does.

use vstd::prelude::*;

verus! {

/// Why a presented refresh token was not accepted.
#[derive(Clone, Copy, Debug, PartialEq, Eq, Structural)]
pub enum ValidationError {
    /// The header cannot be read, or names no key.
    MalformedToken,
    /// The header names a key that the issuer's current key set lacks.
    UnknownKey,
    /// The signature does not match the named key, or the audience, the
    /// issuer, the expiry or the not-before time is not as required.
    InvalidSignatureOrClaims,
    /// The claims hold no access-token scope.
    MissingScopeClaim,
}

/// Why key material could not be had from an upstream document.
#[derive(Clone, Copy, Debug, PartialEq, Eq, Structural)]
pub enum UpstreamFetchFailure {
    /// The document cannot be read.
    Malformed,
    /// The signing key declares no identifier.
    MissingKeyId,
    /// A key is not one that RSA signatures can be made or checked with.
    UnusableKey,
    /// The key set holds no RSA key with an identifier.
    NoUsableKeys,
}

/// New tokens could not be signed.
#[derive(Clone, Copy, Debug, PartialEq, Eq, Structural)]
pub enum IssuanceFailure {
    SigningFailed,
}

} // verus!
