//! The service's own signing key: a key identifier and an RSA private key,
//! read from a JSON Web Key that a secret store holds.

use vstd::prelude::*;
use crate::error::UpstreamFetchFailure;
use crate::jwt::{rsa_pem_ok, rsa_pem_readable};
use crate::text::text_view;

verus! {

/// `jsonwebkey::Error`, why a text is no JSON Web Key. It is never looked
/// into.
#[verifier::external_type_specification]
#[verifier::external_body]
pub struct ExJwkError(jsonwebkey::Error);

/// What is read of a JSON Web Key: the identifier that it declares, if any,
/// and the key in PEM form, if it has one.
#[derive(Clone, Debug, PartialEq, Eq)]
pub struct SecretJwk {
    pub key_id: Option<String>,
    pub pem: Option<String>,
}

/// What is read of a JSON Web Key, as values.
pub ghost struct SecretJwkView {
    pub key_id: Option<Seq<char>>,
    pub pem: Option<Seq<char>>,
}

impl View for SecretJwk {
    type V = SecretJwkView;

    open spec fn view(&self) -> SecretJwkView {
        SecretJwkView { key_id: text_view(self.key_id), pem: text_view(self.pem) }
    }
}

/// What a secret's text holds, read as a JSON Web Key; `None` where it is
/// none.
pub uninterp spec fn secret_jwk(secret: Seq<char>) -> Option<SecretJwkView>;

/// `jsonwebkey::JsonWebKey::from_str`, then the key's `key_id` and what
/// `jsonwebkey::Key::try_to_pem` gives for it: PKCS#8 in PEM armour for an
/// asymmetric key, nothing for a symmetric key or an RSA key that lacks a
/// private parameter.
#[verifier::external_body]
fn read_secret_jwk(secret: &str) -> (r: Result<SecretJwk, jsonwebkey::Error>)
    ensures
        r is Ok <==> secret_jwk(secret@) is Some,
        r is Ok ==> secret_jwk(secret@) == Some(r->Ok_0@),
{
    let jwk: jsonwebkey::JsonWebKey = secret.parse()?;
    Ok(SecretJwk { key_id: jwk.key_id.clone(), pem: jwk.key.try_to_pem().ok() })
}

/// The key that the service signs with, and the identifier under which
/// verifiers find its public half. The private key is PEM text that reads
/// as an RSA key.
pub struct SigningKeyMaterial {
    key_id: String,
    pem: String,
}

/// A signing key as values.
pub ghost struct SigningKeyView {
    pub key_id: Seq<char>,
    pub pem: Seq<char>,
}

impl View for SigningKeyMaterial {
    type V = SigningKeyView;

    closed spec fn view(&self) -> SigningKeyView {
        SigningKeyView { key_id: self.key_id@, pem: self.pem@ }
    }
}

/// The signing key that a JSON Web Key gives, or the reason why it gives
/// none.
pub open spec fn signing_key_of(jwk: SecretJwkView) -> Result<SigningKeyView, UpstreamFetchFailure> {
    match (jwk.key_id, jwk.pem) {
        (None, _) => Err(UpstreamFetchFailure::MissingKeyId),
        (Some(_), None) => Err(UpstreamFetchFailure::UnusableKey),
        (Some(key_id), Some(pem)) => if rsa_pem_readable(pem) {
            Ok(SigningKeyView { key_id, pem })
        } else {
            Err(UpstreamFetchFailure::UnusableKey)
        },
    }
}

/// The signing key that the text of a secret gives, or the reason why it
/// gives none.
pub open spec fn signing_key_in(secret: Seq<char>) -> Result<SigningKeyView, UpstreamFetchFailure> {
    match secret_jwk(secret) {
        Some(jwk) => signing_key_of(jwk),
        None => Err(UpstreamFetchFailure::Malformed),
    }
}

/// The view of a signing key that may have failed to load.
pub open spec fn loaded_view(r: Result<SigningKeyMaterial, UpstreamFetchFailure>) -> Result<SigningKeyView, UpstreamFetchFailure> {
    match r {
        Ok(key) => Ok(key@),
        Err(e) => Err(e),
    }
}

impl SigningKeyMaterial {
    #[verifier::type_invariant]
    spec fn well_formed(self) -> bool {
        rsa_pem_readable(self.pem@)
    }

    /// Takes the signing key from what was read of a JSON Web Key. The key
    /// must declare an identifier and convert to PEM text that reads as an
    /// RSA key.
    pub fn from_jwk(jwk: SecretJwk) -> (r: Result<SigningKeyMaterial, UpstreamFetchFailure>)
        ensures
            loaded_view(r) == signing_key_of(jwk@),
    {
        match (jwk.key_id, jwk.pem) {
            (None, _) => Err(UpstreamFetchFailure::MissingKeyId),
            (Some(_), None) => Err(UpstreamFetchFailure::UnusableKey),
            (Some(key_id), Some(pem)) => {
                if rsa_pem_ok(pem.as_str()) {
                    Ok(SigningKeyMaterial { key_id, pem })
                } else {
                    Err(UpstreamFetchFailure::UnusableKey)
                }
            },
        }
    }

    /// Reads the signing key from the text of a secret, which is to be a
    /// JSON Web Key.
    pub fn from_secret(secret: &str) -> (r: Result<SigningKeyMaterial, UpstreamFetchFailure>)
        ensures
            loaded_view(r) == signing_key_in(secret@),
    {
        match read_secret_jwk(secret) {
            Ok(jwk) => SigningKeyMaterial::from_jwk(jwk),
            Err(_) => Err(UpstreamFetchFailure::Malformed),
        }
    }

    /// The identifier of the key.
    pub fn key_id(&self) -> (key_id: &str)
        ensures
            key_id@ == self@.key_id,
    {
        self.key_id.as_str()
    }

    /// The private key, as PEM text.
    pub fn pem(&self) -> (pem: &str)
        ensures
            pem@ == self@.pem,
            rsa_pem_readable(pem@),
    {
        proof {
            use_type_invariant(self);
        }
        self.pem.as_str()
    }
}

} // verus!
