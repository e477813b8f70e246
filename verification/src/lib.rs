//! Credential exchange: a refresh token signed by a known issuer is checked
//! against that issuer's published keys and traded for a short-lived access
//! token and a rotated refresh token, both signed with the service's own key.
//!
//! The library decides; it does not fetch. Its surroundings bring the
//! request, the issuer's key-set document and the secret that holds the
//! signing key, and take back the reply and the event to count.
//!
//! * [`orchestrator`] runs one exchange from request to reply, in steps.
//! * [`validator`] checks a presented refresh token against a key set.
//! * [`issuer`] mints the two new tokens; [`claims`] says what they state.
//! * [`keyset`] and [`signing_key`] read key material from the documents
//!   that hold it.
//! * [`cache`] says for how long such material is served, and who fetches
//!   it when several callers ask at once.
//!
//! Every function is verified against its contract, with these exceptions,
//! whose contracts are taken on trust: the functions of [`json`] and
//! [`jwt`] and the readers in [`keyset`] and [`signing_key`], which call
//! `serde_json`, `jsonwebtoken` and `jsonwebkey`, and the clock.

pub mod cache;
pub mod claims;
pub mod clock;
pub mod error;
pub mod issuer;
pub mod json;
pub mod jwt;
pub mod keyset;
pub mod orchestrator;
pub mod signing_key;
pub mod text;
pub mod validator;
