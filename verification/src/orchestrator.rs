//! One exchange from request to reply.
//!
//! An exchange needs two things that only its surroundings can fetch: the
//! issuer's key set, and then, if the token passes, the signing key. It
//! therefore runs in steps. Each step says what the exchange waits for
//! next, until it is finished and holds its outcome: the reply for the
//! caller and the one event to count.

use vstd::prelude::*;
use crate::claims::ACCESS_TOKEN_LIFETIME;
use crate::clock::unix_now;
use crate::error::{IssuanceFailure, ValidationError};
use crate::issuer::{issue, minted, TokenPair, TokenPairView};
use crate::json::{empty_object, json_text, put, to_text, Member, Scalar};
use crate::keyset::{KeySet, RsaView};
use crate::signing_key::{SigningKeyMaterial, SigningKeyView};
use crate::text::slice_view;
use crate::validator::{
    key_id_of, named_key, validate, validation_allows, validation_view, Validated, ValidatedView,
};

verus! {

/// The status of a reply that carries tokens.
pub const STATUS_OK: u16 = 200;

/// The status of every other reply.
pub const STATUS_UNAUTHORIZED: u16 = 401;

/// The body of the reply to a request without a refresh token.
pub const NO_TOKEN_BODY: &'static str = "Error: No refresh token provided";

/// The body of the reply to every other request that is turned away. It
/// does not say why.
pub const REJECTED_BODY: &'static str = "Error: Failed to validate refresh token";

/// Why a request was turned away. This is for the operator: the caller is
/// not told.
#[derive(Clone, Copy, Debug, PartialEq, Eq, Structural)]
pub enum DenyReason {
    /// The request carried no refresh token.
    NoTokenProvided,
    /// The refresh token did not pass.
    Validation(ValidationError),
    /// The new tokens could not be signed.
    Issuance(IssuanceFailure),
    /// The reply could not be written.
    ReplyNotWritten,
}

/// The event that an exchange is counted as.
#[derive(Clone, Copy, Debug, PartialEq, Eq, Structural)]
pub enum CountedEvent {
    Allow,
    Deny(DenyReason),
}

/// What the caller is sent.
#[derive(Clone, Debug, PartialEq, Eq)]
pub struct Reply {
    pub status: u16,
    pub body: String,
}

/// How an exchange ended: the reply, and the event to count.
#[derive(Clone, Debug, PartialEq, Eq)]
pub struct Outcome {
    pub reply: Reply,
    pub event: CountedEvent,
}

/// An outcome as values.
pub ghost struct OutcomeView {
    pub status: u16,
    pub body: Seq<char>,
    pub event: CountedEvent,
}

impl View for Outcome {
    type V = OutcomeView;

    open spec fn view(&self) -> OutcomeView {
        OutcomeView { status: self.reply.status, body: self.reply.body@, event: self.event }
    }
}

/// The outcome of an exchange that is turned away for the given reason.
pub open spec fn denied(reason: DenyReason) -> OutcomeView {
    OutcomeView {
        status: STATUS_UNAUTHORIZED,
        body: if reason == DenyReason::NoTokenProvided {
            NO_TOKEN_BODY@
        } else {
            REJECTED_BODY@
        },
        event: CountedEvent::Deny(reason),
    }
}

/// The outcome of an exchange that hands out tokens.
pub open spec fn allowed(body: Seq<char>) -> OutcomeView {
    OutcomeView { status: STATUS_OK, body, event: CountedEvent::Allow }
}

/// The members of the reply that carries tokens.
pub open spec fn payload_members(user_id: Seq<char>, pair: TokenPairView, refresh_expires_in: int) -> Map<Seq<char>, Member> {
    Map::<Seq<char>, Member>::empty()
        .insert("user_id"@, Member::Text(user_id))
        .insert("auth_token"@, Member::Text(pair.access_token))
        .insert("refresh_token"@, Member::Text(pair.refresh_token))
        .insert("auth_token_expires_in"@, Member::Integer(ACCESS_TOKEN_LIFETIME as int))
        .insert("refresh_token_expires_in"@, Member::Integer(refresh_expires_in))
}

/// The outcome of an exchange that hands out a token pair: the reply
/// names the user, carries both tokens, and says for how many seconds each
/// is still valid.
pub open spec fn handed_out(user_id: Seq<char>, pair: TokenPairView, refresh_expires_in: int) -> OutcomeView {
    match json_text(payload_members(user_id, pair, refresh_expires_in)) {
        Some(body) => allowed(body),
        None => denied(DenyReason::ReplyNotWritten),
    }
}

/// The outcome for a validated token once the signing key is there, at the
/// time `now`: the tokens minted at `now` are handed out, with the seconds
/// that the refresh token has left at `now`.
pub open spec fn concluded(validated: ValidatedView, key: SigningKeyView, now: int) -> OutcomeView {
    match minted(validated.claims, validated.scope, key, now) {
        Err(e) => denied(DenyReason::Issuance(e)),
        Ok(pair) => handed_out(validated.claims.sub, pair, validated.claims.exp - now),
    }
}

/// Whether the time `now` and the seconds that a token expiring at `exp`
/// has left at `now` are within the range of the timestamps.
pub open spec fn within_clock_range(exp: int, now: int) -> bool {
    &&& now + ACCESS_TOKEN_LIFETIME <= i64::MAX
    &&& i64::MIN <= exp - now <= i64::MAX
}

impl DenyReason {
    /// The reason as text, for the event's tag.
    pub fn tag(&self) -> (text: &'static str)
        ensures
            text@ == reason_tag(*self),
    {
        match self {
            DenyReason::NoTokenProvided => "No refresh token provided",
            DenyReason::Validation(ValidationError::MalformedToken) => "kid missing from jwt header",
            DenyReason::Validation(ValidationError::UnknownKey) => "kid not in jks",
            DenyReason::Validation(ValidationError::InvalidSignatureOrClaims) => "invalid signature or claims",
            DenyReason::Validation(ValidationError::MissingScopeClaim) => "missing access_token_scope claim",
            DenyReason::Issuance(IssuanceFailure::SigningFailed) => "failed to sign tokens",
            DenyReason::ReplyNotWritten => "failed to write reply",
        }
    }
}

/// The text that tags a denial.
pub open spec fn reason_tag(reason: DenyReason) -> Seq<char> {
    match reason {
        DenyReason::NoTokenProvided => "No refresh token provided"@,
        DenyReason::Validation(ValidationError::MalformedToken) => "kid missing from jwt header"@,
        DenyReason::Validation(ValidationError::UnknownKey) => "kid not in jks"@,
        DenyReason::Validation(ValidationError::InvalidSignatureOrClaims) => "invalid signature or claims"@,
        DenyReason::Validation(ValidationError::MissingScopeClaim) => "missing access_token_scope claim"@,
        DenyReason::Issuance(IssuanceFailure::SigningFailed) => "failed to sign tokens"@,
        DenyReason::ReplyNotWritten => "failed to write reply"@,
    }
}

impl Outcome {
    /// Turns a request away.
    pub fn deny(reason: DenyReason) -> (outcome: Outcome)
        ensures
            outcome@ == denied(reason),
    {
        let body = match reason {
            DenyReason::NoTokenProvided => NO_TOKEN_BODY.to_owned(),
            _ => REJECTED_BODY.to_owned(),
        };
        Outcome { reply: Reply { status: STATUS_UNAUTHORIZED, body }, event: CountedEvent::Deny(reason) }
    }

    /// Hands out tokens: the reply names the user, carries both tokens, and
    /// says for how many seconds each is still valid.
    pub fn allow(user_id: &str, pair: &TokenPair, refresh_expires_in: i64) -> (outcome: Outcome)
        ensures
            outcome@ == handed_out(user_id@, pair@, refresh_expires_in as int),
    {
        let mut payload = empty_object();
        put(&mut payload, "user_id", &Scalar::Text(user_id.to_owned()));
        put(&mut payload, "auth_token", &Scalar::Text(pair.access_token.clone()));
        put(&mut payload, "refresh_token", &Scalar::Text(pair.refresh_token.clone()));
        put(&mut payload, "auth_token_expires_in", &Scalar::Integer(ACCESS_TOKEN_LIFETIME));
        put(&mut payload, "refresh_token_expires_in", &Scalar::Integer(refresh_expires_in));
        match to_text(&payload) {
            Ok(body) => Outcome { reply: Reply { status: STATUS_OK, body }, event: CountedEvent::Allow },
            Err(_) => Outcome::deny(DenyReason::ReplyNotWritten),
        }
    }
}

/// An exchange in progress.
#[derive(Clone, Debug, PartialEq, Eq)]
pub enum Exchange {
    /// The token names a key; the issuer's key set is needed to go on.
    AwaitingKeySet { issuer: String, token: String },
    /// The token passed; the signing key is needed to mint its successors.
    AwaitingSigningKey { validated: Validated },
    /// The exchange is over.
    Finished { outcome: Outcome },
}

/// An exchange in progress as values.
pub ghost enum ExchangeView {
    AwaitingKeySet { issuer: Seq<char>, token: Seq<char> },
    AwaitingSigningKey { validated: ValidatedView },
    Finished { outcome: OutcomeView },
}

impl View for Exchange {
    type V = ExchangeView;

    open spec fn view(&self) -> ExchangeView {
        match self {
            Exchange::AwaitingKeySet { issuer, token } => ExchangeView::AwaitingKeySet { issuer: issuer@, token: token@ },
            Exchange::AwaitingSigningKey { validated } => ExchangeView::AwaitingSigningKey { validated: validated@ },
            Exchange::Finished { outcome } => ExchangeView::Finished { outcome: outcome@ },
        }
    }
}

/// What an exchange waits for.
#[derive(Clone, Copy, Debug, PartialEq, Eq, Structural)]
pub enum Pending {
    /// The current key set of the exchange's issuer.
    KeySet,
    /// The service's current signing key.
    SigningKey,
    /// Nothing: the outcome is there.
    Nothing,
}

/// How an exchange starts: a request without a token is turned away, and so
/// is one whose token names no key; any other waits for the issuer's keys.
pub open spec fn begun(issuer: Seq<char>, refresh_token: Option<Seq<char>>) -> ExchangeView {
    match refresh_token {
        None => ExchangeView::Finished { outcome: denied(DenyReason::NoTokenProvided) },
        Some(token) => match named_key(token) {
            Err(e) => ExchangeView::Finished { outcome: denied(DenyReason::Validation(e)) },
            Ok(_) => ExchangeView::AwaitingKeySet { issuer, token },
        },
    }
}

/// What an exchange waits for.
pub open spec fn awaited(exchange: ExchangeView) -> Pending {
    match exchange {
        ExchangeView::AwaitingKeySet { .. } => Pending::KeySet,
        ExchangeView::AwaitingSigningKey { .. } => Pending::SigningKey,
        ExchangeView::Finished { .. } => Pending::Nothing,
    }
}

/// How an exchange goes on after validation: a token that passed waits for
/// the signing key, any other is turned away for the reason found.
pub open spec fn after_validation(r: Result<ValidatedView, ValidationError>) -> ExchangeView {
    match r {
        Ok(validated) => ExchangeView::AwaitingSigningKey { validated },
        Err(e) => ExchangeView::Finished { outcome: denied(DenyReason::Validation(e)) },
    }
}

/// Whether `next` may follow `before` once the issuer's keys are there: an
/// exchange that waits for them goes on as some validation of its token
/// against these keys allows, any other stays as it is.
pub open spec fn key_set_step(before: ExchangeView, keys: Map<Seq<char>, RsaView>, next: ExchangeView) -> bool {
    match before {
        ExchangeView::AwaitingKeySet { issuer, token } => exists|r: Result<ValidatedView, ValidationError>|
            validation_allows(issuer, token, keys, r) && next == #[trigger] after_validation(r),
        other => next == other,
    }
}

/// Whether tokens can be minted at `now` for this exchange without leaving
/// the range of the timestamps. Only an exchange that waits for the signing
/// key mints anything.
pub open spec fn clock_allows(exchange: ExchangeView, now: int) -> bool {
    match exchange {
        ExchangeView::AwaitingSigningKey { validated } => within_clock_range(validated.claims.exp, now),
        _ => true,
    }
}

/// What follows once the signing key is there, at the time `now`: an
/// exchange that waits for it is over, any other stays as it is.
pub open spec fn signing_key_step(before: ExchangeView, key: SigningKeyView, now: int) -> ExchangeView {
    match before {
        ExchangeView::AwaitingSigningKey { validated } => ExchangeView::Finished { outcome: concluded(validated, key, now) },
        other => other,
    }
}

/// Whether `r` may come of `before` once the signing key is there, at
/// whatever time the clock shows: the step for a time that the clock
/// allows, or the exchange handed back as it was, which it is only if it
/// waits for the signing key.
pub open spec fn signing_key_step_by_the_clock(
    before: ExchangeView,
    key: SigningKeyView,
    r: Result<ExchangeView, ExchangeView>,
) -> bool {
    match r {
        Ok(next) => exists|now: int| clock_allows(before, now) && next == #[trigger] signing_key_step(before, key, now),
        Err(same) => same == before && before is AwaitingSigningKey,
    }
}

/// The view of a step that may hand the exchange back.
pub open spec fn step_view(r: Result<Exchange, Exchange>) -> Result<ExchangeView, ExchangeView> {
    match r {
        Ok(next) => Ok(next@),
        Err(same) => Err(same@),
    }
}

/// The outcome of an exchange that is over.
pub open spec fn outcome_of(exchange: ExchangeView) -> Option<OutcomeView> {
    match exchange {
        ExchangeView::Finished { outcome } => Some(outcome),
        _ => None,
    }
}

/// The view of an outcome that may not be there yet.
pub open spec fn outcome_view(outcome: Option<&Outcome>) -> Option<OutcomeView> {
    match outcome {
        Some(o) => Some(o@),
        None => None,
    }
}

impl Exchange {
    /// Starts an exchange for the refresh token of a request, if it
    /// carried one.
    pub fn begin(issuer: &str, refresh_token: Option<&str>) -> (exchange: Exchange)
        ensures
            exchange@ == begun(issuer@, slice_view(refresh_token)),
    {
        match refresh_token {
            None => Exchange::Finished { outcome: Outcome::deny(DenyReason::NoTokenProvided) },
            Some(token) => match key_id_of(token) {
                Err(e) => Exchange::Finished { outcome: Outcome::deny(DenyReason::Validation(e)) },
                Ok(_) => Exchange::AwaitingKeySet { issuer: issuer.to_owned(), token: token.to_owned() },
            },
        }
    }

    /// What the exchange waits for.
    pub fn pending(&self) -> (pending: Pending)
        ensures
            pending == awaited(self@),
    {
        match self {
            Exchange::AwaitingKeySet { .. } => Pending::KeySet,
            Exchange::AwaitingSigningKey { .. } => Pending::SigningKey,
            Exchange::Finished { .. } => Pending::Nothing,
        }
    }

    /// Goes on with the issuer's key set: the token is validated against it.
    /// An exchange that does not wait for a key set stays as it is.
    ///
    /// A token that names a key which the set lacks ends the exchange with
    /// `UnknownKey`. For any other token the signature check decides; then
    /// the exchange either waits for the signing key, with a token that
    /// passes for this issuer, or is denied for its signature, its claims
    /// or its missing scope.
    pub fn key_set_arrived(self, keys: &KeySet) -> (next: Exchange)
        ensures
            key_set_step(self@, keys@, next@),
    {
        match self {
            Exchange::AwaitingKeySet { issuer, token } => {
                let r = validate(issuer.as_str(), token.as_str(), keys);
                proof {
                    assert(validation_allows(issuer@, token@, keys@, validation_view(r)));
                }
                match r {
                    Ok(validated) => {
                        proof {
                            assert(after_validation(validation_view(r)) == (ExchangeView::AwaitingSigningKey {
                                validated: validated@,
                            }));
                        }
                        Exchange::AwaitingSigningKey { validated }
                    },
                    Err(e) => {
                        proof {
                            assert(after_validation(validation_view(r)) == (ExchangeView::Finished {
                                outcome: denied(DenyReason::Validation(e)),
                            }));
                        }
                        Exchange::Finished { outcome: Outcome::deny(DenyReason::Validation(e)) }
                    },
                }
            },
            other => other,
        }
    }

    /// Goes on with the signing key, at the time `now` in seconds since the
    /// epoch: the new tokens are minted and the exchange is over. An
    /// exchange that does not wait for a signing key stays as it is.
    pub fn signing_key_arrived(self, key: &SigningKeyMaterial, now: i64) -> (next: Exchange)
        requires
            clock_allows(self@, now as int),
        ensures
            next@ == signing_key_step(self@, key@, now as int),
    {
        match self {
            Exchange::AwaitingSigningKey { validated } => {
                let outcome = match issue(&validated.claims, validated.scope.as_str(), key, now) {
                    Err(e) => Outcome::deny(DenyReason::Issuance(e)),
                    Ok(pair) => Outcome::allow(validated.claims.sub.as_str(), &pair, validated.claims.exp - now),
                };
                Exchange::Finished { outcome }
            },
            other => other,
        }
    }

    /// Goes on with the signing key at the time that the system clock
    /// shows. Where the clock shows a time at which no tokens can be minted
    /// within the range of the timestamps, the exchange is handed back as
    /// it was.
    pub fn signing_key_arrived_now(self, key: &SigningKeyMaterial) -> (r: Result<Exchange, Exchange>)
        ensures
            signing_key_step_by_the_clock(self@, key@, step_view(r)),
    {
        let now: i64 = unix_now();
        let in_range: bool = match &self {
            Exchange::AwaitingSigningKey { validated } => {
                now <= i64::MAX - ACCESS_TOKEN_LIFETIME
                && (if now >= 0 {
                    validated.claims.exp >= i64::MIN + now
                } else {
                    validated.claims.exp <= i64::MAX + now
                })
            },
            _ => true,
        };
        if in_range {
            Ok(self.signing_key_arrived(key, now))
        } else {
            Err(self)
        }
    }

    /// The outcome, once the exchange is over.
    pub fn outcome(&self) -> (outcome: Option<&Outcome>)
        ensures
            outcome_view(outcome) == outcome_of(self@),
    {
        match self {
            Exchange::Finished { outcome } => Some(outcome),
            _ => None,
        }
    }
}

/// An exchange whose token names a key that the issuer's current set lacks
/// ends there, denied for the unknown key, whatever the set holds and
/// whatever the token's signature would match.
pub proof fn lemma_unknown_key_ends_the_exchange(
    issuer: Seq<char>,
    token: Seq<char>,
    key_id: Seq<char>,
    keys: Map<Seq<char>, RsaView>,
    next: ExchangeView,
)
    requires
        named_key(token) == Ok::<Seq<char>, ValidationError>(key_id),
        !keys.contains_key(key_id),
        key_set_step(ExchangeView::AwaitingKeySet { issuer, token }, keys, next),
    ensures
        next == (ExchangeView::Finished { outcome: denied(DenyReason::Validation(ValidationError::UnknownKey)) }),
{
}

/// The caller is never told why: every exchange that is turned away ends
/// with the status for a denial and one of two fixed bodies, and which of
/// the two says no more than whether a token was presented at all.
pub proof fn lemma_denials_do_not_say_why(reason: DenyReason)
    ensures
        denied(reason).status == STATUS_UNAUTHORIZED,
        denied(reason).event == CountedEvent::Deny(reason),
        reason == DenyReason::NoTokenProvided ==> denied(reason).body == NO_TOKEN_BODY@,
        reason != DenyReason::NoTokenProvided ==> denied(reason).body == REJECTED_BODY@,
{
}

/// Every exchange ends, in two steps at most: the issuer's keys bring it to
/// its end or to waiting for the signing key, and the signing key brings
/// it to its end.
pub proof fn lemma_two_steps_end_an_exchange(
    before: ExchangeView,
    keys: Map<Seq<char>, RsaView>,
    between: ExchangeView,
    key: SigningKeyView,
    now: int,
)
    requires
        key_set_step(before, keys, between),
    ensures
        awaited(between) != Pending::KeySet,
        awaited(signing_key_step(between, key, now)) == Pending::Nothing,
{
}

} // verus!
