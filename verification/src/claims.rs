//! The claims of a token: what a presented refresh token says, and what the
//! two tokens minted from it say.

use vstd::prelude::*;
use crate::json::{all_scalar, empty_object, get, members, put, Field, JsonObject, Member, Scalar};
use crate::text::text_view;

verus! {

/// The audience of every refresh token.
pub const REFRESH_AUDIENCE: &'static str = "refresh";

/// The audience of every access token: the service that the tokens are for.
pub const SERVICE_AUDIENCE: &'static str = "gamebackend";

/// The scope claim of every refresh token.
pub const REFRESH_SCOPE: &'static str = "refresh";

/// The seconds for which an access token is valid.
pub const ACCESS_TOKEN_LIFETIME: i64 = 900;

/// The claims of a token as values. Times are seconds since the epoch.
pub ghost struct ClaimsView {
    pub sub: Seq<char>,
    pub iss: Seq<char>,
    pub kid: Seq<char>,
    pub aud: Seq<char>,
    pub scope: Seq<char>,
    pub access_token_scope: Option<Seq<char>>,
    pub iat: int,
    pub nbf: int,
    pub exp: int,
}

/// The claims of a presented refresh token.
#[derive(Clone, Debug, PartialEq, Eq)]
pub struct IncomingClaims {
    pub sub: String,
    pub iss: String,
    pub kid: String,
    pub aud: String,
    pub scope: String,
    pub access_token_scope: Option<String>,
    pub iat: i64,
    pub nbf: i64,
    pub exp: i64,
}

/// The claims of a token that is about to be signed.
#[derive(Clone, Debug, PartialEq, Eq)]
pub struct OutgoingClaims {
    pub sub: String,
    pub iss: String,
    pub kid: String,
    pub aud: String,
    pub scope: String,
    pub access_token_scope: Option<String>,
    pub iat: i64,
    pub nbf: i64,
    pub exp: i64,
}

impl View for IncomingClaims {
    type V = ClaimsView;

    open spec fn view(&self) -> ClaimsView {
        ClaimsView {
            sub: self.sub@,
            iss: self.iss@,
            kid: self.kid@,
            aud: self.aud@,
            scope: self.scope@,
            access_token_scope: text_view(self.access_token_scope),
            iat: self.iat as int,
            nbf: self.nbf as int,
            exp: self.exp as int,
        }
    }
}

impl View for OutgoingClaims {
    type V = ClaimsView;

    open spec fn view(&self) -> ClaimsView {
        ClaimsView {
            sub: self.sub@,
            iss: self.iss@,
            kid: self.kid@,
            aud: self.aud@,
            scope: self.scope@,
            access_token_scope: text_view(self.access_token_scope),
            iat: self.iat as int,
            nbf: self.nbf as int,
            exp: self.exp as int,
        }
    }
}

/// The string member `name`, if there is one.
pub open spec fn text_at(content: Map<Seq<char>, Member>, name: Seq<char>) -> Option<Seq<char>> {
    if content.contains_key(name) && content[name] is Text {
        Some(content[name]->Text_0)
    } else {
        None
    }
}

/// The integer member `name`, if there is one.
pub open spec fn integer_at(content: Map<Seq<char>, Member>, name: Seq<char>) -> Option<int> {
    if content.contains_key(name) && content[name] is Integer {
        Some(content[name]->Integer_0)
    } else {
        None
    }
}

/// The member `name` where it may be left out: `Some(None)` where it is
/// absent or `null`, `Some(Some(..))` where it is a string, `None` where it
/// is anything else.
pub open spec fn optional_text_at(content: Map<Seq<char>, Member>, name: Seq<char>) -> Option<Option<Seq<char>>> {
    if !content.contains_key(name) {
        Some(None)
    } else {
        match content[name] {
            Member::Null => Some(None),
            Member::Text(text) => Some(Some(text)),
            _ => None,
        }
    }
}

/// Whether an object has the shape of claims: the five strings and the three
/// times are there, and the access-token scope, where it is there, is a
/// string or `null`. Members of other names do not matter.
pub open spec fn has_claims_shape(content: Map<Seq<char>, Member>) -> bool {
    &&& text_at(content, "sub"@) is Some
    &&& text_at(content, "iss"@) is Some
    &&& text_at(content, "kid"@) is Some
    &&& text_at(content, "aud"@) is Some
    &&& text_at(content, "scope"@) is Some
    &&& optional_text_at(content, "access_token_scope"@) is Some
    &&& integer_at(content, "iat"@) is Some
    &&& integer_at(content, "nbf"@) is Some
    &&& integer_at(content, "exp"@) is Some
}

/// The claims that an object states, where it has their shape.
pub open spec fn claims_of(content: Map<Seq<char>, Member>) -> Option<ClaimsView> {
    if has_claims_shape(content) {
        Some(
            ClaimsView {
                sub: text_at(content, "sub"@)->0,
                iss: text_at(content, "iss"@)->0,
                kid: text_at(content, "kid"@)->0,
                aud: text_at(content, "aud"@)->0,
                scope: text_at(content, "scope"@)->0,
                access_token_scope: optional_text_at(content, "access_token_scope"@)->0,
                iat: integer_at(content, "iat"@)->0,
                nbf: integer_at(content, "nbf"@)->0,
                exp: integer_at(content, "exp"@)->0,
            },
        )
    } else {
        None
    }
}

/// How an optional string is written: `null` where it is absent.
pub open spec fn optional_member(text: Option<Seq<char>>) -> Member {
    match text {
        Some(t) => Member::Text(t),
        None => Member::Null,
    }
}

/// The object that states the given claims.
pub open spec fn claims_members(claims: ClaimsView) -> Map<Seq<char>, Member> {
    Map::<Seq<char>, Member>::empty()
        .insert("sub"@, Member::Text(claims.sub))
        .insert("iss"@, Member::Text(claims.iss))
        .insert("kid"@, Member::Text(claims.kid))
        .insert("aud"@, Member::Text(claims.aud))
        .insert("scope"@, Member::Text(claims.scope))
        .insert("access_token_scope"@, optional_member(claims.access_token_scope))
        .insert("iat"@, Member::Integer(claims.iat))
        .insert("nbf"@, Member::Integer(claims.nbf))
        .insert("exp"@, Member::Integer(claims.exp))
}

/// The claims of the rotated refresh token: for refreshing only, carrying
/// the scope that access tokens are to have, and expiring when the
/// presented token would have.
pub open spec fn refresh_claims(presented: ClaimsView, scope: Seq<char>, key_id: Seq<char>, now: int) -> ClaimsView {
    ClaimsView {
        sub: presented.sub,
        iss: presented.iss,
        kid: key_id,
        aud: REFRESH_AUDIENCE@,
        scope: REFRESH_SCOPE@,
        access_token_scope: Some(scope),
        iat: now,
        nbf: now,
        exp: presented.exp,
    }
}

/// The claims of the access token: for the service, with the given scope,
/// valid for [`ACCESS_TOKEN_LIFETIME`] seconds from `now`.
pub open spec fn access_claims(presented: ClaimsView, scope: Seq<char>, key_id: Seq<char>, now: int) -> ClaimsView {
    ClaimsView {
        sub: presented.sub,
        iss: presented.iss,
        kid: key_id,
        aud: SERVICE_AUDIENCE@,
        scope: scope,
        access_token_scope: None,
        iat: now,
        nbf: now,
        exp: now + ACCESS_TOKEN_LIFETIME,
    }
}

fn text_member(object: &JsonObject, name: &str) -> (text: Option<String>)
    ensures
        text_view(text) == text_at(members(*object), name@),
{
    match get(object, name) {
        Some(Field::Text(text)) => Some(text),
        _ => None,
    }
}

fn integer_member(object: &JsonObject, name: &str) -> (number: Option<i64>)
    ensures
        match number {
            Some(i) => integer_at(members(*object), name@) == Some(i as int),
            None => integer_at(members(*object), name@) is None,
        },
{
    match get(object, name) {
        Some(Field::Number(Some(i))) => Some(i),
        _ => None,
    }
}

fn optional_text_member(object: &JsonObject, name: &str) -> (text: Option<Option<String>>)
    ensures
        match text {
            Some(inner) => optional_text_at(members(*object), name@) == Some(text_view(inner)),
            None => optional_text_at(members(*object), name@) is None,
        },
{
    match get(object, name) {
        None => Some(None),
        Some(Field::Null) => Some(None),
        Some(Field::Text(text)) => Some(Some(text)),
        Some(_) => None,
    }
}

/// The view of claims that may be missing.
pub open spec fn incoming_view(claims: Option<IncomingClaims>) -> Option<ClaimsView> {
    match claims {
        Some(c) => Some(c@),
        None => None,
    }
}

impl IncomingClaims {
    /// Reads claims from a JSON object. Gives `None` where a claim is
    /// missing or is not of its type; only the access-token scope may be
    /// left out or `null`.
    pub fn from_object(object: &JsonObject) -> (claims: Option<IncomingClaims>)
        ensures
            incoming_view(claims) == claims_of(members(*object)),
    {
        let sub = text_member(object, "sub");
        let iss = text_member(object, "iss");
        let kid = text_member(object, "kid");
        let aud = text_member(object, "aud");
        let scope = text_member(object, "scope");
        let access_token_scope = optional_text_member(object, "access_token_scope");
        let iat = integer_member(object, "iat");
        let nbf = integer_member(object, "nbf");
        let exp = integer_member(object, "exp");
        match (sub, iss, kid, aud, scope, access_token_scope, iat, nbf, exp) {
            (
                Some(sub),
                Some(iss),
                Some(kid),
                Some(aud),
                Some(scope),
                Some(access_token_scope),
                Some(iat),
                Some(nbf),
                Some(exp),
            ) => Some(
                IncomingClaims { sub, iss, kid, aud, scope, access_token_scope, iat, nbf, exp },
            ),
            _ => None,
        }
    }
}

impl OutgoingClaims {
    /// The claims of the refresh token that replaces a presented one.
    pub fn refresh(presented: &IncomingClaims, scope: &str, key_id: &str, now: i64) -> (claims: OutgoingClaims)
        ensures
            claims@ == refresh_claims(presented@, scope@, key_id@, now as int),
    {
        OutgoingClaims {
            sub: presented.sub.clone(),
            iss: presented.iss.clone(),
            kid: key_id.to_owned(),
            aud: REFRESH_AUDIENCE.to_owned(),
            scope: REFRESH_SCOPE.to_owned(),
            access_token_scope: Some(scope.to_owned()),
            iat: now,
            nbf: now,
            exp: presented.exp,
        }
    }

    /// The claims of the access token that goes with a presented refresh
    /// token.
    pub fn access(presented: &IncomingClaims, scope: &str, key_id: &str, now: i64) -> (claims: OutgoingClaims)
        requires
            now + ACCESS_TOKEN_LIFETIME <= i64::MAX,
        ensures
            claims@ == access_claims(presented@, scope@, key_id@, now as int),
    {
        OutgoingClaims {
            sub: presented.sub.clone(),
            iss: presented.iss.clone(),
            kid: key_id.to_owned(),
            aud: SERVICE_AUDIENCE.to_owned(),
            scope: scope.to_owned(),
            access_token_scope: None,
            iat: now,
            nbf: now,
            exp: now + ACCESS_TOKEN_LIFETIME,
        }
    }

    /// Writes the claims as a JSON object, an absent access-token scope as
    /// `null`.
    pub fn to_object(&self) -> (object: JsonObject)
        ensures
            members(object) == claims_members(self@),
            all_scalar(members(object)),
    {
        let mut object = empty_object();
        put(&mut object, "sub", &Scalar::Text(self.sub.clone()));
        put(&mut object, "iss", &Scalar::Text(self.iss.clone()));
        put(&mut object, "kid", &Scalar::Text(self.kid.clone()));
        put(&mut object, "aud", &Scalar::Text(self.aud.clone()));
        put(&mut object, "scope", &Scalar::Text(self.scope.clone()));
        let access_token_scope = match &self.access_token_scope {
            Some(scope) => Scalar::Text(scope.clone()),
            None => Scalar::Null,
        };
        put(&mut object, "access_token_scope", &access_token_scope);
        put(&mut object, "iat", &Scalar::Integer(self.iat));
        put(&mut object, "nbf", &Scalar::Integer(self.nbf));
        put(&mut object, "exp", &Scalar::Integer(self.exp));
        proof {
            lemma_claims_members_scalar(self@);
        }
        object
    }
}

/// An object that states claims holds strings, integers and `null` only.
pub proof fn lemma_claims_members_scalar(claims: ClaimsView)
    ensures
        all_scalar(claims_members(claims)),
{
}

/// The nine claims have nine different names.
proof fn lemma_claim_names_differ()
    ensures
        "sub"@.len() == 3 && "sub"@[0] == 's',
        "iss"@.len() == 3 && "iss"@[0] == 'i' && "iss"@[1] == 's',
        "kid"@.len() == 3 && "kid"@[0] == 'k',
        "aud"@.len() == 3 && "aud"@[0] == 'a',
        "scope"@.len() == 5,
        "access_token_scope"@.len() == 18,
        "iat"@.len() == 3 && "iat"@[0] == 'i' && "iat"@[1] == 'a',
        "nbf"@.len() == 3 && "nbf"@[0] == 'n',
        "exp"@.len() == 3 && "exp"@[0] == 'e',
{
    reveal_strlit("sub");
    reveal_strlit("iss");
    reveal_strlit("kid");
    reveal_strlit("aud");
    reveal_strlit("scope");
    reveal_strlit("access_token_scope");
    reveal_strlit("iat");
    reveal_strlit("nbf");
    reveal_strlit("exp");
}

/// Claims that are written as an object and read back are the same claims.
pub proof fn lemma_claims_survive_writing(claims: ClaimsView)
    ensures
        claims_of(claims_members(claims)) == Some(claims),
{
    lemma_claim_names_differ();
}

/// Rotation does not extend a session: whatever the presented token, the
/// scope, the key and the time, the rotated refresh token states the
/// expiry that the presented token stated, and that is what a reader of
/// its claims finds.
pub proof fn lemma_rotation_keeps_expiry(presented: ClaimsView, scope: Seq<char>, key_id: Seq<char>, now: int)
    ensures
        refresh_claims(presented, scope, key_id, now).exp == presented.exp,
        integer_at(claims_members(refresh_claims(presented, scope, key_id, now)), "exp"@) == Some(presented.exp),
        claims_of(claims_members(refresh_claims(presented, scope, key_id, now))) matches Some(read)
            && read.exp == presented.exp,
{
    lemma_claims_survive_writing(refresh_claims(presented, scope, key_id, now));
}

/// An access token lives for a fixed time: whatever the presented token and
/// however long it has left, the access token minted at `now` states the
/// expiry `now + ACCESS_TOKEN_LIFETIME`, and that is what a reader of its claims finds.
pub proof fn lemma_access_lifetime_is_fixed(presented: ClaimsView, scope: Seq<char>, key_id: Seq<char>, now: int)
    ensures
        access_claims(presented, scope, key_id, now).exp == now + ACCESS_TOKEN_LIFETIME,
        integer_at(claims_members(access_claims(presented, scope, key_id, now)), "exp"@) == Some(now + ACCESS_TOKEN_LIFETIME),
        claims_of(claims_members(access_claims(presented, scope, key_id, now))) matches Some(read)
            && read.exp == now + ACCESS_TOKEN_LIFETIME,
{
    lemma_claims_survive_writing(access_claims(presented, scope, key_id, now));
}

/// The two kinds of token are for different audiences, so neither can
/// stand in for the other.
pub proof fn lemma_audiences_differ(presented: ClaimsView, scope: Seq<char>, key_id: Seq<char>, now: int)
    ensures
        REFRESH_AUDIENCE@ != SERVICE_AUDIENCE@,
        refresh_claims(presented, scope, key_id, now).aud != access_claims(presented, scope, key_id, now).aud,
{
    reveal_strlit("refresh");
    reveal_strlit("gamebackend");
    assert(REFRESH_AUDIENCE@.len() != SERVICE_AUDIENCE@.len());
}

} // verus!
