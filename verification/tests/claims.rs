use serde_json::Value;
use token_exchange::claims::{
    IncomingClaims, OutgoingClaims, ACCESS_TOKEN_LIFETIME, REFRESH_AUDIENCE, REFRESH_SCOPE, SERVICE_AUDIENCE,
};
use token_exchange::error::ValidationError;
use token_exchange::validator::{accept_claims, Validated};

fn presented() -> IncomingClaims {
    IncomingClaims {
        sub: "u1".to_string(),
        iss: "https://issuer.example".to_string(),
        kid: "issuer-key".to_string(),
        aud: "refresh".to_string(),
        scope: "refresh".to_string(),
        access_token_scope: Some("read write".to_string()),
        iat: 1_700_000_000,
        nbf: 1_700_000_000,
        exp: 1_700_086_400,
    }
}

fn object_of(claims: &IncomingClaims) -> serde_json::Map<String, Value> {
    let mut object = serde_json::Map::new();
    object.insert("sub".to_string(), Value::from(claims.sub.clone()));
    object.insert("iss".to_string(), Value::from(claims.iss.clone()));
    object.insert("kid".to_string(), Value::from(claims.kid.clone()));
    object.insert("aud".to_string(), Value::from(claims.aud.clone()));
    object.insert("scope".to_string(), Value::from(claims.scope.clone()));
    object.insert("access_token_scope".to_string(), Value::from(claims.access_token_scope.clone()));
    object.insert("iat".to_string(), Value::from(claims.iat));
    object.insert("nbf".to_string(), Value::from(claims.nbf));
    object.insert("exp".to_string(), Value::from(claims.exp));
    object
}

#[test]
fn constants_are_those_of_the_service() {
    assert_eq!(REFRESH_AUDIENCE, "refresh");
    assert_eq!(REFRESH_SCOPE, "refresh");
    assert_eq!(SERVICE_AUDIENCE, "gamebackend");
    assert_eq!(ACCESS_TOKEN_LIFETIME, 900);
    assert_ne!(REFRESH_AUDIENCE, SERVICE_AUDIENCE);
}

#[test]
fn refresh_claims_keep_the_expiry_of_the_presented_token() {
    let claims = OutgoingClaims::refresh(&presented(), "read write", "service-key-1", 1_700_000_500);
    assert_eq!(
        claims,
        OutgoingClaims {
            sub: "u1".to_string(),
            iss: "https://issuer.example".to_string(),
            kid: "service-key-1".to_string(),
            aud: "refresh".to_string(),
            scope: "refresh".to_string(),
            access_token_scope: Some("read write".to_string()),
            iat: 1_700_000_500,
            nbf: 1_700_000_500,
            exp: 1_700_086_400,
        }
    );
}

#[test]
fn refresh_claims_keep_an_expiry_that_has_passed() {
    let mut old = presented();
    old.exp = -5;
    let claims = OutgoingClaims::refresh(&old, "", "k", i64::MAX);
    assert_eq!(claims.exp, -5);
    assert_eq!(claims.iat, i64::MAX);
    assert_eq!(claims.nbf, i64::MAX);
    assert_eq!(claims.access_token_scope, Some(String::new()));
}

#[test]
fn access_claims_expire_a_fixed_time_after_issuance() {
    let claims = OutgoingClaims::access(&presented(), "read write", "service-key-1", 1_700_000_500);
    assert_eq!(
        claims,
        OutgoingClaims {
            sub: "u1".to_string(),
            iss: "https://issuer.example".to_string(),
            kid: "service-key-1".to_string(),
            aud: "gamebackend".to_string(),
            scope: "read write".to_string(),
            access_token_scope: None,
            iat: 1_700_000_500,
            nbf: 1_700_000_500,
            exp: 1_700_001_400,
        }
    );
}

#[test]
fn access_claims_do_not_depend_on_what_the_refresh_token_has_left() {
    let mut nearly_over = presented();
    nearly_over.exp = 1_700_000_501;
    let mut long_lived = presented();
    long_lived.exp = i64::MAX;
    let a = OutgoingClaims::access(&nearly_over, "s", "k", 1_700_000_500);
    let b = OutgoingClaims::access(&long_lived, "s", "k", 1_700_000_500);
    assert_eq!(a.exp, 1_700_001_400);
    assert_eq!(a, b);
}

#[test]
fn access_claims_at_the_edges_of_the_clock() {
    assert_eq!(OutgoingClaims::access(&presented(), "s", "k", 0).exp, 900);
    assert_eq!(OutgoingClaims::access(&presented(), "s", "k", -900).exp, 0);
    assert_eq!(OutgoingClaims::access(&presented(), "s", "k", i64::MIN).exp, i64::MIN + 900);
    assert_eq!(OutgoingClaims::access(&presented(), "s", "k", i64::MAX - 900).exp, i64::MAX);
}

#[test]
fn claims_are_written_member_by_member() {
    let refresh = OutgoingClaims::refresh(&presented(), "read write", "service-key-1", 1_700_000_500);
    let object = refresh.to_object();
    assert_eq!(object.len(), 9);
    assert_eq!(object.get("sub"), Some(&Value::from("u1")));
    assert_eq!(object.get("iss"), Some(&Value::from("https://issuer.example")));
    assert_eq!(object.get("kid"), Some(&Value::from("service-key-1")));
    assert_eq!(object.get("aud"), Some(&Value::from("refresh")));
    assert_eq!(object.get("scope"), Some(&Value::from("refresh")));
    assert_eq!(object.get("access_token_scope"), Some(&Value::from("read write")));
    assert_eq!(object.get("iat"), Some(&Value::from(1_700_000_500i64)));
    assert_eq!(object.get("nbf"), Some(&Value::from(1_700_000_500i64)));
    assert_eq!(object.get("exp"), Some(&Value::from(1_700_086_400i64)));
}

#[test]
fn absent_scope_is_written_as_null() {
    let access = OutgoingClaims::access(&presented(), "read write", "service-key-1", -1);
    let object = access.to_object();
    assert_eq!(object.len(), 9);
    assert_eq!(object.get("access_token_scope"), Some(&Value::Null));
    assert_eq!(object.get("scope"), Some(&Value::from("read write")));
    assert_eq!(object.get("aud"), Some(&Value::from("gamebackend")));
    assert_eq!(object.get("iat"), Some(&Value::from(-1i64)));
    assert_eq!(object.get("exp"), Some(&Value::from(899i64)));
}

#[test]
fn claims_are_read_back_as_written() {
    let refresh = OutgoingClaims::refresh(&presented(), "read write", "service-key-1", 1_700_000_500);
    let read = IncomingClaims::from_object(&refresh.to_object()).unwrap();
    assert_eq!(read.sub, refresh.sub);
    assert_eq!(read.iss, refresh.iss);
    assert_eq!(read.kid, refresh.kid);
    assert_eq!(read.aud, refresh.aud);
    assert_eq!(read.scope, refresh.scope);
    assert_eq!(read.access_token_scope, refresh.access_token_scope);
    assert_eq!(read.iat, refresh.iat);
    assert_eq!(read.nbf, refresh.nbf);
    assert_eq!(read.exp, refresh.exp);
    let access = OutgoingClaims::access(&presented(), "read write", "service-key-1", 1_700_000_500);
    let read = IncomingClaims::from_object(&access.to_object()).unwrap();
    assert_eq!(read.access_token_scope, None);
    assert_eq!(read.exp, 1_700_001_400);
}

#[test]
fn claims_are_read_from_an_object() {
    assert_eq!(IncomingClaims::from_object(&object_of(&presented())), Some(presented()));
}

#[test]
fn members_of_other_names_are_ignored() {
    let mut object = object_of(&presented());
    object.insert("jti".to_string(), Value::from("abc"));
    object.insert("nested".to_string(), Value::Object(serde_json::Map::new()));
    assert_eq!(IncomingClaims::from_object(&object), Some(presented()));
}

#[test]
fn scope_may_be_left_out_or_null() {
    let mut without = presented();
    without.access_token_scope = None;
    let mut object = object_of(&presented());
    object.remove("access_token_scope");
    assert_eq!(IncomingClaims::from_object(&object), Some(without.clone()));
    object.insert("access_token_scope".to_string(), Value::Null);
    assert_eq!(IncomingClaims::from_object(&object), Some(without));
}

#[test]
fn scope_of_another_type_is_not_read() {
    let mut object = object_of(&presented());
    object.insert("access_token_scope".to_string(), Value::from(5));
    assert_eq!(IncomingClaims::from_object(&object), None);
    object.insert("access_token_scope".to_string(), Value::from(true));
    assert_eq!(IncomingClaims::from_object(&object), None);
    object.insert("access_token_scope".to_string(), Value::Array(vec![Value::from("read")]));
    assert_eq!(IncomingClaims::from_object(&object), None);
}

#[test]
fn every_other_claim_is_required() {
    for name in ["sub", "iss", "kid", "aud", "scope", "iat", "nbf", "exp"] {
        let mut object = object_of(&presented());
        object.remove(name);
        assert_eq!(IncomingClaims::from_object(&object), None, "without {name}");
        object.insert(name.to_string(), Value::Null);
        assert_eq!(IncomingClaims::from_object(&object), None, "with {name} null");
    }
    assert_eq!(IncomingClaims::from_object(&serde_json::Map::new()), None);
}

#[test]
fn claims_of_the_wrong_type_are_not_read() {
    for name in ["sub", "iss", "kid", "aud", "scope"] {
        let mut object = object_of(&presented());
        object.insert(name.to_string(), Value::from(1));
        assert_eq!(IncomingClaims::from_object(&object), None, "{name} as a number");
        object.insert(name.to_string(), Value::Array(vec![Value::from("refresh")]));
        assert_eq!(IncomingClaims::from_object(&object), None, "{name} as an array");
    }
    for name in ["iat", "nbf", "exp"] {
        let mut object = object_of(&presented());
        object.insert(name.to_string(), Value::from("1700000000"));
        assert_eq!(IncomingClaims::from_object(&object), None, "{name} as a string");
        object.insert(name.to_string(), Value::from(1.5));
        assert_eq!(IncomingClaims::from_object(&object), None, "{name} as a fraction");
        object.insert(name.to_string(), Value::from(1700000000.0));
        assert_eq!(IncomingClaims::from_object(&object), None, "{name} as a float");
        object.insert(name.to_string(), Value::from(u64::MAX));
        assert_eq!(IncomingClaims::from_object(&object), None, "{name} beyond i64");
    }
}

#[test]
fn times_may_be_any_i64() {
    let mut claims = presented();
    claims.iat = i64::MIN;
    claims.nbf = -1;
    claims.exp = i64::MAX;
    assert_eq!(IncomingClaims::from_object(&object_of(&claims)), Some(claims));
}

#[test]
fn claims_for_refreshing_from_the_issuer_are_accepted() {
    let accepted = accept_claims("https://issuer.example", &object_of(&presented()));
    assert_eq!(accepted, Ok(Validated { claims: presented(), scope: "read write".to_string() }));
}

#[test]
fn claims_for_another_audience_are_rejected() {
    let mut claims = presented();
    claims.aud = "gamebackend".to_string();
    assert_eq!(
        accept_claims("https://issuer.example", &object_of(&claims)),
        Err(ValidationError::InvalidSignatureOrClaims)
    );
    claims.aud = "Refresh".to_string();
    assert_eq!(
        accept_claims("https://issuer.example", &object_of(&claims)),
        Err(ValidationError::InvalidSignatureOrClaims)
    );
    claims.aud = String::new();
    assert_eq!(
        accept_claims("https://issuer.example", &object_of(&claims)),
        Err(ValidationError::InvalidSignatureOrClaims)
    );
}

#[test]
fn claims_from_another_issuer_are_rejected() {
    assert_eq!(
        accept_claims("https://other.example", &object_of(&presented())),
        Err(ValidationError::InvalidSignatureOrClaims)
    );
    assert_eq!(
        accept_claims("https://issuer.example/", &object_of(&presented())),
        Err(ValidationError::InvalidSignatureOrClaims)
    );
}

#[test]
fn claims_without_a_scope_for_access_tokens_are_rejected() {
    let mut claims = presented();
    claims.access_token_scope = None;
    assert_eq!(
        accept_claims("https://issuer.example", &object_of(&claims)),
        Err(ValidationError::MissingScopeClaim)
    );
}

#[test]
fn wrong_audience_is_reported_before_a_missing_scope() {
    let mut claims = presented();
    claims.access_token_scope = None;
    claims.aud = "gamebackend".to_string();
    assert_eq!(
        accept_claims("https://issuer.example", &object_of(&claims)),
        Err(ValidationError::InvalidSignatureOrClaims)
    );
}

#[test]
fn claims_that_lack_a_member_are_rejected() {
    let mut object = object_of(&presented());
    object.remove("kid");
    assert_eq!(
        accept_claims("https://issuer.example", &object),
        Err(ValidationError::InvalidSignatureOrClaims)
    );
}

#[test]
fn rotated_claims_are_accepted_again() {
    let rotated = OutgoingClaims::refresh(&presented(), "read write", "service-key-1", 1_700_000_500);
    let accepted = accept_claims("https://issuer.example", &rotated.to_object()).unwrap();
    assert_eq!(accepted.scope, "read write");
    assert_eq!(accepted.claims.exp, 1_700_086_400);
    assert_eq!(accepted.claims.kid, "service-key-1");
}

#[test]
fn access_claims_are_not_accepted_for_refreshing() {
    let access = OutgoingClaims::access(&presented(), "read write", "service-key-1", 1_700_000_500);
    assert_eq!(
        accept_claims("https://issuer.example", &access.to_object()),
        Err(ValidationError::InvalidSignatureOrClaims)
    );
}
