use stat_api_rs::controllers::graphql::user_id_from_claims;
use stat_api_rs::extractors::refresh_jwt::{jti_from_parsed, refresh_token_claims, ClaimValue, Claims, RefreshJWT};
use stat_api_rs::common::errors::LocoError;
use stat_api_rs::common::ids::parse_uuid;

fn claims(entries: Vec<(&str, ClaimValue)>) -> Claims {
    Claims {
        pid: "11111111-1111-1111-1111-111111111111".to_string(),
        exp: 0,
        claims: entries.into_iter().map(|(k, v)| (k.to_string(), v)).collect(),
    }
}

#[test]
fn parse_uuid_reads_texts() {
    let u = uuid::Uuid::new_v4();
    assert_eq!(parse_uuid(&u.to_string()).ok(), Some(u.as_u128()));
    assert_eq!(parse_uuid(&u.simple().to_string()).ok(), Some(u.as_u128()));
    assert!(parse_uuid("not a uuid").is_err());
}

#[test]
fn jti_is_read_from_claims() {
    let u = uuid::Uuid::new_v4();
    let jwt = RefreshJWT { claims: claims(vec![("jti", ClaimValue::Str(u.to_string()))]) };
    assert_eq!(jwt.extract_jti().ok(), Some(u.as_u128()));
}

#[test]
fn jti_errors() {
    let missing = RefreshJWT { claims: claims(vec![]) };
    assert!(matches!(missing.extract_jti(), Err(LocoError::BadRequest(m)) if m == "Invalid refresh token"));
    let number = RefreshJWT { claims: claims(vec![("jti", ClaimValue::Int(5))]) };
    assert!(matches!(number.extract_jti(), Err(LocoError::BadRequest(m)) if m == "Invalid refresh token"));
    let bad = RefreshJWT { claims: claims(vec![("jti", ClaimValue::Str("xyz".to_string()))]) };
    let expected = format!("Not valid jti: {}", uuid::Uuid::parse_str("xyz").unwrap_err());
    assert!(matches!(bad.extract_jti(), Err(LocoError::BadRequest(m)) if m == expected));
    assert!(matches!(jti_from_parsed(Err("e".to_string())), Err(LocoError::BadRequest(m)) if m == "Not valid jti: e"));
    assert_eq!(jti_from_parsed(Ok(7)).ok(), Some(7));
}

#[test]
fn later_claim_hides_earlier() {
    let c = claims(vec![("id", ClaimValue::Int(1)), ("id", ClaimValue::Int(2))]);
    assert!(matches!(c.get("id"), Some(ClaimValue::Int(2))));
    assert!(c.get("other").is_none());
}

#[test]
fn user_id_claim() {
    assert_eq!(user_id_from_claims(&claims(vec![("id", ClaimValue::Int(12))])), Ok(12));
    assert_eq!(user_id_from_claims(&claims(vec![])), Err((500, "Invalid token")));
    assert_eq!(
        user_id_from_claims(&claims(vec![("id", ClaimValue::Str("12".to_string()))])),
        Err((500, "Invalid token"))
    );
    assert_eq!(user_id_from_claims(&claims(vec![("id", ClaimValue::Other)])), Err((500, "Invalid token")));
}

#[test]
fn issued_refresh_claims_give_back_their_jti() {
    let jti = 0x67e5_5044_10b1_426f_9247_bb68_0e5f_e0c8u128;
    let issued = refresh_token_claims(jti);
    assert_eq!(issued.len(), 1);
    assert_eq!(issued[0].0, "jti");
    match &issued[0].1 {
        ClaimValue::Str(text) => assert_eq!(text, "67e55044-10b1-426f-9247-bb680e5fe0c8"),
        _ => panic!("the jti claim is a text"),
    }
    let jwt = RefreshJWT { claims: Claims { pid: "p".to_string(), exp: 0, claims: issued } };
    assert_eq!(jwt.extract_jti().ok(), Some(jti));
    assert_eq!(parse_uuid("67E55044-10B1-426F-9247-BB680E5FE0C8").ok(), Some(jti));
}
