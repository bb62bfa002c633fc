use paseto_auth::models::dto::auth::PasetoVerifiedData;
use paseto_auth::models::entities::auth::{PayloadClaim, User, UserData};
use paseto_auth::service::claims::{parse_payload_claim, verified_data_from_payload};
use paseto_auth::service::error::AuthError;

const PAYLOAD: &str = "{\"user_data\":{\"user\":{\"user_id\":42,\"username\":\"ana\",\"role\":\"admin\"}},\"nbf\":\"2023-11-14T22:13:20Z\",\"exp\":\"2023-11-15T10:13:20+00:00\",\"iat\":\"2023-11-14T22:13:20Z\"}";

fn ana() -> User {
    User::new(42, "ana".to_string(), "admin".to_string())
}

#[test]
fn payload_is_read_as_a_claim_set() {
    let claim = parse_payload_claim(PAYLOAD).unwrap();
    assert_eq!(
        claim,
        PayloadClaim {
            user_data: UserData { user: ana() },
            nbf: "2023-11-14T22:13:20Z".to_string(),
            exp: "2023-11-15T10:13:20+00:00".to_string(),
            iat: "2023-11-14T22:13:20Z".to_string(),
        }
    );
}

#[test]
fn payload_gives_the_verified_identity() {
    assert_eq!(verified_data_from_payload(PAYLOAD), Ok(PasetoVerifiedData::new(ana(), true)));
}

#[test]
fn payload_may_hold_more_than_is_read() {
    let text = "{\"extra\":[1,2.5,null,true],\"user_data\":{\"more\":{},\"user\":{\"user_id\":0,\"username\":\"\",\"role\":\"\",\"age\":-3}},\"nbf\":\"a\",\"exp\":\"b\",\"iat\":\"c\"}";
    let claim = parse_payload_claim(text).unwrap();
    assert_eq!(claim.user_data.user, User::default());
    assert_eq!((claim.nbf.as_str(), claim.exp.as_str(), claim.iat.as_str()), ("a", "b", "c"));
}

#[test]
fn payload_keeps_the_largest_user_id() {
    let text = PAYLOAD.replace("42", "18446744073709551615");
    assert_eq!(parse_payload_claim(&text).unwrap().user_data.user.user_id, u64::MAX);
}

#[test]
fn payload_with_unescaped_text() {
    let text = PAYLOAD.replace("ana", "a\\\"n\\u00e9\\n");
    assert_eq!(parse_payload_claim(&text).unwrap().user_data.user.username, "a\"n\u{e9}\n");
}

#[test]
fn payload_without_a_claim_is_malformed() {
    for name in ["user_data", "user", "user_id", "username", "role", "nbf", "exp", "iat"] {
        let text = PAYLOAD.replacen(&format!("\"{}\"", name), "\"other\"", 1);
        assert_eq!(parse_payload_claim(&text), None, "{}", name);
        assert_eq!(verified_data_from_payload(&text), Err(AuthError::MalformedPayload), "{}", name);
    }
}

#[test]
fn payload_with_a_claim_of_the_wrong_kind_is_malformed() {
    for (from, to) in [
        ("42", "\"42\""),
        ("42", "-42"),
        ("42", "42.0"),
        ("42", "18446744073709551616"),
        ("42", "null"),
        ("\"ana\"", "7"),
        ("\"admin\"", "[\"admin\"]"),
        ("\"2023-11-15T10:13:20+00:00\"", "1700000000"),
        ("{\"user_id\":42,\"username\":\"ana\",\"role\":\"admin\"}", "\"ana\""),
        ("{\"user\":{\"user_id\":42,\"username\":\"ana\",\"role\":\"admin\"}}", "[]"),
    ] {
        let text = PAYLOAD.replacen(from, to, 1);
        assert_ne!(text, PAYLOAD);
        assert_eq!(verified_data_from_payload(&text), Err(AuthError::MalformedPayload), "{}", to);
    }
}

#[test]
fn payload_that_is_no_json_object_is_malformed() {
    for text in ["", "{", "[]", "null", "\"user_data\"", "42", "{\"user_data\":", "{} {}"] {
        assert_eq!(parse_payload_claim(text), None, "{}", text);
        assert_eq!(verified_data_from_payload(text), Err(AuthError::MalformedPayload), "{}", text);
    }
}
