use paseto_auth::clock::Timestamp;
use paseto_auth::models::dto::auth::{
    PasetoClaimRequest, PasetoClaimResponse, PasetoVerifiedData, PasetoVerifyRequest,
    PasetoVerifyResponse,
};
use paseto_auth::models::entities::auth::{PasetoToken, User};
use paseto_auth::service::error::AuthError;

fn ana() -> User {
    User::new(7, "ana".to_string(), "admin".to_string())
}

#[test]
fn user_new_keeps_its_arguments() {
    let user = ana();
    assert_eq!(user.user_id, 7);
    assert_eq!(user.username, "ana");
    assert_eq!(user.role, "admin");
}

#[test]
fn user_info_names_id_and_role() {
    assert_eq!(ana().user_info(), "ana (ID: 7) with role: admin");
}

#[test]
fn user_info_writes_every_number_in_decimal() {
    for id in [0u64, 9, 10, 11, 99, 100, 101, 1_000_000, 18_446_744_073_709_551_615] {
        let user = User::new(id, "u".to_string(), "r".to_string());
        assert_eq!(user.user_info(), format!("u (ID: {}) with role: r", id));
    }
}

#[test]
fn user_info_of_the_default_user() {
    assert_eq!(User::default(), User::new(0, String::new(), String::new()));
    assert_eq!(User::default().user_info(), " (ID: 0) with role: ");
}

#[test]
fn claim_request_holds_the_user() {
    assert_eq!(PasetoClaimRequest::new(ana()).user, ana());
}

#[test]
fn claim_response_success_carries_the_token() {
    let token = PasetoToken { token: "t".to_string(), expired: "e".to_string() };
    let response = PasetoClaimResponse::success(token.clone());
    assert_eq!(response.message, "Claim successfully created.");
    assert_eq!(response.data, Some(token));
}

#[test]
fn claim_response_failure_carries_no_token() {
    let response = PasetoClaimResponse::failure("nope".to_string());
    assert_eq!(response.message, "nope");
    assert_eq!(response.data, None);
}

#[test]
fn verify_request_holds_token_and_stamp() {
    let request = PasetoVerifyRequest::new("t".to_string(), "e".to_string());
    assert_eq!(request.token, "t");
    assert_eq!(request.expired, "e");
}

#[test]
fn verify_response_success_carries_the_identity() {
    let data = PasetoVerifiedData::new(ana(), true);
    let response = PasetoVerifyResponse::success(data.clone());
    assert_eq!(response.message, "Token successfully verified.");
    assert_eq!(response.data, Some(data));
}

#[test]
fn verify_response_failure_carries_the_empty_identity() {
    let response = PasetoVerifyResponse::failure("nope".to_string());
    assert_eq!(response.message, "nope");
    assert_eq!(response.data, Some(PasetoVerifiedData::new(User::default(), false)));
    assert_eq!(response.data, Some(PasetoVerifiedData::default()));
}

#[test]
fn verified_data_new_keeps_its_arguments() {
    let data = PasetoVerifiedData::new(ana(), false);
    assert_eq!(data.user, ana());
    assert!(!data.token_valid);
}

#[test]
fn token_is_expired_after_twelve_hours() {
    let token = PasetoToken { token: String::new(), expired: "2023-11-14T22:13:20+00:00".to_string() };
    let stamp = 1_700_000_000;
    assert!(!token.is_expired_at(Timestamp::new(stamp - 1, 0)));
    assert!(!token.is_expired_at(Timestamp::new(stamp, 0)));
    assert!(!token.is_expired_at(Timestamp::new(stamp + 3_600 * 2, 0)));
    assert!(!token.is_expired_at(Timestamp::new(stamp + 43_199, 999_999_999)));
    assert!(!token.is_expired_at(Timestamp::new(stamp + 43_200, 0)));
    assert!(token.is_expired_at(Timestamp::new(stamp + 43_200, 1)));
    assert!(token.is_expired_at(Timestamp::new(stamp + 43_201, 0)));
    assert!(token.is_expired_at(Timestamp::new(i64::MAX, 0)));
    assert!(!token.is_expired_at(Timestamp::new(i64::MIN, 0)));
}

#[test]
fn token_stamp_with_offset_and_fraction() {
    let token = PasetoToken { token: String::new(), expired: "2023-11-15T00:13:20.5+02:00".to_string() };
    let stamp = 1_700_000_000;
    assert!(!token.is_expired_at(Timestamp::new(stamp + 43_200, 500_000_000)));
    assert!(token.is_expired_at(Timestamp::new(stamp + 43_200, 500_000_001)));
}

#[test]
fn token_with_unreadable_stamp_is_not_expired() {
    for stamp in ["", "tomorrow", "2023-11-14", "2023-11-14 22:13:20"] {
        let token = PasetoToken { token: String::new(), expired: stamp.to_string() };
        assert!(!token.is_expired_at(Timestamp::new(i64::MAX, 0)), "{}", stamp);
        assert!(!token.is_expired());
    }
}

#[test]
fn token_is_expired_reads_the_clock() {
    let old = PasetoToken { token: String::new(), expired: "2000-01-01T00:00:00Z".to_string() };
    assert!(old.is_expired());
    let far = PasetoToken { token: String::new(), expired: "2900-01-01T00:00:00Z".to_string() };
    assert!(!far.is_expired());
}

#[test]
fn request_is_expired_as_the_token_is() {
    let request = PasetoVerifyRequest::new(String::new(), "2023-11-14T22:13:20+00:00".to_string());
    let stamp = 1_700_000_000;
    assert!(!request.is_expired_at(Timestamp::new(stamp + 43_200, 0)));
    assert!(request.is_expired_at(Timestamp::new(stamp + 43_200, 1)));
    assert!(request.is_expired());
    let unreadable = PasetoVerifyRequest::new(String::new(), "never".to_string());
    assert!(!unreadable.is_expired());
    assert!(!unreadable.is_expired_at(Timestamp::new(i64::MAX, 0)));
}

#[test]
fn error_messages() {
    assert_eq!(AuthError::InvalidKeyMaterial.message(), "invalid secret key length, must 32 bytes");
    assert_eq!(AuthError::TokenExpired.message(), "expired token cannot claimed");
    assert_eq!(AuthError::MalformedToken.message(), "token is not in the expected format");
    assert_eq!(AuthError::VerificationFailed.message(), "token verification failed");
    assert_eq!(AuthError::MalformedPayload.message(), "token payload is not a valid claim set");
    assert_eq!(
        AuthError::EncodingFailure("Key".to_string()).message(),
        "error occur when encrypting token: Key"
    );
}
