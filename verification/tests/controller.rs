use paseto_auth::api::controller::auth_controller::{
    claim_local_token, claim_public_token, local_claim_reply, local_verify_reply,
    public_claim_reply, public_verify_reply, verify_local_token, verify_public_token, Reply,
    STATUS_INTERNAL_SERVER_ERROR, STATUS_OK, STATUS_UNAUTHORIZED,
};
use paseto_auth::models::dto::auth::{
    PasetoClaimRequest, PasetoClaimResponse, PasetoVerifiedData, PasetoVerifyRequest,
    PasetoVerifyResponse,
};
use paseto_auth::models::entities::auth::{PasetoToken, User};
use paseto_auth::service::error::AuthError;
use paseto_auth::service::paseto_service::PasetoService;

fn engine(local_secret: &str) -> PasetoService {
    let seed = ed25519_compact::Seed::new([9u8; 32]);
    let pem = ed25519_compact::KeyPair::from_seed(seed).sk.to_pem();
    PasetoService::new(pem, local_secret.to_string(), "hmac".to_string())
}

fn ana() -> User {
    User::new(42, "ana".to_string(), "admin".to_string())
}

#[test]
fn status_codes() {
    assert_eq!((STATUS_OK, STATUS_UNAUTHORIZED, STATUS_INTERNAL_SERVER_ERROR), (200, 401, 500));
}

#[test]
fn claim_replies_for_a_token() {
    let token = PasetoToken { token: "t".to_string(), expired: "e".to_string() };
    let expected = Reply { status: 200, body: PasetoClaimResponse::success(token.clone()), error: None };
    assert_eq!(local_claim_reply(Ok(token.clone())), expected);
    assert_eq!(public_claim_reply(Ok(token)), expected);
}

#[test]
fn claim_replies_for_a_failure() {
    let error = AuthError::EncodingFailure("Key".to_string());
    let reply = local_claim_reply(Err(error.clone()));
    assert_eq!(reply.status, 500);
    assert_eq!(reply.body, PasetoClaimResponse::failure("unable to claim token".to_string()));
    assert_eq!(reply.error, Some(error.clone()));
    let reply = public_claim_reply(Err(error.clone()));
    assert_eq!(reply.status, 500);
    assert_eq!(reply.body, PasetoClaimResponse::failure("unable to claim public token".to_string()));
    assert_eq!(reply.error, Some(error));
}

#[test]
fn verify_replies_for_an_identity() {
    let data = PasetoVerifiedData::new(ana(), true);
    let expected = Reply { status: 200, body: PasetoVerifyResponse::success(data.clone()), error: None };
    assert_eq!(local_verify_reply(Ok(data.clone())), expected);
    assert_eq!(public_verify_reply(Ok(data)), expected);
}

#[test]
fn verify_replies_for_a_failure() {
    let reply = local_verify_reply(Err(AuthError::TokenExpired));
    assert_eq!(reply.status, 401);
    assert_eq!(
        reply.body,
        PasetoVerifyResponse::failure("invalid local token, user unauthorized".to_string())
    );
    assert_eq!(reply.body.data, Some(PasetoVerifiedData::new(User::default(), false)));
    assert_eq!(reply.error, Some(AuthError::TokenExpired));
    let reply = public_verify_reply(Err(AuthError::VerificationFailed));
    assert_eq!(reply.status, 401);
    assert_eq!(
        reply.body,
        PasetoVerifyResponse::failure("invalid public token, user unauthorized".to_string())
    );
    assert_eq!(reply.error, Some(AuthError::VerificationFailed));
}

#[test]
fn handlers_serve_a_local_claim_and_its_verification() {
    let state = engine("0123456789abcdef0123456789abcdef");
    let claimed = claim_local_token(&state, PasetoClaimRequest::new(ana()));
    assert_eq!(claimed.status, 200);
    assert_eq!(claimed.body.message, "Claim successfully created.");
    assert_eq!(claimed.error, None);
    let token = claimed.body.data.unwrap();
    let verified = verify_local_token(&state, PasetoVerifyRequest::new(token.token, token.expired));
    assert_eq!(verified.status, 200);
    assert_eq!(verified.body, PasetoVerifyResponse::success(PasetoVerifiedData::new(ana(), true)));
    assert_eq!(verified.error, None);
}

#[test]
fn handlers_serve_a_public_claim_and_its_verification() {
    let state = engine("0123456789abcdef0123456789abcdef");
    let claimed = claim_public_token(&state, PasetoClaimRequest::new(ana()));
    assert_eq!(claimed.status, 200);
    let token = claimed.body.data.unwrap();
    assert!(token.token.starts_with("v4.public."));
    let verified = verify_public_token(&state, PasetoVerifyRequest::new(token.token, token.expired));
    assert_eq!(verified.status, 200);
    assert_eq!(verified.body, PasetoVerifyResponse::success(PasetoVerifiedData::new(ana(), true)));
}

#[test]
fn handlers_report_what_the_engine_refused() {
    let state = engine("short");
    let claimed = claim_local_token(&state, PasetoClaimRequest::new(ana()));
    assert_eq!(claimed.status, 500);
    assert_eq!(claimed.body, PasetoClaimResponse::failure("unable to claim token".to_string()));
    assert_eq!(claimed.error, Some(AuthError::InvalidKeyMaterial));
    let request = PasetoVerifyRequest::new("junk".to_string(), "2000-01-01T00:00:00Z".to_string());
    let verified = verify_local_token(&state, request.clone());
    assert_eq!(verified.status, 401);
    assert_eq!(
        verified.body,
        PasetoVerifyResponse::failure("invalid local token, user unauthorized".to_string())
    );
    assert_eq!(verified.error, Some(AuthError::TokenExpired));
    let verified = verify_public_token(&state, request);
    assert_eq!(verified.status, 401);
    assert_eq!(
        verified.body,
        PasetoVerifyResponse::failure("invalid public token, user unauthorized".to_string())
    );
    assert_eq!(verified.error, Some(AuthError::TokenExpired));
}
