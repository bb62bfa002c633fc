//! What holds of the engine whatever the key material, the token and the
//! instant.

use crate::clock::{
    elapsed_nanos, expiry_stamp, rfc3339_instant, stamp_is_stale, Timestamp, VALIDITY_SECS,
};
use crate::models::dto::auth::{PasetoVerifiedData, VerifiedModel};
use crate::models::entities::auth::{PasetoToken, TokenModel, UserModel};
use crate::json::json_text_value;
use crate::service::claims::law_claim_set_reads_back;
use crate::service::paseto::{
    claim_stamp_accepted, is_local_token, is_public_token, local_token_plaintext,
    public_token_message, trusted_payload,
};
use crate::service::error::AuthError;
use crate::service::paseto::lemma_headers_differ;
use crate::service::paseto_service::{
    carries_claim_set, opens_to, verification_outcome, PasetoService, LOCAL_KEY_BYTES,
};
use pasetors::errors::Error;
use pasetors::token::TrustedToken;
use vstd::prelude::*;
use vstd::utf8::decode_utf8;

verus! {

/// A token whose stamp denotes an instant more than twelve hours before `now`
/// is rejected with `TokenExpired` in both modes, whatever the token text and
/// the key material are.
pub proof fn law_stale_stamp_is_rejected(
    service: PasetoService,
    token: TokenModel,
    then: Timestamp,
    now: Timestamp,
    local: Result<PasetoVerifiedData, AuthError>,
    public: Result<PasetoVerifiedData, AuthError>,
)
    requires
        rfc3339_instant(token.expired) == Some(then),
        elapsed_nanos(now, then) > VALIDITY_SECS * 1_000_000_000,
        service.local_verify_outcome(token, now, local),
        service.public_verify_outcome(token, now, public),
    ensures
        local matches Err(AuthError::TokenExpired),
        public matches Err(AuthError::TokenExpired),
{
}

/// A token whose stamp denotes an instant at most twelve hours before `now`,
/// or no instant at all, is never rejected with `TokenExpired`.
pub proof fn law_fresh_stamp_is_not_rejected(
    service: PasetoService,
    token: TokenModel,
    now: Timestamp,
    local: Result<PasetoVerifiedData, AuthError>,
    public: Result<PasetoVerifiedData, AuthError>,
)
    requires
        rfc3339_instant(token.expired) matches Some(then) ==> elapsed_nanos(now, then)
            <= VALIDITY_SECS * 1_000_000_000,
        service.local_verify_outcome(token, now, local),
        service.public_verify_outcome(token, now, public),
    ensures
        !(local matches Err(AuthError::TokenExpired)),
        !(public matches Err(AuthError::TokenExpired)),
{
}

/// With a shared secret of another length than 32 bytes, issuance in the
/// confidential mode fails with `InvalidKeyMaterial`, and so does the
/// verification of every token whose stamp is not stale.
pub proof fn law_key_length_is_checked(
    service: PasetoService,
    user: UserModel,
    token: TokenModel,
    issued_at: Timestamp,
    verified_at: Timestamp,
    claimed: Result<PasetoToken, AuthError>,
    verified: Result<PasetoVerifiedData, AuthError>,
)
    requires
        service.local_key().len() != LOCAL_KEY_BYTES,
        !stamp_is_stale(token.expired, verified_at),
        service.local_claim_outcome(user, issued_at, claimed),
        service.local_verify_outcome(token, verified_at, verified),
    ensures
        claimed matches Err(AuthError::InvalidKeyMaterial),
        verified matches Err(AuthError::InvalidKeyMaterial),
{
}

/// A token issued in the confidential mode is never verified in the
/// verifiable mode: the verifier rejects it as malformed, or as expired where
/// its stamp is stale by then. The two engines need not be the same.
pub proof fn law_local_token_fails_public_verification(
    issuer: PasetoService,
    verifier: PasetoService,
    user: UserModel,
    issued_at: Timestamp,
    verified_at: Timestamp,
    claimed: Result<PasetoToken, AuthError>,
    verified: Result<PasetoVerifiedData, AuthError>,
)
    requires
        issuer.local_claim_outcome(user, issued_at, claimed),
        claimed matches Ok(token) && verifier.public_verify_outcome(token@, verified_at, verified),
    ensures
        verified matches Err(e) && (e == AuthError::MalformedToken || e == AuthError::TokenExpired),
{
    lemma_headers_differ(claimed->Ok_0.token@);
}

/// A token issued in the verifiable mode is never verified in the
/// confidential mode: the verifier rejects it as malformed, or for its key
/// material, or as expired where its stamp is stale by then.
pub proof fn law_public_token_fails_local_verification(
    issuer: PasetoService,
    verifier: PasetoService,
    user: UserModel,
    issued_at: Timestamp,
    verified_at: Timestamp,
    claimed: Result<PasetoToken, AuthError>,
    verified: Result<PasetoVerifiedData, AuthError>,
)
    requires
        issuer.public_claim_outcome(user, issued_at, claimed),
        claimed matches Ok(token) && verifier.local_verify_outcome(token@, verified_at, verified),
    ensures
        verified matches Err(e) && (e == AuthError::MalformedToken || e
            == AuthError::InvalidKeyMaterial || e == AuthError::TokenExpired),
{
    lemma_headers_differ(claimed->Ok_0.token@);
}

/// Round trip in the confidential mode, as far as it does not rest on the
/// clock of the outside validation: a token issued for `user` is verified by
/// an engine with the same shared secret and the same second secret either as
/// that very user, marked valid, or not at all. It is never rejected as
/// malformed, and as expired only where its stamp is stale by then. That the
/// verification succeeds within the window is not stated.
pub proof fn law_local_round_trip(
    issuer: PasetoService,
    verifier: PasetoService,
    user: UserModel,
    issued_at: Timestamp,
    verified_at: Timestamp,
    claimed: Result<PasetoToken, AuthError>,
    verified: Result<PasetoVerifiedData, AuthError>,
)
    requires
        verifier.local_key() == issuer.local_key(),
        verifier.bound_secret() == issuer.bound_secret(),
        issuer.local_claim_outcome(user, issued_at, claimed),
        claimed matches Ok(token) && verifier.local_verify_outcome(token@, verified_at, verified),
    ensures
        verified matches Ok(data) ==> data@ == (VerifiedModel { user, token_valid: true }),
        !(verified matches Err(AuthError::MalformedToken)),
        stamp_is_stale(claimed->Ok_0.expired@, verified_at) || !(verified matches Err(
            AuthError::TokenExpired,
        )),
{
    let token = claimed->Ok_0;
    if !stamp_is_stale(token.expired@, verified_at) {
        let carried = local_token_plaintext(
            verifier.local_key(),
            token.token@,
            verifier.bound_secret(),
        );
        let opened = choose|opened: Result<TrustedToken, Error>| #[trigger]
            verification_outcome(opened, verified) && opens_to(carried, opened);
        lemma_issued_payload_reads_back(carried->Some_0, opened, verified, user, token.expired@);
    }
}

/// Round trip in the verifiable mode, as far as it does not rest on the clock
/// of the outside validation: a token issued for `user` is verified by an
/// engine with the same public key and the same second secret either as that
/// very user, marked valid, or not at all. It is never rejected as malformed,
/// and as expired only where its stamp is stale by then. That the
/// verification succeeds within the window is not stated.
pub proof fn law_public_round_trip(
    issuer: PasetoService,
    verifier: PasetoService,
    user: UserModel,
    issued_at: Timestamp,
    verified_at: Timestamp,
    claimed: Result<PasetoToken, AuthError>,
    verified: Result<PasetoVerifiedData, AuthError>,
)
    requires
        verifier.verifying_key() == issuer.verifying_key(),
        verifier.bound_secret() == issuer.bound_secret(),
        issuer.public_claim_outcome(user, issued_at, claimed),
        claimed matches Ok(token) && verifier.public_verify_outcome(token@, verified_at, verified),
    ensures
        verified matches Ok(data) ==> data@ == (VerifiedModel { user, token_valid: true }),
        !(verified matches Err(AuthError::MalformedToken)),
        stamp_is_stale(claimed->Ok_0.expired@, verified_at) || !(verified matches Err(
            AuthError::TokenExpired,
        )),
{
    let token = claimed->Ok_0;
    if !stamp_is_stale(token.expired@, verified_at) {
        let carried = public_token_message(
            verifier.verifying_key(),
            token.token@,
            verifier.bound_secret(),
        );
        let opened = choose|opened: Result<TrustedToken, Error>| #[trigger]
            verification_outcome(opened, verified) && opens_to(carried, opened);
        lemma_issued_payload_reads_back(carried->Some_0, opened, verified, user, token.expired@);
    }
}

/// Where the bytes that a token carries hold the claim set of `user`, and the
/// cryptographic step opened the token to them, the outcome of the
/// verification names that user if it names any.
proof fn lemma_issued_payload_reads_back(
    carried: Seq<u8>,
    opened: Result<TrustedToken, Error>,
    verified: Result<PasetoVerifiedData, AuthError>,
    user: UserModel,
    stamp: Seq<char>,
)
    requires
        carries_claim_set(carried, user, stamp),
        opens_to(Some(carried), opened),
        verification_outcome(opened, verified),
    ensures
        verified matches Ok(data) ==> data@ == (VerifiedModel { user, token_valid: true }),
        !(verified matches Err(AuthError::MalformedToken)),
        !(verified matches Err(AuthError::TokenExpired)),
{
    if opened is Ok {
        let payload = trusted_payload(opened->Ok_0);
        vstd::utf8::encode_utf8_decode_utf8(payload);
        assert(decode_utf8(carried) == payload);
        if json_text_value(payload) is Some {
            law_claim_set_reads_back(json_text_value(payload)->Some_0->Object_0, user, stamp);
        }
    }
}

/// A token whose tag or signature does not hold for the key material of the
/// engine is rejected with `VerificationFailed`, once its stamp, the length
/// of the shared secret and its shape have passed.
pub proof fn law_failed_tag_is_rejected(
    service: PasetoService,
    token: TokenModel,
    now: Timestamp,
    local: Result<PasetoVerifiedData, AuthError>,
    public: Result<PasetoVerifiedData, AuthError>,
)
    requires
        !stamp_is_stale(token.expired, now),
        service.local_verify_outcome(token, now, local),
        service.public_verify_outcome(token, now, public),
    ensures
        service.local_key().len() == LOCAL_KEY_BYTES && is_local_token(token.token)
            && local_token_plaintext(service.local_key(), token.token, service.bound_secret())
            is None ==> local matches Err(AuthError::VerificationFailed),
        is_public_token(token.token) && public_token_message(
            service.verifying_key(),
            token.token,
            service.bound_secret(),
        ) is None ==> public matches Err(AuthError::VerificationFailed),
{
}

/// The stamp beside an issued token and the `exp` claim inside it are the
/// same text: the bytes that a token carries for the key material of its
/// engine hold the claim set of the user it was issued for, with the stamp
/// beside the token as `exp`. Both modes.
pub proof fn law_stamp_inside_is_stamp_beside(
    service: PasetoService,
    user: UserModel,
    issued_at: Timestamp,
    local: Result<PasetoToken, AuthError>,
    public: Result<PasetoToken, AuthError>,
)
    requires
        service.local_claim_outcome(user, issued_at, local),
        service.public_claim_outcome(user, issued_at, public),
    ensures
        local matches Ok(token) ==> (local_token_plaintext(
            service.local_key(),
            token.token@,
            service.bound_secret(),
        ) matches Some(plain) && carries_claim_set(plain, user, token.expired@)),
        public matches Ok(token) ==> (public_token_message(
            service.verifying_key(),
            token.token@,
            service.bound_secret(),
        ) matches Some(plain) && carries_claim_set(plain, user, token.expired@)),
{
}

/// A stamp that cannot stand in a time claim fails the issuance, in both
/// modes: no token is handed out for it.
pub proof fn law_refused_stamp_fails_issuance(
    service: PasetoService,
    user: UserModel,
    issued_at: Timestamp,
    local: Result<PasetoToken, AuthError>,
    public: Result<PasetoToken, AuthError>,
)
    requires
        expiry_stamp(issued_at) matches Some(stamp) && !claim_stamp_accepted(stamp),
        service.local_claim_outcome(user, issued_at, local),
        service.public_claim_outcome(user, issued_at, public),
    ensures
        local is Err,
        public is Err,
{
}

/// Verification is all or nothing: an outcome that is handed back as a
/// success is marked valid, in both modes.
pub proof fn law_success_is_valid(
    service: PasetoService,
    token: TokenModel,
    now: Timestamp,
    local: Result<PasetoVerifiedData, AuthError>,
    public: Result<PasetoVerifiedData, AuthError>,
)
    requires
        service.local_verify_outcome(token, now, local),
        service.public_verify_outcome(token, now, public),
    ensures
        local matches Ok(data) ==> data.token_valid,
        public matches Ok(data) ==> data.token_valid,
{
}

} // verus!
