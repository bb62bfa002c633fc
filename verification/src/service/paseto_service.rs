//! The PASETO engine: key material, and issuance and verification in the
//! confidential and in the verifiable mode.

use crate::clock::{expiry_stamp, stamp_is_stale, Timestamp};
use crate::json::{json_text_value, JsonModel};
use crate::models::dto::auth::{PasetoVerifiedData, VerifiedModel};
use crate::models::entities::auth::{PasetoToken, TokenModel, UserData, UserModel};
use crate::service::auth_interface::AuthService;
use crate::service::claims::{
    assemble_claims, holds_claim_set, payload_claim, verified_data_from_payload,
};
use crate::service::error::AuthError;
use crate::service::keys::{
    pem_secret_key, public_half, public_key_of, secret_key_from_pem, seed_is_set,
};
use crate::service::paseto::{
    claim_stamp_accepted, error_text, error_words, is_key_refusal, is_local_token,
    is_public_token, is_token_validation, key_refused, local_token_plaintext, open_local,
    parses_as_local, parses_as_public, payload_text, public_token_message, seal_local,
    sign_public, tag_failed, trusted_payload, verify_public, writes_claims,
};
use pasetors::errors::Error;
use pasetors::token::TrustedToken;
use vstd::prelude::*;
use vstd::string::StringExecFns;
use vstd::utf8::{decode_utf8, encode_utf8};

verus! {

/// Number of bytes of the shared secret of the confidential mode.
pub const LOCAL_KEY_BYTES: usize = 32;

/// The engine with its key material. The material is set at construction and
/// never changes.
pub struct PasetoService {
    secret_key: Vec<u8>,
    public_key: Vec<u8>,
    local_secret: String,
    hmac_secret: String,
}

/// The detail of the failure to issue a token at an instant whose window end
/// cannot be written as a stamp.
pub open spec fn unstampable_detail() -> Seq<char> {
    "expiration out of range"@
}

/// What the engine owes for a token that was sealed, or for the text of the
/// failure: the token with its stamp beside it, or `EncodingFailure` with that
/// text.
pub open spec fn issued(sealed: Result<String, String>, stamp: Seq<char>, outcome: Result<
    PasetoToken,
    AuthError,
>) -> bool {
    match sealed {
        Ok(text) => outcome matches Ok(token) && token@ == (TokenModel {
            token: text@,
            expired: stamp,
        }),
        Err(detail) => outcome matches Err(AuthError::EncodingFailure(d)) && d@ == detail@,
    }
}

/// The token that is handed out for a sealed text and its stamp, or the
/// failure for the text of what went wrong.
pub fn token_from_sealed(sealed: Result<String, String>, stamp: String) -> (outcome: Result<
    PasetoToken,
    AuthError,
>)
    ensures
        issued(sealed, stamp@, outcome),
{
    match sealed {
        Ok(token) => Ok(PasetoToken { token, expired: stamp }),
        Err(detail) => Err(AuthError::EncodingFailure(detail)),
    }
}

/// A sealing outcome with the failure put into the words of `pasetors`.
fn in_words(sealed: Result<String, Error>) -> (plain: Result<String, String>)
    ensures
        match sealed {
            Ok(text) => plain == Ok::<String, String>(text),
            Err(error) => plain matches Err(detail) && detail@ == error_words(error),
        },
{
    match sealed {
        Ok(text) => Ok(text),
        Err(e) => Err(error_text(&e)),
    }
}

/// The claim set that the bytes of a token's payload hold for a user and a
/// stamp: where they read as JSON at all, they read as an object whose claims
/// are the claim set of that user with that stamp as `exp`.
pub open spec fn carries_claim_set(bytes: Seq<u8>, user: UserModel, stamp: Seq<char>) -> bool {
    json_text_value(decode_utf8(bytes)) matches Some(read) ==> (read matches JsonModel::Object(held)
        && holds_claim_set(held, user, stamp))
}

/// An issuance failed with `EncodingFailure`, and its detail is the text of
/// an error of `pasetors`.
pub open spec fn refused_by_pasetors(error: AuthError) -> bool {
    error matches AuthError::EncodingFailure(detail) && exists|refusal: Error|
        detail@ == #[trigger] error_words(refusal)
}

/// What the cryptographic step gave fits what the token text carries: where
/// the text carries nothing, because its tag or signature does not hold, the
/// step failed with `TokenValidation`; and the payload of a trusted token is
/// what the text carries.
pub open spec fn opens_to(carried: Option<Seq<u8>>, opened: Result<TrustedToken, Error>) -> bool {
    &&& carried is None ==> (opened matches Err(error) && is_token_validation(error))
    &&& opened matches Ok(token) ==> carried == Some(encode_utf8(trusted_payload(token)))
}

/// What is owed after the cryptographic step of a verification, for what the
/// step gave.
///
/// A token that held and whose payload is a claim set gives the identity in
/// it, marked valid; one whose payload is none gives `MalformedPayload`. A
/// failure of the tag or signature gives `VerificationFailed`, a refused key
/// `InvalidKeyMaterial`, and every other failure, which is one of the payload
/// or its claims after the tag or signature held, gives `MalformedPayload`.
pub open spec fn verification_outcome(opened: Result<TrustedToken, Error>, outcome: Result<
    PasetoVerifiedData,
    AuthError,
>) -> bool {
    match opened {
        Ok(token) => match payload_claim(trusted_payload(token)) {
            Some(claim) => outcome matches Ok(data) && data@ == (VerifiedModel {
                user: claim.user,
                token_valid: true,
            }),
            None => outcome matches Err(AuthError::MalformedPayload),
        },
        Err(error) => if is_token_validation(error) {
            outcome matches Err(AuthError::VerificationFailed)
        } else if is_key_refusal(error) {
            outcome matches Err(AuthError::InvalidKeyMaterial)
        } else {
            outcome matches Err(AuthError::MalformedPayload)
        },
    }
}

/// The outcome of a verification after the cryptographic step: the identity
/// in the claims of a token that held, or the failure that stands for what
/// went wrong.
pub fn finish_verification(opened: Result<TrustedToken, Error>) -> (outcome: Result<
    PasetoVerifiedData,
    AuthError,
>)
    ensures
        verification_outcome(opened, outcome),
{
    match opened {
        Ok(token) => verified_data_from_payload(payload_text(&token).as_str()),
        Err(error) => if tag_failed(&error) {
            Err(AuthError::VerificationFailed)
        } else if key_refused(&error) {
            Err(AuthError::InvalidKeyMaterial)
        } else {
            Err(AuthError::MalformedPayload)
        },
    }
}

impl PasetoService {
    /// The secret key has 64 bytes and a seed that is not all zero, and the
    /// public key is its public half.
    #[verifier::type_invariant]
    spec fn well_formed(&self) -> bool {
        &&& self.secret_key@.len() == 64
        &&& seed_is_set(self.secret_key@)
        &&& self.public_key@ == public_half(self.secret_key@)
    }

    /// The Ed25519 secret key: the seed and then the public key.
    pub closed spec fn signing_key(&self) -> Seq<u8> {
        self.secret_key@
    }

    /// The Ed25519 public key.
    pub closed spec fn verifying_key(&self) -> Seq<u8> {
        self.public_key@
    }

    /// The shared secret of the confidential mode, as bytes.
    pub closed spec fn local_key(&self) -> Seq<u8> {
        encode_utf8(self.local_secret@)
    }

    /// The second secret, which is bound to every token, as bytes.
    pub closed spec fn bound_secret(&self) -> Seq<u8> {
        encode_utf8(self.hmac_secret@)
    }

    /// The engine holds the key in `pem` and the two secrets.
    pub open spec fn holds(&self, pem: Seq<char>, local_secret: Seq<char>, hmac_secret: Seq<char>) -> bool {
        &&& pem_secret_key(pem) == Some(self.signing_key())
        &&& self.verifying_key() == public_half(self.signing_key())
        &&& self.local_key() == encode_utf8(local_secret)
        &&& self.bound_secret() == encode_utf8(hmac_secret)
    }

    /// What `claim_local_token` owes for `user` at the instant `now`.
    ///
    /// A token that is handed out has the end of the window as its stamp and
    /// parses as a local token; its tag holds for the shared secret and the
    /// second secret of this engine, and the plaintext it carries for them is
    /// the claim set of `user` with that stamp as `exp`. A stamp that cannot
    /// stand in a claim fails the issuance, with the words of `pasetors` as
    /// the detail of every failure.
    pub open spec fn local_claim_outcome(
        &self,
        user: UserModel,
        now: Timestamp,
        outcome: Result<PasetoToken, AuthError>,
    ) -> bool {
        if self.local_key().len() != LOCAL_KEY_BYTES {
            outcome matches Err(AuthError::InvalidKeyMaterial)
        } else {
            match expiry_stamp(now) {
                Some(stamp) => match outcome {
                    Ok(token) => {
                        &&& claim_stamp_accepted(stamp)
                        &&& token.expired@ == stamp
                        &&& is_local_token(token.token@)
                        &&& local_token_plaintext(
                            self.local_key(),
                            token.token@,
                            self.bound_secret(),
                        ) matches Some(plain) && carries_claim_set(plain, user, stamp)
                    },
                    Err(e) => refused_by_pasetors(e),
                },
                None => outcome matches Err(AuthError::EncodingFailure(detail)) && detail@
                    == unstampable_detail(),
            }
        }
    }

    /// What `claim_public_token` owes for `user` at the instant `now`.
    ///
    /// A token that is handed out has the end of the window as its stamp and
    /// parses as a public token; its signature holds for the public key and
    /// the second secret of this engine, and the message it carries is the
    /// claim set of `user` with that stamp as `exp`. A stamp that cannot
    /// stand in a claim fails the issuance, with the words of `pasetors` as
    /// the detail of every failure.
    pub open spec fn public_claim_outcome(
        &self,
        user: UserModel,
        now: Timestamp,
        outcome: Result<PasetoToken, AuthError>,
    ) -> bool {
        match expiry_stamp(now) {
            Some(stamp) => match outcome {
                Ok(token) => {
                    &&& claim_stamp_accepted(stamp)
                    &&& token.expired@ == stamp
                    &&& is_public_token(token.token@)
                    &&& public_token_message(
                        self.verifying_key(),
                        token.token@,
                        self.bound_secret(),
                    ) matches Some(plain) && carries_claim_set(plain, user, stamp)
                },
                Err(e) => refused_by_pasetors(e),
            },
            None => outcome matches Err(AuthError::EncodingFailure(detail)) && detail@
                == unstampable_detail(),
        }
    }

    /// What `verify_local_token` owes for a token at the instant `now`.
    ///
    /// After the three checks the outcome is what the cryptographic step
    /// gives for the shared secret and the second secret of this engine: a
    /// text whose tag does not hold for them fails it, and the payload of a
    /// trusted token is the plaintext that the text carries for them.
    pub open spec fn local_verify_outcome(
        &self,
        token: TokenModel,
        now: Timestamp,
        outcome: Result<PasetoVerifiedData, AuthError>,
    ) -> bool {
        if stamp_is_stale(token.expired, now) {
            outcome matches Err(AuthError::TokenExpired)
        } else if self.local_key().len() != LOCAL_KEY_BYTES {
            outcome matches Err(AuthError::InvalidKeyMaterial)
        } else if !is_local_token(token.token) {
            outcome matches Err(AuthError::MalformedToken)
        } else {
            exists|opened: Result<TrustedToken, Error>|
                {
                    &&& #[trigger] verification_outcome(opened, outcome)
                    &&& opens_to(
                        local_token_plaintext(self.local_key(), token.token, self.bound_secret()),
                        opened,
                    )
                }
        }
    }

    /// What `verify_public_token` owes for a token at the instant `now`.
    ///
    /// After the two checks the outcome is what the cryptographic step gives
    /// for the public key and the second secret of this engine: a text whose
    /// signature does not hold for them fails it, and the payload of a
    /// trusted token is the message that the text carries for them.
    pub open spec fn public_verify_outcome(
        &self,
        token: TokenModel,
        now: Timestamp,
        outcome: Result<PasetoVerifiedData, AuthError>,
    ) -> bool {
        if stamp_is_stale(token.expired, now) {
            outcome matches Err(AuthError::TokenExpired)
        } else if !is_public_token(token.token) {
            outcome matches Err(AuthError::MalformedToken)
        } else {
            exists|opened: Result<TrustedToken, Error>|
                {
                    &&& #[trigger] verification_outcome(opened, outcome)
                    &&& opens_to(
                        public_token_message(
                            self.verifying_key(),
                            token.token,
                            self.bound_secret(),
                        ),
                        opened,
                    )
                }
        }
    }

    /// An engine for the Ed25519 secret key in `pem` and the two secrets. The
    /// public key is derived once, here.
    pub fn new(pem: String, local_secret: String, hmac_secret: String) -> (service: Self)
        requires
            pem_secret_key(pem@) is Some,
        ensures
            service.holds(pem@, local_secret@, hmac_secret@),
    {
        let secret_key = secret_key_from_pem(pem.as_str()).unwrap();
        let public_key = public_key_of(&secret_key);
        PasetoService { secret_key, public_key, local_secret, hmac_secret }
    }

    /// An engine for the Ed25519 secret key in `pem` and the two secrets, or
    /// `InvalidKeyMaterial` where `pem` holds no such key.
    pub fn try_new(pem: String, local_secret: String, hmac_secret: String) -> (made: Result<
        Self,
        AuthError,
    >)
        ensures
            match made {
                Ok(service) => service.holds(pem@, local_secret@, hmac_secret@),
                Err(e) => pem_secret_key(pem@) is None && e == AuthError::InvalidKeyMaterial,
            },
    {
        match secret_key_from_pem(pem.as_str()) {
            Some(_) => Ok(Self::new(pem, local_secret, hmac_secret)),
            None => Err(AuthError::InvalidKeyMaterial),
        }
    }

    /// Issues an encrypted token for an identity at the instant `now`.
    ///
    /// A shared secret of another length than 32 bytes fails with
    /// `InvalidKeyMaterial` before anything else is done. The token expires
    /// twelve hours after `now`; that instant stands in the claims and beside
    /// the token.
    pub fn claim_local_token_at(&self, user: UserData, now: Timestamp) -> (outcome: Result<
        PasetoToken,
        AuthError,
    >)
        ensures
            self.local_claim_outcome(user@, now, outcome),
    {
        let key = self.local_secret.as_str().as_bytes();
        if key.len() != LOCAL_KEY_BYTES {
            return Err(AuthError::InvalidKeyMaterial);
        }
        let stamp = match now.expiry_stamp() {
            Some(stamp) => stamp,
            None => {
                return Err(AuthError::EncodingFailure(String::from_str("expiration out of range")));
            },
        };
        let sealed = match assemble_claims(&user, stamp.as_str()) {
            Ok(claims) => seal_local(key, &claims, self.hmac_secret.as_str().as_bytes()),
            Err(e) => Err(e),
        };
        token_from_sealed(in_words(sealed), stamp)
    }

    /// Verifies an encrypted token at the instant `now`.
    ///
    /// The stamp beside the token is looked at first: a stale one fails with
    /// `TokenExpired` and nothing else is done. Then the length of the shared
    /// secret, then the shape of the token, then its authentication tag and
    /// its claims, then its payload.
    pub fn verify_local_token_at(&self, token: PasetoToken, now: Timestamp) -> (outcome: Result<
        PasetoVerifiedData,
        AuthError,
    >)
        ensures
            self.local_verify_outcome(token@, now, outcome),
    {
        if token.is_expired_at(now) {
            return Err(AuthError::TokenExpired);
        }
        let key = self.local_secret.as_str().as_bytes();
        if key.len() != LOCAL_KEY_BYTES {
            return Err(AuthError::InvalidKeyMaterial);
        }
        if !parses_as_local(token.token.as_str()) {
            return Err(AuthError::MalformedToken);
        }
        let opened = open_local(key, token.token.as_str(), self.hmac_secret.as_str().as_bytes());
        let ghost given = opened;
        let outcome = finish_verification(opened);
        assert(verification_outcome(given, outcome));
        outcome
    }

    /// Issues a signed token for an identity at the instant `now`. The token
    /// expires twelve hours after `now`; that instant stands in the claims and
    /// beside the token.
    pub fn claim_public_token_at(&self, user: UserData, now: Timestamp) -> (outcome: Result<
        PasetoToken,
        AuthError,
    >)
        ensures
            self.public_claim_outcome(user@, now, outcome),
    {
        proof {
            use_type_invariant(self);
        }
        let stamp = match now.expiry_stamp() {
            Some(stamp) => stamp,
            None => {
                return Err(AuthError::EncodingFailure(String::from_str("expiration out of range")));
            },
        };
        let sealed = match assemble_claims(&user, stamp.as_str()) {
            Ok(claims) => sign_public(
                self.secret_key.as_slice(),
                &claims,
                self.hmac_secret.as_str().as_bytes(),
            ),
            Err(e) => Err(e),
        };
        token_from_sealed(in_words(sealed), stamp)
    }

    /// Verifies a signed token at the instant `now`.
    ///
    /// The stamp beside the token is looked at first: a stale one fails with
    /// `TokenExpired` and nothing else is done. Then the shape of the token,
    /// then its signature and its claims, then its payload.
    pub fn verify_public_token_at(&self, body: PasetoToken, now: Timestamp) -> (outcome: Result<
        PasetoVerifiedData,
        AuthError,
    >)
        ensures
            self.public_verify_outcome(body@, now, outcome),
    {
        if body.is_expired_at(now) {
            return Err(AuthError::TokenExpired);
        }
        if !parses_as_public(body.token.as_str()) {
            return Err(AuthError::MalformedToken);
        }
        proof {
            use_type_invariant(self);
        }
        let opened = verify_public(
            self.public_key.as_slice(),
            body.token.as_str(),
            self.hmac_secret.as_str().as_bytes(),
        );
        let ghost given = opened;
        let outcome = finish_verification(opened);
        assert(verification_outcome(given, outcome));
        outcome
    }
}

impl Clone for PasetoService {
    /// A second engine with the same key material.
    fn clone(&self) -> (copy: Self)
        ensures
            copy.signing_key() == self.signing_key(),
            copy.verifying_key() == self.verifying_key(),
            copy.local_key() == self.local_key(),
            copy.bound_secret() == self.bound_secret(),
    {
        proof {
            use_type_invariant(self);
        }
        let secret_key = self.secret_key.clone();
        let public_key = self.public_key.clone();
        assert(secret_key@ =~= self.secret_key@);
        assert(public_key@ =~= self.public_key@);
        PasetoService {
            secret_key,
            public_key,
            local_secret: self.local_secret.clone(),
            hmac_secret: self.hmac_secret.clone(),
        }
    }
}

impl AuthService for PasetoService {
    /// At some instant, the present one, the outcome is the one owed for it.
    open spec fn local_claim_owed(&self, user: UserModel, outcome: Result<
        PasetoToken,
        AuthError,
    >) -> bool {
        exists|now: Timestamp| self.local_claim_outcome(user, now, outcome)
    }

    /// At some instant, the present one, the outcome is the one owed for it.
    open spec fn local_verify_owed(&self, token: TokenModel, outcome: Result<
        PasetoVerifiedData,
        AuthError,
    >) -> bool {
        exists|now: Timestamp| self.local_verify_outcome(token, now, outcome)
    }

    /// At some instant, the present one, the outcome is the one owed for it.
    open spec fn public_claim_owed(&self, user: UserModel, outcome: Result<
        PasetoToken,
        AuthError,
    >) -> bool {
        exists|now: Timestamp| self.public_claim_outcome(user, now, outcome)
    }

    /// At some instant, the present one, the outcome is the one owed for it.
    open spec fn public_verify_owed(&self, token: TokenModel, outcome: Result<
        PasetoVerifiedData,
        AuthError,
    >) -> bool {
        exists|now: Timestamp| self.public_verify_outcome(token, now, outcome)
    }

    /// Issues an encrypted token for an identity at the present instant.
    fn claim_local_token(&self, user: UserData) -> (outcome: Result<PasetoToken, AuthError>) {
        let now = Timestamp::now();
        let ghost model = user@;
        let outcome = self.claim_local_token_at(user, now);
        assert(self.local_claim_outcome(model, now, outcome));
        outcome
    }

    /// Verifies an encrypted token at the present instant.
    fn verify_local_token(&self, token: PasetoToken) -> (outcome: Result<
        PasetoVerifiedData,
        AuthError,
    >) {
        let now = Timestamp::now();
        let ghost model = token@;
        let outcome = self.verify_local_token_at(token, now);
        assert(self.local_verify_outcome(model, now, outcome));
        outcome
    }

    /// Issues a signed token for an identity at the present instant.
    fn claim_public_token(&self, user: UserData) -> (outcome: Result<PasetoToken, AuthError>) {
        let now = Timestamp::now();
        let ghost model = user@;
        let outcome = self.claim_public_token_at(user, now);
        assert(self.public_claim_outcome(model, now, outcome));
        outcome
    }

    /// Verifies a signed token at the present instant.
    fn verify_public_token(&self, body: PasetoToken) -> (outcome: Result<
        PasetoVerifiedData,
        AuthError,
    >) {
        let now = Timestamp::now();
        let ghost model = body@;
        let outcome = self.verify_public_token_at(body, now);
        assert(self.public_verify_outcome(model, now, outcome));
        outcome
    }
}

} // verus!
