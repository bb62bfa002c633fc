//! The capability that the host is given: issue and verify, in both modes.

use crate::models::dto::auth::PasetoVerifiedData;
use crate::models::entities::auth::{PasetoToken, TokenModel, UserData, UserModel};
use crate::service::error::AuthError;
use vstd::prelude::*;

verus! {

/// An engine that issues tokens for identities and verifies them.
///
/// An engine says, for each of its four operations, which outcomes it owes
/// for an input; the operation then hands back one of them. Verification is
/// all or nothing: an engine never hands back an outcome that is marked as not
/// valid; it fails instead.
pub trait AuthService: Send + Sync + 'static {
    /// `outcome` is one that the engine owes for a claim of an encrypted
    /// token for `user`.
    spec fn local_claim_owed(&self, user: UserModel, outcome: Result<
        PasetoToken,
        AuthError,
    >) -> bool;

    /// `outcome` is one that the engine owes for the verification of an
    /// encrypted token.
    spec fn local_verify_owed(&self, token: TokenModel, outcome: Result<
        PasetoVerifiedData,
        AuthError,
    >) -> bool;

    /// `outcome` is one that the engine owes for a claim of a signed token
    /// for `user`.
    spec fn public_claim_owed(&self, user: UserModel, outcome: Result<
        PasetoToken,
        AuthError,
    >) -> bool;

    /// `outcome` is one that the engine owes for the verification of a signed
    /// token.
    spec fn public_verify_owed(&self, token: TokenModel, outcome: Result<
        PasetoVerifiedData,
        AuthError,
    >) -> bool;

    /// Issues an encrypted token for an identity.
    fn claim_local_token(&self, user: UserData) -> (outcome: Result<PasetoToken, AuthError>)
        ensures
            self.local_claim_owed(user@, outcome),
    ;

    /// Verifies an encrypted token.
    fn verify_local_token(&self, token: PasetoToken) -> (outcome: Result<
        PasetoVerifiedData,
        AuthError,
    >)
        ensures
            self.local_verify_owed(token@, outcome),
            outcome matches Ok(data) ==> data.token_valid,
    ;

    /// Issues a signed token for an identity.
    fn claim_public_token(&self, user: UserData) -> (outcome: Result<PasetoToken, AuthError>)
        ensures
            self.public_claim_owed(user@, outcome),
    ;

    /// Verifies a signed token.
    fn verify_public_token(&self, body: PasetoToken) -> (outcome: Result<
        PasetoVerifiedData,
        AuthError,
    >)
        ensures
            self.public_verify_owed(body@, outcome),
            outcome matches Ok(data) ==> data.token_valid,
    ;
}

} // verus!
