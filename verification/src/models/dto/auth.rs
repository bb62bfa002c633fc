//! What the host receives from a caller and what it answers.

use crate::clock::{is_stale, stamp_is_stale, Timestamp};
use crate::models::entities::auth::{PasetoToken, TokenModel, User, UserModel};
use vstd::prelude::*;
use vstd::string::StringExecFns;

verus! {

/// What a `PasetoVerifiedData` holds.
pub struct VerifiedModel {
    pub user: UserModel,
    pub token_valid: bool,
}

/// A request to issue a token for a user.
#[derive(Debug, Clone, PartialEq, Eq)]
pub struct PasetoClaimRequest {
    pub user: User,
}

/// The answer to a request to issue a token.
#[derive(Debug, Clone, PartialEq, Eq)]
pub struct PasetoClaimResponse {
    pub message: String,
    pub data: Option<PasetoToken>,
}

/// A request to verify a token.
#[derive(Debug, Clone, PartialEq, Eq)]
pub struct PasetoVerifyRequest {
    pub token: String,
    pub expired: String,
}

/// The answer to a request to verify a token.
#[derive(Debug, Clone, PartialEq, Eq)]
pub struct PasetoVerifyResponse {
    pub message: String,
    pub data: Option<PasetoVerifiedData>,
}

/// The outcome of a verification: the identity and whether the token held.
#[derive(Debug, Clone, PartialEq, Eq)]
pub struct PasetoVerifiedData {
    pub user: User,
    pub token_valid: bool,
}

impl View for PasetoVerifiedData {
    type V = VerifiedModel;

    open spec fn view(&self) -> VerifiedModel {
        VerifiedModel { user: self.user@, token_valid: self.token_valid }
    }
}

/// The outcome that stands for "nothing verified": an empty user, not valid.
pub open spec fn unverified() -> VerifiedModel {
    VerifiedModel {
        user: UserModel { user_id: 0, username: Seq::empty(), role: Seq::empty() },
        token_valid: false,
    }
}

/// The message of a claim response that carries a token.
pub open spec fn claim_success_message() -> Seq<char> {
    "Claim successfully created."@
}

/// The message of a verify response that carries an identity.
pub open spec fn verify_success_message() -> Seq<char> {
    "Token successfully verified."@
}

impl Default for PasetoVerifiedData {
    fn default() -> (data: Self)
        ensures
            data@ == unverified(),
    {
        PasetoVerifiedData { user: User::default(), token_valid: false }
    }
}

impl PasetoClaimRequest {
    /// A request for the given user.
    pub fn new(user: User) -> (request: Self)
        ensures
            request.user == user,
    {
        Self { user }
    }
}

impl PasetoClaimResponse {
    /// The response that hands out a token.
    pub fn success(token: PasetoToken) -> (response: Self)
        ensures
            response.message@ == claim_success_message(),
            response.data == Some(token),
    {
        Self { message: String::from_str("Claim successfully created."), data: Some(token) }
    }

    /// The response that reports a failure: the message and no token.
    pub fn failure(message: String) -> (response: Self)
        ensures
            response.message == message,
            response.data is None,
    {
        Self { message, data: None }
    }
}

impl PasetoVerifyRequest {
    /// A request for the given token and the stamp that came with it.
    pub fn new(token: String, expired: String) -> (request: Self)
        ensures
            request.token == token,
            request.expired == expired,
    {
        Self { token, expired }
    }

    /// Whether the stamp of the request lies more than the validity window
    /// before `now`. A stamp that is no RFC 3339 text counts as not expired.
    pub fn is_expired_at(&self, now: Timestamp) -> (expired: bool)
        ensures
            expired == stamp_is_stale(self.expired@, now),
    {
        is_stale(self.expired.as_str(), now)
    }

    /// Whether the stamp of the request lies more than the validity window
    /// before the present instant.
    pub fn is_expired(&self) -> (expired: bool)
        ensures
            exists|now: Timestamp| expired == stamp_is_stale(self.expired@, now),
    {
        let now = Timestamp::now();
        self.is_expired_at(now)
    }
}

impl PasetoVerifyResponse {
    /// The response that hands out a verified identity.
    pub fn success(data: PasetoVerifiedData) -> (response: Self)
        ensures
            response.message@ == verify_success_message(),
            response.data == Some(data),
    {
        Self { message: String::from_str("Token successfully verified."), data: Some(data) }
    }

    /// The response that reports a failure: the message, and in place of an
    /// identity the outcome that stands for "nothing verified".
    pub fn failure(message: String) -> (response: Self)
        ensures
            response.message == message,
            response.data matches Some(data) && data@ == unverified(),
    {
        Self { message, data: Some(PasetoVerifiedData::default()) }
    }
}

impl PasetoVerifiedData {
    /// An outcome from its two parts.
    pub fn new(user: User, token_valid: bool) -> (data: Self)
        ensures
            data.user == user,
            data.token_valid == token_valid,
    {
        Self { user, token_valid }
    }
}

} // verus!
