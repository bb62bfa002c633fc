//! The identity that a token carries, the token, and the claims inside it.

use crate::clock::{is_stale, stamp_is_stale, Timestamp};
use crate::text::{decimal_text, push_decimal};
use vstd::prelude::*;
use vstd::string::StringExecFns;

verus! {

/// What a `User` holds.
pub struct UserModel {
    pub user_id: u64,
    pub username: Seq<char>,
    pub role: Seq<char>,
}

/// What a `PasetoToken` holds.
pub struct TokenModel {
    pub token: Seq<char>,
    pub expired: Seq<char>,
}

/// What a `PayloadClaim` holds.
pub struct ClaimModel {
    pub user: UserModel,
    pub nbf: Seq<char>,
    pub exp: Seq<char>,
    pub iat: Seq<char>,
}

/// The claims that a verified token carried.
#[derive(Debug, Clone, PartialEq, Eq)]
pub struct PayloadClaim {
    pub user_data: UserData,
    pub nbf: String,
    pub exp: String,
    pub iat: String,
}

/// The identity as it is embedded in a token.
#[derive(Debug, Clone, PartialEq, Eq)]
pub struct UserData {
    pub user: User,
}

/// The basic details of a user. The engine carries them and never reads them.
#[derive(Debug, Clone, PartialEq, Eq)]
pub struct User {
    pub user_id: u64,
    pub username: String,
    pub role: String,
}

/// A token with the end of its validity window beside it.
#[derive(Debug, Clone, PartialEq, Eq)]
pub struct PasetoToken {
    pub token: String,
    pub expired: String,
}

impl View for User {
    type V = UserModel;

    open spec fn view(&self) -> UserModel {
        UserModel { user_id: self.user_id, username: self.username@, role: self.role@ }
    }
}

impl View for UserData {
    type V = UserModel;

    open spec fn view(&self) -> UserModel {
        self.user@
    }
}

impl View for PasetoToken {
    type V = TokenModel;

    open spec fn view(&self) -> TokenModel {
        TokenModel { token: self.token@, expired: self.expired@ }
    }
}

impl View for PayloadClaim {
    type V = ClaimModel;

    open spec fn view(&self) -> ClaimModel {
        ClaimModel { user: self.user_data@, nbf: self.nbf@, exp: self.exp@, iat: self.iat@ }
    }
}

/// The line that describes a user: the name, the number in brackets, the role.
pub open spec fn user_info_text(user: UserModel) -> Seq<char> {
    user.username + " (ID: "@ + decimal_text(user.user_id as nat) + ") with role: "@ + user.role
}

impl Default for User {
    fn default() -> (user: Self)
        ensures
            user@ == (UserModel { user_id: 0, username: Seq::empty(), role: Seq::empty() }),
    {
        User { user_id: 0, username: String::new(), role: String::new() }
    }
}

impl User {
    /// A user from its three details.
    pub fn new(user_id: u64, username: String, role: String) -> (user: Self)
        ensures
            user@ == (UserModel { user_id, username: username@, role: role@ }),
    {
        Self { user_id, username, role }
    }

    /// A line that describes the user, such as `ana (ID: 7) with role: admin`.
    pub fn user_info(&self) -> (info: String)
        ensures
            info@ == user_info_text(self@),
    {
        let mut info = self.username.clone();
        info.append(" (ID: ");
        push_decimal(&mut info, self.user_id);
        info.append(") with role: ");
        info.append(self.role.as_str());
        info
    }
}

impl PasetoToken {
    /// Whether the stamp beside the token lies more than the validity window
    /// before `now`. A stamp that is no RFC 3339 text counts as not expired.
    pub fn is_expired_at(&self, now: Timestamp) -> (expired: bool)
        ensures
            expired == stamp_is_stale(self.expired@, now),
    {
        is_stale(self.expired.as_str(), now)
    }

    /// Whether the stamp beside the token lies more than the validity window
    /// before the present instant.
    pub fn is_expired(&self) -> (expired: bool)
        ensures
            exists|now: Timestamp| expired == stamp_is_stale(self.expired@, now),
    {
        let now = Timestamp::now();
        self.is_expired_at(now)
    }
}

} // verus!
