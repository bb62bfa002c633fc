//! The claim set of a token: how an identity is embedded at issuance and read
//! back at verification.

use crate::json::{
    as_text, as_unsigned, from_text, from_unsigned, get_field, insert_field, json_field,
    json_text, json_text_value, json_unsigned, json_view, new_object, object_value, parse_json,
    JsonModel,
};
use crate::models::dto::auth::{PasetoVerifiedData, VerifiedModel};
use crate::models::entities::auth::{ClaimModel, PayloadClaim, User, UserData, UserModel};
use crate::service::error::AuthError;
use crate::service::paseto::{
    add_claim, claims_view, is_registered_claim, is_text_claim, new_claims, set_expiration,
};
use pasetors::claims::Claims;
use pasetors::errors::Error;
use vstd::prelude::*;

verus! {

/// The JSON object that stands for a user.
pub open spec fn user_json(user: UserModel) -> JsonModel {
    JsonModel::Object(
        Map::empty().insert("user_id"@, JsonModel::Unsigned(user.user_id)).insert(
            "username"@,
            JsonModel::Text(user.username),
        ).insert("role"@, JsonModel::Text(user.role)),
    )
}

/// The JSON object that is embedded in a token: the user under `user`.
pub open spec fn user_data_json(user: UserModel) -> JsonModel {
    JsonModel::Object(Map::empty().insert("user"@, user_json(user)))
}

/// The unsigned integer in the field `key` of a JSON object.
pub open spec fn unsigned_field(value: JsonModel, key: Seq<char>) -> Option<u64> {
    match json_field(value, key) {
        Some(field) => json_unsigned(field),
        None => None,
    }
}

/// The string in the field `key` of a JSON object.
pub open spec fn text_field(value: JsonModel, key: Seq<char>) -> Option<Seq<char>> {
    match json_field(value, key) {
        Some(field) => json_text(field),
        None => None,
    }
}

/// The user that a JSON value stands for: an object with an unsigned
/// `user_id` and with strings as `username` and `role`.
pub open spec fn user_from_json(value: JsonModel) -> Option<UserModel> {
    match (
        unsigned_field(value, "user_id"@),
        text_field(value, "username"@),
        text_field(value, "role"@),
    ) {
        (Some(user_id), Some(username), Some(role)) => Some(UserModel { user_id, username, role }),
        _ => None,
    }
}

/// The user that embedded data stands for: an object with a user under `user`.
pub open spec fn user_data_from_json(value: JsonModel) -> Option<UserModel> {
    match json_field(value, "user"@) {
        Some(user) => user_from_json(user),
        None => None,
    }
}

/// The claim set that a JSON value stands for: an object with embedded data
/// under `user_data` and with strings as `nbf`, `exp` and `iat`.
pub open spec fn claim_from_json(value: JsonModel) -> Option<ClaimModel> {
    match (
        json_field(value, "user_data"@),
        text_field(value, "nbf"@),
        text_field(value, "exp"@),
        text_field(value, "iat"@),
    ) {
        (Some(data), Some(nbf), Some(exp), Some(iat)) => match user_data_from_json(data) {
            Some(user) => Some(ClaimModel { user, nbf, exp, iat }),
            None => None,
        },
        _ => None,
    }
}

/// The claim set that a payload text stands for.
pub open spec fn payload_claim(text: Seq<char>) -> Option<ClaimModel> {
    match json_text_value(text) {
        Some(value) => claim_from_json(value),
        None => None,
    }
}

/// The claims are those of a token issued for `user` that expires at `stamp`:
/// `iat` and `nbf` are there, `exp` is the stamp, and `user_data` embeds the
/// user.
pub open spec fn holds_claim_set(
    claims: Map<Seq<char>, JsonModel>,
    user: UserModel,
    stamp: Seq<char>,
) -> bool {
    &&& is_text_claim(claims, "iat"@)
    &&& is_text_claim(claims, "nbf"@)
    &&& claims.contains_key("exp"@)
    &&& claims["exp"@] == JsonModel::Text(stamp)
    &&& claims.contains_key("user_data"@)
    &&& claims["user_data"@] == user_data_json(user)
}

/// The names of the fields of a user and of the claims differ from one
/// another.
proof fn lemma_names_differ()
    ensures
        "user_id"@ != "username"@,
        "user_id"@ != "role"@,
        "username"@ != "role"@,
        "user_data"@ != "exp"@,
        "user_data"@ != "nbf"@,
        "user_data"@ != "iat"@,
        "exp"@ != "nbf"@,
        "exp"@ != "iat"@,
        "nbf"@ != "iat"@,
        !is_registered_claim("user_data"@),
{
    reveal_strlit("user_id");
    reveal_strlit("username");
    reveal_strlit("role");
    reveal_strlit("user_data");
    reveal_strlit("exp");
    reveal_strlit("nbf");
    reveal_strlit("iat");
    reveal_strlit("iss");
    reveal_strlit("sub");
    reveal_strlit("aud");
    reveal_strlit("jti");
    assert("user_id"@.len() == 7);
    assert("username"@.len() == 8);
    assert("role"@.len() == 4);
    assert("user_data"@.len() == 9);
    assert("exp"@.len() == 3);
    assert("nbf"@.len() == 3);
    assert("iat"@.len() == 3);
    assert("iss"@.len() == 3);
    assert("sub"@.len() == 3);
    assert("aud"@.len() == 3);
    assert("jti"@.len() == 3);
    assert("exp"@[0] != "nbf"@[0]);
    assert("exp"@[0] != "iat"@[0]);
    assert("nbf"@[0] != "iat"@[0]);
}

/// The user that is read out of the JSON object made for a user is that user.
pub proof fn law_user_reads_back(user: UserModel)
    ensures
        user_from_json(user_json(user)) == Some(user),
        user_data_from_json(user_data_json(user)) == Some(user),
{
    lemma_names_differ();
}

/// Whatever else a claim set holds: the claims that are read out of the claim
/// set of a token issued for `user` with the stamp `stamp` name that user and
/// that stamp.
pub proof fn law_claim_set_reads_back(
    claims: Map<Seq<char>, JsonModel>,
    user: UserModel,
    stamp: Seq<char>,
)
    requires
        holds_claim_set(claims, user, stamp),
    ensures
        claim_from_json(JsonModel::Object(claims)) matches Some(claim) && claim.user == user
            && claim.exp == stamp,
{
    law_user_reads_back(user);
}

/// The JSON object that stands for a user.
pub(crate) fn user_to_json(user: &User) -> (value: serde_json::Value)
    ensures
        json_view(value) == user_json(user@),
{
    let mut fields = new_object();
    insert_field(&mut fields, "user_id", from_unsigned(user.user_id));
    insert_field(&mut fields, "username", from_text(user.username.as_str()));
    insert_field(&mut fields, "role", from_text(user.role.as_str()));
    object_value(fields)
}

/// The JSON object that is embedded in a token for an identity.
pub(crate) fn user_data_to_json(data: &UserData) -> (value: serde_json::Value)
    ensures
        json_view(value) == user_data_json(data@),
{
    let mut fields = new_object();
    insert_field(&mut fields, "user", user_to_json(&data.user));
    object_value(fields)
}

/// The unsigned integer in a field of a JSON object.
fn read_unsigned(value: &serde_json::Value, key: &str) -> (number: Option<u64>)
    ensures
        number == unsigned_field(json_view(*value), key@),
{
    match get_field(value, key) {
        Some(field) => as_unsigned(field),
        None => None,
    }
}

/// The string in a field of a JSON object.
fn read_text(value: &serde_json::Value, key: &str) -> (text: Option<String>)
    ensures
        match text {
            Some(s) => text_field(json_view(*value), key@) == Some(s@),
            None => text_field(json_view(*value), key@) is None,
        },
{
    match get_field(value, key) {
        Some(field) => as_text(field),
        None => None,
    }
}

/// Reads a user out of a JSON value.
pub(crate) fn user_of_json(value: &serde_json::Value) -> (user: Option<User>)
    ensures
        match user {
            Some(u) => user_from_json(json_view(*value)) == Some(u@),
            None => user_from_json(json_view(*value)) is None,
        },
{
    let user_id = read_unsigned(value, "user_id");
    let username = read_text(value, "username");
    let role = read_text(value, "role");
    match (user_id, username, role) {
        (Some(user_id), Some(username), Some(role)) => Some(User { user_id, username, role }),
        _ => None,
    }
}

/// Reads embedded data out of a JSON value.
pub(crate) fn user_data_of_json(value: &serde_json::Value) -> (data: Option<UserData>)
    ensures
        match data {
            Some(d) => user_data_from_json(json_view(*value)) == Some(d@),
            None => user_data_from_json(json_view(*value)) is None,
        },
{
    match get_field(value, "user") {
        Some(field) => match user_of_json(field) {
            Some(user) => Some(UserData { user }),
            None => None,
        },
        None => None,
    }
}

/// Reads a claim set out of a JSON value.
pub(crate) fn claim_of_json(value: &serde_json::Value) -> (claim: Option<PayloadClaim>)
    ensures
        match claim {
            Some(c) => claim_from_json(json_view(*value)) == Some(c@),
            None => claim_from_json(json_view(*value)) is None,
        },
{
    let data = get_field(value, "user_data");
    let nbf = read_text(value, "nbf");
    let exp = read_text(value, "exp");
    let iat = read_text(value, "iat");
    match (data, nbf, exp, iat) {
        (Some(data), Some(nbf), Some(exp), Some(iat)) => match user_data_of_json(data) {
            Some(user_data) => Some(PayloadClaim { user_data, nbf, exp, iat }),
            None => None,
        },
        _ => None,
    }
}

/// Reads the claim set out of the payload of a token. The payload has to be a
/// JSON object that holds embedded user data and the three time claims.
pub fn parse_payload_claim(text: &str) -> (claim: Option<PayloadClaim>)
    ensures
        match claim {
            Some(c) => payload_claim(text@) == Some(c@),
            None => payload_claim(text@) is None,
        },
{
    match parse_json(text) {
        Some(value) => claim_of_json(&value),
        None => None,
    }
}

/// The outcome of a verification whose token held and carried `text` as its
/// payload: the identity in the payload, marked valid; `MalformedPayload` for
/// a payload that is no claim set.
pub fn verified_data_from_payload(text: &str) -> (outcome: Result<PasetoVerifiedData, AuthError>)
    ensures
        match payload_claim(text@) {
            Some(claim) => outcome matches Ok(data) && data@ == (VerifiedModel {
                user: claim.user,
                token_valid: true,
            }),
            None => outcome == Err::<PasetoVerifiedData, AuthError>(AuthError::MalformedPayload),
        },
{
    match parse_payload_claim(text) {
        Some(claim) => Ok(PasetoVerifiedData::new(claim.user_data.user, true)),
        None => Err(AuthError::MalformedPayload),
    }
}

/// Assembles the claim set of a token for an identity: the claims of the
/// present instant, `exp` replaced by `stamp`, and the identity as
/// `user_data`.
pub(crate) fn assemble_claims(data: &UserData, stamp: &str) -> (made: Result<Claims, Error>)
    ensures
        made matches Ok(claims) ==> holds_claim_set(claims_view(claims), data@, stamp@),
        made is Ok ==> crate::service::paseto::claim_stamp_accepted(stamp@),
{
    // The claims of the present instant come from the outside: which instant
    // they name, and whether they can be made at all, is not in our hands.
    let fresh = match new_claims() {
        Ok(fresh) => fresh,
        Err(e) => {
            return Err(e);
        },
    };
    // What is made of them is: the stamp and the identity are put in.
    let ghost before = claims_view(fresh);
    let made = complete_claims(fresh, data, stamp);
    proof {
        lemma_names_differ();
        if made is Ok {
            assert(is_text_claim(before, "iat"@));
            assert(is_text_claim(before, "nbf"@));
        }
    }
    made
}

/// A claim set with `exp` set to `stamp` and `user_data` set to the embedded
/// form of `user`.
pub open spec fn with_stamp_and_user(
    claims: Map<Seq<char>, JsonModel>,
    user: UserModel,
    stamp: Seq<char>,
) -> Map<Seq<char>, JsonModel> {
    claims.insert("exp"@, JsonModel::Text(stamp)).insert("user_data"@, user_data_json(user))
}

/// The claim set `claims` with `exp` set to `stamp` and with the identity
/// embedded as `user_data`; all other claims stay. It fails exactly for a
/// stamp that cannot stand in a time claim.
pub(crate) fn complete_claims(claims: Claims, data: &UserData, stamp: &str) -> (made: Result<
    Claims,
    Error,
>)
    ensures
        match made {
            Ok(full) => crate::service::paseto::claim_stamp_accepted(stamp@) && claims_view(full) == with_stamp_and_user(
                claims_view(claims),
                data@,
                stamp@,
            ),
            Err(_) => !crate::service::paseto::claim_stamp_accepted(stamp@),
        },
{
    let mut claims = claims;
    match set_expiration(&mut claims, stamp) {
        Ok(_) => {},
        Err(e) => {
            return Err(e);
        },
    }
    proof {
        lemma_names_differ();
    }
    match add_claim(&mut claims, "user_data", user_data_to_json(data)) {
        Ok(_) => {},
        Err(e) => {
            return Err(e);
        },
    }
    Ok(claims)
}

} // verus!
