//! The four handlers: they turn a request into a call of the engine and the
//! outcome into a status code and a response.

use crate::models::dto::auth::{
    claim_success_message, unverified, verify_success_message, PasetoClaimRequest,
    PasetoClaimResponse, PasetoVerifiedData, PasetoVerifyRequest, PasetoVerifyResponse,
};
use crate::models::entities::auth::{PasetoToken, TokenModel, UserData};
use crate::service::auth_interface::AuthService;
use crate::service::error::AuthError;
use vstd::prelude::*;
use vstd::string::StringExecFns;

verus! {

/// Status code of a reply that carries what was asked for.
pub const STATUS_OK: u16 = 200;

/// Status code of a reply to a token that was not accepted.
pub const STATUS_UNAUTHORIZED: u16 = 401;

/// Status code of a reply to a claim that could not be served.
pub const STATUS_INTERNAL_SERVER_ERROR: u16 = 500;

/// What a handler hands to the host: the status code, the response, and the
/// failure behind it where there was one, for the host's log.
#[derive(Debug, Clone, PartialEq, Eq)]
pub struct Reply<B> {
    pub status: u16,
    pub body: B,
    pub error: Option<AuthError>,
}

/// The message of a reply to a claim that the confidential mode did not serve.
pub open spec fn local_claim_refusal() -> Seq<char> {
    "unable to claim token"@
}

/// The message of a reply to a claim that the verifiable mode did not serve.
pub open spec fn public_claim_refusal() -> Seq<char> {
    "unable to claim public token"@
}

/// The message of a reply to a token that the confidential mode rejected.
pub open spec fn local_verify_refusal() -> Seq<char> {
    "invalid local token, user unauthorized"@
}

/// The message of a reply to a token that the verifiable mode rejected.
pub open spec fn public_verify_refusal() -> Seq<char> {
    "invalid public token, user unauthorized"@
}

/// The reply that is owed for the outcome of a claim: 200 with the token, or
/// 500 with `refusal` as the message and no token.
pub open spec fn answers_claim(
    reply: Reply<PasetoClaimResponse>,
    outcome: Result<PasetoToken, AuthError>,
    refusal: Seq<char>,
) -> bool {
    match outcome {
        Ok(token) => {
            &&& reply.status == STATUS_OK
            &&& reply.body.message@ == claim_success_message()
            &&& reply.body.data == Some(token)
            &&& reply.error is None
        },
        Err(e) => {
            &&& reply.status == STATUS_INTERNAL_SERVER_ERROR
            &&& reply.body.message@ == refusal
            &&& reply.body.data is None
            &&& reply.error == Some(e)
        },
    }
}

/// The reply that is owed for the outcome of a verification: 200 with the
/// identity, or 401 with `refusal` as the message and an empty identity that
/// is marked as not valid.
pub open spec fn answers_verify(
    reply: Reply<PasetoVerifyResponse>,
    outcome: Result<PasetoVerifiedData, AuthError>,
    refusal: Seq<char>,
) -> bool {
    match outcome {
        Ok(data) => {
            &&& reply.status == STATUS_OK
            &&& reply.body.message@ == verify_success_message()
            &&& reply.body.data == Some(data)
            &&& reply.error is None
        },
        Err(e) => {
            &&& reply.status == STATUS_UNAUTHORIZED
            &&& reply.body.message@ == refusal
            &&& reply.body.data matches Some(data) && data@ == unverified()
            &&& reply.error == Some(e)
        },
    }
}

/// The token that a verify request asks about: its text and its stamp.
pub open spec fn request_token(request: PasetoVerifyRequest) -> TokenModel {
    TokenModel { token: request.token@, expired: request.expired@ }
}

/// The reply to a claim with the given outcome.
fn claim_reply(outcome: Result<PasetoToken, AuthError>, refusal: &str) -> (reply: Reply<
    PasetoClaimResponse,
>)
    ensures
        answers_claim(reply, outcome, refusal@),
{
    match outcome {
        Ok(token) => Reply {
            status: STATUS_OK,
            body: PasetoClaimResponse::success(token),
            error: None,
        },
        Err(e) => Reply {
            status: STATUS_INTERNAL_SERVER_ERROR,
            body: PasetoClaimResponse::failure(String::from_str(refusal)),
            error: Some(e),
        },
    }
}

/// The reply to a verification with the given outcome.
fn verify_reply(outcome: Result<PasetoVerifiedData, AuthError>, refusal: &str) -> (reply: Reply<
    PasetoVerifyResponse,
>)
    ensures
        answers_verify(reply, outcome, refusal@),
{
    match outcome {
        Ok(data) => Reply {
            status: STATUS_OK,
            body: PasetoVerifyResponse::success(data),
            error: None,
        },
        Err(e) => Reply {
            status: STATUS_UNAUTHORIZED,
            body: PasetoVerifyResponse::failure(String::from_str(refusal)),
            error: Some(e),
        },
    }
}

/// The reply to a claim in the confidential mode that ended in `outcome`.
pub fn local_claim_reply(outcome: Result<PasetoToken, AuthError>) -> (reply: Reply<
    PasetoClaimResponse,
>)
    ensures
        answers_claim(reply, outcome, local_claim_refusal()),
{
    claim_reply(outcome, "unable to claim token")
}

/// The reply to a verification in the confidential mode that ended in
/// `outcome`.
pub fn local_verify_reply(outcome: Result<PasetoVerifiedData, AuthError>) -> (reply: Reply<
    PasetoVerifyResponse,
>)
    ensures
        answers_verify(reply, outcome, local_verify_refusal()),
{
    verify_reply(outcome, "invalid local token, user unauthorized")
}

/// The reply to a claim in the verifiable mode that ended in `outcome`.
pub fn public_claim_reply(outcome: Result<PasetoToken, AuthError>) -> (reply: Reply<
    PasetoClaimResponse,
>)
    ensures
        answers_claim(reply, outcome, public_claim_refusal()),
{
    claim_reply(outcome, "unable to claim public token")
}

/// The reply to a verification in the verifiable mode that ended in
/// `outcome`.
pub fn public_verify_reply(outcome: Result<PasetoVerifiedData, AuthError>) -> (reply: Reply<
    PasetoVerifyResponse,
>)
    ensures
        answers_verify(reply, outcome, public_verify_refusal()),
{
    verify_reply(outcome, "invalid public token, user unauthorized")
}

/// Serves a claim in the confidential mode: the reply answers an outcome that
/// the engine owes for a claim by the user of the request.
pub fn claim_local_token<T: AuthService>(state: &T, body: PasetoClaimRequest) -> (reply: Reply<
    PasetoClaimResponse,
>)
    ensures
        exists|outcome: Result<PasetoToken, AuthError>|
            state.local_claim_owed(body.user@, outcome) && #[trigger] answers_claim(
                reply,
                outcome,
                local_claim_refusal(),
            ),
{
    let user_data = UserData { user: body.user };
    let outcome = state.claim_local_token(user_data);
    let reply = local_claim_reply(outcome);
    assert(state.local_claim_owed(body.user@, outcome) && answers_claim(
        reply,
        outcome,
        local_claim_refusal(),
    ));
    reply
}

/// Serves a verification in the confidential mode: the reply answers an
/// outcome that the engine owes for the token of the request. A reply with
/// status 200 carries an identity that is marked valid.
pub fn verify_local_token<T: AuthService>(state: &T, body: PasetoVerifyRequest) -> (reply: Reply<
    PasetoVerifyResponse,
>)
    ensures
        exists|outcome: Result<PasetoVerifiedData, AuthError>|
            {
                &&& state.local_verify_owed(request_token(body), outcome)
                &&& #[trigger] answers_verify(reply, outcome, local_verify_refusal())
                &&& outcome matches Ok(data) ==> data.token_valid
            },
{
    let token = PasetoToken { token: body.token, expired: body.expired };
    let ghost model = token@;
    let outcome = state.verify_local_token(token);
    let reply = local_verify_reply(outcome);
    assert(state.local_verify_owed(model, outcome) && answers_verify(
        reply,
        outcome,
        local_verify_refusal(),
    ) && (outcome matches Ok(data) ==> data.token_valid));
    reply
}

/// Serves a claim in the verifiable mode: the reply answers an outcome that
/// the engine owes for a claim by the user of the request.
pub fn claim_public_token<T: AuthService>(state: &T, body: PasetoClaimRequest) -> (reply: Reply<
    PasetoClaimResponse,
>)
    ensures
        exists|outcome: Result<PasetoToken, AuthError>|
            state.public_claim_owed(body.user@, outcome) && #[trigger] answers_claim(
                reply,
                outcome,
                public_claim_refusal(),
            ),
{
    let user_data = UserData { user: body.user };
    let outcome = state.claim_public_token(user_data);
    let reply = public_claim_reply(outcome);
    assert(state.public_claim_owed(body.user@, outcome) && answers_claim(
        reply,
        outcome,
        public_claim_refusal(),
    ));
    reply
}

/// Serves a verification in the verifiable mode: the reply answers an
/// outcome that the engine owes for the token of the request. A reply with
/// status 200 carries an identity that is marked valid.
pub fn verify_public_token<T: AuthService>(state: &T, body: PasetoVerifyRequest) -> (reply: Reply<
    PasetoVerifyResponse,
>)
    ensures
        exists|outcome: Result<PasetoVerifiedData, AuthError>|
            {
                &&& state.public_verify_owed(request_token(body), outcome)
                &&& #[trigger] answers_verify(reply, outcome, public_verify_refusal())
                &&& outcome matches Ok(data) ==> data.token_valid
            },
{
    let token = PasetoToken { token: body.token, expired: body.expired };
    let ghost model = token@;
    let outcome = state.verify_public_token(token);
    let reply = public_verify_reply(outcome);
    assert(state.public_verify_owed(model, outcome) && answers_verify(
        reply,
        outcome,
        public_verify_refusal(),
    ) && (outcome matches Ok(data) ==> data.token_valid));
    reply
}

} // verus!
