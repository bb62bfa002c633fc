//! The calls into `pasetors`: claim sets, sealing and opening of tokens.

use crate::json::{json_text_value, json_view, JsonModel};
use crate::service::keys::{public_half, seed_is_set};
use crate::text::starts_with;
use pasetors::claims::Claims;
use pasetors::errors::Error;
use pasetors::token::{Local, Public, TrustedToken, UntrustedToken};
use pasetors::version4::V4;
use vstd::prelude::*;
use vstd::utf8::{decode_utf8, encode_utf8};

verus! {

#[verifier::external_type_specification]
#[verifier::external_body]
pub struct ExClaims(Claims);

#[verifier::external_type_specification]
#[verifier::external_body]
pub struct ExPasetoError(Error);

#[verifier::external_type_specification]
#[verifier::external_body]
pub struct ExTrustedToken(TrustedToken);

/// The claims that a claim set holds, by name.
pub uninterp spec fn claims_view(claims: Claims) -> Map<Seq<char>, JsonModel>;

/// A stamp can stand in a time claim: `pasetors` reads it as an RFC 3339 date
/// and time.
pub uninterp spec fn claim_stamp_accepted(stamp: Seq<char>) -> bool;

/// The payload that a trusted token holds, as text.
pub uninterp spec fn trusted_payload(token: TrustedToken) -> Seq<char>;

/// The plaintext that a text carries as a `v4.local` token for a key and an
/// implicit assertion: the bytes that `pasetors` decrypts from it where its
/// authentication tag holds. `None` where the tag does not hold.
pub uninterp spec fn local_token_plaintext(
    key: Seq<u8>,
    text: Seq<char>,
    implicit: Seq<u8>,
) -> Option<Seq<u8>>;

/// The message that a text carries as a `v4.public` token for a public key
/// and an implicit assertion: the bytes that `pasetors` takes from it where
/// its signature holds. `None` where the signature does not hold.
pub uninterp spec fn public_token_message(
    public: Seq<u8>,
    text: Seq<char>,
    implicit: Seq<u8>,
) -> Option<Seq<u8>>;

/// The text that `pasetors` gives for one of its errors.
pub uninterp spec fn error_words(error: Error) -> Seq<char>;

/// An error of `pasetors` is `TokenValidation`: the authentication tag or the
/// signature did not hold.
pub uninterp spec fn is_token_validation(error: Error) -> bool;

/// An error of `pasetors` is `Key`: the key was refused.
pub uninterp spec fn is_key_refusal(error: Error) -> bool;

/// A text has the shape of a `v4.local` token: `pasetors` parses it as one.
pub uninterp spec fn local_token_shape(text: Seq<char>) -> bool;

/// A text has the shape of a `v4.public` token: `pasetors` parses it as one.
pub uninterp spec fn public_token_shape(text: Seq<char>) -> bool;

/// The header of every `v4.local` token.
pub open spec fn local_header() -> Seq<char> {
    "v4.local."@
}

/// The header of every `v4.public` token.
pub open spec fn public_header() -> Seq<char> {
    "v4.public."@
}

/// A text is a `v4.local` token: it starts with the local header and the rest
/// has the shape that `pasetors` asks for.
pub open spec fn is_local_token(text: Seq<char>) -> bool {
    starts_with(text, local_header()) && local_token_shape(text)
}

/// A text is a `v4.public` token: it starts with the public header and the
/// rest has the shape that `pasetors` asks for.
pub open spec fn is_public_token(text: Seq<char>) -> bool {
    starts_with(text, public_header()) && public_token_shape(text)
}

/// No text starts with both headers.
pub proof fn lemma_headers_differ(text: Seq<char>)
    ensures
        !(starts_with(text, local_header()) && starts_with(text, public_header())),
{
    reveal_strlit("v4.local.");
    reveal_strlit("v4.public.");
    if starts_with(text, local_header()) && starts_with(text, public_header()) {
        assert(text.subrange(0, 9)[3] == 'l');
        assert(text.subrange(0, 10)[3] == 'p');
    }
}

/// The bytes are a writing of the claims: where `serde_json` reads their text
/// at all, it reads the JSON object of these claims.
pub open spec fn writes_claims(bytes: Seq<u8>, claims: Map<Seq<char>, JsonModel>) -> bool {
    json_text_value(decode_utf8(bytes)) matches Some(read) ==> read == JsonModel::Object(claims)
}

/// A claim name that PASETO reserves; none of them can carry additional data.
pub open spec fn is_registered_claim(name: Seq<char>) -> bool {
    name == "iss"@ || name == "sub"@ || name == "aud"@ || name == "exp"@ || name == "nbf"@
        || name == "iat"@ || name == "jti"@
}

/// The claim `name` is there and is a string.
pub open spec fn is_text_claim(claims: Map<Seq<char>, JsonModel>, name: Seq<char>) -> bool {
    claims.contains_key(name) && claims[name] is Text
}

/// `Claims::new`: a claim set whose `iat` and `nbf` are the present instant and
/// whose `exp` lies one hour later. Which instants they are depends on the
/// moment of the call; only that the three claims are there, as strings, is
/// stated.
#[verifier::external_body]
pub(crate) fn new_claims() -> (made: Result<Claims, Error>)
    ensures
        made matches Ok(claims) ==> is_text_claim(claims_view(claims), "iat"@) && is_text_claim(
            claims_view(claims),
            "nbf"@,
        ) && is_text_claim(claims_view(claims), "exp"@),
{
    Claims::new()
}

/// `Claims::expiration`: it accepts the stamps that `claim_stamp_accepted`
/// names, whatever the claim set holds. Where it accepts the stamp, the `exp`
/// claim is that stamp as a string, and all else is as before; where it
/// refuses, nothing has changed.
#[verifier::external_body]
pub(crate) fn set_expiration(claims: &mut Claims, stamp: &str) -> (set: Result<(), Error>)
    ensures
        set is Ok <==> claim_stamp_accepted(stamp@),
        match set {
            Ok(_) => claims_view(*final(claims)) == claims_view(*old(claims)).insert(
                "exp"@,
                JsonModel::Text(stamp@),
            ),
            Err(_) => claims_view(*final(claims)) == claims_view(*old(claims)),
        },
{
    claims.expiration(stamp)
}

/// `Claims::add_additional`: a reserved name is refused and nothing changes;
/// under any other name the value is stored, in place of an earlier one if
/// there was one.
#[verifier::external_body]
pub(crate) fn add_claim(claims: &mut Claims, name: &str, value: serde_json::Value) -> (added:
    Result<(), Error>)
    ensures
        is_registered_claim(name@) ==> added is Err && claims_view(*final(claims)) == claims_view(
            *old(claims),
        ),
        !is_registered_claim(name@) ==> added is Ok && claims_view(*final(claims)) == claims_view(
            *old(claims),
        ).insert(name@, json_view(value)),
{
    claims.add_additional(name, value)
}

/// `pasetors::local::encrypt` under a key made by `SymmetricKey::from`, with no
/// footer and with `implicit` as the implicit assertion. The nonce is drawn at
/// random, so which token comes out is open. Of every token that does: it is
/// the local header and then the encoded nonce, ciphertext and tag, so it
/// parses as a local token; its tag holds for the same key and implicit
/// assertion, and the plaintext it carries for them is the JSON text that
/// `pasetors` wrote for the claims.
#[verifier::external_body]
pub(crate) fn seal_local(key: &[u8], claims: &Claims, implicit: &[u8]) -> (sealed: Result<
    String,
    Error,
>)
    requires
        key@.len() == 32,
    ensures
        sealed matches Ok(token) ==> starts_with(token@, local_header()) && local_token_shape(
            token@,
        ),
        sealed matches Ok(token) ==> (local_token_plaintext(key@, token@, implicit@) matches Some(
            plain,
        ) && writes_claims(plain, claims_view(*claims))),
{
    let key = pasetors::keys::SymmetricKey::<V4>::from(key)?;
    pasetors::local::encrypt(&key, claims, None, Some(implicit))
}

/// Whether `UntrustedToken::<Local, V4>::try_from` succeeds: it does on the
/// texts that start with the local header and that `local_token_shape` names.
#[verifier::external_body]
pub(crate) fn parses_as_local(text: &str) -> (parsed: bool)
    ensures
        parsed <==> (starts_with(text@, local_header()) && local_token_shape(text@)),
{
    UntrustedToken::<Local, V4>::try_from(text).is_ok()
}

/// `pasetors::local::decrypt` of the token that `UntrustedToken::try_from`
/// reads from `text`, under a key made by `SymmetricKey::from`, with the
/// default validation rules, no footer and `implicit` as the implicit
/// assertion. A text whose tag does not hold for them fails with
/// `Error::TokenValidation`. The rules compare the claims with the clock, so
/// whether a trusted token comes out is open; the payload of one that does is
/// the plaintext that the text carries.
#[verifier::external_body]
pub(crate) fn open_local(key: &[u8], text: &str, implicit: &[u8]) -> (opened: Result<
    TrustedToken,
    Error,
>)
    requires
        key@.len() == 32,
        is_local_token(text@),
    ensures
        match opened {
            Ok(token) => local_token_plaintext(key@, text@, implicit@) == Some(
                encode_utf8(trusted_payload(token)),
            ),
            Err(e) => local_token_plaintext(key@, text@, implicit@) is None ==> is_token_validation(
                e,
            ),
        },
{
    let key = pasetors::keys::SymmetricKey::<V4>::from(key)?;
    let token = UntrustedToken::<Local, V4>::try_from(text)?;
    let rules = pasetors::claims::ClaimsValidationRules::new();
    pasetors::local::decrypt(&key, &token, &rules, None, Some(implicit))
}

/// `pasetors::public::sign` under a key made by `AsymmetricSecretKey::from`,
/// with no footer and with `implicit` as the implicit assertion. The claims
/// are written in the order in which their map is walked, so which token
/// comes out is open. Of every token that does: it is the public header and
/// then the encoded message and signature, so it parses as a public token;
/// its signature holds for the public half of the key and the implicit
/// assertion, and the message it carries is the JSON text that `pasetors`
/// wrote for the claims. The zero seed, on which the key's constructor
/// panics, is left out.
#[verifier::external_body]
pub(crate) fn sign_public(secret: &[u8], claims: &Claims, implicit: &[u8]) -> (signed: Result<
    String,
    Error,
>)
    requires
        secret@.len() == 64,
        seed_is_set(secret@),
    ensures
        signed matches Ok(token) ==> starts_with(token@, public_header()) && public_token_shape(
            token@,
        ),
        signed matches Ok(token) ==> (public_token_message(public_half(secret@), token@, implicit@)
            matches Some(plain) && writes_claims(plain, claims_view(*claims))),
{
    let key = pasetors::keys::AsymmetricSecretKey::<V4>::from(secret)?;
    pasetors::public::sign(&key, claims, None, Some(implicit))
}

/// Whether `UntrustedToken::<Public, V4>::try_from` succeeds: it does on the
/// texts that start with the public header and that `public_token_shape`
/// names.
#[verifier::external_body]
pub(crate) fn parses_as_public(text: &str) -> (parsed: bool)
    ensures
        parsed <==> (starts_with(text@, public_header()) && public_token_shape(text@)),
{
    UntrustedToken::<Public, V4>::try_from(text).is_ok()
}

/// `pasetors::public::verify` of the token that `UntrustedToken::try_from`
/// reads from `text`, under a key made by `AsymmetricPublicKey::from`, with
/// the default validation rules, no footer and `implicit` as the implicit
/// assertion. A text whose signature does not hold for them fails with
/// `Error::TokenValidation`. The rules compare the claims with the clock, so
/// whether a trusted token comes out is open; the payload of one that does is
/// the message that the text carries.
#[verifier::external_body]
pub(crate) fn verify_public(public: &[u8], text: &str, implicit: &[u8]) -> (verified: Result<
    TrustedToken,
    Error,
>)
    requires
        public@.len() == 32,
        is_public_token(text@),
    ensures
        match verified {
            Ok(token) => public_token_message(public@, text@, implicit@) == Some(
                encode_utf8(trusted_payload(token)),
            ),
            Err(e) => public_token_message(public@, text@, implicit@) is None
                ==> is_token_validation(e),
        },
{
    let key = pasetors::keys::AsymmetricPublicKey::<V4>::from(public)?;
    let token = UntrustedToken::<Public, V4>::try_from(text)?;
    let rules = pasetors::claims::ClaimsValidationRules::new();
    pasetors::public::verify(&key, &token, &rules, None, Some(implicit))
}

/// `TrustedToken::payload`, copied into a `String`: the payload of the token.
#[verifier::external_body]
pub(crate) fn payload_text(token: &TrustedToken) -> (text: String)
    ensures
        text@ == trusted_payload(*token),
{
    token.payload().to_string()
}

/// Whether an error is the variant `Error::TokenValidation`.
#[verifier::external_body]
pub(crate) fn tag_failed(error: &Error) -> (failed: bool)
    ensures
        failed == is_token_validation(*error),
{
    match error {
        Error::TokenValidation => true,
        _ => false,
    }
}

/// Whether an error is the variant `Error::Key`.
#[verifier::external_body]
pub(crate) fn key_refused(error: &Error) -> (refused: bool)
    ensures
        refused == is_key_refusal(*error),
{
    match error {
        Error::Key => true,
        _ => false,
    }
}

/// The text that `pasetors` gives for one of its errors, by its `Display`.
#[verifier::external_body]
pub(crate) fn error_text(error: &Error) -> (text: String)
    ensures
        text@ == error_words(*error),
{
    error.to_string()
}

} // verus!
