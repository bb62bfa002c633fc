//! The ways in which issuance and verification fail.

use vstd::prelude::*;
use vstd::string::StringExecFns;

verus! {

/// Why an operation of the engine failed. Every failure ends the call that
/// met it.
#[derive(Debug, Clone, PartialEq, Eq)]
pub enum AuthError {
    /// The key material is malformed; found before any cryptographic call.
    InvalidKeyMaterial,
    /// The stamp beside the token is stale.
    TokenExpired,
    /// The text is no token of the expected version and purpose.
    MalformedToken,
    /// The authentication tag or the signature did not hold.
    VerificationFailed,
    /// The token held, but its payload is not the expected claim set, or its
    /// claims were refused when they were validated.
    MalformedPayload,
    /// Issuance failed; the text says what was refused.
    EncodingFailure(String),
}

/// The text that describes an error.
pub open spec fn error_message(error: AuthError) -> Seq<char> {
    match error {
        AuthError::InvalidKeyMaterial => "invalid secret key length, must 32 bytes"@,
        AuthError::TokenExpired => "expired token cannot claimed"@,
        AuthError::MalformedToken => "token is not in the expected format"@,
        AuthError::VerificationFailed => "token verification failed"@,
        AuthError::MalformedPayload => "token payload is not a valid claim set"@,
        AuthError::EncodingFailure(detail) => "error occur when encrypting token: "@ + detail@,
    }
}

impl AuthError {
    /// A text that describes the error.
    pub fn message(&self) -> (text: String)
        ensures
            text@ == error_message(*self),
    {
        match self {
            AuthError::InvalidKeyMaterial => String::from_str(
                "invalid secret key length, must 32 bytes",
            ),
            AuthError::TokenExpired => String::from_str("expired token cannot claimed"),
            AuthError::MalformedToken => String::from_str("token is not in the expected format"),
            AuthError::VerificationFailed => String::from_str("token verification failed"),
            AuthError::MalformedPayload => String::from_str(
                "token payload is not a valid claim set",
            ),
            AuthError::EncodingFailure(detail) => {
                let mut text = String::from_str("error occur when encrypting token: ");
                text.append(detail.as_str());
                text
            },
        }
    }
}

} // verus!
