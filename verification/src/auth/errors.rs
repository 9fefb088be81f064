//! Errors of the authentication and authorization layer.

use vstd::prelude::*;

use crate::text::{concat_str, owned};

verus! {

/// Error of `base64` decoding.
#[verifier::external_type_specification]
#[verifier::external_body]
pub struct ExBase64DecodeError(base64::DecodeError);

/// Error of `String::from_utf8`.
#[verifier::external_type_specification]
#[verifier::external_body]
pub struct ExFromUtf8Error(std::string::FromUtf8Error);

/// Error type used in authentication and authorization layer.
#[derive(Debug)]
pub enum AuthError {
    /// No authentication data provided.
    NoAuthProvided,
    /// Invalid format for Authorization header.
    InvalidAuthHeader,
    /// Unknown authentication scheme.
    UnknownAuthScheme(String),
    /// Authentication payload decoding error.
    PayloadDecode(base64::DecodeError),
    /// Authentication payload is not printable.
    NonPrintablePayload(std::string::FromUtf8Error),
    /// Invalid authentication payload.
    InvalidAuthPayload,
    /// User not recognized.
    ///
    /// Must produce exactly the same response as [`AuthError::AuthFailed`], so as
    /// not to divulge which users exist.
    UserNotFound,
    /// Authentication failed.
    ///
    /// Must produce exactly the same response as [`AuthError::UserNotFound`].
    AuthFailed,
    /// User does not have permission.
    NoPermission(String),
}

/// The abstract content of an [`AuthError`]; an outside error carried by a
/// decoding variant stands as the text its `Display` gives.
pub enum AuthErrorKind {
    NoAuthProvided,
    InvalidAuthHeader,
    UnknownAuthScheme(Seq<char>),
    PayloadDecode(Seq<char>),
    NonPrintablePayload(Seq<char>),
    InvalidAuthPayload,
    UserNotFound,
    AuthFailed,
    NoPermission(Seq<char>),
}

impl View for AuthError {
    type V = AuthErrorKind;

    open spec fn view(&self) -> AuthErrorKind {
        match self {
            AuthError::NoAuthProvided => AuthErrorKind::NoAuthProvided,
            AuthError::InvalidAuthHeader => AuthErrorKind::InvalidAuthHeader,
            AuthError::UnknownAuthScheme(s) => AuthErrorKind::UnknownAuthScheme(s@),
            AuthError::PayloadDecode(d) => AuthErrorKind::PayloadDecode(base64_error_message(*d)),
            AuthError::NonPrintablePayload(u) => AuthErrorKind::NonPrintablePayload(utf8_error_message(*u)),
            AuthError::InvalidAuthPayload => AuthErrorKind::InvalidAuthPayload,
            AuthError::UserNotFound => AuthErrorKind::UserNotFound,
            AuthError::AuthFailed => AuthErrorKind::AuthFailed,
            AuthError::NoPermission(p) => AuthErrorKind::NoPermission(p@),
        }
    }
}

/// The message of an error.
pub open spec fn kind_message(k: AuthErrorKind) -> Seq<char> {
    match k {
        AuthErrorKind::NoAuthProvided => "No authentication data provided"@,
        AuthErrorKind::InvalidAuthHeader => "Invalid format for Authorization header"@,
        AuthErrorKind::UnknownAuthScheme(s) => "Unknown authentication scheme: "@ + s,
        AuthErrorKind::PayloadDecode(m) => "Authentication payload decoding error: "@ + m,
        AuthErrorKind::NonPrintablePayload(m) => "Authentication payload is not printable: "@ + m,
        AuthErrorKind::InvalidAuthPayload => "Invalid authentication payload"@,
        AuthErrorKind::UserNotFound => "Authentication failed"@,
        AuthErrorKind::AuthFailed => "Authentication failed"@,
        AuthErrorKind::NoPermission(p) => "User does not have permission: "@ + p,
    }
}

/// Name of the text that the `Display` of a `base64` decoding error gives.
pub uninterp spec fn base64_error_message(err: base64::DecodeError) -> Seq<char>;

/// Name of the text that the `Display` of a `String::from_utf8` error gives.
pub uninterp spec fn utf8_error_message(err: std::string::FromUtf8Error) -> Seq<char>;

/// Display text of a `base64` decoding error.
#[verifier::external_body]
fn decode_error_text(err: &base64::DecodeError) -> (r: String)
    ensures
        r@ == base64_error_message(*err),
{
    format!("{err}")
}

/// Display text of a `String::from_utf8` error.
#[verifier::external_body]
fn utf8_error_text(err: &std::string::FromUtf8Error) -> (r: String)
    ensures
        r@ == utf8_error_message(*err),
{
    format!("{err}")
}

impl AuthError {
    /// Human-readable message of the error.
    pub fn message(&self) -> (r: String)
        ensures
            r@ == kind_message(self@),
    {
        match self {
            AuthError::NoAuthProvided => owned("No authentication data provided"),
            AuthError::InvalidAuthHeader => owned("Invalid format for Authorization header"),
            AuthError::UnknownAuthScheme(s) => concat_str("Unknown authentication scheme: ", s.as_str()),
            AuthError::PayloadDecode(e) => {
                let text = decode_error_text(e);
                concat_str("Authentication payload decoding error: ", text.as_str())
            },
            AuthError::NonPrintablePayload(e) => {
                let text = utf8_error_text(e);
                concat_str("Authentication payload is not printable: ", text.as_str())
            },
            AuthError::InvalidAuthPayload => owned("Invalid authentication payload"),
            AuthError::UserNotFound => owned("Authentication failed"),
            AuthError::AuthFailed => owned("Authentication failed"),
            AuthError::NoPermission(p) => concat_str("User does not have permission: ", p.as_str()),
        }
    }
}

} // verus!
