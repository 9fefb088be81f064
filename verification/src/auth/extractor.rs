//! Authentication extractors (front-ends): read credentials from request headers.

use base64::Engine;
use vstd::prelude::*;
use vstd::utf8::{decode_utf8, valid_utf8};

use crate::auth::errors::{AuthError, AuthErrorKind, base64_error_message, kind_message, utf8_error_message};
use crate::auth::token::{AuthToken, TokenView};
use crate::auth::user::UserId;
use crate::headers::{RequestHeaders, header_get, header_value_valid, is_valid_header_value, value_text, value_to_text};
use crate::text::{
    chars_eq_ignore_ascii_case, chars_of, eq_ignore_ascii_case, owned, push_char, split_once,
    split_once_spec, string_of,
};

verus! {

/// Type URI of problem responses produced by the auth layer.
pub const TAG_AUTH: &'static str = "tag:uxum.github.io,2024:auth";

/// Name of the header carrying HTTP authentication credentials.
pub const AUTHORIZATION: &'static str = "authorization";

/// A problem response to send back instead of calling the handler.
#[derive(Debug)]
pub struct ErrorResponse {
    /// HTTP status code.
    pub status: u16,
    /// Problem type URI.
    pub type_tag: Option<String>,
    /// Problem title.
    pub title: String,
    /// Problem detail.
    pub detail: Option<String>,
    /// Value of a `WWW-Authenticate` header to add.
    pub www_authenticate: Option<String>,
}

/// The abstract content of an [`ErrorResponse`].
pub struct ResponseView {
    pub status: u16,
    pub type_tag: Option<Seq<char>>,
    pub title: Seq<char>,
    pub detail: Option<Seq<char>>,
    pub www_authenticate: Option<Seq<char>>,
}

/// The abstract content of an optional string.
pub open spec fn opt_view(o: Option<String>) -> Option<Seq<char>> {
    match o {
        Some(s) => Some(s@),
        None => None,
    }
}

impl View for ErrorResponse {
    type V = ResponseView;

    open spec fn view(&self) -> ResponseView {
        ResponseView {
            status: self.status,
            type_tag: opt_view(self.type_tag),
            title: self.title@,
            detail: opt_view(self.detail),
            www_authenticate: opt_view(self.www_authenticate),
        }
    }
}

/// What an extractor yields: user name and token, or an error.
pub type ExtractionView = Result<(Option<Seq<char>>, TokenView), AuthErrorKind>;

/// The abstract content of an extraction result.
pub open spec fn extraction_view(r: Result<(Option<UserId>, AuthToken), AuthError>) -> ExtractionView {
    match r {
        Ok((u, t)) => Ok(
            (
                match u {
                    Some(u) => Some(u@),
                    None => None,
                },
                t@,
            ),
        ),
        Err(e) => Err(e@),
    }
}

/// Authentication extractor (front-end) trait.
pub trait AuthExtractor {
    /// Whether `v` is a result [`AuthExtractor::extract_auth`] may yield for a
    /// header map (one result for extractors that the headers decide).
    spec fn extract_allows(&self, headers: Seq<(Seq<char>, Seq<u8>)>, v: ExtractionView) -> bool;

    /// The response [`AuthExtractor::error_response`] gives for an error.
    spec fn response_spec(&self, err: AuthErrorKind) -> ResponseView;

    /// Extract user ID and authentication data from request headers.
    fn extract_auth(&self, headers: &RequestHeaders) -> (r: Result<(Option<UserId>, AuthToken), AuthError>)
        ensures
            self.extract_allows(headers@, extraction_view(r)),
    ;

    /// Format error response from [`AuthError`].
    fn error_response(&self, err: &AuthError) -> (r: ErrorResponse)
        ensures
            r@ == self.response_spec(err@),
    ;
}

/// Name of what `base64` decoding of a string with the standard alphabet and
/// padding gives: the decoded bytes, or the error.
pub uninterp spec fn base64_standard_decode(input: Seq<char>) -> Result<Seq<u8>, base64::DecodeError>;

/// Decodes text with `base64::engine::general_purpose::STANDARD`.
///
/// The contract claims only that the result is `base64_standard_decode` of the input.
#[verifier::external_body]
fn base64_decode(input: &str) -> (r: Result<Vec<u8>, base64::DecodeError>)
    ensures
        match r {
            Ok(v) => base64_standard_decode(input@) == Ok::<Seq<u8>, base64::DecodeError>(v@),
            Err(e) => base64_standard_decode(input@) == Err::<Seq<u8>, base64::DecodeError>(e),
        },
{
    base64::engine::general_purpose::STANDARD.decode(input)
}

/// Name of the error `String::from_utf8` gives for bytes that are not UTF-8.
pub uninterp spec fn from_utf8_error(bytes: Seq<u8>) -> std::string::FromUtf8Error;

/// Decodes bytes as UTF-8 with `String::from_utf8`, which succeeds exactly on
/// valid UTF-8 and then holds the decoded characters; its error is named by
/// `from_utf8_error` of the bytes.
#[verifier::external_body]
fn utf8_decode(bytes: Vec<u8>) -> (r: Result<String, std::string::FromUtf8Error>)
    ensures
        match r {
            Ok(s) => valid_utf8(bytes@) && s@ == decode_utf8(bytes@),
            Err(e) => !valid_utf8(bytes@) && e == from_utf8_error(bytes@),
        },
{
    String::from_utf8(bytes)
}

/// Authentication extractor (front-end) which does nothing.
#[derive(Clone, Copy, Debug)]
pub struct NoOpAuthExtractor;

/// Status code 500 problem response with the auth type.
pub open spec fn internal_error_view(title: Seq<char>) -> ResponseView {
    ResponseView {
        status: 500,
        type_tag: Some(TAG_AUTH@),
        title,
        detail: None,
        www_authenticate: None,
    }
}

impl NoOpAuthExtractor {
    /// What extraction yields: no user and no token, whatever the headers.
    pub open spec fn extract_spec(&self, headers: Seq<(Seq<char>, Seq<u8>)>) -> ExtractionView {
        Ok((None, TokenView::Absent))
    }
}

impl AuthExtractor for NoOpAuthExtractor {
    open spec fn extract_allows(&self, headers: Seq<(Seq<char>, Seq<u8>)>, v: ExtractionView) -> bool {
        v == self.extract_spec(headers)
    }

    open spec fn response_spec(&self, err: AuthErrorKind) -> ResponseView {
        internal_error_view(kind_message(err))
    }

    fn extract_auth(&self, headers: &RequestHeaders) -> (r: Result<(Option<UserId>, AuthToken), AuthError>) {
        Ok((None, AuthToken::Absent))
    }

    fn error_response(&self, err: &AuthError) -> (r: ErrorResponse) {
        ErrorResponse {
            status: 500,
            type_tag: Some(owned(TAG_AUTH)),
            title: err.message(),
            detail: None,
            www_authenticate: None,
        }
    }
}

/// Authentication extractor (front-end) for HTTP Basic authentication.
#[derive(Clone, Debug)]
pub struct BasicAuthExtractor {
    /// Value to use for `WWW-Authenticate` header.
    pub www_auth: String,
}

/// `WWW-Authenticate` value for a scheme and realm: `<scheme> realm="<realm>", charset="UTF-8"`.
pub open spec fn www_authenticate_value(scheme: Seq<char>, realm: Seq<char>) -> Seq<char> {
    scheme + " realm=\""@ + realm + "\", charset=\"UTF-8\""@
}

/// Scheme name of HTTP Basic authentication.
pub const BASIC_SCHEME: &'static str = "Basic";

/// Realm used when none is configured.
pub const DEFAULT_REALM: &'static str = "auth";

/// What `parse_payload` yields for a base64 payload.
pub open spec fn basic_payload_spec(payload: Seq<char>) -> ExtractionView {
    match base64_standard_decode(payload) {
        Err(d) => Err(AuthErrorKind::PayloadDecode(base64_error_message(d))),
        Ok(raw) => if !valid_utf8(raw) {
            Err(AuthErrorKind::NonPrintablePayload(utf8_error_message(from_utf8_error(raw))))
        } else {
            match split_once_spec(decode_utf8(raw), ':') {
                None => Err(AuthErrorKind::InvalidAuthPayload),
                Some((user, pwd)) => Ok((Some(user), TokenView::PlainPassword(pwd))),
            }
        },
    }
}

/// What HTTP Basic extraction yields for an `Authorization` header value.
pub open spec fn basic_header_spec(value: Seq<u8>) -> ExtractionView {
    match value_text(value) {
        None => Err(AuthErrorKind::InvalidAuthHeader),
        Some(text) => match split_once_spec(text, ' ') {
            None => Err(AuthErrorKind::InvalidAuthHeader),
            Some((scheme, payload)) => if eq_ignore_ascii_case(scheme, BASIC_SCHEME@) {
                basic_payload_spec(payload)
            } else {
                Err(AuthErrorKind::UnknownAuthScheme(scheme))
            },
        },
    }
}

/// Status code for an error, for extractors that challenge with 401.
pub open spec fn challenge_status(err: AuthErrorKind) -> u16 {
    match err {
        AuthErrorKind::NoAuthProvided | AuthErrorKind::UserNotFound | AuthErrorKind::AuthFailed => 401,
        AuthErrorKind::NoPermission(_) => 403,
        _ => 400,
    }
}

/// Problem response of extractors that challenge with `WWW-Authenticate` on 401.
pub open spec fn challenge_response(www_auth: Seq<char>, err: AuthErrorKind) -> ResponseView {
    let status = challenge_status(err);
    let message = kind_message(err);
    if status == 401 {
        if header_value_valid(www_auth) {
            ResponseView {
                status: 401,
                type_tag: Some(TAG_AUTH@),
                title: message,
                detail: None,
                www_authenticate: Some(www_auth),
            }
        } else {
            ResponseView {
                status: 500,
                type_tag: Some(TAG_AUTH@),
                title: "Invalid HTTP Basic realm value"@,
                detail: Some("failed to parse header value"@),
                www_authenticate: None,
            }
        }
    } else {
        ResponseView {
            status,
            type_tag: Some(TAG_AUTH@),
            title: message,
            detail: None,
            www_authenticate: None,
        }
    }
}

/// Builds the problem response of extractors that challenge on 401.
pub fn challenge_error_response(www_auth: &str, err: &AuthError) -> (r: ErrorResponse)
    ensures
        r@ == challenge_response(www_auth@, err@),
{
    let status: u16 = match err {
        AuthError::NoAuthProvided | AuthError::UserNotFound | AuthError::AuthFailed => 401,
        AuthError::NoPermission(_) => 403,
        _ => 400,
    };
    let title = err.message();
    if status == 401 {
        if is_valid_header_value(www_auth) {
            ErrorResponse {
                status: 401,
                type_tag: Some(owned(TAG_AUTH)),
                title,
                detail: None,
                www_authenticate: Some(owned(www_auth)),
            }
        } else {
            ErrorResponse {
                status: 500,
                type_tag: Some(owned(TAG_AUTH)),
                title: owned("Invalid HTTP Basic realm value"),
                detail: Some(owned("failed to parse header value")),
                www_authenticate: None,
            }
        }
    } else {
        ErrorResponse {
            status,
            type_tag: Some(owned(TAG_AUTH)),
            title,
            detail: None,
            www_authenticate: None,
        }
    }
}

/// Concatenates character sequences into a string.
fn concat_chars(parts: &[&str]) -> (r: String)
    ensures
        r@ == parts@.fold_left(Seq::<char>::empty(), |acc: Seq<char>, p: &str| acc + p@),
{
    let mut r = String::new();
    let mut k: usize = 0;
    while k < parts.len()
        invariant
            k <= parts@.len(),
            r@ == parts@.take(k as int).fold_left(Seq::<char>::empty(), |acc: Seq<char>, p: &str| acc + p@),
        decreases parts@.len() - k,
    {
        let v = chars_of(parts[k]);
        let ghost before = r@;
        let mut i: usize = 0;
        while i < v.len()
            invariant
                i <= v@.len(),
                r@ =~= before + v@.take(i as int),
            decreases v@.len() - i,
        {
            push_char(&mut r, v[i]);
            i = i + 1;
            assert(r@ =~= before + v@.take(i as int));
        }
        assert(v@.take(i as int) =~= v@);
        proof {
            let f = |acc: Seq<char>, p: &str| acc + p@;
            assert(parts@.take(k + 1).drop_last() =~= parts@.take(k as int));
            assert(parts@.take(k + 1).last() == parts@[k as int]);
        }
        k = k + 1;
    }
    assert(parts@.take(k as int) =~= parts@);
    r
}

/// Formats a `WWW-Authenticate` header value for a scheme and realm.
pub fn format_www_authenticate(scheme: &str, realm: &str) -> (r: String)
    ensures
        r@ == www_authenticate_value(scheme@, realm@),
{
    let parts: [&str; 4] = [scheme, " realm=\"", realm, "\", charset=\"UTF-8\""];
    let r = concat_chars(parts.as_slice());
    proof {
        let f = |acc: Seq<char>, p: &str| acc + p@;
        let s = parts@;
        assert(s.take(0) =~= Seq::<&str>::empty());
        assert(s.take(1).drop_last() =~= s.take(0));
        assert(s.take(2).drop_last() =~= s.take(1));
        assert(s.take(3).drop_last() =~= s.take(2));
        assert(s.take(4).drop_last() =~= s.take(3));
        assert(s.take(4) =~= s);
        assert(s.take(0).fold_left(Seq::<char>::empty(), f) == Seq::<char>::empty());
        assert(s.take(1).fold_left(Seq::<char>::empty(), f) == Seq::<char>::empty() + scheme@);
        assert(s.take(2).fold_left(Seq::<char>::empty(), f) == Seq::<char>::empty() + scheme@ + " realm=\""@);
        assert(s.take(3).fold_left(Seq::<char>::empty(), f) == Seq::<char>::empty() + scheme@ + " realm=\""@ + realm@);
        assert(s.take(4).fold_left(Seq::<char>::empty(), f) == Seq::<char>::empty() + scheme@ + " realm=\""@ + realm@ + "\", charset=\"UTF-8\""@);
        assert(Seq::<char>::empty() + scheme@ =~= scheme@);
    }
    r
}

impl BasicAuthExtractor {
    /// Create new extractor, with an optional custom realm.
    pub fn new(realm: Option<&str>) -> (r: BasicAuthExtractor)
        ensures
            r.www_auth@ == www_authenticate_value(
                BASIC_SCHEME@,
                match realm {
                    Some(x) => x@,
                    None => DEFAULT_REALM@,
                },
            ),
    {
        match realm {
            Some(x) => BasicAuthExtractor { www_auth: format_www_authenticate(BASIC_SCHEME, x) },
            None => BasicAuthExtractor { www_auth: format_www_authenticate(BASIC_SCHEME, DEFAULT_REALM) },
        }
    }

    /// Set realm used for HTTP authentication challenge.
    pub fn set_realm(&mut self, realm: &str)
        ensures
            final(self).www_auth@ == www_authenticate_value(BASIC_SCHEME@, realm@),
    {
        self.www_auth = format_www_authenticate(BASIC_SCHEME, realm);
    }

    /// Parse base64-encoded credentials into plaintext username and password.
    pub fn parse_payload(payload: &str) -> (r: Result<(String, String), AuthError>)
        ensures
            match basic_payload_spec(payload@) {
                Ok((Some(u), TokenView::PlainPassword(p))) => r matches Ok((ru, rp)) && ru@ == u && rp@ == p,
                Ok(_) => false,
                Err(k) => r matches Err(e) && e@ == k,
            },
    {
        let raw = match base64_decode(payload) {
            Ok(v) => v,
            Err(e) => return Err(AuthError::PayloadDecode(e)),
        };
        let text = match utf8_decode(raw) {
            Ok(s) => s,
            Err(e) => return Err(AuthError::NonPrintablePayload(e)),
        };
        let v = chars_of(text.as_str());
        match split_once(v.as_slice(), ':') {
            Some((user, pwd)) => Ok((string_of(user.as_slice()), string_of(pwd.as_slice()))),
            None => Err(AuthError::InvalidAuthPayload),
        }
    }

    /// Parse an `Authorization` header value into plaintext username and password.
    pub fn parse_header(header: &[u8]) -> (r: Result<(String, String), AuthError>)
        ensures
            match basic_header_spec(header@) {
                Ok((Some(u), TokenView::PlainPassword(p))) => r matches Ok((ru, rp)) && ru@ == u && rp@ == p,
                Ok(_) => false,
                Err(k) => r matches Err(e) && e@ == k,
            },
    {
        let text = match value_to_text(header) {
            Some(t) => t,
            None => return Err(AuthError::InvalidAuthHeader),
        };
        let v = chars_of(text.as_str());
        match split_once(v.as_slice(), ' ') {
            Some((scheme, payload)) => {
                let basic = chars_of(BASIC_SCHEME);
                if chars_eq_ignore_ascii_case(scheme.as_slice(), basic.as_slice()) {
                    let p = string_of(payload.as_slice());
                    Self::parse_payload(p.as_str())
                } else {
                    Err(AuthError::UnknownAuthScheme(string_of(scheme.as_slice())))
                }
            },
            None => Err(AuthError::InvalidAuthHeader),
        }
    }
}

impl BasicAuthExtractor {
    /// What extraction yields for a header map.
    pub open spec fn extract_spec(&self, headers: Seq<(Seq<char>, Seq<u8>)>) -> ExtractionView {
        match header_get(headers, AUTHORIZATION@) {
            None => Err(AuthErrorKind::NoAuthProvided),
            Some(v) => basic_header_spec(v),
        }
    }
}

impl AuthExtractor for BasicAuthExtractor {
    open spec fn extract_allows(&self, headers: Seq<(Seq<char>, Seq<u8>)>, v: ExtractionView) -> bool {
        v == self.extract_spec(headers)
    }

    open spec fn response_spec(&self, err: AuthErrorKind) -> ResponseView {
        challenge_response(self.www_auth@, err)
    }

    fn extract_auth(&self, headers: &RequestHeaders) -> (r: Result<(Option<UserId>, AuthToken), AuthError>) {
        match headers.get(AUTHORIZATION) {
            Some(v) => match Self::parse_header(v.as_slice()) {
                Ok((user, pwd)) => Ok((Some(UserId::from_string(user)), AuthToken::from_password(pwd))),
                Err(e) => Err(e),
            },
            None => Err(AuthError::NoAuthProvided),
        }
    }

    fn error_response(&self, err: &AuthError) -> (r: ErrorResponse) {
        challenge_error_response(self.www_auth.as_str(), err)
    }
}

/// Authentication extractor (front-end) that gets user and password from HTTP headers.
#[derive(Clone, Debug)]
pub struct HeaderAuthExtractor {
    /// Header name for user identifier.
    pub user_header: String,
    /// Header name for user authentication info.
    pub token_header: String,
}

/// Default header carrying the user name.
pub const DEFAULT_USER_HEADER: &'static str = "X-API-Name";

/// Default header carrying the user's key.
pub const DEFAULT_TOKEN_HEADER: &'static str = "X-API-Key";

/// Status code for an error, for extractors that answer 403 to failed authentication.
pub open spec fn forbidden_status(err: AuthErrorKind) -> u16 {
    match err {
        AuthErrorKind::NoAuthProvided | AuthErrorKind::UserNotFound | AuthErrorKind::AuthFailed
        | AuthErrorKind::NoPermission(_) => 403,
        _ => 400,
    }
}

impl HeaderAuthExtractor {
    /// Create new extractor, with optional custom header names.
    pub fn new(user_header: Option<&str>, token_header: Option<&str>) -> (r: HeaderAuthExtractor)
        ensures
            r.user_header@ == match user_header {
                Some(x) => x@,
                None => DEFAULT_USER_HEADER@,
            },
            r.token_header@ == match token_header {
                Some(x) => x@,
                None => DEFAULT_TOKEN_HEADER@,
            },
    {
        let user = match user_header {
            Some(x) => owned(x),
            None => owned(DEFAULT_USER_HEADER),
        };
        let token = match token_header {
            Some(x) => owned(x),
            None => owned(DEFAULT_TOKEN_HEADER),
        };
        HeaderAuthExtractor { user_header: user, token_header: token }
    }

    /// Set user ID header name.
    pub fn set_user_header(&mut self, name: &str)
        ensures
            final(self).user_header@ == name@,
            final(self).token_header == old(self).token_header,
    {
        self.user_header = owned(name);
    }

    /// Set authenticating token header name.
    pub fn set_token_header(&mut self, name: &str)
        ensures
            final(self).token_header@ == name@,
            final(self).user_header == old(self).user_header,
    {
        self.token_header = owned(name);
    }
}

impl HeaderAuthExtractor {
    /// What extraction yields for a header map.
    pub open spec fn extract_spec(&self, headers: Seq<(Seq<char>, Seq<u8>)>) -> ExtractionView {
        match header_get(headers, self.user_header@) {
            None => Err(AuthErrorKind::NoAuthProvided),
            Some(uv) => match value_text(uv) {
                None => Err(AuthErrorKind::InvalidAuthPayload),
                Some(user) => match header_get(headers, self.token_header@) {
                    None => Err(AuthErrorKind::NoAuthProvided),
                    Some(tv) => match value_text(tv) {
                        None => Err(AuthErrorKind::InvalidAuthPayload),
                        Some(token) => Ok((Some(user), TokenView::PlainPassword(token))),
                    },
                },
            },
        }
    }
}

impl AuthExtractor for HeaderAuthExtractor {
    open spec fn extract_allows(&self, headers: Seq<(Seq<char>, Seq<u8>)>, v: ExtractionView) -> bool {
        v == self.extract_spec(headers)
    }

    open spec fn response_spec(&self, err: AuthErrorKind) -> ResponseView {
        ResponseView {
            status: forbidden_status(err),
            type_tag: Some(TAG_AUTH@),
            title: kind_message(err),
            detail: None,
            www_authenticate: None,
        }
    }

    fn extract_auth(&self, headers: &RequestHeaders) -> (r: Result<(Option<UserId>, AuthToken), AuthError>) {
        let user = match headers.get(self.user_header.as_str()) {
            Some(v) => match value_to_text(v.as_slice()) {
                Some(s) => s,
                None => return Err(AuthError::InvalidAuthPayload),
            },
            None => return Err(AuthError::NoAuthProvided),
        };
        let token = match headers.get(self.token_header.as_str()) {
            Some(v) => match value_to_text(v.as_slice()) {
                Some(s) => s,
                None => return Err(AuthError::InvalidAuthPayload),
            },
            None => return Err(AuthError::NoAuthProvided),
        };
        Ok((Some(UserId::from_string(user)), AuthToken::from_password(token)))
    }

    fn error_response(&self, err: &AuthError) -> (r: ErrorResponse) {
        let status: u16 = match err {
            AuthError::NoAuthProvided | AuthError::UserNotFound | AuthError::AuthFailed
            | AuthError::NoPermission(_) => 403,
            _ => 400,
        };
        ErrorResponse {
            status,
            type_tag: Some(owned(TAG_AUTH)),
            title: err.message(),
            detail: None,
            www_authenticate: None,
        }
    }
}

} // verus!
