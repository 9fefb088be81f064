//! Bearer tokens in JWT form: key and validation settings, and reading the
//! authenticated user out of a verified token.

use std::collections::HashMap;

use vstd::prelude::*;

use crate::auth::errors::{AuthError, AuthErrorKind};
use crate::auth::extractor::{
    AUTHORIZATION, AuthExtractor, ErrorResponse, ExtractionView, ResponseView, base64_standard_decode, challenge_response,
    extraction_view, www_authenticate_value, format_www_authenticate, challenge_error_response,
};
use crate::auth::token::{AuthToken, TokenView};
use crate::auth::user::UserId;
use crate::duration::Duration;
use crate::errors::IoError;
use crate::headers::{RequestHeaders, header_get, value_text, value_to_text};
use crate::table::{find_key, first_key, has_key, keys_distinct, strings_view};
use crate::text::{chars_eq_ignore_ascii_case, chars_of, eq_ignore_ascii_case, owned, split_once, split_once_spec, string_of};

verus! {

/// JWT decoding keys.
#[verifier::external_type_specification]
#[verifier::external_body]
pub struct ExDecodingKey(jsonwebtoken::DecodingKey);

/// JWT validation settings.
#[verifier::external_type_specification]
#[verifier::external_body]
pub struct ExValidation(jsonwebtoken::Validation);

/// Errors of the JWT library.
#[verifier::external_type_specification]
#[verifier::external_body]
pub struct ExJwtError(jsonwebtoken::errors::Error);

/// Used JWT signature algorithm.
#[derive(Clone, Copy, Debug, PartialEq, Eq, Structural)]
pub enum JwtAlgorithm {
    Hs256,
    Hs384,
    Hs512,
    Es256,
    Es384,
    Rs256,
    Rs384,
    Rs512,
    Ps256,
    Ps384,
    Ps512,
    EdDSA,
}

impl Default for JwtAlgorithm {
    fn default() -> (r: JwtAlgorithm)
        ensures
            r == JwtAlgorithm::Hs256,
    {
        JwtAlgorithm::Hs256
    }
}

/// Errors of setting up authentication.
#[derive(Debug)]
pub enum AuthSetupError {
    /// A key file could not be read: its path and the error.
    KeyIo(String, IoError),
    /// The JWT library refused a key: its message.
    Jwt(String),
}

/// The abstract content of an [`AuthSetupError`].
pub enum SetupErrorView {
    KeyIo(Seq<char>, IoError),
    Jwt(Seq<char>),
}

impl View for AuthSetupError {
    type V = SetupErrorView;

    open spec fn view(&self) -> SetupErrorView {
        match self {
            AuthSetupError::KeyIo(p, e) => SetupErrorView::KeyIo(p@, *e),
            AuthSetupError::Jwt(m) => SetupErrorView::Jwt(m@),
        }
    }
}

/// Name of the text that the `Display` of a JWT library error gives.
pub uninterp spec fn jwt_error_message(err: jsonwebtoken::errors::Error) -> Seq<char>;

/// Message of a JWT library error, with its `Display`.
#[verifier::external_body]
fn jwt_error_text(err: &jsonwebtoken::errors::Error) -> (r: String)
    ensures
        r@ == jwt_error_message(*err),
{
    format!("{err}")
}

/// A JWT library error as a setup error.
fn setup_error(err: jsonwebtoken::errors::Error) -> (r: AuthSetupError)
    ensures
        r matches AuthSetupError::Jwt(m) && m@ == jwt_error_message(err),
{
    AuthSetupError::Jwt(jwt_error_text(&err))
}

/// JWT signature algorithms of the JWT library.
#[verifier::external_type_specification]
#[verifier::external_body]
pub struct ExAlgorithm(jsonwebtoken::Algorithm);

/// Name of the JWT library's `Algorithm` variant that an algorithm stands for.
pub uninterp spec fn jwt_algorithm_value(algo: JwtAlgorithm) -> jsonwebtoken::Algorithm;

/// The JWT library's value for an algorithm: the variant of the same name.
#[verifier::external_body]
fn jwt_algorithm(algo: JwtAlgorithm) -> (r: jsonwebtoken::Algorithm)
    ensures
        r == jwt_algorithm_value(algo),
{
    match algo {
        JwtAlgorithm::Hs256 => jsonwebtoken::Algorithm::HS256,
        JwtAlgorithm::Hs384 => jsonwebtoken::Algorithm::HS384,
        JwtAlgorithm::Hs512 => jsonwebtoken::Algorithm::HS512,
        JwtAlgorithm::Es256 => jsonwebtoken::Algorithm::ES256,
        JwtAlgorithm::Es384 => jsonwebtoken::Algorithm::ES384,
        JwtAlgorithm::Rs256 => jsonwebtoken::Algorithm::RS256,
        JwtAlgorithm::Rs384 => jsonwebtoken::Algorithm::RS384,
        JwtAlgorithm::Rs512 => jsonwebtoken::Algorithm::RS512,
        JwtAlgorithm::Ps256 => jsonwebtoken::Algorithm::PS256,
        JwtAlgorithm::Ps384 => jsonwebtoken::Algorithm::PS384,
        JwtAlgorithm::Ps512 => jsonwebtoken::Algorithm::PS512,
        JwtAlgorithm::EdDSA => jsonwebtoken::Algorithm::EdDSA,
    }
}

/// Name of the `algorithms` field of JWT validation settings: the accepted algorithms.
pub uninterp spec fn validation_algorithms(v: jsonwebtoken::Validation) -> Seq<jsonwebtoken::Algorithm>;

/// Name of the contents of the `required_spec_claims` field (a `HashSet`): the
/// claims a token must carry.
pub uninterp spec fn validation_required_claims(v: jsonwebtoken::Validation) -> Set<Seq<char>>;

/// Name of the `leeway` field, in seconds.
pub uninterp spec fn validation_leeway(v: jsonwebtoken::Validation) -> u64;

/// Name of the `reject_tokens_expiring_in_less_than` field, in seconds.
pub uninterp spec fn validation_reject_expiring(v: jsonwebtoken::Validation) -> u64;

/// Name of the `validate_exp`, `validate_nbf` and `validate_aud` fields.
pub uninterp spec fn validation_checks(v: jsonwebtoken::Validation) -> (bool, bool, bool);

/// Name of the contents of the `aud` field (an optional `HashSet`): the accepted audiences.
pub uninterp spec fn validation_audience(v: jsonwebtoken::Validation) -> Option<Set<Seq<char>>>;

/// Name of the contents of the `iss` field (an optional `HashSet`): the accepted issuers.
pub uninterp spec fn validation_issuer(v: jsonwebtoken::Validation) -> Option<Set<Seq<char>>>;

/// The settings JWT validation holds, field by field, as the names above read them.
pub open spec fn validation_holds(
    v: jsonwebtoken::Validation,
    algorithms: Seq<jsonwebtoken::Algorithm>,
    required: Set<Seq<char>>,
    leeway: u64,
    reject_expiring_in: u64,
    checks: (bool, bool, bool),
    audience: Option<Set<Seq<char>>>,
    issuer: Option<Set<Seq<char>>>,
) -> bool {
    &&& validation_algorithms(v) == algorithms
    &&& validation_required_claims(v) == required
    &&& validation_leeway(v) == leeway
    &&& validation_reject_expiring(v) == reject_expiring_in
    &&& validation_checks(v) == checks
    &&& validation_audience(v) == audience
    &&& validation_issuer(v) == issuer
}

/// Creates validation settings with `jsonwebtoken::Validation::new` for an
/// algorithm (which accepts that algorithm alone and restricts neither audience nor
/// issuer), then sets the required claims, leeway, expiry margin and which of
/// `exp`, `nbf` and `aud` are checked.
#[verifier::external_body]
fn jwt_validation_new(
    alg: jsonwebtoken::Algorithm,
    required: &Vec<String>,
    leeway: u64,
    reject_expiring_in: u64,
    checks: (bool, bool, bool),
) -> (r: jsonwebtoken::Validation)
    ensures
        validation_holds(r, seq![alg], strings_view(required@).to_set(), leeway, reject_expiring_in, checks, None, None),
{
    let mut v = jsonwebtoken::Validation::new(alg);
    v.set_required_spec_claims(required.as_slice());
    v.leeway = leeway;
    v.reject_tokens_expiring_in_less_than = reject_expiring_in;
    v.validate_exp = checks.0;
    v.validate_nbf = checks.1;
    v.validate_aud = checks.2;
    v
}

/// Restricts accepted audiences with `Validation::set_audience`, which replaces the
/// `aud` field with the set of the given items and leaves the other fields.
#[verifier::external_body]
fn jwt_set_audience(v: &mut jsonwebtoken::Validation, audience: &Vec<String>)
    ensures
        validation_holds(
            *final(v),
            validation_algorithms(*old(v)),
            validation_required_claims(*old(v)),
            validation_leeway(*old(v)),
            validation_reject_expiring(*old(v)),
            validation_checks(*old(v)),
            Some(strings_view(audience@).to_set()),
            validation_issuer(*old(v)),
        ),
{
    v.set_audience(audience.as_slice());
}

/// Restricts accepted issuers with `Validation::set_issuer`, which replaces the
/// `iss` field with the set of the given items and leaves the other fields.
#[verifier::external_body]
fn jwt_set_issuer(v: &mut jsonwebtoken::Validation, issuer: &Vec<String>)
    ensures
        validation_holds(
            *final(v),
            validation_algorithms(*old(v)),
            validation_required_claims(*old(v)),
            validation_leeway(*old(v)),
            validation_reject_expiring(*old(v)),
            validation_checks(*old(v)),
            validation_audience(*old(v)),
            Some(strings_view(issuer@).to_set()),
        ),
{
    v.set_issuer(issuer.as_slice());
}

/// Customize JWT validation process.
#[derive(Clone, Debug)]
pub struct JwtValidation {
    /// Claims that need to be present.
    pub required_claims: Vec<String>,
    /// Margin for `exp` and `nbf` validation to account for clock skew.
    pub leeway: Duration,
    /// Reject tokens expiring in less than this time.
    pub reject_expiring_in: Option<Duration>,
    /// Validate the `exp` claim.
    pub validate_exp: bool,
    /// Validate the `nbf` claim.
    pub validate_nbf: bool,
    /// Validate the `aud` claim.
    pub validate_aud: bool,
    /// Require `aud` to be one of these values.
    pub audience: Vec<String>,
    /// Require `iss` to be one of these values.
    pub issuer: Vec<String>,
}

impl Default for JwtValidation {
    fn default() -> (r: JwtValidation)
        ensures
            r.required_claims@.len() == 1 && r.required_claims@[0]@ == "exp"@,
            r.leeway@ == 60_000_000_000 && r.leeway.wf(),
            r.reject_expiring_in is None,
            r.validate_exp && !r.validate_nbf && r.validate_aud,
            r.audience@.len() == 0 && r.issuer@.len() == 0,
    {
        let mut required_claims: Vec<String> = Vec::new();
        required_claims.push(owned("exp"));
        JwtValidation {
            required_claims,
            leeway: Duration::from_secs(60),
            reject_expiring_in: None,
            validate_exp: true,
            validate_nbf: false,
            validate_aud: true,
            audience: Vec::new(),
            issuer: Vec::new(),
        }
    }
}

/// Expiry margin in whole seconds; zero when unset.
pub open spec fn reject_secs_spec(c: JwtValidation) -> u64 {
    match c.reject_expiring_in {
        Some(d) => (d@ / 1_000_000_000) as u64,
        None => 0,
    }
}

/// The JWT library's validation settings for these settings and an algorithm:
/// that algorithm alone, the required claims, leeway and expiry margin in whole
/// seconds, the `exp`, `nbf` and `aud` checks, and the audience and issuer sets
/// where the lists are not empty (no restriction otherwise).
pub open spec fn validation_matches(v: jsonwebtoken::Validation, c: JwtValidation, algo: JwtAlgorithm) -> bool {
    validation_holds(
        v,
        seq![jwt_algorithm_value(algo)],
        strings_view(c.required_claims@).to_set(),
        (c.leeway@ / 1_000_000_000) as u64,
        reject_secs_spec(c),
        (c.validate_exp, c.validate_nbf, c.validate_aud),
        if c.audience@.len() > 0 { Some(strings_view(c.audience@).to_set()) } else { None },
        if c.issuer@.len() > 0 { Some(strings_view(c.issuer@).to_set()) } else { None },
    )
}

impl JwtValidation {
    /// Margin applied to `exp` and `nbf`, in whole seconds.
    pub fn leeway_secs(&self) -> (r: u64)
        requires
            self.leeway.wf(),
        ensures
            r == self.leeway@ / 1_000_000_000,
    {
        self.leeway.as_secs()
    }

    /// Minimum remaining validity, in whole seconds; zero when unset.
    pub fn reject_expiring_secs(&self) -> (r: u64)
        requires
            self.reject_expiring_in matches Some(d) ==> d.wf(),
        ensures
            r == match self.reject_expiring_in {
                Some(d) => (d@ / 1_000_000_000) as u64,
                None => 0,
            },
    {
        match self.reject_expiring_in {
            Some(d) => d.as_secs(),
            None => 0,
        }
    }

    /// Convert these settings into the JWT library's validation settings; audience
    /// and issuer lists restrict only when non-empty.
    pub fn to_validation(&self, algo: JwtAlgorithm) -> (r: jsonwebtoken::Validation)
        requires
            self.leeway.wf(),
            self.reject_expiring_in matches Some(d) ==> d.wf(),
        ensures
            validation_matches(r, *self, algo),
    {
        let mut v = jwt_validation_new(
            jwt_algorithm(algo),
            &self.required_claims,
            self.leeway_secs(),
            self.reject_expiring_secs(),
            (self.validate_exp, self.validate_nbf, self.validate_aud),
        );
        if self.audience.len() > 0 {
            jwt_set_audience(&mut v, &self.audience);
        }
        if self.issuer.len() > 0 {
            jwt_set_issuer(&mut v, &self.issuer);
        }
        v
    }
}

/// Name of what `DecodingKey::from_base64_secret` returns for its arguments.
pub uninterp spec fn base64_secret_key(s: Seq<char>) -> Result<jsonwebtoken::DecodingKey, jsonwebtoken::errors::Error>;

/// Name of what `DecodingKey::from_rsa_pem` returns for its arguments.
pub uninterp spec fn rsa_pem_key(b: Seq<u8>) -> Result<jsonwebtoken::DecodingKey, jsonwebtoken::errors::Error>;

/// Name of what `DecodingKey::from_rsa_der` returns for its arguments.
pub uninterp spec fn rsa_der_key(b: Seq<u8>) -> jsonwebtoken::DecodingKey;

/// Name of what `DecodingKey::from_rsa_components` returns for its arguments.
pub uninterp spec fn rsa_components_key(n: Seq<char>, e: Seq<char>) -> Result<jsonwebtoken::DecodingKey, jsonwebtoken::errors::Error>;

/// Name of what `DecodingKey::from_ec_pem` returns for its arguments.
pub uninterp spec fn ec_pem_key(b: Seq<u8>) -> Result<jsonwebtoken::DecodingKey, jsonwebtoken::errors::Error>;

/// Name of what `DecodingKey::from_ec_der` returns for its arguments.
pub uninterp spec fn ec_der_key(b: Seq<u8>) -> jsonwebtoken::DecodingKey;

/// Name of what `DecodingKey::from_ec_components` returns for its arguments.
pub uninterp spec fn ec_components_key(x: Seq<char>, y: Seq<char>) -> Result<jsonwebtoken::DecodingKey, jsonwebtoken::errors::Error>;

/// Name of what `DecodingKey::from_ed_pem` returns for its arguments.
pub uninterp spec fn ed_pem_key(b: Seq<u8>) -> Result<jsonwebtoken::DecodingKey, jsonwebtoken::errors::Error>;

/// Name of what `DecodingKey::from_ed_der` returns for its arguments.
pub uninterp spec fn ed_der_key(b: Seq<u8>) -> jsonwebtoken::DecodingKey;

/// Name of what `DecodingKey::from_ed_components` returns for its arguments.
pub uninterp spec fn ed_components_key(x: Seq<char>) -> Result<jsonwebtoken::DecodingKey, jsonwebtoken::errors::Error>;

/// Key from a base64-encoded HMAC secret, with `DecodingKey::from_base64_secret`,
/// which decodes the secret with the same `base64` engine (`STANDARD`) and fails
/// exactly when that decoding fails.
#[verifier::external_body]
fn key_from_base64_secret(s: &str) -> (r: Result<jsonwebtoken::DecodingKey, jsonwebtoken::errors::Error>)
    ensures
        r == base64_secret_key(s@),
        r is Ok <==> base64_standard_decode(s@) is Ok,
{
    jsonwebtoken::DecodingKey::from_base64_secret(s)
}

/// RSA public key from PEM bytes, with `DecodingKey::from_rsa_pem`.
#[verifier::external_body]
fn key_from_rsa_pem(b: &[u8]) -> (r: Result<jsonwebtoken::DecodingKey, jsonwebtoken::errors::Error>)
    ensures
        r == rsa_pem_key(b@),
{
    jsonwebtoken::DecodingKey::from_rsa_pem(b)
}

/// RSA public key from DER bytes, with `DecodingKey::from_rsa_der`, which takes any bytes.
#[verifier::external_body]
fn key_from_rsa_der(b: &[u8]) -> (r: jsonwebtoken::DecodingKey)
    ensures
        r == rsa_der_key(b@),
{
    jsonwebtoken::DecodingKey::from_rsa_der(b)
}

/// RSA public key from base64url components, with `DecodingKey::from_rsa_components`.
#[verifier::external_body]
fn key_from_rsa_components(n: &str, e: &str) -> (r: Result<jsonwebtoken::DecodingKey, jsonwebtoken::errors::Error>)
    ensures
        r == rsa_components_key(n@, e@),
{
    jsonwebtoken::DecodingKey::from_rsa_components(n, e)
}

/// ECDSA public key from PEM bytes, with `DecodingKey::from_ec_pem`.
#[verifier::external_body]
fn key_from_ec_pem(b: &[u8]) -> (r: Result<jsonwebtoken::DecodingKey, jsonwebtoken::errors::Error>)
    ensures
        r == ec_pem_key(b@),
{
    jsonwebtoken::DecodingKey::from_ec_pem(b)
}

/// ECDSA public key from DER bytes, with `DecodingKey::from_ec_der`, which takes any bytes.
#[verifier::external_body]
fn key_from_ec_der(b: &[u8]) -> (r: jsonwebtoken::DecodingKey)
    ensures
        r == ec_der_key(b@),
{
    jsonwebtoken::DecodingKey::from_ec_der(b)
}

/// ECDSA public key from base64url coordinates, with `DecodingKey::from_ec_components`.
#[verifier::external_body]
fn key_from_ec_components(x: &str, y: &str) -> (r: Result<jsonwebtoken::DecodingKey, jsonwebtoken::errors::Error>)
    ensures
        r == ec_components_key(x@, y@),
{
    jsonwebtoken::DecodingKey::from_ec_components(x, y)
}

/// EdDSA public key from PEM bytes, with `DecodingKey::from_ed_pem`.
#[verifier::external_body]
fn key_from_ed_pem(b: &[u8]) -> (r: Result<jsonwebtoken::DecodingKey, jsonwebtoken::errors::Error>)
    ensures
        r == ed_pem_key(b@),
{
    jsonwebtoken::DecodingKey::from_ed_pem(b)
}

/// EdDSA public key from DER bytes, with `DecodingKey::from_ed_der`, which takes any bytes.
#[verifier::external_body]
fn key_from_ed_der(b: &[u8]) -> (r: jsonwebtoken::DecodingKey)
    ensures
        r == ed_der_key(b@),
{
    jsonwebtoken::DecodingKey::from_ed_der(b)
}

/// EdDSA public key from a base64url coordinate, with `DecodingKey::from_ed_components`.
#[verifier::external_body]
fn key_from_ed_components(x: &str) -> (r: Result<jsonwebtoken::DecodingKey, jsonwebtoken::errors::Error>)
    ensures
        r == ed_components_key(x@),
{
    jsonwebtoken::DecodingKey::from_ed_components(x)
}

/// JWT key for signature verification.
#[derive(Clone, Debug)]
pub enum JwtKey {
    /// Base64-encoded secret for use with HMAC signatures.
    HmacSecret(String),
    /// RSA public key from PEM-encoded file.
    RsaPem(String),
    /// RSA public key from DER-encoded file.
    RsaDer(String),
    /// Base64-encoded RSA public key components.
    RsaComponents { modulus: String, exponent: String },
    /// ECDSA public key from PEM-encoded file.
    EcdsaPem(String),
    /// ECDSA public key from DER-encoded file.
    EcdsaDer(String),
    /// Base64-encoded ECDSA public key components.
    EcdsaComponents { x: String, y: String },
    /// EdDSA public key from PEM-encoded file.
    EddsaPem(String),
    /// EdDSA public key from DER-encoded file.
    EddsaDer(String),
    /// Base64-encoded EdDSA public key components.
    EddsaComponents { x: String },
}

/// What the JWT library makes of a key: secrets and components from the
/// configuration, keys kept in files from the file's bytes.
pub open spec fn jwt_key_spec(k: JwtKey, file: Seq<u8>) -> Result<jsonwebtoken::DecodingKey, jsonwebtoken::errors::Error> {
    match k {
        JwtKey::HmacSecret(s) => base64_secret_key(s@),
        JwtKey::RsaPem(_) => rsa_pem_key(file),
        JwtKey::RsaDer(_) => Ok(rsa_der_key(file)),
        JwtKey::RsaComponents { modulus, exponent } => rsa_components_key(modulus@, exponent@),
        JwtKey::EcdsaPem(_) => ec_pem_key(file),
        JwtKey::EcdsaDer(_) => Ok(ec_der_key(file)),
        JwtKey::EcdsaComponents { x, y } => ec_components_key(x@, y@),
        JwtKey::EddsaPem(_) => ed_pem_key(file),
        JwtKey::EddsaDer(_) => Ok(ed_der_key(file)),
        JwtKey::EddsaComponents { x } => ed_components_key(x@),
    }
}

impl JwtKey {
    /// The file holding the key, for keys kept in files.
    pub fn key_file(&self) -> (r: Option<&str>)
        ensures
            match self {
                JwtKey::RsaPem(p) | JwtKey::RsaDer(p) | JwtKey::EcdsaPem(p) | JwtKey::EcdsaDer(p)
                | JwtKey::EddsaPem(p) | JwtKey::EddsaDer(p) => r matches Some(f) && f@ == p@,
                _ => r is None,
            },
    {
        match self {
            JwtKey::RsaPem(p) | JwtKey::RsaDer(p) | JwtKey::EcdsaPem(p) | JwtKey::EcdsaDer(p)
            | JwtKey::EddsaPem(p) | JwtKey::EddsaDer(p) => Some(p.as_str()),
            _ => None,
        }
    }

    /// Load a key for JWS verification, given the contents of its file for keys
    /// kept in files.
    pub fn to_key(&self, file: &[u8]) -> (r: Result<jsonwebtoken::DecodingKey, AuthSetupError>)
        ensures
            match jwt_key_spec(*self, file@) {
                Ok(k) => r matches Ok(x) && x == k,
                Err(e) => r matches Err(AuthSetupError::Jwt(m)) && m@ == jwt_error_message(e),
            },
            (self is RsaDer || self is EcdsaDer || self is EddsaDer) ==> r is Ok,
            self matches JwtKey::HmacSecret(s) ==> (r is Ok <==> base64_standard_decode(s@) is Ok),
    {
        let r = match self {
            JwtKey::HmacSecret(s) => key_from_base64_secret(s.as_str()),
            JwtKey::RsaPem(_) => key_from_rsa_pem(file),
            JwtKey::RsaDer(_) => Ok(key_from_rsa_der(file)),
            JwtKey::RsaComponents { modulus, exponent } => key_from_rsa_components(modulus.as_str(), exponent.as_str()),
            JwtKey::EcdsaPem(_) => key_from_ec_pem(file),
            JwtKey::EcdsaDer(_) => Ok(key_from_ec_der(file)),
            JwtKey::EcdsaComponents { x, y } => key_from_ec_components(x.as_str(), y.as_str()),
            JwtKey::EddsaPem(_) => key_from_ed_pem(file),
            JwtKey::EddsaDer(_) => Ok(key_from_ed_der(file)),
            JwtKey::EddsaComponents { x } => key_from_ed_components(x.as_str()),
        };
        match r {
            Ok(k) => Ok(k),
            Err(e) => Err(setup_error(e)),
        }
    }
}

/// The `sub` claim of a verified token.
#[derive(Clone, Debug, PartialEq, Eq)]
pub enum SubjectClaim {
    /// A string subject.
    Text(String),
    /// A numeric subject, in its decimal form.
    Number(String),
    /// No usable subject.
    Missing,
}

/// Outcome of decoding and validating a token.
#[derive(Clone, Debug, PartialEq, Eq)]
pub enum JwtDecodeOutcome {
    /// The token is valid; its subject.
    Valid(SubjectClaim),
    /// The signature does not match.
    InvalidSignature,
    /// The token has expired.
    Expired,
    /// Any other failure.
    Invalid,
}

/// A claim value of a decoded token, as far as the subject is concerned.
#[derive(Clone, Debug, PartialEq, Eq)]
pub enum ClaimValue {
    /// A JSON string.
    Text(String),
    /// A JSON number, in its decimal form.
    Number(String),
    /// A JSON boolean.
    Bool(bool),
    /// JSON `null`.
    Null,
    /// A JSON array.
    Array,
    /// A JSON object.
    Object,
}

/// The abstract content of a claim value.
pub enum ClaimView {
    Text(Seq<char>),
    Number(Seq<char>),
    Bool(bool),
    Null,
    Array,
    Object,
}

impl View for ClaimValue {
    type V = ClaimView;

    open spec fn view(&self) -> ClaimView {
        match self {
            ClaimValue::Text(t) => ClaimView::Text(t@),
            ClaimValue::Number(n) => ClaimView::Number(n@),
            ClaimValue::Bool(b) => ClaimView::Bool(*b),
            ClaimValue::Null => ClaimView::Null,
            ClaimValue::Array => ClaimView::Array,
            ClaimValue::Object => ClaimView::Object,
        }
    }
}

/// Why a token was refused.
#[derive(Clone, Copy, Debug, PartialEq, Eq, Structural)]
pub enum JwtFailure {
    /// The signature does not match.
    InvalidSignature,
    /// The token has expired.
    Expired,
    /// Any other failure.
    Other,
}

/// Name of the claims a token's payload holds: the JSON object its payload part
/// decodes to, each value taken by its kind (strings, and numbers in decimal form).
pub uninterp spec fn jwt_payload_claims(token: Seq<char>) -> Map<Seq<char>, ClaimView>;

/// Name of the verdict of `jsonwebtoken::decode` (into a map of JSON values) on a
/// token, with a key and validation settings, when the clock reads `now` seconds
/// since the Unix epoch: success, or the kind of failure.
pub uninterp spec fn jwt_verdict(
    token: Seq<char>,
    key: jsonwebtoken::DecodingKey,
    validation: jsonwebtoken::Validation,
    now: u64,
) -> Result<(), JwtFailure>;

/// The verdict a decoding result carries.
pub open spec fn verdict_of(d: Result<Vec<(String, ClaimValue)>, JwtFailure>) -> Result<(), JwtFailure> {
    match d {
        Ok(_) => Ok(()),
        Err(f) => Err(f),
    }
}

/// Whether a claim list holds exactly the claims of a map, each name once.
pub open spec fn claims_are(c: Seq<(String, ClaimValue)>, m: Map<Seq<char>, ClaimView>) -> bool {
    &&& keys_distinct(c)
    &&& forall|i: int| 0 <= i < c.len() ==> m.contains_key((#[trigger] c[i]).0@) && m[c[i].0@] == c[i].1@
    &&& forall|k: Seq<char>| #[trigger] m.contains_key(k) ==> has_key(c, k)
}

/// Decodes and validates a token with `jsonwebtoken::decode` into a claim map of
/// JSON values, each converted to a [`ClaimValue`]; a failure is converted by its
/// error kind. The verdict is the one for the clock's reading at the call (some
/// `now`), and the claims of a valid token are those of its payload; the map is
/// walked in an order that each process picks, so only the claims, not their
/// order, are stated.
#[verifier::external_body]
fn jwt_decode_claims(
    token: &str,
    key: &jsonwebtoken::DecodingKey,
    validation: &jsonwebtoken::Validation,
) -> (r: Result<Vec<(String, ClaimValue)>, JwtFailure>)
    ensures
        exists|now: u64| #[trigger] jwt_verdict(token@, *key, *validation, now) == verdict_of(r),
        r matches Ok(c) ==> claims_are(c@, jwt_payload_claims(token@)),
{
    match jsonwebtoken::decode::<HashMap<String, serde_json::Value>>(token, key, validation) {
        Ok(data) => Ok(data.claims.into_iter().map(|(k, v)| (k, match v {
            serde_json::Value::String(s) => ClaimValue::Text(s),
            serde_json::Value::Number(n) => ClaimValue::Number(n.to_string()),
            serde_json::Value::Bool(b) => ClaimValue::Bool(b),
            serde_json::Value::Null => ClaimValue::Null,
            serde_json::Value::Array(_) => ClaimValue::Array,
            serde_json::Value::Object(_) => ClaimValue::Object,
        })).collect()),
        Err(e) => Err(match e.kind() {
            jsonwebtoken::errors::ErrorKind::InvalidSignature => JwtFailure::InvalidSignature,
            jsonwebtoken::errors::ErrorKind::ExpiredSignature => JwtFailure::Expired,
            _ => JwtFailure::Other,
        }),
    }
}

/// Name of the subject claim of a token.
pub const SUBJECT_CLAIM: &'static str = "sub";

/// Whether a subject claim reads a claim value: strings and numbers give the
/// subject, anything else leaves it missing.
pub open spec fn subject_of(v: ClaimValue, s: SubjectClaim) -> bool {
    match v {
        ClaimValue::Text(t) => s matches SubjectClaim::Text(u) && u@ == t@,
        ClaimValue::Number(n) => s matches SubjectClaim::Number(u) && u@ == n@,
        _ => s is Missing,
    }
}

/// Whether a subject claim is the one a claim map holds under `sub`: missing
/// when there is no such claim.
pub open spec fn subject_spec(claims: Seq<(String, ClaimValue)>, s: SubjectClaim) -> bool {
    match first_key(claims, SUBJECT_CLAIM@) {
        Some(i) => subject_of(claims[i].1, s),
        None => s is Missing && !has_key(claims, SUBJECT_CLAIM@),
    }
}

/// The subject of a verified token, read from its claims.
pub fn subject_claim(claims: &Vec<(String, ClaimValue)>) -> (r: SubjectClaim)
    ensures
        subject_spec(claims@, r),
{
    match find_key(claims, SUBJECT_CLAIM) {
        Some(i) => match &claims[i].1 {
            ClaimValue::Text(t) => SubjectClaim::Text(owned(t.as_str())),
            ClaimValue::Number(n) => SubjectClaim::Number(owned(n.as_str())),
            _ => SubjectClaim::Missing,
        },
        None => SubjectClaim::Missing,
    }
}

/// Whether a decoding outcome is the one a decoding result gives: the subject of
/// a valid token, or the kind of failure.
pub open spec fn decode_outcome_spec(d: Result<Vec<(String, ClaimValue)>, JwtFailure>, o: JwtDecodeOutcome) -> bool {
    match d {
        Ok(claims) => o matches JwtDecodeOutcome::Valid(s) && subject_spec(claims@, s),
        Err(JwtFailure::InvalidSignature) => o is InvalidSignature,
        Err(JwtFailure::Expired) => o is Expired,
        Err(JwtFailure::Other) => o is Invalid,
    }
}

/// The outcome of decoding a token, from what the JWT library gave.
pub fn decode_outcome(d: Result<Vec<(String, ClaimValue)>, JwtFailure>) -> (r: JwtDecodeOutcome)
    ensures
        decode_outcome_spec(d, r),
{
    match d {
        Ok(claims) => JwtDecodeOutcome::Valid(subject_claim(&claims)),
        Err(JwtFailure::InvalidSignature) => JwtDecodeOutcome::InvalidSignature,
        Err(JwtFailure::Expired) => JwtDecodeOutcome::Expired,
        Err(JwtFailure::Other) => JwtDecodeOutcome::Invalid,
    }
}

/// What extraction yields for a decoding outcome: a valid token authenticates
/// its subject (if any) as verified elsewhere; a bad signature or an expired token
/// fails authentication; anything else is an invalid payload.
pub open spec fn outcome_view(o: JwtDecodeOutcome) -> ExtractionView {
    match o {
        JwtDecodeOutcome::Valid(SubjectClaim::Text(s)) => Ok((Some(s@), TokenView::ExternallyVerified)),
        JwtDecodeOutcome::Valid(SubjectClaim::Number(n)) => Ok((Some(n@), TokenView::ExternallyVerified)),
        JwtDecodeOutcome::Valid(SubjectClaim::Missing) => Ok((None, TokenView::ExternallyVerified)),
        JwtDecodeOutcome::InvalidSignature | JwtDecodeOutcome::Expired => Err(AuthErrorKind::AuthFailed),
        JwtDecodeOutcome::Invalid => Err(AuthErrorKind::InvalidAuthPayload),
    }
}

/// The subject a claim map names: its `sub` claim, when a string or a number.
pub open spec fn claims_subject(m: Map<Seq<char>, ClaimView>) -> Option<Seq<char>> {
    if m.contains_key(SUBJECT_CLAIM@) {
        match m[SUBJECT_CLAIM@] {
            ClaimView::Text(t) => Some(t),
            ClaimView::Number(n) => Some(n),
            _ => None,
        }
    } else {
        None
    }
}

/// What extraction yields for a token's verdict and payload claims: a valid
/// token authenticates the subject its claims name (if any) as verified
/// elsewhere; a bad signature or an expired token fails authentication; anything
/// else is an invalid payload.
pub open spec fn jwt_outcome_view(verdict: Result<(), JwtFailure>, claims: Map<Seq<char>, ClaimView>) -> ExtractionView {
    match verdict {
        Ok(_) => Ok((claims_subject(claims), TokenView::ExternallyVerified)),
        Err(JwtFailure::InvalidSignature) | Err(JwtFailure::Expired) => Err(AuthErrorKind::AuthFailed),
        Err(JwtFailure::Other) => Err(AuthErrorKind::InvalidAuthPayload),
    }
}

/// A decoding outcome read from a decoding result carries what the verdict and
/// payload claims give.
pub proof fn lemma_outcome_of_decoding(
    d: Result<Vec<(String, ClaimValue)>, JwtFailure>,
    o: JwtDecodeOutcome,
    claims: Map<Seq<char>, ClaimView>,
)
    requires
        decode_outcome_spec(d, o),
        d matches Ok(c) ==> claims_are(c@, claims),
    ensures
        outcome_view(o) == jwt_outcome_view(verdict_of(d), claims),
{
    if let Ok(c) = d {
        let cs = c@;
        match first_key(cs, SUBJECT_CLAIM@) {
            Some(i) => {
                assert(0 <= i < cs.len() && cs[i].0@ == SUBJECT_CLAIM@);
                assert(claims.contains_key(cs[i].0@) && claims[cs[i].0@] == cs[i].1@);
            },
            None => {
                if claims.contains_key(SUBJECT_CLAIM@) {
                    assert(has_key(cs, SUBJECT_CLAIM@));
                }
            },
        }
    }
}

/// Extraction result for a decoding outcome.
pub fn outcome_result(o: JwtDecodeOutcome) -> (r: Result<(Option<UserId>, AuthToken), AuthError>)
    ensures
        extraction_view(r) == outcome_view(o),
{
    match o {
        JwtDecodeOutcome::Valid(SubjectClaim::Text(s)) => Ok((Some(UserId::from_string(s)), AuthToken::ExternallyVerified)),
        JwtDecodeOutcome::Valid(SubjectClaim::Number(n)) => Ok((Some(UserId::from_string(n)), AuthToken::ExternallyVerified)),
        JwtDecodeOutcome::Valid(SubjectClaim::Missing) => Ok((None, AuthToken::ExternallyVerified)),
        JwtDecodeOutcome::InvalidSignature | JwtDecodeOutcome::Expired => Err(AuthError::AuthFailed),
        JwtDecodeOutcome::Invalid => Err(AuthError::InvalidAuthPayload),
    }
}

/// Scheme name of HTTP Bearer authentication.
pub const BEARER_SCHEME: &'static str = "Bearer";

/// What reading an `Authorization` header value yields before the token is
/// decoded: the token, or the error.
pub open spec fn bearer_header_spec(value: Seq<u8>) -> Result<Seq<char>, AuthErrorKind> {
    match value_text(value) {
        None => Err(AuthErrorKind::InvalidAuthHeader),
        Some(text) => match split_once_spec(text, ' ') {
            None => Err(AuthErrorKind::InvalidAuthHeader),
            Some((scheme, payload)) => if eq_ignore_ascii_case(scheme, BEARER_SCHEME@) {
                Ok(payload)
            } else {
                Err(AuthErrorKind::UnknownAuthScheme(scheme))
            },
        },
    }
}

/// Authentication extractor (front-end) for HTTP Bearer tokens in JWT form.
pub struct JwtAuthExtractor {
    /// Decoding key.
    pub key: jsonwebtoken::DecodingKey,
    /// Validation settings.
    pub validation: jsonwebtoken::Validation,
    /// Value to use for the `WWW-Authenticate` header.
    pub www_auth: String,
}

impl JwtAuthExtractor {
    /// Create new extractor, with an optional custom realm.
    pub fn new(realm: Option<&str>, key: jsonwebtoken::DecodingKey, validation: jsonwebtoken::Validation) -> (r: JwtAuthExtractor)
        ensures
            r.key == key,
            r.validation == validation,
            r.www_auth@ == www_authenticate_value(
                BEARER_SCHEME@,
                match realm {
                    Some(x) => x@,
                    None => "auth"@,
                },
            ),
    {
        let www_auth = match realm {
            Some(x) => format_www_authenticate(BEARER_SCHEME, x),
            None => format_www_authenticate(BEARER_SCHEME, "auth"),
        };
        JwtAuthExtractor { key, validation, www_auth }
    }

    /// Set realm used for HTTP authentication challenge.
    pub fn set_realm(&mut self, realm: &str)
        ensures
            final(self).www_auth@ == www_authenticate_value(BEARER_SCHEME@, realm@),
    {
        self.www_auth = format_www_authenticate(BEARER_SCHEME, realm);
    }

    /// Set JWT decoding key.
    pub fn set_key(&mut self, key: jsonwebtoken::DecodingKey)
        ensures
            final(self).key == key,
            final(self).validation == old(self).validation,
            final(self).www_auth == old(self).www_auth,
    {
        self.key = key;
    }

    /// Set JWT validation parameters.
    pub fn set_validation(&mut self, valid: jsonwebtoken::Validation)
        ensures
            final(self).validation == valid,
            final(self).key == old(self).key,
            final(self).www_auth == old(self).www_auth,
    {
        self.validation = valid;
    }

    /// Reads the token out of an `Authorization` header value.
    pub fn parse_header(header: &[u8]) -> (r: Result<String, AuthError>)
        ensures
            match bearer_header_spec(header@) {
                Ok(t) => r matches Ok(s) && s@ == t,
                Err(k) => r matches Err(e) && e@ == k,
            },
    {
        let text = match value_to_text(header) {
            Some(t) => t,
            None => return Err(AuthError::InvalidAuthHeader),
        };
        let v = chars_of(text.as_str());
        match split_once(v.as_slice(), ' ') {
            Some((scheme, payload)) => {
                let bearer = chars_of(BEARER_SCHEME);
                if chars_eq_ignore_ascii_case(scheme.as_slice(), bearer.as_slice()) {
                    Ok(string_of(payload.as_slice()))
                } else {
                    Err(AuthError::UnknownAuthScheme(string_of(scheme.as_slice())))
                }
            },
            None => Err(AuthError::InvalidAuthHeader),
        }
    }

}

impl AuthExtractor for JwtAuthExtractor {
    /// A missing header or one that holds no bearer token decides the result; a
    /// token yields what its verdict, under this key and these validation settings
    /// at the clock's reading (some `now`), and its payload claims give.
    open spec fn extract_allows(&self, headers: Seq<(Seq<char>, Seq<u8>)>, v: ExtractionView) -> bool {
        match header_get(headers, AUTHORIZATION@) {
            None => v == Err::<(Option<Seq<char>>, TokenView), AuthErrorKind>(AuthErrorKind::NoAuthProvided),
            Some(h) => match bearer_header_spec(h) {
                Err(k) => v == Err::<(Option<Seq<char>>, TokenView), AuthErrorKind>(k),
                Ok(t) => exists|now: u64|
                    v == jwt_outcome_view(#[trigger] jwt_verdict(t, self.key, self.validation, now), jwt_payload_claims(t)),
            },
        }
    }

    /// 401 with a bearer challenge for missing or failed authentication.
    open spec fn response_spec(&self, err: AuthErrorKind) -> ResponseView {
        challenge_response(self.www_auth@, err)
    }

    /// Extract user ID and authentication data from request headers: the token's
    /// subject, verified elsewhere.
    fn extract_auth(&self, headers: &RequestHeaders) -> (r: Result<(Option<UserId>, AuthToken), AuthError>) {
        match headers.get(AUTHORIZATION) {
            Some(v) => match Self::parse_header(v.as_slice()) {
                Ok(token) => {
                    let d = jwt_decode_claims(token.as_str(), &self.key, &self.validation);
                    let ghost dg = d;
                    let o = decode_outcome(d);
                    let ghost og = o;
                    let r = outcome_result(o);
                    proof {
                        let now = choose|now: u64| #[trigger] jwt_verdict(token@, self.key, self.validation, now) == verdict_of(dg);
                        lemma_outcome_of_decoding(dg, og, jwt_payload_claims(token@));
                        assert(extraction_view(r) == jwt_outcome_view(
                            jwt_verdict(token@, self.key, self.validation, now),
                            jwt_payload_claims(token@),
                        ));
                    }
                    r
                },
                Err(e) => Err(e),
            },
            None => Err(AuthError::NoAuthProvided),
        }
    }

    /// Format error response from [`AuthError`].
    fn error_response(&self, err: &AuthError) -> (r: ErrorResponse) {
        challenge_error_response(self.www_auth.as_str(), err)
    }
}

} // verus!
