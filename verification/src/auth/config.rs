//! Configuration of authentication: users, roles, passwords, provider and extractor.

use vstd::prelude::*;

use crate::auth::extractor::{
    AuthExtractor, BasicAuthExtractor, ExtractionView, HeaderAuthExtractor, NoOpAuthExtractor,
    ResponseView, DEFAULT_REALM, DEFAULT_TOKEN_HEADER, DEFAULT_USER_HEADER, BASIC_SCHEME,
    www_authenticate_value, ErrorResponse, extraction_view,
};
use crate::auth::errors::{AuthError, AuthErrorKind};
use crate::auth::jwt::{
    AuthSetupError, BEARER_SCHEME, JwtAlgorithm, JwtAuthExtractor, JwtKey, JwtValidation, SetupErrorView,
    jwt_error_message, jwt_key_spec, validation_matches,
};
use crate::auth::token::{AuthToken, TokenView};
use crate::auth::user::UserId;
use crate::duration::NANOS_PER_SEC;
use crate::errors::IoError;
use crate::headers::RequestHeaders;
use crate::table::{
    contains_str, find_key, first_key, has_key, insert_str, keys_distinct, strings_view, table_insert,
};
use crate::text::owned;

verus! {

/// Name of the check that a string is a valid PHC password hash string, as
/// `password_hash::PasswordHashString::new` decides it.
pub uninterp spec fn phc_valid(phc: Seq<char>) -> bool;

/// Name of the outcome of verifying a password against a PHC hash string with the
/// Argon2, scrypt and PBKDF2 verifiers.
pub uninterp spec fn phc_verify(phc: Seq<char>, password: Seq<char>) -> bool;

/// Checks a PHC string with `password_hash::PasswordHashString::new`.
///
/// The contract claims only that the answer is `phc_valid` of the input.
#[verifier::external_body]
fn phc_check(phc: &str) -> (r: bool)
    ensures
        r == phc_valid(phc@),
{
    password_hash::PasswordHashString::new(phc).is_ok()
}

/// Verifies a password against a PHC hash string: parses it with
/// `password_hash::PasswordHash::new` and calls `PasswordHash::verify_password`
/// with the Argon2 (default parameters), scrypt and PBKDF2 verifiers, which
/// accepts when one of them accepts.
///
/// The contract claims only that the answer is `phc_verify` of the arguments.
#[verifier::external_body]
fn phc_verify_password(phc: &str, password: &str) -> (r: bool)
    ensures
        r == phc_verify(phc@, password@),
{
    let argon = argon2::Argon2::default();
    match password_hash::PasswordHash::new(phc) {
        Ok(hash) => hash.verify_password(&[&argon, &scrypt::Scrypt, &pbkdf2::Pbkdf2], password.as_bytes()).is_ok(),
        Err(_) => false,
    }
}

/// Compares two strings with `subtle::ConstantTimeEq` on their UTF-8 bytes: equal
/// exactly when the lengths and all bytes agree, which for strings means equal text.
#[verifier::external_body]
fn constant_time_eq(a: &str, b: &str) -> (r: bool)
    ensures
        r == (a@ == b@),
{
    subtle::ConstantTimeEq::ct_eq(a.as_bytes(), b.as_bytes()).into()
}

/// Password hash in PHC string format.
#[derive(Debug)]
pub struct HashedPassword {
    phc: String,
}

impl HashedPassword {
    /// The hash string is always a valid PHC string.
    #[verifier::type_invariant]
    spec fn inv(self) -> bool {
        phc_valid(self.phc@)
    }
}

impl View for HashedPassword {
    type V = Seq<char>;

    closed spec fn view(&self) -> Seq<char> {
        self.phc@
    }
}

impl HashedPassword {
    /// Parses a password hash in PHC string format.
    pub fn parse(phc: &str) -> (r: Option<HashedPassword>)
        ensures
            r is Some <==> phc_valid(phc@),
            r matches Some(h) ==> h@ == phc@,
    {
        if phc_check(phc) {
            Some(HashedPassword { phc: owned(phc) })
        } else {
            None
        }
    }

    /// The hash in PHC string format.
    pub fn as_str(&self) -> (r: &str)
        ensures
            r@ == self@,
            phc_valid(r@),
    {
        proof {
            use_type_invariant(self);
        }
        self.phc.as_str()
    }
}

/// Various ways of storing client password.
#[derive(Debug)]
pub enum UserPassword {
    /// Cleartext password value.
    Plaintext(String),
    /// Securely hashed password value, in PHC string format.
    Hashed(HashedPassword),
}

/// The abstract content of a [`UserPassword`].
pub enum PasswordView {
    Plaintext(Seq<char>),
    Hashed(Seq<char>),
}

impl View for UserPassword {
    type V = PasswordView;

    open spec fn view(&self) -> PasswordView {
        match self {
            UserPassword::Plaintext(p) => PasswordView::Plaintext(p@),
            UserPassword::Hashed(h) => PasswordView::Hashed(h@),
        }
    }
}

/// Whether a presented password matches a stored one.
pub open spec fn password_matches(stored: PasswordView, given: Seq<char>) -> bool {
    match stored {
        PasswordView::Plaintext(p) => p == given,
        PasswordView::Hashed(h) => phc_verify(h, given),
    }
}

impl UserPassword {
    /// Checks a presented password: in constant time against a cleartext value,
    /// or with the password hash verifiers against a hashed value.
    pub fn matches_password(&self, other: &str) -> (r: bool)
        ensures
            r == password_matches(self@, other@),
    {
        match self {
            UserPassword::Plaintext(p) => constant_time_eq(other, p.as_str()),
            UserPassword::Hashed(h) => phc_verify_password(h.as_str(), other),
        }
    }
}

/// User configuration.
#[derive(Debug)]
pub struct UserConfig {
    /// User password value.
    pub password: Option<UserPassword>,
    /// Roles that are granted to this user.
    pub roles: Vec<String>,
}

impl UserConfig {
    /// A user with an optional password and no roles.
    pub fn new(password: Option<UserPassword>) -> (r: UserConfig)
        ensures
            r.password == password,
            r.roles@ == Seq::<String>::empty(),
    {
        UserConfig { password, roles: Vec::new() }
    }

    /// Grants a role to the user; a role is held at most once.
    pub fn grant_role(&mut self, role: String)
        ensures
            final(self).password == old(self).password,
            strings_view(final(self).roles@).contains(role@),
            forall|r: Seq<char>|
                #![trigger strings_view(final(self).roles@).contains(r)]
                strings_view(final(self).roles@).contains(r) <==> (strings_view(old(self).roles@).contains(r) || r == role@),
    {
        let ghost before = self.roles@;
        insert_str(&mut self.roles, role);
        proof {
            let after = self.roles@;
            assert forall|r: Seq<char>|
                strings_view(after).contains(r) <==> (strings_view(before).contains(r) || r == role@) by {
                if strings_view(before).contains(role@) {
                    assert(after == before);
                } else {
                    assert(after == before.push(role));
                    assert(strings_view(after) =~= strings_view(before).push(role@));
                    if strings_view(after).contains(r) && r != role@ {
                        let j = choose|j: int| 0 <= j < strings_view(after).len() && strings_view(after)[j] == r;
                        assert(j < before.len());
                        assert(strings_view(before)[j] == r);
                    }
                    if strings_view(before).contains(r) {
                        let j = choose|j: int| 0 <= j < strings_view(before).len() && strings_view(before)[j] == r;
                        assert(strings_view(after)[j] == r);
                    }
                    if r == role@ {
                        assert(strings_view(after)[before.len() as int] == r);
                    }
                }
            }
        }
    }
}

/// Role configuration.
#[derive(Clone, Debug)]
pub struct RoleConfig {
    /// Permissions that are granted to the role.
    pub permissions: Vec<String>,
    /// Does this role allow skipping permission checks altogether.
    pub super_user: bool,
}

impl RoleConfig {
    /// A role with no permissions.
    pub fn new(super_user: bool) -> (r: RoleConfig)
        ensures
            r.super_user == super_user,
            r.permissions@ == Seq::<String>::empty(),
    {
        RoleConfig { permissions: Vec::new(), super_user }
    }

    /// Grants a permission to the role; a permission is held at most once.
    pub fn grant_permission(&mut self, permission: String)
        ensures
            final(self).super_user == old(self).super_user,
            strings_view(old(self).permissions@).contains(permission@) ==> final(self).permissions@ == old(self).permissions@,
            !strings_view(old(self).permissions@).contains(permission@) ==> final(self).permissions@ == old(self).permissions@.push(permission),
    {
        insert_str(&mut self.permissions, permission);
    }

    /// Whether this role grants a permission: a super-user role grants all.
    pub fn grants(&self, permission: &str) -> (r: bool)
        ensures
            r == role_grants(*self, permission@),
            r == (self.super_user || exists|i: int|
                0 <= i < self.permissions@.len() && (#[trigger] self.permissions@[i])@ == permission@),
    {
        proof {
            law_role_grants_listed_permissions(*self, permission@);
        }
        self.super_user || contains_str(&self.permissions, permission)
    }
}

/// Whether a role grants a permission.
pub open spec fn role_grants(role: RoleConfig, permission: Seq<char>) -> bool {
    role.super_user || strings_view(role.permissions@).contains(permission)
}

/// A role grants a permission exactly when it is a super-user role or the
/// permission occurs anywhere in its list of permissions.
pub proof fn law_role_grants_listed_permissions(role: RoleConfig, permission: Seq<char>)
    ensures
        role_grants(role, permission) <==> (role.super_user || exists|i: int|
            0 <= i < role.permissions@.len() && (#[trigger] role.permissions@[i])@ == permission),
{
    let v = strings_view(role.permissions@);
    if v.contains(permission) {
        let i = choose|i: int| 0 <= i < v.len() && v[i] == permission;
        assert(role.permissions@[i]@ == permission);
    }
    if exists|i: int| 0 <= i < role.permissions@.len() && (#[trigger] role.permissions@[i])@ == permission {
        let i = choose|i: int| 0 <= i < role.permissions@.len() && (#[trigger] role.permissions@[i])@ == permission;
        assert(v[i] == permission);
    }
}

/// Granting a permission to a role makes the role grant it, whatever it held
/// before, and keeps every permission it granted before.
pub proof fn law_granted_permission_is_granted(before: RoleConfig, after: RoleConfig, permission: String, other: Seq<char>)
    requires
        after.super_user == before.super_user,
        strings_view(before.permissions@).contains(permission@) ==> after.permissions@ == before.permissions@,
        !strings_view(before.permissions@).contains(permission@) ==> after.permissions@ == before.permissions@.push(permission),
    ensures
        role_grants(after, permission@),
        role_grants(before, other) ==> role_grants(after, other),
{
    law_role_grants_listed_permissions(before, permission@);
    law_role_grants_listed_permissions(after, permission@);
    law_role_grants_listed_permissions(before, other);
    law_role_grants_listed_permissions(after, other);
    if !strings_view(before.permissions@).contains(permission@) {
        let n = before.permissions@.len() as int;
        assert(after.permissions@[n]@ == permission@);
        if exists|i: int| 0 <= i < before.permissions@.len() && (#[trigger] before.permissions@[i])@ == other {
            let i = choose|i: int| 0 <= i < before.permissions@.len() && (#[trigger] before.permissions@[i])@ == other;
            assert(after.permissions@[i] == before.permissions@[i]);
        }
    }
}

/// Auth provider (back-end) configuration.
#[derive(Clone, Copy, Debug, PartialEq, Eq, Structural)]
pub enum ProviderConfig {
    /// No provider.
    NoOp,
    /// Get user and role information from [`AuthConfig`] struct.
    Config,
}

impl Default for ProviderConfig {
    fn default() -> (r: ProviderConfig)
        ensures
            r == ProviderConfig::NoOp,
    {
        ProviderConfig::NoOp
    }
}

/// Auth extractor (front-end) configuration.
#[derive(Debug)]
pub enum ExtractorConfig {
    /// No extractor.
    NoOp,
    /// Extract credentials using HTTP Basic.
    Basic {
        /// Custom realm to use for HTTP Basic auth, if any.
        realm: Option<String>,
    },
    /// Extract credentials using (configurable) HTTP headers.
    Header {
        /// Custom user HTTP header to use, if any.
        user_header: Option<String>,
        /// Custom token HTTP header to use, if any.
        token_header: Option<String>,
    },
    /// Extract credentials using HTTP Bearer containing a JWT.
    Jwt {
        /// Custom realm to use for HTTP Bearer auth, if any.
        realm: Option<String>,
        /// Signature algorithm to use when verifying JWS.
        algo: JwtAlgorithm,
        /// Key to use for JWS verification.
        key: JwtKey,
        /// JWT validation parameters.
        validate: JwtValidation,
    },
    /// Use several extractors, trying each one in sequence until there is success.
    Stacked {
        /// Contents of the extractor stack.
        extractors: Vec<ExtractorConfig>,
    },
}

impl Default for ExtractorConfig {
    fn default() -> (r: ExtractorConfig)
        ensures
            r is NoOp,
    {
        ExtractorConfig::NoOp
    }
}

/// An extractor made from configuration.
pub enum ConfiguredExtractor {
    /// See [`NoOpAuthExtractor`].
    NoOp(NoOpAuthExtractor),
    /// See [`BasicAuthExtractor`].
    Basic(BasicAuthExtractor),
    /// See [`HeaderAuthExtractor`].
    Header(HeaderAuthExtractor),
    /// See [`JwtAuthExtractor`].
    Jwt(JwtAuthExtractor),
    /// Several extractors, tried in order until one succeeds.
    Stacked(Vec<ConfiguredExtractor>),
}

/// Whether the results of a stack's extractors, in order, are those of one run
/// over a stack of `n`: it stops at the first success, and runs every extractor
/// when none succeeds.
pub open spec fn stack_run_shape(n: nat, rs: Seq<ExtractionView>) -> bool {
    &&& rs.len() <= n
    &&& forall|i: int| 0 <= i < rs.len() - 1 ==> (#[trigger] rs[i]) is Err
    &&& rs.len() < n ==> rs.len() > 0 && rs.last() is Ok
}

/// What a stack yields for a run: the success that ended it; when every extractor
/// failed, the error of the first; an empty stack finds no authentication data.
pub open spec fn stack_outcome(rs: Seq<ExtractionView>) -> ExtractionView {
    if rs.len() == 0 {
        Err(AuthErrorKind::NoAuthProvided)
    } else if rs.last() is Ok {
        rs.last()
    } else {
        rs[0]
    }
}

/// Whether `v` is a result a configured extractor may yield for a header map.
pub open spec fn configured_allows(e: ConfiguredExtractor, headers: Seq<(Seq<char>, Seq<u8>)>, v: ExtractionView) -> bool
    decreases e,
{
    match e {
        ConfiguredExtractor::NoOp(x) => x.extract_allows(headers, v),
        ConfiguredExtractor::Basic(x) => x.extract_allows(headers, v),
        ConfiguredExtractor::Header(x) => x.extract_allows(headers, v),
        ConfiguredExtractor::Jwt(x) => x.extract_allows(headers, v),
        ConfiguredExtractor::Stacked(es) => exists|rs: Seq<ExtractionView>|
            stack_run_shape(es@.len(), rs)
            && (forall|i: int| 0 <= i < rs.len() ==> configured_allows(es@[i], headers, #[trigger] rs[i]))
            && v == stack_outcome(rs),
    }
}

/// The response of a configured extractor to an error: a stack answers as its
/// first extractor does, an empty one as the no-op extractor.
pub open spec fn configured_response(e: ConfiguredExtractor, err: AuthErrorKind) -> ResponseView
    decreases e,
{
    match e {
        ConfiguredExtractor::NoOp(x) => x.response_spec(err),
        ConfiguredExtractor::Basic(x) => x.response_spec(err),
        ConfiguredExtractor::Header(x) => x.response_spec(err),
        ConfiguredExtractor::Jwt(x) => x.response_spec(err),
        ConfiguredExtractor::Stacked(es) => if es@.len() > 0 {
            configured_response(es@[0], err)
        } else {
            NoOpAuthExtractor.response_spec(err)
        },
    }
}

/// Extraction by a configured extractor.
fn configured_extract(e: &ConfiguredExtractor, headers: &RequestHeaders) -> (r: Result<(Option<UserId>, AuthToken), AuthError>)
    ensures
        configured_allows(*e, headers@, extraction_view(r)),
    decreases e,
{
    match e {
        ConfiguredExtractor::NoOp(x) => x.extract_auth(headers),
        ConfiguredExtractor::Basic(x) => x.extract_auth(headers),
        ConfiguredExtractor::Header(x) => x.extract_auth(headers),
        ConfiguredExtractor::Jwt(x) => x.extract_auth(headers),
        ConfiguredExtractor::Stacked(es) => {
            let ghost mut rs: Seq<ExtractionView> = Seq::empty();
            let mut first: Option<AuthError> = None;
            let mut i: usize = 0;
            while i < es.len()
                invariant
                    *e == ConfiguredExtractor::Stacked(*es),
                    i <= es@.len(),
                    rs.len() == i,
                    forall|j: int| 0 <= j < rs.len() ==> (#[trigger] rs[j]) is Err,
                    forall|j: int| 0 <= j < rs.len() ==> configured_allows(es@[j], headers@, #[trigger] rs[j]),
                    i > 0 ==> (first matches Some(f) && rs[0] == Err::<(Option<Seq<char>>, TokenView), AuthErrorKind>(f@)),
                    i == 0 ==> first is None,
                decreases es@.len() - i,
            {
                proof {
                    let whole = *e;
                    assert(decreases_to!(whole => whole->Stacked_0));
                    assert(decreases_to!(whole->Stacked_0 => whole->Stacked_0@));
                    assert(decreases_to!(whole->Stacked_0@ => whole->Stacked_0@[i as int]));
                }
                let r = configured_extract(&es[i], headers);
                proof {
                    rs = rs.push(extraction_view(r));
                }
                match r {
                    Ok(p) => {
                        let out: Result<(Option<UserId>, AuthToken), AuthError> = Ok(p);
                        assert(stack_run_shape(es@.len(), rs));
                        assert(stack_outcome(rs) == extraction_view(out));
                        return out;
                    },
                    Err(err) => {
                        if i == 0 {
                            first = Some(err);
                        }
                    },
                }
                i = i + 1;
            }
            assert(stack_run_shape(es@.len(), rs));
            let out: Result<(Option<UserId>, AuthToken), AuthError> = match first {
                Some(f) => Err(f),
                None => Err(AuthError::NoAuthProvided),
            };
            assert(stack_outcome(rs) == extraction_view(out));
            out
        },
    }
}

/// Error response of a configured extractor.
fn configured_error_response(e: &ConfiguredExtractor, err: &AuthError) -> (r: ErrorResponse)
    ensures
        r@ == configured_response(*e, err@),
    decreases e,
{
    match e {
        ConfiguredExtractor::NoOp(x) => x.error_response(err),
        ConfiguredExtractor::Basic(x) => x.error_response(err),
        ConfiguredExtractor::Header(x) => x.error_response(err),
        ConfiguredExtractor::Jwt(x) => x.error_response(err),
        ConfiguredExtractor::Stacked(es) => {
            if es.len() > 0 {
                proof {
                    let whole = *e;
                    assert(decreases_to!(whole => whole->Stacked_0));
                    assert(decreases_to!(whole->Stacked_0 => whole->Stacked_0@));
                    assert(decreases_to!(whole->Stacked_0@ => whole->Stacked_0@[0]));
                }
                configured_error_response(&es[0], err)
            } else {
                NoOpAuthExtractor.error_response(err)
            }
        },
    }
}

impl AuthExtractor for ConfiguredExtractor {
    open spec fn extract_allows(&self, headers: Seq<(Seq<char>, Seq<u8>)>, v: ExtractionView) -> bool {
        configured_allows(*self, headers, v)
    }

    open spec fn response_spec(&self, err: AuthErrorKind) -> ResponseView {
        configured_response(*self, err)
    }

    fn extract_auth(&self, headers: &RequestHeaders) -> (r: Result<(Option<UserId>, AuthToken), AuthError>) {
        configured_extract(self, headers)
    }

    fn error_response(&self, err: &AuthError) -> (r: ErrorResponse) {
        configured_error_response(self, err)
    }
}

/// A configured extractor answers an unknown user exactly as failed authentication.
pub proof fn lemma_failed_authentication_answers_agree(e: ConfiguredExtractor)
    ensures
        configured_response(e, AuthErrorKind::UserNotFound) == configured_response(e, AuthErrorKind::AuthFailed),
    decreases e,
{
    if let ConfiguredExtractor::Stacked(es) = e {
        if es@.len() > 0 {
            assert(decreases_to!(e => es));
            assert(decreases_to!(es => es@));
            assert(decreases_to!(es@ => es@[0]));
            lemma_failed_authentication_answers_agree(es@[0]);
        }
    }
}

/// View of an optional string slice.
pub open spec fn opt_str_view(o: Option<&str>) -> Option<Seq<char>> {
    match o {
        Some(s) => Some(s@),
        None => None,
    }
}

/// View of an optional string, with a default.
pub open spec fn opt_str_or(o: Option<String>, default: Seq<char>) -> Seq<char> {
    match o {
        Some(s) => s@,
        None => default,
    }
}

/// The path of the file a key is kept in, for keys kept in files.
pub open spec fn key_path(k: JwtKey) -> Option<Seq<char>> {
    match k {
        JwtKey::RsaPem(p) | JwtKey::RsaDer(p) | JwtKey::EcdsaPem(p) | JwtKey::EcdsaDer(p)
        | JwtKey::EddsaPem(p) | JwtKey::EddsaDer(p) => Some(p@),
        _ => None,
    }
}

/// The bytes a key is made from, given the outcomes of reading key files (path,
/// then contents or the I/O error): the outcome of the first entry for the key's
/// file, nothing for keys not kept in files.
pub open spec fn key_bytes(k: JwtKey, files: Seq<(String, Result<Vec<u8>, IoError>)>) -> Result<Seq<u8>, IoError> {
    match key_path(k) {
        None => Ok(Seq::empty()),
        Some(p) => match files[first_key(files, p)->Some_0].1 {
            Ok(b) => Ok(b@),
            Err(e) => Err(e),
        },
    }
}

/// The error loading a JWT key gives, if any: reading its file failed, or the JWT
/// library refused the key.
pub open spec fn key_load_error(k: JwtKey, files: Seq<(String, Result<Vec<u8>, IoError>)>) -> Option<SetupErrorView> {
    match key_bytes(k, files) {
        Err(e) => Some(SetupErrorView::KeyIo(key_path(k)->Some_0, e)),
        Ok(b) => match jwt_key_spec(k, b) {
            Ok(_) => None,
            Err(e) => Some(SetupErrorView::Jwt(jwt_error_message(e))),
        },
    }
}

/// The error making an extractor from configuration gives, if any: that of the
/// first key, in order, that fails to load.
pub open spec fn load_error(c: ExtractorConfig, files: Seq<(String, Result<Vec<u8>, IoError>)>) -> Option<SetupErrorView>
    decreases c,
{
    match c {
        ExtractorConfig::Jwt { key, .. } => key_load_error(key, files),
        ExtractorConfig::Stacked { extractors } => if exists|i: int|
            0 <= i < extractors@.len() && load_error(#[trigger] extractors@[i], files) is Some
                && forall|j: int| 0 <= j < i ==> load_error(#[trigger] extractors@[j], files) is None {
            let i = choose|i: int|
                0 <= i < extractors@.len() && load_error(#[trigger] extractors@[i], files) is Some
                    && forall|j: int| 0 <= j < i ==> load_error(#[trigger] extractors@[j], files) is None;
            load_error(extractors@[i], files)
        } else {
            None
        },
        _ => None,
    }
}

/// Whether a configuration names a key file: that of a JWT key kept in a file,
/// in it or in a stack it holds.
pub open spec fn names_key_file(c: ExtractorConfig, p: Seq<char>) -> bool
    decreases c,
{
    match c {
        ExtractorConfig::Jwt { key, .. } => key_path(key) == Some(p),
        ExtractorConfig::Stacked { extractors } => exists|i: int|
            0 <= i < extractors@.len() && names_key_file(#[trigger] extractors@[i], p),
        _ => false,
    }
}

/// Whether a list of strings holds a text.
pub open spec fn lists(v: Seq<String>, p: Seq<char>) -> bool {
    exists|j: int| 0 <= j < v.len() && (#[trigger] v[j])@ == p
}

/// A list with one more string holds what the list held and that string.
pub proof fn lemma_lists_push(v: Seq<String>, x: String, p: Seq<char>)
    ensures
        lists(v.push(x), p) <==> (lists(v, p) || x@ == p),
{
    if lists(v.push(x), p) {
        let j = choose|j: int| 0 <= j < v.push(x).len() && (#[trigger] v.push(x)[j])@ == p;
        if j < v.len() {
            assert(v[j] == v.push(x)[j]);
        }
    }
    if lists(v, p) {
        let j = choose|j: int| 0 <= j < v.len() && (#[trigger] v[j])@ == p;
        assert(v.push(x)[j] == v[j]);
    }
    if x@ == p {
        assert(v.push(x)[v.len() as int] == x);
    }
}

/// Whether the durations of a configuration's JWT validation settings are valid.
pub open spec fn config_wf(c: ExtractorConfig) -> bool
    decreases c,
{
    match c {
        ExtractorConfig::Jwt { validate, .. } => validate.leeway.wf()
            && (validate.reject_expiring_in matches Some(d) ==> d.wf()),
        ExtractorConfig::Stacked { extractors } => forall|i: int|
            0 <= i < extractors@.len() ==> config_wf(#[trigger] extractors@[i]),
        _ => true,
    }
}

/// Whether an extractor is the one a configuration describes, given loaded key
/// files.
pub open spec fn made_from(e: ConfiguredExtractor, c: ExtractorConfig, files: Seq<(String, Result<Vec<u8>, IoError>)>) -> bool
    decreases c,
{
    match c {
        ExtractorConfig::NoOp => e is NoOp,
        ExtractorConfig::Basic { realm } => e matches ConfiguredExtractor::Basic(x)
            && x.www_auth@ == www_authenticate_value(BASIC_SCHEME@, opt_str_or(realm, DEFAULT_REALM@)),
        ExtractorConfig::Header { user_header, token_header } => e matches ConfiguredExtractor::Header(x)
            && x.user_header@ == opt_str_or(user_header, DEFAULT_USER_HEADER@)
            && x.token_header@ == opt_str_or(token_header, DEFAULT_TOKEN_HEADER@),
        ExtractorConfig::Jwt { realm, algo, key, validate } => e matches ConfiguredExtractor::Jwt(x)
            && key_bytes(key, files) matches Ok(b)
            && jwt_key_spec(key, b) == Ok::<jsonwebtoken::DecodingKey, jsonwebtoken::errors::Error>(x.key)
            && validation_matches(x.validation, validate, algo)
            && x.www_auth@ == www_authenticate_value(BEARER_SCHEME@, opt_str_or(realm, "auth"@)),
        ExtractorConfig::Stacked { extractors } => e matches ConfiguredExtractor::Stacked(v)
            && v@.len() == extractors@.len()
            && forall|i: int| 0 <= i < v@.len() ==> made_from(#[trigger] v@[i], extractors@[i], files),
    }
}

impl ExtractorConfig {
    /// The key files this configuration names, whose contents
    /// [`ExtractorConfig::make_extractor`] needs.
    pub fn key_files(&self) -> (r: Vec<String>)
        ensures
            forall|p: Seq<char>| #[trigger] names_key_file(*self, p) <==> lists(r@, p),
        decreases self,
    {
        match self {
            ExtractorConfig::Jwt { key, .. } => {
                let mut v: Vec<String> = Vec::new();
                match key.key_file() {
                    Some(p) => {
                        v.push(owned(p));
                        assert(forall|q: Seq<char>| lists(v@, q) <==> q == p@) by {
                            assert forall|q: Seq<char>| q == p@ implies lists(v@, q) by {
                                assert(v@[0]@ == q);
                            }
                        }
                    },
                    None => {},
                }
                v
            },
            ExtractorConfig::Stacked { extractors } => {
                let mut v: Vec<String> = Vec::new();
                let mut i: usize = 0;
                while i < extractors.len()
                    invariant
                        *self == (ExtractorConfig::Stacked { extractors: *extractors }),
                        i <= extractors@.len(),
                        forall|p: Seq<char>| #[trigger] lists(v@, p) <==> exists|k: int|
                            0 <= k < i && names_key_file(#[trigger] extractors@[k], p),
                    decreases extractors@.len() - i,
                {
                    proof {
                        let whole = *self;
                        assert(decreases_to!(whole => whole->Stacked_extractors));
                        assert(decreases_to!(whole->Stacked_extractors => whole->Stacked_extractors@));
                        assert(decreases_to!(whole->Stacked_extractors@ => whole->Stacked_extractors@[i as int]));
                    }
                    let w = extractors[i].key_files();
                    let ghost before = v@;
                    let mut m: usize = 0;
                    assert(w@.take(0) =~= Seq::<String>::empty());
                    while m < w.len()
                        invariant
                            m <= w@.len(),
                            forall|p: Seq<char>| #[trigger] lists(v@, p) <==> (lists(before, p) || lists(w@.take(m as int), p)),
                        decreases w@.len() - m,
                    {
                        let ghost prev = v@;
                        let x = owned(w[m].as_str());
                        v.push(x);
                        assert(w@.take(m + 1) =~= w@.take(m as int).push(w@[m as int]));
                        assert forall|p: Seq<char>| #[trigger] lists(v@, p) <==> (lists(before, p) || lists(w@.take(m + 1), p)) by {
                            lemma_lists_push(prev, x, p);
                            lemma_lists_push(w@.take(m as int), w@[m as int], p);
                        }
                        m = m + 1;
                    }
                    assert(w@.take(m as int) =~= w@);
                    assert forall|p: Seq<char>| #[trigger] lists(v@, p) <==> exists|k: int|
                        0 <= k < i + 1 && names_key_file(#[trigger] extractors@[k], p) by {
                        assert(names_key_file(extractors@[i as int], p) <==> lists(w@, p));
                    }
                    i = i + 1;
                }
                v
            },
            _ => Vec::new(),
        }
    }

    /// Whether the durations of the JWT validation settings in this configuration
    /// are valid (nanoseconds below a second).
    pub fn durations_valid(&self) -> (r: bool)
        ensures
            r == config_wf(*self),
        decreases self,
    {
        match self {
            ExtractorConfig::Jwt { validate, .. } => {
                validate.leeway.nanos < NANOS_PER_SEC && match validate.reject_expiring_in {
                    Some(d) => d.nanos < NANOS_PER_SEC,
                    None => true,
                }
            },
            ExtractorConfig::Stacked { extractors } => {
                let mut i: usize = 0;
                while i < extractors.len()
                    invariant
                        *self == (ExtractorConfig::Stacked { extractors: *extractors }),
                        i <= extractors@.len(),
                        forall|k: int| 0 <= k < i ==> config_wf(#[trigger] extractors@[k]),
                    decreases extractors@.len() - i,
                {
                    proof {
                        let whole = *self;
                        assert(decreases_to!(whole => whole->Stacked_extractors));
                        assert(decreases_to!(whole->Stacked_extractors => whole->Stacked_extractors@));
                        assert(decreases_to!(whole->Stacked_extractors@ => whole->Stacked_extractors@[i as int]));
                    }
                    if !extractors[i].durations_valid() {
                        return false;
                    }
                    i = i + 1;
                }
                true
            },
            _ => true,
        }
    }

    /// Construct an extractor based on configuration, given the outcome of reading
    /// each key file it names (path, then contents or the I/O error; see
    /// [`ExtractorConfig::key_files`]).
    ///
    /// # Errors
    ///
    /// Returns `Err` if some key data failed to load or decode: for the first key,
    /// in order, whose file could not be read or that the JWT library refuses.
    pub fn make_extractor(&self, key_files: &Vec<(String, Result<Vec<u8>, IoError>)>) -> (r: Result<ConfiguredExtractor, AuthSetupError>)
        requires
            config_wf(*self),
            forall|p: Seq<char>| #[trigger] names_key_file(*self, p) ==> has_key(key_files@, p),
        ensures
            match load_error(*self, key_files@) {
                None => r matches Ok(e) && made_from(e, *self, key_files@),
                Some(err) => r matches Err(x) && x@ == err,
            },
        decreases self,
    {
        match self {
            ExtractorConfig::NoOp => Ok(ConfiguredExtractor::NoOp(NoOpAuthExtractor)),
            ExtractorConfig::Basic { realm } => {
                let r = match realm {
                    Some(s) => Some(s.as_str()),
                    None => None,
                };
                Ok(ConfiguredExtractor::Basic(BasicAuthExtractor::new(r)))
            },
            ExtractorConfig::Header { user_header, token_header } => {
                let u = match user_header {
                    Some(s) => Some(s.as_str()),
                    None => None,
                };
                let t = match token_header {
                    Some(s) => Some(s.as_str()),
                    None => None,
                };
                Ok(ConfiguredExtractor::Header(HeaderAuthExtractor::new(u, t)))
            },
            ExtractorConfig::Jwt { realm, algo, key, validate } => {
                let none: Vec<u8> = Vec::new();
                let bytes: &[u8] = match key.key_file() {
                    None => none.as_slice(),
                    Some(p) => {
                        assert(names_key_file(*self, p@));
                        let i = find_key(key_files, p).unwrap();
                        match &key_files[i].1 {
                            Ok(b) => b.as_slice(),
                            Err(e) => return Err(AuthSetupError::KeyIo(owned(p), e.duplicate())),
                        }
                    },
                };
                let k = match key.to_key(bytes) {
                    Ok(k) => k,
                    Err(e) => return Err(e),
                };
                let validation = validate.to_validation(*algo);
                let r = match realm {
                    Some(s) => Some(s.as_str()),
                    None => None,
                };
                Ok(ConfiguredExtractor::Jwt(JwtAuthExtractor::new(r, k, validation)))
            },
            ExtractorConfig::Stacked { extractors } => {
                let mut v: Vec<ConfiguredExtractor> = Vec::new();
                let mut i: usize = 0;
                while i < extractors.len()
                    invariant
                        *self == (ExtractorConfig::Stacked { extractors: *extractors }),
                        config_wf(*self),
                        forall|p: Seq<char>| #[trigger] names_key_file(*self, p) ==> has_key(key_files@, p),
                        i <= extractors@.len(),
                        v@.len() == i,
                        forall|j: int| 0 <= j < i ==> load_error(#[trigger] extractors@[j], key_files@) is None,
                        forall|j: int| 0 <= j < i ==> made_from(#[trigger] v@[j], extractors@[j], key_files@),
                    decreases extractors@.len() - i,
                {
                    proof {
                        let whole = *self;
                        assert(decreases_to!(whole => whole->Stacked_extractors));
                        assert(decreases_to!(whole->Stacked_extractors => whole->Stacked_extractors@));
                        assert(decreases_to!(whole->Stacked_extractors@ => whole->Stacked_extractors@[i as int]));
                        assert(config_wf(extractors@[i as int]));
                        assert forall|p: Seq<char>| #[trigger] names_key_file(extractors@[i as int], p)
                            implies has_key(key_files@, p) by {
                            assert(names_key_file(*self, p));
                        }
                    }
                    match extractors[i].make_extractor(key_files) {
                        Ok(e) => v.push(e),
                        Err(err) => {
                            proof {
                                let ex = extractors@;
                                assert(load_error(ex[i as int], key_files@) is Some);
                                let c = choose|c: int|
                                    0 <= c < ex.len() && load_error(#[trigger] ex[c], key_files@) is Some
                                        && forall|j: int| 0 <= j < c ==> load_error(#[trigger] ex[j], key_files@) is None;
                                if c < i {
                                    assert(load_error(ex[c], key_files@) is None);
                                } else if c > i {
                                    assert(load_error(ex[i as int], key_files@) is None);
                                }
                                assert(c == i);
                            }
                            return Err(err);
                        },
                    }
                    i = i + 1;
                }
                proof {
                    let ex = extractors@;
                    assert(!exists|c: int|
                        0 <= c < ex.len() && load_error(#[trigger] ex[c], key_files@) is Some
                            && forall|j: int| 0 <= j < c ==> load_error(#[trigger] ex[j], key_files@) is None);
                }
                Ok(ConfiguredExtractor::Stacked(v))
            },
        }
    }
}

/// Authentication provider configuration.
#[derive(Debug)]
pub struct AuthConfig {
    /// User dictionary: user name and configuration.
    pub users: Vec<(String, UserConfig)>,
    /// Role dictionary: role name and configuration.
    pub roles: Vec<(String, RoleConfig)>,
    /// Configuration for auth data provider to use.
    pub provider: ProviderConfig,
    /// Configuration for credentials extractor in use.
    pub extractor: ExtractorConfig,
}

impl AuthConfig {
    /// No user or role name occurs twice.
    pub open spec fn wf(&self) -> bool {
        keys_distinct(self.users@) && keys_distinct(self.roles@)
    }

    /// The configuration of a user, if the name is given and known.
    pub open spec fn user_spec(&self, name: Option<Seq<char>>) -> Option<UserConfig> {
        match name {
            None => None,
            Some(n) => match first_key(self.users@, n) {
                Some(i) => Some(self.users@[i].1),
                None => None,
            },
        }
    }

    /// Whether a named role exists and grants a permission.
    pub open spec fn role_name_grants(&self, role: Seq<char>, permission: Seq<char>) -> bool {
        match first_key(self.roles@, role) {
            Some(j) => role_grants(self.roles@[j].1, permission),
            None => false,
        }
    }

    /// Whether one of a user's roles grants a permission.
    pub open spec fn user_granted(&self, user: UserConfig, permission: Seq<char>) -> bool {
        exists|k: int| 0 <= k < user.roles@.len() && self.role_name_grants((#[trigger] user.roles@[k])@, permission)
    }

    /// An empty configuration with the default provider and extractor.
    pub fn new() -> (r: AuthConfig)
        ensures
            r.users@ == Seq::<(String, UserConfig)>::empty(),
            r.roles@ == Seq::<(String, RoleConfig)>::empty(),
            r.provider == ProviderConfig::NoOp,
            r.extractor is NoOp,
            r.wf(),
    {
        AuthConfig {
            users: Vec::new(),
            roles: Vec::new(),
            provider: ProviderConfig::NoOp,
            extractor: ExtractorConfig::NoOp,
        }
    }

    /// Sets the configuration of a user, replacing an earlier one of that name.
    pub fn set_user(&mut self, name: String, user: UserConfig)
        ensures
            old(self).wf() ==> final(self).wf(),
            final(self).user_spec(Some(name@)) == Some(user),
            forall|n: Seq<char>| n != name@ ==> final(self).user_spec(Some(n)) == old(self).user_spec(Some(n)),
            final(self).roles == old(self).roles,
            final(self).provider == old(self).provider,
    {
        let ghost before = self.users@;
        let ghost x = (name, user);
        table_insert(&mut self.users, name, user);
        proof {
            assert forall|n: Seq<char>| n != x.0@ implies self.user_spec(Some(n)) == old(self).user_spec(Some(n)) by {
                crate::table::lemma_other_key_kept(before, self.users@, x, n);
            }
        }
    }

    /// Sets the configuration of a role, replacing an earlier one of that name.
    pub fn set_role(&mut self, name: String, role: RoleConfig)
        ensures
            old(self).wf() ==> final(self).wf(),
            first_key(final(self).roles@, name@) matches Some(j) && final(self).roles@[j].1 == role,
            forall|n: Seq<char>| n != name@ ==> #[trigger] first_key(final(self).roles@, n) == first_key(old(self).roles@, n)
                && (first_key(old(self).roles@, n) matches Some(j) ==> final(self).roles@[j] == old(self).roles@[j]),
            final(self).users == old(self).users,
            final(self).provider == old(self).provider,
    {
        let ghost before = self.roles@;
        let ghost x = (name, role);
        table_insert(&mut self.roles, name, role);
        proof {
            assert forall|n: Seq<char>| n != x.0@ implies #[trigger] first_key(self.roles@, n) == first_key(before, n)
                && (first_key(before, n) matches Some(j) ==> self.roles@[j] == before[j]) by {
                crate::table::lemma_other_key_kept(before, self.roles@, x, n);
            }
        }
    }

    /// Find and return user by name.
    pub fn user(&self, name: Option<&str>) -> (r: Option<&UserConfig>)
        ensures
            match r {
                Some(u) => self.user_spec(opt_str_view(name)) == Some(*u),
                None => self.user_spec(opt_str_view(name)) is None,
            },
    {
        match name {
            None => None,
            Some(n) => match find_key(&self.users, n) {
                Some(i) => Some(&self.users[i].1),
                None => None,
            },
        }
    }

    /// Whether a named role exists and grants a permission.
    pub fn role_grants_permission(&self, role: &str, permission: &str) -> (r: bool)
        ensures
            r == self.role_name_grants(role@, permission@),
    {
        match find_key(&self.roles, role) {
            Some(j) => self.roles[j].1.grants(permission),
            None => false,
        }
    }

    /// Whether one of a user's roles grants a permission; roles are tried in order.
    pub fn user_has_permission(&self, user: &UserConfig, permission: &str) -> (r: bool)
        ensures
            r == self.user_granted(*user, permission@),
    {
        let mut k: usize = 0;
        while k < user.roles.len()
            invariant
                k <= user.roles@.len(),
                forall|j: int| 0 <= j < k ==> !self.role_name_grants((#[trigger] user.roles@[j])@, permission@),
            decreases user.roles@.len() - k,
        {
            if self.role_grants_permission(user.roles[k].as_str(), permission) {
                return true;
            }
            k = k + 1;
        }
        false
    }
}

} // verus!
