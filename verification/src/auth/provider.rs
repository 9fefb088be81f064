//! Authentication providers (back-ends): check users, credentials and permissions.

use vstd::prelude::*;

use crate::auth::config::{AuthConfig, ProviderConfig, UserPassword, password_matches};
use crate::auth::errors::{AuthError, AuthErrorKind};
use crate::auth::token::{AuthToken, TokenView};
use crate::auth::user::UserId;
use crate::table::{first_key, strings_view};
use crate::text::owned;

verus! {

/// The abstract content of a check result.
pub open spec fn check_view(r: Result<(), AuthError>) -> Result<(), AuthErrorKind> {
    match r {
        Ok(()) => Ok(()),
        Err(e) => Err(e@),
    }
}

/// The abstract content of an optional user.
pub open spec fn user_view(u: Option<&UserId>) -> Option<Seq<char>> {
    match u {
        Some(u) => Some(u@),
        None => None,
    }
}

/// Authentication provider (back-end) trait.
pub trait AuthProvider {
    /// What [`AuthProvider::authenticate`] answers for a user and token.
    spec fn authenticate_spec(&self, user: Option<Seq<char>>, token: TokenView) -> Result<(), AuthErrorKind>;

    /// What [`AuthProvider::authorize`] answers for a user and permission.
    spec fn authorize_spec(&self, user: Option<Seq<char>>, permission: Seq<char>) -> Result<(), AuthErrorKind>;

    /// Authenticate the request.
    ///
    /// This checks if user exists, and verifies that any passed auth tokens are valid.
    fn authenticate(&self, user: Option<&UserId>, tokens: &AuthToken) -> (r: Result<(), AuthError>)
        ensures
            check_view(r) == self.authenticate_spec(user_view(user), tokens@),
    ;

    /// Authorize the request.
    ///
    /// Checks if the user has specific permission.
    fn authorize(&self, user: Option<&UserId>, permission: &str) -> (r: Result<(), AuthError>)
        ensures
            check_view(r) == self.authorize_spec(user_view(user), permission@),
    ;
}

/// Authentication provider (back-end) which does nothing.
#[derive(Clone, Copy, Debug)]
pub struct NoOpAuthProvider;

impl AuthProvider for NoOpAuthProvider {
    open spec fn authenticate_spec(&self, user: Option<Seq<char>>, token: TokenView) -> Result<(), AuthErrorKind> {
        Ok(())
    }

    open spec fn authorize_spec(&self, user: Option<Seq<char>>, permission: Seq<char>) -> Result<(), AuthErrorKind> {
        Ok(())
    }

    fn authenticate(&self, user: Option<&UserId>, tokens: &AuthToken) -> (r: Result<(), AuthError>) {
        Ok(())
    }

    fn authorize(&self, user: Option<&UserId>, permission: &str) -> (r: Result<(), AuthError>) {
        Ok(())
    }
}

/// Whether a presented token proves a user's identity: an externally verified
/// token always does, a password does when it matches the configured one, and
/// nothing else does.
pub open spec fn token_accepted(password: Option<UserPassword>, token: TokenView) -> bool {
    match token {
        TokenView::ExternallyVerified => true,
        TokenView::Absent => false,
        TokenView::PlainPassword(p) => match password {
            Some(stored) => password_matches(stored@, p),
            None => false,
        },
    }
}

/// Authentication provider (back-end) that uses users and roles stored in app configuration.
#[derive(Debug)]
pub struct ConfigAuthProvider {
    /// Authentication database: all user and role definitions.
    pub config: AuthConfig,
}

impl ConfigAuthProvider {
    /// A provider over a configuration.
    pub fn new(config: AuthConfig) -> (r: ConfigAuthProvider)
        ensures
            r.config == config,
    {
        ConfigAuthProvider { config }
    }
}

impl AuthProvider for ConfigAuthProvider {
    open spec fn authenticate_spec(&self, user: Option<Seq<char>>, token: TokenView) -> Result<(), AuthErrorKind> {
        match self.config.user_spec(user) {
            None => Err(AuthErrorKind::UserNotFound),
            Some(u) => if token_accepted(u.password, token) {
                Ok(())
            } else {
                Err(AuthErrorKind::AuthFailed)
            },
        }
    }

    open spec fn authorize_spec(&self, user: Option<Seq<char>>, permission: Seq<char>) -> Result<(), AuthErrorKind> {
        match self.config.user_spec(user) {
            None => Err(AuthErrorKind::UserNotFound),
            Some(u) => if self.config.user_granted(u, permission) {
                Ok(())
            } else {
                Err(AuthErrorKind::NoPermission(permission))
            },
        }
    }

    fn authenticate(&self, user: Option<&UserId>, tokens: &AuthToken) -> (r: Result<(), AuthError>) {
        let name = match user {
            Some(u) => Some(u.as_str()),
            None => None,
        };
        match self.config.user(name) {
            None => Err(AuthError::UserNotFound),
            Some(user_cfg) => {
                let accepted = match tokens {
                    AuthToken::ExternallyVerified => true,
                    AuthToken::Absent => false,
                    AuthToken::PlainPassword(p) => match &user_cfg.password {
                        Some(stored) => stored.matches_password(p.as_str()),
                        None => false,
                    },
                };
                if accepted {
                    Ok(())
                } else {
                    Err(AuthError::AuthFailed)
                }
            },
        }
    }

    fn authorize(&self, user: Option<&UserId>, permission: &str) -> (r: Result<(), AuthError>) {
        let name = match user {
            Some(u) => Some(u.as_str()),
            None => None,
        };
        match self.config.user(name) {
            None => Err(AuthError::UserNotFound),
            Some(user_cfg) => {
                if self.config.user_has_permission(user_cfg, permission) {
                    Ok(())
                } else {
                    Err(AuthError::NoPermission(owned(permission)))
                }
            },
        }
    }
}

/// A provider made from configuration.
#[derive(Debug)]
pub enum ConfiguredProvider {
    /// See [`NoOpAuthProvider`].
    NoOp(NoOpAuthProvider),
    /// See [`ConfigAuthProvider`].
    Config(ConfigAuthProvider),
}

impl AuthProvider for ConfiguredProvider {
    open spec fn authenticate_spec(&self, user: Option<Seq<char>>, token: TokenView) -> Result<(), AuthErrorKind> {
        match self {
            ConfiguredProvider::NoOp(p) => p.authenticate_spec(user, token),
            ConfiguredProvider::Config(p) => p.authenticate_spec(user, token),
        }
    }

    open spec fn authorize_spec(&self, user: Option<Seq<char>>, permission: Seq<char>) -> Result<(), AuthErrorKind> {
        match self {
            ConfiguredProvider::NoOp(p) => p.authorize_spec(user, permission),
            ConfiguredProvider::Config(p) => p.authorize_spec(user, permission),
        }
    }

    fn authenticate(&self, user: Option<&UserId>, tokens: &AuthToken) -> (r: Result<(), AuthError>) {
        match self {
            ConfiguredProvider::NoOp(p) => p.authenticate(user, tokens),
            ConfiguredProvider::Config(p) => p.authenticate(user, tokens),
        }
    }

    fn authorize(&self, user: Option<&UserId>, permission: &str) -> (r: Result<(), AuthError>) {
        match self {
            ConfiguredProvider::NoOp(p) => p.authorize(user, permission),
            ConfiguredProvider::Config(p) => p.authorize(user, permission),
        }
    }
}

impl AuthConfig {
    /// Construct a provider based on configuration; the configuration provider
    /// takes over the user and role definitions.
    pub fn make_provider(self) -> (r: ConfiguredProvider)
        ensures
            match self.provider {
                ProviderConfig::NoOp => r is NoOp,
                ProviderConfig::Config => r matches ConfiguredProvider::Config(p) && p.config == self,
            },
    {
        match self.provider {
            ProviderConfig::NoOp => ConfiguredProvider::NoOp(NoOpAuthProvider),
            ProviderConfig::Config => ConfiguredProvider::Config(ConfigAuthProvider::new(self)),
        }
    }
}

/// A user that the configuration does not know is never authenticated, whatever
/// token it presents, and never authorized.
pub proof fn law_unknown_user_rejected(
    p: ConfigAuthProvider,
    user: Option<Seq<char>>,
    token: TokenView,
    permission: Seq<char>,
)
    requires
        p.config.user_spec(user) is None,
    ensures
        p.authenticate_spec(user, token) == Err::<(), AuthErrorKind>(AuthErrorKind::UserNotFound),
        p.authorize_spec(user, permission) == Err::<(), AuthErrorKind>(AuthErrorKind::UserNotFound),
{
}

/// A user holding a super-user role is granted every permission.
pub proof fn law_super_user_granted_everything(
    p: ConfigAuthProvider,
    user: Seq<char>,
    k: int,
    permission: Seq<char>,
)
    requires
        p.config.user_spec(Some(user)) matches Some(u) && 0 <= k < u.roles@.len() && (
        first_key(p.config.roles@, u.roles@[k]@) matches Some(j) && p.config.roles@[j].1.super_user),
    ensures
        p.authorize_spec(Some(user), permission) == Ok::<(), AuthErrorKind>(()),
{
    let u = p.config.user_spec(Some(user))->Some_0;
    assert(p.config.role_name_grants(u.roles@[k]@, permission));
}

/// An externally verified token authenticates every user the configuration knows.
pub proof fn law_external_token_authenticates_known_users(p: ConfigAuthProvider, user: Seq<char>)
    requires
        p.config.user_spec(Some(user)) is Some,
    ensures
        p.authenticate_spec(Some(user), TokenView::ExternallyVerified) == Ok::<(), AuthErrorKind>(()),
{
}

/// A user with a cleartext password is authenticated by a password token exactly
/// when the token is that password.
pub proof fn law_plaintext_password_exact(p: ConfigAuthProvider, user: Seq<char>, stored: Seq<char>, given: Seq<char>)
    requires
        p.config.user_spec(Some(user)) matches Some(u) && u.password matches Some(pw) && pw@ == crate::auth::config::PasswordView::Plaintext(stored),
    ensures
        p.authenticate_spec(Some(user), TokenView::PlainPassword(given)) is Ok <==> given == stored,
{
}

/// A request without any token never authenticates against the configuration.
pub proof fn law_absent_token_rejected(p: ConfigAuthProvider, user: Option<Seq<char>>)
    ensures
        p.authenticate_spec(user, TokenView::Absent) is Err,
{
}

/// Whatever the configuration, a permission is granted only to a known user.
pub proof fn law_authorized_users_are_known(p: ConfigAuthProvider, user: Option<Seq<char>>, permission: Seq<char>)
    requires
        p.authorize_spec(user, permission) is Ok,
    ensures
        p.config.user_spec(user) is Some,
{
}

/// Every user known to the first configuration is known to the second, with at
/// least the same roles.
pub open spec fn user_roles_kept(c1: AuthConfig, c2: AuthConfig) -> bool {
    forall|n: Seq<char>| #[trigger] c1.user_spec(Some(n)) is Some ==> {
        &&& c2.user_spec(Some(n)) is Some
        &&& forall|r: Seq<char>| strings_view(c1.user_spec(Some(n))->Some_0.roles@).contains(r)
            ==> #[trigger] strings_view(c2.user_spec(Some(n))->Some_0.roles@).contains(r)
    }
}

/// Every permission a named role grants in the first configuration it also grants
/// in the second (roles added, permissions added, super-user turned on).
pub open spec fn role_grants_kept(c1: AuthConfig, c2: AuthConfig) -> bool {
    forall|r: Seq<char>, p: Seq<char>| #[trigger] c1.role_name_grants(r, p) ==> c2.role_name_grants(r, p)
}

/// Adding users' roles, roles, role permissions or super-user rights never revokes
/// an authorization: what the first configuration authorizes, the second does too.
pub proof fn law_adding_grants_never_revokes(
    p1: ConfigAuthProvider,
    p2: ConfigAuthProvider,
    user: Option<Seq<char>>,
    permission: Seq<char>,
)
    requires
        user_roles_kept(p1.config, p2.config),
        role_grants_kept(p1.config, p2.config),
        p1.authorize_spec(user, permission) is Ok,
    ensures
        p2.authorize_spec(user, permission) is Ok,
{
    let n = user->Some_0;
    let u1 = p1.config.user_spec(user)->Some_0;
    assert(p1.config.user_spec(Some(n)) is Some);
    let u2 = p2.config.user_spec(user)->Some_0;
    let k = choose|k: int| 0 <= k < u1.roles@.len() && p1.config.role_name_grants((#[trigger] u1.roles@[k])@, permission);
    let r = u1.roles@[k]@;
    assert(strings_view(u1.roles@)[k] == r);
    assert(strings_view(u1.roles@).contains(r));
    assert(strings_view(u2.roles@).contains(r));
    let k2 = choose|k2: int| 0 <= k2 < strings_view(u2.roles@).len() && strings_view(u2.roles@)[k2] == r;
    assert(u2.roles@[k2]@ == r);
    assert(p2.config.role_name_grants(u2.roles@[k2]@, permission));
}

} // verus!
