//! The authentication and authorization check run before a handler.

use vstd::prelude::*;

use crate::auth::errors::{AuthError, AuthErrorKind};
use crate::auth::config::{ConfiguredExtractor, lemma_failed_authentication_answers_agree};
use crate::auth::extractor::{AuthExtractor, ErrorResponse, ExtractionView, extraction_view};
use crate::auth::provider::{AuthProvider, user_view};
use crate::auth::token::TokenView;
use crate::auth::user::UserId;
use crate::headers::RequestHeaders;
use crate::table::strings_view;

verus! {

/// Outcome of the check for one request.
#[derive(Debug)]
pub enum AuthDecision {
    /// Call the handler; the authenticated user, if any, goes along with the request.
    Allow(Option<UserId>),
    /// Answer with this response instead of calling the handler.
    Deny(ErrorResponse),
}

/// Authorization of a user for each permission in turn: the first refusal, or success.
pub open spec fn permissions_check<P: AuthProvider>(
    provider: P,
    user: Option<Seq<char>>,
    permissions: Seq<Seq<char>>,
) -> Result<(), AuthErrorKind>
    decreases permissions.len(),
{
    if permissions.len() == 0 {
        Ok(())
    } else {
        match provider.authorize_spec(user, permissions[0]) {
            Err(e) => Err(e),
            Ok(_) => permissions_check(provider, user, permissions.drop_first()),
        }
    }
}

/// Authentication and authorization layer: required permissions, provider and extractor.
pub struct AuthLayer<P, E> {
    /// Required permissions for the service.
    pub permissions: Vec<String>,
    /// Used auth provider (back-end).
    pub auth_provider: P,
    /// Used auth extractor (front-end).
    pub auth_extractor: E,
}

impl<P: AuthProvider, E: AuthExtractor> AuthLayer<P, E> {
    /// Create a new auth layer.
    pub fn new(permissions: Vec<String>, auth_provider: P, auth_extractor: E) -> (r: AuthLayer<P, E>)
        ensures
            r.permissions == permissions,
            r.auth_provider == auth_provider,
            r.auth_extractor == auth_extractor,
    {
        AuthLayer { permissions, auth_provider, auth_extractor }
    }

    /// The outcome of the check for an extraction result: the authenticated user,
    /// or the error of the first step that refused (extraction, authentication,
    /// then each permission in order).
    pub open spec fn decision_from(&self, extracted: ExtractionView) -> Result<Option<Seq<char>>, AuthErrorKind> {
        match extracted {
            Err(k) => Err(k),
            Ok((user, token)) => match self.auth_provider.authenticate_spec(user, token) {
                Err(k) => Err(k),
                Ok(_) => match permissions_check(self.auth_provider, user, strings_view(self.permissions@)) {
                    Err(k) => Err(k),
                    Ok(_) => Ok(user),
                },
            },
        }
    }

    /// Whether a decision carries out an outcome: the handler is called with the
    /// user, or the extractor's answer to the error is sent.
    pub open spec fn carries_out(&self, outcome: Result<Option<Seq<char>>, AuthErrorKind>, r: AuthDecision) -> bool {
        match outcome {
            Ok(user) => r matches AuthDecision::Allow(u) && user_view(
                match u {
                    Some(x) => Some(&x),
                    None => None,
                },
            ) == user,
            Err(k) => r matches AuthDecision::Deny(resp) && resp@ == self.auth_extractor.response_spec(k),
        }
    }

    /// Builds the extractor's answer to an error.
    fn deny(&self, err: AuthError) -> (r: AuthDecision)
        ensures
            r matches AuthDecision::Deny(resp) && resp@ == self.auth_extractor.response_spec(err@),
    {
        AuthDecision::Deny(self.auth_extractor.error_response(&err))
    }

    /// Checks a request: extracts user and token, authenticates them, then checks
    /// every required permission. The decision is the one for a result the
    /// extractor may yield for the headers.
    pub fn check(&self, headers: &RequestHeaders) -> (r: AuthDecision)
        ensures
            exists|extracted: ExtractionView|
                self.auth_extractor.extract_allows(headers@, extracted)
                    && self.carries_out(#[trigger] self.decision_from(extracted), r),
    {
        let extracted = self.auth_extractor.extract_auth(headers);
        let ghost ev = extraction_view(extracted);
        let (user, token) = match extracted {
            Ok(pair) => pair,
            Err(error) => {
                let r = self.deny(error);
                assert(self.carries_out(self.decision_from(ev), r));
                return r;
            },
        };
        let user_ref = match &user {
            Some(u) => Some(u),
            None => None,
        };
        let ghost uv = user_view(user_ref);
        let ghost tv = token@;
        assert(ev == Ok::<(Option<Seq<char>>, TokenView), AuthErrorKind>((uv, tv)));
        match self.auth_provider.authenticate(user_ref, &token) {
            Ok(()) => {},
            Err(error) => {
                let r = self.deny(error);
                assert(self.carries_out(self.decision_from(ev), r));
                return r;
            },
        }
        let ghost perms = strings_view(self.permissions@);
        let mut i: usize = 0;
        assert(perms.subrange(0, perms.len() as int) =~= perms);
        while i < self.permissions.len()
            invariant
                i <= self.permissions@.len(),
                perms == strings_view(self.permissions@),
                uv == user_view(user_ref),
                ev == Ok::<(Option<Seq<char>>, TokenView), AuthErrorKind>((uv, tv)),
                self.auth_extractor.extract_allows(headers@, ev),
                self.auth_provider.authenticate_spec(uv, tv) is Ok,
                permissions_check(self.auth_provider, uv, perms) == permissions_check(
                    self.auth_provider,
                    uv,
                    perms.subrange(i as int, perms.len() as int),
                ),
            decreases self.permissions@.len() - i,
        {
            let ghost rest = perms.subrange(i as int, perms.len() as int);
            assert(rest[0] == self.permissions@[i as int]@);
            assert(rest.drop_first() =~= perms.subrange(i + 1, perms.len() as int));
            match self.auth_provider.authorize(user_ref, self.permissions[i].as_str()) {
                Ok(()) => {},
                Err(error) => {
                    assert(permissions_check(self.auth_provider, uv, rest) == Err::<(), AuthErrorKind>(error@));
                    let r = self.deny(error);
                    assert(self.carries_out(self.decision_from(ev), r));
                    return r;
                },
            }
            i = i + 1;
        }
        assert(perms.subrange(i as int, perms.len() as int) =~= Seq::<Seq<char>>::empty());
        let r = AuthDecision::Allow(user);
        assert(self.carries_out(self.decision_from(ev), r));
        r
    }
}

/// Every permission in a list is granted exactly when checking them in turn succeeds.
pub proof fn lemma_permissions_check_all<P: AuthProvider>(
    provider: P,
    user: Option<Seq<char>>,
    permissions: Seq<Seq<char>>,
)
    ensures
        permissions_check(provider, user, permissions) is Ok <==> forall|i: int|
            0 <= i < permissions.len() ==> (#[trigger] provider.authorize_spec(user, permissions[i])) is Ok,
        permissions_check(provider, user, permissions) matches Err(k) ==> exists|i: int|
            0 <= i < permissions.len() && (#[trigger] provider.authorize_spec(user, permissions[i])) == Err::<(), AuthErrorKind>(k),
    decreases permissions.len(),
{
    if permissions.len() > 0 {
        let rest = permissions.drop_first();
        lemma_permissions_check_all(provider, user, rest);
        assert forall|i: int| 0 < i < permissions.len() implies permissions[i] == rest[i - 1] by {}
        if permissions_check(provider, user, permissions) is Ok {
            assert forall|i: int| 0 <= i < permissions.len() implies (#[trigger] provider.authorize_spec(user, permissions[i])) is Ok by {
                if i > 0 {
                    assert(provider.authorize_spec(user, rest[i - 1]) is Ok);
                }
            }
        }
        if forall|i: int| 0 <= i < permissions.len() ==> (#[trigger] provider.authorize_spec(user, permissions[i])) is Ok {
            assert(provider.authorize_spec(user, permissions[0]) is Ok);
            assert forall|i: int| 0 <= i < rest.len() implies (#[trigger] provider.authorize_spec(user, rest[i])) is Ok by {
                assert(provider.authorize_spec(user, permissions[i + 1]) is Ok);
            }
        }
        if let Err(k) = permissions_check(provider, user, permissions) {
            if provider.authorize_spec(user, permissions[0]) is Ok {
                let j = choose|j: int| 0 <= j < rest.len() && (#[trigger] provider.authorize_spec(user, rest[j])) == Err::<(), AuthErrorKind>(k);
                assert(provider.authorize_spec(user, permissions[j + 1]) == Err::<(), AuthErrorKind>(k));
            } else {
                assert(provider.authorize_spec(user, permissions[0]) == Err::<(), AuthErrorKind>(k));
            }
        }
    }
}

/// A request passes exactly when its credentials are extracted, the user is
/// authenticated, and every required permission is granted to that user; the
/// user handed to the handler is the one extracted.
pub proof fn law_request_passes_iff_all_checks_pass<P: AuthProvider, E: AuthExtractor>(
    layer: AuthLayer<P, E>,
    extracted: ExtractionView,
)
    ensures
        layer.decision_from(extracted) is Ok <==> (extracted matches Ok((user, token))
            && layer.auth_provider.authenticate_spec(user, token) is Ok
            && forall|i: int| 0 <= i < layer.permissions@.len()
                ==> (#[trigger] layer.auth_provider.authorize_spec(user, layer.permissions@[i]@)) is Ok),
        layer.decision_from(extracted) matches Ok(u) ==> extracted matches Ok((user, _)) && u == user,
{
    if let Ok((user, token)) = extracted {
        let perms = strings_view(layer.permissions@);
        lemma_permissions_check_all(layer.auth_provider, user, perms);
        let all_named = forall|i: int| 0 <= i < layer.permissions@.len()
                ==> (#[trigger] layer.auth_provider.authorize_spec(user, layer.permissions@[i]@)) is Ok;
        let all_viewed = forall|i: int| 0 <= i < perms.len()
                ==> (#[trigger] layer.auth_provider.authorize_spec(user, perms[i])) is Ok;
        assert(all_named <==> all_viewed) by {
            if all_named {
                assert forall|i: int| 0 <= i < perms.len() implies (#[trigger] layer.auth_provider.authorize_spec(user, perms[i])) is Ok by {
                    assert(perms[i] == layer.permissions@[i]@);
                    assert(layer.auth_provider.authorize_spec(user, layer.permissions@[i]@) is Ok);
                }
            }
            if all_viewed {
                assert forall|i: int| 0 <= i < layer.permissions@.len() implies (#[trigger] layer.auth_provider.authorize_spec(user, layer.permissions@[i]@)) is Ok by {
                    assert(perms[i] == layer.permissions@[i]@);
                    assert(layer.auth_provider.authorize_spec(user, perms[i]) is Ok);
                }
            }
        }
    }
}

/// A request refused for a permission is answered with the error of the first
/// required permission that is not granted.
pub proof fn law_refusal_names_a_required_permission<P: AuthProvider, E: AuthExtractor>(
    layer: AuthLayer<P, E>,
    extracted: ExtractionView,
)
    requires
        extracted matches Ok((user, token)) && layer.auth_provider.authenticate_spec(user, token) is Ok,
        layer.decision_from(extracted) is Err,
    ensures
        extracted matches Ok((user, _))
            && layer.decision_from(extracted) matches Err(k) && exists|i: int| 0 <= i < layer.permissions@.len()
                && (#[trigger] layer.auth_provider.authorize_spec(user, layer.permissions@[i]@)) == Err::<(), AuthErrorKind>(k),
{
    let user = extracted->Ok_0.0;
    let perms = strings_view(layer.permissions@);
    lemma_permissions_check_all(layer.auth_provider, user, perms);
    let k = layer.decision_from(extracted)->Err_0;
    let j = choose|j: int| 0 <= j < perms.len() && (#[trigger] layer.auth_provider.authorize_spec(user, perms[j])) == Err::<(), AuthErrorKind>(k);
    assert(perms[j] == layer.permissions@[j]@);
}

/// A request naming an unknown user is answered exactly as one presenting wrong
/// credentials for a known user, so that answers do not reveal which users exist.
pub proof fn law_unknown_user_answered_as_failed_authentication<P: AuthProvider>(
    layer: AuthLayer<P, ConfiguredExtractor>,
)
    ensures
        layer.auth_extractor.response_spec(AuthErrorKind::UserNotFound)
            == layer.auth_extractor.response_spec(AuthErrorKind::AuthFailed),
{
    lemma_failed_authentication_answers_agree(layer.auth_extractor);
}

} // verus!
