//! Authentication tokens presented with a request.

use vstd::prelude::*;

verus! {

/// Authentication tokens to verify.
#[derive(Clone)]
pub enum AuthToken {
    /// No verifiable tokens were provided.
    Absent,
    /// Token is verified externally, always accept.
    ExternallyVerified,
    /// Plaintext password to compare with auth data provider.
    PlainPassword(String),
}

/// The abstract content of an [`AuthToken`].
pub enum TokenView {
    /// No token.
    Absent,
    /// Verified elsewhere.
    ExternallyVerified,
    /// A plaintext password.
    PlainPassword(Seq<char>),
}

impl View for AuthToken {
    type V = TokenView;

    open spec fn view(&self) -> TokenView {
        match self {
            AuthToken::Absent => TokenView::Absent,
            AuthToken::ExternallyVerified => TokenView::ExternallyVerified,
            AuthToken::PlainPassword(p) => TokenView::PlainPassword(p@),
        }
    }
}

impl AuthToken {
    /// The token carried when nothing was presented.
    pub fn absent() -> (r: AuthToken)
        ensures
            r@ == TokenView::Absent,
    {
        AuthToken::Absent
    }

    /// A plaintext password token.
    pub fn from_password(password: String) -> (r: AuthToken)
        ensures
            r@ == TokenView::PlainPassword(password@),
    {
        AuthToken::PlainPassword(password)
    }
}

} // verus!
