//! What the interactive authenticator reports when it is done.

use vstd::prelude::*;

verus! {

/// The fields of a successful SAML login.
#[derive(Debug, PartialEq, Eq)]
pub struct SamlAuthData {
    pub username: String,
    pub prelogin_cookie: Option<String>,
    pub portal_userauthcookie: Option<String>,
    pub token: Option<String>,
}

/// [`SamlAuthData`] as plain text.
pub struct SamlAuthDataView {
    pub username: Seq<char>,
    pub prelogin_cookie: Option<Seq<char>>,
    pub portal_userauthcookie: Option<Seq<char>>,
    pub token: Option<Seq<char>>,
}

impl View for SamlAuthData {
    type V = SamlAuthDataView;

    open spec fn view(&self) -> SamlAuthDataView {
        SamlAuthDataView {
            username: self.username@,
            prelogin_cookie: self.prelogin_cookie.deep_view(),
            portal_userauthcookie: self.portal_userauthcookie.deep_view(),
            token: self.token.deep_view(),
        }
    }
}

/// The payload that the authenticator writes: the login it completed, or
/// the reason it could not.
#[derive(Debug, PartialEq, Eq)]
pub enum SamlAuthResult {
    Success(SamlAuthData),
    Failure(String),
}

/// [`SamlAuthResult`] as plain text.
pub enum SamlAuthResultView {
    Success(SamlAuthDataView),
    Failure(Seq<char>),
}

impl View for SamlAuthResult {
    type V = SamlAuthResultView;

    open spec fn view(&self) -> SamlAuthResultView {
        match self {
            SamlAuthResult::Success(data) => SamlAuthResultView::Success(data@),
            SamlAuthResult::Failure(reason) => SamlAuthResultView::Failure(reason@),
        }
    }
}

} // verus!
