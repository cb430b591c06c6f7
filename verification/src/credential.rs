//! The credential that a completed login yields.

use vstd::prelude::*;

use crate::auth::{SamlAuthData, SamlAuthDataView, SamlAuthResult, SamlAuthResultView};

verus! {

/// What a gateway or portal accepts in place of a password: the user's name
/// and at least one of the three secrets a SAML login can produce.
#[derive(Debug, PartialEq, Eq)]
pub struct Credential {
    pub username: String,
    pub prelogin_cookie: Option<String>,
    pub portal_userauthcookie: Option<String>,
    pub token: Option<String>,
}

/// [`Credential`] as plain text.
pub struct CredentialView {
    pub username: Seq<char>,
    pub prelogin_cookie: Option<Seq<char>>,
    pub portal_userauthcookie: Option<Seq<char>>,
    pub token: Option<Seq<char>>,
}

impl View for Credential {
    type V = CredentialView;

    open spec fn view(&self) -> CredentialView {
        CredentialView {
            username: self.username@,
            prelogin_cookie: self.prelogin_cookie.deep_view(),
            portal_userauthcookie: self.portal_userauthcookie.deep_view(),
            token: self.token.deep_view(),
        }
    }
}

/// Whether a login carries anything to authenticate with.
pub open spec fn is_usable(data: SamlAuthDataView) -> bool {
    data.prelogin_cookie is Some || data.portal_userauthcookie is Some || data.token is Some
}

/// The credential that holds exactly the fields of `data`.
pub open spec fn credential_of(data: SamlAuthDataView) -> CredentialView {
    CredentialView {
        username: data.username,
        prelogin_cookie: data.prelogin_cookie,
        portal_userauthcookie: data.portal_userauthcookie,
        token: data.token,
    }
}

/// The credential that a payload stands for, if it stands for one: a
/// reported failure stands for none, and neither does a login without any
/// secret.
pub open spec fn credential_in(result: SamlAuthResultView) -> Option<CredentialView> {
    match result {
        SamlAuthResultView::Success(data) => if is_usable(data) {
            Some(credential_of(data))
        } else {
            None
        },
        SamlAuthResultView::Failure(_) => None,
    }
}

impl Credential {
    /// Turns a completed login into a credential, field for field. A login
    /// without a cookie or a token yields none.
    pub fn from_auth_data(data: SamlAuthData) -> (credential: Option<Credential>)
        ensures
            is_usable(data@) ==> credential is Some && credential.unwrap()@ == credential_of(
                data@,
            ),
            !is_usable(data@) ==> credential is None,
    {
        if data.prelogin_cookie.is_some() || data.portal_userauthcookie.is_some()
            || data.token.is_some() {
            Some(
                Credential {
                    username: data.username,
                    prelogin_cookie: data.prelogin_cookie,
                    portal_userauthcookie: data.portal_userauthcookie,
                    token: data.token,
                },
            )
        } else {
            None
        }
    }

    /// Turns the authenticator's payload into a credential, where it holds
    /// one.
    pub fn from_auth_result(result: SamlAuthResult) -> (credential: Option<Credential>)
        ensures
            match credential_in(result@) {
                Some(expected) => credential is Some && credential.unwrap()@ == expected,
                None => credential is None,
            },
    {
        match result {
            SamlAuthResult::Success(data) => Credential::from_auth_data(data),
            SamlAuthResult::Failure(_) => None,
        }
    }
}

} // verus!
