//! The ways in which a sign-in can fail, and the sentence shown for each.

use vstd::prelude::*;
use vstd::string::*;

verus! {

/// Why a sign-in did not yield a token. Each failure ends the flow: nothing
/// is retried.
#[derive(Debug, Clone, PartialEq, Eq)]
pub enum OAuthError {
    /// The provider name, as given, is not one that is known.
    UnsupportedProvider(String),
    /// The redirect URI could not be parsed; holds the parser's reason.
    InvalidUri(String),
    /// The redirect URI does not use `http`.
    UnsupportedScheme,
    /// The redirect URI names no host.
    MissingHost,
    /// The redirect URI names a host other than the local machine.
    DisallowedHost,
    /// The redirect URI has neither a port nor a scheme that implies one.
    MissingPort,
    /// The listener could not be bound; holds the address and the reason.
    ListenerBindFailed(String, String),
    /// The system browser could not be opened; holds the reason.
    BrowserLaunchFailed(String),
    /// No redirect arrived in time; holds the reason.
    CallbackTimedOut(String),
    /// The redirect request could not be read as a request line.
    MalformedCallback,
    /// The page for the browser tab could not be written; holds the reason.
    CallbackResponseFailed(String),
    /// The provider reported an error in the redirect; holds its code.
    ProviderDeniedOrErrored(String),
    /// The redirect carried no `state`.
    MissingState,
    /// The redirect carried a `state` other than the one that was sent.
    StateMismatch,
    /// The redirect carried no `code`.
    MissingAuthorizationCode,
    /// The token request could not be sent or answered; holds the reason.
    TokenRequestFailed(String),
    /// The token endpoint's answer was not the expected JSON; holds the reason.
    InvalidTokenResponse(String),
    /// The token endpoint refused the exchange; holds its error and description.
    TokenExchangeRejected(String, String),
    /// The answer of a provider that must send an `id_token` held none.
    MissingIdToken,
    /// The answer held neither an `access_token` nor an `id_token`.
    MissingAccessOrIdToken,
}

/// An [`OAuthError`] with its texts as character sequences.
pub enum OAuthErrorView {
    UnsupportedProvider(Seq<char>),
    InvalidUri(Seq<char>),
    UnsupportedScheme,
    MissingHost,
    DisallowedHost,
    MissingPort,
    ListenerBindFailed(Seq<char>, Seq<char>),
    BrowserLaunchFailed(Seq<char>),
    CallbackTimedOut(Seq<char>),
    MalformedCallback,
    CallbackResponseFailed(Seq<char>),
    ProviderDeniedOrErrored(Seq<char>),
    MissingState,
    StateMismatch,
    MissingAuthorizationCode,
    TokenRequestFailed(Seq<char>),
    InvalidTokenResponse(Seq<char>),
    TokenExchangeRejected(Seq<char>, Seq<char>),
    MissingIdToken,
    MissingAccessOrIdToken,
}

impl View for OAuthError {
    type V = OAuthErrorView;

    open spec fn view(&self) -> OAuthErrorView {
        match self {
            OAuthError::UnsupportedProvider(p) => OAuthErrorView::UnsupportedProvider(p@),
            OAuthError::InvalidUri(e) => OAuthErrorView::InvalidUri(e@),
            OAuthError::UnsupportedScheme => OAuthErrorView::UnsupportedScheme,
            OAuthError::MissingHost => OAuthErrorView::MissingHost,
            OAuthError::DisallowedHost => OAuthErrorView::DisallowedHost,
            OAuthError::MissingPort => OAuthErrorView::MissingPort,
            OAuthError::ListenerBindFailed(a, e) => OAuthErrorView::ListenerBindFailed(a@, e@),
            OAuthError::BrowserLaunchFailed(e) => OAuthErrorView::BrowserLaunchFailed(e@),
            OAuthError::CallbackTimedOut(e) => OAuthErrorView::CallbackTimedOut(e@),
            OAuthError::MalformedCallback => OAuthErrorView::MalformedCallback,
            OAuthError::CallbackResponseFailed(e) => OAuthErrorView::CallbackResponseFailed(e@),
            OAuthError::ProviderDeniedOrErrored(e) => OAuthErrorView::ProviderDeniedOrErrored(e@),
            OAuthError::MissingState => OAuthErrorView::MissingState,
            OAuthError::StateMismatch => OAuthErrorView::StateMismatch,
            OAuthError::MissingAuthorizationCode => OAuthErrorView::MissingAuthorizationCode,
            OAuthError::TokenRequestFailed(e) => OAuthErrorView::TokenRequestFailed(e@),
            OAuthError::InvalidTokenResponse(e) => OAuthErrorView::InvalidTokenResponse(e@),
            OAuthError::TokenExchangeRejected(e, d) => OAuthErrorView::TokenExchangeRejected(
                e@,
                d@,
            ),
            OAuthError::MissingIdToken => OAuthErrorView::MissingIdToken,
            OAuthError::MissingAccessOrIdToken => OAuthErrorView::MissingAccessOrIdToken,
        }
    }
}

impl OAuthErrorView {
    /// The sentence that reports this failure.
    pub open spec fn message(self) -> Seq<char> {
        match self {
            OAuthErrorView::UnsupportedProvider(p) => "Unsupported provider: "@ + p,
            OAuthErrorView::InvalidUri(e) => "Invalid redirect URI: "@ + e,
            OAuthErrorView::UnsupportedScheme => "Redirect URI must use http for loopback desktop OAuth"@,
            OAuthErrorView::MissingHost => "Redirect URI host is required"@,
            OAuthErrorView::DisallowedHost => "Redirect URI host must be localhost or 127.0.0.1"@,
            OAuthErrorView::MissingPort => "Redirect URI must include a port (example: http://127.0.0.1:53123/callback)"@,
            OAuthErrorView::ListenerBindFailed(a, e) => "Cannot bind callback listener on "@ + a
                + ": "@ + e,
            OAuthErrorView::BrowserLaunchFailed(e) => "Could not open browser for OAuth login: "@
                + e,
            OAuthErrorView::CallbackTimedOut(e) => "OAuth callback was not received: "@ + e,
            OAuthErrorView::MalformedCallback => "Malformed OAuth callback request"@,
            OAuthErrorView::CallbackResponseFailed(e) => "Failed writing OAuth callback response: "@
                + e,
            OAuthErrorView::ProviderDeniedOrErrored(e) => "OAuth provider returned error: "@ + e,
            OAuthErrorView::MissingState => "OAuth callback missing state"@,
            OAuthErrorView::StateMismatch => "OAuth state validation failed"@,
            OAuthErrorView::MissingAuthorizationCode => "OAuth callback missing authorization code"@,
            OAuthErrorView::TokenRequestFailed(e) => "Token exchange request failed: "@ + e,
            OAuthErrorView::InvalidTokenResponse(e) => "Invalid token exchange response: "@ + e,
            OAuthErrorView::TokenExchangeRejected(e, d) => "OAuth token exchange failed: "@ + e
                + " ("@ + d + ")"@,
            OAuthErrorView::MissingIdToken => "Google token exchange did not return id_token"@,
            OAuthErrorView::MissingAccessOrIdToken => "Microsoft token exchange did not return access_token/id_token"@,
        }
    }
}

/// The outcome of an operation, with its value and its error by their views.
pub open spec fn outcome<T: View>(r: Result<T, OAuthError>) -> Result<T::V, OAuthErrorView> {
    match r {
        Ok(v) => Ok(v@),
        Err(e) => Err(e@),
    }
}

/// `head` followed by `tail`.
pub fn joined(head: &str, tail: &str) -> (s: String)
    ensures
        s@ == head@ + tail@,
{
    let mut s = head.to_owned();
    s.append(tail);
    s
}

impl OAuthError {
    /// A copy of this failure, text for text.
    pub fn duplicate(&self) -> (copy: OAuthError)
        ensures
            copy@ == self@,
    {
        match self {
            OAuthError::UnsupportedProvider(p) => OAuthError::UnsupportedProvider(p.clone()),
            OAuthError::InvalidUri(e) => OAuthError::InvalidUri(e.clone()),
            OAuthError::UnsupportedScheme => OAuthError::UnsupportedScheme,
            OAuthError::MissingHost => OAuthError::MissingHost,
            OAuthError::DisallowedHost => OAuthError::DisallowedHost,
            OAuthError::MissingPort => OAuthError::MissingPort,
            OAuthError::ListenerBindFailed(a, e) => OAuthError::ListenerBindFailed(
                a.clone(),
                e.clone(),
            ),
            OAuthError::BrowserLaunchFailed(e) => OAuthError::BrowserLaunchFailed(e.clone()),
            OAuthError::CallbackTimedOut(e) => OAuthError::CallbackTimedOut(e.clone()),
            OAuthError::MalformedCallback => OAuthError::MalformedCallback,
            OAuthError::CallbackResponseFailed(e) => OAuthError::CallbackResponseFailed(e.clone()),
            OAuthError::ProviderDeniedOrErrored(e) => OAuthError::ProviderDeniedOrErrored(
                e.clone(),
            ),
            OAuthError::MissingState => OAuthError::MissingState,
            OAuthError::StateMismatch => OAuthError::StateMismatch,
            OAuthError::MissingAuthorizationCode => OAuthError::MissingAuthorizationCode,
            OAuthError::TokenRequestFailed(e) => OAuthError::TokenRequestFailed(e.clone()),
            OAuthError::InvalidTokenResponse(e) => OAuthError::InvalidTokenResponse(e.clone()),
            OAuthError::TokenExchangeRejected(e, d) => OAuthError::TokenExchangeRejected(
                e.clone(),
                d.clone(),
            ),
            OAuthError::MissingIdToken => OAuthError::MissingIdToken,
            OAuthError::MissingAccessOrIdToken => OAuthError::MissingAccessOrIdToken,
        }
    }

    /// The sentence that reports this failure to the user.
    pub fn message(&self) -> (m: String)
        ensures
            m@ == self@.message(),
    {
        match self {
            OAuthError::UnsupportedProvider(p) => joined("Unsupported provider: ", p.as_str()),
            OAuthError::InvalidUri(e) => joined("Invalid redirect URI: ", e.as_str()),
            OAuthError::UnsupportedScheme => "Redirect URI must use http for loopback desktop OAuth".to_owned(),
            OAuthError::MissingHost => "Redirect URI host is required".to_owned(),
            OAuthError::DisallowedHost => "Redirect URI host must be localhost or 127.0.0.1".to_owned(),
            OAuthError::MissingPort => "Redirect URI must include a port (example: http://127.0.0.1:53123/callback)".to_owned(),
            OAuthError::ListenerBindFailed(a, e) => {
                let mut m = joined("Cannot bind callback listener on ", a.as_str());
                m.append(": ");
                m.append(e.as_str());
                m
            },
            OAuthError::BrowserLaunchFailed(e) => joined(
                "Could not open browser for OAuth login: ",
                e.as_str(),
            ),
            OAuthError::CallbackTimedOut(e) => joined(
                "OAuth callback was not received: ",
                e.as_str(),
            ),
            OAuthError::MalformedCallback => "Malformed OAuth callback request".to_owned(),
            OAuthError::CallbackResponseFailed(e) => joined(
                "Failed writing OAuth callback response: ",
                e.as_str(),
            ),
            OAuthError::ProviderDeniedOrErrored(e) => joined(
                "OAuth provider returned error: ",
                e.as_str(),
            ),
            OAuthError::MissingState => "OAuth callback missing state".to_owned(),
            OAuthError::StateMismatch => "OAuth state validation failed".to_owned(),
            OAuthError::MissingAuthorizationCode => "OAuth callback missing authorization code".to_owned(),
            OAuthError::TokenRequestFailed(e) => joined(
                "Token exchange request failed: ",
                e.as_str(),
            ),
            OAuthError::InvalidTokenResponse(e) => joined(
                "Invalid token exchange response: ",
                e.as_str(),
            ),
            OAuthError::TokenExchangeRejected(e, d) => {
                let mut m = joined("OAuth token exchange failed: ", e.as_str());
                m.append(" (");
                m.append(d.as_str());
                m.append(")");
                m
            },
            OAuthError::MissingIdToken => "Google token exchange did not return id_token".to_owned(),
            OAuthError::MissingAccessOrIdToken => "Microsoft token exchange did not return access_token/id_token".to_owned(),
        }
    }
}

} // verus!
