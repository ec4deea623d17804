//! The exchange of the authorization code: what is sent to the token
//! endpoint, and which token is taken from its answer.

use crate::error::{outcome, OAuthError, OAuthErrorView};
use crate::provider::OAuthProvider;
use crate::redirect::pairs_of;
use crate::text::text_of;
use vstd::prelude::*;
use vstd::string::*;

verus! {

/// The seconds after which the token request is given up.
pub const TOKEN_REQUEST_TIMEOUT_SECS: u64 = 45;

/// The fields read from the token endpoint's JSON answer.
#[derive(Debug, Clone, PartialEq, Eq)]
pub struct TokenResponse {
    pub access_token: Option<String>,
    pub id_token: Option<String>,
    pub error: Option<String>,
    pub error_description: Option<String>,
}

/// A [`TokenResponse`] with its texts as character sequences.
pub struct TokenResponseView {
    pub access_token: Option<Seq<char>>,
    pub id_token: Option<Seq<char>>,
    pub error: Option<Seq<char>>,
    pub error_description: Option<Seq<char>>,
}

impl View for TokenResponse {
    type V = TokenResponseView;

    open spec fn view(&self) -> TokenResponseView {
        TokenResponseView {
            access_token: text_of(self.access_token),
            id_token: text_of(self.id_token),
            error: text_of(self.error),
            error_description: text_of(self.error_description),
        }
    }
}

/// The form fields of the token request, in the order in which they are
/// sent.
pub open spec fn token_form(
    code: Seq<char>,
    redirect_uri: Seq<char>,
    client_id: Seq<char>,
    code_verifier: Seq<char>,
    scope: Seq<char>,
) -> Seq<(Seq<char>, Seq<char>)> {
    seq![
        ("grant_type"@, "authorization_code"@),
        ("code"@, code),
        ("redirect_uri"@, redirect_uri),
        ("client_id"@, client_id),
        ("code_verifier"@, code_verifier),
        ("scope"@, scope),
    ]
}

/// Builds the form fields of the token request.
pub fn token_request_form(
    code: &str,
    redirect_uri: &str,
    client_id: &str,
    code_verifier: &str,
    scope: &str,
) -> (form: Vec<(String, String)>)
    ensures
        pairs_of(form@) == token_form(code@, redirect_uri@, client_id@, code_verifier@, scope@),
{
    let mut form: Vec<(String, String)> = Vec::new();
    form.push(("grant_type".to_owned(), "authorization_code".to_owned()));
    form.push(("code".to_owned(), code.to_owned()));
    form.push(("redirect_uri".to_owned(), redirect_uri.to_owned()));
    form.push(("client_id".to_owned(), client_id.to_owned()));
    form.push(("code_verifier".to_owned(), code_verifier.to_owned()));
    form.push(("scope".to_owned(), scope.to_owned()));
    assert(pairs_of(form@) =~= token_form(
        code@,
        redirect_uri@,
        client_id@,
        code_verifier@,
        scope@,
    ));
    form
}

/// The description reported where the endpoint refuses without one.
pub open spec fn default_error_description() -> Seq<char> {
    "Unknown OAuth token exchange error"@
}

/// The token that an answer yields for a provider. An `error` field
/// refuses the exchange, whatever else the answer holds. Google must send
/// an `id_token`; for Microsoft the `access_token` is taken, or else the
/// `id_token`.
pub open spec fn selected_token(provider: OAuthProvider, response: TokenResponseView) -> Result<
    Seq<char>,
    OAuthErrorView,
> {
    match response.error {
        Some(error) => Err(
            OAuthErrorView::TokenExchangeRejected(
                error,
                match response.error_description {
                    Some(d) => d,
                    None => default_error_description(),
                },
            ),
        ),
        None => match provider {
            OAuthProvider::Google => match response.id_token {
                Some(t) => Ok(t),
                None => Err(OAuthErrorView::MissingIdToken),
            },
            OAuthProvider::Microsoft => match response.access_token {
                Some(t) => Ok(t),
                None => match response.id_token {
                    Some(t) => Ok(t),
                    None => Err(OAuthErrorView::MissingAccessOrIdToken),
                },
            },
        },
    }
}

/// Takes the token for `provider` from the endpoint's answer.
pub fn select_token(provider: OAuthProvider, response: TokenResponse) -> (r: Result<
    String,
    OAuthError,
>)
    ensures
        outcome(r) == selected_token(provider, response@),
{
    if let Some(error) = response.error {
        let description = match response.error_description {
            Some(d) => d,
            None => "Unknown OAuth token exchange error".to_owned(),
        };
        return Err(OAuthError::TokenExchangeRejected(error, description));
    }
    match provider {
        OAuthProvider::Google => match response.id_token {
            Some(t) => Ok(t),
            None => Err(OAuthError::MissingIdToken),
        },
        OAuthProvider::Microsoft => match response.access_token {
            Some(t) => Ok(t),
            None => match response.id_token {
                Some(t) => Ok(t),
                None => Err(OAuthError::MissingAccessOrIdToken),
            },
        },
    }
}

/// The token request carries the verifier it was built with, unchanged,
/// in the field `code_verifier`.
pub proof fn token_form_carries_verifier(
    code: Seq<char>,
    redirect_uri: Seq<char>,
    client_id: Seq<char>,
    code_verifier: Seq<char>,
    scope: Seq<char>,
)
    ensures
        token_form(code, redirect_uri, client_id, code_verifier, scope)[4] == (
            "code_verifier"@,
            code_verifier,
        ),
{
}

/// A refusal by the endpoint is reported as such for every provider,
/// whatever tokens the answer holds beside it.
pub proof fn refusal_takes_precedence(provider: OAuthProvider, response: TokenResponseView)
    requires
        response.error is Some,
    ensures
        selected_token(provider, response) matches Err(
            OAuthErrorView::TokenExchangeRejected(error, _),
        ) && error == response.error->0,
{
}

} // verus!
