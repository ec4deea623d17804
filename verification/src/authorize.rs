//! The URL that the browser is sent to.

use crate::encoding::{percent_encode, percent_encoded, percent_encoded_is_safe};
use crate::pkce::PkceMaterial;
use crate::provider::{is_endpoint_char, OAuthProvider, ProviderProfile, ProviderProfileView};
use vstd::prelude::*;
use vstd::string::*;

verus! {

/// The authorization URL: the profile's endpoint and a query in which every
/// value is percent-encoded by itself. Google is asked for offline access
/// and an account chooser; Microsoft is asked to answer in the query.
pub open spec fn authorization_url(
    profile: ProviderProfileView,
    client_id: Seq<char>,
    redirect_uri: Seq<char>,
    code_challenge: Seq<char>,
    state: Seq<char>,
) -> Seq<char> {
    match profile.provider {
        OAuthProvider::Google => profile.authorization_endpoint + "?client_id="@ + percent_encoded(
            client_id,
        ) + "&response_type=code&redirect_uri="@ + percent_encoded(redirect_uri) + "&scope="@
            + percent_encoded(profile.scope) + "&code_challenge="@ + percent_encoded(code_challenge)
            + "&code_challenge_method=S256&state="@ + percent_encoded(state)
            + "&access_type=offline&prompt=select_account"@,
        OAuthProvider::Microsoft => profile.authorization_endpoint + "?client_id="@
            + percent_encoded(client_id) + "&response_type=code&redirect_uri="@ + percent_encoded(
            redirect_uri,
        ) + "&response_mode=query&scope="@ + percent_encoded(profile.scope) + "&code_challenge="@
            + percent_encoded(code_challenge) + "&code_challenge_method=S256&state="@
            + percent_encoded(state),
    }
}

/// Builds the authorization URL for one request.
pub fn build_authorization_url(
    profile: &ProviderProfile,
    client_id: &str,
    redirect_uri: &str,
    pkce: &PkceMaterial,
) -> (url: String)
    ensures
        url@ == authorization_url(
            profile@,
            client_id@,
            redirect_uri@,
            pkce.code_challenge@,
            pkce.state@,
        ),
{
    let client_id = percent_encode(client_id);
    let redirect_uri = percent_encode(redirect_uri);
    let scope = percent_encode(profile.scope.as_str());
    let code_challenge = percent_encode(pkce.code_challenge.as_str());
    let state = percent_encode(pkce.state.as_str());
    let mut url = profile.authorization_endpoint.clone();
    url.append("?client_id=");
    url.append(client_id.as_str());
    url.append("&response_type=code&redirect_uri=");
    url.append(redirect_uri.as_str());
    match profile.provider {
        OAuthProvider::Google => {
            url.append("&scope=");
        },
        OAuthProvider::Microsoft => {
            url.append("&response_mode=query&scope=");
        },
    }
    url.append(scope.as_str());
    url.append("&code_challenge=");
    url.append(code_challenge.as_str());
    url.append("&code_challenge_method=S256&state=");
    url.append(state.as_str());
    match profile.provider {
        OAuthProvider::Google => {
            url.append("&access_type=offline&prompt=select_account");
        },
        OAuthProvider::Microsoft => {},
    }
    url
}

/// Whether `c` may stand in an authorization URL: what an endpoint holds,
/// and the `?`, `&` and `=` that structure the query.
pub open spec fn is_url_char(c: char) -> bool {
    is_endpoint_char(c) || c == '?' || c == '&' || c == '='
}

/// Whether `text` holds nothing but what may stand in an authorization URL.
pub open spec fn is_url_text(text: Seq<char>) -> bool {
    forall|i: int| 0 <= i < text.len() ==> is_url_char(#[trigger] text[i])
}

proof fn lemma_url_text_joined(head: Seq<char>, tail: Seq<char>)
    requires
        is_url_text(head),
        is_url_text(tail),
    ensures
        is_url_text(head + tail),
{
    assert forall|i: int| 0 <= i < (head + tail).len() implies is_url_char(
        #[trigger] (head + tail)[i],
    ) by {
        if i < head.len() {
            assert((head + tail)[i] == head[i]);
        } else {
            assert((head + tail)[i] == tail[i - head.len()]);
        }
    }
}

proof fn lemma_encoded_is_url_text(value: Seq<char>)
    ensures
        is_url_text(percent_encoded(value)),
{
    percent_encoded_is_safe(value);
}

/// Whatever the client, the redirect URI, the scope and the secrets hold,
/// the authorization URL holds only the endpoint, the separators of its
/// query and encoded values: no value can add a parameter or end the query.
pub proof fn authorization_url_is_well_formed(
    profile: ProviderProfileView,
    client_id: Seq<char>,
    redirect_uri: Seq<char>,
    code_challenge: Seq<char>,
    state: Seq<char>,
)
    requires
        forall|i: int|
            0 <= i < profile.authorization_endpoint.len() ==> is_endpoint_char(
                #[trigger] profile.authorization_endpoint[i],
            ),
    ensures
        is_url_text(authorization_url(profile, client_id, redirect_uri, code_challenge, state)),
{
    reveal_strlit("?client_id=");
    reveal_strlit("&response_type=code&redirect_uri=");
    reveal_strlit("&scope=");
    reveal_strlit("&response_mode=query&scope=");
    reveal_strlit("&code_challenge=");
    reveal_strlit("&code_challenge_method=S256&state=");
    reveal_strlit("&access_type=offline&prompt=select_account");
    lemma_encoded_is_url_text(client_id);
    lemma_encoded_is_url_text(redirect_uri);
    lemma_encoded_is_url_text(profile.scope);
    lemma_encoded_is_url_text(code_challenge);
    lemma_encoded_is_url_text(state);
    let u1 = profile.authorization_endpoint + "?client_id="@;
    lemma_url_text_joined(profile.authorization_endpoint, "?client_id="@);
    let u2 = u1 + percent_encoded(client_id);
    lemma_url_text_joined(u1, percent_encoded(client_id));
    let u3 = u2 + "&response_type=code&redirect_uri="@;
    lemma_url_text_joined(u2, "&response_type=code&redirect_uri="@);
    let u4 = u3 + percent_encoded(redirect_uri);
    lemma_url_text_joined(u3, percent_encoded(redirect_uri));
    let scope_key = match profile.provider {
        OAuthProvider::Google => "&scope="@,
        OAuthProvider::Microsoft => "&response_mode=query&scope="@,
    };
    let u5 = u4 + scope_key;
    lemma_url_text_joined(u4, scope_key);
    let u6 = u5 + percent_encoded(profile.scope);
    lemma_url_text_joined(u5, percent_encoded(profile.scope));
    let u7 = u6 + "&code_challenge="@;
    lemma_url_text_joined(u6, "&code_challenge="@);
    let u8 = u7 + percent_encoded(code_challenge);
    lemma_url_text_joined(u7, percent_encoded(code_challenge));
    let u9 = u8 + "&code_challenge_method=S256&state="@;
    lemma_url_text_joined(u8, "&code_challenge_method=S256&state="@);
    let u10 = u9 + percent_encoded(state);
    lemma_url_text_joined(u9, percent_encoded(state));
    lemma_url_text_joined(u10, "&access_type=offline&prompt=select_account"@);
}

} // verus!
