//! The providers that are known, and what each one needs: its endpoints,
//! its scope and the tenant that its URLs name.

use crate::encoding::{
    is_encoded_char, percent_encode, percent_encoded, percent_encoded_is_safe,
    unreserved_text_is_kept,
};
use crate::error::{joined, outcome, OAuthError, OAuthErrorView};
use crate::text::{lowercase_of, str_eq, text_of, to_lowercase, trim, trimmed};
use vstd::prelude::*;
use vstd::string::*;

verus! {

/// A provider whose authorization-code flow with PKCE is implemented.
#[derive(Debug, Clone, Copy, PartialEq, Eq)]
pub enum OAuthProvider {
    Google,
    Microsoft,
}

/// The provider that the lower-case name `name` stands for.
pub open spec fn provider_named(name: Seq<char>) -> Option<OAuthProvider> {
    if name == "google"@ {
        Some(OAuthProvider::Google)
    } else if name == "microsoft"@ {
        Some(OAuthProvider::Microsoft)
    } else {
        None
    }
}

/// What looking up a provider yields, given the name as written and its
/// lower-case form.
pub open spec fn provider_lookup(lower: Seq<char>, given: Seq<char>) -> Result<
    OAuthProvider,
    OAuthErrorView,
> {
    match provider_named(lower) {
        Some(p) => Ok(p),
        None => Err(OAuthErrorView::UnsupportedProvider(given)),
    }
}

/// A lookup result with its error by its view.
pub open spec fn lookup_outcome(r: Result<OAuthProvider, OAuthError>) -> Result<
    OAuthProvider,
    OAuthErrorView,
> {
    match r {
        Ok(p) => Ok(p),
        Err(e) => Err(e@),
    }
}

impl OAuthProvider {
    /// Finds the provider whose name is `lower`, which is the lower-case
    /// form of the name `given`; an unknown name is reported as given.
    pub fn from_lowercase(lower: &str, given: &str) -> (r: Result<OAuthProvider, OAuthError>)
        ensures
            lookup_outcome(r) == provider_lookup(lower@, given@),
    {
        if str_eq(lower, "google") {
            Ok(OAuthProvider::Google)
        } else if str_eq(lower, "microsoft") {
            Ok(OAuthProvider::Microsoft)
        } else {
            Err(OAuthError::UnsupportedProvider(given.to_owned()))
        }
    }

    /// Finds the provider that `provider` names, in any letter case.
    pub fn parse(provider: &str) -> (r: Result<OAuthProvider, OAuthError>)
        ensures
            lookup_outcome(r) == provider_lookup(lowercase_of(provider@), provider@),
    {
        let lower = to_lowercase(provider);
        OAuthProvider::from_lowercase(lower.as_str(), provider)
    }
}

/// What one provider needs for one request.
#[derive(Debug, Clone, PartialEq, Eq)]
pub struct ProviderProfile {
    /// The provider that this profile is for.
    pub provider: OAuthProvider,
    /// Where the browser is sent to, without the query.
    pub authorization_endpoint: String,
    /// Where the authorization code is exchanged.
    pub token_endpoint: String,
    /// The scope that is asked for.
    pub scope: String,
}

/// A [`ProviderProfile`] with its texts as character sequences.
pub struct ProviderProfileView {
    pub provider: OAuthProvider,
    pub authorization_endpoint: Seq<char>,
    pub token_endpoint: Seq<char>,
    pub scope: Seq<char>,
}

impl View for ProviderProfile {
    type V = ProviderProfileView;

    open spec fn view(&self) -> ProviderProfileView {
        ProviderProfileView {
            provider: self.provider,
            authorization_endpoint: self.authorization_endpoint@,
            token_endpoint: self.token_endpoint@,
            scope: self.scope@,
        }
    }
}

/// The value that an optional override stands for: its text without the
/// white space around it, or `fallback` where it is absent or blank.
pub open spec fn override_or(value: Option<Seq<char>>, fallback: Seq<char>) -> Seq<char> {
    match value {
        Some(v) => if trimmed(v).len() == 0 {
            fallback
        } else {
            trimmed(v)
        },
        None => fallback,
    }
}

/// The scope asked of Microsoft where the caller names none.
pub open spec fn microsoft_default_scope(client_id: Seq<char>) -> Seq<char> {
    "api://"@ + client_id + "/access_as_user openid profile email offline_access"@
}

/// The tenant that Microsoft's URLs name.
pub open spec fn effective_tenant(tenant_id: Option<Seq<char>>) -> Seq<char> {
    override_or(tenant_id, "common"@)
}

/// The profile of `provider` for a client and the caller's overrides. The
/// tenant is percent-encoded wherever a URL holds it.
pub open spec fn profile_for(
    provider: OAuthProvider,
    client_id: Seq<char>,
    tenant_id: Option<Seq<char>>,
    scope: Option<Seq<char>>,
) -> ProviderProfileView {
    match provider {
        OAuthProvider::Google => ProviderProfileView {
            provider,
            authorization_endpoint: "https://accounts.google.com/o/oauth2/v2/auth"@,
            token_endpoint: "https://oauth2.googleapis.com/token"@,
            scope: "openid email profile"@,
        },
        OAuthProvider::Microsoft => ProviderProfileView {
            provider,
            authorization_endpoint: "https://login.microsoftonline.com/"@ + percent_encoded(
                effective_tenant(tenant_id),
            ) + "/oauth2/v2.0/authorize"@,
            token_endpoint: "https://login.microsoftonline.com/"@ + percent_encoded(
                effective_tenant(tenant_id),
            ) + "/oauth2/v2.0/token"@,
            scope: override_or(scope, microsoft_default_scope(client_id)),
        },
    }
}

/// What resolving a provider name yields, given its lower-case form.
pub open spec fn resolved(
    lower: Seq<char>,
    given: Seq<char>,
    client_id: Seq<char>,
    tenant_id: Option<Seq<char>>,
    scope: Option<Seq<char>>,
) -> Result<ProviderProfileView, OAuthErrorView> {
    match provider_named(lower) {
        Some(p) => Ok(profile_for(p, client_id, tenant_id, scope)),
        None => Err(OAuthErrorView::UnsupportedProvider(given)),
    }
}

fn override_or_else(value: &Option<String>, fallback: String) -> (r: String)
    ensures
        r@ == override_or(text_of(*value), fallback@),
{
    match value {
        Some(v) => {
            let t = trim(v.as_str());
            if t.as_str().unicode_len() == 0 {
                fallback
            } else {
                t
            }
        },
        None => fallback,
    }
}

impl ProviderProfile {
    /// The profile of `provider` for `client_id`, with the tenant and the
    /// scope that the caller asks for where the provider takes them.
    pub fn for_provider(
        provider: OAuthProvider,
        client_id: &str,
        tenant_id: &Option<String>,
        scope: &Option<String>,
    ) -> (profile: ProviderProfile)
        ensures
            profile@ == profile_for(provider, client_id@, text_of(*tenant_id), text_of(*scope)),
    {
        match provider {
            OAuthProvider::Google => ProviderProfile {
                provider,
                authorization_endpoint: "https://accounts.google.com/o/oauth2/v2/auth".to_owned(),
                token_endpoint: "https://oauth2.googleapis.com/token".to_owned(),
                scope: "openid email profile".to_owned(),
            },
            OAuthProvider::Microsoft => {
                let tenant = override_or_else(tenant_id, "common".to_owned());
                let encoded_tenant = percent_encode(tenant.as_str());
                let mut default_scope = joined("api://", client_id);
                default_scope.append("/access_as_user openid profile email offline_access");
                let scope = override_or_else(scope, default_scope);
                let mut authorization_endpoint = joined(
                    "https://login.microsoftonline.com/",
                    encoded_tenant.as_str(),
                );
                authorization_endpoint.append("/oauth2/v2.0/authorize");
                let mut token_endpoint = joined(
                    "https://login.microsoftonline.com/",
                    encoded_tenant.as_str(),
                );
                token_endpoint.append("/oauth2/v2.0/token");
                ProviderProfile { provider, authorization_endpoint, token_endpoint, scope }
            },
        }
    }

    /// Resolves a provider name to its profile, or reports the name as
    /// unsupported.
    pub fn resolve(
        provider_name: &str,
        client_id: &str,
        tenant_id: &Option<String>,
        scope: &Option<String>,
    ) -> (r: Result<ProviderProfile, OAuthError>)
        ensures
            outcome(r) == resolved(
                lowercase_of(provider_name@),
                provider_name@,
                client_id@,
                text_of(*tenant_id),
                text_of(*scope),
            ),
    {
        match OAuthProvider::parse(provider_name) {
            Ok(provider) => Ok(ProviderProfile::for_provider(provider, client_id, tenant_id, scope)),
            Err(e) => Err(e),
        }
    }
}

/// Without a tenant from the caller, both of Microsoft's endpoints name the
/// tenant `common`.
pub proof fn microsoft_defaults_to_common(client_id: Seq<char>, scope: Option<Seq<char>>)
    ensures
        profile_for(OAuthProvider::Microsoft, client_id, None, scope).authorization_endpoint
            == "https://login.microsoftonline.com/"@ + "common"@ + "/oauth2/v2.0/authorize"@,
        profile_for(OAuthProvider::Microsoft, client_id, None, scope).token_endpoint
            == "https://login.microsoftonline.com/"@ + "common"@ + "/oauth2/v2.0/token"@,
{
    reveal_strlit("common");
    unreserved_text_is_kept("common"@);
}

/// A tenant that is absent or blank is the tenant `common`; any other is
/// taken without the white space around it.
pub proof fn blank_tenant_is_common(tenant_id: Option<Seq<char>>)
    ensures
        (tenant_id is None || trimmed(tenant_id->0).len() == 0) ==> effective_tenant(tenant_id)
            == "common"@,
        (tenant_id is Some && trimmed(tenant_id->0).len() > 0) ==> effective_tenant(tenant_id)
            == trimmed(tenant_id->0),
{
}

/// Whether `c` may stand in an endpoint: an unreserved character, `%`, `:`
/// or `/`.
pub open spec fn is_endpoint_char(c: char) -> bool {
    is_encoded_char(c) || c == ':' || c == '/'
}

/// Whether `url` is an absolute `https` URL of a host and a path, with
/// nothing in it that would need escaping.
pub open spec fn is_https_endpoint(url: Seq<char>) -> bool {
    &&& url.len() > 8
    &&& url.subrange(0, 8) == "https://"@
    &&& forall|i: int| 0 <= i < url.len() ==> is_endpoint_char(#[trigger] url[i])
}

/// Both endpoints of every profile are absolute `https` URLs, whatever
/// tenant the caller names.
pub proof fn profile_endpoints_are_urls(
    provider: OAuthProvider,
    client_id: Seq<char>,
    tenant_id: Option<Seq<char>>,
    scope: Option<Seq<char>>,
)
    ensures
        is_https_endpoint(profile_for(provider, client_id, tenant_id, scope).authorization_endpoint),
        is_https_endpoint(profile_for(provider, client_id, tenant_id, scope).token_endpoint),
{
    reveal_strlit("https://");
    match provider {
        OAuthProvider::Google => {
            reveal_strlit("https://accounts.google.com/o/oauth2/v2/auth");
            reveal_strlit("https://oauth2.googleapis.com/token");
            let a = "https://accounts.google.com/o/oauth2/v2/auth"@;
            let t = "https://oauth2.googleapis.com/token"@;
            assert(a.subrange(0, 8) =~= "https://"@);
            assert(t.subrange(0, 8) =~= "https://"@);
        },
        OAuthProvider::Microsoft => {
            reveal_strlit("https://login.microsoftonline.com/");
            reveal_strlit("/oauth2/v2.0/authorize");
            reveal_strlit("/oauth2/v2.0/token");
            let head = "https://login.microsoftonline.com/"@;
            let tenant = percent_encoded(effective_tenant(tenant_id));
            percent_encoded_is_safe(effective_tenant(tenant_id));
            let a = head + tenant + "/oauth2/v2.0/authorize"@;
            let t = head + tenant + "/oauth2/v2.0/token"@;
            assert(a.subrange(0, 8) =~= "https://"@);
            assert(t.subrange(0, 8) =~= "https://"@);
            assert forall|i: int| 0 <= i < a.len() implies is_endpoint_char(#[trigger] a[i]) by {
                if i < head.len() {
                    assert(a[i] == head[i]);
                } else if i < head.len() + tenant.len() {
                    assert(a[i] == tenant[i - head.len()]);
                } else {
                    assert(a[i] == "/oauth2/v2.0/authorize"@[i - head.len() - tenant.len()]);
                }
            }
            assert forall|i: int| 0 <= i < t.len() implies is_endpoint_char(#[trigger] t[i]) by {
                if i < head.len() {
                    assert(t[i] == head[i]);
                } else if i < head.len() + tenant.len() {
                    assert(t[i] == tenant[i - head.len()]);
                } else {
                    assert(t[i] == "/oauth2/v2.0/token"@[i - head.len() - tenant.len()]);
                }
            }
        },
    }
}

} // verus!
