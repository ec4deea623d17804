use binarystars::authorize::build_authorization_url;
use binarystars::callback::{request_target, write_http_response, CallbackResult};
use binarystars::error::OAuthError;
use binarystars::pkce::{derive_challenge, PkceMaterial};
use binarystars::provider::{OAuthProvider, ProviderProfile};
use binarystars::redirect::{RedirectTarget, UrlParts};
use binarystars::token::{select_token, token_request_form, TokenResponse};

fn some(text: &str) -> Option<String> {
    Some(text.to_string())
}

fn fixed_pkce() -> PkceMaterial {
    PkceMaterial::from_secrets(
        "stateSTATEstate0123456789abcdefgh".to_string(),
        "dBjftJeZ4CVP-mB92K27uhbUJU1p1r_wW1gFWFOEjXk".to_string(),
    )
}

#[test]
fn provider_names_are_matched_in_any_case() {
    assert_eq!(OAuthProvider::parse("google"), Ok(OAuthProvider::Google));
    assert_eq!(OAuthProvider::parse("GOOGLE"), Ok(OAuthProvider::Google));
    assert_eq!(OAuthProvider::parse("Microsoft"), Ok(OAuthProvider::Microsoft));
    assert_eq!(OAuthProvider::parse("mIcRoSoFt"), Ok(OAuthProvider::Microsoft));
}

#[test]
fn unknown_provider_is_reported_as_given() {
    assert_eq!(
        OAuthProvider::parse("GitHub"),
        Err(OAuthError::UnsupportedProvider("GitHub".to_string()))
    );
    assert_eq!(
        OAuthProvider::parse(""),
        Err(OAuthError::UnsupportedProvider(String::new()))
    );
    assert_eq!(
        OAuthProvider::parse(" google"),
        Err(OAuthError::UnsupportedProvider(" google".to_string()))
    );
}

#[test]
fn lookup_takes_the_lowercase_name_as_it_is() {
    assert_eq!(
        OAuthProvider::from_lowercase("google", "Google"),
        Ok(OAuthProvider::Google)
    );
    assert_eq!(
        OAuthProvider::from_lowercase("Google", "Google"),
        Err(OAuthError::UnsupportedProvider("Google".to_string()))
    );
}

#[test]
fn google_profile_ignores_overrides() {
    let profile =
        ProviderProfile::resolve("google", "abc", &some("contoso"), &some("mail")).unwrap();
    assert_eq!(profile.provider, OAuthProvider::Google);
    assert_eq!(
        profile.authorization_endpoint,
        "https://accounts.google.com/o/oauth2/v2/auth"
    );
    assert_eq!(profile.token_endpoint, "https://oauth2.googleapis.com/token");
    assert_eq!(profile.scope, "openid email profile");
}

#[test]
fn microsoft_profile_defaults_to_common_tenant() {
    let profile = ProviderProfile::resolve("microsoft", "abc", &None, &None).unwrap();
    assert_eq!(
        profile.authorization_endpoint,
        "https://login.microsoftonline.com/common/oauth2/v2.0/authorize"
    );
    assert_eq!(
        profile.token_endpoint,
        "https://login.microsoftonline.com/common/oauth2/v2.0/token"
    );
    assert_eq!(
        profile.scope,
        "api://abc/access_as_user openid profile email offline_access"
    );
}

#[test]
fn microsoft_profile_treats_blank_overrides_as_absent() {
    let profile =
        ProviderProfile::resolve("microsoft", "abc", &some("  \t"), &some("")).unwrap();
    assert_eq!(
        profile.token_endpoint,
        "https://login.microsoftonline.com/common/oauth2/v2.0/token"
    );
    assert_eq!(
        profile.scope,
        "api://abc/access_as_user openid profile email offline_access"
    );
}

#[test]
fn microsoft_profile_trims_and_encodes_overrides() {
    let profile = ProviderProfile::resolve(
        "microsoft",
        "abc",
        &some("  my tenant/x "),
        &some(" User.Read openid\n"),
    )
    .unwrap();
    assert_eq!(
        profile.authorization_endpoint,
        "https://login.microsoftonline.com/my%20tenant%2Fx/oauth2/v2.0/authorize"
    );
    assert_eq!(
        profile.token_endpoint,
        "https://login.microsoftonline.com/my%20tenant%2Fx/oauth2/v2.0/token"
    );
    assert_eq!(profile.scope, "User.Read openid");
}

#[test]
fn resolve_rejects_unknown_provider() {
    assert_eq!(
        ProviderProfile::resolve("okta", "abc", &None, &None),
        Err(OAuthError::UnsupportedProvider("okta".to_string()))
    );
}

#[test]
fn loopback_redirects_are_accepted() {
    let target = RedirectTarget::validate("http://127.0.0.1:53123/callback").unwrap();
    assert_eq!(target.host, "127.0.0.1");
    assert_eq!(target.port, 53123);
    assert_eq!(target.bind_address(), "127.0.0.1:53123");

    let target = RedirectTarget::validate("http://localhost:8080/").unwrap();
    assert_eq!(target.bind_address(), "localhost:8080");
}

#[test]
fn redirect_without_port_takes_the_scheme_default() {
    let target = RedirectTarget::validate("http://localhost/callback").unwrap();
    assert_eq!(target.port, 80);
    assert_eq!(target.bind_address(), "localhost:80");
}

#[test]
fn redirect_scheme_is_matched_after_parsing() {
    let target = RedirectTarget::validate("HTTP://LOCALHOST:9/").unwrap();
    assert_eq!(target.bind_address(), "localhost:9");
}

#[test]
fn unparsable_redirect_is_invalid() {
    assert!(matches!(
        RedirectTarget::validate("not a url"),
        Err(OAuthError::InvalidUri(_))
    ));
    assert!(matches!(
        RedirectTarget::validate(""),
        Err(OAuthError::InvalidUri(_))
    ));
    assert!(matches!(
        RedirectTarget::validate("http://127.0.0.1:99999/"),
        Err(OAuthError::InvalidUri(_))
    ));
}

#[test]
fn other_schemes_are_refused() {
    assert_eq!(
        RedirectTarget::validate("https://127.0.0.1:53123/callback"),
        Err(OAuthError::UnsupportedScheme)
    );
    assert_eq!(
        RedirectTarget::validate("myapp://callback"),
        Err(OAuthError::UnsupportedScheme)
    );
}

#[test]
fn other_hosts_are_refused() {
    assert_eq!(
        RedirectTarget::validate("http://example.com:53123/callback"),
        Err(OAuthError::DisallowedHost)
    );
    assert_eq!(
        RedirectTarget::validate("http://127.0.0.2:53123/callback"),
        Err(OAuthError::DisallowedHost)
    );
    assert_eq!(
        RedirectTarget::validate("http://[::1]:53123/callback"),
        Err(OAuthError::DisallowedHost)
    );
}

#[test]
fn parts_are_held_to_every_rule_in_order() {
    let parts = |scheme: &str, host: Option<&str>, port: Option<u16>| UrlParts {
        scheme: scheme.to_string(),
        host: host.map(|h| h.to_string()),
        port,
        query: Vec::new(),
    };
    assert_eq!(
        RedirectTarget::from_parts(&parts("ftp", None, None)),
        Err(OAuthError::UnsupportedScheme)
    );
    assert_eq!(
        RedirectTarget::from_parts(&parts("http", None, None)),
        Err(OAuthError::MissingHost)
    );
    assert_eq!(
        RedirectTarget::from_parts(&parts("http", Some("10.0.0.1"), None)),
        Err(OAuthError::DisallowedHost)
    );
    assert_eq!(
        RedirectTarget::from_parts(&parts("http", Some("localhost"), None)),
        Err(OAuthError::MissingPort)
    );
    assert_eq!(
        RedirectTarget::from_parts(&parts("http", Some("localhost"), Some(0))),
        Ok(RedirectTarget { host: "localhost".to_string(), port: 0 })
    );
}

#[test]
fn challenge_matches_the_published_example() {
    assert_eq!(
        derive_challenge("dBjftJeZ4CVP-mB92K27uhbUJU1p1r_wW1gFWFOEjXk"),
        "E9Melhoa2OwvFrEMTJguCHaoeK1t8URWbuGJSstw-cM"
    );
}

#[test]
fn challenge_is_the_same_each_time() {
    let verifier = "a".repeat(96);
    assert_eq!(derive_challenge(&verifier), derive_challenge(&verifier));
    assert_ne!(derive_challenge(&verifier), derive_challenge("b"));
    assert_eq!(derive_challenge(&verifier).len(), 43);
}

#[test]
fn generated_secrets_have_the_stated_shape() {
    let pkce = PkceMaterial::generate();
    assert_eq!(pkce.state.len(), 32);
    assert_eq!(pkce.code_verifier.len(), 96);
    assert!(pkce.state.chars().all(|c| c.is_ascii_alphanumeric()));
    assert!(pkce.code_verifier.chars().all(|c| c.is_ascii_alphanumeric()));
    assert_eq!(pkce.code_challenge, derive_challenge(&pkce.code_verifier));
}

#[test]
fn generated_secrets_differ_between_flows() {
    let first = PkceMaterial::generate();
    let second = PkceMaterial::generate();
    assert_ne!(first.state, second.state);
    assert_ne!(first.code_verifier, second.code_verifier);
}

#[test]
fn material_from_secrets_keeps_them() {
    let pkce = fixed_pkce();
    assert_eq!(pkce.state, "stateSTATEstate0123456789abcdefgh");
    assert_eq!(pkce.code_verifier, "dBjftJeZ4CVP-mB92K27uhbUJU1p1r_wW1gFWFOEjXk");
    assert_eq!(pkce.code_challenge, "E9Melhoa2OwvFrEMTJguCHaoeK1t8URWbuGJSstw-cM");
}

#[test]
fn google_authorization_url_is_exact() {
    let profile = ProviderProfile::resolve("google", "abc", &None, &None).unwrap();
    let url = build_authorization_url(
        &profile,
        "abc",
        "http://127.0.0.1:53123/callback",
        &fixed_pkce(),
    );
    assert_eq!(
        url,
        "https://accounts.google.com/o/oauth2/v2/auth?client_id=abc&response_type=code\
         &redirect_uri=http%3A%2F%2F127.0.0.1%3A53123%2Fcallback\
         &scope=openid%20email%20profile\
         &code_challenge=E9Melhoa2OwvFrEMTJguCHaoeK1t8URWbuGJSstw-cM\
         &code_challenge_method=S256&state=stateSTATEstate0123456789abcdefgh\
         &access_type=offline&prompt=select_account"
    );
    assert!(url.contains("code_challenge_method=S256"));
    assert!(url.contains("redirect_uri=http%3A%2F%2F127.0.0.1%3A53123%2Fcallback"));
}

#[test]
fn microsoft_authorization_url_is_exact() {
    let profile = ProviderProfile::resolve("microsoft", "a b&c", &None, &None).unwrap();
    let url = build_authorization_url(
        &profile,
        "a b&c",
        "http://localhost:53123/cb?x=1",
        &fixed_pkce(),
    );
    assert_eq!(
        url,
        "https://login.microsoftonline.com/common/oauth2/v2.0/authorize?client_id=a%20b%26c\
         &response_type=code&redirect_uri=http%3A%2F%2Flocalhost%3A53123%2Fcb%3Fx%3D1\
         &response_mode=query\
         &scope=api%3A%2F%2Fa%20b%26c%2Faccess_as_user%20openid%20profile%20email%20offline_access\
         &code_challenge=E9Melhoa2OwvFrEMTJguCHaoeK1t8URWbuGJSstw-cM\
         &code_challenge_method=S256&state=stateSTATEstate0123456789abcdefgh"
    );
}

#[test]
fn values_are_encoded_byte_by_byte() {
    let mut profile = ProviderProfile::resolve("google", "x", &None, &None).unwrap();
    profile.scope = "é~-._ \u{1F600}".to_string();
    let url = build_authorization_url(&profile, "x", "y", &fixed_pkce());
    assert!(url.contains("&scope=%C3%A9~-._%20%F0%9F%98%80&"));
}

#[test]
fn request_target_is_the_second_word() {
    assert_eq!(
        request_target("GET /callback?code=XYZ&state=S HTTP/1.1\r\n"),
        some("/callback?code=XYZ&state=S")
    );
    assert_eq!(request_target("  GET\t/x  "), some("/x"));
    assert_eq!(request_target("GET /x"), some("/x"));
    assert_eq!(request_target("GET\u{3000}/x\u{a0}HTTP/1.1"), some("/x"));
}

#[test]
fn request_line_without_target_has_none() {
    assert_eq!(request_target(""), None);
    assert_eq!(request_target("GET"), None);
    assert_eq!(request_target("  GET \r\n"), None);
    assert_eq!(request_target(" \t\r\n"), None);
}

#[test]
fn callback_is_read_from_the_query() {
    let callback =
        CallbackResult::from_request_line("GET /callback?code=XYZ&state=abc123 HTTP/1.1\r\n")
            .unwrap();
    assert_eq!(
        callback,
        CallbackResult {
            authorization_code: some("XYZ"),
            returned_state: some("abc123"),
            provider_error: None,
        }
    );
}

#[test]
fn callback_values_are_decoded() {
    let callback =
        CallbackResult::from_request_line("GET /cb?code=a%2Fb+c&error=access%5Fdenied&x=1 H")
            .unwrap();
    assert_eq!(callback.authorization_code, some("a/b c"));
    assert_eq!(callback.provider_error, some("access_denied"));
    assert_eq!(callback.returned_state, None);
}

#[test]
fn callback_without_query_is_empty() {
    let callback = CallbackResult::from_request_line("GET / HTTP/1.1").unwrap();
    assert_eq!(
        callback,
        CallbackResult { authorization_code: None, returned_state: None, provider_error: None }
    );
}

#[test]
fn last_occurrence_of_a_name_counts() {
    let pairs = vec![
        ("code".to_string(), "first".to_string()),
        ("state".to_string(), "s1".to_string()),
        ("code".to_string(), "second".to_string()),
        ("Code".to_string(), "third".to_string()),
    ];
    let callback = CallbackResult::from_query(&pairs);
    assert_eq!(callback.authorization_code, some("second"));
    assert_eq!(callback.returned_state, some("s1"));
    assert_eq!(callback.provider_error, None);
}

#[test]
fn malformed_request_lines_are_refused() {
    assert_eq!(
        CallbackResult::from_request_line("GET"),
        Err(OAuthError::MalformedCallback)
    );
    assert_eq!(
        CallbackResult::from_request_line(""),
        Err(OAuthError::MalformedCallback)
    );
    assert_eq!(
        CallbackResult::from_request_line("GET :99999999/x HTTP/1.1"),
        Err(OAuthError::MalformedCallback)
    );
}

#[test]
fn response_reports_success() {
    let callback = CallbackResult {
        authorization_code: some("XYZ"),
        returned_state: some("s"),
        provider_error: None,
    };
    assert_eq!(
        callback.response(),
        "HTTP/1.1 200 OK\r\nContent-Type: text/html; charset=utf-8\r\nContent-Length: 78\r\n\
         Connection: close\r\n\r\n\
         Authentication completed. You can close this window and return to BinaryStars."
    );
}

#[test]
fn response_reports_failure() {
    let callback = CallbackResult {
        authorization_code: some("XYZ"),
        returned_state: some("s"),
        provider_error: some("access_denied"),
    };
    assert_eq!(
        callback.response(),
        "HTTP/1.1 200 OK\r\nContent-Type: text/html; charset=utf-8\r\nContent-Length: 49\r\n\
         Connection: close\r\n\r\nAuthentication failed. You can close this window."
    );
}

#[test]
fn content_length_counts_bytes() {
    assert_eq!(
        write_http_response("é"),
        "HTTP/1.1 200 OK\r\nContent-Type: text/html; charset=utf-8\r\nContent-Length: 2\r\n\
         Connection: close\r\n\r\né"
    );
    assert_eq!(
        write_http_response(""),
        "HTTP/1.1 200 OK\r\nContent-Type: text/html; charset=utf-8\r\nContent-Length: 0\r\n\
         Connection: close\r\n\r\n"
    );
}

#[test]
fn matching_state_yields_the_code() {
    let callback = CallbackResult {
        authorization_code: some("XYZ"),
        returned_state: some("abc"),
        provider_error: None,
    };
    assert_eq!(callback.authorization_code("abc"), Ok("XYZ".to_string()));
}

#[test]
fn differing_state_is_a_mismatch_even_with_code() {
    let callback = CallbackResult {
        authorization_code: some("XYZ"),
        returned_state: some("abd"),
        provider_error: None,
    };
    assert_eq!(callback.authorization_code("abc"), Err(OAuthError::StateMismatch));
}

#[test]
fn state_is_compared_without_normalization() {
    for returned in ["ABC", "abc ", " abc", "", "abc\u{0}"] {
        let callback = CallbackResult {
            authorization_code: some("XYZ"),
            returned_state: some(returned),
            provider_error: None,
        };
        assert_eq!(callback.authorization_code("abc"), Err(OAuthError::StateMismatch));
    }
}

#[test]
fn access_denied_is_reported_as_provider_error() {
    let callback = CallbackResult::from_request_line("GET /callback?error=access_denied HTTP/1.1")
        .unwrap();
    assert_eq!(callback.authorization_code, None);
    assert_eq!(callback.returned_state, None);
    assert_eq!(
        callback.authorization_code("abc"),
        Err(OAuthError::ProviderDeniedOrErrored("access_denied".to_string()))
    );
}

#[test]
fn provider_error_comes_before_the_state_check() {
    let callback = CallbackResult {
        authorization_code: some("XYZ"),
        returned_state: some("other"),
        provider_error: some("server_error"),
    };
    assert_eq!(
        callback.authorization_code("abc"),
        Err(OAuthError::ProviderDeniedOrErrored("server_error".to_string()))
    );
}

#[test]
fn missing_state_and_code_are_told_apart() {
    let callback = CallbackResult {
        authorization_code: some("XYZ"),
        returned_state: None,
        provider_error: None,
    };
    assert_eq!(callback.authorization_code("abc"), Err(OAuthError::MissingState));
    let callback = CallbackResult {
        authorization_code: None,
        returned_state: some("abc"),
        provider_error: None,
    };
    assert_eq!(
        callback.authorization_code("abc"),
        Err(OAuthError::MissingAuthorizationCode)
    );
}

#[test]
fn token_form_holds_the_six_fields_in_order() {
    let form = token_request_form("XYZ", "http://127.0.0.1:53123/callback", "abc", "ver", "s c");
    let expected: Vec<(String, String)> = [
        ("grant_type", "authorization_code"),
        ("code", "XYZ"),
        ("redirect_uri", "http://127.0.0.1:53123/callback"),
        ("client_id", "abc"),
        ("code_verifier", "ver"),
        ("scope", "s c"),
    ]
    .iter()
    .map(|(k, v)| (k.to_string(), v.to_string()))
    .collect();
    assert_eq!(form, expected);
}

fn answer(
    access_token: Option<&str>,
    id_token: Option<&str>,
    error: Option<&str>,
    error_description: Option<&str>,
) -> TokenResponse {
    TokenResponse {
        access_token: access_token.map(|s| s.to_string()),
        id_token: id_token.map(|s| s.to_string()),
        error: error.map(|s| s.to_string()),
        error_description: error_description.map(|s| s.to_string()),
    }
}

#[test]
fn google_takes_the_id_token() {
    assert_eq!(
        select_token(OAuthProvider::Google, answer(Some("acc"), Some("tok123"), None, None)),
        Ok("tok123".to_string())
    );
    assert_eq!(
        select_token(OAuthProvider::Google, answer(Some("acc"), None, None, None)),
        Err(OAuthError::MissingIdToken)
    );
}

#[test]
fn microsoft_prefers_the_access_token() {
    assert_eq!(
        select_token(OAuthProvider::Microsoft, answer(Some("acc"), Some("idt"), None, None)),
        Ok("acc".to_string())
    );
    assert_eq!(
        select_token(OAuthProvider::Microsoft, answer(None, Some("idt"), None, None)),
        Ok("idt".to_string())
    );
    assert_eq!(
        select_token(OAuthProvider::Microsoft, answer(None, None, None, Some("d"))),
        Err(OAuthError::MissingAccessOrIdToken)
    );
}

#[test]
fn rejected_exchange_carries_error_and_description() {
    assert_eq!(
        select_token(
            OAuthProvider::Google,
            answer(None, Some("tok"), Some("invalid_grant"), Some("expired"))
        ),
        Err(OAuthError::TokenExchangeRejected(
            "invalid_grant".to_string(),
            "expired".to_string()
        ))
    );
    assert_eq!(
        select_token(OAuthProvider::Microsoft, answer(Some("a"), None, Some("invalid_grant"), None)),
        Err(OAuthError::TokenExchangeRejected(
            "invalid_grant".to_string(),
            "Unknown OAuth token exchange error".to_string()
        ))
    );
}
