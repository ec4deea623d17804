//! The redirect URI: reading it, and holding it to a loopback address that
//! a listener can bind.

use crate::error::{joined, outcome, OAuthError, OAuthErrorView};
use crate::text::{decimal_digits, decimal_string, str_eq, text_of};
use vstd::prelude::*;
use vstd::string::*;

verus! {

/// The error of the `url` crate's parser. Nothing is read of it here: it is
/// carried from the parser to the function that writes it as text.
#[verifier::external_type_specification]
#[verifier::external_body]
pub struct ExParseError(url::ParseError);

/// What the logic reads of a parsed URL.
#[derive(Debug, Clone, PartialEq, Eq)]
pub struct UrlParts {
    /// The scheme, in lower case, without the colon.
    pub scheme: String,
    /// The host as written in the URL, if it has one.
    pub host: Option<String>,
    /// The port: the one written, or else the scheme's default.
    pub port: Option<u16>,
    /// The name and value pairs of the query, decoded, in order.
    pub query: Vec<(String, String)>,
}

/// Names and values by their characters.
pub open spec fn pairs_of(query: Seq<(String, String)>) -> Seq<(Seq<char>, Seq<char>)> {
    query.map_values(|p: (String, String)| (p.0@, p.1@))
}

/// Whether the `url` crate accepts `input` as an absolute URL.
pub uninterp spec fn url_is_valid(input: Seq<char>) -> bool;

/// The scheme of the URL that `input` parses to.
pub uninterp spec fn url_scheme(input: Seq<char>) -> Seq<char>;

/// The host of the URL that `input` parses to.
pub uninterp spec fn url_host(input: Seq<char>) -> Option<Seq<char>>;

/// The port that the URL has to which `input` parses: the one written, or
/// else its scheme's default.
pub uninterp spec fn url_port_or_default(input: Seq<char>) -> Option<u16>;

/// The decoded query pairs of the URL that `input` parses to.
pub uninterp spec fn url_query_pairs(input: Seq<char>) -> Seq<(Seq<char>, Seq<char>)>;

/// Calls `Url::parse` of the `url` crate and, where it succeeds, reads the
/// result with `scheme`, `host_str`, `port_or_known_default` and
/// `query_pairs`. Each part is what that method returns for this input;
/// a failure is the parser's own error.
#[verifier::external_body]
pub(crate) fn parse_url(input: &str) -> (r: Result<UrlParts, url::ParseError>)
    ensures
        r is Ok <==> url_is_valid(input@),
        r matches Ok(parts) ==> {
            &&& parts.scheme@ == url_scheme(input@)
            &&& text_of(parts.host) == url_host(input@)
            &&& parts.port == url_port_or_default(input@)
            &&& pairs_of(parts.query@) == url_query_pairs(input@)
        },
{
    match url::Url::parse(input) {
        Ok(u) => Ok(
            UrlParts {
                scheme: u.scheme().to_string(),
                host: u.host_str().map(|h| h.to_string()),
                port: u.port_or_known_default(),
                query: u.query_pairs().into_owned().collect(),
            },
        ),
        Err(e) => Err(e),
    }
}

/// Writes the parser's error as text, through its `Display`.
#[verifier::external_body]
pub(crate) fn parse_error_reason(e: &url::ParseError) -> (reason: String) {
    e.to_string()
}

/// The address on which the redirect is awaited. The scheme is `http`.
#[derive(Debug, Clone, PartialEq, Eq)]
pub struct RedirectTarget {
    /// `127.0.0.1` or `localhost`.
    pub host: String,
    /// The port to listen on.
    pub port: u16,
}

/// A [`RedirectTarget`] with its host as a character sequence.
pub struct RedirectTargetView {
    pub host: Seq<char>,
    pub port: u16,
}

impl View for RedirectTarget {
    type V = RedirectTargetView;

    open spec fn view(&self) -> RedirectTargetView {
        RedirectTargetView { host: self.host@, port: self.port }
    }
}

/// Whether `host` names the local machine.
pub open spec fn is_loopback_host(host: Seq<char>) -> bool {
    host == "127.0.0.1"@ || host == "localhost"@
}

/// The target that the parts of a redirect URI give, or the first rule
/// that they break: the scheme is `http`, there is a host, the host is a
/// loopback host, there is a port.
pub open spec fn validated(scheme: Seq<char>, host: Option<Seq<char>>, port: Option<u16>) -> Result<
    RedirectTargetView,
    OAuthErrorView,
> {
    if scheme != "http"@ {
        Err(OAuthErrorView::UnsupportedScheme)
    } else {
        match host {
            None => Err(OAuthErrorView::MissingHost),
            Some(h) => if !is_loopback_host(h) {
                Err(OAuthErrorView::DisallowedHost)
            } else {
                match port {
                    None => Err(OAuthErrorView::MissingPort),
                    Some(p) => Ok(RedirectTargetView { host: h, port: p }),
                }
            },
        }
    }
}

/// The text `host:port`.
pub open spec fn bind_address_of(target: RedirectTargetView) -> Seq<char> {
    target.host + ":"@ + decimal_digits(target.port as nat)
}

impl RedirectTarget {
    /// The address is one that a local listener may bind.
    pub open spec fn well_formed(&self) -> bool {
        is_loopback_host(self.host@)
    }

    /// Holds the parts of a parsed redirect URI to the rules for a
    /// loopback redirect.
    pub fn from_parts(parts: &UrlParts) -> (r: Result<RedirectTarget, OAuthError>)
        ensures
            outcome(r) == validated(parts.scheme@, text_of(parts.host), parts.port),
            r matches Ok(target) ==> target.well_formed(),
    {
        if !str_eq(parts.scheme.as_str(), "http") {
            return Err(OAuthError::UnsupportedScheme);
        }
        let host = match &parts.host {
            None => {
                return Err(OAuthError::MissingHost);
            },
            Some(h) => h,
        };
        if !str_eq(host.as_str(), "127.0.0.1") && !str_eq(host.as_str(), "localhost") {
            return Err(OAuthError::DisallowedHost);
        }
        match parts.port {
            None => Err(OAuthError::MissingPort),
            Some(port) => Ok(RedirectTarget { host: host.clone(), port }),
        }
    }

    /// Parses and validates the caller's redirect URI. A text that is no
    /// URL is reported with the parser's reason; a URL is held to the
    /// rules of [`validated`].
    pub fn validate(redirect_uri: &str) -> (r: Result<RedirectTarget, OAuthError>)
        ensures
            !url_is_valid(redirect_uri@) ==> r matches Err(OAuthError::InvalidUri(_)),
            url_is_valid(redirect_uri@) ==> outcome(r) == validated(
                url_scheme(redirect_uri@),
                url_host(redirect_uri@),
                url_port_or_default(redirect_uri@),
            ),
            r matches Ok(target) ==> target.well_formed(),
    {
        match parse_url(redirect_uri) {
            Err(e) => Err(OAuthError::InvalidUri(parse_error_reason(&e))),
            Ok(parts) => RedirectTarget::from_parts(&parts),
        }
    }

    /// The address to bind: the host, a colon and the port in decimal.
    pub fn bind_address(&self) -> (address: String)
        ensures
            address@ == bind_address_of(self@),
    {
        let mut address = joined(self.host.as_str(), ":");
        let port = decimal_string(self.port as u64);
        address.append(port.as_str());
        address
    }
}

/// Every `http` redirect to a loopback host with a port is accepted, and
/// the address to bind is that host and that port.
pub proof fn loopback_redirect_is_accepted(host: Seq<char>, port: u16)
    requires
        is_loopback_host(host),
    ensures
        validated("http"@, Some(host), Some(port)) == Ok::<RedirectTargetView, OAuthErrorView>(
            RedirectTargetView { host, port },
        ),
        bind_address_of(RedirectTargetView { host, port }) == host + ":"@ + decimal_digits(
            port as nat,
        ),
{
}

/// Every other redirect is refused, for the first rule that it breaks.
pub proof fn other_redirect_is_refused(
    scheme: Seq<char>,
    host: Option<Seq<char>>,
    port: Option<u16>,
)
    ensures
        validated(scheme, host, port) is Ok <==> (scheme == "http"@ && host is Some
            && is_loopback_host(host->0) && port is Some),
        scheme != "http"@ ==> validated(scheme, host, port) == Err::<
            RedirectTargetView,
            OAuthErrorView,
        >(OAuthErrorView::UnsupportedScheme),
        scheme == "http"@ && host is None ==> validated(scheme, host, port) == Err::<
            RedirectTargetView,
            OAuthErrorView,
        >(OAuthErrorView::MissingHost),
        scheme == "http"@ && host is Some && !is_loopback_host(host->0) ==> validated(
            scheme,
            host,
            port,
        ) == Err::<RedirectTargetView, OAuthErrorView>(OAuthErrorView::DisallowedHost),
        scheme == "http"@ && host is Some && is_loopback_host(host->0) && port is None
            ==> validated(scheme, host, port) == Err::<RedirectTargetView, OAuthErrorView>(
            OAuthErrorView::MissingPort,
        ),
{
}

} // verus!
