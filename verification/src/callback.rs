//! The redirect that the provider sends the browser to: reading its request
//! line, answering the browser tab, and checking what it brought.

use crate::error::{joined, outcome, OAuthError, OAuthErrorView};
use crate::redirect::{pairs_of, parse_url, url_is_valid, url_query_pairs};
use crate::text::{
    after_leading_word, chars_of, decimal_digits, decimal_string, leading_word, skip_whitespace,
    skip_word, str_eq, text_of, trim_start,
};
use vstd::prelude::*;
use vstd::string::*;
use vstd::utf8::encode_utf8;

verus! {

/// The seconds for which the redirect is awaited.
pub const CALLBACK_TIMEOUT_SECS: u64 = 180;

/// What the redirect brought in its query.
#[derive(Debug, Clone, PartialEq, Eq)]
pub struct CallbackResult {
    /// The value of `code`.
    pub authorization_code: Option<String>,
    /// The value of `state`.
    pub returned_state: Option<String>,
    /// The value of `error`.
    pub provider_error: Option<String>,
}

/// A [`CallbackResult`] with its texts as character sequences.
pub struct CallbackResultView {
    pub authorization_code: Option<Seq<char>>,
    pub returned_state: Option<Seq<char>>,
    pub provider_error: Option<Seq<char>>,
}

impl View for CallbackResult {
    type V = CallbackResultView;

    open spec fn view(&self) -> CallbackResultView {
        CallbackResultView {
            authorization_code: text_of(self.authorization_code),
            returned_state: text_of(self.returned_state),
            provider_error: text_of(self.provider_error),
        }
    }
}

/// The request target of an HTTP request line: its second run of
/// characters that are not white space, if it has two.
pub open spec fn request_target_of(line: Seq<char>) -> Option<Seq<char>> {
    let rest = trim_start(after_leading_word(trim_start(line)));
    if leading_word(rest).len() == 0 {
        None
    } else {
        Some(leading_word(rest))
    }
}

/// Reads the request target from a request line. Only the line's first two
/// words are looked at.
pub fn request_target(line: &str) -> (target: Option<String>)
    ensures
        text_of(target) == request_target_of(line@),
{
    let chars = chars_of(line);
    let method_start: usize = skip_whitespace(&chars, 0);
    let method_end: usize = skip_word(&chars, method_start);
    let target_start: usize = skip_whitespace(&chars, method_end);
    let target_end: usize = skip_word(&chars, target_start);
    proof {
        assert(chars@.skip(0) =~= chars@);
    }
    if target_end == target_start {
        None
    } else {
        Some(line.substring_char(target_start, target_end).to_owned())
    }
}

/// The value of the last pair of `pairs` that is named `key`.
pub open spec fn last_value(pairs: Seq<(Seq<char>, Seq<char>)>, key: Seq<char>) -> Option<
    Seq<char>,
>
    decreases pairs.len(),
{
    if pairs.len() == 0 {
        None
    } else if pairs.last().0 == key {
        Some(pairs.last().1)
    } else {
        last_value(pairs.drop_last(), key)
    }
}

/// What a query brings: for each of `code`, `state` and `error` the value
/// of its last occurrence.
pub open spec fn callback_of(pairs: Seq<(Seq<char>, Seq<char>)>) -> CallbackResultView {
    CallbackResultView {
        authorization_code: last_value(pairs, "code"@),
        returned_state: last_value(pairs, "state"@),
        provider_error: last_value(pairs, "error"@),
    }
}

/// What a request line brings: nothing without a request target or with
/// one that, behind `http://localhost`, is no URL; else what its query
/// holds.
pub open spec fn callback_of_line(line: Seq<char>) -> Result<CallbackResultView, OAuthErrorView> {
    match request_target_of(line) {
        None => Err(OAuthErrorView::MalformedCallback),
        Some(target) => if url_is_valid("http://localhost"@ + target) {
            Ok(callback_of(url_query_pairs("http://localhost"@ + target)))
        } else {
            Err(OAuthErrorView::MalformedCallback)
        },
    }
}

/// The text shown in the browser tab.
pub open spec fn response_body(failed: bool) -> Seq<char> {
    if failed {
        "Authentication failed. You can close this window."@
    } else {
        "Authentication completed. You can close this window and return to BinaryStars."@
    }
}

/// The HTTP response that carries `body`: status 200, the content type,
/// the length of the body in bytes, and the request to close.
pub open spec fn http_response(body: Seq<char>) -> Seq<char> {
    "HTTP/1.1 200 OK\r\nContent-Type: text/html; charset=utf-8\r\nContent-Length: "@
        + decimal_digits(encode_utf8(body).len()) + "\r\nConnection: close\r\n\r\n"@ + body
}

/// What checking a callback against the state that was sent yields: the
/// provider's error first, then a missing state, then a state that differs,
/// then a missing code; else the code.
pub open spec fn checked(callback: CallbackResultView, expected_state: Seq<char>) -> Result<
    Seq<char>,
    OAuthErrorView,
> {
    match callback.provider_error {
        Some(error) => Err(OAuthErrorView::ProviderDeniedOrErrored(error)),
        None => match callback.returned_state {
            None => Err(OAuthErrorView::MissingState),
            Some(state) => if state != expected_state {
                Err(OAuthErrorView::StateMismatch)
            } else {
                match callback.authorization_code {
                    None => Err(OAuthErrorView::MissingAuthorizationCode),
                    Some(code) => Ok(code),
                }
            },
        },
    }
}

/// Writes the HTTP response that carries `body`.
pub fn write_http_response(body: &str) -> (response: String)
    ensures
        response@ == http_response(body@),
{
    let length: usize = body.as_bytes().len();
    let mut response = joined(
        "HTTP/1.1 200 OK\r\nContent-Type: text/html; charset=utf-8\r\nContent-Length: ",
        decimal_string(length as u64).as_str(),
    );
    response.append("\r\nConnection: close\r\n\r\n");
    response.append(body);
    response
}

impl CallbackResult {
    /// Collects `code`, `state` and `error` from the decoded pairs of a
    /// query. Where a name occurs more than once, its last value counts.
    pub fn from_query(pairs: &Vec<(String, String)>) -> (callback: CallbackResult)
        ensures
            callback@ == callback_of(pairs_of(pairs@)),
    {
        let mut callback = CallbackResult {
            authorization_code: None,
            returned_state: None,
            provider_error: None,
        };
        let mut i: usize = 0;
        proof {
            assert(pairs_of(pairs@).take(0) =~= Seq::empty());
        }
        while i < pairs.len()
            invariant
                i <= pairs.len(),
                callback@ == callback_of(pairs_of(pairs@).take(i as int)),
            decreases pairs.len() - i,
        {
            let name = pairs[i].0.as_str();
            proof {
                let seen = pairs_of(pairs@).take(i + 1);
                assert(seen.drop_last() =~= pairs_of(pairs@).take(i as int));
                assert(seen.last() == (pairs@[i as int].0@, pairs@[i as int].1@));
            }
            if str_eq(name, "code") {
                callback.authorization_code = Some(pairs[i].1.clone());
            }
            if str_eq(name, "state") {
                callback.returned_state = Some(pairs[i].1.clone());
            }
            if str_eq(name, "error") {
                callback.provider_error = Some(pairs[i].1.clone());
            }
            i += 1;
        }
        proof {
            assert(pairs_of(pairs@).take(i as int) =~= pairs_of(pairs@));
        }
        callback
    }

    /// Reads the callback from the request line of the redirect. The
    /// target is parsed as a URL on a fixed host: only its path and query
    /// matter.
    pub fn from_request_line(line: &str) -> (r: Result<CallbackResult, OAuthError>)
        ensures
            outcome(r) == callback_of_line(line@),
    {
        let target = match request_target(line) {
            None => {
                return Err(OAuthError::MalformedCallback);
            },
            Some(t) => t,
        };
        let url = joined("http://localhost", target.as_str());
        match parse_url(url.as_str()) {
            Err(_) => Err(OAuthError::MalformedCallback),
            Ok(parts) => Ok(CallbackResult::from_query(&parts.query)),
        }
    }

    /// The HTTP response for the browser tab: one text where the provider
    /// reported an error, another where it did not.
    pub fn response(&self) -> (response: String)
        ensures
            response@ == http_response(response_body(self@.provider_error is Some)),
    {
        if self.provider_error.is_some() {
            write_http_response("Authentication failed. You can close this window.")
        } else {
            write_http_response(
                "Authentication completed. You can close this window and return to BinaryStars.",
            )
        }
    }

    /// Checks the callback against the state that was sent and yields the
    /// authorization code. The states are compared character for character.
    pub fn authorization_code(self, expected_state: &str) -> (r: Result<String, OAuthError>)
        ensures
            outcome(r) == checked(self@, expected_state@),
    {
        if let Some(error) = self.provider_error {
            return Err(OAuthError::ProviderDeniedOrErrored(error));
        }
        let state = match self.returned_state {
            None => {
                return Err(OAuthError::MissingState);
            },
            Some(s) => s,
        };
        if !str_eq(state.as_str(), expected_state) {
            return Err(OAuthError::StateMismatch);
        }
        match self.authorization_code {
            None => Err(OAuthError::MissingAuthorizationCode),
            Some(code) => Ok(code),
        }
    }
}

/// A callback whose state differs from the one that was sent is refused as
/// a mismatch whether or not it brings a code, unless the provider reported
/// an error, which is reported first.
pub proof fn state_mismatch_is_refused(callback: CallbackResultView, expected_state: Seq<char>)
    requires
        callback.provider_error is None,
        callback.returned_state is Some,
        callback.returned_state->0 != expected_state,
    ensures
        checked(callback, expected_state) == Err::<Seq<char>, OAuthErrorView>(
            OAuthErrorView::StateMismatch,
        ),
{
}

/// An error that the provider reports is what the check yields, with or
/// without a code or a state beside it.
pub proof fn provider_error_is_reported_first(
    callback: CallbackResultView,
    expected_state: Seq<char>,
)
    requires
        callback.provider_error is Some,
    ensures
        checked(callback, expected_state) == Err::<Seq<char>, OAuthErrorView>(
            OAuthErrorView::ProviderDeniedOrErrored(callback.provider_error->0),
        ),
{
}

/// The check yields a code only where the callback brought back exactly
/// the state that was sent.
pub proof fn code_requires_matching_state(callback: CallbackResultView, expected_state: Seq<char>)
    requires
        checked(callback, expected_state) is Ok,
    ensures
        callback.returned_state == Some(expected_state),
        callback.provider_error is None,
        callback.authorization_code == Some(checked(callback, expected_state)->Ok_0),
{
}

} // verus!
