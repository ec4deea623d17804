//! The sign-in as a state machine. The library decides; the caller opens
//! the browser, listens and sends, and reports what happened as events.

use crate::authorize::{authorization_url, build_authorization_url};
use crate::callback::{
    callback_of_line, checked, http_response, response_body, CallbackResult, CallbackResultView,
    CALLBACK_TIMEOUT_SECS,
};
use crate::error::{OAuthError, OAuthErrorView};
use crate::pkce::{
    code_challenge_of, PkceMaterial, PkceMaterialView, STATE_LENGTH, VERIFIER_LENGTH,
};
use crate::provider::{resolved, ProviderProfile, ProviderProfileView};
use crate::redirect::{
    bind_address_of, is_loopback_host, pairs_of, url_host, url_is_valid, url_port_or_default,
    url_scheme, validated, RedirectTarget, RedirectTargetView,
};
use crate::text::{lowercase_of, text_of};
use crate::token::{
    select_token, selected_token, token_form, token_request_form, TokenResponse,
    TokenResponseView, TOKEN_REQUEST_TIMEOUT_SECS,
};
use vstd::prelude::*;
use vstd::string::*;

verus! {

/// What one sign-in keeps from its start to its end.
#[derive(Debug, Clone, PartialEq, Eq)]
pub struct FlowContext {
    /// The client that asks for the token.
    pub client_id: String,
    /// The redirect URI, as the caller gave it.
    pub redirect_uri: String,
    /// The address on which the redirect is awaited.
    pub target: RedirectTarget,
    /// The secrets of this sign-in.
    pub pkce: PkceMaterial,
    /// What the provider needs.
    pub profile: ProviderProfile,
}

/// A [`FlowContext`] by the views of its parts.
pub struct FlowContextView {
    pub client_id: Seq<char>,
    pub redirect_uri: Seq<char>,
    pub target: RedirectTargetView,
    pub pkce: PkceMaterialView,
    pub profile: ProviderProfileView,
}

impl View for FlowContext {
    type V = FlowContextView;

    open spec fn view(&self) -> FlowContextView {
        FlowContextView {
            client_id: self.client_id@,
            redirect_uri: self.redirect_uri@,
            target: self.target@,
            pkce: self.pkce@,
            profile: self.profile@,
        }
    }
}

/// Where a sign-in stands.
#[derive(Debug, Clone, PartialEq, Eq)]
pub enum FlowState {
    /// The browser is being opened; no listener exists yet.
    Launching(FlowContext),
    /// The listener is being bound.
    Binding(FlowContext),
    /// The listener is bound and waits for the one connection.
    AwaitingConnection(FlowContext),
    /// The redirect was read; the browser tab is being answered.
    Received(FlowContext, CallbackResult),
    /// The tab was answered; the code is being exchanged.
    Exchanging(FlowContext, String),
    /// The sign-in yielded this token.
    Done(String),
    /// The sign-in failed for this reason.
    Failed(OAuthError),
}

/// A [`FlowState`] by the views of its parts.
pub enum FlowStateView {
    Launching(FlowContextView),
    Binding(FlowContextView),
    AwaitingConnection(FlowContextView),
    Received(FlowContextView, CallbackResultView),
    Exchanging(FlowContextView, Seq<char>),
    Done(Seq<char>),
    Failed(OAuthErrorView),
}

impl View for FlowState {
    type V = FlowStateView;

    open spec fn view(&self) -> FlowStateView {
        match self {
            FlowState::Launching(c) => FlowStateView::Launching(c@),
            FlowState::Binding(c) => FlowStateView::Binding(c@),
            FlowState::AwaitingConnection(c) => FlowStateView::AwaitingConnection(c@),
            FlowState::Received(c, r) => FlowStateView::Received(c@, r@),
            FlowState::Exchanging(c, code) => FlowStateView::Exchanging(c@, code@),
            FlowState::Done(t) => FlowStateView::Done(t@),
            FlowState::Failed(e) => FlowStateView::Failed(e@),
        }
    }
}

/// What the caller reports back after it has done what was asked.
#[derive(Debug, Clone, PartialEq, Eq)]
pub enum FlowEvent {
    /// The browser was opened.
    BrowserOpened,
    /// The browser could not be opened.
    BrowserFailed(String),
    /// The listener is bound.
    ListenerBound,
    /// The listener could not be bound.
    BindFailed(String),
    /// A connection came and this is the first line it sent.
    RequestLine(String),
    /// No connection came, or none that could be read, in time.
    CallbackTimedOut(String),
    /// The response was written and the connection closed.
    ResponseWritten,
    /// The response could not be written.
    ResponseFailed(String),
    /// The token endpoint sent this answer.
    TokenAnswer(TokenResponse),
    /// The token request could not be sent or was not answered.
    TokenRequestFailed(String),
    /// The token endpoint's answer could not be read.
    TokenAnswerInvalid(String),
}

/// A [`FlowEvent`] by the views of its parts.
pub enum FlowEventView {
    BrowserOpened,
    BrowserFailed(Seq<char>),
    ListenerBound,
    BindFailed(Seq<char>),
    RequestLine(Seq<char>),
    CallbackTimedOut(Seq<char>),
    ResponseWritten,
    ResponseFailed(Seq<char>),
    TokenAnswer(TokenResponseView),
    TokenRequestFailed(Seq<char>),
    TokenAnswerInvalid(Seq<char>),
}

impl View for FlowEvent {
    type V = FlowEventView;

    open spec fn view(&self) -> FlowEventView {
        match self {
            FlowEvent::BrowserOpened => FlowEventView::BrowserOpened,
            FlowEvent::BrowserFailed(r) => FlowEventView::BrowserFailed(r@),
            FlowEvent::ListenerBound => FlowEventView::ListenerBound,
            FlowEvent::BindFailed(r) => FlowEventView::BindFailed(r@),
            FlowEvent::RequestLine(l) => FlowEventView::RequestLine(l@),
            FlowEvent::CallbackTimedOut(r) => FlowEventView::CallbackTimedOut(r@),
            FlowEvent::ResponseWritten => FlowEventView::ResponseWritten,
            FlowEvent::ResponseFailed(r) => FlowEventView::ResponseFailed(r@),
            FlowEvent::TokenAnswer(a) => FlowEventView::TokenAnswer(a@),
            FlowEvent::TokenRequestFailed(r) => FlowEventView::TokenRequestFailed(r@),
            FlowEvent::TokenAnswerInvalid(r) => FlowEventView::TokenAnswerInvalid(r@),
        }
    }
}

/// What the caller is asked to do next.
#[derive(Debug, Clone, PartialEq, Eq)]
pub enum FlowAction {
    /// Open this URL in the system browser.
    OpenBrowser(String),
    /// Bind a TCP listener on this address.
    Bind(String),
    /// Accept one connection and read its first line, within so many
    /// seconds.
    Accept(u64),
    /// Write this response to the connection and close it.
    Respond(String),
    /// Close the listener, then post this form to this URL, within so many
    /// seconds.
    PostToken(String, Vec<(String, String)>, u64),
    /// Close the listener if one is open, and hand this token to the
    /// caller.
    Complete(String),
    /// Close the listener if one is open, and report this failure.
    Fail(OAuthError),
}

/// A [`FlowAction`] by the views of its parts.
pub enum FlowActionView {
    OpenBrowser(Seq<char>),
    Bind(Seq<char>),
    Accept(u64),
    Respond(Seq<char>),
    PostToken(Seq<char>, Seq<(Seq<char>, Seq<char>)>, u64),
    Complete(Seq<char>),
    Fail(OAuthErrorView),
}

impl View for FlowAction {
    type V = FlowActionView;

    open spec fn view(&self) -> FlowActionView {
        match self {
            FlowAction::OpenBrowser(u) => FlowActionView::OpenBrowser(u@),
            FlowAction::Bind(a) => FlowActionView::Bind(a@),
            FlowAction::Accept(t) => FlowActionView::Accept(*t),
            FlowAction::Respond(r) => FlowActionView::Respond(r@),
            FlowAction::PostToken(u, f, t) => FlowActionView::PostToken(u@, pairs_of(f@), *t),
            FlowAction::Complete(t) => FlowActionView::Complete(t@),
            FlowAction::Fail(e) => FlowActionView::Fail(e@),
        }
    }
}

/// The state in which a sign-in starts once its redirect target and its
/// secrets are there: the browser is to be opened, unless the provider is
/// not known.
pub open spec fn launched(
    target: RedirectTargetView,
    pkce: PkceMaterialView,
    provider_lower: Seq<char>,
    provider_name: Seq<char>,
    client_id: Seq<char>,
    redirect_uri: Seq<char>,
    tenant_id: Option<Seq<char>>,
    scope: Option<Seq<char>>,
) -> FlowStateView {
    match resolved(provider_lower, provider_name, client_id, tenant_id, scope) {
        Err(e) => FlowStateView::Failed(e),
        Ok(profile) => FlowStateView::Launching(
            FlowContextView { client_id, redirect_uri, target, pkce, profile },
        ),
    }
}

/// The state that follows `state` on `event`. An event that the state does
/// not wait for leaves it as it is.
pub open spec fn advanced(state: FlowStateView, event: FlowEventView) -> FlowStateView {
    match state {
        FlowStateView::Launching(ctx) => match event {
            FlowEventView::BrowserOpened => FlowStateView::Binding(ctx),
            FlowEventView::BrowserFailed(reason) => FlowStateView::Failed(
                OAuthErrorView::BrowserLaunchFailed(reason),
            ),
            _ => state,
        },
        FlowStateView::Binding(ctx) => match event {
            FlowEventView::ListenerBound => FlowStateView::AwaitingConnection(ctx),
            FlowEventView::BindFailed(reason) => FlowStateView::Failed(
                OAuthErrorView::ListenerBindFailed(bind_address_of(ctx.target), reason),
            ),
            _ => state,
        },
        FlowStateView::AwaitingConnection(ctx) => match event {
            FlowEventView::RequestLine(line) => match callback_of_line(line) {
                Ok(callback) => FlowStateView::Received(ctx, callback),
                Err(e) => FlowStateView::Failed(e),
            },
            FlowEventView::CallbackTimedOut(reason) => FlowStateView::Failed(
                OAuthErrorView::CallbackTimedOut(reason),
            ),
            _ => state,
        },
        FlowStateView::Received(ctx, callback) => match event {
            FlowEventView::ResponseWritten => match checked(callback, ctx.pkce.state) {
                Ok(code) => FlowStateView::Exchanging(ctx, code),
                Err(e) => FlowStateView::Failed(e),
            },
            FlowEventView::ResponseFailed(reason) => FlowStateView::Failed(
                OAuthErrorView::CallbackResponseFailed(reason),
            ),
            _ => state,
        },
        FlowStateView::Exchanging(ctx, code) => match event {
            FlowEventView::TokenAnswer(answer) => match selected_token(
                ctx.profile.provider,
                answer,
            ) {
                Ok(token) => FlowStateView::Done(token),
                Err(e) => FlowStateView::Failed(e),
            },
            FlowEventView::TokenRequestFailed(reason) => FlowStateView::Failed(
                OAuthErrorView::TokenRequestFailed(reason),
            ),
            FlowEventView::TokenAnswerInvalid(reason) => FlowStateView::Failed(
                OAuthErrorView::InvalidTokenResponse(reason),
            ),
            _ => state,
        },
        FlowStateView::Done(_) => state,
        FlowStateView::Failed(_) => state,
    }
}

/// What `state` asks the caller to do.
pub open spec fn action_of(state: FlowStateView) -> FlowActionView {
    match state {
        FlowStateView::Launching(ctx) => FlowActionView::OpenBrowser(
            authorization_url(
                ctx.profile,
                ctx.client_id,
                ctx.redirect_uri,
                ctx.pkce.code_challenge,
                ctx.pkce.state,
            ),
        ),
        FlowStateView::Binding(ctx) => FlowActionView::Bind(bind_address_of(ctx.target)),
        FlowStateView::AwaitingConnection(_) => FlowActionView::Accept(CALLBACK_TIMEOUT_SECS),
        FlowStateView::Received(_, callback) => FlowActionView::Respond(
            http_response(response_body(callback.provider_error is Some)),
        ),
        FlowStateView::Exchanging(ctx, code) => FlowActionView::PostToken(
            ctx.profile.token_endpoint,
            token_form(
                code,
                ctx.redirect_uri,
                ctx.client_id,
                ctx.pkce.code_verifier,
                ctx.profile.scope,
            ),
            TOKEN_REQUEST_TIMEOUT_SECS,
        ),
        FlowStateView::Done(token) => FlowActionView::Complete(token),
        FlowStateView::Failed(e) => FlowActionView::Fail(e),
    }
}

impl FlowContextView {
    /// The listener is a local one, and the challenge is the one that
    /// belongs to the verifier.
    pub open spec fn well_formed(self) -> bool {
        &&& is_loopback_host(self.target.host)
        &&& self.pkce.code_challenge == code_challenge_of(self.pkce.code_verifier)
    }
}

impl FlowStateView {
    /// What the flow keeps, while it runs.
    pub open spec fn context(self) -> Option<FlowContextView> {
        match self {
            FlowStateView::Launching(ctx) => Some(ctx),
            FlowStateView::Binding(ctx) => Some(ctx),
            FlowStateView::AwaitingConnection(ctx) => Some(ctx),
            FlowStateView::Received(ctx, _) => Some(ctx),
            FlowStateView::Exchanging(ctx, _) => Some(ctx),
            FlowStateView::Done(_) => None,
            FlowStateView::Failed(_) => None,
        }
    }

    /// What a running flow keeps is well formed.
    pub open spec fn well_formed(self) -> bool {
        self.context() matches Some(ctx) ==> ctx.well_formed()
    }

    /// Whether the flow has ended.
    pub open spec fn is_terminal(self) -> bool {
        self is Done || self is Failed
    }

    /// Whether the caller holds a bound listener in this state.
    pub open spec fn holds_listener(self) -> bool {
        self is AwaitingConnection || self is Received
    }
}

impl FlowState {
    /// Starts a sign-in whose redirect target and secrets are there.
    pub fn launch(
        target: RedirectTarget,
        pkce: PkceMaterial,
        provider: &str,
        client_id: &str,
        redirect_uri: &str,
        tenant_id: &Option<String>,
        scope: &Option<String>,
    ) -> (state: FlowState)
        ensures
            state@ == launched(
                target@,
                pkce@,
                lowercase_of(provider@),
                provider@,
                client_id@,
                redirect_uri@,
                text_of(*tenant_id),
                text_of(*scope),
            ),
            target.well_formed() && pkce.well_formed() ==> state@.well_formed(),
    {
        match ProviderProfile::resolve(provider, client_id, tenant_id, scope) {
            Err(e) => FlowState::Failed(e),
            Ok(profile) => FlowState::Launching(
                FlowContext {
                    client_id: client_id.to_owned(),
                    redirect_uri: redirect_uri.to_owned(),
                    target,
                    pkce,
                    profile,
                },
            ),
        }
    }

    /// Starts a sign-in: validates the redirect URI, draws the secrets and
    /// resolves the provider, in this order. The first failure is the
    /// state; otherwise the browser is to be opened, with secrets that are
    /// freshly drawn.
    pub fn start(
        provider: &str,
        client_id: &str,
        redirect_uri: &str,
        tenant_id: &Option<String>,
        scope: &Option<String>,
    ) -> (state: FlowState)
        ensures
            state@.well_formed(),
            !url_is_valid(redirect_uri@) ==> state matches FlowState::Failed(
                OAuthError::InvalidUri(_),
            ),
            url_is_valid(redirect_uri@) ==> match validated(
                url_scheme(redirect_uri@),
                url_host(redirect_uri@),
                url_port_or_default(redirect_uri@),
            ) {
                Err(e) => state@ == FlowStateView::Failed(e),
                Ok(target) => match state {
                    FlowState::Launching(ctx) => {
                        &&& ctx.pkce.well_formed()
                        &&& ctx.pkce.is_strong()
                        &&& ctx.pkce.state@.len() == STATE_LENGTH
                        &&& ctx.pkce.code_verifier@.len() == VERIFIER_LENGTH
                        &&& state@ == launched(
                            target,
                            ctx.pkce@,
                            lowercase_of(provider@),
                            provider@,
                            client_id@,
                            redirect_uri@,
                            text_of(*tenant_id),
                            text_of(*scope),
                        )
                    },
                    _ => resolved(
                        lowercase_of(provider@),
                        provider@,
                        client_id@,
                        text_of(*tenant_id),
                        text_of(*scope),
                    ) is Err && state@ == FlowStateView::Failed(
                        resolved(
                            lowercase_of(provider@),
                            provider@,
                            client_id@,
                            text_of(*tenant_id),
                            text_of(*scope),
                        )->Err_0,
                    ),
                },
            },
    {
        match RedirectTarget::validate(redirect_uri) {
            Err(e) => FlowState::Failed(e),
            Ok(target) => {
                let pkce = PkceMaterial::generate();
                FlowState::launch(
                    target,
                    pkce,
                    provider,
                    client_id,
                    redirect_uri,
                    tenant_id,
                    scope,
                )
            },
        }
    }

    /// The state that follows on `event`.
    pub fn advance(self, event: FlowEvent) -> (next: FlowState)
        ensures
            next@ == advanced(self@, event@),
    {
        match self {
            FlowState::Launching(ctx) => match event {
                FlowEvent::BrowserOpened => FlowState::Binding(ctx),
                FlowEvent::BrowserFailed(reason) => FlowState::Failed(
                    OAuthError::BrowserLaunchFailed(reason),
                ),
                _ => FlowState::Launching(ctx),
            },
            FlowState::Binding(ctx) => match event {
                FlowEvent::ListenerBound => FlowState::AwaitingConnection(ctx),
                FlowEvent::BindFailed(reason) => FlowState::Failed(
                    OAuthError::ListenerBindFailed(ctx.target.bind_address(), reason),
                ),
                _ => FlowState::Binding(ctx),
            },
            FlowState::AwaitingConnection(ctx) => match event {
                FlowEvent::RequestLine(line) => match CallbackResult::from_request_line(
                    line.as_str(),
                ) {
                    Ok(callback) => FlowState::Received(ctx, callback),
                    Err(e) => FlowState::Failed(e),
                },
                FlowEvent::CallbackTimedOut(reason) => FlowState::Failed(
                    OAuthError::CallbackTimedOut(reason),
                ),
                _ => FlowState::AwaitingConnection(ctx),
            },
            FlowState::Received(ctx, callback) => match event {
                FlowEvent::ResponseWritten => match callback.authorization_code(
                    ctx.pkce.state.as_str(),
                ) {
                    Ok(code) => FlowState::Exchanging(ctx, code),
                    Err(e) => FlowState::Failed(e),
                },
                FlowEvent::ResponseFailed(reason) => FlowState::Failed(
                    OAuthError::CallbackResponseFailed(reason),
                ),
                _ => FlowState::Received(ctx, callback),
            },
            FlowState::Exchanging(ctx, code) => match event {
                FlowEvent::TokenAnswer(answer) => match select_token(ctx.profile.provider, answer) {
                    Ok(token) => FlowState::Done(token),
                    Err(e) => FlowState::Failed(e),
                },
                FlowEvent::TokenRequestFailed(reason) => FlowState::Failed(
                    OAuthError::TokenRequestFailed(reason),
                ),
                FlowEvent::TokenAnswerInvalid(reason) => FlowState::Failed(
                    OAuthError::InvalidTokenResponse(reason),
                ),
                _ => FlowState::Exchanging(ctx, code),
            },
            FlowState::Done(token) => FlowState::Done(token),
            FlowState::Failed(e) => FlowState::Failed(e),
        }
    }

    /// What the caller is to do in this state.
    pub fn action(&self) -> (action: FlowAction)
        ensures
            action@ == action_of(self@),
    {
        match self {
            FlowState::Launching(ctx) => FlowAction::OpenBrowser(
                build_authorization_url(
                    &ctx.profile,
                    ctx.client_id.as_str(),
                    ctx.redirect_uri.as_str(),
                    &ctx.pkce,
                ),
            ),
            FlowState::Binding(ctx) => FlowAction::Bind(ctx.target.bind_address()),
            FlowState::AwaitingConnection(_) => FlowAction::Accept(CALLBACK_TIMEOUT_SECS),
            FlowState::Received(_, callback) => FlowAction::Respond(callback.response()),
            FlowState::Exchanging(ctx, code) => FlowAction::PostToken(
                ctx.profile.token_endpoint.clone(),
                token_request_form(
                    code.as_str(),
                    ctx.redirect_uri.as_str(),
                    ctx.client_id.as_str(),
                    ctx.pkce.code_verifier.as_str(),
                    ctx.profile.scope.as_str(),
                ),
                TOKEN_REQUEST_TIMEOUT_SECS,
            ),
            FlowState::Done(token) => FlowAction::Complete(token.clone()),
            FlowState::Failed(e) => FlowAction::Fail(e.duplicate()),
        }
    }

    /// Whether the flow has ended.
    pub fn is_terminal(&self) -> (b: bool)
        ensures
            b == self@.is_terminal(),
    {
        match self {
            FlowState::Done(_) => true,
            FlowState::Failed(_) => true,
            _ => false,
        }
    }
}

/// A flow that has ended stays as it is: no event turns a failure into a
/// token, or a token into anything else.
pub proof fn ended_flow_stays(state: FlowStateView, event: FlowEventView)
    requires
        state.is_terminal(),
    ensures
        advanced(state, event) == state,
{
}

/// A flow that has ended holds no listener, and what it asks for is to
/// hand over its one token or its one failure.
pub proof fn ended_flow_holds_no_listener(state: FlowStateView)
    requires
        state.is_terminal(),
    ensures
        !state.holds_listener(),
        action_of(state) is Complete || action_of(state) is Fail,
        action_of(state) is Complete <==> state is Done,
{
}

/// While a flow runs, no step changes what it keeps: the secrets with
/// which it ends are those with which it began.
pub proof fn step_keeps_context(state: FlowStateView, event: FlowEventView)
    requires
        advanced(state, event).context() is Some,
    ensures
        advanced(state, event).context() == state.context(),
{
}

/// No step takes a flow out of the well-formed states.
pub proof fn step_keeps_well_formed(state: FlowStateView, event: FlowEventView)
    requires
        state.well_formed(),
    ensures
        advanced(state, event).well_formed(),
{
}

/// In a well-formed flow the verifier that the token request carries is
/// the one whose challenge the authorization URL carried.
pub proof fn verifier_answers_the_challenge(ctx: FlowContextView, code: Seq<char>)
    requires
        ctx.well_formed(),
    ensures
        action_of(FlowStateView::Launching(ctx)) == FlowActionView::OpenBrowser(
            authorization_url(
                ctx.profile,
                ctx.client_id,
                ctx.redirect_uri,
                code_challenge_of(ctx.pkce.code_verifier),
                ctx.pkce.state,
            ),
        ),
        action_of(FlowStateView::Exchanging(ctx, code)) matches FlowActionView::PostToken(
            _,
            form,
            _,
        ) && form[4] == ("code_verifier"@, ctx.pkce.code_verifier),
{
}

/// A token comes from the token endpoint's answer and from nowhere else.
pub proof fn token_comes_from_exchange(state: FlowStateView, event: FlowEventView)
    requires
        !(state is Done),
        advanced(state, event) is Done,
    ensures
        state is Exchanging,
        event is TokenAnswer,
{
}

/// Where the browser cannot be opened the flow fails before a listener is
/// asked for.
pub proof fn browser_failure_ends_before_bind(ctx: FlowContextView, reason: Seq<char>)
    ensures
        !FlowStateView::Launching(ctx).holds_listener(),
        advanced(FlowStateView::Launching(ctx), FlowEventView::BrowserFailed(reason))
            == FlowStateView::Failed(OAuthErrorView::BrowserLaunchFailed(reason)),
{
}

/// Where no redirect arrives in time the flow fails as timed out, and the
/// failed flow holds no listener: the caller is asked to close it.
pub proof fn expired_wait_fails_the_flow(ctx: FlowContextView, reason: Seq<char>)
    ensures
        advanced(FlowStateView::AwaitingConnection(ctx), FlowEventView::CallbackTimedOut(reason))
            == FlowStateView::Failed(OAuthErrorView::CallbackTimedOut(reason)),
        !advanced(
            FlowStateView::AwaitingConnection(ctx),
            FlowEventView::CallbackTimedOut(reason),
        ).holds_listener(),
        action_of(
            advanced(
                FlowStateView::AwaitingConnection(ctx),
                FlowEventView::CallbackTimedOut(reason),
            ),
        ) == FlowActionView::Fail(OAuthErrorView::CallbackTimedOut(reason)),
{
}

/// A redirect whose state differs from the one that this flow sent fails
/// the flow as a mismatch, with or without a code, unless the provider
/// reported an error.
pub proof fn mismatched_state_fails_the_flow(ctx: FlowContextView, callback: CallbackResultView)
    requires
        callback.provider_error is None,
        callback.returned_state is Some,
        callback.returned_state->0 != ctx.pkce.state,
    ensures
        advanced(FlowStateView::Received(ctx, callback), FlowEventView::ResponseWritten)
            == FlowStateView::Failed(OAuthErrorView::StateMismatch),
{
}

/// A redirect in which the provider reports an error fails the flow with
/// that error, whatever else it brings.
pub proof fn provider_error_fails_the_flow(ctx: FlowContextView, callback: CallbackResultView)
    requires
        callback.provider_error is Some,
    ensures
        advanced(FlowStateView::Received(ctx, callback), FlowEventView::ResponseWritten)
            == FlowStateView::Failed(
            OAuthErrorView::ProviderDeniedOrErrored(callback.provider_error->0),
        ),
{
}

/// The token request carries the verifier that the flow holds, which is
/// the one whose challenge went out with the authorization URL.
pub proof fn exchange_sends_original_verifier(ctx: FlowContextView, code: Seq<char>)
    ensures
        action_of(FlowStateView::Exchanging(ctx, code)) matches FlowActionView::PostToken(
            url,
            form,
            _,
        ) && url == ctx.profile.token_endpoint && form[1] == ("code"@, code) && form[4] == (
            "code_verifier"@,
            ctx.pkce.code_verifier,
        ),
{
}

} // verus!
