//! The authorization flow, as an explicit state machine.
//!
//! Obtaining the first token walks `Idle → ListenerStarted →
//! BrowserOpened → CodeReceived → TokenExchanged → Done`, with a terminal
//! `Failed` state reachable from every state before `Done`. The machine
//! decides; the binary performs each requested action — bind the
//! listener, open the browser, send the exchange POST — and reports its
//! outcome back as an event. The wait for the redirect is bounded: when
//! it runs out the attempt fails and the listener is torn down, instead
//! of blocking forever. The listener is always bound before the
//! browser opens: the machine only ever asks for the browser once the
//! bind has been confirmed, so the redirect can never arrive unheard.

use vstd::prelude::*;

use crate::auth::{
    consent_url, is_exchange_request, spec_consent_url, token_exchange_request, AuthConfig,
    SpotifyAccessToken, TokenRequest,
};
use crate::errors::AuthError;

verus! {

/// Where an authorization attempt stands.
#[derive(Debug)]
pub enum FlowState {
    /// Nothing has happened yet.
    Idle,
    /// The redirect listener holds the loopback port.
    ListenerStarted,
    /// The consent page is open in the user's browser; the flow waits for
    /// the redirect.
    BrowserOpened,
    /// The redirect delivered an authorization code.
    CodeReceived { code: String },
    /// The token endpoint exchanged the code for a token record, not yet
    /// handed to the caller.
    TokenExchanged { token: SpotifyAccessToken },
    /// The token has been handed to the caller.
    Done,
    /// The attempt failed; the error is surfaced, never retried silently.
    Failed { error: AuthError },
}

/// What the binary reports back after performing an action.
#[derive(Debug)]
pub enum FlowEvent {
    /// The listener bound its port and accepts connections.
    ListenerBound,
    /// The port could not be bound (for instance, another instance holds
    /// it).
    ListenerBindFailed,
    /// The consent URL is open in the user's browser.
    BrowserLaunched,
    /// The browser could not be opened.
    BrowserLaunchFailed,
    /// The redirect arrived with this authorization code.
    CodeDelivered { code: String },
    /// The bounded wait for the redirect ran out before any code
    /// arrived.
    WaitTimedOut,
    /// The token endpoint answered 2xx and the body decoded.
    ExchangeSucceeded { token: SpotifyAccessToken },
    /// The exchange failed: transport, non-2xx status, or a body that
    /// did not decode.
    ExchangeFailed { error: AuthError },
}

/// What the binary must do next on the machine's behalf.
#[derive(Debug)]
pub enum FlowAction {
    /// Bind the redirect listener to the loopback port.
    StartListener { port: u16 },
    /// Open this consent URL in the user's default browser.
    OpenBrowser { url: String },
    /// Block until the listener delivers a code.
    AwaitCode,
    /// Send this POST to the token endpoint.
    ExchangeCode { request: TokenRequest },
    /// The token is ready; collect it with `take_token`.
    Finish,
    /// The attempt is over; surface this error to the caller.
    Abort { error: AuthError },
}

/// The transition table: how each event moves the machine. An event that
/// does not belong to the current state leaves the machine where it is —
/// in particular `Done` and `Failed` are terminal.
pub open spec fn spec_flow_step(s: FlowState, e: FlowEvent) -> FlowState {
    match (s, e) {
        (FlowState::Idle, FlowEvent::ListenerBound) => FlowState::ListenerStarted,
        (FlowState::Idle, FlowEvent::ListenerBindFailed) => FlowState::Failed {
            error: AuthError::NetworkError,
        },
        (FlowState::ListenerStarted, FlowEvent::BrowserLaunched) => FlowState::BrowserOpened,
        (FlowState::ListenerStarted, FlowEvent::BrowserLaunchFailed) => FlowState::Failed {
            error: AuthError::NetworkError,
        },
        (FlowState::BrowserOpened, FlowEvent::CodeDelivered { code }) => FlowState::CodeReceived {
            code,
        },
        (FlowState::BrowserOpened, FlowEvent::WaitTimedOut) => FlowState::Failed {
            error: AuthError::NetworkError,
        },
        (FlowState::CodeReceived { code: _ }, FlowEvent::ExchangeSucceeded { token }) =>
            FlowState::TokenExchanged { token },
        (FlowState::CodeReceived { code: _ }, FlowEvent::ExchangeFailed { error }) =>
            FlowState::Failed { error },
        (s2, _) => s2,
    }
}

/// Applies one event to a state, exactly as the transition table says.
pub fn flow_step(s: FlowState, e: FlowEvent) -> (r: FlowState)
    ensures
        r == spec_flow_step(s, e),
{
    match (s, e) {
        (FlowState::Idle, FlowEvent::ListenerBound) => FlowState::ListenerStarted,
        (FlowState::Idle, FlowEvent::ListenerBindFailed) => FlowState::Failed {
            error: AuthError::NetworkError,
        },
        (FlowState::ListenerStarted, FlowEvent::BrowserLaunched) => FlowState::BrowserOpened,
        (FlowState::ListenerStarted, FlowEvent::BrowserLaunchFailed) => FlowState::Failed {
            error: AuthError::NetworkError,
        },
        (FlowState::BrowserOpened, FlowEvent::CodeDelivered { code }) => FlowState::CodeReceived {
            code,
        },
        (FlowState::BrowserOpened, FlowEvent::WaitTimedOut) => FlowState::Failed {
            error: AuthError::NetworkError,
        },
        (FlowState::CodeReceived { code: _ }, FlowEvent::ExchangeSucceeded { token }) =>
            FlowState::TokenExchanged { token },
        (FlowState::CodeReceived { code: _ }, FlowEvent::ExchangeFailed { error }) =>
            FlowState::Failed { error },
        (s2, _) => s2,
    }
}

/// One authorization attempt: its fixed configuration and where it
/// stands.
#[derive(Debug)]
pub struct AuthorizationFlow {
    pub config: AuthConfig,
    pub state: FlowState,
}

impl AuthorizationFlow {
    /// The consent URL of this attempt.
    pub open spec fn spec_consent_url(&self) -> Seq<char> {
        spec_consent_url(self.config.client_id@, self.config.scope@, self.config.redirect_uri@)
    }

    /// A fresh attempt for this configuration, not yet started.
    pub fn new(config: AuthConfig) -> (f: AuthorizationFlow)
        ensures
            f.config == config,
            f.state is Idle,
    {
        AuthorizationFlow { config, state: FlowState::Idle }
    }

    /// What the binary must do in the current state: bind the listener
    /// first, open the consent URL only once the listener is confirmed
    /// bound, wait for the code, exchange it, and finally hand the token
    /// over or surface the failure.
    pub fn next_action(&self) -> (a: FlowAction)
        ensures
            self.state is Idle ==> a == (FlowAction::StartListener { port: self.config.port }),
            self.state is ListenerStarted ==> (a matches FlowAction::OpenBrowser { url }
                && url@ == self.spec_consent_url()),
            self.state is BrowserOpened ==> (a is AwaitCode),
            self.state matches FlowState::CodeReceived { code } ==> (a matches
                FlowAction::ExchangeCode { request } && is_exchange_request(request, self.config, code@)),
            self.state is TokenExchanged ==> (a is Finish),
            self.state is Done ==> (a is Finish),
            self.state matches FlowState::Failed { error } ==> a == (FlowAction::Abort { error }),
    {
        match &self.state {
            FlowState::Idle => FlowAction::StartListener { port: self.config.port },
            FlowState::ListenerStarted => FlowAction::OpenBrowser {
                url: consent_url(&self.config),
            },
            FlowState::BrowserOpened => FlowAction::AwaitCode,
            FlowState::CodeReceived { code } => FlowAction::ExchangeCode {
                request: token_exchange_request(&self.config, code.as_str()),
            },
            FlowState::TokenExchanged { token: _ } => FlowAction::Finish,
            FlowState::Done => FlowAction::Finish,
            FlowState::Failed { error } => FlowAction::Abort { error: *error },
        }
    }

    /// Feeds one reported outcome into the machine.
    pub fn step(&mut self, e: FlowEvent)
        ensures
            final(self).state == spec_flow_step(old(self).state, e),
            final(self).config == old(self).config,
    {
        let mut s = FlowState::Idle;
        core::mem::swap(&mut s, &mut self.state);
        self.state = flow_step(s, e);
    }

    /// Hands the exchanged token to the caller, moving the attempt to
    /// `Done`.
    pub fn take_token(&mut self) -> (r: SpotifyAccessToken)
        requires
            old(self).state is TokenExchanged,
        ensures
            old(self).state matches FlowState::TokenExchanged { token } ==> r == token,
            final(self).state is Done,
            final(self).config == old(self).config,
    {
        let mut s = FlowState::Done;
        core::mem::swap(&mut s, &mut self.state);
        match s {
            FlowState::TokenExchanged { token } => token,
            _ => {
                proof {
                    assert(false);
                }
                SpotifyAccessToken {
                    access_token: String::new(),
                    token_type: String::new(),
                    scope: String::new(),
                    expires_in: 0,
                    refresh_token: String::new(),
                }
            },
        }
    }
}

/// Law: `Done` and `Failed` are terminal — no event moves the machine
/// out of either, so a finished attempt is never retried automatically.
pub proof fn lemma_flow_terminal(s: FlowState, e: FlowEvent)
    requires
        s is Done || s is Failed,
    ensures
        spec_flow_step(s, e) == s,
{
}

/// Law: the machine reaches `ListenerStarted` — the only state whose
/// action opens the browser — only on the listener's own bind
/// confirmation, so the listener is always bound and accepting
/// connections before the consent page can send its redirect.
pub proof fn lemma_browser_waits_for_listener(s: FlowState, e: FlowEvent)
    ensures
        !(s is ListenerStarted) && spec_flow_step(s, e) is ListenerStarted ==> e is ListenerBound,
{
}

} // verus!
