//! The callback listener: what it answers to each redirect request, when it
//! goes to the token endpoint, and when its work is done.
//!
//! The listener does no input or output itself. Its caller receives the
//! requests, hands their query parameters to `on_callback`, posts the token
//! exchange request where one is asked for, and hands what came back to
//! `on_exchange`.

use vstd::prelude::*;
use vstd::string::*;
use crate::oauth2::{Resolved, ResolvedView};
use crate::oauth2::callback::CallbackQuery;
use crate::oauth2::exchange::{
    classified,
    exchange_request,
    receive,
    received,
    rejection,
    ExchangeEvent,
    ExchangeEventView,
    ExchangeOutcome,
    TokenExchangeRequest,
    TokenExchangeRequestView,
};
use crate::oauth2::render::{Rejection, RejectionView, Reply, ReplyView, STATUS_BAD_REQUEST};
use crate::oauth2::state::StateToken;

verus! {

/// The local address on which the callback route is served.
pub const CALLBACK_HOST: [u8; 4] = [127, 0, 0, 1];

/// The local port on which the callback route is served.
pub const CALLBACK_PORT: u16 = 4000;

/// The path of the callback route.
pub const CALLBACK_PATH: &'static str = "return";

/// Where the listener stands. A callback is looked at within `on_callback`,
/// so that looking at one is no phase of its own.
#[derive(Clone, Copy, Debug, PartialEq, Eq)]
pub enum Phase {
    /// Waiting for a callback; none has led anywhere yet.
    Listening,
    /// A callback was accepted and its code is being traded for a token.
    ExchangingToken,
    /// An exchange has ended with an answer from the token endpoint that
    /// could be shown. The listener never leaves this phase.
    Completed,
}

/// The notice that the listener's work is done. It fires once and stays
/// fired.
#[derive(Debug)]
pub struct ShutdownSignal {
    fired: bool,
}

impl ShutdownSignal {
    /// Whether the signal has fired.
    pub closed spec fn has_fired(&self) -> bool {
        self.fired
    }

    /// A signal that has not fired.
    pub fn new() -> (signal: ShutdownSignal)
        ensures
            !signal.has_fired(),
    {
        ShutdownSignal { fired: false }
    }

    /// Fires the signal. The result says whether this call was the one that
    /// fired it: it is `false` when the signal had fired before.
    pub fn fire(&mut self) -> (first: bool)
        ensures
            final(self).has_fired(),
            first == !old(self).has_fired(),
    {
        let first = !self.fired;
        self.fired = true;
        first
    }

    /// Whether the signal has fired.
    pub fn fired(&self) -> (fired: bool)
        ensures
            fired == self.has_fired(),
    {
        self.fired
    }
}

/// What the caller is to do with a callback.
#[derive(Clone, Debug)]
pub enum CallbackAction {
    /// Answer the browser with this reply.
    Respond(Reply),
    /// Post this request to the token endpoint and report what comes back.
    Exchange(TokenExchangeRequest),
}

/// A `CallbackAction`, as texts.
pub ghost enum CallbackActionView {
    Respond(ReplyView),
    Exchange(TokenExchangeRequestView),
}

impl View for CallbackAction {
    type V = CallbackActionView;

    open spec fn view(&self) -> CallbackActionView {
        match self {
            CallbackAction::Respond(reply) => CallbackActionView::Respond(reply@),
            CallbackAction::Exchange(request) => CallbackActionView::Exchange(request@),
        }
    }
}

/// What the caller is to do when an exchange has ended.
#[derive(Clone, Debug)]
pub struct Completion {
    /// The reply for the browser.
    pub reply: Reply,
    /// Whether the shutdown signal fired with this exchange: the caller stops
    /// serving.
    pub shutdown: bool,
    /// The token endpoint's answer as compact JSON text, where there is one
    /// to show.
    pub payload: Option<String>,
}

/// A `Completion`, as texts.
pub ghost struct CompletionView {
    pub reply: ReplyView,
    pub shutdown: bool,
    pub payload: Option<Seq<char>>,
}

impl View for Completion {
    type V = CompletionView;

    open spec fn view(&self) -> CompletionView {
        CompletionView {
            reply: self.reply@,
            shutdown: self.shutdown,
            payload: self.payload.deep_view(),
        }
    }
}

/// Why a callback is turned down before anything is looked up in the
/// configuration, if it is. Looked at in this order: a callback that reports
/// an error, one without a state, one whose state is not the run's token.
/// All are answered with 400.
pub open spec fn callback_rejection(state: Seq<char>, query: Map<Seq<char>, Seq<char>>) -> Option<
    RejectionView,
> {
    if query.contains_key("error"@) {
        Some(rejection(STATUS_BAD_REQUEST, "An error occurred: "@ + query["error"@]))
    } else if !query.contains_key("state"@) {
        Some(rejection(STATUS_BAD_REQUEST, "No state provided"@))
    } else if query["state"@] != state {
        Some(rejection(STATUS_BAD_REQUEST, "State mismatch"@))
    } else {
        None
    }
}

/// What is decided of a callback: the request that trades its code for a
/// token, or the rejection of a callback that is turned down or whose
/// exchange cannot be prepared.
pub open spec fn callback_decision(
    config: ResolvedView,
    state: Seq<char>,
    query: Map<Seq<char>, Seq<char>>,
) -> Result<TokenExchangeRequestView, RejectionView> {
    match callback_rejection(state, query) {
        Some(rejection) => Err(rejection),
        None => exchange_request(config, query),
    }
}

/// Whether `action` is what is done with a callback: the decided request is
/// to be sent, or the browser gets a reply that shows the rejection.
pub open spec fn is_callback_action(
    action: CallbackActionView,
    config: ResolvedView,
    state: Seq<char>,
    query: Map<Seq<char>, Seq<char>>,
) -> bool {
    match callback_decision(config, state, query) {
        Ok(request) => action == CallbackActionView::Exchange(request),
        Err(rejection) => action matches CallbackActionView::Respond(reply) && rejection.shown_by(
            reply,
        ),
    }
}

/// Whether an exchange has an outcome that can be shown: the token endpoint
/// answered with a status and a JSON body, and the page for the answer can
/// be rendered.
pub open spec fn completes(event: ExchangeEventView) -> bool {
    received(event) matches Ok((status, data)) && classified(status, data).renders()
}

/// Whether `completion` is what is done when an exchange has ended, by a
/// listener whose signal has or has not fired before: the reply shows the
/// outcome, or the failure where there is none to show; the signal fires
/// with the first exchange that has an outcome to show, and with no other;
/// the answer is handed on whenever the endpoint gave one.
pub open spec fn is_completion(completion: CompletionView, fired: bool, event: ExchangeEventView) -> bool {
    match received(event) {
        Err(rejection) => {
            &&& rejection.shown_by(completion.reply)
            &&& !completion.shutdown
            &&& completion.payload is None
        },
        Ok((status, data)) => {
            let outcome = classified(status, data);
            &&& completion.payload == Some(data)
            &&& completion.shutdown == (outcome.renders() && !fired)
            &&& if outcome.renders() {
                outcome.is_shown(Ok(completion.reply))
            } else {
                exists|rejection: RejectionView| #[trigger]
                    outcome.is_shown(Err(rejection)) && rejection.shown_by(completion.reply)
            }
        },
    }
}

/// The callback listener of one run.
#[derive(Debug)]
pub struct Listener {
    config: Resolved,
    state: StateToken,
    phase: Phase,
    signal: ShutdownSignal,
}

/// What a `Listener` holds: its configuration and state token, which never
/// change, its phase, and whether its shutdown signal has fired.
pub ghost struct ListenerView {
    pub config: ResolvedView,
    pub state: Seq<char>,
    pub phase: Phase,
    pub fired: bool,
}

impl View for Listener {
    type V = ListenerView;

    closed spec fn view(&self) -> ListenerView {
        ListenerView {
            config: self.config@,
            state: self.state@,
            phase: self.phase,
            fired: self.signal.has_fired(),
        }
    }
}

impl ListenerView {
    /// A listener that has seen nothing yet.
    pub open spec fn fresh(config: ResolvedView, state: Seq<char>) -> ListenerView {
        ListenerView { config, state, phase: Phase::Listening, fired: false }
    }

    /// The listener after a callback. A callback that is answered at once
    /// leaves the phase as it is; one that leads to an exchange moves a
    /// listener that has not completed to `ExchangingToken`. No callback
    /// fires the signal.
    pub open spec fn after_callback(self, query: Map<Seq<char>, Seq<char>>) -> ListenerView {
        let exchanging = callback_decision(self.config, self.state, query) is Ok;
        ListenerView {
            config: self.config,
            state: self.state,
            phase: if self.phase is Completed {
                Phase::Completed
            } else if exchanging {
                Phase::ExchangingToken
            } else {
                self.phase
            },
            fired: self.fired,
        }
    }

    /// The listener after an exchange has ended. An exchange with an outcome
    /// to show completes the listener and leaves its signal fired; one
    /// without sends a listener that has not completed back to `Listening`.
    pub open spec fn after_exchange(self, event: ExchangeEventView) -> ListenerView {
        let done = completes(event);
        ListenerView {
            config: self.config,
            state: self.state,
            phase: if done || self.phase is Completed {
                Phase::Completed
            } else {
                Phase::Listening
            },
            fired: self.fired || done,
        }
    }
}

impl Listener {
    /// The listener of a run, before any callback.
    pub fn new(config: Resolved, state: StateToken) -> (listener: Listener)
        ensures
            listener@ == ListenerView::fresh(config@, state@),
    {
        Listener { config, state, phase: Phase::Listening, signal: ShutdownSignal::new() }
    }

    /// Looks at a callback before anything is looked up in the configuration.
    pub fn validate(state: &StateToken, query: &CallbackQuery) -> (r: Result<(), Rejection>)
        ensures
            match r {
                Ok(_) => callback_rejection(state@, query@) is None,
                Err(rejection) => callback_rejection(state@, query@) == Some(rejection@),
            },
    {
        if let Some(error) = query.get("error") {
            return Err(
                Rejection::with_detail(STATUS_BAD_REQUEST, "An error occurred: ", error.as_str()),
            );
        }
        match query.get("state") {
            Some(candidate) => {
                if !state.matches(candidate) {
                    return Err(Rejection::new(STATUS_BAD_REQUEST, "State mismatch"));
                }
            },
            None => {
                return Err(Rejection::new(STATUS_BAD_REQUEST, "No state provided"));
            },
        }
        Ok(())
    }

    /// Takes the query parameters of a redirect request and says what to do:
    /// answer the browser, or go to the token endpoint.
    pub fn on_callback(&mut self, query: &CallbackQuery) -> (action: CallbackAction)
        ensures
            is_callback_action(action@, old(self)@.config, old(self)@.state, query@),
            final(self)@ == old(self)@.after_callback(query@),
    {
        let action = match Listener::validate(&self.state, query) {
            Err(rejection) => CallbackAction::Respond(rejection.render()),
            Ok(_) => match TokenExchangeRequest::prepare(&self.config, query) {
                Err(rejection) => CallbackAction::Respond(rejection.render()),
                Ok(request) => CallbackAction::Exchange(request),
            },
        };
        match (&action, self.phase) {
            (_, Phase::Completed) => {},
            (CallbackAction::Exchange(_), _) => {
                self.phase = Phase::ExchangingToken;
            },
            (CallbackAction::Respond(_), _) => {},
        }
        action
    }

    /// Takes what became of a request to the token endpoint and says what to
    /// answer the browser, and whether the listener's work is done.
    pub fn on_exchange(&mut self, event: &ExchangeEvent) -> (completion: Completion)
        ensures
            is_completion(completion@, old(self)@.fired, event@),
            final(self)@ == old(self)@.after_exchange(event@),
    {
        let shown = match receive(event) {
            Err(rejection) => Err((rejection, None)),
            Ok((status, data)) => {
                let payload = String::from_str(data.as_str());
                match ExchangeOutcome::classify(status, data).render() {
                    Ok(reply) => Ok((reply, payload)),
                    Err(rejection) => Err((rejection, Some(payload))),
                }
            },
        };
        match shown {
            Ok((reply, payload)) => {
                let shutdown = self.signal.fire();
                self.phase = Phase::Completed;
                Completion { reply, shutdown, payload: Some(payload) }
            },
            Err((rejection, payload)) => {
                match self.phase {
                    Phase::Completed => {},
                    _ => {
                        self.phase = Phase::Listening;
                    },
                }
                Completion { reply: rejection.render(), shutdown: false, payload }
            },
        }
    }

    /// Where the listener stands.
    pub fn phase(&self) -> (phase: Phase)
        ensures
            phase == self@.phase,
    {
        self.phase
    }

    /// Whether the shutdown signal has fired.
    pub fn has_fired(&self) -> (fired: bool)
        ensures
            fired == self@.fired,
    {
        self.signal.fired()
    }

    /// The token that a callback must bring as its `state`.
    pub fn state(&self) -> (token: &StateToken)
        ensures
            token@ == self@.state,
    {
        &self.state
    }

    /// The configuration of the run.
    pub fn config(&self) -> (config: &Resolved)
        ensures
            config@ == self@.config,
    {
        &self.config
    }
}

} // verus!
