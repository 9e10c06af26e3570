//! What holds of the library as a whole, proved from the definitions that
//! its functions are held to.

use vstd::prelude::*;
use crate::bindings::{parsed_json, parsed_url, rendered_page, url_with_params};
use crate::flow::{
    accepts,
    is_state_of,
    planned,
    resolved,
    DirectiveView,
    FlowEventView,
    OrchestratorView,
    CONFIRM_EXPECT,
};
use crate::error::ErrorView;
use crate::oauth2::{ConsumerView, ResolvedView};
use crate::oauth2::authorize::authorization_request;
use crate::oauth2::exchange::ExchangeEventView;
use crate::oauth2::listener::{
    completes,
    is_callback_action,
    is_completion,
    CallbackActionView,
    CompletionView,
    ListenerView,
};
use crate::oauth2::render::{
    STATUS_BAD_REQUEST,
    STATUS_INTERNAL_SERVER_ERROR,
    STATUS_OK,
    STATUS_UNAUTHORIZED,
    TEMPLATE_ERROR_DETAIL,
    TEMPLATE_SUCCESS,
};
use crate::options::OptionsView;
use crate::text::joined;

verus! {

/// One thing that happens to a listener: a callback arrives with these query
/// parameters, or an exchange with the token endpoint ends.
pub ghost enum ListenerEvent {
    Callback(Map<Seq<char>, Seq<char>>),
    Exchange(ExchangeEventView),
}

impl ListenerView {
    /// The listener after one event.
    pub open spec fn after(self, event: ListenerEvent) -> ListenerView {
        match event {
            ListenerEvent::Callback(query) => self.after_callback(query),
            ListenerEvent::Exchange(outcome) => self.after_exchange(outcome),
        }
    }

    /// Whether the shutdown signal fires with an event.
    pub open spec fn fires_on(self, event: ListenerEvent) -> bool {
        match event {
            ListenerEvent::Callback(_) => false,
            ListenerEvent::Exchange(outcome) => completes(outcome) && !self.fired,
        }
    }

    /// The listener after a series of events.
    pub open spec fn after_all(self, events: Seq<ListenerEvent>) -> ListenerView
        decreases events.len(),
    {
        if events.len() == 0 {
            self
        } else {
            self.after_all(events.drop_last()).after(events.last())
        }
    }

    /// How often the shutdown signal fires in a series of events.
    pub open spec fn firings(self, events: Seq<ListenerEvent>) -> nat
        decreases events.len(),
    {
        if events.len() == 0 {
            0
        } else {
            let before = self.after_all(events.drop_last());
            self.firings(events.drop_last()) + if before.fires_on(events.last()) {
                1nat
            } else {
                0nat
            }
        }
    }
}

/// The authorization request of a run carries, in this order, the response
/// type `code`, the run's state token, the scopes joined by single spaces and
/// the client identifier, and its URL is the authorization URL with exactly
/// these appended to its query.
pub proof fn law_request_parameters(config: ResolvedView, state: Seq<char>)
    ensures
        authorization_request(config, state) matches Ok(request) ==> {
            &&& request.params.len() == 4
            &&& request.params[0] == ("response_type"@, "code"@)
            &&& request.params[1] == ("state"@, state)
            &&& request.params[2] == ("scope"@, joined(config.scopes, " "@))
            &&& request.params[3] == ("client_id"@, config.client_id)
            &&& url_with_params(config.auth_url, request.params) == Ok::<Seq<char>, Seq<char>>(
                request.url,
            )
        },
{
}

/// With a state token supplied by the operator, no other token is the
/// run's; the authorization request and the listener of the run both hold
/// it, and the listener turns down every callback whose state is missing or
/// another: it answers 400 and its shutdown signal does not fire.
pub proof fn law_supplied_state(
    opts: OptionsView,
    conf: ConsumerView,
    token: Seq<char>,
    query: Map<Seq<char>, Seq<char>>,
    action: CallbackActionView,
)
    requires
        opts.state == Some(token),
        !query.contains_key("state"@) || query["state"@] != token,
    ensures
        forall|state: Seq<char>| is_state_of(opts.state, state) ==> state == token,
        planned(opts, conf, token) matches Ok(run) ==> {
            &&& run.request.params[1] == ("state"@, token)
            &&& run.listener.state == token
            &&& is_callback_action(action, run.listener.config, run.listener.state, query) ==> (
            action matches CallbackActionView::Respond(reply) && reply.status
                == STATUS_BAD_REQUEST)
            &&& run.listener.after_callback(query).fired == run.listener.fired
            &&& !run.listener.fires_on(ListenerEvent::Callback(query))
        },
{
}

/// A listener turns down every callback whose state is missing or is not the
/// run's token, whatever else the callback brings: it answers 400, stays in
/// its phase, and its shutdown signal does not fire.
pub proof fn law_state_must_match(
    listener: ListenerView,
    query: Map<Seq<char>, Seq<char>>,
    action: CallbackActionView,
)
    requires
        !query.contains_key("state"@) || query["state"@] != listener.state,
        is_callback_action(action, listener.config, listener.state, query),
    ensures
        action matches CallbackActionView::Respond(reply) && reply.status == STATUS_BAD_REQUEST,
        listener.after_callback(query) == listener,
        !listener.fires_on(ListenerEvent::Callback(query)),
{
}

/// A listener turns down every callback that reports an error, whatever else
/// the callback brings: it answers 400, stays in its phase, and its shutdown
/// signal does not fire.
pub proof fn law_error_is_rejected(
    listener: ListenerView,
    query: Map<Seq<char>, Seq<char>>,
    action: CallbackActionView,
)
    requires
        query.contains_key("error"@),
        is_callback_action(action, listener.config, listener.state, query),
    ensures
        action matches CallbackActionView::Respond(reply) && reply.status == STATUS_BAD_REQUEST,
        listener.after_callback(query) == listener,
        !listener.fires_on(ListenerEvent::Callback(query)),
{
}

/// An exchange that the token endpoint answers with status 200 and a JSON
/// body is shown as 200, on the page that the template engine makes of the
/// answer, and completes the listener; the shutdown signal fires with it
/// unless it had fired before.
pub proof fn law_granted_token_completes(
    listener: ListenerView,
    body: Seq<u8>,
    completion: CompletionView,
)
    requires
        parsed_json(body) is Ok,
        rendered_page(TEMPLATE_SUCCESS@, parsed_json(body)->Ok_0) is Some,
        is_completion(
            completion,
            listener.fired,
            ExchangeEventView::Response { status: STATUS_OK, body },
        ),
    ensures
        ({
            let event = ExchangeEventView::Response { status: STATUS_OK, body };
            &&& completion.reply.status == STATUS_OK
            &&& Some(completion.reply.body) == rendered_page(
                TEMPLATE_SUCCESS@,
                parsed_json(body)->Ok_0,
            )
            &&& completion.shutdown == !listener.fired
            &&& listener.fires_on(ListenerEvent::Exchange(event)) == !listener.fired
            &&& listener.after_exchange(event).phase is Completed
            &&& listener.after_exchange(event).fired
        }),
{
}

/// An exchange that the token endpoint answers with status 400 and a JSON
/// body is shown as 401 and completes the listener all the same; the shutdown
/// signal fires with it unless it had fired before.
pub proof fn law_refused_code_completes(
    listener: ListenerView,
    body: Seq<u8>,
    completion: CompletionView,
)
    requires
        parsed_json(body) is Ok,
        rendered_page(TEMPLATE_ERROR_DETAIL@, parsed_json(body)->Ok_0) is Some,
        is_completion(
            completion,
            listener.fired,
            ExchangeEventView::Response { status: STATUS_BAD_REQUEST, body },
        ),
    ensures
        ({
            let event = ExchangeEventView::Response { status: STATUS_BAD_REQUEST, body };
            &&& completion.reply.status == STATUS_UNAUTHORIZED
            &&& Some(completion.reply.body) == rendered_page(
                TEMPLATE_ERROR_DETAIL@,
                parsed_json(body)->Ok_0,
            )
            &&& completion.shutdown == !listener.fired
            &&& listener.fires_on(ListenerEvent::Exchange(event)) == !listener.fired
            &&& listener.after_exchange(event).phase is Completed
            &&& listener.after_exchange(event).fired
        }),
{
}

/// An exchange without an outcome to show (a request that could not be sent,
/// an answer that could not be read or is no JSON, a page that could not be
/// rendered) is shown as 500, and the shutdown signal does not fire with it.
pub proof fn law_failed_exchange_keeps_listening(
    listener: ListenerView,
    event: ExchangeEventView,
    completion: CompletionView,
)
    requires
        !completes(event),
        is_completion(completion, listener.fired, event),
    ensures
        completion.reply.status == STATUS_INTERNAL_SERVER_ERROR,
        !completion.shutdown,
        !listener.fires_on(ListenerEvent::Exchange(event)),
        listener.after_exchange(event).fired == listener.fired,
        !(listener.phase is Completed) ==> listener.after_exchange(event).phase is Listening,
{
}

/// The shutdown signal fires with an exchange exactly when the listener says
/// so to its caller.
pub proof fn law_signal_is_reported(
    listener: ListenerView,
    event: ExchangeEventView,
    completion: CompletionView,
)
    requires
        is_completion(completion, listener.fired, event),
    ensures
        completion.shutdown == listener.fires_on(ListenerEvent::Exchange(event)),
{
}

/// Neither the client secret nor the token URL is needed to plan a run:
/// with both taken out of the operator's choices and of the configuration
/// file, the same runs can be planned, with the same authorization request.
pub proof fn law_start_needs_no_secret(opts: OptionsView, conf: ConsumerView, state: Seq<char>)
    ensures
        ({
            let bare_opts = OptionsView {
                debug: opts.debug,
                verbose: opts.verbose,
                client_id: opts.client_id,
                client_secret: None,
                auth_url: opts.auth_url,
                token_url: None,
                return_url: opts.return_url,
                grant_type: opts.grant_type,
                scopes: opts.scopes,
                state: opts.state,
                config: opts.config,
                passive: opts.passive,
                interactive: opts.interactive,
            };
            let bare_conf = ConsumerView {
                client_id: conf.client_id,
                client_secret: None,
                auth_url: conf.auth_url,
                token_url: None,
                return_url: conf.return_url,
                grant_type: conf.grant_type,
                scopes: conf.scopes,
            };
            &&& resolved(bare_opts, bare_conf) is Ok <==> resolved(opts, conf) is Ok
            &&& resolved(bare_opts, bare_conf) matches Err(error) ==> resolved(opts, conf) == Err::<
                ResolvedView,
                ErrorView,
            >(error)
            &&& planned(bare_opts, bare_conf, state) is Ok <==> planned(opts, conf, state) is Ok
            &&& planned(opts, conf, state) matches Ok(run) ==> {
                &&& planned(bare_opts, bare_conf, state)->Ok_0.request == run.request
                &&& planned(bare_opts, bare_conf, state)->Ok_0.orchestrator == run.orchestrator
                &&& planned(bare_opts, bare_conf, state)->Ok_0.listener.phase
                    == run.listener.phase
            }
        }),
{
}

/// A callback that brings the run's state and a code is answered with 500
/// where the token URL is not configured or, with a token URL that is a URL,
/// where the client secret is not configured. The shutdown signal does not
/// fire.
pub proof fn law_missing_secret_shows_at_exchange(
    listener: ListenerView,
    query: Map<Seq<char>, Seq<char>>,
    action: CallbackActionView,
)
    requires
        !query.contains_key("error"@),
        query.contains_key("state"@) && query["state"@] == listener.state,
        query.contains_key("code"@),
        listener.config.token_url is None || (parsed_url(listener.config.token_url->0) is Ok
            && listener.config.client_secret is None),
        is_callback_action(action, listener.config, listener.state, query),
    ensures
        action matches CallbackActionView::Respond(reply) && reply.status
            == STATUS_INTERNAL_SERVER_ERROR,
        listener.after_callback(query) == listener,
        !listener.fires_on(ListenerEvent::Callback(query)),
{
}

/// The shutdown signal fires at most once, whatever happens to the listener
/// and in whatever order: in a series of events it fires exactly when the
/// first exchange with an outcome to show ends, and never on a listener whose
/// signal has fired.
pub proof fn law_fires_at_most_once(listener: ListenerView, events: Seq<ListenerEvent>)
    ensures
        listener.firings(events) <= 1,
        listener.fired ==> listener.firings(events) == 0,
        listener.after_all(events).fired == (listener.fired || listener.firings(events) == 1),
        listener.after_all(events).config == listener.config,
        listener.after_all(events).state == listener.state,
    decreases events.len(),
{
    if events.len() > 0 {
        law_fires_at_most_once(listener, events.drop_last());
    }
}

/// Callbacks and failed exchanges never fire the shutdown signal, however
/// many there are: in a series of events made only of callbacks and of
/// exchanges without an outcome to show, it does not fire at all.
pub proof fn law_invalid_events_never_fire(listener: ListenerView, events: Seq<ListenerEvent>)
    requires
        forall|i: int|
            0 <= i < events.len() ==> match #[trigger] events[i] {
                ListenerEvent::Callback(_) => true,
                ListenerEvent::Exchange(outcome) => !completes(outcome),
            },
    ensures
        listener.firings(events) == 0,
        listener.after_all(events).fired == listener.fired,
    decreases events.len(),
{
    if events.len() > 0 {
        let before = events.drop_last();
        assert forall|i: int| 0 <= i < before.len() implies match #[trigger] before[i] {
            ListenerEvent::Callback(_) => true,
            ListenerEvent::Exchange(outcome) => !completes(outcome),
        } by {
            assert(before[i] == events[i]);
        }
        law_invalid_events_never_fire(listener, before);
        assert(events.last() == events[events.len() - 1]);
    }
}

/// A listener that starts fresh is completed exactly when its shutdown
/// signal has fired.
pub proof fn law_completed_means_fired(
    config: ResolvedView,
    state: Seq<char>,
    events: Seq<ListenerEvent>,
)
    ensures
        ListenerView::fresh(config, state).after_all(events).phase is Completed
            <==> ListenerView::fresh(config, state).after_all(events).fired,
    decreases events.len(),
{
    if events.len() > 0 {
        law_completed_means_fired(config, state, events.drop_last());
    }
}

/// The callback route is bound before the browser is opened and before it
/// is served, and a run that the operator declines binds nothing: the
/// orchestrator asks to bind only at the beginning or on the expected
/// answer, asks for the browser only once the route is bound, and a declined
/// run is given up for good.
pub proof fn law_route_is_bound_first(orchestrator: OrchestratorView, event: FlowEventView)
    ensures
        orchestrator.step(event).1 is Bind ==> {
            ||| orchestrator.stage is Ready && event is Begin
            ||| orchestrator.stage is Confirming && event is Answer && accepts(
                event->Answer_0,
                CONFIRM_EXPECT@,
            )
        },
        orchestrator.step(event).1 is Open ==> orchestrator.stage is Binding && event is Bound,
        orchestrator.step(event).1 is Serve ==> {
            ||| orchestrator.stage is Binding && event is Bound
            ||| orchestrator.stage is Launching && event is Opened
        },
        orchestrator.stage is Confirming && event is Answer && !accepts(
            event->Answer_0,
            CONFIRM_EXPECT@,
        ) ==> orchestrator.step(event).0 is Failed,
        orchestrator.stage is Failed || orchestrator.stage is Finished ==> orchestrator.step(
            event,
        ) == (orchestrator.stage, DirectiveView::Ignore),
{
}

} // verus!
