//! The run as a whole: from the operator's choices to the exit code.
//!
//! The orchestrator decides and its caller acts: the caller prompts, binds
//! the callback route, opens the browser, serves the listener and leaves,
//! each when it is told to, and reports back what happened.

use vstd::prelude::*;
use vstd::string::*;
use crate::bindings::{lowercase, lowercased, parsed_url};
use crate::error::{Error, ErrorView};
use crate::oauth2::{Consumer, ConsumerView, Resolved, ResolvedView};
use crate::oauth2::authorize::{
    authorization_request,
    request_has_room,
    AuthorizationRequest,
    AuthorizationRequestView,
};
use crate::oauth2::listener::{Listener, ListenerView};
use crate::oauth2::state::{is_drawn_token, StateToken};
use crate::options::{Options, OptionsView};

verus! {

/// The question put to the operator before the browser is opened.
pub const CONFIRM_PROMPT: &'static str = "\nInitiate the OAuth2 flow? [y/N] ";

/// The answer that lets the run go on.
pub const CONFIRM_EXPECT: &'static str = "y";

/// The exit code of a run whose listener completed.
pub const EXIT_SUCCESS: i32 = 0;

/// A line as it was read, without the line feed, or the carriage return and
/// line feed, that ends it.
pub open spec fn line_content(line: Seq<char>) -> Seq<char> {
    if line.len() >= 2 && line[line.len() - 2] == '\r' && line[line.len() - 1] == '\n' {
        line.subrange(0, line.len() - 2)
    } else if line.len() >= 1 && line[line.len() - 1] == '\n' {
        line.subrange(0, line.len() - 1)
    } else {
        line
    }
}

/// Whether the operator's line holds the expected answer, whatever its case.
pub open spec fn accepts(line: Seq<char>, expect: Seq<char>) -> bool {
    lowercased(line_content(line)) == expect
}

/// The error of a run that the operator did not confirm.
pub open spec fn canceled() -> ErrorView {
    ErrorView::Message("Canceled"@)
}

/// The error of a run whose authorization URL outgrows the URL library.
pub open spec fn too_long() -> ErrorView {
    ErrorView::Message("The authorization URL is too long"@)
}

/// Takes the end of the line off a line that was read.
pub fn strip_line_end(line: &str) -> (content: &str)
    ensures
        content@ == line_content(line@),
{
    let n: usize = line.unicode_len();
    if n >= 2 && line.get_char(n - 2) == '\r' && line.get_char(n - 1) == '\n' {
        line.substring_char(0, n - 2)
    } else if n >= 1 && line.get_char(n - 1) == '\n' {
        line.substring_char(0, n - 1)
    } else {
        line
    }
}

/// What is made of an answer once it is in lower case: the run goes on
/// where it is the expected one, and is canceled where it is not.
pub open spec fn judged(given: Seq<char>, expect: Seq<char>) -> Result<(), ErrorView> {
    if given == expect {
        Ok(())
    } else {
        Err(canceled())
    }
}

/// A judgement, with the error as texts.
pub open spec fn judgement(r: Result<(), Error>) -> Result<(), ErrorView> {
    match r {
        Ok(_) => Ok(()),
        Err(error) => Err(error@),
    }
}

/// Judges an answer that is in lower case already: the run goes on exactly
/// where the answer is the expected one, and is canceled otherwise.
pub fn judge_answer(given: &str, expect: &str) -> (r: Result<(), Error>)
    ensures
        judgement(r) == judged(given@, expect@),
{
    let given = String::from_str(given);
    let wanted = String::from_str(expect);
    if given == wanted {
        Ok(())
    } else {
        Err(Error::new("Canceled"))
    }
}

/// Judges the line with which the operator answered the confirmation prompt:
/// the run goes on with the expected answer, in any case of letters, and is
/// canceled with any other.
pub fn confirm(line: &str, expect: &str) -> (r: Result<(), Error>)
    ensures
        judgement(r) == judged(lowercased(line_content(line@)), expect@),
        r is Ok <==> accepts(line@, expect@),
{
    let given = lowercase(strip_line_end(line));
    judge_answer(given.as_str(), expect)
}

/// Where the run stands.
#[derive(Clone, Copy, Debug, PartialEq, Eq)]
pub enum Stage {
    /// Planned; nothing has been done yet.
    Ready,
    /// The operator has been asked whether to go on.
    Confirming,
    /// The callback route is being bound.
    Binding,
    /// The browser is being opened.
    Launching,
    /// The listener is being served until its shutdown signal fires.
    Waiting,
    /// The listener completed.
    Finished,
    /// The run was given up.
    Failed,
}

/// What the caller reports to the orchestrator.
#[derive(Clone, Debug)]
pub enum FlowEvent {
    /// The run is to begin.
    Begin,
    /// The operator answered the confirmation prompt with this line.
    Answer(String),
    /// The callback route is bound.
    Bound,
    /// The browser was opened.
    Opened,
    /// The browser could not be opened; the text says why.
    OpenFailed(String),
    /// The listener's shutdown signal fired.
    Shutdown,
}

/// A `FlowEvent`, with texts as sequences of characters.
pub ghost enum FlowEventView {
    Begin,
    Answer(Seq<char>),
    Bound,
    Opened,
    OpenFailed(Seq<char>),
    Shutdown,
}

impl View for FlowEvent {
    type V = FlowEventView;

    open spec fn view(&self) -> FlowEventView {
        match self {
            FlowEvent::Begin => FlowEventView::Begin,
            FlowEvent::Answer(line) => FlowEventView::Answer(line@),
            FlowEvent::Bound => FlowEventView::Bound,
            FlowEvent::Opened => FlowEventView::Opened,
            FlowEvent::OpenFailed(message) => FlowEventView::OpenFailed(message@),
            FlowEvent::Shutdown => FlowEventView::Shutdown,
        }
    }
}

/// What the orchestrator tells its caller to do next.
#[derive(Clone, Debug)]
pub enum Directive {
    /// Show `CONFIRM_PROMPT`, read a line, and report it as `Answer`, as it
    /// was read.
    Confirm,
    /// Bind the callback route on its local address, without serving it
    /// yet, and report `Bound`.
    Bind,
    /// Open the authorization request's URL in the browser, and report
    /// `Opened` or `OpenFailed`. The callback route is bound by now.
    Open,
    /// Serve the bound callback route until the listener's shutdown signal
    /// fires, and report `Shutdown`.
    Serve,
    /// Leave with this exit code.
    Exit(i32),
    /// Show this error and leave with its exit code.
    Abort(Error),
    /// Nothing: the event was not one that the run was waiting for.
    Ignore,
}

/// A `Directive`, with texts as sequences of characters.
pub ghost enum DirectiveView {
    Confirm,
    Bind,
    Open,
    Serve,
    Exit(i32),
    Abort(ErrorView),
    Ignore,
}

impl View for Directive {
    type V = DirectiveView;

    open spec fn view(&self) -> DirectiveView {
        match self {
            Directive::Confirm => DirectiveView::Confirm,
            Directive::Bind => DirectiveView::Bind,
            Directive::Open => DirectiveView::Open,
            Directive::Serve => DirectiveView::Serve,
            Directive::Exit(code) => DirectiveView::Exit(*code),
            Directive::Abort(error) => DirectiveView::Abort(error@),
            Directive::Ignore => DirectiveView::Ignore,
        }
    }
}

/// The part of a run that opens the browser and waits for the listener.
#[derive(Debug)]
pub struct Orchestrator {
    stage: Stage,
    passive: bool,
    interactive: bool,
}

/// What an `Orchestrator` holds.
pub ghost struct OrchestratorView {
    pub stage: Stage,
    pub passive: bool,
    pub interactive: bool,
}

impl View for Orchestrator {
    type V = OrchestratorView;

    closed spec fn view(&self) -> OrchestratorView {
        OrchestratorView { stage: self.stage, passive: self.passive, interactive: self.interactive }
    }
}

impl OrchestratorView {
    /// An orchestrator that has done nothing yet.
    pub open spec fn fresh(passive: bool, interactive: bool) -> OrchestratorView {
        OrchestratorView { stage: Stage::Ready, passive, interactive }
    }

    /// The same orchestrator at another stage.
    pub open spec fn at(self, stage: Stage) -> OrchestratorView {
        OrchestratorView { stage, passive: self.passive, interactive: self.interactive }
    }

    /// The stage that an event leads to, and what is to be done there.
    ///
    /// A run begins by asking the operator when it is interactive and not
    /// passive, and by binding the callback route otherwise. An answer that
    /// is the expected one leads to binding; any other cancels the run, so
    /// that a declined run binds nothing. Once the route is bound, a passive
    /// run serves it at once, and any other opens the browser first; a
    /// browser that cannot be opened fails the run. The run ends with
    /// `EXIT_SUCCESS` when the shutdown signal fires. An event that the stage
    /// is not waiting for changes nothing.
    pub open spec fn step(self, event: FlowEventView) -> (Stage, DirectiveView) {
        match (self.stage, event) {
            (Stage::Ready, FlowEventView::Begin) => if !self.passive && self.interactive {
                (Stage::Confirming, DirectiveView::Confirm)
            } else {
                (Stage::Binding, DirectiveView::Bind)
            },
            (Stage::Confirming, FlowEventView::Answer(line)) => if accepts(line, CONFIRM_EXPECT@) {
                (Stage::Binding, DirectiveView::Bind)
            } else {
                (Stage::Failed, DirectiveView::Abort(canceled()))
            },
            (Stage::Binding, FlowEventView::Bound) => if self.passive {
                (Stage::Waiting, DirectiveView::Serve)
            } else {
                (Stage::Launching, DirectiveView::Open)
            },
            (Stage::Launching, FlowEventView::Opened) => (Stage::Waiting, DirectiveView::Serve),
            (Stage::Launching, FlowEventView::OpenFailed(message)) => (
                Stage::Failed,
                DirectiveView::Abort(ErrorView::IOError(message)),
            ),
            (Stage::Waiting, FlowEventView::Shutdown) => (
                Stage::Finished,
                DirectiveView::Exit(EXIT_SUCCESS),
            ),
            _ => (self.stage, DirectiveView::Ignore),
        }
    }
}

impl Orchestrator {
    /// An orchestrator that has done nothing yet.
    pub fn new(passive: bool, interactive: bool) -> (orchestrator: Orchestrator)
        ensures
            orchestrator@ == OrchestratorView::fresh(passive, interactive),
    {
        Orchestrator { stage: Stage::Ready, passive, interactive }
    }

    /// Takes what the caller reports and says what to do next.
    pub fn advance(&mut self, event: &FlowEvent) -> (directive: Directive)
        ensures
            directive@ == old(self)@.step(event@).1,
            final(self)@ == old(self)@.at(old(self)@.step(event@).0),
    {
        match (self.stage, event) {
            (Stage::Ready, FlowEvent::Begin) => {
                if !self.passive && self.interactive {
                    self.stage = Stage::Confirming;
                    Directive::Confirm
                } else {
                    self.stage = Stage::Binding;
                    Directive::Bind
                }
            },
            (Stage::Confirming, FlowEvent::Answer(line)) => {
                match confirm(line.as_str(), CONFIRM_EXPECT) {
                    Ok(_) => {
                        self.stage = Stage::Binding;
                        Directive::Bind
                    },
                    Err(error) => {
                        self.stage = Stage::Failed;
                        Directive::Abort(error)
                    },
                }
            },
            (Stage::Binding, FlowEvent::Bound) => {
                if self.passive {
                    self.stage = Stage::Waiting;
                    Directive::Serve
                } else {
                    self.stage = Stage::Launching;
                    Directive::Open
                }
            },
            (Stage::Launching, FlowEvent::Opened) => {
                self.stage = Stage::Waiting;
                Directive::Serve
            },
            (Stage::Launching, FlowEvent::OpenFailed(message)) => {
                self.stage = Stage::Failed;
                Directive::Abort(Error::IOError(message.clone()))
            },
            (Stage::Waiting, FlowEvent::Shutdown) => {
                self.stage = Stage::Finished;
                Directive::Exit(EXIT_SUCCESS)
            },
            _ => Directive::Ignore,
        }
    }

    /// Where the run stands.
    pub fn stage(&self) -> (stage: Stage)
        ensures
            stage == self@.stage,
    {
        self.stage
    }
}

/// A run that is ready to begin: the authorization request to send the user
/// to, the listener that waits for the user to come back, and the
/// orchestrator that takes the run from here.
#[derive(Debug)]
pub struct Run {
    pub request: AuthorizationRequest,
    pub listener: Listener,
    pub orchestrator: Orchestrator,
}

/// What a `Run` holds.
pub ghost struct RunView {
    pub request: AuthorizationRequestView,
    pub listener: ListenerView,
    pub orchestrator: OrchestratorView,
}

impl View for Run {
    type V = RunView;

    open spec fn view(&self) -> RunView {
        RunView {
            request: self.request@,
            listener: self.listener@,
            orchestrator: self.orchestrator@,
        }
    }
}

/// A run or the error that kept it from being planned, as texts.
pub open spec fn run_outcome(r: Result<Run, Error>) -> Result<RunView, ErrorView> {
    match r {
        Ok(run) => Ok(run@),
        Err(error) => Err(error@),
    }
}

/// A configuration or the error that kept it from being resolved, as texts.
pub open spec fn resolution(r: Result<Resolved, Error>) -> Result<ResolvedView, ErrorView> {
    match r {
        Ok(config) => Ok(config@),
        Err(error) => Err(error@),
    }
}

/// The configuration of a run: the operator's choices laid over the
/// configuration file, or what is missing in the two together.
pub open spec fn resolved(opts: OptionsView, conf: ConsumerView) -> Result<ResolvedView, ErrorView> {
    let merged = opts.merged(conf);
    match merged.missing() {
        Some(error) => Err(error),
        None => Ok(merged.resolved()),
    }
}

/// The run that a configuration and a state token lead to: the authorization
/// request is built, and the listener and the orchestrator are fresh. No run
/// comes of an authorization URL that is no URL, nor of one that outgrows the
/// URL library.
pub open spec fn launched(config: ResolvedView, state: Seq<char>, passive: bool, interactive: bool) -> Result<
    RunView,
    ErrorView,
> {
    if !request_has_room(config, state) {
        Err(too_long())
    } else {
        match authorization_request(config, state) {
            Err(error) => Err(error),
            Ok(request) => Ok(
                RunView {
                    request,
                    listener: ListenerView::fresh(config, state),
                    orchestrator: OrchestratorView::fresh(passive, interactive),
                },
            ),
        }
    }
}

/// The run that the operator's choices, a configuration file and a state
/// token lead to.
pub open spec fn planned(opts: OptionsView, conf: ConsumerView, state: Seq<char>) -> Result<
    RunView,
    ErrorView,
> {
    match resolved(opts, conf) {
        Err(error) => Err(error),
        Ok(config) => launched(config, state, opts.passive, opts.interactive),
    }
}

/// The state token of a run, seen from the operator's choice: the supplied
/// one where there is one, else one that was drawn.
pub open spec fn is_state_of(supplied: Option<Seq<char>>, state: Seq<char>) -> bool {
    match supplied {
        Some(value) => state == value,
        None => is_drawn_token(state),
    }
}

/// Lays the operator's choices over the configuration file and checks that a
/// run can start with the result.
pub fn resolve(opts: &Options, conf: &Consumer) -> (r: Result<Resolved, Error>)
    ensures
        resolution(r) == resolved(opts@, conf@),
{
    opts.merge_config(conf).resolve()
}

/// Readies a run with a given configuration and state token.
pub fn launch(config: Resolved, state: StateToken, passive: bool, interactive: bool) -> (r: Result<
    Run,
    Error,
>)
    ensures
        run_outcome(r) == launched(config@, state@, passive, interactive),
        r is Ok <==> request_has_room(config@, state@) && parsed_url(config@.auth_url) is Ok,
        r matches Err(error) ==> {
            if !request_has_room(config@, state@) {
                error@ == too_long()
            } else {
                error@ is UrlParseError && parsed_url(config@.auth_url) == Err::<
                    Seq<char>,
                    Seq<char>,
                >(error@.message())
            }
        },
{
    match AuthorizationRequest::try_build(&config, &state) {
        None => Err(Error::new("The authorization URL is too long")),
        Some(Err(error)) => Err(error),
        Some(Ok(request)) => Ok(
            Run {
                request,
                listener: Listener::new(config, state),
                orchestrator: Orchestrator::new(passive, interactive),
            },
        ),
    }
}

/// Plans a run with a given state token.
pub fn plan(opts: &Options, conf: &Consumer, state: StateToken) -> (r: Result<Run, Error>)
    ensures
        run_outcome(r) == planned(opts@, conf@, state@),
        r is Ok <==> (resolved(opts@, conf@) matches Ok(config) && request_has_room(
            config,
            state@,
        ) && parsed_url(config.auth_url) is Ok),
        r matches Err(error) ==> match resolved(opts@, conf@) {
            Err(missing) => error@ == missing,
            Ok(config) => if !request_has_room(config, state@) {
                error@ == too_long()
            } else {
                error@ is UrlParseError && parsed_url(config.auth_url) == Err::<
                    Seq<char>,
                    Seq<char>,
                >(error@.message())
            },
        },
{
    match resolve(opts, conf) {
        Err(error) => Err(error),
        Ok(config) => launch(config, state, opts.passive, opts.interactive),
    }
}

/// Plans a run: resolves the configuration, takes the operator's state token
/// or draws one, builds the authorization request and sets up the listener.
/// The token is drawn only once the configuration is known to be complete.
///
/// A run is planned exactly when the configuration is complete, the
/// authorization URL is a URL and the URL library has room for the request;
/// the run's token is the operator's, or one that was drawn.
pub fn start(opts: &Options, conf: &Consumer) -> (r: Result<Run, Error>)
    ensures
        match resolved(opts@, conf@) {
            Err(error) => run_outcome(r) == Err::<RunView, ErrorView>(error),
            Ok(config) => exists|state: Seq<char>|
                is_state_of(opts@.state, state) && #[trigger] launched(
                    config,
                    state,
                    opts@.passive,
                    opts@.interactive,
                ) == run_outcome(r),
        },
        r matches Ok(run) ==> {
            &&& resolved(opts@, conf@) matches Ok(config)
            &&& is_state_of(opts@.state, run@.listener.state)
            &&& request_has_room(config, run@.listener.state)
            &&& parsed_url(config.auth_url) is Ok
            &&& launched(config, run@.listener.state, opts@.passive, opts@.interactive) == Ok::<
                RunView,
                ErrorView,
            >(run@)
        },
        r matches Err(error) ==> match resolved(opts@, conf@) {
            Err(missing) => error@ == missing,
            Ok(config) => error@ == too_long() || (error@ is UrlParseError && parsed_url(
                config.auth_url,
            ) == Err::<Seq<char>, Seq<char>>(error@.message())),
        },
        resolved(opts@, conf@) matches Ok(config) ==> (parsed_url(config.auth_url) matches Err(
            message,
        ) ==> run_outcome(r) == Err::<RunView, ErrorView>(ErrorView::UrlParseError(message))),
        opts@.state matches Some(token) ==> (r is Ok <==> (resolved(opts@, conf@) matches Ok(
            config,
        ) && request_has_room(config, token) && parsed_url(config.auth_url) is Ok)),
{
    match resolve(opts, conf) {
        Err(error) => Err(error),
        Ok(config) => {
            let state = StateToken::obtain(&opts.state);
            let ghost token = state@;
            let ghost settled = config@;
            let r = launch(config, state, opts.passive, opts.interactive);
            assert(launched(settled, token, opts@.passive, opts@.interactive) == run_outcome(r));
            r
        },
    }
}

} // verus!
