//! The exchange of an authorization code for a token: the request to send
//! to the token endpoint, and the reading of what comes back.

use vstd::prelude::*;
use vstd::string::*;
use crate::bindings::{
    form_encode,
    form_encoded,
    parse_url,
    parsed_json,
    parsed_url,
    rendered_page,
    text_outcome,
};
use crate::oauth2::{Resolved, ResolvedView};
use crate::oauth2::callback::CallbackQuery;
use crate::oauth2::render::{
    is_template_page,
    reading,
    render_error_detail,
    render_response,
    rendering,
    showing,
    Payload,
    Rejection,
    RejectionView,
    Reply,
    ReplyView,
    TEMPLATE_ERROR_DETAIL,
    TEMPLATE_SUCCESS,
    STATUS_BAD_REQUEST,
    STATUS_INTERNAL_SERVER_ERROR,
    STATUS_OK,
    STATUS_UNAUTHORIZED,
};
use crate::text::{decimal, decimal_text};

verus! {

/// The content type of the request's body.
pub const FORM_CONTENT_TYPE: &'static str = "application/x-www-form-urlencoded";

/// The grant type that is named where the configuration sets none.
pub const DEFAULT_GRANT_TYPE: &'static str = "code";

/// What to post to the token endpoint: the endpoint's URL and the
/// form-encoded body.
#[derive(Clone, Debug)]
pub struct TokenExchangeRequest {
    pub url: String,
    pub body: String,
}

/// A `TokenExchangeRequest`, as texts.
pub ghost struct TokenExchangeRequestView {
    pub url: Seq<char>,
    pub body: Seq<char>,
}

impl View for TokenExchangeRequest {
    type V = TokenExchangeRequestView;

    open spec fn view(&self) -> TokenExchangeRequestView {
        TokenExchangeRequestView { url: self.url@, body: self.body@ }
    }
}

/// The grant type that a configuration names.
pub open spec fn grant_type_of(config: ResolvedView) -> Seq<char> {
    match config.grant_type {
        Some(grant_type) => grant_type,
        None => DEFAULT_GRANT_TYPE@,
    }
}

/// The fields of the request's body, in the order in which they are encoded.
pub open spec fn exchange_params(
    grant_type: Seq<char>,
    code: Seq<char>,
    client_id: Seq<char>,
    client_secret: Seq<char>,
) -> Seq<(Seq<char>, Seq<char>)> {
    seq![
        ("grant_type"@, grant_type),
        ("code"@, code),
        ("client_id"@, client_id),
        ("client_secret"@, client_secret),
    ]
}

/// A rejection with the given status and message.
pub open spec fn rejection(status: u16, message: Seq<char>) -> RejectionView {
    RejectionView { status, message }
}

/// What is made of the URL library's answer on the token URL: the URL as
/// the library writes it, or a rejection (500) with the library's message.
pub open spec fn token_endpoint(parsed: Result<Seq<char>, Seq<char>>) -> Result<
    Seq<char>,
    RejectionView,
> {
    match parsed {
        Ok(url) => Ok(url),
        Err(message) => Err(
            rejection(STATUS_INTERNAL_SERVER_ERROR, "Could not parse token URL: "@ + message),
        ),
    }
}

/// What is made of the form encoder's answer on the request's fields: the
/// request to that URL with the encoded body, or a rejection (500) with the
/// encoder's message.
pub open spec fn assembled(url: Seq<char>, encoded: Result<Seq<char>, Seq<char>>) -> Result<
    TokenExchangeRequestView,
    RejectionView,
> {
    match encoded {
        Ok(body) => Ok(TokenExchangeRequestView { url, body }),
        Err(message) => Err(
            rejection(
                STATUS_INTERNAL_SERVER_ERROR,
                "Could not encode token exchange params: "@ + message,
            ),
        ),
    }
}

/// The request that trades the code of a callback for a token, or why none
/// can be sent. Looked at in this order: the token URL must be configured
/// (else 500), the callback must bring a code (else 400), the token URL must
/// be a URL (else 500), the client secret must be configured (else 500), and
/// the body must encode (else 500).
pub open spec fn exchange_request(config: ResolvedView, query: Map<Seq<char>, Seq<char>>) -> Result<
    TokenExchangeRequestView,
    RejectionView,
> {
    if config.token_url is None {
        Err(rejection(STATUS_INTERNAL_SERVER_ERROR, "No token defined in configuration"@))
    } else if !query.contains_key("code"@) {
        Err(rejection(STATUS_BAD_REQUEST, "No authorization code provided"@))
    } else {
        match token_endpoint(parsed_url(config.token_url->0)) {
            Err(rejection) => Err(rejection),
            Ok(url) => if config.client_secret is None {
                Err(
                    rejection(
                        STATUS_INTERNAL_SERVER_ERROR,
                        "No client secret defined in configuration"@,
                    ),
                )
            } else {
                assembled(
                    url,
                    form_encoded(
                        exchange_params(
                            grant_type_of(config),
                            query["code"@],
                            config.client_id,
                            config.client_secret->0,
                        ),
                    ),
                )
            },
        }
    }
}

/// A request or the rejection that took its place, as texts.
pub open spec fn prepared(r: Result<TokenExchangeRequest, Rejection>) -> Result<
    TokenExchangeRequestView,
    RejectionView,
> {
    match r {
        Ok(request) => Ok(request@),
        Err(rejection) => Err(rejection@),
    }
}

impl TokenExchangeRequest {
    /// Takes the URL library's answer on the token URL: the URL to post to,
    /// or the rejection that shows the library's message.
    pub fn endpoint(parsed: Result<String, String>) -> (r: Result<String, Rejection>)
        ensures
            rendering(r) == token_endpoint(text_outcome(parsed)),
    {
        match parsed {
            Ok(url) => Ok(url),
            Err(message) => Err(
                Rejection::with_detail(
                    STATUS_INTERNAL_SERVER_ERROR,
                    "Could not parse token URL: ",
                    message.as_str(),
                ),
            ),
        }
    }

    /// Takes the form encoder's answer on the request's fields: the request
    /// to post, or the rejection that shows the encoder's message.
    pub fn assemble(url: String, encoded: Result<String, String>) -> (r: Result<
        TokenExchangeRequest,
        Rejection,
    >)
        ensures
            prepared(r) == assembled(url@, text_outcome(encoded)),
    {
        match encoded {
            Ok(body) => Ok(TokenExchangeRequest { url, body }),
            Err(message) => Err(
                Rejection::with_detail(
                    STATUS_INTERNAL_SERVER_ERROR,
                    "Could not encode token exchange params: ",
                    message.as_str(),
                ),
            ),
        }
    }

    /// Prepares the request that trades the code of a callback for a token.
    pub fn prepare(config: &Resolved, query: &CallbackQuery) -> (r: Result<
        TokenExchangeRequest,
        Rejection,
    >)
        ensures
            prepared(r) == exchange_request(config@, query@),
    {
        let token_url = match config.token_url() {
            Some(url) => url,
            None => {
                return Err(
                    Rejection::new(
                        STATUS_INTERNAL_SERVER_ERROR,
                        "No token defined in configuration",
                    ),
                );
            },
        };
        let code = match query.get("code") {
            Some(code) => code,
            None => {
                return Err(Rejection::new(STATUS_BAD_REQUEST, "No authorization code provided"));
            },
        };
        let url = match TokenExchangeRequest::endpoint(parse_url(token_url.as_str())) {
            Ok(url) => url,
            Err(rejection) => {
                return Err(rejection);
            },
        };
        let client_secret = match config.client_secret() {
            Some(secret) => secret,
            None => {
                return Err(
                    Rejection::new(
                        STATUS_INTERNAL_SERVER_ERROR,
                        "No client secret defined in configuration",
                    ),
                );
            },
        };
        let grant_type = match config.grant_type() {
            Some(grant_type) => grant_type.clone(),
            None => String::from_str(DEFAULT_GRANT_TYPE),
        };
        let mut params: Vec<(String, String)> = Vec::new();
        params.push((String::from_str("grant_type"), grant_type));
        params.push((String::from_str("code"), code.clone()));
        params.push((String::from_str("client_id"), String::from_str(config.client_id())));
        params.push((String::from_str("client_secret"), client_secret.clone()));
        assert(params.deep_view() =~= exchange_params(
            grant_type_of(config@),
            query@["code"@],
            config@.client_id,
            config@.client_secret->0,
        ));
        TokenExchangeRequest::assemble(url, form_encode(&params))
    }
}

/// What became of a request to the token endpoint.
#[derive(Clone, Debug)]
pub enum ExchangeEvent {
    /// The request could not be sent; the text says why.
    SendFailed(String),
    /// An answer began but its body could not be read; the text says why.
    ReceiveFailed(String),
    /// The endpoint answered with this status and this body.
    Response { status: u16, body: Vec<u8> },
}

/// An `ExchangeEvent`, with texts as sequences of characters.
pub ghost enum ExchangeEventView {
    SendFailed(Seq<char>),
    ReceiveFailed(Seq<char>),
    Response { status: u16, body: Seq<u8> },
}

impl View for ExchangeEvent {
    type V = ExchangeEventView;

    open spec fn view(&self) -> ExchangeEventView {
        match self {
            ExchangeEvent::SendFailed(message) => ExchangeEventView::SendFailed(message@),
            ExchangeEvent::ReceiveFailed(message) => ExchangeEventView::ReceiveFailed(message@),
            ExchangeEvent::Response { status, body } => ExchangeEventView::Response {
                status: *status,
                body: body@,
            },
        }
    }
}

/// How an exchange ended, once the token endpoint has given an answer that
/// can be read.
#[derive(Clone, Debug)]
pub enum ExchangeOutcome {
    /// Status 200: the endpoint granted a token; this is its answer.
    Success(Payload),
    /// Status 400: the endpoint turned the code down; this is its answer.
    RemoteRejected(Payload),
    /// Any other status; the answer is dropped.
    OtherStatus(u16),
}

/// An `ExchangeOutcome`, with the endpoint's answer as JSON text.
pub ghost enum ExchangeOutcomeView {
    Success(Seq<char>),
    RemoteRejected(Seq<char>),
    OtherStatus(u16),
}

impl View for ExchangeOutcome {
    type V = ExchangeOutcomeView;

    open spec fn view(&self) -> ExchangeOutcomeView {
        match self {
            ExchangeOutcome::Success(data) => ExchangeOutcomeView::Success(data@),
            ExchangeOutcome::RemoteRejected(data) => ExchangeOutcomeView::RemoteRejected(data@),
            ExchangeOutcome::OtherStatus(status) => ExchangeOutcomeView::OtherStatus(*status),
        }
    }
}

/// What is made of the JSON parser's answer on the body of a response: the
/// status with the answer as JSON text, or, for a body that is no JSON, a
/// rejection (500) with the parser's message.
pub open spec fn answered(status: u16, read: Result<Seq<char>, Seq<char>>) -> Result<
    (u16, Seq<char>),
    RejectionView,
> {
    match read {
        Ok(data) => Ok((status, data)),
        Err(message) => Err(
            rejection(STATUS_INTERNAL_SERVER_ERROR, "Could not receive response: "@ + message),
        ),
    }
}

/// The status and the answer of the token endpoint, the answer as JSON text,
/// or the rejection that is shown where there is none to read: a request
/// that could not be sent, and an answer that could not be read or is no
/// JSON, are failures of the consumer's own side (500).
pub open spec fn received(event: ExchangeEventView) -> Result<(u16, Seq<char>), RejectionView> {
    match event {
        ExchangeEventView::SendFailed(message) => Err(
            rejection(STATUS_INTERNAL_SERVER_ERROR, "Could not send request: "@ + message),
        ),
        ExchangeEventView::ReceiveFailed(message) => Err(
            rejection(STATUS_INTERNAL_SERVER_ERROR, "Could not receive response: "@ + message),
        ),
        ExchangeEventView::Response { status, body } => answered(status, parsed_json(body)),
    }
}

/// The outcome that a status and an answer stand for: 200 is a granted
/// token, 400 a code that was turned down, and every other status stands
/// for itself.
pub open spec fn classified(status: u16, data: Seq<char>) -> ExchangeOutcomeView {
    if status == STATUS_OK {
        ExchangeOutcomeView::Success(data)
    } else if status == STATUS_BAD_REQUEST {
        ExchangeOutcomeView::RemoteRejected(data)
    } else {
        ExchangeOutcomeView::OtherStatus(status)
    }
}

/// A status with an answer, or the rejection that took their place, as texts.
pub open spec fn reception(r: Result<(u16, Payload), Rejection>) -> Result<
    (u16, Seq<char>),
    RejectionView,
> {
    match r {
        Ok((status, data)) => Ok((status, data@)),
        Err(rejection) => Err(rejection@),
    }
}

impl ExchangeOutcomeView {
    /// The message that shows a status which is neither 200 nor 400: the
    /// number alone.
    pub open spec fn status_message(status: u16) -> Seq<char> {
        "Request failed with status: "@ + decimal_text(status as nat)
    }

    /// Whether the page that shows this outcome can be rendered.
    pub open spec fn renders(self) -> bool {
        match self {
            ExchangeOutcomeView::Success(data) => rendered_page(TEMPLATE_SUCCESS@, data) is Some,
            ExchangeOutcomeView::RemoteRejected(data) => rendered_page(
                TEMPLATE_ERROR_DETAIL@,
                data,
            ) is Some,
            ExchangeOutcomeView::OtherStatus(_) => true,
        }
    }

    /// Whether `shown` is what showing this outcome comes to. A granted
    /// token is shown as 200 on the page with the whole answer, a code turned
    /// down as 401 on the page with the whole answer, any other status as
    /// 401 on the page with the number alone. An answer whose page cannot be
    /// rendered is not shown: a rejection (500) says so.
    pub open spec fn is_shown(self, shown: Result<ReplyView, RejectionView>) -> bool {
        match self {
            ExchangeOutcomeView::Success(data) => match shown {
                Ok(reply) => reply.status == STATUS_OK && is_template_page(
                    Ok(reply.body),
                    TEMPLATE_SUCCESS@,
                    data,
                ),
                Err(rejection) => is_template_page(Err(rejection), TEMPLATE_SUCCESS@, data),
            },
            ExchangeOutcomeView::RemoteRejected(data) => match shown {
                Ok(reply) => reply.status == STATUS_UNAUTHORIZED && is_template_page(
                    Ok(reply.body),
                    TEMPLATE_ERROR_DETAIL@,
                    data,
                ),
                Err(rejection) => is_template_page(Err(rejection), TEMPLATE_ERROR_DETAIL@, data),
            },
            ExchangeOutcomeView::OtherStatus(status) => shown matches Ok(reply) && rejection(
                STATUS_UNAUTHORIZED,
                ExchangeOutcomeView::status_message(status),
            ).shown_by(reply),
        }
    }
}

/// Takes the JSON parser's answer on the body of a response: the status
/// with the answer, or the rejection that shows the parser's message.
pub fn answer(status: u16, read: Result<Payload, String>) -> (r: Result<(u16, Payload), Rejection>)
    ensures
        reception(r) == answered(status, reading(read)),
{
    match read {
        Ok(data) => Ok((status, data)),
        Err(message) => Err(
            Rejection::with_detail(
                STATUS_INTERNAL_SERVER_ERROR,
                "Could not receive response: ",
                message.as_str(),
            ),
        ),
    }
}

/// Reads what became of a request to the token endpoint: the status and the
/// JSON answer, or why there is none.
pub fn receive(event: &ExchangeEvent) -> (r: Result<(u16, Payload), Rejection>)
    ensures
        reception(r) == received(event@),
{
    match event {
        ExchangeEvent::SendFailed(message) => Err(
            Rejection::with_detail(
                STATUS_INTERNAL_SERVER_ERROR,
                "Could not send request: ",
                message.as_str(),
            ),
        ),
        ExchangeEvent::ReceiveFailed(message) => Err(
            Rejection::with_detail(
                STATUS_INTERNAL_SERVER_ERROR,
                "Could not receive response: ",
                message.as_str(),
            ),
        ),
        ExchangeEvent::Response { status, body } => answer(*status, Payload::read(body.as_slice())),
    }
}

impl ExchangeOutcome {
    /// Tells the outcomes apart by the status of the answer.
    pub fn classify(status: u16, data: Payload) -> (outcome: ExchangeOutcome)
        ensures
            outcome@ == classified(status, data@),
    {
        if status == STATUS_OK {
            ExchangeOutcome::Success(data)
        } else if status == STATUS_BAD_REQUEST {
            ExchangeOutcome::RemoteRejected(data)
        } else {
            ExchangeOutcome::OtherStatus(status)
        }
    }

    /// Renders the reply that shows this outcome.
    pub fn render(&self) -> (r: Result<Reply, Rejection>)
        ensures
            self@.is_shown(showing(r)),
    {
        match self {
            ExchangeOutcome::Success(data) => Reply::page(STATUS_OK, render_response(data)),
            ExchangeOutcome::RemoteRejected(data) => Reply::page(
                STATUS_UNAUTHORIZED,
                render_error_detail(data),
            ),
            ExchangeOutcome::OtherStatus(status) => {
                let number = decimal(*status);
                Ok(
                    Rejection::with_detail(
                        STATUS_UNAUTHORIZED,
                        "Request failed with status: ",
                        number.as_str(),
                    ).render(),
                )
            },
        }
    }
}

} // verus!
