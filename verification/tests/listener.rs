use oauth2_probe::oauth2::callback::CallbackQuery;
use oauth2_probe::oauth2::exchange::{
    answer, receive, ExchangeEvent, ExchangeOutcome, TokenExchangeRequest, DEFAULT_GRANT_TYPE,
    FORM_CONTENT_TYPE,
};
use oauth2_probe::oauth2::listener::{
    CallbackAction, Listener, Phase, ShutdownSignal, CALLBACK_HOST, CALLBACK_PATH, CALLBACK_PORT,
};
use oauth2_probe::oauth2::render::{
    page_or_line, page_or_rejection, render_error, render_error_detail, render_response,
    render_template, Payload, Rejection, Reply, TEMPLATE_ERROR, TEMPLATE_ERROR_DETAIL,
    TEMPLATE_SUCCESS,
};
use oauth2_probe::oauth2::state::StateToken;
use oauth2_probe::oauth2::{Consumer, Resolved};

fn consumer() -> Consumer {
    Consumer {
        client_id: Some("my-client".to_string()),
        client_secret: Some("s3cret".to_string()),
        auth_url: Some("https://auth.example.com/authorize".to_string()),
        token_url: Some("https://auth.example.com/token".to_string()),
        return_url: None,
        grant_type: None,
        scopes: vec!["read".to_string()],
    }
}

fn resolved(consumer: Consumer) -> Resolved {
    consumer.resolve().unwrap()
}

fn listener_for(consumer: Consumer, state: &str) -> Listener {
    Listener::new(resolved(consumer), StateToken::supplied(state.to_string()))
}

fn query(pairs: &[(&str, &str)]) -> CallbackQuery {
    let mut query = CallbackQuery::new();
    for (name, value) in pairs {
        query.insert(name.to_string(), value.to_string());
    }
    query
}

fn payload(json: &str) -> Payload {
    Payload::read(json.as_bytes()).unwrap()
}

fn response(status: u16, body: &str) -> ExchangeEvent {
    ExchangeEvent::Response { status, body: body.as_bytes().to_vec() }
}

fn reply_of(action: CallbackAction) -> Reply {
    match action {
        CallbackAction::Respond(reply) => reply,
        CallbackAction::Exchange(request) => panic!("asked to post {:?}", request),
    }
}

fn request_of(action: CallbackAction) -> TokenExchangeRequest {
    match action {
        CallbackAction::Exchange(request) => request,
        CallbackAction::Respond(reply) => panic!("answered {:?}", reply),
    }
}

#[test]
fn query_holds_one_value_for_a_name() {
    let mut query = CallbackQuery::new();
    assert_eq!(query.get("state"), None);
    query.insert("state".to_string(), "one".to_string());
    query.insert("code".to_string(), "abc".to_string());
    query.insert("state".to_string(), "two".to_string());
    assert_eq!(query.get("state"), Some(&"two".to_string()));
    assert_eq!(query.get("code"), Some(&"abc".to_string()));
    assert_eq!(query.get("error"), None);
}

#[test]
fn new_listener_listens() {
    let listener = listener_for(consumer(), "XYZ");
    assert_eq!(listener.phase(), Phase::Listening);
    assert!(!listener.has_fired());
    assert_eq!(listener.state().as_str(), "XYZ");
    assert_eq!(listener.config().client_id(), "my-client");
}

#[test]
fn callback_with_another_state_is_turned_down() {
    let mut listener = listener_for(consumer(), "XYZ");
    let reply = reply_of(listener.on_callback(&query(&[("state", "ABC"), ("code", "abc123")])));
    assert_eq!(reply.status, 400);
    assert!(reply.body.contains("State mismatch"));
    assert_eq!(listener.phase(), Phase::Listening);
    assert!(!listener.has_fired());
}

#[test]
fn callback_state_is_compared_exactly() {
    let mut listener = listener_for(consumer(), "XYZ");
    for other in ["xyz", "XYZ ", " XYZ", "XY", ""] {
        let reply = reply_of(listener.on_callback(&query(&[("state", other), ("code", "abc")])));
        assert_eq!(reply.status, 400);
        assert!(reply.body.contains("State mismatch"));
    }
    assert!(!listener.has_fired());
}

#[test]
fn callback_without_state_is_turned_down() {
    let mut listener = listener_for(consumer(), "XYZ");
    let reply = reply_of(listener.on_callback(&query(&[("code", "abc123")])));
    assert_eq!(reply.status, 400);
    assert!(reply.body.contains("No state provided"));
    assert_eq!(listener.phase(), Phase::Listening);
    assert!(!listener.has_fired());
}

#[test]
fn empty_callback_is_turned_down() {
    let mut listener = listener_for(consumer(), "XYZ");
    let reply = reply_of(listener.on_callback(&query(&[])));
    assert_eq!(reply.status, 400);
    assert!(reply.body.contains("No state provided"));
}

#[test]
fn callback_with_an_error_is_turned_down_whatever_else_it_brings() {
    let mut listener = listener_for(consumer(), "XYZ");
    let reply = reply_of(listener.on_callback(&query(&[
        ("error", "access_denied"),
        ("state", "XYZ"),
        ("code", "abc123"),
    ])));
    assert_eq!(reply.status, 400);
    assert!(reply.body.contains("An error occurred: access_denied"));
    assert_eq!(listener.phase(), Phase::Listening);
    assert!(!listener.has_fired());
    let reply = reply_of(listener.on_callback(&query(&[("error", "")])));
    assert_eq!(reply.status, 400);
    assert!(!listener.has_fired());
}

#[test]
fn validate_names_the_first_fault() {
    let state = StateToken::supplied("XYZ".to_string());
    let rejection = Listener::validate(&state, &query(&[("error", "denied")])).unwrap_err();
    assert_eq!(rejection.status, 400);
    assert_eq!(rejection.message, "An error occurred: denied");
    let rejection = Listener::validate(&state, &query(&[("code", "c")])).unwrap_err();
    assert_eq!(rejection.status, 400);
    assert_eq!(rejection.message, "No state provided");
    let rejection = Listener::validate(&state, &query(&[("state", "ABC")])).unwrap_err();
    assert_eq!(rejection.status, 400);
    assert_eq!(rejection.message, "State mismatch");
    assert!(Listener::validate(&state, &query(&[("state", "XYZ")])).is_ok());
}

#[test]
fn callback_without_token_url_is_a_local_failure() {
    let mut consumer = consumer();
    consumer.token_url = None;
    let mut listener = listener_for(consumer, "XYZ");
    let reply = reply_of(listener.on_callback(&query(&[("state", "XYZ"), ("code", "abc123")])));
    assert_eq!(reply.status, 500);
    assert!(reply.body.contains("No token defined in configuration"));
    assert_eq!(listener.phase(), Phase::Listening);
    assert!(!listener.has_fired());
}

#[test]
fn callback_without_code_is_turned_down() {
    let mut listener = listener_for(consumer(), "XYZ");
    let reply = reply_of(listener.on_callback(&query(&[("state", "XYZ")])));
    assert_eq!(reply.status, 400);
    assert!(reply.body.contains("No authorization code provided"));
    assert_eq!(listener.phase(), Phase::Listening);
}

#[test]
fn missing_token_url_is_named_before_a_missing_code() {
    let mut consumer = consumer();
    consumer.token_url = None;
    let rejection =
        TokenExchangeRequest::prepare(&resolved(consumer), &query(&[("state", "XYZ")])).unwrap_err();
    assert_eq!(rejection.status, 500);
    assert_eq!(rejection.message, "No token defined in configuration");
}

#[test]
fn token_url_that_is_no_url_is_a_local_failure() {
    let mut consumer = consumer();
    consumer.token_url = Some("token".to_string());
    let config = resolved(consumer);
    let rejection =
        TokenExchangeRequest::prepare(&config, &query(&[("code", "abc123")])).unwrap_err();
    assert_eq!(rejection.status, 500);
    assert_eq!(rejection.message, "Could not parse token URL: relative URL without a base");
    let mut listener = Listener::new(config, StateToken::supplied("XYZ".to_string()));
    let reply = reply_of(listener.on_callback(&query(&[("state", "XYZ"), ("code", "abc123")])));
    assert_eq!(reply.status, 500);
    assert!(reply.body.contains("Could not parse token URL: relative URL without a base"));
    assert_eq!(listener.phase(), Phase::Listening);
}

#[test]
fn missing_secret_shows_only_at_the_exchange() {
    let mut consumer = consumer();
    consumer.client_secret = None;
    let mut listener = listener_for(consumer, "XYZ");
    let reply = reply_of(listener.on_callback(&query(&[("state", "ABC"), ("code", "abc123")])));
    assert_eq!(reply.status, 400);
    let reply = reply_of(listener.on_callback(&query(&[("state", "XYZ")])));
    assert_eq!(reply.status, 400);
    let reply = reply_of(listener.on_callback(&query(&[("state", "XYZ"), ("code", "abc123")])));
    assert_eq!(reply.status, 500);
    assert!(reply.body.contains("No client secret defined in configuration"));
    assert_eq!(listener.phase(), Phase::Listening);
    assert!(!listener.has_fired());
}

#[test]
fn accepted_callback_asks_for_the_exchange() {
    let mut listener = listener_for(consumer(), "XYZ");
    let request =
        request_of(listener.on_callback(&query(&[("state", "XYZ"), ("code", "abc123")])));
    assert_eq!(request.url, "https://auth.example.com/token");
    assert_eq!(
        request.body,
        "grant_type=code&code=abc123&client_id=my-client&client_secret=s3cret"
    );
    assert_eq!(listener.phase(), Phase::ExchangingToken);
    assert!(!listener.has_fired());
}

#[test]
fn exchange_request_names_the_configured_grant_type() {
    let mut consumer = consumer();
    consumer.grant_type = Some("authorization_code".to_string());
    let request =
        TokenExchangeRequest::prepare(&resolved(consumer), &query(&[("code", "abc123")])).unwrap();
    assert_eq!(
        request.body,
        "grant_type=authorization_code&code=abc123&client_id=my-client&client_secret=s3cret"
    );
}

#[test]
fn exchange_request_encodes_its_fields() {
    let mut consumer = consumer();
    consumer.client_secret = Some("p&ss=w rd".to_string());
    consumer.token_url = Some("HTTPS://Auth.Example.COM/token?x=1".to_string());
    let request =
        TokenExchangeRequest::prepare(&resolved(consumer), &query(&[("code", "a b/c")])).unwrap();
    assert_eq!(request.url, "https://auth.example.com/token?x=1");
    assert_eq!(
        request.body,
        "grant_type=code&code=a+b%2Fc&client_id=my-client&client_secret=p%26ss%3Dw+rd"
    );
}

#[test]
fn callback_route_is_fixed() {
    assert_eq!(CALLBACK_HOST, [127, 0, 0, 1]);
    assert_eq!(CALLBACK_PORT, 4000);
    assert_eq!(CALLBACK_PATH, "return");
}

#[test]
fn exchange_constants() {
    assert_eq!(FORM_CONTENT_TYPE, "application/x-www-form-urlencoded");
    assert_eq!(DEFAULT_GRANT_TYPE, "code");
}

#[test]
fn granted_token_is_shown_and_completes() {
    let mut listener = listener_for(consumer(), "XYZ");
    request_of(listener.on_callback(&query(&[("state", "XYZ"), ("code", "abc123")])));
    let completion = listener.on_exchange(&response(200, "{\"access_token\":\"abc\"}"));
    assert_eq!(completion.reply.status, 200);
    assert!(completion.reply.body.contains("Connection created"));
    assert!(completion.reply.body.contains("<code>access_token</code>"));
    assert!(completion.reply.body.contains("<code>abc</code>"));
    assert!(completion.shutdown);
    assert_eq!(completion.payload, Some("{\"access_token\":\"abc\"}".to_string()));
    assert_eq!(listener.phase(), Phase::Completed);
    assert!(listener.has_fired());
}

#[test]
fn refused_code_is_shown_as_unauthorized_and_completes() {
    let mut listener = listener_for(consumer(), "XYZ");
    request_of(listener.on_callback(&query(&[("state", "XYZ"), ("code", "abc123")])));
    let completion = listener.on_exchange(&response(
        400,
        "{\"error\":\"invalid_grant\",\"error_description\":\"expired\"}",
    ));
    assert_eq!(completion.reply.status, 401);
    assert!(completion.reply.body.contains("An error occurred"));
    assert!(completion.reply.body.contains("<code>error</code>"));
    assert!(completion.reply.body.contains("<code>invalid_grant</code>"));
    assert!(completion.reply.body.contains("<code>error_description</code>"));
    assert!(completion.reply.body.contains("<code>expired</code>"));
    assert!(completion.shutdown);
    assert_eq!(listener.phase(), Phase::Completed);
    assert!(listener.has_fired());
}

#[test]
fn any_other_status_is_shown_by_its_number_and_completes() {
    let mut listener = listener_for(consumer(), "XYZ");
    request_of(listener.on_callback(&query(&[("state", "XYZ"), ("code", "abc123")])));
    let completion = listener.on_exchange(&response(503, "{\"detail\":\"busy\"}"));
    assert_eq!(completion.reply.status, 401);
    assert!(completion.reply.body.contains("<p>Request failed with status: 503</p>"));
    assert!(!completion.reply.body.contains("busy"));
    assert!(completion.shutdown);
    assert_eq!(completion.payload, Some("{\"detail\":\"busy\"}".to_string()));
    assert_eq!(listener.phase(), Phase::Completed);
}

#[test]
fn answer_that_is_no_json_keeps_the_listener_listening() {
    let mut listener = listener_for(consumer(), "XYZ");
    request_of(listener.on_callback(&query(&[("state", "XYZ"), ("code", "abc123")])));
    let completion = listener.on_exchange(&response(200, "<html>oops</html>"));
    assert_eq!(completion.reply.status, 500);
    assert!(completion.reply.body.contains("Could not receive response: expected value"));
    assert!(!completion.shutdown);
    assert_eq!(completion.payload, None);
    assert_eq!(listener.phase(), Phase::Listening);
    assert!(!listener.has_fired());
}

#[test]
fn empty_answer_keeps_the_listener_listening() {
    let mut listener = listener_for(consumer(), "XYZ");
    let completion = listener.on_exchange(&response(200, ""));
    assert_eq!(completion.reply.status, 500);
    assert!(completion.reply.body.contains("Could not receive response: EOF while parsing a value"));
    assert!(!completion.shutdown);
    assert!(!listener.has_fired());
}

#[test]
fn request_that_could_not_be_sent_keeps_the_listener_listening() {
    let mut listener = listener_for(consumer(), "XYZ");
    request_of(listener.on_callback(&query(&[("state", "XYZ"), ("code", "abc123")])));
    let completion =
        listener.on_exchange(&ExchangeEvent::SendFailed("connection refused".to_string()));
    assert_eq!(completion.reply.status, 500);
    assert!(completion.reply.body.contains("Could not send request: connection refused"));
    assert!(!completion.shutdown);
    assert_eq!(listener.phase(), Phase::Listening);
    assert!(!listener.has_fired());
}

#[test]
fn answer_that_could_not_be_read_keeps_the_listener_listening() {
    let mut listener = listener_for(consumer(), "XYZ");
    request_of(listener.on_callback(&query(&[("state", "XYZ"), ("code", "abc123")])));
    let completion =
        listener.on_exchange(&ExchangeEvent::ReceiveFailed("connection reset".to_string()));
    assert_eq!(completion.reply.status, 500);
    assert!(completion.reply.body.contains("Could not receive response: connection reset"));
    assert!(!completion.shutdown);
    assert_eq!(listener.phase(), Phase::Listening);
}

#[test]
fn failed_exchange_can_be_tried_again() {
    let mut listener = listener_for(consumer(), "XYZ");
    let accepted = query(&[("state", "XYZ"), ("code", "abc123")]);
    request_of(listener.on_callback(&accepted));
    let first = listener.on_exchange(&ExchangeEvent::SendFailed("timed out".to_string()));
    assert!(!first.shutdown);
    request_of(listener.on_callback(&accepted));
    assert_eq!(listener.phase(), Phase::ExchangingToken);
    let second = listener.on_exchange(&response(200, "{\"access_token\":\"abc\"}"));
    assert!(second.shutdown);
    assert_eq!(listener.phase(), Phase::Completed);
}

#[test]
fn signal_fires_once_however_many_callbacks_fail() {
    let mut listener = listener_for(consumer(), "XYZ");
    let mut fired = 0;
    for _ in 0..2 {
        let reply = reply_of(listener.on_callback(&query(&[("state", "ABC"), ("code", "c")])));
        assert_eq!(reply.status, 400);
        assert!(!listener.has_fired());
    }
    for body in ["nonsense", "{\"access_token\":\"abc\"}", "{\"access_token\":\"def\"}", "nonsense"] {
        request_of(listener.on_callback(&query(&[("state", "XYZ"), ("code", "c")])));
        if listener.on_exchange(&response(200, body)).shutdown {
            fired += 1;
        }
    }
    assert_eq!(fired, 1);
    assert!(listener.has_fired());
    assert_eq!(listener.phase(), Phase::Completed);
}

#[test]
fn completed_listener_stays_completed() {
    let mut listener = listener_for(consumer(), "XYZ");
    assert!(listener.on_exchange(&response(400, "{}")).shutdown);
    let reply = reply_of(listener.on_callback(&query(&[("state", "ABC")])));
    assert_eq!(reply.status, 400);
    assert_eq!(listener.phase(), Phase::Completed);
    request_of(listener.on_callback(&query(&[("state", "XYZ"), ("code", "c")])));
    assert_eq!(listener.phase(), Phase::Completed);
    let again = listener.on_exchange(&ExchangeEvent::SendFailed("late".to_string()));
    assert_eq!(again.reply.status, 500);
    assert!(!again.shutdown);
    assert_eq!(listener.phase(), Phase::Completed);
    let again = listener.on_exchange(&response(200, "{\"access_token\":\"abc\"}"));
    assert_eq!(again.reply.status, 200);
    assert!(!again.shutdown);
    assert!(listener.has_fired());
}

#[test]
fn shutdown_signal_fires_once() {
    let mut signal = ShutdownSignal::new();
    assert!(!signal.fired());
    assert!(signal.fire());
    assert!(signal.fired());
    assert!(!signal.fire());
    assert!(!signal.fire());
    assert!(signal.fired());
}

#[test]
fn payload_is_handed_on_in_compact_form() {
    let mut listener = listener_for(consumer(), "XYZ");
    let completion =
        listener.on_exchange(&response(200, " { \"b\" : [ 1 , 2 ] ,\n \"a\" : null } "));
    assert_eq!(completion.reply.status, 200);
    assert_eq!(completion.payload, Some("{\"a\":null,\"b\":[1,2]}".to_string()));
}

#[test]
fn receive_reads_status_and_answer() {
    let (status, data) = receive(&response(201, "{\"id\": 7}")).unwrap();
    assert_eq!(status, 201);
    assert_eq!(data.as_str(), "{\"id\":7}");
    let rejection = receive(&response(200, "{")).unwrap_err();
    assert_eq!(rejection.status, 500);
    assert!(rejection.message.starts_with("Could not receive response: EOF while parsing"));
    let rejection = receive(&ExchangeEvent::SendFailed("no route".to_string())).unwrap_err();
    assert_eq!(rejection.status, 500);
    assert_eq!(rejection.message, "Could not send request: no route");
    let rejection = receive(&ExchangeEvent::ReceiveFailed("cut off".to_string())).unwrap_err();
    assert_eq!(rejection.status, 500);
    assert_eq!(rejection.message, "Could not receive response: cut off");
}

#[test]
fn classify_goes_by_the_status() {
    let data = payload("{\"k\":\"v\"}");
    assert!(matches!(ExchangeOutcome::classify(200, data.clone()), ExchangeOutcome::Success(_)));
    assert!(matches!(
        ExchangeOutcome::classify(400, data.clone()),
        ExchangeOutcome::RemoteRejected(_)
    ));
    for status in [0, 199, 201, 204, 302, 399, 401, 403, 404, 500, 599, 65535] {
        match ExchangeOutcome::classify(status, data.clone()) {
            ExchangeOutcome::OtherStatus(kept) => assert_eq!(kept, status),
            other => panic!("status {} classified as {:?}", status, other),
        }
    }
}

#[test]
fn outcome_renders_by_its_kind() {
    let data = payload("{\"k\":\"v\"}");
    let reply = ExchangeOutcome::Success(data.clone()).render().unwrap();
    assert_eq!(reply.status, 200);
    assert_eq!(reply.body, render_response(&data).unwrap());
    let reply = ExchangeOutcome::RemoteRejected(data.clone()).render().unwrap();
    assert_eq!(reply.status, 401);
    assert_eq!(reply.body, render_error_detail(&data).unwrap());
    let reply = ExchangeOutcome::OtherStatus(404).render().unwrap();
    assert_eq!(reply.status, 401);
    assert_eq!(reply.body, render_error("Request failed with status: 404"));
}

#[test]
fn error_page_shows_the_message() {
    let page = render_error("State mismatch");
    assert!(page.starts_with("<html>"));
    assert!(page.contains("<h1>An error occurred</h1>"));
    assert!(page.contains("<p>State mismatch</p>"));
    assert!(!page.contains("{{"));
}

#[test]
fn error_page_escapes_markup() {
    let page = render_error("<script>alert(1)</script>");
    assert!(page.contains("&lt;script&gt;alert(1)&lt;/script&gt;"));
    assert!(!page.contains("<script>"));
}

#[test]
fn response_page_has_a_row_for_each_key() {
    let data = payload("{\"access_token\":\"abc\",\"expires_in\":3600}");
    let page = render_response(&data).unwrap();
    assert!(page.contains("<h1>Connection created</h1>"));
    assert!(page.contains("<td class=\"key\"><code>access_token</code></td>"));
    assert!(page.contains("<td><code>abc</code></td>"));
    assert!(page.contains("<td class=\"key\"><code>expires_in</code></td>"));
    assert!(page.contains("<td><code>3600</code></td>"));
}

#[test]
fn error_detail_page_has_a_row_for_each_key() {
    let data = payload("{\"error\":\"invalid_grant\"}");
    let page = render_error_detail(&data).unwrap();
    assert!(page.contains("<h1>An error occurred</h1>"));
    assert!(page.contains("<td class=\"key\"><code>error</code></td>"));
    assert!(page.contains("<td><code>invalid_grant</code></td>"));
}

#[test]
fn rejection_renders_with_its_status() {
    let rejection = Rejection::new(400, "No state provided");
    assert_eq!(rejection.status, 400);
    assert_eq!(rejection.message, "No state provided");
    let reply = rejection.render();
    assert_eq!(reply.status, 400);
    assert_eq!(reply.body, render_error("No state provided"));
    let rejection = Rejection::with_detail(500, "Could not parse token URL: ", "empty host");
    assert_eq!(rejection.message, "Could not parse token URL: empty host");
    assert_eq!(rejection.render().status, 500);
}

#[test]
fn payload_reads_one_json_value() {
    assert_eq!(payload(" [1, 2,\n 3] ").as_str(), "[1,2,3]");
    assert_eq!(payload("\"text\"").as_str(), "\"text\"");
    assert_eq!(payload("{\"b\":1,\"a\":{\"c\":true}}").as_str(), "{\"a\":{\"c\":true},\"b\":1}");
    assert_eq!(Payload::read(b"").unwrap_err(), "EOF while parsing a value at line 1 column 0");
    assert_eq!(Payload::read(b"{} {}").unwrap_err(), "trailing characters at line 1 column 4");
    assert_eq!(Payload::read(b"<html>").unwrap_err(), "expected value at line 1 column 1");
}

#[test]
fn payload_string_quotes_the_text() {
    assert_eq!(Payload::string("plain").as_str(), "\"plain\"");
    assert_eq!(Payload::string("a \"b\"\n").as_str(), "\"a \\\"b\\\"\\n\"");
    assert_eq!(Payload::string("").as_str(), "\"\"");
}

#[test]
fn page_or_rejection_takes_the_engines_answer() {
    assert_eq!(page_or_rejection(Ok("<p>page</p>".to_string())).unwrap(), "<p>page</p>");
    let rejection = page_or_rejection(Err("no such helper".to_string())).unwrap_err();
    assert_eq!(rejection.status, 500);
    assert_eq!(rejection.message, "Could not render template: no such helper");
}

#[test]
fn page_or_line_takes_the_engines_answer() {
    assert_eq!(page_or_line(Ok("<p>page</p>".to_string())), "<p>page</p>");
    assert_eq!(
        page_or_line(Err("no such helper".to_string())),
        "<p>Could not render template: no such helper</p>"
    );
}

#[test]
fn reply_page_gives_the_page_its_status() {
    let reply = Reply::page(200, Ok("<p>page</p>".to_string())).unwrap();
    assert_eq!(reply.status, 200);
    assert_eq!(reply.body, "<p>page</p>");
    let rejection = Reply::page(200, Err(Rejection::new(500, "broken"))).unwrap_err();
    assert_eq!(rejection.status, 500);
    assert_eq!(rejection.message, "broken");
}

#[test]
fn answer_takes_the_parsers_answer() {
    let (status, data) = answer(418, Ok(payload("{\"a\":1}"))).unwrap();
    assert_eq!(status, 418);
    assert_eq!(data.as_str(), "{\"a\":1}");
    let rejection = answer(200, Err("expected value".to_string())).unwrap_err();
    assert_eq!(rejection.status, 500);
    assert_eq!(rejection.message, "Could not receive response: expected value");
}

#[test]
fn endpoint_takes_the_url_librarys_answer() {
    assert_eq!(
        TokenExchangeRequest::endpoint(Ok("https://a.example/token".to_string())).unwrap(),
        "https://a.example/token"
    );
    let rejection = TokenExchangeRequest::endpoint(Err("empty host".to_string())).unwrap_err();
    assert_eq!(rejection.status, 500);
    assert_eq!(rejection.message, "Could not parse token URL: empty host");
}

#[test]
fn assemble_takes_the_encoders_answer() {
    let request =
        TokenExchangeRequest::assemble("https://a.example/token".to_string(), Ok("a=b".to_string()))
            .unwrap();
    assert_eq!(request.url, "https://a.example/token");
    assert_eq!(request.body, "a=b");
    let rejection = TokenExchangeRequest::assemble(
        "https://a.example/token".to_string(),
        Err("unsupported value".to_string()),
    )
    .unwrap_err();
    assert_eq!(rejection.status, 500);
    assert_eq!(rejection.message, "Could not encode token exchange params: unsupported value");
}

#[test]
fn own_templates_render_over_the_data() {
    let data = payload("{\"access_token\":\"abc\"}");
    assert_eq!(
        render_template(TEMPLATE_SUCCESS, &data).unwrap(),
        render_response(&data).unwrap()
    );
    assert_eq!(
        render_template(TEMPLATE_ERROR_DETAIL, &data).unwrap(),
        render_error_detail(&data).unwrap()
    );
    assert_eq!(
        render_template(TEMPLATE_ERROR, &Payload::string("State mismatch")).unwrap(),
        render_error("State mismatch")
    );
    let page = render_template(TEMPLATE_SUCCESS, &data).unwrap();
    assert!(page.contains("<code>access_token</code>"));
    assert!(!page.contains("{{"));
}

#[test]
fn own_templates_render_data_without_keys() {
    for json in ["{}", "[]", "null", "\"text\"", "7"] {
        let page = render_response(&payload(json)).unwrap();
        assert!(page.contains("<h1>Connection created</h1>"));
        assert!(page.contains("<table>"));
    }
}
