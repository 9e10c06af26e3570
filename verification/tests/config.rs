use oauth2_probe::error::{Error, EXIT_FAILURE};
use oauth2_probe::oauth2::Consumer;
use oauth2_probe::options::Options;

fn text(value: &str) -> Option<String> {
    Some(value.to_string())
}

fn no_options() -> Options {
    Options {
        debug: false,
        verbose: false,
        client_id: None,
        client_secret: None,
        auth_url: None,
        token_url: None,
        return_url: None,
        grant_type: None,
        scopes: Vec::new(),
        state: None,
        config: None,
        passive: false,
        interactive: false,
    }
}

fn file_config() -> Consumer {
    Consumer {
        client_id: text("file-id"),
        client_secret: text("file-secret"),
        auth_url: text("https://file.example.com/auth"),
        token_url: text("https://file.example.com/token"),
        return_url: text("http://localhost:4000/return"),
        grant_type: text("authorization_code"),
        scopes: vec!["file-a".to_string(), "file-b".to_string()],
    }
}

#[test]
fn empty_consumer_sets_nothing() {
    let consumer = Consumer::empty();
    assert_eq!(consumer.client_id, None);
    assert_eq!(consumer.client_secret, None);
    assert_eq!(consumer.auth_url, None);
    assert_eq!(consumer.token_url, None);
    assert_eq!(consumer.return_url, None);
    assert_eq!(consumer.grant_type, None);
    assert!(consumer.scopes.is_empty());
}

#[test]
fn merge_without_options_keeps_the_file() {
    let merged = no_options().merge_config(&file_config());
    assert_eq!(merged.client_id, text("file-id"));
    assert_eq!(merged.client_secret, text("file-secret"));
    assert_eq!(merged.auth_url, text("https://file.example.com/auth"));
    assert_eq!(merged.token_url, text("https://file.example.com/token"));
    assert_eq!(merged.return_url, text("http://localhost:4000/return"));
    assert_eq!(merged.grant_type, text("authorization_code"));
    assert_eq!(merged.scopes, vec!["file-a".to_string(), "file-b".to_string()]);
}

#[test]
fn merge_overrides_field_by_field() {
    let mut opts = no_options();
    opts.client_id = text("cli-id");
    opts.token_url = text("https://cli.example.com/token");
    let merged = opts.merge_config(&file_config());
    assert_eq!(merged.client_id, text("cli-id"));
    assert_eq!(merged.client_secret, text("file-secret"));
    assert_eq!(merged.auth_url, text("https://file.example.com/auth"));
    assert_eq!(merged.token_url, text("https://cli.example.com/token"));
    assert_eq!(merged.return_url, text("http://localhost:4000/return"));
    assert_eq!(merged.grant_type, text("authorization_code"));
}

#[test]
fn merge_takes_every_option_that_is_present() {
    let mut opts = no_options();
    opts.client_id = text("a");
    opts.client_secret = text("b");
    opts.auth_url = text("c");
    opts.token_url = text("d");
    opts.return_url = text("e");
    opts.grant_type = text("f");
    opts.scopes = vec!["g".to_string()];
    let merged = opts.merge_config(&file_config());
    assert_eq!(merged.client_id, text("a"));
    assert_eq!(merged.client_secret, text("b"));
    assert_eq!(merged.auth_url, text("c"));
    assert_eq!(merged.token_url, text("d"));
    assert_eq!(merged.return_url, text("e"));
    assert_eq!(merged.grant_type, text("f"));
    assert_eq!(merged.scopes, vec!["g".to_string()]);
}

#[test]
fn merge_replaces_the_scopes_as_a_whole() {
    let mut opts = no_options();
    opts.scopes = vec!["cli".to_string()];
    let merged = opts.merge_config(&file_config());
    assert_eq!(merged.scopes, vec!["cli".to_string()]);
}

#[test]
fn merge_with_an_empty_file_keeps_the_options() {
    let mut opts = no_options();
    opts.auth_url = text("https://cli.example.com/auth");
    let merged = opts.merge_config(&Consumer::empty());
    assert_eq!(merged.auth_url, text("https://cli.example.com/auth"));
    assert_eq!(merged.client_id, None);
    assert!(merged.scopes.is_empty());
}

#[test]
fn resolve_keeps_what_is_configured() {
    let config = file_config().resolve().unwrap();
    assert_eq!(config.auth_url(), "https://file.example.com/auth");
    assert_eq!(config.client_id(), "file-id");
    assert_eq!(config.scopes(), &vec!["file-a".to_string(), "file-b".to_string()]);
    assert_eq!(config.client_secret(), &text("file-secret"));
    assert_eq!(config.token_url(), &text("https://file.example.com/token"));
    assert_eq!(config.return_url(), &text("http://localhost:4000/return"));
    assert_eq!(config.grant_type(), &text("authorization_code"));
}

#[test]
fn resolve_misses_the_scopes_first() {
    let error = Consumer::empty().resolve().unwrap_err();
    assert!(matches!(error, Error::Message(_)));
    assert_eq!(error.message(), "No scopes are requested");
}

#[test]
fn resolve_misses_the_auth_url() {
    let mut consumer = file_config();
    consumer.auth_url = None;
    consumer.client_id = None;
    let error = consumer.resolve().unwrap_err();
    assert!(matches!(error, Error::Message(_)));
    assert_eq!(error.message(), "No auth URL defined in configuration");
}

#[test]
fn resolve_misses_the_client_id() {
    let mut consumer = file_config();
    consumer.client_id = None;
    let error = consumer.resolve().unwrap_err();
    assert!(matches!(error, Error::Message(_)));
    assert_eq!(error.message(), "No client ID defined in configuration");
}

#[test]
fn resolve_does_not_ask_for_secret_or_token_url() {
    let mut consumer = file_config();
    consumer.client_secret = None;
    consumer.token_url = None;
    consumer.return_url = None;
    consumer.grant_type = None;
    let config = consumer.resolve().unwrap();
    assert_eq!(config.client_secret(), &None);
    assert_eq!(config.token_url(), &None);
}

#[test]
fn error_new_carries_the_message() {
    let error = Error::new("Canceled");
    assert!(matches!(error, Error::Message(_)));
    assert_eq!(error.message(), "Canceled");
}

#[test]
fn every_error_shows_its_text() {
    assert_eq!(Error::IOError("broken pipe".to_string()).message(), "broken pipe");
    assert_eq!(Error::UrlParseError("empty host".to_string()).message(), "empty host");
    let cause = oauth2_probe::oauth2::error::Error::IOError("no such file".to_string());
    assert_eq!(Error::OAuth2Error(cause).message(), "no such file");
}

#[test]
fn configuration_errors_become_run_errors() {
    let cause = oauth2_probe::oauth2::error::Error::YamlError("bad indentation".to_string());
    assert_eq!(cause.message(), "bad indentation");
    let error = Error::from(cause);
    assert!(matches!(error, Error::OAuth2Error(oauth2_probe::oauth2::error::Error::YamlError(_))));
    assert_eq!(error.message(), "bad indentation");
}

#[test]
fn every_error_exits_with_failure() {
    assert_eq!(EXIT_FAILURE, 1);
    assert_eq!(Error::new("x").exit_code(), 1);
    assert_eq!(Error::IOError("x".to_string()).exit_code(), 1);
    assert_eq!(Error::UrlParseError("x".to_string()).exit_code(), 1);
}
