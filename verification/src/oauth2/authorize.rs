//! The authorization request: the URL to which the user is sent.

use vstd::prelude::*;
use vstd::string::*;
use crate::bindings::{append_params, pairs_len, parse_url, parsed_url, url_has_room, url_with_params};
use crate::error::{Error, ErrorView};
use crate::oauth2::{Resolved, ResolvedView};
use crate::oauth2::state::StateToken;
use crate::text::{join, joined};

verus! {

/// The URL of an authorization request, with the query parameters that were
/// appended to the authorization URL to make it. It is built once and never
/// changed.
#[derive(Clone, Debug)]
pub struct AuthorizationRequest {
    url: String,
    params: Vec<(String, String)>,
}

/// What an `AuthorizationRequest` holds, as texts.
pub ghost struct AuthorizationRequestView {
    pub url: Seq<char>,
    pub params: Seq<(Seq<char>, Seq<char>)>,
}

impl View for AuthorizationRequest {
    type V = AuthorizationRequestView;

    closed spec fn view(&self) -> AuthorizationRequestView {
        AuthorizationRequestView { url: self.url@, params: self.params.deep_view() }
    }
}

/// The query parameters of an authorization request, in the order in which
/// they are appended: the response type `code`, the state token, the scopes
/// joined by single spaces, and the client identifier.
pub open spec fn authorization_params(
    state: Seq<char>,
    scopes: Seq<Seq<char>>,
    client_id: Seq<char>,
) -> Seq<(Seq<char>, Seq<char>)> {
    seq![
        ("response_type"@, "code"@),
        ("state"@, state),
        ("scope"@, joined(scopes, " "@)),
        ("client_id"@, client_id),
    ]
}

/// The authorization request of a run: the authorization URL with the
/// parameters appended to its query, or the error of an authorization URL
/// that is no URL.
pub open spec fn authorization_request(config: ResolvedView, state: Seq<char>) -> Result<
    AuthorizationRequestView,
    ErrorView,
> {
    let params = authorization_params(state, config.scopes, config.client_id);
    match url_with_params(config.auth_url, params) {
        Ok(url) => Ok(AuthorizationRequestView { url, params }),
        Err(message) => Err(ErrorView::UrlParseError(message)),
    }
}

/// Whether the URL library has room for the authorization request of a run.
pub open spec fn request_has_room(config: ResolvedView, state: Seq<char>) -> bool {
    url_has_room(config.auth_url, authorization_params(state, config.scopes, config.client_id))
}

/// An authorization request or the error that kept it from being built, as
/// texts.
pub open spec fn request_outcome(r: Result<AuthorizationRequest, Error>) -> Result<
    AuthorizationRequestView,
    ErrorView,
> {
    match r {
        Ok(request) => Ok(request@),
        Err(error) => Err(error@),
    }
}

/// The query parameters of an authorization request.
fn make_params(config: &Resolved, state: &StateToken) -> (params: Vec<(String, String)>)
    ensures
        params.deep_view() == authorization_params(state@, config@.scopes, config@.client_id),
{
    let mut params: Vec<(String, String)> = Vec::new();
    params.push((String::from_str("response_type"), String::from_str("code")));
    params.push((String::from_str("state"), String::from_str(state.as_str())));
    params.push((String::from_str("scope"), join(config.scopes(), " ")));
    params.push((String::from_str("client_id"), String::from_str(config.client_id())));
    assert(params.deep_view() =~= authorization_params(
        state@,
        config@.scopes,
        config@.client_id,
    ));
    params
}

/// The number of characters in a list of pairs, where it is at most `limit`.
fn count_chars(pairs: &Vec<(String, String)>, limit: u64) -> (count: Option<u64>)
    ensures
        match count {
            Some(n) => n == pairs_len(pairs.deep_view()) && n <= limit,
            None => pairs_len(pairs.deep_view()) > limit,
        },
{
    let mut total: u64 = 0;
    let mut i: usize = 0;
    while i < pairs.len()
        invariant
            i <= pairs.len(),
            total == pairs_len(pairs.deep_view().take(i as int)),
            total <= limit,
        decreases pairs.len() - i,
    {
        let name: usize = pairs[i].0.as_str().unicode_len();
        let value: usize = pairs[i].1.as_str().unicode_len();
        proof {
            let done = pairs.deep_view().take(i + 1);
            assert(done.drop_last() =~= pairs.deep_view().take(i as int));
            assert(done.last() == (pairs[i as int].0@, pairs[i as int].1@));
            lemma_pairs_len_grows(pairs.deep_view(), i + 1);
        }
        if name as u64 > limit - total {
            return None;
        }
        total = total + name as u64;
        if value as u64 > limit - total {
            return None;
        }
        total = total + value as u64;
        i += 1;
    }
    assert(pairs.deep_view().take(pairs.len() as int) =~= pairs.deep_view());
    Some(total)
}

/// The first pairs of a list hold no more characters than the whole list.
proof fn lemma_pairs_len_grows(pairs: Seq<(Seq<char>, Seq<char>)>, n: int)
    requires
        0 <= n <= pairs.len(),
    ensures
        pairs_len(pairs.take(n)) <= pairs_len(pairs),
    decreases pairs.len() - n,
{
    if n == pairs.len() {
        assert(pairs.take(n) =~= pairs);
    } else {
        lemma_pairs_len_grows(pairs.drop_last(), n);
        assert(pairs.drop_last().take(n) =~= pairs.take(n));
    }
}

impl AuthorizationRequest {
    /// Builds the authorization request of a run from its configuration and
    /// its state token. It fails exactly when the authorization URL is no
    /// URL, with the parser's message.
    pub fn build(config: &Resolved, state: &StateToken) -> (r: Result<AuthorizationRequest, Error>)
        requires
            request_has_room(config@, state@),
        ensures
            request_outcome(r) == authorization_request(config@, state@),
            r is Ok <==> parsed_url(config@.auth_url) is Ok,
            r matches Err(error) ==> parsed_url(config@.auth_url) == Err::<Seq<char>, Seq<char>>(
                error@.message(),
            ),
    {
        let params = make_params(config, state);
        match append_params(config.auth_url(), &params) {
            Ok(url) => Ok(AuthorizationRequest { url, params }),
            Err(message) => Err(Error::UrlParseError(message)),
        }
    }

    /// Builds the authorization request of a run where the URL library has
    /// room for it, and gives `None` where it has not.
    pub fn try_build(config: &Resolved, state: &StateToken) -> (r: Option<
        Result<AuthorizationRequest, Error>,
    >)
        ensures
            r is Some <==> request_has_room(config@, state@),
            r matches Some(built) ==> {
                &&& request_outcome(built) == authorization_request(config@, state@)
                &&& built is Ok <==> parsed_url(config@.auth_url) is Ok
                &&& built matches Err(error) ==> parsed_url(config@.auth_url) == Err::<
                    Seq<char>,
                    Seq<char>,
                >(error@.message())
            },
    {
        let parsed = parse_url(config.auth_url());
        match parsed {
            Ok(text) => {
                let params = make_params(config, state);
                let size: usize = text.as_str().unicode_len();
                if size as u64 > (0xffff_ffff - 9) / 4 {
                    return None;
                }
                let budget: u64 = (0xffff_ffff - 9 - 4 * (size as u64)) / 12;
                match count_chars(&params, budget) {
                    Some(_) => Some(AuthorizationRequest::build(config, state)),
                    None => None,
                }
            },
            Err(_) => Some(AuthorizationRequest::build(config, state)),
        }
    }

    /// The URL to open.
    pub fn url(&self) -> (text: &str)
        ensures
            text@ == self@.url,
    {
        self.url.as_str()
    }

    /// The query parameters that were appended, in order.
    pub fn params(&self) -> (params: &Vec<(String, String)>)
        ensures
            params.deep_view() == self@.params,
    {
        &self.params
    }
}

} // verus!
