//! The calls that this library makes into other crates, each with the
//! contract that the rest of the library relies on. Nothing in this file is
//! proved: every contract here is a claim about code that lives elsewhere.

use vstd::prelude::*;
use crate::oauth2::render::is_own_template;

verus! {

/// A text or the message of a failure, seen as sequences of characters.
pub open spec fn text_outcome(r: Result<String, String>) -> Result<Seq<char>, Seq<char>> {
    match r {
        Ok(text) => Ok(text@),
        Err(message) => Err(message@),
    }
}

/// One of the 62 characters `A`-`Z`, `a`-`z`, `0`-`9`.
pub open spec fn is_alphanumeric(c: char) -> bool {
    ||| 'A' <= c <= 'Z'
    ||| 'a' <= c <= 'z'
    ||| '0' <= c <= '9'
}

/// What `serde_json` makes of a body: the JSON value that `from_slice`
/// parses the bytes to, written as JSON text in the compact form that the
/// crate prints (`Display` for `Value`, without the `#` flag), or the message
/// of the parser's error.
pub uninterp spec fn parsed_json(body: Seq<u8>) -> Result<Seq<char>, Seq<char>>;

/// The compact JSON text of the JSON string that holds `text`, as
/// `serde_json` prints it.
pub uninterp spec fn json_string_text(text: Seq<char>) -> Seq<char>;

/// The page that a fresh `handlebars::Handlebars` registry renders from a
/// template over data given as JSON text, and `None` where reading the data
/// or rendering the template fails. With which message it fails is not part
/// of this: the engine may find the faults of one template in any order.
pub uninterp spec fn rendered_page(template: Seq<char>, data: Seq<char>) -> Option<Seq<char>>;

/// What `url::Url::parse` makes of a text: the serialization of the URL that
/// it parses to, or the message of the parse error.
pub uninterp spec fn parsed_url(input: Seq<char>) -> Result<Seq<char>, Seq<char>>;

/// What `url::Url::parse_with_params` makes of a text and of pairs to append
/// to its query: the serialization of the resulting URL, or the message of
/// the parse error.
pub uninterp spec fn url_with_params(input: Seq<char>, params: Seq<(Seq<char>, Seq<char>)>) -> Result<
    Seq<char>,
    Seq<char>,
>;

/// What `serde_urlencoded::to_string` makes of a list of pairs: their
/// `application/x-www-form-urlencoded` text, or the message of its error.
pub uninterp spec fn form_encoded(pairs: Seq<(Seq<char>, Seq<char>)>) -> Result<
    Seq<char>,
    Seq<char>,
>;

/// What `str::to_lowercase` makes of a text.
pub uninterp spec fn lowercased(text: Seq<char>) -> Seq<char>;

/// The number of characters in a list of pairs.
pub open spec fn pairs_len(pairs: Seq<(Seq<char>, Seq<char>)>) -> nat
    decreases pairs.len(),
{
    if pairs.len() == 0 {
        0
    } else {
        pairs_len(pairs.drop_last()) + pairs.last().0.len() + pairs.last().1.len()
    }
}

/// Whether `url` has room to append the pairs to the query of the URL that
/// a text parses to. The crate keeps offsets into a URL's serialization as
/// `u32` and panics when one no longer fits. A character takes at most four
/// bytes; appending a pair writes a separator, the name, `=` and the value,
/// and the encoding writes at most three bytes for each byte of a name or a
/// value.
pub open spec fn url_has_room(input: Seq<char>, params: Seq<(Seq<char>, Seq<char>)>) -> bool {
    parsed_url(input) matches Ok(text) ==> 4 * text.len() + 12 * pairs_len(params) + 2
        * params.len() + 1 <= u32::MAX
}

/// Calls `url::Url::parse` and hands back the URL's serialization, or the
/// parse error as its message. Claimed: the outcome depends on the text alone.
#[verifier::external_body]
pub(crate) fn parse_url(input: &str) -> (r: Result<String, String>)
    ensures
        text_outcome(r) == parsed_url(input@),
{
    match url::Url::parse(input) {
        Ok(url) => Ok(url.into()),
        Err(err) => Err(err.to_string()),
    }
}

/// Calls `url::Url::parse_with_params`, which parses the text and appends
/// the pairs to the URL's query, and hands back the serialization, or the
/// parse error as its message. Claimed: the outcome depends on the text and
/// the pairs alone, and the call fails exactly when `url::Url::parse` fails
/// on the same text, with the same error (it parses first, and appending
/// cannot fail). Left out by `url_has_room`: URLs long enough to overflow
/// the crate's `u32` offsets, on which appending panics.
#[verifier::external_body]
pub(crate) fn append_params(input: &str, params: &Vec<(String, String)>) -> (r: Result<
    String,
    String,
>)
    requires
        url_has_room(input@, params.deep_view()),
    ensures
        text_outcome(r) == url_with_params(input@, params.deep_view()),
        r is Ok <==> parsed_url(input@) is Ok,
        r is Err ==> text_outcome(r) == parsed_url(input@),
{
    match url::Url::parse_with_params(input, params) {
        Ok(url) => Ok(url.into()),
        Err(err) => Err(err.to_string()),
    }
}

/// Calls `serde_urlencoded::to_string` on a list of pairs and hands back the
/// encoded text, or the error as its message. Claimed: the outcome depends
/// on the pairs alone.
#[verifier::external_body]
pub(crate) fn form_encode(pairs: &Vec<(String, String)>) -> (r: Result<String, String>)
    ensures
        text_outcome(r) == form_encoded(pairs.deep_view()),
{
    match serde_urlencoded::to_string(pairs) {
        Ok(text) => Ok(text),
        Err(err) => Err(err.to_string()),
    }
}

/// Calls `serde_json::from_slice` to parse a body as one JSON value, and
/// hands back the value as compact JSON text, or the error as its message.
/// Claimed: the outcome depends on the bytes alone.
#[verifier::external_body]
pub(crate) fn parse_json(body: &[u8]) -> (r: Result<String, String>)
    ensures
        text_outcome(r) == parsed_json(body@),
{
    match serde_json::from_slice::<serde_json::Value>(body) {
        Ok(value) => Ok(value.to_string()),
        Err(err) => Err(err.to_string()),
    }
}

/// Makes the JSON string that holds a text (`From<&str>` for
/// `serde_json::Value`, which builds `Value::String`), and hands it back as
/// compact JSON text.
#[verifier::external_body]
pub(crate) fn json_string(text: &str) -> (json: String)
    ensures
        json@ == json_string_text(text@),
{
    serde_json::Value::from(text).to_string()
}

/// Renders a template over data with a fresh `handlebars::Handlebars`
/// registry (`render_template`), and hands back the page, or the error as
/// its message. The data come as JSON text and are read with
/// `serde_json::from_str` for the call. Claimed: whether the call succeeds,
/// and the page where it does, depend on the template and the data alone.
/// Nothing is claimed of the message. Left out: every template but this
/// library's own three. The engine has no limit on the depth to which
/// partials include one another, so that it does not return on a template
/// with an inline partial that includes itself; the three hold no partial
/// and no decorator.
#[verifier::external_body]
pub(crate) fn handlebars_render(template: &str, data: &str) -> (r: Result<String, String>)
    requires
        is_own_template(template@),
    ensures
        match r {
            Ok(page) => rendered_page(template@, data@) == Some(page@),
            Err(_) => rendered_page(template@, data@) is None,
        },
{
    let value = match serde_json::from_str::<serde_json::Value>(data) {
        Ok(value) => value,
        Err(err) => return Err(err.to_string()),
    };
    match handlebars::Handlebars::new().render_template(template, &value) {
        Ok(page) => Ok(page),
        Err(err) => Err(err.to_string()),
    }
}

/// Draws `len` characters with `rand`'s `Alphanumeric` distribution from the
/// thread's random number generator (`DistString::sample_string`). Claimed of
/// every outcome: it has `len` characters, each one of `A`-`Z`, `a`-`z`,
/// `0`-`9`. Which ones is left open. The generator seeds itself from the
/// operating system on its first use in a thread.
#[verifier::external_body]
pub(crate) fn random_alphanumeric(len: usize) -> (token: String)
    ensures
        token@.len() == len,
        forall|i: int| 0 <= i < len ==> is_alphanumeric(#[trigger] token@[i]),
{
    rand::distributions::DistString::sample_string(
        &rand::distributions::Alphanumeric,
        &mut rand::thread_rng(),
        len,
    )
}

/// Calls `str::to_lowercase`.
#[verifier::external_body]
pub(crate) fn lowercase(text: &str) -> (lower: String)
    ensures
        lower@ == lowercased(text@),
{
    text.to_lowercase()
}

} // verus!
