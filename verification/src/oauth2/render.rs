//! The pages that the listener sends back to the browser.

use vstd::prelude::*;
use vstd::string::*;
use crate::bindings::{
    handlebars_render,
    json_string,
    json_string_text,
    parse_json,
    parsed_json,
    rendered_page,
    text_outcome,
};

verus! {

/// The status of a page that shows the token endpoint's answer.
pub const STATUS_OK: u16 = 200;

/// The status of a callback that breaks the protocol.
pub const STATUS_BAD_REQUEST: u16 = 400;

/// The status of an exchange that the token endpoint did not grant.
pub const STATUS_UNAUTHORIZED: u16 = 401;

/// The status of a failure on the consumer's own side.
pub const STATUS_INTERNAL_SERVER_ERROR: u16 = 500;

/// The page for a failure that has only a message.
pub const TEMPLATE_ERROR: &'static str = r#"<html>
<head>
  <style>
    td {
      font-size: 1.2em;
    }
    td.key {
      font-weight: 700;
      text-align: right;
    }
  </style>
</head>
<body>
  <h1>An error occurred</h1>
  <p>{{ this }}</p>
</body>
</html>
"#;

/// The page for a failure that the token endpoint described, one row for
/// each key of its answer.
pub const TEMPLATE_ERROR_DETAIL: &'static str = r#"<html>
<head>
  <style>
    td {
      font-size: 1.2em;
    }
    td.key {
      font-weight: 700;
      text-align: right;
    }
  </style>
</head>
<body>
  <h1>An error occurred</h1>
  <table>
  {{ #each this }}
    <tr>
      <td class="key"><code>{{ @key }}</code></td>
      <td><code>{{ this }}</code></td>
    </tr>
  {{ /each }}
  </table>
</body>
</html>
"#;

/// The page for a granted token, one row for each key of the answer.
pub const TEMPLATE_SUCCESS: &'static str = r#"<html>
<head>
  <style>
    td {
      font-size: 1.2em;
    }
    td.key {
      font-weight: 700;
      text-align: right;
    }
  </style>
</head>
<body>
  <h1>Connection created</h1>
  <table>
  {{ #each this }}
    <tr>
      <td class="key"><code>{{ @key }}</code></td>
      <td><code>{{ this }}</code></td>
    </tr>
  {{ /each }}
  </table>
</body>
</html>
"#;

/// What the browser gets: a status and a page.
#[derive(Clone, Debug)]
pub struct Reply {
    pub status: u16,
    pub body: String,
}

/// A `Reply`, with its page as a sequence of characters.
pub ghost struct ReplyView {
    pub status: u16,
    pub body: Seq<char>,
}

impl View for Reply {
    type V = ReplyView;

    open spec fn view(&self) -> ReplyView {
        ReplyView { status: self.status, body: self.body@ }
    }
}

/// Data for a page: one JSON value, kept as JSON text in compact form.
#[derive(Clone, Debug)]
pub struct Payload {
    text: String,
}

impl View for Payload {
    type V = Seq<char>;

    closed spec fn view(&self) -> Seq<char> {
        self.text@
    }
}

/// A payload or the message that took its place, as texts.
pub open spec fn reading(r: Result<Payload, String>) -> Result<Seq<char>, Seq<char>> {
    match r {
        Ok(payload) => Ok(payload@),
        Err(message) => Err(message@),
    }
}

impl Payload {
    /// Reads a body as one JSON value. A body that is no JSON gives the
    /// parser's message instead.
    pub fn read(body: &[u8]) -> (r: Result<Payload, String>)
        ensures
            reading(r) == parsed_json(body@),
    {
        match parse_json(body) {
            Ok(text) => Ok(Payload { text }),
            Err(message) => Err(message),
        }
    }

    /// The JSON string that holds a text.
    pub fn string(text: &str) -> (payload: Payload)
        ensures
            payload@ == json_string_text(text@),
    {
        Payload { text: json_string(text) }
    }

    /// The value as compact JSON text.
    pub fn as_str(&self) -> (text: &str)
        ensures
            text@ == self@,
    {
        self.text.as_str()
    }
}

/// A callback or an exchange that is turned down: the status to answer with
/// and the message to show.
#[derive(Clone, Debug)]
pub struct Rejection {
    pub status: u16,
    pub message: String,
}

/// A `Rejection`, with its message as a sequence of characters.
pub ghost struct RejectionView {
    pub status: u16,
    pub message: Seq<char>,
}

impl View for Rejection {
    type V = RejectionView;

    open spec fn view(&self) -> RejectionView {
        RejectionView { status: self.status, message: self.message@ }
    }
}

/// Whether a text is one of this library's three templates. Only these are
/// handed to the template engine: none of them holds a partial or a
/// decorator, on which the engine may not return.
pub open spec fn is_own_template(template: Seq<char>) -> bool {
    ||| template == TEMPLATE_ERROR@
    ||| template == TEMPLATE_ERROR_DETAIL@
    ||| template == TEMPLATE_SUCCESS@
}

/// A page or the rejection that took its place, as texts.
pub open spec fn rendering(r: Result<String, Rejection>) -> Result<Seq<char>, RejectionView> {
    match r {
        Ok(html) => Ok(html@),
        Err(rejection) => Err(rejection@),
    }
}

/// The message of a template that the engine could not render: a fixed text
/// and the engine's complaint.
pub open spec fn render_failure(complaint: Seq<char>) -> Seq<char> {
    "Could not render template: "@ + complaint
}

/// The one line that stands in for the page that shows a message, where the
/// engine cannot render that page either.
pub open spec fn fallback_line(complaint: Seq<char>) -> Seq<char> {
    "<p>Could not render template: "@ + complaint + "</p>"@
}

/// What is made of the template engine's answer where a page is to show
/// data: the page, or, since a template that cannot be rendered is a failure
/// of the consumer's own side, a rejection with status 500 and the engine's
/// complaint.
pub open spec fn template_page(rendered: Result<Seq<char>, Seq<char>>) -> Result<
    Seq<char>,
    RejectionView,
> {
    match rendered {
        Ok(html) => Ok(html),
        Err(complaint) => Err(
            RejectionView {
                status: STATUS_INTERNAL_SERVER_ERROR,
                message: render_failure(complaint),
            },
        ),
    }
}

/// What is made of the template engine's answer where a page is to show a
/// message: the page, or one line with the engine's complaint.
pub open spec fn error_page(rendered: Result<Seq<char>, Seq<char>>) -> Seq<char> {
    match rendered {
        Ok(html) => html,
        Err(complaint) => fallback_line(complaint),
    }
}

/// Whether `r` is what rendering a template over data comes to: the page
/// that the engine renders, or, where it renders none, a rejection with
/// status 500 whose message is a render failure. The engine's complaint is
/// left open.
pub open spec fn is_template_page(
    r: Result<Seq<char>, RejectionView>,
    template: Seq<char>,
    data: Seq<char>,
) -> bool {
    match rendered_page(template, data) {
        Some(html) => r == Ok::<Seq<char>, RejectionView>(html),
        None => r matches Err(rejection) && rejection.status == STATUS_INTERNAL_SERVER_ERROR
            && exists|complaint: Seq<char>| rejection.message == #[trigger] render_failure(complaint),
    }
}

/// Whether `body` is the page that shows a message: the page that the engine
/// renders from `TEMPLATE_ERROR`, or, where it renders none, a fallback
/// line. The engine's complaint is left open.
pub open spec fn is_error_page(body: Seq<char>, message: Seq<char>) -> bool {
    match rendered_page(TEMPLATE_ERROR@, json_string_text(message)) {
        Some(html) => body == html,
        None => exists|complaint: Seq<char>| body == #[trigger] fallback_line(complaint),
    }
}

/// Makes of the template engine's answer what a page that shows data comes
/// to: the page, or the rejection that says why there is none.
pub fn page_or_rejection(rendered: Result<String, String>) -> (r: Result<String, Rejection>)
    ensures
        rendering(r) == template_page(text_outcome(rendered)),
{
    match rendered {
        Ok(html) => Ok(html),
        Err(complaint) => Err(
            Rejection::with_detail(
                STATUS_INTERNAL_SERVER_ERROR,
                "Could not render template: ",
                complaint.as_str(),
            ),
        ),
    }
}

/// Makes of the template engine's answer what a page that shows a message
/// comes to: the page, or the line that says why there is none.
pub fn page_or_line(rendered: Result<String, String>) -> (html: String)
    ensures
        html@ == error_page(text_outcome(rendered)),
{
    match rendered {
        Ok(html) => html,
        Err(complaint) => {
            let mut html = String::from_str("<p>Could not render template: ");
            html.append(complaint.as_str());
            html.append("</p>");
            html
        },
    }
}

/// Renders one of this library's templates over JSON data.
pub fn render_template(tmpl: &str, data: &Payload) -> (r: Result<String, Rejection>)
    requires
        is_own_template(tmpl@),
    ensures
        is_template_page(rendering(r), tmpl@, data@),
{
    let rendered = handlebars_render(tmpl, data.as_str());
    let ghost outcome = text_outcome(rendered);
    let r = page_or_rejection(rendered);
    proof {
        if let Err(complaint) = outcome {
            assert(r->Err_0@.message == render_failure(complaint));
        }
    }
    r
}

/// Renders the page that shows a message.
pub fn render_error(message: &str) -> (html: String)
    ensures
        is_error_page(html@, message@),
{
    let data = Payload::string(message);
    let rendered = handlebars_render(TEMPLATE_ERROR, data.as_str());
    let ghost outcome = text_outcome(rendered);
    let html = page_or_line(rendered);
    proof {
        if let Err(complaint) = outcome {
            assert(html@ == fallback_line(complaint));
        }
    }
    html
}

/// Renders the page that shows a failure described by the token endpoint,
/// one row for each key.
pub fn render_error_detail(data: &Payload) -> (r: Result<String, Rejection>)
    ensures
        is_template_page(rendering(r), TEMPLATE_ERROR_DETAIL@, data@),
{
    render_template(TEMPLATE_ERROR_DETAIL, data)
}

/// Renders the page that shows the token endpoint's answer, one row for
/// each key.
pub fn render_response(data: &Payload) -> (r: Result<String, Rejection>)
    ensures
        is_template_page(rendering(r), TEMPLATE_SUCCESS@, data@),
{
    render_template(TEMPLATE_SUCCESS, data)
}

/// A reply or the rejection that took its place, as texts.
pub open spec fn showing(r: Result<Reply, Rejection>) -> Result<ReplyView, RejectionView> {
    match r {
        Ok(reply) => Ok(reply@),
        Err(rejection) => Err(rejection@),
    }
}

/// A page with its status, or the rejection that took the page's place.
pub open spec fn page_reply(status: u16, page: Result<Seq<char>, RejectionView>) -> Result<
    ReplyView,
    RejectionView,
> {
    match page {
        Ok(body) => Ok(ReplyView { status, body }),
        Err(rejection) => Err(rejection),
    }
}

impl Reply {
    /// Gives a page its status, where there is a page.
    pub fn page(status: u16, page: Result<String, Rejection>) -> (r: Result<Reply, Rejection>)
        ensures
            showing(r) == page_reply(status, rendering(page)),
    {
        match page {
            Ok(body) => Ok(Reply { status, body }),
            Err(rejection) => Err(rejection),
        }
    }
}

impl RejectionView {
    /// Whether a reply shows this rejection: it has the rejection's status,
    /// and its page shows the rejection's message.
    pub open spec fn shown_by(self, reply: ReplyView) -> bool {
        reply.status == self.status && is_error_page(reply.body, self.message)
    }
}

impl Rejection {
    /// A rejection whose message is a fixed text.
    pub fn new(status: u16, message: &str) -> (rejection: Rejection)
        ensures
            rejection@ == (RejectionView { status, message: message@ }),
    {
        Rejection { status, message: String::from_str(message) }
    }

    /// A rejection whose message is a fixed text followed by a detail.
    pub fn with_detail(status: u16, message: &str, detail: &str) -> (rejection: Rejection)
        ensures
            rejection@ == (RejectionView { status, message: message@ + detail@ }),
    {
        let mut text = String::from_str(message);
        text.append(detail);
        Rejection { status, message: text }
    }

    /// Renders the reply that shows this rejection.
    pub fn render(&self) -> (reply: Reply)
        ensures
            self@.shown_by(reply@),
    {
        Reply { status: self.status, body: render_error(self.message.as_str()) }
    }
}

} // verus!
