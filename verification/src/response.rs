//! What the service answers: a status code and a body.

use vstd::prelude::*;

verus! {

/// The request was served.
pub const STATUS_OK: u16 = 200;

/// The submission was malformed or incomplete.
pub const STATUS_BAD_REQUEST: u16 = 400;

/// What was asked for does not exist.
pub const STATUS_NOT_FOUND: u16 = 404;

/// The service failed on its own side.
pub const STATUS_INTERNAL_SERVER_ERROR: u16 = 500;

/// The body of an answer.
#[derive(Debug, PartialEq, Eq)]
pub enum Body {
    /// No bytes at all, and no content type.
    Empty,
    /// A JSON document, sent as `application/json`.
    Json(String),
}

/// A body as contracts see it.
pub enum BodyView {
    Empty,
    Json(Seq<char>),
}

impl View for Body {
    type V = BodyView;

    open spec fn view(&self) -> BodyView {
        match self {
            Body::Empty => BodyView::Empty,
            Body::Json(text) => BodyView::Json(text@),
        }
    }
}

/// An answer to one request.
#[derive(Debug, PartialEq, Eq)]
pub struct Response {
    pub status: u16,
    pub body: Body,
}

/// An answer as contracts see it.
pub struct ResponseView {
    pub status: u16,
    pub body: BodyView,
}

impl View for Response {
    type V = ResponseView;

    open spec fn view(&self) -> ResponseView {
        ResponseView { status: self.status, body: self.body@ }
    }
}

/// The text `serde_json::to_string` gives for a JSON object with the single
/// member `key`, whose value is the string `value`.
pub uninterp spec fn json_object_text(key: Seq<char>, value: Seq<char>) -> Seq<char>;

/// Serialises the JSON object `{key: value}` with `serde_json::to_string`.
///
/// Trusted: the text is a function of `key` and `value` alone. An object whose
/// keys and values are strings gives the serialiser nothing to fail on, so the
/// error arm is there for the type only.
#[verifier::external_body]
fn json_object(key: &str, value: &str) -> (text: String)
    ensures
        text@ == json_object_text(key@, value@),
{
    let mut members = serde_json::Map::new();
    members.insert(key.to_owned(), serde_json::Value::String(value.to_owned()));
    match serde_json::to_string(&serde_json::Value::Object(members)) {
        Ok(text) => text,
        Err(_) => String::new(),
    }
}

/// The answer to a request that was served: `200` and nothing else.
pub open spec fn success() -> ResponseView {
    ResponseView { status: STATUS_OK, body: BodyView::Empty }
}

/// The answer to a request that failed: `status`, and the JSON object whose
/// member `error` holds `message`.
pub open spec fn failure(status: u16, message: Seq<char>) -> ResponseView {
    ResponseView { status, body: BodyView::Json(json_object_text("error"@, message)) }
}

impl Response {
    /// Answers a request that was served.
    pub fn ok() -> (response: Response)
        ensures
            response@ == success(),
    {
        Response { status: STATUS_OK, body: Body::Empty }
    }

    /// Answers a request that failed, telling the caller `message`.
    pub fn error(status: u16, message: &str) -> (response: Response)
        ensures
            response@ == failure(status, message@),
    {
        Response { status, body: Body::Json(json_object("error", message)) }
    }
}

} // verus!
