//! The answers the service gives, as plain values: a status code, the two
//! headers the service ever sets, and a body.

use vstd::prelude::*;
use vstd::string::StringExecFns;

verus! {

/// 200 OK.
pub const STATUS_OK: u16 = 200;

/// 301 Moved Permanently.
pub const STATUS_MOVED_PERMANENTLY: u16 = 301;

/// 404 Not Found.
pub const STATUS_NOT_FOUND: u16 = 404;

/// 500 Internal Server Error.
pub const STATUS_INTERNAL_SERVER_ERROR: u16 = 500;

/// The media type of a body.
#[derive(Clone, Copy, Debug, PartialEq, Eq, Structural)]
pub enum ContentType {
    /// `application/json`
    Json,
    /// `text/plain`
    PlainText,
}

/// An HTTP response, before it is written to a connection.
#[derive(Clone, Debug, PartialEq, Eq)]
pub struct Response {
    /// The status code.
    pub status: u16,
    /// The `Location` header, where one is set.
    pub location: Option<String>,
    /// The `Content-Type` header, where one is set.
    pub content_type: Option<ContentType>,
    /// The body; empty where the response has none.
    pub body: String,
}

/// A response as a mathematical value: strings are sequences of characters.
pub struct ResponseView {
    pub status: u16,
    pub location: Option<Seq<char>>,
    pub content_type: Option<ContentType>,
    pub body: Seq<char>,
}

impl View for Response {
    type V = ResponseView;

    open spec fn view(&self) -> ResponseView {
        ResponseView {
            status: self.status,
            location: match self.location {
                Some(target) => Some(target@),
                None => None,
            },
            content_type: self.content_type,
            body: self.body@,
        }
    }
}

/// The body of every answer to a lookup that found nothing.
pub open spec fn not_found_text() -> Seq<char> {
    "Weather data not found for the specified parameters"@
}

/// What the body of a 500 answer starts with; the serializer's own message
/// follows it.
pub open spec fn serialize_failure_prefix() -> Seq<char> {
    "Json serialize error: "@
}

impl ResponseView {
    /// 301 with a `Location` header and no body.
    pub open spec fn moved_permanently(target: Seq<char>) -> ResponseView {
        ResponseView {
            status: STATUS_MOVED_PERMANENTLY,
            location: Some(target),
            content_type: None,
            body: Seq::empty(),
        }
    }

    /// 200 with a JSON body.
    pub open spec fn json(text: Seq<char>) -> ResponseView {
        ResponseView {
            status: STATUS_OK,
            location: None,
            content_type: Some(ContentType::Json),
            body: text,
        }
    }

    /// 404 with the fixed plain-text body.
    pub open spec fn not_found() -> ResponseView {
        ResponseView {
            status: STATUS_NOT_FOUND,
            location: None,
            content_type: Some(ContentType::PlainText),
            body: not_found_text(),
        }
    }

    /// 500 with a plain-text body that carries the serializer's message.
    pub open spec fn serialize_failure(message: Seq<char>) -> ResponseView {
        ResponseView {
            status: STATUS_INTERNAL_SERVER_ERROR,
            location: None,
            content_type: Some(ContentType::PlainText),
            body: serialize_failure_prefix() + message,
        }
    }

    /// The answer that carries the outcome of serializing a JSON body: the
    /// text with 200, or the failure with 500.
    pub open spec fn of_serialized(outcome: Result<Seq<char>, Seq<char>>) -> ResponseView {
        match outcome {
            Ok(text) => ResponseView::json(text),
            Err(message) => ResponseView::serialize_failure(message),
        }
    }
}

impl Response {
    /// A permanent redirect to `target`.
    pub fn moved_permanently(target: &str) -> (r: Response)
        ensures
            r@ == ResponseView::moved_permanently(target@),
    {
        Response {
            status: STATUS_MOVED_PERMANENTLY,
            location: Some(String::from_str(target)),
            content_type: None,
            body: String::new(),
        }
    }

    /// A successful answer whose body is the JSON text given.
    pub fn json(text: String) -> (r: Response)
        ensures
            r@ == ResponseView::json(text@),
    {
        Response {
            status: STATUS_OK,
            location: None,
            content_type: Some(ContentType::Json),
            body: text,
        }
    }

    /// The answer to a lookup that found nothing. It is the same whichever
    /// part of the path was unknown.
    pub fn not_found() -> (r: Response)
        ensures
            r@ == ResponseView::not_found(),
    {
        Response {
            status: STATUS_NOT_FOUND,
            location: None,
            content_type: Some(ContentType::PlainText),
            body: String::from_str("Weather data not found for the specified parameters"),
        }
    }

    /// The answer given when a JSON body could not be produced; `message` is
    /// what the serializer reported.
    pub fn serialize_failure(message: &str) -> (r: Response)
        ensures
            r@ == ResponseView::serialize_failure(message@),
    {
        Response {
            status: STATUS_INTERNAL_SERVER_ERROR,
            location: None,
            content_type: Some(ContentType::PlainText),
            body: String::from_str("Json serialize error: ").concat(message),
        }
    }

    /// Turns the outcome of serializing a JSON body into an answer: `Ok` holds
    /// the text, `Err` the serializer's message.
    pub fn of_serialized(outcome: Result<String, String>) -> (r: Response)
        ensures
            r@ == ResponseView::of_serialized(
                match outcome {
                    Ok(text) => Ok(text@),
                    Err(message) => Err(message@),
                },
            ),
    {
        match outcome {
            Ok(text) => Response::json(text),
            Err(message) => Response::serialize_failure(message.as_str()),
        }
    }
}

} // verus!
