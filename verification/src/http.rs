//! One HTTP exchange, described as plain data.
//!
//! A capability client writes down the request it wants sent as an
//! [`HttpRequest`]. Whoever owns the transport sends it, with the bearer
//! token in the `Authorization` header, and hands back what came of it as an
//! [`HttpReply`]: the status and the whole body of the answer, or the word
//! that no answer came.

use vstd::prelude::*;
use vstd::string::StringExecFns;

use crate::views;

verus! {

/// The request methods that the service is called with.
#[derive(Debug, Clone, Copy, PartialEq, Eq, Structural)]
pub enum HttpMethod {
    Get,
    Post,
}

/// One part of a multipart form.
#[derive(Debug, PartialEq, Eq)]
pub enum FormPart {
    /// A text field.
    Text { name: String, value: String },
    /// A file field: the bytes and the file name announced for them.
    File { name: String, file_name: String, data: Vec<u8> },
}

/// The view of [`FormPart`].
pub enum FormPartView {
    Text { name: Seq<char>, value: Seq<char> },
    File { name: Seq<char>, file_name: Seq<char>, data: Seq<u8> },
}

impl View for FormPart {
    type V = FormPartView;

    open spec fn view(&self) -> FormPartView {
        match self {
            FormPart::Text { name, value } => FormPartView::Text { name: name@, value: value@ },
            FormPart::File { name, file_name, data } => FormPartView::File {
                name: name@,
                file_name: file_name@,
                data: data@,
            },
        }
    }
}

/// What a request carries.
#[derive(Debug, PartialEq, Eq)]
pub enum HttpBody {
    /// Nothing.
    Empty,
    /// A JSON text, sent as `application/json`.
    Json(String),
    /// A multipart form, its parts in order.
    Multipart(Vec<FormPart>),
}

/// The view of [`HttpBody`].
pub enum HttpBodyView {
    Empty,
    Json(Seq<char>),
    Multipart(Seq<FormPartView>),
}

impl View for HttpBody {
    type V = HttpBodyView;

    open spec fn view(&self) -> HttpBodyView {
        match self {
            HttpBody::Empty => HttpBodyView::Empty,
            HttpBody::Json(text) => HttpBodyView::Json(text@),
            HttpBody::Multipart(parts) => HttpBodyView::Multipart(views(parts@)),
        }
    }
}

/// A request to the service.
#[derive(Debug, PartialEq, Eq)]
pub struct HttpRequest {
    pub method: HttpMethod,
    pub url: String,
    /// The API key, sent as a bearer token.
    pub bearer_token: String,
    pub body: HttpBody,
}

/// The view of [`HttpRequest`].
pub struct HttpRequestView {
    pub method: HttpMethod,
    pub url: Seq<char>,
    pub bearer_token: Seq<char>,
    pub body: HttpBodyView,
}

impl View for HttpRequest {
    type V = HttpRequestView;

    open spec fn view(&self) -> HttpRequestView {
        HttpRequestView {
            method: self.method,
            url: self.url@,
            bearer_token: self.bearer_token@,
            body: self.body@,
        }
    }
}

/// What came of sending a request.
#[derive(Debug, PartialEq, Eq)]
pub enum HttpReply {
    /// No answer: the transport failed before one was obtained. Holds the
    /// wording of the transport.
    Failed { wording: String },
    /// An answer: its status, and its whole body as text.
    Answered { status: u16, body: String },
}

/// The view of [`HttpReply`].
pub enum HttpReplyView {
    Failed { wording: Seq<char> },
    Answered { status: u16, body: Seq<char> },
}

impl View for HttpReply {
    type V = HttpReplyView;

    open spec fn view(&self) -> HttpReplyView {
        match self {
            HttpReply::Failed { wording } => HttpReplyView::Failed { wording: wording@ },
            HttpReply::Answered { status, body } => HttpReplyView::Answered {
                status: *status,
                body: body@,
            },
        }
    }
}

/// Whether a status is one of success: 200 to 299.
pub open spec fn status_is_success(status: u16) -> bool {
    200 <= status <= 299
}

/// Whether `status` is one of success: see [`status_is_success`].
pub fn is_success(status: u16) -> (r: bool)
    ensures
        r == status_is_success(status),
{
    200 <= status && status <= 299
}

/// How the `http` crate writes a status: what `Display` gives for the
/// `StatusCode` that `StatusCode::from_u16` makes of the number, which is the
/// number and the reason phrase kept for it. `None` for a number that
/// `from_u16` refuses.
pub uninterp spec fn status_text(status: u16) -> Option<Seq<char>>;

/// `ToString::to_string` on the `reqwest::StatusCode` that
/// `StatusCode::from_u16` makes of `status`: see [`status_text`]. `from_u16`
/// takes the numbers from 100 to 999 and refuses every other.
#[verifier::external_body]
pub(crate) fn status_line(status: u16) -> (r: Option<String>)
    ensures
        r is Some <==> 100 <= status <= 999,
        match r {
            Some(text) => status_text(status) == Some(text@),
            None => status_text(status) is None,
        },
{
    match reqwest::StatusCode::from_u16(status) {
        Ok(code) => Some(code.to_string()),
        Err(_) => None,
    }
}

/// The address of `path` under `base_url`: the two joined by one slash.
pub open spec fn endpoint_of(base_url: Seq<char>, path: Seq<char>) -> Seq<char> {
    base_url + seq!['/'] + path
}

/// Joins an address and a path: see [`endpoint_of`].
pub fn endpoint(base_url: &str, path: &str) -> (r: String)
    ensures
        r@ == endpoint_of(base_url@, path@),
{
    proof {
        reveal_strlit("/");
    }
    let mut url = base_url.to_owned();
    url.append("/");
    url.append(path);
    url
}

} // verus!
