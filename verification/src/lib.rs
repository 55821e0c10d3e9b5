//! A client for a hosted document-intelligence service: file upload, OCR to
//! markdown, and chat completion with an optional JSON-Schema contract on the
//! answer.
//!
//! The crate holds everything that is decided on either side of the wire:
//! how a request is assembled, what is written into an HTTP exchange, and
//! what a reply means. It performs no I/O. A caller sends the
//! [`http::HttpRequest`] that a capability client describes and hands the
//! [`http::HttpReply`] back to the same client.

use vstd::prelude::*;
use vstd::string::StringExecFns;

pub mod chat;
pub mod files;
pub mod http;
pub mod json;
pub mod ocr;
pub mod text;

use crate::http::{status_line, status_text, HttpReply, HttpReplyView};
use crate::json::{
    complaint, optional_text_member, parse, parsed_json, text_member, u32_member, value_json, Json,
};
use crate::text::{decimal, push_decimal};

verus! {

/// The views of the elements of a sequence, in their order.
pub open spec fn views<T: View>(items: Seq<T>) -> Seq<T::V> {
    Seq::new(items.len(), |i: int| items[i]@)
}

/// The address and the credentials of the service, shared by the capability
/// clients made from it.
pub struct MistralClient {
    api_key: String,
    base_url: String,
}

/// The view of [`MistralClient`].
pub struct MistralClientView {
    pub api_key: Seq<char>,
    pub base_url: Seq<char>,
}

impl View for MistralClient {
    type V = MistralClientView;

    closed spec fn view(&self) -> MistralClientView {
        MistralClientView { api_key: self.api_key@, base_url: self.base_url@ }
    }
}

impl MistralClient {
    /// The service at `base_url`, called with `api_key`.
    pub fn new(api_key: &str, base_url: &str) -> (r: Self)
        ensures
            r@ == (MistralClientView { api_key: api_key@, base_url: base_url@ }),
    {
        MistralClient { api_key: api_key.to_owned(), base_url: base_url.to_owned() }
    }

    /// The API key, which every request carries as its bearer token.
    pub fn api_key(&self) -> (r: &str)
        ensures
            r@ == self@.api_key,
    {
        self.api_key.as_str()
    }

    /// The address that every endpoint lies under.
    pub fn base_url(&self) -> (r: &str)
        ensures
            r@ == self@.base_url,
    {
        self.base_url.as_str()
    }

    /// A client for chat completion with `model` at `temperature`.
    pub fn chat_client(&self, model: &str, temperature: serde_json::Value) -> (r: chat::ChatClient<
        '_,
    >)
        ensures
            r@ == (chat::ChatClientView {
                client: self@,
                chat_path: "chat/completions"@,
                model: model@,
                temperature: value_json(temperature),
            }),
    {
        chat::ChatClient::new(self, model, temperature)
    }

    /// A client for the file store.
    pub fn file_client(&self) -> (r: files::FileClient<'_>)
        ensures
            r@ == (files::FileClientView { client: self@, files_path: "files"@ }),
    {
        files::FileClient::new(self)
    }

    /// A client for OCR with `model`.
    pub fn ocr_client(&self, model: &str) -> (r: ocr::OcrClient<'_>)
        ensures
            r@ == (ocr::OcrClientView { client: self@, ocr_path: "ocr"@, model: model@ }),
    {
        ocr::OcrClient::new(self, model)
    }
}

/// An error payload of the service: `{code, type, message, object, param?}`,
/// together with the description that this crate keeps for the code.
#[derive(Debug, PartialEq, Eq)]
pub struct MistralApiError {
    pub code: u32,
    pub error_type: String,
    pub message: String,
    pub object: String,
    pub param: Option<String>,
    pub description: String,
}

/// The view of [`MistralApiError`].
pub struct MistralApiErrorView {
    pub code: u32,
    pub error_type: Seq<char>,
    pub message: Seq<char>,
    pub object: Seq<char>,
    pub param: Option<Seq<char>>,
    pub description: Seq<char>,
}

impl View for MistralApiError {
    type V = MistralApiErrorView;

    open spec fn view(&self) -> MistralApiErrorView {
        MistralApiErrorView {
            code: self.code,
            error_type: self.error_type@,
            message: self.message@,
            object: self.object@,
            param: match self.param {
                Some(p) => Some(p@),
                None => None,
            },
            description: self.description@,
        }
    }
}

/// Why a text could not be decoded.
#[derive(Debug, PartialEq, Eq)]
pub enum ParseError {
    /// The text is not JSON. `complaint` is the wording of the JSON reader.
    Syntax { text: String, complaint: String },
    /// The text is JSON of another shape than the one asked for.
    Shape { text: String },
    /// A chat response that holds no choice.
    NoChoices,
    /// The text handed to a request builder as a JSON Schema is not JSON.
    Schema { text: String, complaint: String },
}

/// The view of [`ParseError`].
pub enum ParseErrorView {
    Syntax { text: Seq<char>, complaint: Seq<char> },
    Shape { text: Seq<char> },
    NoChoices,
    Schema { text: Seq<char>, complaint: Seq<char> },
}

impl View for ParseError {
    type V = ParseErrorView;

    open spec fn view(&self) -> ParseErrorView {
        match self {
            ParseError::Syntax { text, complaint } => ParseErrorView::Syntax {
                text: text@,
                complaint: complaint@,
            },
            ParseError::Shape { text } => ParseErrorView::Shape { text: text@ },
            ParseError::NoChoices => ParseErrorView::NoChoices,
            ParseError::Schema { text, complaint } => ParseErrorView::Schema {
                text: text@,
                complaint: complaint@,
            },
        }
    }
}

/// What a call to the service can end in, other than its result.
#[derive(Debug, PartialEq, Eq)]
pub enum MistralError {
    /// The service answered a status other than success with an error payload.
    Api(MistralApiError),
    /// The service answered a status other than success with anything else.
    /// Holds the status.
    Http(u16),
    /// No answer was obtained. Holds the wording of the transport.
    Network(String),
    /// An answer, or a payload within it, could not be decoded.
    Parse(ParseError),
}

/// The view of [`MistralError`].
pub enum MistralErrorView {
    Api(MistralApiErrorView),
    Http(u16),
    Network(Seq<char>),
    Parse(ParseErrorView),
}

impl View for MistralError {
    type V = MistralErrorView;

    open spec fn view(&self) -> MistralErrorView {
        match self {
            MistralError::Api(e) => MistralErrorView::Api(e@),
            MistralError::Http(status) => MistralErrorView::Http(*status),
            MistralError::Network(wording) => MistralErrorView::Network(wording@),
            MistralError::Parse(e) => MistralErrorView::Parse(e@),
        }
    }
}

/// The description kept for an error code.
pub open spec fn description_of(code: u32) -> Seq<char> {
    if code == 2210 {
        "Invalid request filter: The JSON body could not be parsed."@
    } else if code == 401 {
        "Unauthorized: Check your API key."@
    } else if code == 422 {
        "Unprocessable Entity: The request was well-formed but unable to be followed due to semantic errors."@
    } else {
        "An unknown error occurred."@
    }
}

/// Looks an error code up in the table of descriptions. A code that the
/// table does not hold gets the description of an unknown error.
pub fn error_description(code: u32) -> (r: &'static str)
    ensures
        r@ == description_of(code),
        r@.len() > 0,
{
    proof {
        description_is_not_empty(code);
    }
    match code {
        2210 => "Invalid request filter: The JSON body could not be parsed.",
        401 => "Unauthorized: Check your API key.",
        422 => "Unprocessable Entity: The request was well-formed but unable to be followed due to semantic errors.",
        _ => "An unknown error occurred.",
    }
}

/// Every code, known or not, has a description that is not empty.
pub proof fn description_is_not_empty(code: u32)
    ensures
        description_of(code).len() > 0,
{
    reveal_strlit("Invalid request filter: The JSON body could not be parsed.");
    reveal_strlit("Unauthorized: Check your API key.");
    reveal_strlit(
        "Unprocessable Entity: The request was well-formed but unable to be followed due to semantic errors.",
    );
    reveal_strlit("An unknown error occurred.");
}

/// The error payload that a document holds, if it has that shape: an object
/// with an integer `code` that fits 32 bits and strings `type`, `message` and
/// `object`; `param` may be a string, null or missing; other members are
/// passed over. The description is the one kept for the code.
pub open spec fn api_error_of(doc: Json) -> Option<MistralApiErrorView> {
    if doc.u32_member("code"@) is Some && doc.text_member("type"@) is Some && doc.text_member(
        "message"@,
    ) is Some && doc.text_member("object"@) is Some && doc.optional_text_member("param"@) is Some {
        Some(
            MistralApiErrorView {
                code: doc.u32_member("code"@).unwrap(),
                error_type: doc.text_member("type"@).unwrap(),
                message: doc.text_member("message"@).unwrap(),
                object: doc.text_member("object"@).unwrap(),
                param: doc.optional_text_member("param"@).unwrap(),
                description: description_of(doc.u32_member("code"@).unwrap()),
            },
        )
    } else {
        None
    }
}

impl MistralApiError {
    /// Decodes an error payload, and attaches the description of its code.
    pub fn from_json(v: &serde_json::Value) -> (r: Option<MistralApiError>)
        ensures
            match r {
                Some(e) => api_error_of(value_json(*v)) == Some(e@),
                None => api_error_of(value_json(*v)) is None,
            },
    {
        let code = u32_member(v, "code")?;
        let error_type = text_member(v, "type")?;
        let message = text_member(v, "message")?;
        let object = text_member(v, "object")?;
        let param = optional_text_member(v, "param")?;
        Some(
            MistralApiError {
                code,
                error_type,
                message,
                object,
                param,
                description: error_description(code).to_owned(),
            },
        )
    }
}

/// What an answer with a status other than success means: the error payload
/// in its body, or else the bare status.
pub open spec fn failure_of(status: u16, body: Seq<char>) -> MistralErrorView {
    match parsed_json(body) {
        Ok(doc) => match api_error_of(doc) {
            Some(e) => MistralErrorView::Api(e),
            None => MistralErrorView::Http(status),
        },
        Err(_) => MistralErrorView::Http(status),
    }
}

/// An error payload carries the description of its code, which is not
/// empty.
pub proof fn api_error_has_a_description(doc: Json)
    requires
        api_error_of(doc) is Some,
    ensures
        doc.u32_member("code"@) == Some(api_error_of(doc).unwrap().code),
        api_error_of(doc).unwrap().description == description_of(api_error_of(doc).unwrap().code),
        api_error_of(doc).unwrap().description.len() > 0,
{
    description_is_not_empty(api_error_of(doc).unwrap().code);
}

/// An answer with a status other than success is an API error exactly where
/// its body is an error payload; any other such answer is an HTTP error that
/// carries the status as it came.
pub proof fn failure_is_api_or_http(status: u16, body: Seq<char>)
    ensures
        failure_of(status, body) is Api || failure_of(status, body) == MistralErrorView::Http(
            status,
        ),
        failure_of(status, body) is Api <==> parsed_json(body) is Ok && api_error_of(
            parsed_json(body)->Ok_0,
        ) is Some,
        failure_of(status, body) is Api ==> failure_of(status, body)->Api_0 == api_error_of(
            parsed_json(body)->Ok_0,
        ).unwrap(),
{
}

/// What a reply means before its shape is looked at: the document in the
/// body of a successful answer, and an error for every other reply.
pub open spec fn reply_document(reply: HttpReplyView) -> Result<Json, MistralErrorView> {
    match reply {
        HttpReplyView::Failed { wording } => Err(MistralErrorView::Network(wording)),
        HttpReplyView::Answered { status, body } => if !http::status_is_success(status) {
            Err(failure_of(status, body))
        } else {
            match parsed_json(body) {
                Ok(doc) => Ok(doc),
                Err(wording) => Err(
                    MistralErrorView::Parse(
                        ParseErrorView::Syntax { text: body, complaint: wording },
                    ),
                ),
            }
        },
    }
}

/// What a reply means where a successful answer is to hold a `T`, which
/// `shape` reads from a document.
pub open spec fn reply_of<T>(reply: HttpReplyView, shape: spec_fn(Json) -> Option<T>) -> Result<
    T,
    MistralErrorView,
> {
    match reply_document(reply) {
        Err(e) => Err(e),
        Ok(doc) => match shape(doc) {
            Some(decoded) => Ok(decoded),
            None => Err(MistralErrorView::Parse(ParseErrorView::Shape { text: reply->body })),
        },
    }
}

/// A request that got no answer ends in a network error, whatever was asked
/// for, and the error carries the wording of the transport.
pub proof fn failed_reply_is_a_network_error<T>(
    wording: Seq<char>,
    shape: spec_fn(Json) -> Option<T>,
)
    ensures
        reply_of(HttpReplyView::Failed { wording }, shape) == Err::<T, MistralErrorView>(
            MistralErrorView::Network(wording),
        ),
{
}

/// How a parse error reads. One that comes of a text names the text.
pub open spec fn parse_error_message(e: ParseErrorView) -> Seq<char> {
    match e {
        ParseErrorView::Syntax { text, complaint } => complaint + " in: "@ + text,
        ParseErrorView::Shape { text } => "unexpected shape in: "@ + text,
        ParseErrorView::NoChoices => "the response holds no choice"@,
        ParseErrorView::Schema { text, complaint } => "invalid JSON schema: "@ + complaint
            + " in: "@ + text,
    }
}

/// How an error reads. Each kind names itself and carries its code or its
/// status: an HTTP error the status as the `http` crate writes it, with its
/// reason phrase, and the bare number where that crate takes the number for
/// no status.
pub open spec fn error_message(e: MistralErrorView) -> Seq<char> {
    match e {
        MistralErrorView::Api(payload) => "Mistral API error (code "@ + decimal(payload.code as nat)
            + "): "@ + payload.message,
        MistralErrorView::Http(status) => "Unexpected HTTP status: "@ + match status_text(status) {
            Some(text) => text,
            None => decimal(status as nat),
        },
        MistralErrorView::Network(wording) => "Network error: "@ + wording,
        MistralErrorView::Parse(e) => "Parse error: "@ + parse_error_message(e),
    }
}

impl ParseError {
    /// How the error reads: see [`parse_error_message`].
    pub fn to_string(&self) -> (r: String)
        ensures
            r@ == parse_error_message(self@),
    {
        match self {
            ParseError::Syntax { text, complaint } => {
                let mut out = complaint.clone();
                out.append(" in: ");
                out.append(text.as_str());
                out
            },
            ParseError::Shape { text } => {
                let mut out = "unexpected shape in: ".to_owned();
                out.append(text.as_str());
                out
            },
            ParseError::NoChoices => "the response holds no choice".to_owned(),
            ParseError::Schema { text, complaint } => {
                let mut out = "invalid JSON schema: ".to_owned();
                out.append(complaint.as_str());
                out.append(" in: ");
                out.append(text.as_str());
                out
            },
        }
    }
}

impl MistralError {
    /// How the error reads: see [`error_message`]. A status outside 100 to
    /// 999 is written as the bare number.
    pub fn to_string(&self) -> (r: String)
        ensures
            r@ == error_message(self@),
            self is Http && !(100 <= self->Http_0 <= 999) ==> r@ == "Unexpected HTTP status: "@
                + decimal(self->Http_0 as nat),
    {
        match self {
            MistralError::Api(payload) => {
                let mut out = "Mistral API error (code ".to_owned();
                push_decimal(&mut out, payload.code as u64);
                out.append("): ");
                out.append(payload.message.as_str());
                out
            },
            MistralError::Http(status) => {
                let mut out = "Unexpected HTTP status: ".to_owned();
                match status_line(*status) {
                    Some(text) => {
                        out.append(text.as_str());
                    },
                    None => {
                        push_decimal(&mut out, *status as u64);
                    },
                }
                out
            },
            MistralError::Network(wording) => {
                let mut out = "Network error: ".to_owned();
                out.append(wording.as_str());
                out
            },
            MistralError::Parse(e) => {
                let mut out = "Parse error: ".to_owned();
                out.append(e.to_string().as_str());
                out
            },
        }
    }

    /// Classifies an answer whose status is not one of success.
    pub fn from_failure(status: u16, body: &str) -> (r: MistralError)
        ensures
            r@ == failure_of(status, body@),
    {
        match parse(body) {
            Ok(v) => match MistralApiError::from_json(&v) {
                Some(e) => MistralError::Api(e),
                None => MistralError::Http(status),
            },
            Err(_) => MistralError::Http(status),
        }
    }

    /// The error for a successful answer whose body is JSON of another shape
    /// than the one asked for.
    pub(crate) fn wrong_shape(reply: &HttpReply) -> (r: MistralError)
        requires
            reply is Answered,
        ensures
            r@ == MistralErrorView::Parse(ParseErrorView::Shape { text: reply@->body }),
    {
        match reply {
            HttpReply::Answered { body, .. } => MistralError::Parse(
                ParseError::Shape { text: body.clone() },
            ),
            HttpReply::Failed { wording } => MistralError::Network(wording.clone()),
        }
    }
}

/// Reads a reply up to its document: the first half of every decoder.
pub fn read_reply(reply: &HttpReply) -> (r: Result<serde_json::Value, MistralError>)
    ensures
        match r {
            Ok(v) => reply_document(reply@) == Ok::<Json, MistralErrorView>(value_json(v)),
            Err(e) => reply_document(reply@) == Err::<Json, MistralErrorView>(e@),
        },
        r is Ok ==> reply is Answered,
{
    match reply {
        HttpReply::Failed { wording } => Err(MistralError::Network(wording.clone())),
        HttpReply::Answered { status, body } => {
            if !http::is_success(*status) {
                return Err(MistralError::from_failure(*status, body.as_str()));
            }
            match parse(body.as_str()) {
                Ok(v) => Ok(v),
                Err(e) => Err(
                    MistralError::Parse(
                        ParseError::Syntax { text: body.clone(), complaint: complaint(&e) },
                    ),
                ),
            }
        },
    }
}

} // verus!
