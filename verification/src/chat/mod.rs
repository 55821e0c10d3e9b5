//! Chat completion: the client, what it gets back, and the payload inside
//! a completion.

use vstd::prelude::*;

use crate::chat::chat_request::{
    request_json, system_message, ChatRequest, ChatRequestBuilder, ChatRequestView,
};
use crate::http::{
    endpoint, endpoint_of, status_is_success, HttpBody, HttpBodyView, HttpMethod, HttpReply,
    HttpReplyView, HttpRequest, HttpRequestView,
};
use crate::json::{
    complaint, each, each_fails_at, each_reads, json_text, member, optional_member, parse,
    parsed_json, render, text_member, u32_member, u64_member, value_json, values_json, Json,
};
use crate::text::{
    bare_text_is_left_alone, fence_is_taken_off, fenced, is_bare, object_text_is_bare,
    strip_code_fence, without_fence,
};
use crate::{
    read_reply, reply_of, views, MistralClient, MistralClientView, MistralError, MistralErrorView,
    ParseError, ParseErrorView,
};

pub mod chat_request;
pub mod messages;

verus! {

/// The tokens that a call has used.
#[derive(Debug, PartialEq, Eq)]
pub struct Usage {
    pub prompt_tokens: u32,
    pub total_tokens: u32,
    pub completion_tokens: u32,
}

/// What the model has said: its role, the text, and the tool calls, which
/// are carried as the document they came as.
#[derive(Debug, PartialEq, Eq)]
pub struct MessageContent {
    pub role: String,
    pub tool_calls: Option<serde_json::Value>,
    pub content: String,
}

/// The view of [`MessageContent`].
pub struct MessageContentView {
    pub role: Seq<char>,
    pub tool_calls: Option<Json>,
    pub content: Seq<char>,
}

impl View for MessageContent {
    type V = MessageContentView;

    open spec fn view(&self) -> MessageContentView {
        MessageContentView {
            role: self.role@,
            tool_calls: match self.tool_calls {
                Some(calls) => Some(value_json(calls)),
                None => None,
            },
            content: self.content@,
        }
    }
}

/// One answer of the model, and why it ended.
#[derive(Debug, PartialEq, Eq)]
pub struct Choice {
    pub index: u32,
    pub message: MessageContent,
    pub finish_reason: String,
}

/// The view of [`Choice`].
pub struct ChoiceView {
    pub index: u32,
    pub message: MessageContentView,
    pub finish_reason: Seq<char>,
}

impl View for Choice {
    type V = ChoiceView;

    open spec fn view(&self) -> ChoiceView {
        ChoiceView {
            index: self.index,
            message: self.message@,
            finish_reason: self.finish_reason@,
        }
    }
}

/// The outcome of one chat request. A caller that wants the one answer reads
/// the first choice.
#[derive(Debug, PartialEq, Eq)]
pub struct ChatResponse {
    pub id: String,
    pub object: String,
    pub created: u64,
    pub model: String,
    pub choices: Vec<Choice>,
    pub usage: Usage,
}

/// The view of [`ChatResponse`].
pub struct ChatResponseView {
    pub id: Seq<char>,
    pub object: Seq<char>,
    pub created: u64,
    pub model: Seq<char>,
    pub choices: Seq<ChoiceView>,
    pub usage: Usage,
}

impl View for ChatResponse {
    type V = ChatResponseView;

    open spec fn view(&self) -> ChatResponseView {
        ChatResponseView {
            id: self.id@,
            object: self.object@,
            created: self.created,
            model: self.model@,
            choices: views(self.choices@),
            usage: self.usage,
        }
    }
}

/// `{prompt_tokens, total_tokens, completion_tokens}`, each an integer that
/// fits 32 bits.
pub open spec fn usage_of(doc: Json) -> Option<Usage> {
    if doc.u32_member("prompt_tokens"@) is Some && doc.u32_member("total_tokens"@) is Some
        && doc.u32_member("completion_tokens"@) is Some {
        Some(
            Usage {
                prompt_tokens: doc.u32_member("prompt_tokens"@).unwrap(),
                total_tokens: doc.u32_member("total_tokens"@).unwrap(),
                completion_tokens: doc.u32_member("completion_tokens"@).unwrap(),
            },
        )
    } else {
        None
    }
}

/// `{role, tool_calls?, content}`.
pub open spec fn message_content_of(doc: Json) -> Option<MessageContentView> {
    if doc.text_member("role"@) is Some && doc.text_member("content"@) is Some {
        Some(
            MessageContentView {
                role: doc.text_member("role"@).unwrap(),
                tool_calls: doc.optional_member("tool_calls"@),
                content: doc.text_member("content"@).unwrap(),
            },
        )
    } else {
        None
    }
}

/// `{index, message, finish_reason}`.
pub open spec fn choice_of(doc: Json) -> Option<ChoiceView> {
    if doc.u32_member("index"@) is Some && doc.member("message"@) is Some && message_content_of(
        doc.member("message"@).unwrap(),
    ) is Some && doc.text_member("finish_reason"@) is Some {
        Some(
            ChoiceView {
                index: doc.u32_member("index"@).unwrap(),
                message: message_content_of(doc.member("message"@).unwrap()).unwrap(),
                finish_reason: doc.text_member("finish_reason"@).unwrap(),
            },
        )
    } else {
        None
    }
}

/// An array of choices.
pub open spec fn choices_of(doc: Json) -> Option<Seq<ChoiceView>> {
    match doc {
        Json::Array(items) => each(items, |item: Json| choice_of(item)),
        _ => None,
    }
}

/// `{id, object, created, model, choices, usage}`: the shape of the body of
/// a successful answer. An array without choices has this shape too.
pub open spec fn chat_response_of(doc: Json) -> Option<ChatResponseView> {
    if doc.text_member("id"@) is Some && doc.text_member("object"@) is Some && doc.u64_member(
        "created"@,
    ) is Some && doc.text_member("model"@) is Some && doc.member("choices"@) is Some && choices_of(
        doc.member("choices"@).unwrap(),
    ) is Some && doc.member("usage"@) is Some && usage_of(doc.member("usage"@).unwrap()) is Some {
        Some(
            ChatResponseView {
                id: doc.text_member("id"@).unwrap(),
                object: doc.text_member("object"@).unwrap(),
                created: doc.u64_member("created"@).unwrap(),
                model: doc.text_member("model"@).unwrap(),
                choices: choices_of(doc.member("choices"@).unwrap()).unwrap(),
                usage: usage_of(doc.member("usage"@).unwrap()).unwrap(),
            },
        )
    } else {
        None
    }
}

/// What the reply to a chat request means. A response without choices is
/// no answer: it is a parse error.
pub open spec fn chat_reply_of(reply: HttpReplyView) -> Result<ChatResponseView, MistralErrorView> {
    match reply_of(reply, |doc: Json| chat_response_of(doc)) {
        Ok(response) => if response.choices.len() == 0 {
            Err(MistralErrorView::Parse(ParseErrorView::NoChoices))
        } else {
            Ok(response)
        },
        Err(e) => Err(e),
    }
}

/// The JSON payload of a completion: what is left once the code fence is
/// taken off must be JSON as it stands. The error names the text that was
/// left.
pub open spec fn payload_of(content: Seq<char>) -> Result<Json, MistralErrorView> {
    match parsed_json(without_fence(content)) {
        Ok(doc) => Ok(doc),
        Err(wording) => Err(
            MistralErrorView::Parse(
                ParseErrorView::Syntax { text: without_fence(content), complaint: wording },
            ),
        ),
    }
}

/// What the reply to a chat request means where the first choice is to
/// hold a JSON payload.
pub open spec fn structured_reply_of(reply: HttpReplyView) -> Result<Json, MistralErrorView> {
    match chat_reply_of(reply) {
        Ok(response) => payload_of(response.choices[0].message.content),
        Err(e) => Err(e),
    }
}

impl Usage {
    /// Decodes a document: see [`usage_of`].
    pub fn from_json(v: &serde_json::Value) -> (r: Option<Usage>)
        ensures
            r == usage_of(value_json(*v)),
    {
        let prompt_tokens = u32_member(v, "prompt_tokens")?;
        let total_tokens = u32_member(v, "total_tokens")?;
        let completion_tokens = u32_member(v, "completion_tokens")?;
        Some(Usage { prompt_tokens, total_tokens, completion_tokens })
    }
}

impl MessageContent {
    /// Decodes a document: see [`message_content_of`].
    pub fn from_json(v: &serde_json::Value) -> (r: Option<MessageContent>)
        ensures
            match r {
                Some(message) => message_content_of(value_json(*v)) == Some(message@),
                None => message_content_of(value_json(*v)) is None,
            },
    {
        let role = text_member(v, "role")?;
        let content = text_member(v, "content")?;
        let tool_calls = match optional_member(v, "tool_calls") {
            Some(calls) => Some(calls.clone()),
            None => None,
        };
        Some(MessageContent { role, tool_calls, content })
    }
}

impl Choice {
    /// Decodes a document: see [`choice_of`].
    pub fn from_json(v: &serde_json::Value) -> (r: Option<Choice>)
        ensures
            match r {
                Some(choice) => choice_of(value_json(*v)) == Some(choice@),
                None => choice_of(value_json(*v)) is None,
            },
    {
        let index = u32_member(v, "index")?;
        let message = MessageContent::from_json(member(v, "message")?)?;
        let finish_reason = text_member(v, "finish_reason")?;
        Some(Choice { index, message, finish_reason })
    }

    /// Decodes an array of choices.
    pub fn all_from_json(v: &serde_json::Value) -> (r: Option<Vec<Choice>>)
        ensures
            match r {
                Some(choices) => choices_of(value_json(*v)) == Some(views(choices@)),
                None => choices_of(value_json(*v)) is None,
            },
    {
        let items = match v.as_array() {
            Some(items) => items,
            None => {
                return None;
            },
        };
        let ghost docs = values_json(items@);
        let ghost shape = |item: Json| choice_of(item);
        let mut choices: Vec<Choice> = Vec::new();
        let mut i: usize = 0;
        while i < items.len()
            invariant
                i <= items.len(),
                choices@.len() == i,
                docs == values_json(items@),
                value_json(*v) == Json::Array(docs),
                shape == |item: Json| choice_of(item),
                forall|j: int| 0 <= j < i ==> choice_of(#[trigger] docs[j]) == Some(choices@[j]@),
            decreases items.len() - i,
        {
            match Choice::from_json(&items[i]) {
                Some(choice) => {
                    choices.push(choice);
                },
                None => {
                    proof {
                        each_fails_at(docs, shape, i as int);
                    }
                    return None;
                },
            }
            i += 1;
        }
        proof {
            each_reads(docs, shape, views(choices@));
        }
        Some(choices)
    }
}

impl ChatResponse {
    /// Decodes a document: see [`chat_response_of`].
    pub fn from_json(v: &serde_json::Value) -> (r: Option<ChatResponse>)
        ensures
            match r {
                Some(response) => chat_response_of(value_json(*v)) == Some(response@),
                None => chat_response_of(value_json(*v)) is None,
            },
    {
        let id = text_member(v, "id")?;
        let object = text_member(v, "object")?;
        let created = u64_member(v, "created")?;
        let model = text_member(v, "model")?;
        let choices = Choice::all_from_json(member(v, "choices")?)?;
        let usage = Usage::from_json(member(v, "usage")?)?;
        Some(ChatResponse { id, object, created, model, choices, usage })
    }
}

/// Reads the JSON payload of a completion: see [`payload_of`].
pub fn extract_struct_from_chat_response(content: &str) -> (r: Result<
    serde_json::Value,
    MistralError,
>)
    ensures
        match r {
            Ok(v) => payload_of(content@) == Ok::<Json, MistralErrorView>(value_json(v)),
            Err(e) => payload_of(content@) == Err::<Json, MistralErrorView>(e@),
        },
{
    let payload = strip_code_fence(content);
    match parse(payload) {
        Ok(v) => Ok(v),
        Err(e) => Err(
            MistralError::Parse(
                ParseError::Syntax { text: payload.to_owned(), complaint: complaint(&e) },
            ),
        ),
    }
}

/// A client for chat completion: one endpoint, one model, one temperature.
pub struct ChatClient<'a> {
    mistral_client: &'a MistralClient,
    chat_path: String,
    model: String,
    temperature: serde_json::Value,
}

/// The view of [`ChatClient`].
pub struct ChatClientView {
    pub client: MistralClientView,
    pub chat_path: Seq<char>,
    pub model: Seq<char>,
    pub temperature: Json,
}

impl<'a> View for ChatClient<'a> {
    type V = ChatClientView;

    closed spec fn view(&self) -> ChatClientView {
        ChatClientView {
            client: self.mistral_client@,
            chat_path: self.chat_path@,
            model: self.model@,
            temperature: value_json(self.temperature),
        }
    }
}

impl<'a> ChatClient<'a> {
    /// A client for the chat endpoint of `mistral_client`, with `model` at
    /// `temperature`.
    pub fn new(
        mistral_client: &'a MistralClient,
        model: &str,
        temperature: serde_json::Value,
    ) -> (r: Self)
        ensures
            r@ == (ChatClientView {
                client: mistral_client@,
                chat_path: "chat/completions"@,
                model: model@,
                temperature: value_json(temperature),
            }),
    {
        ChatClient {
            mistral_client,
            chat_path: "chat/completions".to_owned(),
            model: model.to_owned(),
            temperature,
        }
    }

    /// A builder for a request to the model and at the temperature of this
    /// client, with `system_prompt`, which is not empty, as the system
    /// message.
    pub fn request_builder(&self, system_prompt: &str) -> (r: ChatRequestBuilder)
        requires
            system_prompt@.len() > 0,
        ensures
            r@ == (ChatRequestView {
                model: self@.model,
                messages: seq![system_message(system_prompt@)],
                response_format: None,
                max_tokens: None,
                temperature: Some(self@.temperature),
            }),
    {
        ChatRequestBuilder::new(self.model.as_str(), system_prompt, self.temperature.clone())
    }

    /// The request that sends `request`: a POST to the chat endpoint with
    /// [`request_json`] as its body.
    pub fn chat_complete_request(&self, request: &ChatRequest) -> (r: HttpRequest)
        ensures
            r@ == (HttpRequestView {
                method: HttpMethod::Post,
                url: endpoint_of(self@.client.base_url, self@.chat_path),
                bearer_token: self@.client.api_key,
                body: HttpBodyView::Json(json_text(request_json(request@))),
            }),
    {
        let body = request.to_json();
        HttpRequest {
            method: HttpMethod::Post,
            url: endpoint(self.mistral_client.base_url(), self.chat_path.as_str()),
            bearer_token: self.mistral_client.api_key().to_owned(),
            body: HttpBody::Json(render(&body)),
        }
    }

    /// What the reply to a chat request means: see [`chat_reply_of`].
    pub fn chat_complete_response(reply: &HttpReply) -> (r: Result<ChatResponse, MistralError>)
        ensures
            match r {
                Ok(response) => chat_reply_of(reply@) == Ok::<ChatResponseView, MistralErrorView>(
                    response@,
                ),
                Err(e) => chat_reply_of(reply@) == Err::<ChatResponseView, MistralErrorView>(e@),
            },
            r matches Ok(response) ==> response.choices.len() > 0,
    {
        let v = read_reply(reply)?;
        match ChatResponse::from_json(&v) {
            Some(response) => if response.choices.len() == 0 {
                Err(MistralError::Parse(ParseError::NoChoices))
            } else {
                Ok(response)
            },
            None => Err(MistralError::wrong_shape(reply)),
        }
    }

    /// What the reply to a chat request means where a JSON payload is
    /// wanted: the payload of the first choice. See [`structured_reply_of`].
    pub fn chat_complete_struct_response(reply: &HttpReply) -> (r: Result<
        serde_json::Value,
        MistralError,
    >)
        ensures
            match r {
                Ok(v) => structured_reply_of(reply@) == Ok::<Json, MistralErrorView>(value_json(v)),
                Err(e) => structured_reply_of(reply@) == Err::<Json, MistralErrorView>(e@),
            },
    {
        let response = Self::chat_complete_response(reply)?;
        extract_struct_from_chat_response(response.choices[0].message.content.as_str())
    }
}

/// The payload of a bare text is what the text is read as, and a fence
/// around the text changes nothing about it.
pub proof fn fence_does_not_change_the_payload(content: Seq<char>)
    requires
        is_bare(content),
    ensures
        payload_of(fenced(content)) == payload_of(content),
        payload_of(content) == match parsed_json(content) {
            Ok(doc) => Ok::<Json, MistralErrorView>(doc),
            Err(wording) => Err(
                MistralErrorView::Parse(ParseErrorView::Syntax { text: content, complaint: wording }),
            ),
        },
{
    bare_text_is_left_alone(content);
    fence_is_taken_off(content);
}

/// A completion that is a JSON object inside a fence has the payload of the
/// object itself: the fence changes nothing about what is read.
pub proof fn fenced_object_has_the_payload_of_the_object(content: Seq<char>)
    requires
        content.len() > 0,
        content.first() == '{',
        content.last() == '}',
    ensures
        payload_of(fenced(content)) == payload_of(content),
        payload_of(content) is Ok <==> parsed_json(content) is Ok,
        payload_of(content) is Ok ==> payload_of(content)->Ok_0 == parsed_json(content)->Ok_0,
{
    object_text_is_bare(content);
    fence_does_not_change_the_payload(content);
}

/// A successful answer that has the shape of a chat response and holds no
/// choice is a parse error.
pub proof fn response_without_choices_is_refused(status: u16, body: Seq<char>, doc: Json)
    requires
        status_is_success(status),
        parsed_json(body) == Ok::<Json, Seq<char>>(doc),
        chat_response_of(doc) is Some,
        chat_response_of(doc).unwrap().choices.len() == 0,
    ensures
        chat_reply_of(HttpReplyView::Answered { status, body }) == Err::<
            ChatResponseView,
            MistralErrorView,
        >(MistralErrorView::Parse(ParseErrorView::NoChoices)),
{
}

/// A reply that is taken as a chat response holds a first choice.
pub proof fn response_that_is_taken_has_a_choice(reply: HttpReplyView)
    requires
        chat_reply_of(reply) is Ok,
    ensures
        chat_reply_of(reply)->Ok_0.choices.len() > 0,
{
}

} // verus!
