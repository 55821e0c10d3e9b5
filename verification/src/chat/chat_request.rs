//! Chat requests: the messages, the contract on the answer, and the builder
//! that puts them together.

use vstd::prelude::*;

use crate::json::{
    array_value, bool_value, complaint, each, each_fails_at, each_reads, empty_object, member,
    parse, parsed_json, set_member, text_member, text_value, unsigned_value, value_json,
    values_json, Json,
};
use crate::{views, MistralError, MistralErrorView, ParseError, ParseErrorView};

verus! {

/// One part of what a user message says.
#[derive(Debug, PartialEq, Eq)]
pub enum Content {
    /// Plain text.
    Text { text: String },
    /// A document, by its address. The address is passed on as it is.
    DocumentUrl { document_url: String },
}

/// The view of [`Content`].
pub enum ContentView {
    Text { text: Seq<char> },
    DocumentUrl { document_url: Seq<char> },
}

impl View for Content {
    type V = ContentView;

    open spec fn view(&self) -> ContentView {
        match self {
            Content::Text { text } => ContentView::Text { text: text@ },
            Content::DocumentUrl { document_url } => ContentView::DocumentUrl {
                document_url: document_url@,
            },
        }
    }
}

/// A message of a conversation. What it says is either one string or a list
/// of parts; which of the two is settled when the message is made.
#[derive(Debug, PartialEq, Eq)]
pub enum Message {
    /// A message that says one string: the system message.
    Simple { role: String, content: String },
    /// A message that says a list of parts, in order: a user message.
    WithContentArray { role: String, content: Vec<Content> },
}

/// The view of [`Message`].
pub enum MessageView {
    Simple { role: Seq<char>, content: Seq<char> },
    WithContentArray { role: Seq<char>, content: Seq<ContentView> },
}

impl View for Message {
    type V = MessageView;

    open spec fn view(&self) -> MessageView {
        match self {
            Message::Simple { role, content } => MessageView::Simple {
                role: role@,
                content: content@,
            },
            Message::WithContentArray { role, content } => MessageView::WithContentArray {
                role: role@,
                content: views(content@),
            },
        }
    }
}

/// A list of messages.
#[derive(Debug, PartialEq, Eq)]
pub struct Messages {
    pub messages: Vec<Message>,
}

impl View for Messages {
    type V = Seq<MessageView>;

    open spec fn view(&self) -> Seq<MessageView> {
        views(self.messages@)
    }
}

/// A JSON Schema that the answer is to conform to, with the name of the
/// contract and whether the service is to hold the model to it strictly.
#[derive(Debug, PartialEq, Eq)]
pub struct JsonSchemaFormat {
    pub schema: serde_json::Value,
    pub name: String,
    pub strict: bool,
}

/// The view of [`JsonSchemaFormat`].
pub struct JsonSchemaFormatView {
    pub schema: Json,
    pub name: Seq<char>,
    pub strict: bool,
}

impl View for JsonSchemaFormat {
    type V = JsonSchemaFormatView;

    open spec fn view(&self) -> JsonSchemaFormatView {
        JsonSchemaFormatView {
            schema: value_json(self.schema),
            name: self.name@,
            strict: self.strict,
        }
    }
}

/// The format asked of the answer. `format_type` is `json_schema`.
#[derive(Debug, PartialEq, Eq)]
pub struct ResponseFormat {
    pub format_type: String,
    pub json_schema: JsonSchemaFormat,
}

/// The view of [`ResponseFormat`].
pub struct ResponseFormatView {
    pub format_type: Seq<char>,
    pub json_schema: JsonSchemaFormatView,
}

impl View for ResponseFormat {
    type V = ResponseFormatView;

    open spec fn view(&self) -> ResponseFormatView {
        ResponseFormatView { format_type: self.format_type@, json_schema: self.json_schema@ }
    }
}

/// A chat request: what [`ChatRequestBuilder::build`] makes, and nothing
/// changes afterwards. Its messages are a conversation, the system message
/// first. The temperature is the JSON value that is sent for it: a number,
/// zero for a deterministic answer.
#[derive(Debug, PartialEq, Eq)]
pub struct ChatRequest {
    model: String,
    messages: Vec<Message>,
    response_format: Option<ResponseFormat>,
    max_tokens: Option<u32>,
    temperature: Option<serde_json::Value>,
}

/// The view of [`ChatRequest`].
pub struct ChatRequestView {
    pub model: Seq<char>,
    pub messages: Seq<MessageView>,
    pub response_format: Option<ResponseFormatView>,
    pub max_tokens: Option<u32>,
    pub temperature: Option<Json>,
}

impl View for ChatRequest {
    type V = ChatRequestView;

    closed spec fn view(&self) -> ChatRequestView {
        ChatRequestView {
            model: self.model@,
            messages: views(self.messages@),
            response_format: match self.response_format {
                Some(format) => Some(format@),
                None => None,
            },
            max_tokens: self.max_tokens,
            temperature: match self.temperature {
                Some(value) => Some(value_json(value)),
                None => None,
            },
        }
    }
}

/// The system message that says `text`.
pub open spec fn system_message(text: Seq<char>) -> MessageView {
    MessageView::Simple { role: "system"@, content: text }
}

/// The user message that says `text` and nothing else.
pub open spec fn user_message(text: Seq<char>) -> MessageView {
    MessageView::WithContentArray { role: "user"@, content: seq![ContentView::Text { text }] }
}

/// The user message that says `text` about the document at `document_url`:
/// the text first, the document after it.
pub open spec fn document_message(text: Seq<char>, document_url: Seq<char>) -> MessageView {
    MessageView::WithContentArray {
        role: "user"@,
        content: seq![ContentView::Text { text }, ContentView::DocumentUrl { document_url }],
    }
}

/// The format that asks for JSON conforming to `schema`.
pub open spec fn schema_format(schema: Json, name: Seq<char>, strict: bool) -> ResponseFormatView {
    ResponseFormatView {
        format_type: "json_schema"@,
        json_schema: JsonSchemaFormatView { schema, name, strict },
    }
}

/// Whether a message is one that the builder adds for the user: a text that
/// is not empty, alone or followed by one document.
pub open spec fn is_user_message(message: MessageView) -> bool {
    &&& message matches MessageView::WithContentArray { role, content }
    &&& role == "user"@
    &&& content.len() >= 1
    &&& content[0] matches ContentView::Text { text }
    &&& text.len() > 0
    &&& content.len() == 1 || (content.len() == 2 && content[1] is DocumentUrl)
}

/// Whether messages are a conversation as the builder makes it: one system
/// message, which says one string that is not empty, and user messages after
/// it.
pub open spec fn is_conversation(messages: Seq<MessageView>) -> bool {
    &&& messages.len() >= 1
    &&& messages[0] matches MessageView::Simple { role, content }
    &&& role == "system"@
    &&& content.len() > 0
    &&& forall|i: int| 1 <= i < messages.len() ==> is_user_message(#[trigger] messages[i])
}

/// How a part is written: an object tagged `text` or `document_url` under
/// `type`, with its payload under the name of the tag.
pub open spec fn content_json(content: ContentView) -> Json {
    match content {
        ContentView::Text { text } => Json::empty_object().with_member(
            "type"@,
            Json::Text("text"@),
        ).with_member("text"@, Json::Text(text)),
        ContentView::DocumentUrl { document_url } => Json::empty_object().with_member(
            "type"@,
            Json::Text("document_url"@),
        ).with_member("document_url"@, Json::Text(document_url)),
    }
}

/// How the parts of a message are written: an array, in their order.
pub open spec fn contents_json(contents: Seq<ContentView>) -> Json {
    Json::Array(contents.map_values(|content: ContentView| content_json(content)))
}

/// How a message is written: `{role, content}`, the content a string or an
/// array of parts.
pub open spec fn message_json(message: MessageView) -> Json {
    match message {
        MessageView::Simple { role, content } => Json::empty_object().with_member(
            "role"@,
            Json::Text(role),
        ).with_member("content"@, Json::Text(content)),
        MessageView::WithContentArray { role, content } => Json::empty_object().with_member(
            "role"@,
            Json::Text(role),
        ).with_member("content"@, contents_json(content)),
    }
}

/// How messages are written: an array, in their order.
pub open spec fn messages_json(messages: Seq<MessageView>) -> Json {
    Json::Array(messages.map_values(|message: MessageView| message_json(message)))
}

/// How the contract on the answer is written: `{schema, name, strict}`, the
/// schema as the document it is.
pub open spec fn json_schema_json(format: JsonSchemaFormatView) -> Json {
    Json::empty_object().with_member("schema"@, format.schema).with_member(
        "name"@,
        Json::Text(format.name),
    ).with_member("strict"@, Json::Bool(format.strict))
}

/// How the format of the answer is written: `{type, json_schema}`.
pub open spec fn response_format_json(format: ResponseFormatView) -> Json {
    Json::empty_object().with_member("type"@, Json::Text(format.format_type)).with_member(
        "json_schema"@,
        json_schema_json(format.json_schema),
    )
}

/// The body of a chat request: `{model, messages, response_format?,
/// max_tokens?, temperature?}`. A member that the request does not set is
/// left out.
pub open spec fn request_json(request: ChatRequestView) -> Json {
    let required = Json::empty_object().with_member(
        "model"@,
        Json::Text(request.model),
    ).with_member(
        "messages"@,
        messages_json(request.messages),
    );
    let formatted = match request.response_format {
        Some(format) => required.with_member("response_format"@, response_format_json(format)),
        None => required,
    };
    let bounded = match request.max_tokens {
        Some(limit) => formatted.with_member("max_tokens"@, Json::Unsigned(limit as u64)),
        None => formatted,
    };
    match request.temperature {
        Some(number) => bounded.with_member("temperature"@, number),
        None => bounded,
    }
}

/// The part that a document holds, if it holds one: an object whose `type`
/// is `text` and which has a string `text`, or whose `type` is
/// `document_url` and which has a string `document_url`. Any other `type` is
/// refused.
pub open spec fn content_of(doc: Json) -> Option<ContentView> {
    match doc.text_member("type"@) {
        Some(tag) => if tag == "text"@ {
            match doc.text_member("text"@) {
                Some(text) => Some(ContentView::Text { text }),
                None => None,
            }
        } else if tag == "document_url"@ {
            match doc.text_member("document_url"@) {
                Some(document_url) => Some(ContentView::DocumentUrl { document_url }),
                None => None,
            }
        } else {
            None
        },
        None => None,
    }
}

/// An array of parts.
pub open spec fn contents_of(doc: Json) -> Option<Seq<ContentView>> {
    match doc {
        Json::Array(items) => each(items, |item: Json| content_of(item)),
        _ => None,
    }
}

/// The message that a document holds, if it holds one: `{role, content}`
/// with a string for the role and, for the content, a string or an array of
/// parts.
pub open spec fn message_of(doc: Json) -> Option<MessageView> {
    match doc.text_member("role"@) {
        Some(role) => match doc.member("content"@) {
            Some(Json::Text(content)) => Some(MessageView::Simple { role, content }),
            Some(parts) => match contents_of(parts) {
                Some(content) => Some(MessageView::WithContentArray { role, content }),
                None => None,
            },
            None => None,
        },
        None => None,
    }
}

impl Content {
    /// Writes the document: see [`content_json`].
    pub fn to_json(&self) -> (r: serde_json::Value)
        ensures
            value_json(r) == content_json(self@),
    {
        let mut part = empty_object();
        match self {
            Content::Text { text } => {
                set_member(&mut part, "type", text_value("text".to_owned()));
                set_member(&mut part, "text", text_value(text.clone()));
            },
            Content::DocumentUrl { document_url } => {
                set_member(&mut part, "type", text_value("document_url".to_owned()));
                set_member(&mut part, "document_url", text_value(document_url.clone()));
            },
        }
        part
    }

    /// Writes the parts of a message.
    pub fn all_to_json(contents: &Vec<Content>) -> (r: serde_json::Value)
        ensures
            value_json(r) == contents_json(views(contents@)),
    {
        let mut parts: Vec<serde_json::Value> = Vec::new();
        let mut i: usize = 0;
        while i < contents.len()
            invariant
                i <= contents.len(),
                parts@.len() == i,
                forall|j: int|
                    0 <= j < i ==> value_json(#[trigger] parts@[j]) == content_json(contents@[j]@),
            decreases contents.len() - i,
        {
            parts.push(contents[i].to_json());
            i += 1;
        }
        assert(values_json(parts@) =~= views(contents@).map_values(
            |content: ContentView| content_json(content),
        ));
        array_value(parts)
    }

    /// Decodes a part: see [`content_of`].
    pub fn from_json(v: &serde_json::Value) -> (r: Option<Content>)
        ensures
            match r {
                Some(content) => content_of(value_json(*v)) == Some(content@),
                None => content_of(value_json(*v)) is None,
            },
    {
        let tag = text_member(v, "type")?;
        if tag == "text".to_owned() {
            let text = text_member(v, "text")?;
            Some(Content::Text { text })
        } else if tag == "document_url".to_owned() {
            let document_url = text_member(v, "document_url")?;
            Some(Content::DocumentUrl { document_url })
        } else {
            None
        }
    }

    /// Decodes an array of parts.
    pub fn all_from_json(v: &serde_json::Value) -> (r: Option<Vec<Content>>)
        ensures
            match r {
                Some(contents) => contents_of(value_json(*v)) == Some(views(contents@)),
                None => contents_of(value_json(*v)) is None,
            },
    {
        let items = match v.as_array() {
            Some(items) => items,
            None => {
                return None;
            },
        };
        let ghost docs = values_json(items@);
        let ghost shape = |item: Json| content_of(item);
        let mut contents: Vec<Content> = Vec::new();
        let mut i: usize = 0;
        while i < items.len()
            invariant
                i <= items.len(),
                contents@.len() == i,
                docs == values_json(items@),
                value_json(*v) == Json::Array(docs),
                shape == |item: Json| content_of(item),
                forall|j: int| 0 <= j < i ==> content_of(#[trigger] docs[j]) == Some(contents@[j]@),
            decreases items.len() - i,
        {
            match Content::from_json(&items[i]) {
                Some(content) => {
                    contents.push(content);
                },
                None => {
                    proof {
                        each_fails_at(docs, shape, i as int);
                    }
                    return None;
                },
            }
            i += 1;
        }
        proof {
            each_reads(docs, shape, views(contents@));
        }
        Some(contents)
    }
}

impl Message {
    /// Decodes a message: see [`message_of`].
    pub fn from_json(v: &serde_json::Value) -> (r: Option<Message>)
        ensures
            match r {
                Some(message) => message_of(value_json(*v)) == Some(message@),
                None => message_of(value_json(*v)) is None,
            },
    {
        let role = text_member(v, "role")?;
        let said = member(v, "content")?;
        match said.as_str() {
            Some(content) => Some(Message::Simple { role, content: content.to_owned() }),
            None => {
                let content = Content::all_from_json(said)?;
                Some(Message::WithContentArray { role, content })
            },
        }
    }

    /// Writes the document: see [`message_json`].
    pub fn to_json(&self) -> (r: serde_json::Value)
        ensures
            value_json(r) == message_json(self@),
    {
        let mut message = empty_object();
        match self {
            Message::Simple { role, content } => {
                set_member(&mut message, "role", text_value(role.clone()));
                set_member(&mut message, "content", text_value(content.clone()));
            },
            Message::WithContentArray { role, content } => {
                set_member(&mut message, "role", text_value(role.clone()));
                set_member(&mut message, "content", Content::all_to_json(content));
            },
        }
        message
    }

    /// Writes the messages of a request.
    pub fn all_to_json(messages: &Vec<Message>) -> (r: serde_json::Value)
        ensures
            value_json(r) == messages_json(views(messages@)),
    {
        let mut written: Vec<serde_json::Value> = Vec::new();
        let mut i: usize = 0;
        while i < messages.len()
            invariant
                i <= messages.len(),
                written@.len() == i,
                forall|j: int|
                    0 <= j < i ==> value_json(#[trigger] written@[j]) == message_json(
                        messages@[j]@,
                    ),
            decreases messages.len() - i,
        {
            written.push(messages[i].to_json());
            i += 1;
        }
        assert(values_json(written@) =~= views(messages@).map_values(
            |message: MessageView| message_json(message),
        ));
        array_value(written)
    }
}

impl JsonSchemaFormat {
    /// Writes the document: see [`json_schema_json`].
    pub fn to_json(&self) -> (r: serde_json::Value)
        ensures
            value_json(r) == json_schema_json(self@),
    {
        let mut format = empty_object();
        set_member(&mut format, "schema", self.schema.clone());
        set_member(&mut format, "name", text_value(self.name.clone()));
        set_member(&mut format, "strict", bool_value(self.strict));
        format
    }
}

impl ResponseFormat {
    /// Writes the document: see [`response_format_json`].
    pub fn to_json(&self) -> (r: serde_json::Value)
        ensures
            value_json(r) == response_format_json(self@),
    {
        let mut format = empty_object();
        set_member(&mut format, "type", text_value(self.format_type.clone()));
        set_member(&mut format, "json_schema", self.json_schema.to_json());
        format
    }
}

impl ChatRequest {
    #[verifier::type_invariant]
    spec fn messages_are_a_conversation(self) -> bool {
        is_conversation(views(self.messages@))
    }

    /// The model that the request is for.
    pub fn model(&self) -> (r: &str)
        ensures
            r@ == self@.model,
    {
        self.model.as_str()
    }

    /// The messages, in order. There is at least one: the system message.
    pub fn messages(&self) -> (r: &Vec<Message>)
        ensures
            views(r@) == self@.messages,
            is_conversation(self@.messages),
            r.len() >= 1,
    {
        proof {
            use_type_invariant(self);
        }
        &self.messages
    }

    /// The format asked of the answer, if one is.
    pub fn response_format(&self) -> (r: Option<&ResponseFormat>)
        ensures
            match r {
                Some(format) => self@.response_format == Some(format@),
                None => self@.response_format is None,
            },
    {
        self.response_format.as_ref()
    }

    /// The bound on the length of the answer, if there is one.
    pub fn max_tokens(&self) -> (r: Option<u32>)
        ensures
            r == self@.max_tokens,
    {
        self.max_tokens
    }

    /// The temperature, if one is set.
    pub fn temperature(&self) -> (r: Option<&serde_json::Value>)
        ensures
            match r {
                Some(value) => self@.temperature == Some(value_json(*value)),
                None => self@.temperature is None,
            },
    {
        self.temperature.as_ref()
    }

    /// The body of the request, as a document.
    pub fn to_json(&self) -> (r: serde_json::Value)
        ensures
            value_json(r) == request_json(self@),
    {
        let mut body = empty_object();
        set_member(&mut body, "model", text_value(self.model.clone()));
        set_member(&mut body, "messages", Message::all_to_json(&self.messages));
        match &self.response_format {
            Some(format) => {
                set_member(&mut body, "response_format", format.to_json());
            },
            None => {},
        }
        match self.max_tokens {
            Some(limit) => {
                set_member(&mut body, "max_tokens", unsigned_value(limit as u64));
            },
            None => {},
        }
        match &self.temperature {
            Some(value) => {
                set_member(&mut body, "temperature", value.clone());
            },
            None => {},
        }
        body
    }
}

/// Puts a chat request together, one call after another. Every call uses the
/// builder up and hands the next one on; [`ChatRequestBuilder::build`] ends
/// the chain.
pub struct ChatRequestBuilder {
    request: ChatRequest,
}

impl View for ChatRequestBuilder {
    type V = ChatRequestView;

    /// The request that the builder would build.
    closed spec fn view(&self) -> ChatRequestView {
        self.request@
    }
}

impl ChatRequestBuilder {
    /// A request to `model` that holds the system message and nothing else.
    /// The system message says something: its text is not empty.
    pub fn new(model: &str, system_message: &str, temperature: serde_json::Value) -> (r: Self)
        requires
            system_message@.len() > 0,
        ensures
            r@ == (ChatRequestView {
                model: model@,
                messages: seq![self::system_message(system_message@)],
                response_format: None,
                max_tokens: None,
                temperature: Some(value_json(temperature)),
            }),
    {
        let mut messages: Vec<Message> = Vec::new();
        messages.push(
            Message::Simple { role: "system".to_owned(), content: system_message.to_owned() },
        );
        assert(views(messages@) =~= seq![self::system_message(system_message@)]);
        ChatRequestBuilder {
            request: ChatRequest {
                model: model.to_owned(),
                messages,
                response_format: None,
                max_tokens: None,
                temperature: Some(temperature),
            },
        }
    }

    /// Adds a user message that says `text`, which is not empty.
    pub fn add_user_message(self, text: &str) -> (r: Self)
        requires
            text@.len() > 0,
        ensures
            r@ == (ChatRequestView { messages: self@.messages.push(user_message(text@)), ..self@ }),
    {
        let mut content: Vec<Content> = Vec::new();
        content.push(Content::Text { text: text.to_owned() });
        assert(views(content@) =~= seq![ContentView::Text { text: text@ }]);
        self.add_message(Message::WithContentArray { role: "user".to_owned(), content })
    }

    /// Adds a user message that says `text`, which is not empty, about the
    /// document at `document_url`. The address is not looked at.
    pub fn add_document_message(self, text: &str, document_url: &str) -> (r: Self)
        requires
            text@.len() > 0,
        ensures
            r@ == (ChatRequestView {
                messages: self@.messages.push(document_message(text@, document_url@)),
                ..self@
            }),
    {
        let mut content: Vec<Content> = Vec::new();
        content.push(Content::Text { text: text.to_owned() });
        content.push(Content::DocumentUrl { document_url: document_url.to_owned() });
        assert(views(content@) =~= seq![
            ContentView::Text { text: text@ },
            ContentView::DocumentUrl { document_url: document_url@ },
        ]);
        self.add_message(Message::WithContentArray { role: "user".to_owned(), content })
    }

    fn add_message(self, message: Message) -> (r: Self)
        requires
            is_user_message(message@),
        ensures
            r@ == (ChatRequestView { messages: self@.messages.push(message@), ..self@ }),
    {
        proof {
            use_type_invariant(&self.request);
        }
        let request = self.request;
        let mut messages = request.messages;
        let ghost before = views(messages@);
        messages.push(message);
        assert(views(messages@) =~= before.push(message@));
        ChatRequestBuilder {
            request: ChatRequest {
                model: request.model,
                messages,
                response_format: request.response_format,
                max_tokens: request.max_tokens,
                temperature: request.temperature,
            },
        }
    }

    /// Asks for an answer that conforms to `schema`, a document that has been
    /// read already.
    pub fn response_format(self, schema: serde_json::Value, name: &str, strict: bool) -> (r: Self)
        ensures
            r@ == (ChatRequestView {
                response_format: Some(schema_format(value_json(schema), name@, strict)),
                ..self@
            }),
    {
        proof {
            use_type_invariant(&self.request);
        }
        let request = self.request;
        ChatRequestBuilder {
            request: ChatRequest {
                model: request.model,
                messages: request.messages,
                response_format: Some(
                    ResponseFormat {
                        format_type: "json_schema".to_owned(),
                        json_schema: JsonSchemaFormat { schema, name: name.to_owned(), strict },
                    },
                ),
                max_tokens: request.max_tokens,
                temperature: request.temperature,
            },
        }
    }

    /// Asks for an answer that conforms to the JSON Schema written in
    /// `schema_json`. A text that is not JSON is refused here, before any
    /// request exists.
    pub fn response_format_from_json(
        self,
        schema_json: &str,
        name: &str,
        strict: bool,
    ) -> (r: Result<
        Self,
        MistralError,
    >)
        ensures
            match r {
                Ok(builder) => parsed_json(schema_json@) is Ok && builder@ == (ChatRequestView {
                    response_format: Some(
                        schema_format(parsed_json(schema_json@)->Ok_0, name@, strict),
                    ),
                    ..self@
                }),
                Err(e) => parsed_json(schema_json@) is Err && e@ == MistralErrorView::Parse(
                    ParseErrorView::Schema {
                        text: schema_json@,
                        complaint: parsed_json(schema_json@)->Err_0,
                    },
                ),
            },
    {
        match parse(schema_json) {
            Ok(schema) => Ok(self.response_format(schema, name, strict)),
            Err(e) => Err(
                MistralError::Parse(
                    ParseError::Schema { text: schema_json.to_owned(), complaint: complaint(&e) },
                ),
            ),
        }
    }

    /// Bounds the length of the answer.
    pub fn max_tokens(self, value: u32) -> (r: Self)
        ensures
            r@ == (ChatRequestView { max_tokens: Some(value), ..self@ }),
    {
        proof {
            use_type_invariant(&self.request);
        }
        let request = self.request;
        ChatRequestBuilder {
            request: ChatRequest {
                model: request.model,
                messages: request.messages,
                response_format: request.response_format,
                max_tokens: Some(value),
                temperature: request.temperature,
            },
        }
    }

    /// Sets the temperature.
    pub fn temperature(self, value: serde_json::Value) -> (r: Self)
        ensures
            r@ == (ChatRequestView { temperature: Some(value_json(value)), ..self@ }),
    {
        proof {
            use_type_invariant(&self.request);
        }
        let request = self.request;
        ChatRequestBuilder {
            request: ChatRequest {
                model: request.model,
                messages: request.messages,
                response_format: request.response_format,
                max_tokens: request.max_tokens,
                temperature: Some(value),
            },
        }
    }

    /// The request. Its messages are a conversation: the system message
    /// first, user messages after it.
    pub fn build(self) -> (r: ChatRequest)
        ensures
            r@ == self@,
            is_conversation(r@.messages),
    {
        proof {
            use_type_invariant(&self.request);
        }
        self.request
    }
}

/// The names of the members of a request differ from one another, and so do
/// the two tags.
proof fn member_names_differ()
    ensures
        "type"@ != "text"@,
        "type"@ != "document_url"@,
        "text"@ != "document_url"@,
        "role"@ != "content"@,
        "type"@ != "json_schema"@,
        "schema"@ != "name"@,
        "schema"@ != "strict"@,
        "name"@ != "strict"@,
        "model"@ != "messages"@,
        "model"@ != "response_format"@,
        "model"@ != "max_tokens"@,
        "model"@ != "temperature"@,
        "messages"@ != "response_format"@,
        "messages"@ != "max_tokens"@,
        "messages"@ != "temperature"@,
        "response_format"@ != "max_tokens"@,
        "response_format"@ != "temperature"@,
        "max_tokens"@ != "temperature"@,
{
    reveal_strlit("type");
    reveal_strlit("text");
    reveal_strlit("document_url");
    reveal_strlit("role");
    reveal_strlit("content");
    reveal_strlit("json_schema");
    reveal_strlit("schema");
    reveal_strlit("name");
    reveal_strlit("strict");
    reveal_strlit("model");
    reveal_strlit("messages");
    reveal_strlit("response_format");
    reveal_strlit("max_tokens");
    reveal_strlit("temperature");
    assert("type"@[1] != "text"@[1]);
    assert("schema"@[1] != "strict"@[1]);
    assert("content"@.len() == 7 && "messages"@.len() == 8 && "max_tokens"@.len() == 10);
    assert("json_schema"@.len() == 11 && "temperature"@.len() == 11);
    assert("document_url"@.len() == 12 && "response_format"@.len() == 15);
}

/// A part is read back from what it is written as; the tag it is written
/// with is the one that the wire format names.
pub proof fn content_is_read_back(content: ContentView)
    ensures
        content_of(content_json(content)) == Some(content),
        content_json(content).member("type"@) == Some(
            Json::Text(
                if content is Text {
                    "text"@
                } else {
                    "document_url"@
                },
            ),
        ),
{
    member_names_differ();
}

/// A part with a tag other than the two of the wire format is refused.
pub proof fn unknown_tag_is_refused(doc: Json)
    requires
        doc.text_member("type"@) != Some("text"@),
        doc.text_member("type"@) != Some("document_url"@),
    ensures
        content_of(doc) is None,
{
}

/// Parts are read back from what they are written as, in their order.
pub proof fn contents_are_read_back(contents: Seq<ContentView>)
    ensures
        contents_of(contents_json(contents)) == Some(contents),
{
    let written = contents.map_values(|content: ContentView| content_json(content));
    assert forall|i: int| 0 <= i < written.len() implies content_of(#[trigger] written[i]) == Some(
        contents[i],
    ) by {
        content_is_read_back(contents[i]);
    }
    each_reads(written, |item: Json| content_of(item), contents);
}

/// A message is read back from what it is written as: one that says a string
/// as one that says a string, one that says parts as one that says the same
/// parts in the same order.
pub proof fn message_is_read_back(message: MessageView)
    ensures
        message_of(message_json(message)) == Some(message),
{
    member_names_differ();
    match message {
        MessageView::Simple { role, content } => {},
        MessageView::WithContentArray { role, content } => {
            contents_are_read_back(content);
        },
    }
}

/// The member `key` of the body of a request.
pub open spec fn body_member(request: ChatRequestView, key: Seq<char>) -> Option<Json> {
    request_json(request).member(key)
}

/// What the body of a request holds: the model and the messages always,
/// each of the other three members exactly where the request sets it, and
/// nothing else.
pub proof fn body_holds_the_request(request: ChatRequestView)
    ensures
        body_member(request, "model"@) == Some(Json::Text(request.model)),
        body_member(request, "messages"@) == Some(messages_json(request.messages)),
        body_member(request, "response_format"@) == match request.response_format {
            Some(format) => Some(response_format_json(format)),
            None => None,
        },
        body_member(request, "max_tokens"@) == match request.max_tokens {
            Some(limit) => Some(Json::Unsigned(limit as u64)),
            None => None,
        },
        body_member(request, "temperature"@) == request.temperature,
        forall|key: Seq<char>| #[trigger]
            body_member(request, key) is Some ==> key == "model"@ || key == "messages"@ || key
                == "response_format"@ || key == "max_tokens"@ || key == "temperature"@,
{
    member_names_differ();
}

/// A request that holds the system message and one document message is
/// written with an array of two messages: the system message, whose content
/// is the one string, and the user message, whose content is an array of two
/// parts, the text first and the document after it.
pub proof fn document_request_is_two_messages(
    request: ChatRequestView,
    system: Seq<char>,
    text: Seq<char>,
    document_url: Seq<char>,
)
    requires
        request.messages == seq![system_message(system), document_message(text, document_url)],
    ensures
        ({
            &&& body_member(request, "messages"@) matches Some(Json::Array(messages))
            &&& messages.len() == 2
            &&& messages[0].member("role"@) == Some(Json::Text("system"@))
            &&& messages[0].member("content"@) == Some(Json::Text(system))
            &&& messages[1].member("role"@) == Some(Json::Text("user"@))
            &&& messages[1].member("content"@) matches Some(Json::Array(parts))
            &&& parts.len() == 2
            &&& parts[0].member("type"@) == Some(Json::Text("text"@))
            &&& parts[0].member("text"@) == Some(Json::Text(text))
            &&& parts[1].member("type"@) == Some(Json::Text("document_url"@))
            &&& parts[1].member("document_url"@) == Some(Json::Text(document_url))
        }),
{
    member_names_differ();
    body_holds_the_request(request);
}

/// A schema that a request is given stands in the body of the request as
/// the document it is, under `response_format`, `json_schema`, `schema`, with
/// the name and the strictness beside it.
pub proof fn schema_stands_in_the_body(
    request: ChatRequestView,
    schema: Json,
    name: Seq<char>,
    strict: bool,
)
    ensures
        ({
            let sent = ChatRequestView {
                response_format: Some(schema_format(schema, name, strict)),
                ..request
            };
            &&& body_member(sent, "response_format"@) matches Some(format)
            &&& format.member("type"@) == Some(Json::Text("json_schema"@))
            &&& format.member("json_schema"@) matches Some(contract)
            &&& contract.member("schema"@) == Some(schema)
            &&& contract.member("name"@) == Some(Json::Text(name))
            &&& contract.member("strict"@) == Some(Json::Bool(strict))
        }),
{
    member_names_differ();
    let sent = ChatRequestView {
        response_format: Some(schema_format(schema, name, strict)),
        ..request
    };
    body_holds_the_request(sent);
}

} // verus!
