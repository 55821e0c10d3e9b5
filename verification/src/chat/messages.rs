//! A conversation built on its own: the system message, which says one
//! string, and after it the messages of the user, which say lists of parts.

use vstd::prelude::*;

use crate::chat::chat_request::{
    contents_are_read_back, contents_json, contents_of, Content, ContentView,
};
use crate::json::{empty_object, member, set_member, text_member, text_value, value_json, Json};
use crate::views;

verus! {

/// What a message says: one string, or a list of parts in order. Which of
/// the two is settled when the message is made.
#[derive(Debug, PartialEq, Eq)]
pub enum MessageBody {
    /// One string: what the system message says.
    Text(String),
    /// A list of parts: what a user message says.
    Parts(Vec<Content>),
}

/// The view of [`MessageBody`].
pub enum MessageBodyView {
    Text(Seq<char>),
    Parts(Seq<ContentView>),
}

impl View for MessageBody {
    type V = MessageBodyView;

    open spec fn view(&self) -> MessageBodyView {
        match self {
            MessageBody::Text(text) => MessageBodyView::Text(text@),
            MessageBody::Parts(parts) => MessageBodyView::Parts(views(parts@)),
        }
    }
}

/// A message of a conversation.
#[derive(Debug, PartialEq, Eq)]
pub struct Message {
    pub role: String,
    pub content: MessageBody,
}

/// The view of [`Message`].
pub struct MessageView {
    pub role: Seq<char>,
    pub content: MessageBodyView,
}

impl View for Message {
    type V = MessageView;

    open spec fn view(&self) -> MessageView {
        MessageView { role: self.role@, content: self.content@ }
    }
}

/// A conversation: the system message first, then the messages of the user.
#[derive(Debug, PartialEq, Eq)]
pub struct Messages {
    pub messages: Vec<Message>,
}

impl View for Messages {
    type V = Seq<MessageView>;

    open spec fn view(&self) -> Seq<MessageView> {
        views(self.messages@)
    }
}

/// The system message that says `text`: one string.
pub open spec fn system_message(text: Seq<char>) -> MessageView {
    MessageView { role: "system"@, content: MessageBodyView::Text(text) }
}

/// The user message that says `text` about the document at `document_url`:
/// the text first, the document after it.
pub open spec fn document_message(text: Seq<char>, document_url: Seq<char>) -> MessageView {
    MessageView {
        role: "user"@,
        content: MessageBodyView::Parts(
            seq![ContentView::Text { text }, ContentView::DocumentUrl { document_url }],
        ),
    }
}

/// How what a message says is written: a string as a string, parts as an
/// array in their order.
pub open spec fn body_json(body: MessageBodyView) -> Json {
    match body {
        MessageBodyView::Text(text) => Json::Text(text),
        MessageBodyView::Parts(parts) => contents_json(parts),
    }
}

/// How a message is written: `{role, content}`.
pub open spec fn message_json(message: MessageView) -> Json {
    Json::empty_object().with_member("role"@, Json::Text(message.role)).with_member(
        "content"@,
        body_json(message.content),
    )
}

/// What a document says as the content of a message, if it is one: a string,
/// or an array of parts.
pub open spec fn body_of(doc: Json) -> Option<MessageBodyView> {
    match doc {
        Json::Text(text) => Some(MessageBodyView::Text(text)),
        _ => match contents_of(doc) {
            Some(parts) => Some(MessageBodyView::Parts(parts)),
            None => None,
        },
    }
}

/// The message that a document holds, if it holds one: `{role, content}`
/// with a string for the role and, for the content, a string or an array of
/// parts.
pub open spec fn message_of(doc: Json) -> Option<MessageView> {
    match doc.text_member("role"@) {
        Some(role) => match doc.member("content"@) {
            Some(said) => match body_of(said) {
                Some(content) => Some(MessageView { role, content }),
                None => None,
            },
            None => None,
        },
        None => None,
    }
}

impl MessageBody {
    /// Writes the document: see [`body_json`].
    pub fn to_json(&self) -> (r: serde_json::Value)
        ensures
            value_json(r) == body_json(self@),
    {
        match self {
            MessageBody::Text(text) => text_value(text.clone()),
            MessageBody::Parts(parts) => Content::all_to_json(parts),
        }
    }

    /// Decodes a document: see [`body_of`].
    pub fn from_json(v: &serde_json::Value) -> (r: Option<MessageBody>)
        ensures
            match r {
                Some(body) => body_of(value_json(*v)) == Some(body@),
                None => body_of(value_json(*v)) is None,
            },
    {
        match v.as_str() {
            Some(text) => Some(MessageBody::Text(text.to_owned())),
            None => {
                let parts = Content::all_from_json(v)?;
                Some(MessageBody::Parts(parts))
            },
        }
    }
}

impl Message {
    /// Writes the document: see [`message_json`].
    pub fn to_json(&self) -> (r: serde_json::Value)
        ensures
            value_json(r) == message_json(self@),
    {
        let mut message = empty_object();
        set_member(&mut message, "role", text_value(self.role.clone()));
        set_member(&mut message, "content", self.content.to_json());
        message
    }

    /// Decodes a document: see [`message_of`].
    pub fn from_json(v: &serde_json::Value) -> (r: Option<Message>)
        ensures
            match r {
                Some(message) => message_of(value_json(*v)) == Some(message@),
                None => message_of(value_json(*v)) is None,
            },
    {
        let role = text_member(v, "role")?;
        let content = MessageBody::from_json(member(v, "content")?)?;
        Some(Message { role, content })
    }
}

/// A message is read back from what it is written as: one that says a
/// string as one that says a string, one that says parts as one that says the
/// same parts in the same order.
pub proof fn message_is_read_back(message: MessageView)
    ensures
        message_of(message_json(message)) == Some(message),
{
    reveal_strlit("role");
    reveal_strlit("content");
    assert("role"@.len() == 4 && "content"@.len() == 7);
    match message.content {
        MessageBodyView::Text(text) => {},
        MessageBodyView::Parts(parts) => {
            contents_are_read_back(parts);
        },
    }
}

/// The system message is written with its text as one string, and a document
/// message with an array of two parts, the text first and the document after
/// it.
pub proof fn messages_are_written_by_their_kind(
    system: Seq<char>,
    text: Seq<char>,
    document_url: Seq<char>,
)
    ensures
        message_json(system_message(system)).member("role"@) == Some(Json::Text("system"@)),
        message_json(system_message(system)).member("content"@) == Some(Json::Text(system)),
        message_json(document_message(text, document_url)).member("role"@) == Some(
            Json::Text("user"@),
        ),
        ({
            &&& message_json(document_message(text, document_url)).member("content"@) matches Some(
                Json::Array(parts),
            )
            &&& parts.len() == 2
            &&& parts[0].member("text"@) == Some(Json::Text(text))
            &&& parts[1].member("document_url"@) == Some(Json::Text(document_url))
        }),
{
    reveal_strlit("role");
    reveal_strlit("content");
    assert("role"@.len() == 4 && "content"@.len() == 7);
}

impl Messages {
    /// Starts a conversation with its system message, which is not empty.
    pub fn builder(system_message: &str) -> (r: MessagesBuilder)
        requires
            system_message@.len() > 0,
        ensures
            r@ == seq![self::system_message(system_message@)],
    {
        let mut messages: Vec<Message> = Vec::new();
        messages.push(
            Message {
                role: "system".to_owned(),
                content: MessageBody::Text(system_message.to_owned()),
            },
        );
        MessagesBuilder { messages }
    }
}

/// Puts a conversation together, one call after another.
pub struct MessagesBuilder {
    messages: Vec<Message>,
}

impl View for MessagesBuilder {
    type V = Seq<MessageView>;

    /// The conversation so far.
    closed spec fn view(&self) -> Seq<MessageView> {
        views(self.messages@)
    }
}

impl MessagesBuilder {
    /// Adds a user message that says `text`, which is not empty, about the
    /// document at `document_url`. The address is not looked at.
    pub fn add_document_message(self, text: &str, document_url: &str) -> (r: Self)
        requires
            text@.len() > 0,
        ensures
            r@ == self@.push(document_message(text@, document_url@)),
    {
        let mut content: Vec<Content> = Vec::new();
        content.push(Content::Text { text: text.to_owned() });
        content.push(Content::DocumentUrl { document_url: document_url.to_owned() });
        assert(views(content@) =~= seq![
            ContentView::Text { text: text@ },
            ContentView::DocumentUrl { document_url: document_url@ },
        ]);
        let mut messages = self.messages;
        messages.push(Message { role: "user".to_owned(), content: MessageBody::Parts(content) });
        MessagesBuilder { messages }
    }

    /// The conversation.
    pub fn build(self) -> (r: Messages)
        ensures
            r@ == self@,
    {
        Messages { messages: self.messages }
    }
}

} // verus!
