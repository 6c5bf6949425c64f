//! The conversation and the provider that continues it.

use crate::text::{debug_string, debug_text, join3};
use crate::tools::{
    definitions_view, tool_calls_view, ToolCall, ToolCallView, ToolDefinition, ToolDefinitionView,
};
use vstd::prelude::*;

verus! {

/// One message of the dialogue, by who speaks.
#[derive(Debug)]
pub enum ChatMessage {
    Assistant(String),
    Developer(String),
    System(String),
    User(String),
}

/// A [`ChatMessage`] by what it holds.
pub enum ChatMessageView {
    Assistant(Seq<char>),
    Developer(Seq<char>),
    System(Seq<char>),
    User(Seq<char>),
}

impl View for ChatMessage {
    type V = ChatMessageView;

    open spec fn view(&self) -> ChatMessageView {
        match self {
            ChatMessage::Assistant(text) => ChatMessageView::Assistant(text@),
            ChatMessage::Developer(text) => ChatMessageView::Developer(text@),
            ChatMessage::System(text) => ChatMessageView::System(text@),
            ChatMessage::User(text) => ChatMessageView::User(text@),
        }
    }
}

impl Clone for ChatMessage {
    fn clone(&self) -> (copy: Self)
        ensures
            copy == *self,
    {
        match self {
            ChatMessage::Assistant(text) => ChatMessage::Assistant(text.clone()),
            ChatMessage::Developer(text) => ChatMessage::Developer(text.clone()),
            ChatMessage::System(text) => ChatMessage::System(text.clone()),
            ChatMessage::User(text) => ChatMessage::User(text.clone()),
        }
    }
}

/// How a message is written out for a reader: the speaker, and the text in
/// quotes between round brackets.
pub open spec fn message_display(message: ChatMessageView) -> Seq<char> {
    match message {
        ChatMessageView::Assistant(text) => "Assistant("@ + debug_text(text) + ")"@,
        ChatMessageView::Developer(text) => "Developer("@ + debug_text(text) + ")"@,
        ChatMessageView::System(text) => "System("@ + debug_text(text) + ")"@,
        ChatMessageView::User(text) => "User("@ + debug_text(text) + ")"@,
    }
}

impl ChatMessage {
    /// Writes the message out for a reader.
    pub fn display(&self) -> (text: String)
        ensures
            text@ == message_display(self@),
    {
        match self {
            ChatMessage::Assistant(text) => {
                let quoted = debug_string(text.as_str());
                join3("Assistant(", quoted.as_str(), ")")
            },
            ChatMessage::Developer(text) => {
                let quoted = debug_string(text.as_str());
                join3("Developer(", quoted.as_str(), ")")
            },
            ChatMessage::System(text) => {
                let quoted = debug_string(text.as_str());
                join3("System(", quoted.as_str(), ")")
            },
            ChatMessage::User(text) => {
                let quoted = debug_string(text.as_str());
                join3("User(", quoted.as_str(), ")")
            },
        }
    }
}

/// The views of a list of messages, in order.
pub open spec fn messages_view(messages: Seq<ChatMessage>) -> Seq<ChatMessageView> {
    messages.map_values(|m: ChatMessage| m@)
}

/// Copies a list of messages.
pub fn clone_messages(messages: &Vec<ChatMessage>) -> (copy: Vec<ChatMessage>)
    ensures
        copy@ == messages@,
{
    let mut copy: Vec<ChatMessage> = Vec::new();
    let mut i: usize = 0;
    while i < messages.len()
        invariant
            i <= messages.len(),
            copy@ == messages@.take(i as int),
        decreases messages.len() - i,
    {
        copy.push(messages[i].clone());
        assert(messages@.take(i + 1) =~= messages@.take(i as int).push(messages@[i as int]));
        i += 1;
    }
    assert(messages@.take(i as int) =~= messages@);
    copy
}

/// Copies a list of tool definitions.
pub fn clone_definitions(definitions: &Vec<ToolDefinition>) -> (copy: Vec<ToolDefinition>)
    ensures
        definitions_view(copy@) == definitions_view(definitions@),
{
    let mut copy: Vec<ToolDefinition> = Vec::new();
    let mut i: usize = 0;
    while i < definitions.len()
        invariant
            i <= definitions.len(),
            definitions_view(copy@) == definitions_view(definitions@.take(i as int)),
        decreases definitions.len() - i,
    {
        let ghost before = copy@;
        copy.push(definitions[i].clone());
        assert(definitions_view(copy@) =~= definitions_view(before).push(definitions@[i as int]@));
        assert(definitions@.take(i + 1) =~= definitions@.take(i as int).push(
            definitions@[i as int],
        ));
        assert(definitions_view(definitions@.take(i + 1)) =~= definitions_view(
            definitions@.take(i as int),
        ).push(definitions@[i as int]@));
        i += 1;
    }
    assert(definitions@.take(i as int) =~= definitions@);
    copy
}

/// What the provider is asked: the conversation so far and the functions it
/// may call.
#[derive(Debug)]
pub struct ChatCompletionRequest {
    /// The model to use in place of the provider's own choice.
    pub model: Option<String>,
    pub messages: Vec<ChatMessage>,
    pub tool_definitions: Vec<ToolDefinition>,
}

/// A [`ChatCompletionRequest`] by what it holds.
pub struct ChatCompletionRequestView {
    pub model: Option<Seq<char>>,
    pub messages: Seq<ChatMessageView>,
    pub tool_definitions: Seq<ToolDefinitionView>,
}

impl View for ChatCompletionRequest {
    type V = ChatCompletionRequestView;

    open spec fn view(&self) -> ChatCompletionRequestView {
        ChatCompletionRequestView {
            model: match self.model {
                Some(model) => Some(model@),
                None => None,
            },
            messages: messages_view(self.messages@),
            tool_definitions: definitions_view(self.tool_definitions@),
        }
    }
}

/// What the provider answers: the messages it adds and the functions it
/// wants called.
#[derive(Debug)]
pub struct ChatCompletionResponse {
    pub messages: Vec<ChatMessage>,
    pub tool_calls: Vec<ToolCall>,
}

/// A [`ChatCompletionResponse`] by what it holds.
pub struct ChatCompletionResponseView {
    pub messages: Seq<ChatMessageView>,
    pub tool_calls: Seq<ToolCallView>,
}

impl View for ChatCompletionResponse {
    type V = ChatCompletionResponseView;

    open spec fn view(&self) -> ChatCompletionResponseView {
        ChatCompletionResponseView {
            messages: messages_view(self.messages@),
            tool_calls: tool_calls_view(self.tool_calls@),
        }
    }
}

/// Why the provider did not answer.
#[derive(Debug)]
pub enum ChatCompletionError {
    /// A failure that the client itself reports.
    Literal(String),
    /// The model's service returned an error; the payload is its report.
    LLM(String),
    /// Any other failure, by its report.
    Unknown(String),
}

impl ChatCompletionError {
    /// The text that describes this error.
    pub open spec fn message(&self) -> Seq<char> {
        match self {
            ChatCompletionError::Literal(report) => "unexpected error: "@ + report@,
            ChatCompletionError::LLM(report) => "llm returned an error: "@ + report@,
            ChatCompletionError::Unknown(report) => report@,
        }
    }

    pub fn to_string(&self) -> (text: String)
        ensures
            text@ == self.message(),
    {
        match self {
            ChatCompletionError::Literal(report) => {
                String::from_str("unexpected error: ").concat(report.as_str())
            },
            ChatCompletionError::LLM(report) => {
                String::from_str("llm returned an error: ").concat(report.as_str())
            },
            ChatCompletionError::Unknown(report) => report.clone(),
        }
    }
}

/// The provider: it continues a conversation. What it answers is its own
/// affair; the library promises nothing of it and relies on nothing.
pub trait ChatCompletion: Send + Sync {
    fn send(&self, request: &ChatCompletionRequest) -> Result<
        ChatCompletionResponse,
        ChatCompletionError,
    >;
}

} // verus!
