//! What the clients of chat-completion services have in common: which model
//! a request goes to, and how the choices of an answer become the messages
//! and tool calls that a turn works with.

use crate::chat_completion::{
    ChatCompletionRequest, ChatCompletionResponse, ChatMessage, ChatMessageView,
};
use crate::tools::{tool_calls_view, ToolCall, ToolCallView};
use vstd::prelude::*;

pub mod gemini;
pub mod openrouter;

verus! {

/// Who speaks in a choice of an answer.
#[derive(Debug, Clone, Copy, PartialEq, Eq, Structural)]
pub enum Role {
    System,
    User,
    Assistant,
    Tool,
    Function,
}

/// One choice of an answer, as far as a turn reads it.
#[derive(Debug)]
pub struct Choice {
    pub role: Role,
    pub content: Option<String>,
    pub tool_calls: Option<Vec<ToolCall>>,
}

/// The model that a request goes to: the one it names, else the client's own.
pub open spec fn model_of(model: Option<String>, prompt_model: Seq<char>) -> Seq<char> {
    match model {
        Some(model) => model@,
        None => prompt_model,
    }
}

/// Picks the model that a request goes to.
pub fn choose_model(request: &ChatCompletionRequest, prompt_model: &str) -> (model: String)
    ensures
        model@ == model_of(request.model, prompt_model@),
{
    match &request.model {
        Some(model) => model.clone(),
        None => String::from_str(prompt_model),
    }
}

/// The message that a choice stands for: its content, where it has one and
/// the assistant, the system or the user speaks.
pub open spec fn choice_message(choice: Choice) -> Option<ChatMessageView> {
    match choice.content {
        None => None,
        Some(content) => match choice.role {
            Role::Assistant => Some(ChatMessageView::Assistant(content@)),
            Role::System => Some(ChatMessageView::System(content@)),
            Role::User => Some(ChatMessageView::User(content@)),
            _ => None,
        },
    }
}

/// The messages of all choices, in order.
pub open spec fn choice_messages(choices: Seq<Choice>) -> Seq<ChatMessageView>
    decreases choices.len(),
{
    if choices.len() == 0 {
        Seq::empty()
    } else {
        let earlier = choice_messages(choices.drop_last());
        match choice_message(choices.last()) {
            Some(message) => earlier.push(message),
            None => earlier,
        }
    }
}

/// The tool calls of an answer: those of its first choice.
pub open spec fn choice_tool_calls(choices: Seq<Choice>) -> Seq<ToolCallView> {
    if choices.len() == 0 {
        Seq::empty()
    } else {
        match choices[0].tool_calls {
            Some(calls) => tool_calls_view(calls@),
            None => Seq::empty(),
        }
    }
}

/// Reads the message that a choice stands for.
pub fn message_of_choice(choice: &Choice) -> (message: Option<ChatMessage>)
    ensures
        match message {
            Some(message) => choice_message(*choice) == Some(message@),
            None => choice_message(*choice).is_none(),
        },
{
    match &choice.content {
        None => None,
        Some(content) => match choice.role {
            Role::Assistant => Some(ChatMessage::Assistant(content.clone())),
            Role::System => Some(ChatMessage::System(content.clone())),
            Role::User => Some(ChatMessage::User(content.clone())),
            _ => None,
        },
    }
}

/// Copies a list of tool calls.
pub fn clone_tool_calls(calls: &Vec<ToolCall>) -> (copy: Vec<ToolCall>)
    ensures
        copy@ == calls@,
{
    let mut copy: Vec<ToolCall> = Vec::new();
    let mut i: usize = 0;
    while i < calls.len()
        invariant
            i <= calls.len(),
            copy@ == calls@.take(i as int),
        decreases calls.len() - i,
    {
        copy.push(calls[i].clone());
        assert(calls@.take(i + 1) =~= calls@.take(i as int).push(calls@[i as int]));
        i += 1;
    }
    assert(calls@.take(i as int) =~= calls@);
    copy
}

/// Turns the choices of an answer into what a turn works with.
pub fn response_from_choices(choices: &Vec<Choice>) -> (response: ChatCompletionResponse)
    ensures
        response@.messages == choice_messages(choices@),
        response@.tool_calls == choice_tool_calls(choices@),
{
    let mut messages: Vec<ChatMessage> = Vec::new();
    let mut i: usize = 0;
    assert(choices@.take(0) =~= Seq::<Choice>::empty());
    assert(crate::chat_completion::messages_view(messages@) =~= Seq::<ChatMessageView>::empty());
    while i < choices.len()
        invariant
            i <= choices.len(),
            crate::chat_completion::messages_view(messages@) == choice_messages(
                choices@.take(i as int),
            ),
        decreases choices.len() - i,
    {
        let ghost before = messages@;
        proof {
            let next = choices@.take(i + 1);
            assert(next.drop_last() =~= choices@.take(i as int));
            assert(next.last() == choices@[i as int]);
        }
        match message_of_choice(&choices[i]) {
            Some(message) => {
                messages.push(message);
                assert(crate::chat_completion::messages_view(messages@)
                    =~= crate::chat_completion::messages_view(before).push(message@));
            },
            None => {},
        }
        i += 1;
    }
    assert(choices@.take(i as int) =~= choices@);
    let tool_calls = if choices.len() == 0 {
        Vec::new()
    } else {
        match &choices[0].tool_calls {
            Some(calls) => clone_tool_calls(calls),
            None => Vec::new(),
        }
    };
    assert(choices@.len() > 0 && choices@[0].tool_calls is Some ==> tool_calls@
        == choices@[0].tool_calls->0@);
    assert(!(choices@.len() > 0 && choices@[0].tool_calls is Some) ==> tool_calls_view(tool_calls@)
        =~= Seq::<ToolCallView>::empty());
    ChatCompletionResponse { messages, tool_calls }
}

/// The value of the header that signs a request: `Bearer` and the key.
pub open spec fn bearer(api_key: Seq<char>) -> Seq<char> {
    "Bearer "@ + api_key
}

/// Writes the value of the header that signs a request.
pub fn bearer_value(api_key: &str) -> (value: String)
    ensures
        value@ == bearer(api_key@),
{
    String::from_str("Bearer ").concat(api_key)
}

/// Header names and values by what they hold.
pub open spec fn headers_view(headers: Seq<(String, String)>) -> Seq<(Seq<char>, Seq<char>)> {
    headers.map_values(|header: (String, String)| (header.0@, header.1@))
}

} // verus!
