//! Tool capabilities: what a tool is called with, what it answers, how it
//! fails, and the interface that every capability offers to the turn loop.

use crate::json_schema::{clone_value, json_view, JsonView};
use vstd::prelude::*;

verus! {

/// What a command printed.
#[derive(Debug)]
pub struct CommandOutput {
    pub output: String,
}

impl Clone for CommandOutput {
    fn clone(&self) -> (copy: Self)
        ensures
            copy == *self,
    {
        CommandOutput { output: self.output.clone() }
    }
}

impl CommandOutput {
    /// The printed text itself.
    pub fn to_string(&self) -> (text: String)
        ensures
            text@ == self.output@,
    {
        self.output.clone()
    }
}

/// Why a command behind a tool failed.
#[derive(Debug)]
pub enum CommandError {
    /// The executor could not run the command; the payload is its report.
    ExecutorError(String),
    /// The command ran and ended with a non-zero exit status.
    NonZeroExit(CommandOutput),
}

impl CommandError {
    /// The text that describes this error.
    pub open spec fn message(&self) -> Seq<char> {
        match self {
            CommandError::ExecutorError(report) => "executor error: "@ + report@,
            CommandError::NonZeroExit(output) => "command failed with NonZeroExit: "@
                + output.output@,
        }
    }

    pub fn to_string(&self) -> (text: String)
        ensures
            text@ == self.message(),
    {
        match self {
            CommandError::ExecutorError(report) => {
                String::from_str("executor error: ").concat(report.as_str())
            },
            CommandError::NonZeroExit(output) => {
                String::from_str("command failed with NonZeroExit: ").concat(
                    output.output.as_str(),
                )
            },
        }
    }
}

/// Why one invocation of a tool failed.
#[derive(Debug)]
pub enum ToolError {
    /// The capability has no function of that qualified name.
    InvalidFunctionName(String),
    /// The argument payload could not be read; the payload is the parser's report.
    WrongArguments(String),
    /// The tool ran a command and the command failed.
    ExecutionFailed(CommandError),
    /// Any other failure, by its report.
    Unknown(String),
}

impl ToolError {
    /// The text that describes this error.
    pub open spec fn message(&self) -> Seq<char> {
        match self {
            ToolError::InvalidFunctionName(name) => "invalid function name: "@ + name@,
            ToolError::WrongArguments(report) => "arguments for tool failed to parse: "@
                + report@,
            ToolError::ExecutionFailed(error) => "tool execution failed: "@ + error.message(),
            ToolError::Unknown(report) => report@,
        }
    }

    pub fn to_string(&self) -> (text: String)
        ensures
            text@ == self.message(),
    {
        match self {
            ToolError::InvalidFunctionName(name) => {
                String::from_str("invalid function name: ").concat(name.as_str())
            },
            ToolError::WrongArguments(report) => {
                String::from_str("arguments for tool failed to parse: ").concat(report.as_str())
            },
            ToolError::ExecutionFailed(error) => {
                let inner = error.to_string();
                String::from_str("tool execution failed: ").concat(inner.as_str())
            },
            ToolError::Unknown(report) => report.clone(),
        }
    }
}

impl From<CommandError> for ToolError {
    fn from(error: CommandError) -> (wrapped: ToolError)
        ensures
            wrapped == ToolError::ExecutionFailed(error),
    {
        ToolError::ExecutionFailed(error)
    }
}

impl vstd::std_specs::convert::FromSpecImpl<CommandError> for ToolError {
    open spec fn obeys_from_spec() -> bool {
        true
    }

    open spec fn from_spec(error: CommandError) -> ToolError {
        ToolError::ExecutionFailed(error)
    }
}

/// What a tool answers.
#[derive(Debug, PartialEq)]
pub enum ToolOutput {
    /// The tool did its work; the payload is its result.
    Text(String),
    /// The tool could not do its work; the payload says why.
    Fail(String),
    /// The tool asks that the turn end; the payload is the reason.
    Stop(String),
}

/// A [`ToolOutput`] by what it holds.
pub enum ToolOutputView {
    Text(Seq<char>),
    Fail(Seq<char>),
    Stop(Seq<char>),
}

impl View for ToolOutput {
    type V = ToolOutputView;

    open spec fn view(&self) -> ToolOutputView {
        match self {
            ToolOutput::Text(text) => ToolOutputView::Text(text@),
            ToolOutput::Fail(text) => ToolOutputView::Fail(text@),
            ToolOutput::Stop(text) => ToolOutputView::Stop(text@),
        }
    }
}

/// The text that stands for a tool's answer in the conversation.
pub open spec fn rendered_output(output: ToolOutputView) -> Seq<char> {
    match output {
        ToolOutputView::Text(text) => "Success: "@ + text,
        ToolOutputView::Fail(text) => "Failure: "@ + text,
        ToolOutputView::Stop(text) => "Stop: "@ + text,
    }
}

impl Clone for ToolOutput {
    fn clone(&self) -> (copy: Self)
        ensures
            copy == *self,
    {
        match self {
            ToolOutput::Text(text) => ToolOutput::Text(text.clone()),
            ToolOutput::Fail(text) => ToolOutput::Fail(text.clone()),
            ToolOutput::Stop(text) => ToolOutput::Stop(text.clone()),
        }
    }
}

impl ToolOutput {
    pub fn to_string(&self) -> (text: String)
        ensures
            text@ == rendered_output(self@),
    {
        match self {
            ToolOutput::Text(text) => String::from_str("Success: ").concat(text.as_str()),
            ToolOutput::Fail(text) => String::from_str("Failure: ").concat(text.as_str()),
            ToolOutput::Stop(text) => String::from_str("Stop: ").concat(text.as_str()),
        }
    }
}

/// The description of one callable function, as handed to the provider.
#[derive(Debug)]
pub struct ToolDefinition {
    /// The kind of the definition; `"function"` for every tool.
    pub kind: String,
    /// The qualified name under which the function is called.
    pub name: String,
    pub description: String,
    /// The schema of the argument object.
    pub parameters: serde_json::Value,
}

/// A [`ToolDefinition`] by what it holds.
pub struct ToolDefinitionView {
    pub kind: Seq<char>,
    pub name: Seq<char>,
    pub description: Seq<char>,
    pub parameters: JsonView,
}

impl View for ToolDefinition {
    type V = ToolDefinitionView;

    open spec fn view(&self) -> ToolDefinitionView {
        ToolDefinitionView {
            kind: self.kind@,
            name: self.name@,
            description: self.description@,
            parameters: json_view(self.parameters),
        }
    }
}

impl Clone for ToolDefinition {
    fn clone(&self) -> (copy: Self)
        ensures
            copy@ == self@,
    {
        ToolDefinition {
            kind: self.kind.clone(),
            name: self.name.clone(),
            description: self.description.clone(),
            parameters: clone_value(&self.parameters),
        }
    }
}

/// The views of a list of definitions, in order.
pub open spec fn definitions_view(definitions: Seq<ToolDefinition>) -> Seq<ToolDefinitionView> {
    definitions.map_values(|d: ToolDefinition| d@)
}

/// A request of the provider that one function be called.
#[derive(Debug)]
pub struct ToolCall {
    /// The qualified name of the function.
    pub name: String,
    /// The arguments: the text of a JSON object.
    pub args: String,
}

/// A [`ToolCall`] by what it holds.
pub struct ToolCallView {
    pub name: Seq<char>,
    pub args: Seq<char>,
}

impl View for ToolCall {
    type V = ToolCallView;

    open spec fn view(&self) -> ToolCallView {
        ToolCallView { name: self.name@, args: self.args@ }
    }
}

impl Clone for ToolCall {
    fn clone(&self) -> (copy: Self)
        ensures
            copy == *self,
    {
        ToolCall { name: self.name.clone(), args: self.args.clone() }
    }
}

/// The views of a list of tool calls, in order.
pub open spec fn tool_calls_view(calls: Seq<ToolCall>) -> Seq<ToolCallView> {
    calls.map_values(|c: ToolCall| c@)
}

/// A capability: a named set of functions that the provider may ask for.
///
/// The name of a capability, the qualified names that it claims and the
/// definitions that it publishes are fixed attributes of the capability:
/// `name`, `contain` and `definition` report them and nothing else, and an
/// implementation proves that they do. What `invoke` answers is up to the
/// capability and may differ from call to call; a call that is tried again
/// after a failure reaches the capability again. A capability may be used
/// from several threads and answers for its own safety there.
pub trait Toolset: Send + Sync {
    /// Whether this capability claims the qualified name.
    spec fn owns(&self, fn_name: Seq<char>) -> bool;

    /// The definitions that this capability publishes, in its own order.
    spec fn definitions(&self) -> Seq<ToolDefinitionView>;

    /// The name of the capability.
    spec fn label(&self) -> Seq<char>;

    fn name(&self) -> (name: String)
        ensures
            name@ == self.label(),
    ;

    fn definition(&self) -> (definitions: Vec<ToolDefinition>)
        ensures
            definitions_view(definitions@) == self.definitions(),
    ;

    fn contain(&self, fn_name: &str) -> (claimed: bool)
        ensures
            claimed == self.owns(fn_name@),
    ;

    /// Calls the function of that qualified name with the argument payload.
    fn invoke(&self, fn_name: &str, args: &str) -> Result<ToolOutput, ToolError>;
}

} // verus!
