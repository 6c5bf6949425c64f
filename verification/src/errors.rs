//! Why a prompt failed.

use crate::chat_completion::ChatCompletionError;
use crate::text::{decimal, decimal_string};
use crate::tools::ToolError;
use vstd::prelude::*;

verus! {

/// The failures of one prompt, by the stage that failed.
#[derive(Debug)]
pub enum OrchestrationError {
    /// The provider did not answer. Not retried.
    ProviderError(ChatCompletionError),
    /// No capability claims the qualified name that the provider asked for.
    ToolNotFound(String),
    /// A tool failed at every attempt; `source` is the last failure.
    ToolExecutionFailed { name: String, attempts: usize, source: ToolError },
    /// The turn used up its cycles; the payload is the limit.
    CycleLimitExceeded(usize),
}

/// An [`OrchestrationError`] by what it holds.
pub enum OrchestrationErrorView {
    ProviderError(ChatCompletionError),
    ToolNotFound(Seq<char>),
    ToolExecutionFailed { name: Seq<char>, attempts: nat, source: ToolError },
    CycleLimitExceeded(nat),
}

impl View for OrchestrationError {
    type V = OrchestrationErrorView;

    open spec fn view(&self) -> OrchestrationErrorView {
        match self {
            OrchestrationError::ProviderError(error) => OrchestrationErrorView::ProviderError(
                *error,
            ),
            OrchestrationError::ToolNotFound(name) => OrchestrationErrorView::ToolNotFound(name@),
            OrchestrationError::ToolExecutionFailed { name, attempts, source } => {
                OrchestrationErrorView::ToolExecutionFailed {
                    name: name@,
                    attempts: *attempts as nat,
                    source: *source,
                }
            },
            OrchestrationError::CycleLimitExceeded(limit) => {
                OrchestrationErrorView::CycleLimitExceeded(*limit as nat)
            },
        }
    }
}

/// The text that describes a failure.
pub open spec fn error_message(error: OrchestrationErrorView) -> Seq<char> {
    match error {
        OrchestrationErrorView::ProviderError(error) => error.message(),
        OrchestrationErrorView::ToolNotFound(name) => "Tool not found: "@ + name,
        OrchestrationErrorView::ToolExecutionFailed { name, attempts, source } => {
            "[Tool Error] Failed to invoke tool '"@ + name + "' after "@ + decimal(attempts)
                + " retries: "@ + source.message()
        },
        OrchestrationErrorView::CycleLimitExceeded(limit) => {
            "Exceeded maximum number of cycles ("@ + decimal(limit) + ")"@
        },
    }
}

impl OrchestrationError {
    pub fn to_string(&self) -> (text: String)
        ensures
            text@ == error_message(self@),
    {
        match self {
            OrchestrationError::ProviderError(error) => error.to_string(),
            OrchestrationError::ToolNotFound(name) => {
                String::from_str("Tool not found: ").concat(name.as_str())
            },
            OrchestrationError::ToolExecutionFailed { name, attempts, source } => {
                let count = decimal_string(*attempts);
                let reason = source.to_string();
                let mut text = String::from_str("[Tool Error] Failed to invoke tool '");
                text.append(name.as_str());
                text.append("' after ");
                text.append(count.as_str());
                text.append(" retries: ");
                text.append(reason.as_str());
                text
            },
            OrchestrationError::CycleLimitExceeded(limit) => {
                let count = decimal_string(*limit);
                let mut text = String::from_str("Exceeded maximum number of cycles (");
                text.append(count.as_str());
                text.append(")");
                text
            },
        }
    }
}

/// The outcome of a prompt by what it holds.
pub open spec fn outcome_view(outcome: Result<String, OrchestrationError>) -> Result<
    Seq<char>,
    OrchestrationErrorView,
> {
    match outcome {
        Ok(text) => Ok(text@),
        Err(error) => Err(error@),
    }
}

} // verus!
