//! One turn of the conversation as a state machine.
//!
//! A turn alternates between work that only the outside world can do (asking
//! the provider, invoking a tool, waiting before a retry) and decisions. The
//! decisions are here. [`TurnState`] and the functions over it are the
//! mathematical machine; [`Turn`] is the same machine in executable form, and
//! each of its methods is proved to take exactly the step that the machine
//! takes. Whoever drives a turn asks [`Turn::next`] what to do, does it, and
//! reports the result with [`Turn::on_response`] or [`Turn::on_tool_result`].

use crate::chat_completion::{
    clone_definitions, clone_messages, message_display, messages_view, ChatCompletionError,
    ChatCompletionRequest, ChatCompletionRequestView, ChatCompletionResponse,
    ChatCompletionResponseView, ChatMessage, ChatMessageView,
};
use crate::errors::{outcome_view, OrchestrationError, OrchestrationErrorView};
use crate::text::join3;
use crate::tools::{
    definitions_view, rendered_output, tool_calls_view, ToolCall, ToolDefinition,
    ToolDefinitionView, ToolError, ToolOutput, ToolOutputView, Toolset,
};
use vstd::prelude::*;

verus! {

/// For each capability of a list, the set of qualified names that it claims.
pub open spec fn claims(tools: Seq<Box<dyn Toolset>>) -> Seq<Set<Seq<char>>> {
    Seq::new(tools.len(), |i: int| Set::new(|name: Seq<char>| tools[i].owns(name)))
}

/// Whether capability `i` claims the name and none before it does.
pub open spec fn is_first_owner(claims: Seq<Set<Seq<char>>>, name: Seq<char>, i: int) -> bool {
    &&& 0 <= i < claims.len()
    &&& claims[i].contains(name)
    &&& forall|j: int| 0 <= j < i ==> !(#[trigger] claims[j]).contains(name)
}

/// The capability that a call of `name` goes to: the first in list order that
/// claims the name, if any does.
pub open spec fn first_owner(claims: Seq<Set<Seq<char>>>, name: Seq<char>) -> Option<int> {
    if exists|i: int| is_first_owner(claims, name, i) {
        Some(choose|i: int| is_first_owner(claims, name, i))
    } else {
        None
    }
}

/// Only one capability can be the first to claim a name.
pub proof fn lemma_first_owner_is(claims: Seq<Set<Seq<char>>>, name: Seq<char>, i: int)
    requires
        is_first_owner(claims, name, i),
    ensures
        first_owner(claims, name) == Some(i),
{
    let k = choose|k: int| is_first_owner(claims, name, k);
    assert(is_first_owner(claims, name, k));
    if k < i {
        assert(!claims[k].contains(name));
    } else if i < k {
        assert(!claims[i].contains(name));
    }
}

/// Where no capability claims a name, the call goes nowhere.
pub proof fn lemma_no_owner(claims: Seq<Set<Seq<char>>>, name: Seq<char>)
    requires
        forall|j: int| 0 <= j < claims.len() ==> !(#[trigger] claims[j]).contains(name),
    ensures
        first_owner(claims, name) is None,
{
}

/// Finds the capability that a call of `name` goes to.
pub fn find_tool(tools: &Vec<Box<dyn Toolset>>, name: &str) -> (found: Option<usize>)
    ensures
        found is Some <==> first_owner(claims(tools@), name@) is Some,
        found is Some ==> found->0 < tools.len() && found->0 as int == first_owner(
            claims(tools@),
            name@,
        )->0,
{
    let ghost c = claims(tools@);
    let mut i: usize = 0;
    while i < tools.len()
        invariant
            i <= tools.len(),
            c == claims(tools@),
            forall|j: int| 0 <= j < i ==> !(#[trigger] c[j]).contains(name@),
        decreases tools.len() - i,
    {
        if tools[i].contain(name) {
            proof {
                assert(c[i as int].contains(name@));
                lemma_first_owner_is(c, name@, i as int);
            }
            return Some(i);
        }
        assert(!c[i as int].contains(name@));
        i += 1;
    }
    proof {
        lemma_no_owner(c, name@);
    }
    None
}

/// What a turn is waiting for, or how it ended.
pub enum TurnPhaseView {
    /// The provider has been asked and has not answered yet.
    AwaitingProvider,
    /// Capability `tool` is to be invoked; `failures` attempts have failed.
    AwaitingTool { tool: int, name: Seq<char>, args: Seq<char>, failures: nat },
    /// The turn is over.
    Finished(Result<Seq<char>, OrchestrationErrorView>),
}

/// The state of a turn.
pub struct TurnState {
    /// Most provider round-trips in the turn.
    pub max_cycles: nat,
    /// Most attempts at one tool invocation.
    pub max_retries: nat,
    /// How long to wait before a retry, in milliseconds.
    pub retry_delay_ms: nat,
    /// The conversation so far.
    pub history: Seq<ChatMessageView>,
    /// How many cycles have begun, this one included.
    pub cycle: nat,
    pub phase: TurnPhaseView,
}

/// What the outside world reports to a turn.
pub enum TurnEvent {
    ProviderReplied(Result<ChatCompletionResponseView, ChatCompletionError>),
    ToolReplied(Result<ToolOutputView, ToolError>),
}

/// What a turn asks of the outside world.
pub enum TurnStepView {
    /// Send the request to the provider.
    Send(ChatCompletionRequestView),
    /// Wait `delay_ms` milliseconds, then invoke capability `tool`.
    Invoke { tool: int, name: Seq<char>, args: Seq<char>, delay_ms: nat },
    /// Nothing: the turn is over.
    Done,
}

/// The answer of a turn that ended because a tool asked it to.
pub open spec fn finished_text() -> Seq<char> {
    "Finished"@
}

/// The answer of a turn that ended because the provider asked for no tool:
/// the last message of the conversation, written out; a fixed text where the
/// conversation is empty.
pub open spec fn summary_of(history: Seq<ChatMessageView>) -> Seq<char> {
    if history.len() == 0 {
        "Chat Completion: "@ + "No response"@
    } else {
        "Chat Completion: "@ + message_display(history.last())
    }
}

/// The note that records a tool's answer in the conversation.
pub open spec fn tool_note(name: Seq<char>, output: ToolOutputView) -> ChatMessageView {
    ChatMessageView::Assistant(name + " returned: "@ + rendered_output(output))
}

/// How many attempts a tool gets: `max_retries`, and one even where that is zero.
pub open spec fn attempts_allowed(max_retries: nat) -> nat {
    if max_retries == 0 {
        1
    } else {
        max_retries
    }
}

impl TurnState {
    /// The state with another phase.
    pub open spec fn with_phase(self, phase: TurnPhaseView) -> TurnState {
        TurnState { phase, ..self }
    }

    /// The entry check of a cycle: the turn fails where `cycle` cycles have
    /// begun and that is the limit; else the next cycle begins with a request
    /// to the provider.
    pub open spec fn enter_cycle(self) -> TurnState {
        if self.cycle >= self.max_cycles {
            self.with_phase(
                TurnPhaseView::Finished(
                    Err(OrchestrationErrorView::CycleLimitExceeded(self.max_cycles)),
                ),
            )
        } else {
            TurnState { cycle: self.cycle + 1, phase: TurnPhaseView::AwaitingProvider, ..self }
        }
    }

    /// The state in which a turn begins: the conversation holds the standing
    /// instructions and the prompt, and the first cycle is entered.
    pub open spec fn start(
        max_cycles: nat,
        max_retries: nat,
        retry_delay_ms: nat,
        system_prompt: Seq<char>,
        prompt: Seq<char>,
    ) -> TurnState {
        TurnState {
            max_cycles,
            max_retries,
            retry_delay_ms,
            history: seq![ChatMessageView::System(system_prompt), ChatMessageView::User(prompt)],
            cycle: 0,
            phase: TurnPhaseView::AwaitingProvider,
        }.enter_cycle()
    }

    /// The step on the provider's reply, while the turn waits for it; at any
    /// other time the reply changes nothing. A failure ends the turn. An answer
    /// is appended to the conversation; without tool calls it ends the turn
    /// with the summary of the conversation, else its first tool call is
    /// dispatched to the first capability that claims it, and the turn fails
    /// where none does.
    pub open spec fn on_provider(
        self,
        claims: Seq<Set<Seq<char>>>,
        reply: Result<ChatCompletionResponseView, ChatCompletionError>,
    ) -> TurnState {
        match self.phase {
            TurnPhaseView::AwaitingProvider => match reply {
                Err(error) => self.with_phase(
                    TurnPhaseView::Finished(Err(OrchestrationErrorView::ProviderError(error))),
                ),
                Ok(response) => {
                    let history = self.history + response.messages;
                    let phase = if response.tool_calls.len() == 0 {
                        TurnPhaseView::Finished(Ok(summary_of(history)))
                    } else {
                        let call = response.tool_calls[0];
                        match first_owner(claims, call.name) {
                            None => TurnPhaseView::Finished(
                                Err(OrchestrationErrorView::ToolNotFound(call.name)),
                            ),
                            Some(tool) => TurnPhaseView::AwaitingTool {
                                tool,
                                name: call.name,
                                args: call.args,
                                failures: 0,
                            },
                        }
                    };
                    TurnState { history, phase, ..self }
                },
            },
            _ => self,
        }
    }

    /// The step on a tool's reply, while the turn waits for it; at any other
    /// time the reply changes nothing. A failure is counted, and ends the turn
    /// where the tool has had all its attempts. `Stop` clears the
    /// conversation and ends the turn. Any other answer is noted in the
    /// conversation, and the next cycle is entered.
    pub open spec fn on_tool(self, reply: Result<ToolOutputView, ToolError>) -> TurnState {
        match self.phase {
            TurnPhaseView::AwaitingTool { tool, name, args, failures } => match reply {
                Err(error) => {
                    if failures + 1 >= self.max_retries {
                        self.with_phase(
                            TurnPhaseView::Finished(
                                Err(
                                    OrchestrationErrorView::ToolExecutionFailed {
                                        name,
                                        attempts: failures + 1,
                                        source: error,
                                    },
                                ),
                            ),
                        )
                    } else {
                        self.with_phase(
                            TurnPhaseView::AwaitingTool {
                                tool,
                                name,
                                args,
                                failures: failures + 1,
                            },
                        )
                    }
                },
                Ok(ToolOutputView::Stop(_)) => TurnState {
                    history: Seq::empty(),
                    phase: TurnPhaseView::Finished(Ok(finished_text())),
                    ..self
                },
                Ok(output) => TurnState {
                    history: self.history.push(tool_note(name, output)),
                    ..self
                }.enter_cycle(),
            },
            _ => self,
        }
    }

    /// The step on any report.
    pub open spec fn step(self, claims: Seq<Set<Seq<char>>>, event: TurnEvent) -> TurnState {
        match event {
            TurnEvent::ProviderReplied(reply) => self.on_provider(claims, reply),
            TurnEvent::ToolReplied(reply) => self.on_tool(reply),
        }
    }

    /// The state after a sequence of reports, taken in order.
    pub open spec fn run(self, claims: Seq<Set<Seq<char>>>, events: Seq<TurnEvent>) -> TurnState
        decreases events.len(),
    {
        if events.len() == 0 {
            self
        } else {
            self.run(claims, events.drop_last()).step(claims, events.last())
        }
    }

    /// What the turn asks for next.
    pub open spec fn next(self, definitions: Seq<ToolDefinitionView>) -> TurnStepView {
        match self.phase {
            TurnPhaseView::AwaitingProvider => TurnStepView::Send(
                ChatCompletionRequestView {
                    model: None,
                    messages: self.history,
                    tool_definitions: definitions,
                },
            ),
            TurnPhaseView::AwaitingTool { tool, name, args, failures } => TurnStepView::Invoke {
                tool,
                name,
                args,
                delay_ms: if failures == 0 {
                    0
                } else {
                    self.retry_delay_ms
                },
            },
            TurnPhaseView::Finished(_) => TurnStepView::Done,
        }
    }

    /// How the turn ended, once it has.
    pub open spec fn outcome(self) -> Option<Result<Seq<char>, OrchestrationErrorView>> {
        match self.phase {
            TurnPhaseView::Finished(outcome) => Some(outcome),
            _ => None,
        }
    }

    /// What holds of every state that a turn can be in: no cycle beyond the
    /// limit has begun, a cycle has begun while the turn waits, and a tool
    /// that is to be invoked has attempts left and exists.
    pub open spec fn valid(self, tools: int) -> bool {
        &&& self.cycle <= self.max_cycles
        &&& match self.phase {
            TurnPhaseView::AwaitingProvider => 1 <= self.cycle,
            TurnPhaseView::AwaitingTool { tool, name, args, failures } => {
                &&& 1 <= self.cycle
                &&& 0 <= tool < tools
                &&& failures < attempts_allowed(self.max_retries)
            },
            TurnPhaseView::Finished(_) => true,
        }
    }
}

/// A run in two parts is the run of the second part from where the first ends.
pub proof fn lemma_run_concat(
    state: TurnState,
    claims: Seq<Set<Seq<char>>>,
    first: Seq<TurnEvent>,
    second: Seq<TurnEvent>,
)
    ensures
        state.run(claims, first + second) == state.run(claims, first).run(claims, second),
    decreases second.len(),
{
    if second.len() == 0 {
        assert(first + second =~= first);
    } else {
        lemma_run_concat(state, claims, first, second.drop_last());
        assert((first + second).drop_last() =~= first + second.drop_last());
        assert((first + second).last() == second.last());
    }
}

/// A run of one report is one step.
pub proof fn lemma_run_one(state: TurnState, claims: Seq<Set<Seq<char>>>, event: TurnEvent)
    ensures
        state.run(claims, seq![event]) == state.step(claims, event),
{
    assert(seq![event].drop_last() =~= Seq::<TurnEvent>::empty());
    assert(state.run(claims, Seq::<TurnEvent>::empty()) == state);
}

/// The provider's reply by what it holds.
pub open spec fn provider_reply_view(
    reply: Result<ChatCompletionResponse, ChatCompletionError>,
) -> Result<ChatCompletionResponseView, ChatCompletionError> {
    match reply {
        Ok(response) => Ok(response@),
        Err(error) => Err(error),
    }
}

/// A tool's reply by what it holds.
pub open spec fn tool_reply_view(reply: Result<ToolOutput, ToolError>) -> Result<
    ToolOutputView,
    ToolError,
> {
    match reply {
        Ok(output) => Ok(output@),
        Err(error) => Err(error),
    }
}

/// What a turn asks of its driver.
#[derive(Debug)]
pub enum TurnStep {
    /// Send the request to the provider and report the reply.
    Send(ChatCompletionRequest),
    /// Wait `delay_ms` milliseconds, invoke the capability at index `tool`
    /// and report the reply.
    Invoke { tool: usize, name: String, args: String, delay_ms: u64 },
    /// Nothing: the turn is over.
    Done,
}

impl View for TurnStep {
    type V = TurnStepView;

    open spec fn view(&self) -> TurnStepView {
        match self {
            TurnStep::Send(request) => TurnStepView::Send(request@),
            TurnStep::Invoke { tool, name, args, delay_ms } => TurnStepView::Invoke {
                tool: *tool as int,
                name: name@,
                args: args@,
                delay_ms: *delay_ms as nat,
            },
            TurnStep::Done => TurnStepView::Done,
        }
    }
}

/// Writes the summary of a conversation.
pub fn summarize(messages: &Vec<ChatMessage>) -> (summary: String)
    ensures
        summary@ == summary_of(messages_view(messages@)),
{
    if messages.len() == 0 {
        String::from_str("Chat Completion: ").concat("No response")
    } else {
        let last = messages[messages.len() - 1].display();
        String::from_str("Chat Completion: ").concat(last.as_str())
    }
}

/// Writes the note that records a tool's answer.
pub fn note_tool_output(name: &str, output: &ToolOutput) -> (note: ChatMessage)
    ensures
        note@ == tool_note(name@, output@),
{
    let rendered = output.to_string();
    ChatMessage::Assistant(join3(name, " returned: ", rendered.as_str()))
}

enum TurnPhase {
    AwaitingProvider,
    AwaitingTool { tool: usize, call: ToolCall, failures: usize },
    Finished(Result<String, OrchestrationError>),
}

/// A turn in progress: the machine of [`TurnState`] in executable form.
pub struct Turn {
    max_cycles: usize,
    max_retries: usize,
    retry_delay_ms: u64,
    history: Vec<ChatMessage>,
    cycle: usize,
    phase: TurnPhase,
}

impl View for Turn {
    type V = TurnState;

    closed spec fn view(&self) -> TurnState {
        TurnState {
            max_cycles: self.max_cycles as nat,
            max_retries: self.max_retries as nat,
            retry_delay_ms: self.retry_delay_ms as nat,
            history: messages_view(self.history@),
            cycle: self.cycle as nat,
            phase: match self.phase {
                TurnPhase::AwaitingProvider => TurnPhaseView::AwaitingProvider,
                TurnPhase::AwaitingTool { tool, call, failures } => TurnPhaseView::AwaitingTool {
                    tool: tool as int,
                    name: call.name@,
                    args: call.args@,
                    failures: failures as nat,
                },
                TurnPhase::Finished(outcome) => TurnPhaseView::Finished(outcome_view(outcome)),
            },
        }
    }
}

impl Turn {
    #[verifier::type_invariant]
    spec fn well_formed(self) -> bool {
        &&& self.cycle <= self.max_cycles
        &&& match self.phase {
            TurnPhase::AwaitingProvider => 1 <= self.cycle,
            TurnPhase::AwaitingTool { tool, call, failures } => {
                &&& 1 <= self.cycle
                &&& failures < attempts_allowed(self.max_retries as nat)
            },
            TurnPhase::Finished(_) => true,
        }
    }

    fn enter_cycle(
        max_cycles: usize,
        max_retries: usize,
        retry_delay_ms: u64,
        history: Vec<ChatMessage>,
        cycle: usize,
    ) -> (turn: Turn)
        requires
            cycle <= max_cycles,
        ensures
            turn@ == (TurnState {
                max_cycles: max_cycles as nat,
                max_retries: max_retries as nat,
                retry_delay_ms: retry_delay_ms as nat,
                history: messages_view(history@),
                cycle: cycle as nat,
                phase: TurnPhaseView::AwaitingProvider,
            }).enter_cycle(),
    {
        if cycle >= max_cycles {
            Turn {
                max_cycles,
                max_retries,
                retry_delay_ms,
                history,
                cycle,
                phase: TurnPhase::Finished(Err(OrchestrationError::CycleLimitExceeded(max_cycles))),
            }
        } else {
            Turn {
                max_cycles,
                max_retries,
                retry_delay_ms,
                history,
                cycle: cycle + 1,
                phase: TurnPhase::AwaitingProvider,
            }
        }
    }

    /// Begins a turn: the conversation holds the standing instructions and
    /// the prompt, and the first cycle is entered.
    pub fn begin(
        max_cycles: usize,
        max_retries: usize,
        retry_delay_ms: u64,
        system_prompt: &str,
        prompt: &str,
    ) -> (turn: Turn)
        ensures
            turn@ == TurnState::start(
                max_cycles as nat,
                max_retries as nat,
                retry_delay_ms as nat,
                system_prompt@,
                prompt@,
            ),
    {
        let mut history: Vec<ChatMessage> = Vec::new();
        history.push(ChatMessage::System(String::from_str(system_prompt)));
        history.push(ChatMessage::User(String::from_str(prompt)));
        assert(messages_view(history@) =~= seq![
            ChatMessageView::System(system_prompt@),
            ChatMessageView::User(prompt@),
        ]);
        Turn::enter_cycle(max_cycles, max_retries, retry_delay_ms, history, 0)
    }

    /// What the driver is to do next.
    pub fn next(&self, definitions: &Vec<ToolDefinition>) -> (step: TurnStep)
        ensures
            step@ == self@.next(definitions_view(definitions@)),
    {
        match &self.phase {
            TurnPhase::AwaitingProvider => TurnStep::Send(
                ChatCompletionRequest {
                    model: None,
                    messages: clone_messages(&self.history),
                    tool_definitions: clone_definitions(definitions),
                },
            ),
            TurnPhase::AwaitingTool { tool, call, failures } => TurnStep::Invoke {
                tool: *tool,
                name: call.name.clone(),
                args: call.args.clone(),
                delay_ms: if *failures == 0 {
                    0
                } else {
                    self.retry_delay_ms
                },
            },
            TurnPhase::Finished(_) => TurnStep::Done,
        }
    }

    /// Whether the turn is over.
    pub fn is_finished(&self) -> (finished: bool)
        ensures
            finished == self@.outcome().is_some(),
    {
        match &self.phase {
            TurnPhase::Finished(_) => true,
            _ => false,
        }
    }

    /// Whether the turn waits for a tool to be invoked.
    pub fn awaits_tool(&self) -> (waiting: bool)
        ensures
            waiting == (self@.phase is AwaitingTool),
    {
        match &self.phase {
            TurnPhase::AwaitingTool { .. } => true,
            _ => false,
        }
    }

    /// The conversation so far.
    pub fn history(&self) -> (history: &Vec<ChatMessage>)
        ensures
            messages_view(history@) == self@.history,
    {
        &self.history
    }

    /// Takes the provider's reply.
    pub fn on_response(
        self,
        tools: &Vec<Box<dyn Toolset>>,
        reply: Result<ChatCompletionResponse, ChatCompletionError>,
    ) -> (turn: Turn)
        ensures
            turn@ == self@.on_provider(claims(tools@), provider_reply_view(reply)),
            turn@.phase is AwaitingTool && !(self@.phase is AwaitingTool) ==> 0
                <= turn@.phase->tool < tools@.len(),
    {
        proof {
            use_type_invariant(&self);
        }
        let Turn { max_cycles, max_retries, retry_delay_ms, history, cycle, phase } = self;
        match phase {
            TurnPhase::AwaitingProvider => match reply {
                Err(error) => Turn {
                    max_cycles,
                    max_retries,
                    retry_delay_ms,
                    history,
                    cycle,
                    phase: TurnPhase::Finished(Err(OrchestrationError::ProviderError(error))),
                },
                Ok(response) => {
                    let ChatCompletionResponse { messages, tool_calls } = response;
                    let mut history = history;
                    let mut messages = messages;
                    let ghost before = history@;
                    let ghost added = messages@;
                    history.append(&mut messages);
                    assert(messages_view(history@) =~= messages_view(before) + messages_view(
                        added,
                    ));
                    let phase = if tool_calls.len() == 0 {
                        TurnPhase::Finished(Ok(summarize(&history)))
                    } else {
                        let call = tool_calls[0].clone();
                        assert(tool_calls_view(tool_calls@)[0] == call@);
                        match find_tool(tools, call.name.as_str()) {
                            None => TurnPhase::Finished(
                                Err(OrchestrationError::ToolNotFound(call.name)),
                            ),
                            Some(tool) => TurnPhase::AwaitingTool { tool, call, failures: 0 },
                        }
                    };
                    Turn { max_cycles, max_retries, retry_delay_ms, history, cycle, phase }
                },
            },
            other => Turn { max_cycles, max_retries, retry_delay_ms, history, cycle, phase: other },
        }
    }

    /// Takes a tool's reply.
    pub fn on_tool_result(self, reply: Result<ToolOutput, ToolError>) -> (turn: Turn)
        ensures
            turn@ == self@.on_tool(tool_reply_view(reply)),
    {
        proof {
            use_type_invariant(&self);
        }
        let Turn { max_cycles, max_retries, retry_delay_ms, history, cycle, phase } = self;
        match phase {
            TurnPhase::AwaitingTool { tool, call, failures } => match reply {
                Err(error) => {
                    let phase = if failures + 1 >= max_retries {
                        TurnPhase::Finished(
                            Err(
                                OrchestrationError::ToolExecutionFailed {
                                    name: call.name,
                                    attempts: failures + 1,
                                    source: error,
                                },
                            ),
                        )
                    } else {
                        TurnPhase::AwaitingTool { tool, call, failures: failures + 1 }
                    };
                    Turn { max_cycles, max_retries, retry_delay_ms, history, cycle, phase }
                },
                Ok(output) => match output {
                    ToolOutput::Stop(_) => {
                        let mut history = history;
                        history.clear();
                        assert(messages_view(history@) =~= Seq::<ChatMessageView>::empty());
                        Turn {
                            max_cycles,
                            max_retries,
                            retry_delay_ms,
                            history,
                            cycle,
                            phase: TurnPhase::Finished(Ok(String::from_str("Finished"))),
                        }
                    },
                    answer => {
                        let mut history = history;
                        let ghost before = history@;
                        let note = note_tool_output(call.name.as_str(), &answer);
                        history.push(note);
                        assert(messages_view(history@) =~= messages_view(before).push(note@));
                        Turn::enter_cycle(max_cycles, max_retries, retry_delay_ms, history, cycle)
                    },
                },
            },
            other => Turn { max_cycles, max_retries, retry_delay_ms, history, cycle, phase: other },
        }
    }

    /// Ends the turn: hands back the conversation and, where the turn is
    /// over, how it ended.
    pub fn finish(self) -> (end: (Vec<ChatMessage>, Option<Result<String, OrchestrationError>>))
        ensures
            messages_view(end.0@) == self@.history,
            match end.1 {
                Some(outcome) => self@.outcome() == Some(outcome_view(outcome)),
                None => self@.outcome().is_none(),
            },
    {
        let Turn { max_cycles, max_retries, retry_delay_ms, history, cycle, phase } = self;
        match phase {
            TurnPhase::Finished(outcome) => (history, Some(outcome)),
            _ => (history, None),
        }
    }
}

} // verus!
