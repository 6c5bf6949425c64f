//! The agent: a provider, a list of capabilities, standing instructions and a
//! conversation, driven one prompt at a time.

use crate::chat_completion::{messages_view, ChatCompletion, ChatMessage, ChatMessageView};
use crate::errors::{outcome_view, OrchestrationError};
use crate::laws::{consistent, law_turn_is_consistent};
use crate::tools::{definitions_view, ToolDefinition, ToolDefinitionView, Toolset};
use crate::turn::{
    attempts_allowed, claims, lemma_run_concat, provider_reply_view, tool_reply_view, Turn,
    TurnEvent, TurnState, TurnStep,
};
use vstd::prelude::*;

verus! {

/// The limits of one prompt.
#[derive(Debug, Clone, Copy)]
pub struct MultiTurnAgentConfig {
    /// Most provider round-trips in one prompt.
    pub max_cycles: usize,
    /// Most attempts at one tool invocation.
    pub max_retries: usize,
    /// How long to wait before a tool is tried again, in milliseconds.
    pub retry_delay_ms: u64,
}

impl Default for MultiTurnAgentConfig {
    fn default() -> (config: Self)
        ensures
            config.max_cycles == 10,
            config.max_retries == 3,
            config.retry_delay_ms == 500,
    {
        MultiTurnAgentConfig { max_cycles: 10, max_retries: 3, retry_delay_ms: 500 }
    }
}

/// The definitions of all capabilities of a list: those of the first, then
/// those of the second, and so on, each in its own order and none left out.
pub open spec fn all_definitions(tools: Seq<Box<dyn Toolset>>) -> Seq<ToolDefinitionView>
    decreases tools.len(),
{
    if tools.len() == 0 {
        Seq::empty()
    } else {
        all_definitions(tools.drop_last()) + tools.last().definitions()
    }
}

/// Gathers the definitions of all capabilities, in list order.
pub fn collect_definitions(tools: &Vec<Box<dyn Toolset>>) -> (definitions: Vec<ToolDefinition>)
    ensures
        definitions_view(definitions@) == all_definitions(tools@),
{
    let mut definitions: Vec<ToolDefinition> = Vec::new();
    let mut i: usize = 0;
    assert(tools@.take(0) =~= Seq::<Box<dyn Toolset>>::empty());
    while i < tools.len()
        invariant
            i <= tools.len(),
            definitions_view(definitions@) == all_definitions(tools@.take(i as int)),
        decreases tools.len() - i,
    {
        let mut more = tools[i].definition();
        let ghost before = definitions@;
        let ghost added = more@;
        definitions.append(&mut more);
        proof {
            assert(definitions_view(definitions@) =~= definitions_view(before) + definitions_view(
                added,
            ));
            let next = tools@.take(i + 1);
            assert(next.drop_last() =~= tools@.take(i as int));
            assert(next.last() == tools@[i as int]);
        }
        i += 1;
    }
    assert(tools@.take(i as int) =~= tools@);
    definitions
}

/// How many cycles a turn can still be in, the present one included; zero
/// once the turn is over.
pub open spec fn cycles_left(state: TurnState) -> nat {
    if state.outcome().is_some() {
        0
    } else {
        (state.max_cycles - state.cycle + 1) as nat
    }
}

/// The standing instructions of an agent that is given none.
pub const DEFAULT_SYSTEM_PROMPT: &'static str = "
You are a **Senior Assistant Specialist**.

Your role is to help the user successfully complete their request by utilizing all available tools at your disposal.

- Tasks may require multiple steps to complete.
- For each step, if a tool is needed, you should invoke it with the appropriate arguments.
- Once the tool responds, assess the result and determine the next appropriate step.
- Continue this process until the task is fully completed.
- When the task is complete, you must use the **special tool** called **stop_stop** to signal the end of the task.
";

/// An agent and its conversation.
pub struct MultiTurnAgent {
    chat_completion: Box<dyn ChatCompletion>,
    chat_history: Vec<ChatMessage>,
    tools: Vec<Box<dyn Toolset>>,
    system_prompt: String,
    config: MultiTurnAgentConfig,
}

impl MultiTurnAgent {
    /// The conversation.
    pub closed spec fn history(&self) -> Seq<ChatMessageView> {
        messages_view(self.chat_history@)
    }

    /// The capabilities, in list order.
    pub closed spec fn tools(&self) -> Seq<Box<dyn Toolset>> {
        self.tools@
    }

    /// The standing instructions.
    pub closed spec fn system_prompt(&self) -> Seq<char> {
        self.system_prompt@
    }

    /// The limits.
    pub closed spec fn config(&self) -> MultiTurnAgentConfig {
        self.config
    }

    /// The state in which this agent begins a turn on `prompt`.
    pub open spec fn start(&self, prompt: Seq<char>) -> TurnState {
        TurnState::start(
            self.config().max_cycles as nat,
            self.config().max_retries as nat,
            self.config().retry_delay_ms as nat,
            self.system_prompt(),
            prompt,
        )
    }

    /// An agent with the default limits and an empty conversation.
    pub fn new(
        chat_completion: Box<dyn ChatCompletion>,
        tools: Vec<Box<dyn Toolset>>,
        system_prompt: String,
    ) -> (agent: Self)
        ensures
            agent.tools() == tools@,
            agent.system_prompt() == system_prompt@,
            agent.history() == Seq::<ChatMessageView>::empty(),
            agent.config().max_cycles == 10,
            agent.config().max_retries == 3,
            agent.config().retry_delay_ms == 500,
    {
        let agent = MultiTurnAgent {
            chat_completion,
            chat_history: Vec::new(),
            tools,
            system_prompt,
            config: MultiTurnAgentConfig::default(),
        };
        assert(messages_view(agent.chat_history@) =~= Seq::<ChatMessageView>::empty());
        agent
    }

    /// An agent with the given limits and an empty conversation.
    pub fn new_with_config(
        chat_completion: Box<dyn ChatCompletion>,
        tools: Vec<Box<dyn Toolset>>,
        system_prompt: String,
        config: MultiTurnAgentConfig,
    ) -> (agent: Self)
        ensures
            agent.tools() == tools@,
            agent.system_prompt() == system_prompt@,
            agent.history() == Seq::<ChatMessageView>::empty(),
            agent.config() == config,
    {
        let agent = MultiTurnAgent {
            chat_completion,
            chat_history: Vec::new(),
            tools,
            system_prompt,
            config,
        };
        assert(messages_view(agent.chat_history@) =~= Seq::<ChatMessageView>::empty());
        agent
    }

    /// An agent without capabilities.
    pub fn new_without_tools(chat_completion: Box<dyn ChatCompletion>, system_prompt: String) -> (agent:
        Self)
        ensures
            agent.tools() == Seq::<Box<dyn Toolset>>::empty(),
            agent.system_prompt() == system_prompt@,
            agent.history() == Seq::<ChatMessageView>::empty(),
            agent.config().max_cycles == 10,
            agent.config().max_retries == 3,
            agent.config().retry_delay_ms == 500,
    {
        MultiTurnAgent::new(chat_completion, Vec::new(), system_prompt)
    }

    /// Adds a capability behind those that the agent has.
    pub fn add_tool(&mut self, tool: Box<dyn Toolset>)
        ensures
            final(self).tools() == old(self).tools().push(tool),
            final(self).system_prompt() == old(self).system_prompt(),
            final(self).history() == old(self).history(),
            final(self).config() == old(self).config(),
    {
        self.tools.push(tool);
    }

    /// Adds capabilities behind those that the agent has, in their order.
    pub fn add_tools(&mut self, tools: Vec<Box<dyn Toolset>>)
        ensures
            final(self).tools() == old(self).tools() + tools@,
            final(self).system_prompt() == old(self).system_prompt(),
            final(self).history() == old(self).history(),
            final(self).config() == old(self).config(),
    {
        let mut tools = tools;
        self.tools.append(&mut tools);
    }

    /// The conversation as it stands.
    pub fn chat_history(&self) -> (history: &Vec<ChatMessage>)
        ensures
            messages_view(history@) == self.history(),
    {
        &self.chat_history
    }

    /// Runs one turn on `prompt`; see [`run_turn`]. The conversation of the
    /// agent is afterwards the conversation of the turn: empty where a tool
    /// stopped the turn, else the standing instructions, the prompt and what
    /// the turn added, also where the turn failed.
    pub fn prompt<W: Fn(u64)>(&mut self, prompt: &str, pause: W) -> (outcome: Result<
        String,
        OrchestrationError,
    >)
        requires
            forall|millis: u64| pause.requires((millis,)),
        ensures
            final(self).tools() == old(self).tools(),
            final(self).system_prompt() == old(self).system_prompt(),
            final(self).config() == old(self).config(),
            exists|events: Seq<TurnEvent>|
                {
                    let end = #[trigger] old(self).start(prompt@).run(
                        claims(old(self).tools()),
                        events,
                    );
                    &&& end.outcome() == Some(outcome_view(outcome))
                    &&& end.history == final(self).history()
                    &&& consistent(
                        end,
                        claims(old(self).tools()),
                        old(self).config().max_cycles as nat,
                        old(self).config().max_retries as nat,
                        old(self).config().retry_delay_ms as nat,
                        old(self).system_prompt(),
                        prompt@,
                    )
                },
    {
        let (history, outcome) = run_turn(
            &self.chat_completion,
            &self.tools,
            self.config.max_cycles,
            self.config.max_retries,
            self.config.retry_delay_ms,
            self.system_prompt.as_str(),
            prompt,
            &pause,
        );
        proof {
            let first = old(self).start(prompt@);
            let events = choose|events: Seq<TurnEvent>|
                {
                    let last = #[trigger] first.run(claims(self.tools@), events);
                    &&& last.outcome() == Some(outcome_view(outcome))
                    &&& last.history == messages_view(history@)
                    &&& consistent(
                        last,
                        claims(self.tools@),
                        self.config.max_cycles as nat,
                        self.config.max_retries as nat,
                        self.config.retry_delay_ms as nat,
                        self.system_prompt@,
                        prompt@,
                    )
                };
            assert(first.run(claims(old(self).tools()), events).history == messages_view(
                history@,
            ));
        }
        self.chat_history = history;
        outcome
    }
}

/// Why an agent could not be built.
#[derive(Debug)]
pub enum BuildError {
    /// No provider was given.
    UninitializedChatCompletion,
}

impl BuildError {
    /// The text that describes this error.
    pub open spec fn message(&self) -> Seq<char> {
        "`chat_completion` must be initialized"@
    }

    pub fn to_string(&self) -> (text: String)
        ensures
            text@ == self.message(),
    {
        String::from_str("`chat_completion` must be initialized")
    }
}

/// Collects the parts of an agent. Only the provider has to be given: the
/// capabilities default to none, the standing instructions to
/// [`DEFAULT_SYSTEM_PROMPT`] and the limits to their defaults.
pub struct MultiTurnAgentBuilder {
    chat_completion: Option<Box<dyn ChatCompletion>>,
    tools: Option<Vec<Box<dyn Toolset>>>,
    system_prompt: Option<String>,
    config: Option<MultiTurnAgentConfig>,
}

impl MultiTurnAgentBuilder {
    /// Whether a provider was given.
    pub closed spec fn has_provider(&self) -> bool {
        self.chat_completion is Some
    }

    /// The capabilities that the agent will have.
    pub closed spec fn given_tools(&self) -> Seq<Box<dyn Toolset>> {
        match self.tools {
            Some(tools) => tools@,
            None => Seq::empty(),
        }
    }

    /// The standing instructions that the agent will have.
    pub closed spec fn given_prompt(&self) -> Seq<char> {
        match self.system_prompt {
            Some(text) => text@,
            None => DEFAULT_SYSTEM_PROMPT@,
        }
    }

    /// The limits that the agent will have.
    pub closed spec fn given_config(&self) -> MultiTurnAgentConfig {
        match self.config {
            Some(config) => config,
            None => MultiTurnAgentConfig { max_cycles: 10, max_retries: 3, retry_delay_ms: 500 },
        }
    }

    /// A builder to which nothing was given yet.
    pub fn new() -> (builder: Self)
        ensures
            !builder.has_provider(),
            builder.given_tools() == Seq::<Box<dyn Toolset>>::empty(),
            builder.given_prompt() == DEFAULT_SYSTEM_PROMPT@,
            builder.given_config() == (MultiTurnAgentConfig {
                max_cycles: 10,
                max_retries: 3,
                retry_delay_ms: 500,
            }),
    {
        MultiTurnAgentBuilder { chat_completion: None, tools: None, system_prompt: None, config: None }
    }

    pub fn chat_completion(self, chat_completion: Box<dyn ChatCompletion>) -> (builder: Self)
        ensures
            builder.has_provider(),
            builder.given_tools() == self.given_tools(),
            builder.given_prompt() == self.given_prompt(),
            builder.given_config() == self.given_config(),
    {
        MultiTurnAgentBuilder {
            chat_completion: Some(chat_completion),
            tools: self.tools,
            system_prompt: self.system_prompt,
            config: self.config,
        }
    }

    pub fn tools(self, tools: Vec<Box<dyn Toolset>>) -> (builder: Self)
        ensures
            builder.has_provider() == self.has_provider(),
            builder.given_tools() == tools@,
            builder.given_prompt() == self.given_prompt(),
            builder.given_config() == self.given_config(),
    {
        MultiTurnAgentBuilder {
            chat_completion: self.chat_completion,
            tools: Some(tools),
            system_prompt: self.system_prompt,
            config: self.config,
        }
    }

    pub fn system_prompt(self, system_prompt: String) -> (builder: Self)
        ensures
            builder.has_provider() == self.has_provider(),
            builder.given_tools() == self.given_tools(),
            builder.given_prompt() == system_prompt@,
            builder.given_config() == self.given_config(),
    {
        MultiTurnAgentBuilder {
            chat_completion: self.chat_completion,
            tools: self.tools,
            system_prompt: Some(system_prompt),
            config: self.config,
        }
    }

    pub fn config(self, config: MultiTurnAgentConfig) -> (builder: Self)
        ensures
            builder.has_provider() == self.has_provider(),
            builder.given_tools() == self.given_tools(),
            builder.given_prompt() == self.given_prompt(),
            builder.given_config() == config,
    {
        MultiTurnAgentBuilder {
            chat_completion: self.chat_completion,
            tools: self.tools,
            system_prompt: self.system_prompt,
            config: Some(config),
        }
    }

    /// Builds the agent; fails where no provider was given.
    pub fn build(self) -> (built: Result<MultiTurnAgent, BuildError>)
        ensures
            built is Ok <==> self.has_provider(),
            built matches Ok(agent) ==> {
                &&& agent.tools() == self.given_tools()
                &&& agent.system_prompt() == self.given_prompt()
                &&& agent.config() == self.given_config()
                &&& agent.history() == Seq::<ChatMessageView>::empty()
            },
    {
        match self.chat_completion {
            None => Err(BuildError::UninitializedChatCompletion),
            Some(chat_completion) => {
                let tools = match self.tools {
                    Some(tools) => tools,
                    None => Vec::new(),
                };
                let system_prompt = match self.system_prompt {
                    Some(text) => text,
                    None => String::from_str(DEFAULT_SYSTEM_PROMPT),
                };
                let config = match self.config {
                    Some(config) => config,
                    None => MultiTurnAgentConfig::default(),
                };
                Ok(MultiTurnAgent::new_with_config(chat_completion, tools, system_prompt, config))
            },
        }
    }
}

/// Invokes the tool that a turn is waiting for until the tool answers or has
/// had all its attempts, waiting before each retry. The turn that comes back
/// is the one that the machine reaches on the replies that the tool gave, and
/// it waits for no tool any more.
fn invoke_tool_with_retry<W: Fn(u64)>(
    tools: &Vec<Box<dyn Toolset>>,
    turn: Turn,
    pause: &W,
) -> (after: Turn)
    requires
        turn@.phase is AwaitingTool,
        turn@.valid(tools@.len() as int),
        forall|millis: u64| pause.requires((millis,)),
    ensures
        !(after@.phase is AwaitingTool),
        after@.valid(tools@.len() as int),
        after@.max_cycles == turn@.max_cycles,
        after@.phase is AwaitingProvider ==> after@.cycle == turn@.cycle + 1,
        exists|replies: Seq<TurnEvent>|
            1 <= replies.len() && #[trigger] turn@.run(claims(tools@), replies) == after@,
{
    let mut turn = turn;
    let no_definitions: Vec<ToolDefinition> = Vec::new();
    let ghost first = turn@;
    let ghost c = claims(tools@);
    let ghost mut replies: Seq<TurnEvent> = Seq::empty();
    while turn.awaits_tool()
        invariant
            c == claims(tools@),
            first.run(c, replies) == turn@,
            turn@.valid(tools@.len() as int),
            first.phase is AwaitingTool,
            turn@.phase is AwaitingTool ==> turn@.cycle == first.cycle,
            turn@.phase is AwaitingTool || replies.len() >= 1,
            turn@.max_cycles == first.max_cycles,
            turn@.phase is AwaitingProvider ==> turn@.cycle == first.cycle + 1,
            forall|millis: u64| pause.requires((millis,)),
        decreases
                if turn@.phase is AwaitingTool {
                    attempts_allowed(turn@.max_retries) - turn@.phase->failures
                } else {
                    0
                },
    {
        if let TurnStep::Invoke { tool, name, args, delay_ms } = turn.next(&no_definitions) {
            if delay_ms > 0 {
                pause(delay_ms);
            }
            let reply = tools[tool].invoke(name.as_str(), args.as_str());
            let ghost event = TurnEvent::ToolReplied(tool_reply_view(reply));
            let ghost before = turn@;
            turn = turn.on_tool_result(reply);
            proof {
                assert(replies.push(event).drop_last() =~= replies);
                replies = replies.push(event);
                assert(turn@ == before.step(c, event));
            }
        }
    }
    turn
}

/// Runs one turn. The conversation begins with the standing instructions and
/// the prompt; then the provider is asked and the tool that it asks for is
/// invoked, cycle after cycle, until the provider asks for no tool, a tool
/// stops the turn, a stage fails or the cycles are used up. `pause` is called
/// with the number of milliseconds to wait before a tool is tried again.
///
/// The conversation and the outcome that come back are those that the machine
/// of [`TurnState`] reaches on the replies that the provider and the tools
/// gave, whatever they were; so they are consistent in the sense of
/// [`consistent`].
pub fn run_turn<W: Fn(u64)>(
    provider: &Box<dyn ChatCompletion>,
    tools: &Vec<Box<dyn Toolset>>,
    max_cycles: usize,
    max_retries: usize,
    retry_delay_ms: u64,
    system_prompt: &str,
    prompt: &str,
    pause: &W,
) -> (end: (Vec<ChatMessage>, Result<String, OrchestrationError>))
    requires
        forall|millis: u64| pause.requires((millis,)),
    ensures
        exists|events: Seq<TurnEvent>|
            {
                let last = #[trigger] TurnState::start(
                    max_cycles as nat,
                    max_retries as nat,
                    retry_delay_ms as nat,
                    system_prompt@,
                    prompt@,
                ).run(claims(tools@), events);
                &&& last.outcome() == Some(outcome_view(end.1))
                &&& last.history == messages_view(end.0@)
                &&& consistent(
                    last,
                    claims(tools@),
                    max_cycles as nat,
                    max_retries as nat,
                    retry_delay_ms as nat,
                    system_prompt@,
                    prompt@,
                )
            },
{
    let definitions = collect_definitions(tools);
    let mut turn = Turn::begin(max_cycles, max_retries, retry_delay_ms, system_prompt, prompt);
    let ghost first = turn@;
    let ghost c = claims(tools@);
    let ghost mut events: Seq<TurnEvent> = Seq::empty();
    loop
        invariant
            c == claims(tools@),
            first == TurnState::start(
                max_cycles as nat,
                max_retries as nat,
                retry_delay_ms as nat,
                system_prompt@,
                prompt@,
            ),
            first.run(c, events) == turn@,
            turn@.valid(tools@.len() as int),
            forall|millis: u64| pause.requires((millis,)),
        decreases
                cycles_left(turn@),
                if turn@.phase is AwaitingProvider {
                    1nat
                } else {
                    0nat
                },
    {
        match turn.next(&definitions) {
            TurnStep::Send(request) => {
                let reply = provider.send(&request);
                let ghost event = TurnEvent::ProviderReplied(provider_reply_view(reply));
                let ghost before = turn@;
                turn = turn.on_response(tools, reply);
                proof {
                    assert(events.push(event).drop_last() =~= events);
                    events = events.push(event);
                    assert(turn@ == before.step(c, event));
                }
            },
            TurnStep::Invoke { .. } => {
                let ghost before = turn@;
                turn = invoke_tool_with_retry(tools, turn, pause);
                proof {
                    let replies = choose|replies: Seq<TurnEvent>|
                        1 <= replies.len() && #[trigger] before.run(c, replies) == turn@;
                    lemma_run_concat(first, c, events, replies);
                    events = events + replies;
                }
            },
            TurnStep::Done => {
                let (history, outcome) = turn.finish();
                let outcome = outcome.unwrap();
                proof {
                    assert(first.run(c, events).outcome() == Some(outcome_view(outcome)));
                    law_turn_is_consistent(
                        max_cycles as nat,
                        max_retries as nat,
                        retry_delay_ms as nat,
                        system_prompt@,
                        prompt@,
                        c,
                        events,
                    );
                }
                return (history, outcome);
            },
        }
    }
}

} // verus!
