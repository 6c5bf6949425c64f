//! The agent behind a mailbox: one conversation, one message at a time.
//!
//! The actor is idle, working or stopped. A prompt is run only when the actor
//! is idle; while it works, and after it was stopped, prompts are turned
//! away. `Stop` ends the actor from any state. [`BlueskyState::accept`] and
//! [`BlueskyState::complete`] are the two halves of that rule for a driver
//! that runs the turn itself; [`BlueskyActor::handle`] is the whole of it.

use crate::agent::run_turn;
use crate::chat_completion::{messages_view, ChatCompletion, ChatMessage, ChatMessageView};
use crate::config::BlueskyConfig;
use crate::errors::{outcome_view, OrchestrationError, OrchestrationErrorView};
use crate::laws::consistent;
use crate::tools::Toolset;
use crate::turn::{claims, TurnEvent, TurnState};
use vstd::prelude::*;

verus! {

/// The standing instructions of the Bluesky actor.
pub const DEFAULT_SYSTEM_PROMPT: &'static str = "
You are a **Bluesky Social Media Assistant**.

Your role is to help manage and interact with the Bluesky social network by:
- Composing and posting thoughtful content
- Engaging with other users' posts
- Managing your account and notifications
- Using all available tools to complete tasks

Guidelines:
- Be professional and thoughtful in all interactions
- Tasks may require multiple steps - plan carefully
- Always verify tool results before proceeding
- Use the stop tool when the task is complete
";

/// The limits of one prompt of the actor.
#[derive(Debug, Clone, Copy)]
pub struct BlueskyAgentConfig {
    /// Most provider round-trips in one prompt.
    pub max_cycles: usize,
    /// Most attempts at one tool invocation.
    pub max_retries: usize,
    /// How long to wait before a tool is tried again, in milliseconds.
    pub retry_delay_ms: u64,
}

impl Default for BlueskyAgentConfig {
    fn default() -> (config: Self)
        ensures
            config.max_cycles == 10,
            config.max_retries == 3,
            config.retry_delay_ms == 500,
    {
        BlueskyAgentConfig { max_cycles: 10, max_retries: 3, retry_delay_ms: 500 }
    }
}

/// What can be sent to the actor.
#[derive(Debug)]
pub enum BlueskyMessage {
    /// Run a turn on this prompt.
    Prompt(String),
    /// Shut down.
    Stop,
}

impl Clone for BlueskyMessage {
    fn clone(&self) -> (copy: Self)
        ensures
            copy == *self,
    {
        match self {
            BlueskyMessage::Prompt(text) => BlueskyMessage::Prompt(text.clone()),
            BlueskyMessage::Stop => BlueskyMessage::Stop,
        }
    }
}

/// Where the actor stands.
#[derive(Debug, Clone, Copy, PartialEq, Eq, Structural)]
pub enum Status {
    /// Ready for a prompt.
    Idle,
    /// A turn is running.
    Working,
    /// Shut down; nothing is taken any more.
    Stopped,
}

/// What the actor does with a message.
#[derive(Debug)]
pub enum Directive {
    /// Run a turn on the prompt, then call [`BlueskyState::complete`].
    Run(String),
    /// Drop the prompt: a turn is running.
    RejectBusy,
    /// Drop the prompt: the actor was stopped.
    RejectStopped,
    /// Shut down.
    ShutDown,
}

/// A [`Directive`] by what it holds.
pub enum DirectiveView {
    Run(Seq<char>),
    RejectBusy,
    RejectStopped,
    ShutDown,
}

impl View for Directive {
    type V = DirectiveView;

    open spec fn view(&self) -> DirectiveView {
        match self {
            Directive::Run(prompt) => DirectiveView::Run(prompt@),
            Directive::RejectBusy => DirectiveView::RejectBusy,
            Directive::RejectStopped => DirectiveView::RejectStopped,
            Directive::ShutDown => DirectiveView::ShutDown,
        }
    }
}

/// The status of the actor once it has taken a message: `Stop` stops it from
/// any status; a prompt sets an idle actor to work and changes no other.
pub open spec fn status_after(status: Status, message: BlueskyMessage) -> Status {
    match message {
        BlueskyMessage::Stop => Status::Stopped,
        BlueskyMessage::Prompt(_) => match status {
            Status::Idle => Status::Working,
            Status::Working => Status::Working,
            Status::Stopped => Status::Stopped,
        },
    }
}

/// What the actor does with a message, given its status.
pub open spec fn directive_for(status: Status, message: BlueskyMessage) -> DirectiveView {
    match message {
        BlueskyMessage::Stop => DirectiveView::ShutDown,
        BlueskyMessage::Prompt(prompt) => match status {
            Status::Idle => DirectiveView::Run(prompt@),
            Status::Working => DirectiveView::RejectBusy,
            Status::Stopped => DirectiveView::RejectStopped,
        },
    }
}

/// The status of the actor once the turn it was working on is over.
pub open spec fn status_completed(status: Status) -> Status {
    match status {
        Status::Working => Status::Idle,
        Status::Idle => Status::Idle,
        Status::Stopped => Status::Stopped,
    }
}

/// The status of the actor once a message has been handled to its end.
pub open spec fn status_handled(status: Status, message: BlueskyMessage) -> Status {
    match directive_for(status, message) {
        DirectiveView::Run(_) => status_completed(status_after(status, message)),
        _ => status_after(status, message),
    }
}

/// A prompt is run only by an idle actor, and every message leaves a stopped
/// actor stopped.
pub proof fn law_actor_discipline(status: Status, message: BlueskyMessage)
    ensures
        directive_for(status, message) is Run <==> status == Status::Idle && message is Prompt,
        status_after(Status::Stopped, message) == Status::Stopped,
        status_handled(Status::Stopped, message) == Status::Stopped,
        message is Stop ==> status_handled(status, message) == Status::Stopped,
        message is Prompt && status != Status::Stopped ==> status_handled(status, message)
            == status,
{
}

/// What the actor keeps between messages.
#[derive(Debug)]
pub struct BlueskyState {
    status: Status,
    chat_history: Vec<ChatMessage>,
}

impl BlueskyState {
    /// Where the actor stands.
    pub closed spec fn status(&self) -> Status {
        self.status
    }

    /// The conversation.
    pub closed spec fn history(&self) -> Seq<ChatMessageView> {
        messages_view(self.chat_history@)
    }

    /// The state in which an actor starts: idle, with an empty conversation.
    pub fn new() -> (state: Self)
        ensures
            state.status() == Status::Idle,
            state.history() == Seq::<ChatMessageView>::empty(),
    {
        let state = BlueskyState { status: Status::Idle, chat_history: Vec::new() };
        assert(messages_view(state.chat_history@) =~= Seq::<ChatMessageView>::empty());
        state
    }

    /// Where the actor stands.
    pub fn current_status(&self) -> (status: Status)
        ensures
            status == self.status(),
    {
        self.status
    }

    /// The conversation as it stands.
    pub fn chat_history(&self) -> (history: &Vec<ChatMessage>)
        ensures
            messages_view(history@) == self.history(),
    {
        &self.chat_history
    }

    /// Takes a message: says what is to be done with it and moves to the
    /// status that follows. The conversation stays as it is.
    pub fn accept(&mut self, message: BlueskyMessage) -> (directive: Directive)
        ensures
            directive@ == directive_for(old(self).status(), message),
            final(self).status() == status_after(old(self).status(), message),
            final(self).history() == old(self).history(),
    {
        match message {
            BlueskyMessage::Stop => {
                self.status = Status::Stopped;
                Directive::ShutDown
            },
            BlueskyMessage::Prompt(prompt) => match self.status {
                Status::Idle => {
                    self.status = Status::Working;
                    Directive::Run(prompt)
                },
                Status::Working => Directive::RejectBusy,
                Status::Stopped => Directive::RejectStopped,
            },
        }
    }

    /// Ends the turn that the actor was working on, however it went: the
    /// actor is idle again and its conversation is empty. An actor that was
    /// not working stays as it is.
    pub fn complete(&mut self)
        ensures
            final(self).status() == status_completed(old(self).status()),
            final(self).history() == if old(self).status() == Status::Working {
                Seq::<ChatMessageView>::empty()
            } else {
                old(self).history()
            },
    {
        match self.status {
            Status::Working => {
                self.status = Status::Idle;
                self.chat_history.clear();
                assert(messages_view(self.chat_history@) =~= Seq::<ChatMessageView>::empty());
            },
            _ => {},
        }
    }
}

/// What became of a message.
#[derive(Debug)]
pub enum Notice {
    /// The prompt was run; the payload is how the turn ended.
    Completed(Result<String, OrchestrationError>),
    /// The prompt was dropped: a turn is running.
    Busy,
    /// The prompt was dropped: the actor was stopped.
    Stopped,
    /// The actor shut down.
    ShutDown,
}

/// A [`Notice`] by what it holds.
pub enum NoticeView {
    Completed(Result<Seq<char>, OrchestrationErrorView>),
    Busy,
    Stopped,
    ShutDown,
}

impl View for Notice {
    type V = NoticeView;

    open spec fn view(&self) -> NoticeView {
        match self {
            Notice::Completed(outcome) => NoticeView::Completed(outcome_view(*outcome)),
            Notice::Busy => NoticeView::Busy,
            Notice::Stopped => NoticeView::Stopped,
            Notice::ShutDown => NoticeView::ShutDown,
        }
    }
}

/// The actor: a provider, capabilities and limits. Its conversation is kept
/// in a [`BlueskyState`] that is handed to it with each message.
pub struct BlueskyActor {
    config: BlueskyConfig,
    chat_completion: Box<dyn ChatCompletion>,
    tools: Vec<Box<dyn Toolset>>,
    agent_config: BlueskyAgentConfig,
}

impl BlueskyActor {
    /// The capabilities, in list order.
    pub closed spec fn tools(&self) -> Seq<Box<dyn Toolset>> {
        self.tools@
    }

    /// The limits.
    pub closed spec fn agent_config(&self) -> BlueskyAgentConfig {
        self.agent_config
    }

    /// The account that the actor works for.
    pub closed spec fn config(&self) -> BlueskyConfig {
        self.config
    }

    /// The state in which this actor begins a turn on `prompt`.
    pub open spec fn start(&self, prompt: Seq<char>) -> TurnState {
        TurnState::start(
            self.agent_config().max_cycles as nat,
            self.agent_config().max_retries as nat,
            self.agent_config().retry_delay_ms as nat,
            DEFAULT_SYSTEM_PROMPT@,
            prompt,
        )
    }

    /// An actor with the default limits.
    pub fn new(
        config: BlueskyConfig,
        chat_completion: Box<dyn ChatCompletion>,
        tools: Vec<Box<dyn Toolset>>,
    ) -> (actor: Self)
        ensures
            actor.config() == config,
            actor.tools() == tools@,
            actor.agent_config().max_cycles == 10,
            actor.agent_config().max_retries == 3,
            actor.agent_config().retry_delay_ms == 500,
    {
        BlueskyActor { config, chat_completion, tools, agent_config: BlueskyAgentConfig::default() }
    }

    /// The account that the actor works for: the one it was made with.
    pub fn account(&self) -> (account: &BlueskyConfig)
        ensures
            *account == self.config(),
    {
        &self.config
    }

    /// Adds a capability behind those that the actor has.
    pub fn add_tool(&mut self, tool: Box<dyn Toolset>)
        ensures
            final(self).tools() == old(self).tools().push(tool),
            final(self).agent_config() == old(self).agent_config(),
            final(self).config() == old(self).config(),
    {
        self.tools.push(tool);
    }

    /// Adds capabilities behind those that the actor has, in their order.
    pub fn add_tools(&mut self, tools: Vec<Box<dyn Toolset>>)
        ensures
            final(self).tools() == old(self).tools() + tools@,
            final(self).agent_config() == old(self).agent_config(),
            final(self).config() == old(self).config(),
    {
        let mut tools = tools;
        self.tools.append(&mut tools);
    }

    /// Runs one turn on `prompt` against the given conversation; see
    /// [`run_turn`]. The conversation is afterwards that of the turn.
    pub fn process_prompt<W: Fn(u64)>(
        &self,
        prompt: &str,
        chat_history: &mut Vec<ChatMessage>,
        pause: &W,
    ) -> (outcome: Result<String, OrchestrationError>)
        requires
            forall|millis: u64| pause.requires((millis,)),
        ensures
            exists|events: Seq<TurnEvent>|
                {
                    let last = #[trigger] self.start(prompt@).run(claims(self.tools()), events);
                    &&& last.outcome() == Some(outcome_view(outcome))
                    &&& last.history == messages_view(final(chat_history)@)
                    &&& consistent(
                        last,
                        claims(self.tools()),
                        self.agent_config().max_cycles as nat,
                        self.agent_config().max_retries as nat,
                        self.agent_config().retry_delay_ms as nat,
                        DEFAULT_SYSTEM_PROMPT@,
                        prompt@,
                    )
                },
    {
        let (history, outcome) = run_turn(
            &self.chat_completion,
            &self.tools,
            self.agent_config.max_cycles,
            self.agent_config.max_retries,
            self.agent_config.retry_delay_ms,
            DEFAULT_SYSTEM_PROMPT,
            prompt,
            pause,
        );
        proof {
            let first = self.start(prompt@);
            let events = choose|events: Seq<TurnEvent>|
                {
                    let last = #[trigger] first.run(claims(self.tools@), events);
                    &&& last.outcome() == Some(outcome_view(outcome))
                    &&& last.history == messages_view(history@)
                    &&& consistent(
                        last,
                        claims(self.tools@),
                        self.agent_config.max_cycles as nat,
                        self.agent_config.max_retries as nat,
                        self.agent_config.retry_delay_ms as nat,
                        DEFAULT_SYSTEM_PROMPT@,
                        prompt@,
                    )
                };
            assert(first.run(claims(self.tools()), events).history == messages_view(history@));
        }
        *chat_history = history;
        outcome
    }

    /// Handles one message to its end. A prompt is run only where the actor
    /// is idle: the actor works, the turn runs, and whatever its outcome the
    /// actor is idle again with an empty conversation. Any other prompt is
    /// dropped and changes nothing. `Stop` stops the actor.
    pub fn handle<W: Fn(u64)>(
        &self,
        message: BlueskyMessage,
        state: &mut BlueskyState,
        pause: &W,
    ) -> (notice: Notice)
        requires
            forall|millis: u64| pause.requires((millis,)),
        ensures
            final(state).status() == status_handled(old(state).status(), message),
            match directive_for(old(state).status(), message) {
                DirectiveView::Run(prompt) => {
                    &&& final(state).history() == Seq::<ChatMessageView>::empty()
                    &&& notice@ is Completed
                    &&& exists|events: Seq<TurnEvent>|
                        (#[trigger] self.start(prompt).run(claims(self.tools()), events)).outcome()
                            == Some(notice@->Completed_0)
                },
                DirectiveView::RejectBusy => {
                    &&& final(state).history() == old(state).history()
                    &&& notice@ == NoticeView::Busy
                },
                DirectiveView::RejectStopped => {
                    &&& final(state).history() == old(state).history()
                    &&& notice@ == NoticeView::Stopped
                },
                DirectiveView::ShutDown => {
                    &&& final(state).history() == old(state).history()
                    &&& notice@ == NoticeView::ShutDown
                },
            },
    {
        match state.accept(message) {
            Directive::Run(prompt) => {
                let outcome = self.process_prompt(
                    prompt.as_str(),
                    &mut state.chat_history,
                    pause,
                );
                state.complete();
                Notice::Completed(outcome)
            },
            Directive::RejectBusy => Notice::Busy,
            Directive::RejectStopped => Notice::Stopped,
            Directive::ShutDown => Notice::ShutDown,
        }
    }
}

} // verus!
