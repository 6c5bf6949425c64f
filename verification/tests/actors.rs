use meerai::actor::{
    BlueskyActor, BlueskyAgentConfig, BlueskyMessage, BlueskyState, Directive, Notice, Status,
    DEFAULT_SYSTEM_PROMPT,
};
use meerai::chat_completion::{
    ChatCompletion, ChatCompletionError, ChatCompletionRequest, ChatCompletionResponse,
    ChatMessage,
};
use meerai::config::BlueskyConfig;
use meerai::errors::OrchestrationError;
use meerai::stop::StopToolset;
use meerai::tools::ToolCall;
use std::sync::{Arc, Mutex};

struct Provider {
    seen: Arc<Mutex<Vec<Vec<String>>>>,
    calls: Vec<&'static str>,
}

impl ChatCompletion for Provider {
    fn send(
        &self,
        request: &ChatCompletionRequest,
    ) -> Result<ChatCompletionResponse, ChatCompletionError> {
        self.seen.lock().unwrap().push(request.messages.iter().map(|m| m.display()).collect());
        Ok(ChatCompletionResponse {
            messages: vec![ChatMessage::Assistant("ok".to_string())],
            tool_calls: self
                .calls
                .iter()
                .map(|name| ToolCall { name: name.to_string(), args: "{}".to_string() })
                .collect(),
        })
    }
}

fn actor(seen: &Arc<Mutex<Vec<Vec<String>>>>, calls: Vec<&'static str>) -> BlueskyActor {
    BlueskyActor::new(
        BlueskyConfig { identifier: "me.bsky.social".to_string(), password: "secret".to_string() },
        Box::new(Provider { seen: seen.clone(), calls }),
        Vec::new(),
    )
}

#[test]
fn actor_starts_idle_with_an_empty_conversation() {
    let state = BlueskyState::new();
    assert_eq!(state.current_status(), Status::Idle);
    assert_eq!(state.chat_history().len(), 0);
    let config = BlueskyAgentConfig::default();
    assert_eq!((config.max_cycles, config.max_retries, config.retry_delay_ms), (10, 3, 500));
}

#[test]
fn idle_actor_takes_a_prompt_and_works() {
    let mut state = BlueskyState::new();
    match state.accept(BlueskyMessage::Prompt("post something".to_string())) {
        Directive::Run(prompt) => assert_eq!(prompt, "post something"),
        other => panic!("unexpected directive: {:?}", other),
    }
    assert_eq!(state.current_status(), Status::Working);
    // While it works, further prompts are dropped and change nothing.
    assert!(matches!(
        state.accept(BlueskyMessage::Prompt("another".to_string())),
        Directive::RejectBusy
    ));
    assert_eq!(state.current_status(), Status::Working);
    state.complete();
    assert_eq!(state.current_status(), Status::Idle);
    assert!(matches!(state.accept(BlueskyMessage::Prompt("next".to_string())), Directive::Run(_)));
}

#[test]
fn stop_ends_the_actor_from_any_status() {
    let mut idle = BlueskyState::new();
    assert!(matches!(idle.accept(BlueskyMessage::Stop), Directive::ShutDown));
    assert_eq!(idle.current_status(), Status::Stopped);

    let mut working = BlueskyState::new();
    working.accept(BlueskyMessage::Prompt("p".to_string()));
    assert!(matches!(working.accept(BlueskyMessage::Stop), Directive::ShutDown));
    assert_eq!(working.current_status(), Status::Stopped);
    // A turn that ends after the actor was stopped does not wake it up.
    working.complete();
    assert_eq!(working.current_status(), Status::Stopped);

    assert!(matches!(idle.accept(BlueskyMessage::Stop), Directive::ShutDown));
    assert_eq!(idle.current_status(), Status::Stopped);
    assert!(matches!(
        idle.accept(BlueskyMessage::Prompt("late".to_string())),
        Directive::RejectStopped
    ));
    assert_eq!(idle.current_status(), Status::Stopped);
}

#[test]
fn completing_without_work_changes_nothing() {
    let mut state = BlueskyState::new();
    state.complete();
    assert_eq!(state.current_status(), Status::Idle);
}

#[test]
fn handled_prompt_leaves_the_actor_idle_and_its_conversation_empty() {
    let seen = Arc::new(Mutex::new(Vec::new()));
    let actor = actor(&seen, Vec::new());
    assert_eq!(actor.account().identifier, "me.bsky.social");
    let mut state = BlueskyState::new();
    match actor.handle(BlueskyMessage::Prompt("say hi".to_string()), &mut state, &|_| {}) {
        Notice::Completed(Ok(summary)) => assert_eq!(summary, "Chat Completion: Assistant(\"ok\")"),
        other => panic!("unexpected notice: {:?}", other),
    }
    assert_eq!(state.current_status(), Status::Idle);
    assert_eq!(state.chat_history().len(), 0);
    assert_eq!(seen.lock().unwrap().len(), 1);
    assert_eq!(seen.lock().unwrap()[0].len(), 2);
    assert_eq!(seen.lock().unwrap()[0][0], ChatMessage::System(DEFAULT_SYSTEM_PROMPT.to_string()).display());
    assert_eq!(seen.lock().unwrap()[0][1], "User(\"say hi\")");
}

#[test]
fn failed_prompt_leaves_the_actor_idle_too() {
    let seen = Arc::new(Mutex::new(Vec::new()));
    let actor = actor(&seen, vec!["missing-tool"]);
    let mut state = BlueskyState::new();
    match actor.handle(BlueskyMessage::Prompt("go".to_string()), &mut state, &|_| {}) {
        Notice::Completed(Err(OrchestrationError::ToolNotFound(name))) => {
            assert_eq!(name, "missing-tool")
        }
        other => panic!("unexpected notice: {:?}", other),
    }
    assert_eq!(state.current_status(), Status::Idle);
    assert_eq!(state.chat_history().len(), 0);
    // The actor takes the next prompt.
    assert!(matches!(
        actor.handle(BlueskyMessage::Prompt("again".to_string()), &mut state, &|_| {}),
        Notice::Completed(Err(_))
    ));
    assert_eq!(seen.lock().unwrap().len(), 2);
}

#[test]
fn stopped_actor_runs_no_prompt() {
    let seen = Arc::new(Mutex::new(Vec::new()));
    let mut actor = actor(&seen, vec!["stop-stop"]);
    actor.add_tool(Box::new(StopToolset::toolset()));
    actor.add_tools(Vec::new());
    let mut state = BlueskyState::new();
    assert!(matches!(
        actor.handle(BlueskyMessage::Prompt("go".to_string()), &mut state, &|_| {}),
        Notice::Completed(Ok(_))
    ));
    assert!(matches!(actor.handle(BlueskyMessage::Stop, &mut state, &|_| {}), Notice::ShutDown));
    assert_eq!(state.current_status(), Status::Stopped);
    assert!(matches!(
        actor.handle(BlueskyMessage::Prompt("late".to_string()), &mut state, &|_| {}),
        Notice::Stopped
    ));
    assert_eq!(seen.lock().unwrap().len(), 1);
    assert_eq!(state.current_status(), Status::Stopped);
}

#[test]
fn process_prompt_leaves_the_conversation_of_the_turn() {
    let seen = Arc::new(Mutex::new(Vec::new()));
    let actor = actor(&seen, Vec::new());
    let mut history = vec![ChatMessage::User("stale".to_string())];
    let outcome = actor.process_prompt("fresh", &mut history, &|_| {});
    assert_eq!(outcome.unwrap(), "Chat Completion: Assistant(\"ok\")");
    assert_eq!(history.len(), 3);
    assert_eq!(history[1].display(), "User(\"fresh\")");
    let message = BlueskyMessage::Prompt("p".to_string());
    assert!(matches!(message.clone(), BlueskyMessage::Prompt(text) if text == "p"));
    assert!(matches!(BlueskyMessage::Stop.clone(), BlueskyMessage::Stop));
}
