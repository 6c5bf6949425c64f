use meerai::chat_completion::{ChatCompletionRequest, ChatMessage};
use meerai::json_schema::JsonSchema;
use meerai::providers::gemini::{Gemini, GeminiConfig, Options as GeminiOptions, GEMINI_API_URL};
use meerai::providers::openrouter::{
    OpenRouter, OpenRouterConfig, Options as OpenRouterOptions, OPENROUTER_API_URL,
};
use meerai::providers::{
    bearer_value, choose_model, clone_tool_calls, message_of_choice, response_from_choices,
    Choice, Role,
};
use meerai::social::{
    bluesky_declaration, extract_tweet_id, tweet_not_posted, tweet_not_read, tweet_posted,
    tweet_read, x_declaration, PostTweetArgs, ReadTweetArgs,
};
use meerai::tools::{ToolCall, ToolError, ToolOutput, Toolset};
use meerai::toolset::{DeclaredToolset, Invoke};

fn json(text: &str) -> serde_json::Value {
    serde_json::from_str(text).unwrap()
}

fn request(model: Option<&str>) -> ChatCompletionRequest {
    ChatCompletionRequest {
        model: model.map(|m| m.to_string()),
        messages: vec![ChatMessage::User("hi".to_string())],
        tool_definitions: Vec::new(),
    }
}

fn choice(role: Role, content: Option<&str>, calls: Option<Vec<(&str, &str)>>) -> Choice {
    Choice {
        role,
        content: content.map(|c| c.to_string()),
        tool_calls: calls.map(|calls| {
            calls
                .iter()
                .map(|(name, args)| ToolCall { name: name.to_string(), args: args.to_string() })
                .collect()
        }),
    }
}

fn pairs(headers: Vec<(String, String)>) -> Vec<(String, String)> {
    headers
}

#[test]
fn request_names_the_model_or_the_client_does() {
    assert_eq!(choose_model(&request(Some("special")), "usual"), "special");
    assert_eq!(choose_model(&request(None), "usual"), "usual");
    let gemini = Gemini::new("https://g", "k");
    assert_eq!(gemini.model_for(&request(None)), "gemini-1.5-flash");
    assert_eq!(gemini.model_for(&request(Some("other"))), "other");
    let router = OpenRouter::with_key("k");
    assert_eq!(router.model_for(&request(None)), "meta-llama/llama-4-maverick");
    assert_eq!(GeminiOptions::default().prompt_model, "gemini-1.5-flash");
    assert_eq!(OpenRouterOptions::default().clone().prompt_model, "meta-llama/llama-4-maverick");
}

#[test]
fn choices_become_messages_by_their_speaker() {
    assert_eq!(
        message_of_choice(&choice(Role::Assistant, Some("a"), None)).unwrap().display(),
        "Assistant(\"a\")"
    );
    assert_eq!(
        message_of_choice(&choice(Role::System, Some("s"), None)).unwrap().display(),
        "System(\"s\")"
    );
    assert_eq!(
        message_of_choice(&choice(Role::User, Some("u"), None)).unwrap().display(),
        "User(\"u\")"
    );
    assert!(message_of_choice(&choice(Role::Tool, Some("t"), None)).is_none());
    assert!(message_of_choice(&choice(Role::Function, Some("f"), None)).is_none());
    assert!(message_of_choice(&choice(Role::Assistant, None, None)).is_none());
}

#[test]
fn answer_takes_all_messages_and_the_tool_calls_of_the_first_choice() {
    let response = response_from_choices(&vec![
        choice(Role::Assistant, None, Some(vec![("x-y", "{}"), ("x-z", "[]")])),
        choice(Role::Tool, Some("dropped"), None),
        choice(Role::User, Some("kept"), Some(vec![("never", "")])),
        choice(Role::Assistant, Some("last"), None),
    ]);
    let messages: Vec<String> = response.messages.iter().map(|m| m.display()).collect();
    assert_eq!(messages, vec!["User(\"kept\")", "Assistant(\"last\")"]);
    assert_eq!(response.tool_calls.len(), 2);
    assert_eq!(response.tool_calls[0].name, "x-y");
    assert_eq!(response.tool_calls[1].name, "x-z");
    assert_eq!(response.tool_calls[1].args, "[]");

    let none = response_from_choices(&vec![
        choice(Role::Assistant, Some("only"), None),
        choice(Role::Assistant, None, Some(vec![("late", "")])),
    ]);
    assert_eq!(none.messages.len(), 1);
    assert!(none.tool_calls.is_empty());
    let empty = response_from_choices(&Vec::new());
    assert!(empty.messages.is_empty());
    assert!(empty.tool_calls.is_empty());
    let same = Gemini::new("u", "k").response_of(&vec![choice(Role::System, Some("s"), None)]);
    assert_eq!(same.messages[0].display(), "System(\"s\")");
    assert_eq!(clone_tool_calls(&Vec::new()).len(), 0);
}

#[test]
fn gemini_configuration() {
    let config = GeminiConfig::with_key("secret");
    assert_eq!(config.api_base(), GEMINI_API_URL);
    assert_eq!(config.api_base(), "https://generativelanguage.googleapis.com/v1beta/openai");
    assert_eq!(config.api_key(), "secret");
    assert!(config.query().is_empty());
    assert_eq!(
        config.url("/chat/completions"),
        "https://generativelanguage.googleapis.com/v1beta/openai/chat/completions"
    );
    assert_eq!(
        pairs(config.clone().headers()),
        vec![("authorization".to_string(), "Bearer secret".to_string())]
    );
    assert_eq!(bearer_value("k"), "Bearer k");
    let mut client = Gemini::new_with_options(
        "https://elsewhere",
        "k2",
        GeminiOptions { prompt_model: "gemini-pro".to_string() },
    );
    assert_eq!(client.config.url("/x"), "https://elsewhere/x");
    assert_eq!(client.default_options.prompt_model, "gemini-pro");
    client.set_default_options(GeminiOptions::default());
    assert_eq!(client.default_options.prompt_model, "gemini-1.5-flash");
    assert_eq!(client.config.api_key(), "k2");
}

#[test]
fn openrouter_configuration() {
    let plain = OpenRouterConfig::with_key("secret");
    assert_eq!(plain.api_base(), OPENROUTER_API_URL);
    assert_eq!(plain.api_base(), "https://openrouter.ai/api/v1");
    assert_eq!(plain.url("/models"), "https://openrouter.ai/api/v1/models");
    assert!(plain.query().is_empty());
    assert_eq!(
        pairs(plain.headers()),
        vec![("authorization".to_string(), "Bearer secret".to_string())]
    );
    let full = OpenRouterConfig::new(
        "https://r",
        "k",
        Some("https://site".to_string()),
        Some("Site".to_string()),
    );
    assert_eq!(
        pairs(full.clone().headers()),
        vec![
            ("authorization".to_string(), "Bearer k".to_string()),
            ("HTTP-Referer".to_string(), "https://site".to_string()),
            ("X-Title".to_string(), "Site".to_string()),
        ]
    );
    let named = OpenRouterConfig::new("https://r", "k", None, Some("Site".to_string()));
    assert_eq!(
        pairs(named.headers()),
        vec![
            ("authorization".to_string(), "Bearer k".to_string()),
            ("X-Title".to_string(), "Site".to_string()),
        ]
    );
    assert_eq!(full.api_key(), "k");
}

#[test]
fn identifier_of_a_tweet_is_the_last_segment_of_its_address() {
    assert_eq!(
        extract_tweet_id("https://x.com/AltcoinDailyio/status/1906810513562239021").unwrap(),
        "1906810513562239021"
    );
    assert_eq!(extract_tweet_id("1906810513562239021").unwrap(), "1906810513562239021");
    assert_eq!(extract_tweet_id("https://x.com/user/status/").unwrap(), "");
    assert_eq!(extract_tweet_id("").unwrap(), "");
    assert_eq!(extract_tweet_id("/").unwrap(), "");
    assert_eq!(extract_tweet_id("a/b?c=d#é").unwrap(), "b?c=d#é");
}

#[test]
fn answers_of_the_networks_become_answers_of_the_tools() {
    assert_eq!(tweet_read(Some("hello".to_string())), ToolOutput::Text("hello".to_string()));
    assert_eq!(tweet_read(None), ToolOutput::Text(String::new()));
    assert_eq!(
        tweet_posted("at://did:plc:1/app.bsky.feed.post/2"),
        ToolOutput::Text("Tweet posted successfully: at://did:plc:1/app.bsky.feed.post/2".to_string())
    );
    assert_eq!(tweet_not_read("404").to_string(), "Failed to read tweet: 404");
    assert_eq!(tweet_not_posted("401").to_string(), "Failed to post tweet: 401");
    assert!(matches!(tweet_not_posted("401"), ToolError::Unknown(_)));
}

#[test]
fn arguments_of_the_social_tools() {
    assert_eq!(PostTweetArgs::from_json(&json("{\"text\":\"post me\"}")).unwrap().text, "post me");
    assert_eq!(PostTweetArgs { text: "t".to_string() }.clone().text, "t");
    match PostTweetArgs::from_json(&json("{\"texts\":\"post me\"}")) {
        Err(ToolError::WrongArguments(report)) => assert_eq!(report, "missing field `text`"),
        other => panic!("unexpected result: {:?}", other),
    }
    assert_eq!(
        ReadTweetArgs::from_json(&json("{\"url\":\"https://x.com/a/status/1\"}")).unwrap().url,
        "https://x.com/a/status/1"
    );
    match ReadTweetArgs::from_json(&json("null")) {
        Err(ToolError::WrongArguments(report)) => assert_eq!(report, "missing field `url`"),
        other => panic!("unexpected result: {:?}", other),
    }
    assert_eq!(
        PostTweetArgs::json_schema(),
        json("{\"type\":\"object\",\"properties\":{\"text\":{\"type\":\"string\"}}}")
    );
}

struct Echo;

impl Invoke for Echo {
    fn call(&self, fn_name: &str, args: &serde_json::Value) -> Result<ToolOutput, ToolError> {
        Ok(ToolOutput::Text(format!("{} {}", fn_name, args)))
    }
}

#[test]
fn social_capabilities_as_declared() {
    let bluesky = DeclaredToolset::new(&bluesky_declaration(), Box::new(Echo));
    assert_eq!(bluesky.name(), "bsky_toolset");
    let definitions = bluesky.definition();
    assert_eq!(definitions.len(), 1);
    assert_eq!(definitions[0].name, "bsky_toolset-post_tweet");
    assert_eq!(definitions[0].description, "Post a tweet to Bluesky (bsky.app) given the content.");
    assert_eq!(definitions[0].parameters, PostTweetArgs::json_schema());
    assert_eq!(
        bluesky.invoke("bsky_toolset-post_tweet", "{\"text\":\"t\"}").unwrap(),
        ToolOutput::Text("bsky_toolset-post_tweet {\"text\":\"t\"}".to_string())
    );

    let x = DeclaredToolset::new(&x_declaration(), Box::new(Echo));
    assert_eq!(x.name(), "x_tool");
    let definitions = x.definition();
    assert_eq!(definitions[0].name, "x_tool-read_tweet");
    assert_eq!(
        definitions[0].description,
        "Read a tweet from X (x.com / twitter.com) given the URL."
    );
    assert_eq!(
        definitions[0].parameters,
        json(
            "{\"type\":\"object\",\"properties\":{\"url\":\
             {\"type\":\"string\",\"description\":\"The URL of the tweet to read\"}}}"
        )
    );
    assert!(x.contain("x_tool-read_tweet"));
    assert!(!x.contain("x_tool-post_tweet"));
}
