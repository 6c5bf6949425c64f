//! The client of Gemini, as far as it computes.

use crate::chat_completion::{ChatCompletionRequest, ChatCompletionResponse};
use crate::providers::{
    bearer, bearer_value, choice_messages, choice_tool_calls, choose_model, headers_view,
    model_of, response_from_choices, Choice,
};
use vstd::prelude::*;

verus! {

/// Where Gemini answers requests in the shape of OpenAI's.
pub const GEMINI_API_URL: &'static str = "https://generativelanguage.googleapis.com/v1beta/openai";

/// Where the service is and the key that opens it.
#[derive(Debug)]
pub struct GeminiConfig {
    api_url: String,
    api_key: String,
}

impl Clone for GeminiConfig {
    fn clone(&self) -> (copy: Self)
        ensures
            copy == *self,
    {
        GeminiConfig { api_url: self.api_url.clone(), api_key: self.api_key.clone() }
    }
}

impl GeminiConfig {
    /// The address of the service.
    pub closed spec fn base(&self) -> Seq<char> {
        self.api_url@
    }

    /// The key.
    pub closed spec fn key(&self) -> Seq<char> {
        self.api_key@
    }

    pub fn new(api_url: &str, api_key: &str) -> (config: Self)
        ensures
            config.base() == api_url@,
            config.key() == api_key@,
    {
        GeminiConfig { api_url: String::from_str(api_url), api_key: String::from_str(api_key) }
    }

    /// The configuration for the service's own address.
    pub fn with_key(api_key: &str) -> (config: Self)
        ensures
            config.base() == GEMINI_API_URL@,
            config.key() == api_key@,
    {
        GeminiConfig::new(GEMINI_API_URL, api_key)
    }

    /// The headers of every request: the one that signs it.
    pub fn headers(&self) -> (headers: Vec<(String, String)>)
        requires
            self.key().len() > 0,
        ensures
            headers_view(headers@) == seq![("authorization"@, bearer(self.key()))],
    {
        let mut headers: Vec<(String, String)> = Vec::new();
        headers.push((String::from_str("authorization"), bearer_value(self.api_key.as_str())));
        assert(headers_view(headers@) =~= seq![("authorization"@, bearer(self.key()))]);
        headers
    }

    pub fn api_base(&self) -> (base: &str)
        ensures
            base@ == self.base(),
    {
        self.api_url.as_str()
    }

    pub fn api_key(&self) -> (key: &str)
        ensures
            key@ == self.key(),
    {
        self.api_key.as_str()
    }

    /// The query of every request: nothing.
    pub fn query(&self) -> (query: Vec<(String, String)>)
        ensures
            query@.len() == 0,
    {
        Vec::new()
    }

    /// The address of a path of the service.
    pub fn url(&self, path: &str) -> (url: String)
        ensures
            url@ == self.base() + path@,
    {
        self.api_url.clone().concat(path)
    }
}

/// What the client does where a request leaves it open.
#[derive(Debug)]
pub struct Options {
    /// The model that prompts go to.
    pub prompt_model: String,
}

impl Clone for Options {
    fn clone(&self) -> (copy: Self)
        ensures
            copy == *self,
    {
        Options { prompt_model: self.prompt_model.clone() }
    }
}

impl Default for Options {
    fn default() -> (options: Self)
        ensures
            options.prompt_model@ == "gemini-1.5-flash"@,
    {
        Options { prompt_model: String::from_str("gemini-1.5-flash") }
    }
}

/// The client of Gemini without its connection.
#[derive(Debug)]
pub struct Gemini {
    pub config: GeminiConfig,
    pub default_options: Options,
}

impl Gemini {
    pub fn new(api_url: &str, api_key: &str) -> (client: Self)
        ensures
            client.config.base() == api_url@,
            client.config.key() == api_key@,
            client.default_options.prompt_model@ == "gemini-1.5-flash"@,
    {
        Gemini { config: GeminiConfig::new(api_url, api_key), default_options: Options::default() }
    }

    pub fn new_with_options(api_url: &str, api_key: &str, options: Options) -> (client: Self)
        ensures
            client.config.base() == api_url@,
            client.config.key() == api_key@,
            client.default_options == options,
    {
        Gemini { config: GeminiConfig::new(api_url, api_key), default_options: options }
    }

    pub fn set_default_options(&mut self, options: Options)
        ensures
            final(self).default_options == options,
            final(self).config == old(self).config,
    {
        self.default_options = options;
    }

    /// The model that a request goes to.
    pub fn model_for(&self, request: &ChatCompletionRequest) -> (model: String)
        ensures
            model@ == model_of(request.model, self.default_options.prompt_model@),
    {
        choose_model(request, self.default_options.prompt_model.as_str())
    }

    /// What a turn gets from the choices of an answer.
    pub fn response_of(&self, choices: &Vec<Choice>) -> (response: ChatCompletionResponse)
        ensures
            response@.messages == choice_messages(choices@),
            response@.tool_calls == choice_tool_calls(choices@),
    {
        response_from_choices(choices)
    }
}

} // verus!
