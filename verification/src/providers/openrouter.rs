//! The client of OpenRouter, as far as it computes.

use crate::chat_completion::{ChatCompletionRequest, ChatCompletionResponse};
use crate::providers::{
    bearer, bearer_value, choice_messages, choice_tool_calls, choose_model, headers_view,
    model_of, response_from_choices, Choice,
};
use vstd::prelude::*;

verus! {

/// Where OpenRouter answers.
pub const OPENROUTER_API_URL: &'static str = "https://openrouter.ai/api/v1";

/// Where the service is, the key that opens it, and how the program names
/// itself to the service.
#[derive(Debug)]
pub struct OpenRouterConfig {
    api_url: String,
    api_key: String,
    site_url: Option<String>,
    site_name: Option<String>,
}

/// The text of an optional setting.
pub open spec fn setting_view(setting: Option<String>) -> Option<Seq<char>> {
    match setting {
        Some(text) => Some(text@),
        None => None,
    }
}

/// The headers of a request to OpenRouter: the one that signs it, then the
/// address of the site and the name of the site, each where it is set.
pub open spec fn openrouter_headers(
    api_key: Seq<char>,
    site_url: Option<Seq<char>>,
    site_name: Option<Seq<char>>,
) -> Seq<(Seq<char>, Seq<char>)> {
    let signed = seq![("authorization"@, bearer(api_key))];
    let referred = match site_url {
        Some(url) => signed.push(("HTTP-Referer"@, url)),
        None => signed,
    };
    match site_name {
        Some(name) => referred.push(("X-Title"@, name)),
        None => referred,
    }
}

impl Clone for OpenRouterConfig {
    fn clone(&self) -> (copy: Self)
        ensures
            copy.base() == self.base(),
            copy.key() == self.key(),
            copy.site_url() == self.site_url(),
            copy.site_name() == self.site_name(),
    {
        OpenRouterConfig {
            api_url: self.api_url.clone(),
            api_key: self.api_key.clone(),
            site_url: match &self.site_url {
                Some(url) => Some(url.clone()),
                None => None,
            },
            site_name: match &self.site_name {
                Some(name) => Some(name.clone()),
                None => None,
            },
        }
    }
}

impl OpenRouterConfig {
    /// The address of the service.
    pub closed spec fn base(&self) -> Seq<char> {
        self.api_url@
    }

    /// The key.
    pub closed spec fn key(&self) -> Seq<char> {
        self.api_key@
    }

    /// The address of the site that asks.
    pub closed spec fn site_url(&self) -> Option<Seq<char>> {
        setting_view(self.site_url)
    }

    /// The name of the site that asks.
    pub closed spec fn site_name(&self) -> Option<Seq<char>> {
        setting_view(self.site_name)
    }

    pub fn new(
        api_url: &str,
        api_key: &str,
        site_url: Option<String>,
        site_name: Option<String>,
    ) -> (config: Self)
        ensures
            config.base() == api_url@,
            config.key() == api_key@,
            config.site_url() == setting_view(site_url),
            config.site_name() == setting_view(site_name),
    {
        OpenRouterConfig {
            api_url: String::from_str(api_url),
            api_key: String::from_str(api_key),
            site_url,
            site_name,
        }
    }

    /// The configuration for the service's own address, without a site.
    pub fn with_key(api_key: &str) -> (config: Self)
        ensures
            config.base() == OPENROUTER_API_URL@,
            config.key() == api_key@,
            config.site_url().is_none(),
            config.site_name().is_none(),
    {
        OpenRouterConfig::new(OPENROUTER_API_URL, api_key, None, None)
    }

    /// The headers of every request.
    pub fn headers(&self) -> (headers: Vec<(String, String)>)
        requires
            self.key().len() > 0,
        ensures
            headers_view(headers@) == openrouter_headers(
                self.key(),
                self.site_url(),
                self.site_name(),
            ),
    {
        let mut headers: Vec<(String, String)> = Vec::new();
        headers.push((String::from_str("authorization"), bearer_value(self.api_key.as_str())));
        assert(headers_view(headers@) =~= seq![("authorization"@, bearer(self.key()))]);
        if let Some(url) = &self.site_url {
            let ghost before = headers@;
            headers.push((String::from_str("HTTP-Referer"), url.clone()));
            assert(headers_view(headers@) =~= headers_view(before).push(("HTTP-Referer"@, url@)));
        }
        if let Some(name) = &self.site_name {
            let ghost before = headers@;
            headers.push((String::from_str("X-Title"), name.clone()));
            assert(headers_view(headers@) =~= headers_view(before).push(("X-Title"@, name@)));
        }
        headers
    }

    pub fn api_base(&self) -> (base: &str)
        ensures
            base@ == self.base(),
    {
        self.api_url.as_str()
    }

    pub fn api_key(&self) -> (key: &str)
        ensures
            key@ == self.key(),
    {
        self.api_key.as_str()
    }

    /// The query of every request: nothing.
    pub fn query(&self) -> (query: Vec<(String, String)>)
        ensures
            query@.len() == 0,
    {
        Vec::new()
    }

    /// The address of a path of the service.
    pub fn url(&self, path: &str) -> (url: String)
        ensures
            url@ == self.base() + path@,
    {
        self.api_url.clone().concat(path)
    }
}

/// What the client does where a request leaves it open.
#[derive(Debug)]
pub struct Options {
    /// The model that prompts go to.
    pub prompt_model: String,
}

impl Clone for Options {
    fn clone(&self) -> (copy: Self)
        ensures
            copy == *self,
    {
        Options { prompt_model: self.prompt_model.clone() }
    }
}

impl Default for Options {
    fn default() -> (options: Self)
        ensures
            options.prompt_model@ == "meta-llama/llama-4-maverick"@,
    {
        Options { prompt_model: String::from_str("meta-llama/llama-4-maverick") }
    }
}

/// The client of OpenRouter without its connection.
#[derive(Debug)]
pub struct OpenRouter {
    pub config: OpenRouterConfig,
    pub default_options: Options,
}

impl OpenRouter {
    /// The client for the given key, with the options it has by default.
    pub fn with_key(api_key: &str) -> (client: Self)
        ensures
            client.config.base() == OPENROUTER_API_URL@,
            client.config.key() == api_key@,
            client.default_options.prompt_model@ == "meta-llama/llama-4-maverick"@,
    {
        OpenRouter { config: OpenRouterConfig::with_key(api_key), default_options: Options::default() }
    }

    /// The model that a request goes to.
    pub fn model_for(&self, request: &ChatCompletionRequest) -> (model: String)
        ensures
            model@ == model_of(request.model, self.default_options.prompt_model@),
    {
        choose_model(request, self.default_options.prompt_model.as_str())
    }

    /// What a turn gets from the choices of an answer.
    pub fn response_of(&self, choices: &Vec<Choice>) -> (response: ChatCompletionResponse)
        ensures
            response@.messages == choice_messages(choices@),
            response@.tool_calls == choice_tool_calls(choices@),
    {
        response_from_choices(choices)
    }
}

} // verus!
