//! Agent configuration and the builder that assembles it.

use crate::cancel::AbortController;
use crate::text::{clone_opt_string, clone_strings, opt_view, strings_view};
use std::collections::HashMap;
use std::sync::atomic::AtomicBool;
use std::sync::Arc;
use vstd::prelude::*;

verus! {

/// How much the agent reports.
#[derive(Debug, Clone, Copy, PartialEq, Eq, Structural)]
pub enum OutputMode {
    /// Detailed logging.
    Debug,
    /// Clean, user-facing output.
    Normal,
}

impl Default for OutputMode {
    fn default() -> (r: Self)
        ensures
            r == OutputMode::Normal,
    {
        OutputMode::Normal
    }
}

/// Configuration of an agent.
#[derive(Debug)]
pub struct AgentConfig {
    /// Upper bound on the steps of one task.
    pub max_steps: usize,
    /// Whether the extended view integration is enabled.
    pub enable_lakeview: bool,
    /// Names of the tools available to the agent.
    pub tools: Vec<String>,
    /// How much the agent reports.
    pub output_mode: OutputMode,
    /// Replaces the built-in system prompt when present.
    pub system_prompt: Option<String>,
}

/// Model of an [`AgentConfig`].
pub ghost struct ConfigView {
    pub max_steps: usize,
    pub enable_lakeview: bool,
    pub tools: Seq<Seq<char>>,
    pub output_mode: OutputMode,
    pub system_prompt: Option<Seq<char>>,
}

impl View for AgentConfig {
    type V = ConfigView;

    open spec fn view(&self) -> ConfigView {
        ConfigView {
            max_steps: self.max_steps,
            enable_lakeview: self.enable_lakeview,
            tools: strings_view(self.tools@),
            output_mode: self.output_mode,
            system_prompt: opt_view(self.system_prompt),
        }
    }
}

impl Clone for AgentConfig {
    fn clone(&self) -> (r: Self)
        ensures
            r@ == self@,
    {
        AgentConfig {
            max_steps: self.max_steps,
            enable_lakeview: self.enable_lakeview,
            tools: clone_strings(&self.tools),
            output_mode: self.output_mode,
            system_prompt: clone_opt_string(&self.system_prompt),
        }
    }
}

/// The configuration an agent has when none is given.
pub open spec fn default_config() -> ConfigView {
    ConfigView {
        max_steps: 200,
        enable_lakeview: true,
        tools: seq![
            "bash"@,
            "str_replace_based_edit_tool"@,
            "sequentialthinking"@,
            "task_done"@,
        ],
        output_mode: OutputMode::Normal,
        system_prompt: None,
    }
}

impl Default for AgentConfig {
    fn default() -> (r: Self)
        ensures
            r@ == default_config(),
    {
        let mut tools: Vec<String> = Vec::new();
        tools.push("bash".to_owned());
        tools.push("str_replace_based_edit_tool".to_owned());
        tools.push("sequentialthinking".to_owned());
        tools.push("task_done".to_owned());
        assert(strings_view(tools@) =~= default_config().tools);
        AgentConfig {
            max_steps: 200,
            enable_lakeview: true,
            tools,
            output_mode: OutputMode::Normal,
            system_prompt: None,
        }
    }
}

/// The wire protocol a model endpoint speaks.
#[derive(Debug)]
pub enum Protocol {
    OpenAICompat,
    Anthropic,
    GoogleAI,
    AzureOpenAI,
    Custom(String),
}

/// Model of a [`Protocol`].
pub ghost enum ProtocolView {
    OpenAICompat,
    Anthropic,
    GoogleAI,
    AzureOpenAI,
    Custom(Seq<char>),
}

impl View for Protocol {
    type V = ProtocolView;

    open spec fn view(&self) -> ProtocolView {
        match *self {
            Protocol::OpenAICompat => ProtocolView::OpenAICompat,
            Protocol::Anthropic => ProtocolView::Anthropic,
            Protocol::GoogleAI => ProtocolView::GoogleAI,
            Protocol::AzureOpenAI => ProtocolView::AzureOpenAI,
            Protocol::Custom(name) => ProtocolView::Custom(name@),
        }
    }
}

impl Clone for Protocol {
    fn clone(&self) -> (r: Self)
        ensures
            r@ == self@,
    {
        match self {
            Protocol::OpenAICompat => Protocol::OpenAICompat,
            Protocol::Anthropic => Protocol::Anthropic,
            Protocol::GoogleAI => Protocol::GoogleAI,
            Protocol::AzureOpenAI => Protocol::AzureOpenAI,
            Protocol::Custom(name) => Protocol::Custom(name.clone()),
        }
    }
}

/// The client implementation that serves a protocol.
#[derive(Debug, Clone, Copy, PartialEq, Eq, Structural)]
pub enum ClientKind {
    OpenAi,
    Anthropic,
}

/// Why an agent could not be set up.
#[derive(Debug, Clone, Copy, PartialEq, Eq, Structural)]
pub enum SetupError {
    /// No client exists for the selected protocol.
    NotInitialized,
    /// The endpoint needs a credential and none was given.
    MissingApiKey,
}

/// Generation parameters the engine reads.
#[derive(Debug, Clone, Copy, PartialEq, Eq, Structural)]
pub struct LlmParams {
    /// Size of the model's context, in tokens.
    pub max_tokens: Option<u32>,
}

/// A fully resolved model endpoint.
#[derive(Debug)]
pub struct ResolvedLlmConfig {
    pub protocol: Protocol,
    pub base_url: String,
    pub api_key: String,
    pub model: String,
    pub params: LlmParams,
    pub headers: HashMap<String, String>,
}

/// Model of a [`ResolvedLlmConfig`].
pub ghost struct LlmConfigView {
    pub protocol: ProtocolView,
    pub base_url: Seq<char>,
    pub api_key: Seq<char>,
    pub model: Seq<char>,
    pub params: LlmParams,
    pub headers: Map<String, String>,
}

impl View for ResolvedLlmConfig {
    type V = LlmConfigView;

    open spec fn view(&self) -> LlmConfigView {
        LlmConfigView {
            protocol: self.protocol@,
            base_url: self.base_url@,
            api_key: self.api_key@,
            model: self.model@,
            params: self.params,
            headers: self.headers@,
        }
    }
}

/// The context budget used when the endpoint names none.
pub const DEFAULT_CONTEXT_TOKENS: u32 = 8192;

impl ResolvedLlmConfig {
    /// An endpoint with no parameters and no extra headers.
    pub fn new(protocol: Protocol, base_url: String, api_key: String, model: String) -> (r: Self)
        ensures
            r@ == (LlmConfigView {
                protocol: protocol@,
                base_url: base_url@,
                api_key: api_key@,
                model: model@,
                params: LlmParams { max_tokens: None },
                headers: Map::empty(),
            }),
    {
        ResolvedLlmConfig {
            protocol,
            base_url,
            api_key,
            model,
            params: LlmParams { max_tokens: None },
            headers: HashMap::new(),
        }
    }

    /// The client that serves this endpoint's protocol, if there is one.
    pub open spec fn chosen_client(view: LlmConfigView) -> Result<ClientKind, SetupError> {
        match view.protocol {
            ProtocolView::OpenAICompat => Ok(ClientKind::OpenAi),
            ProtocolView::AzureOpenAI => Ok(ClientKind::OpenAi),
            ProtocolView::Anthropic => if view.api_key.len() == 0 {
                Err(SetupError::MissingApiKey)
            } else {
                Ok(ClientKind::Anthropic)
            },
            ProtocolView::GoogleAI => Err(SetupError::NotInitialized),
            ProtocolView::Custom(_) => Err(SetupError::NotInitialized),
        }
    }

    /// Selects the client implementation for this endpoint. The Azure
    /// protocol is served by the OpenAI client; the Anthropic client refuses
    /// an empty credential; the remaining protocols have no client.
    pub fn client_kind(&self) -> (r: Result<ClientKind, SetupError>)
        ensures
            r == Self::chosen_client(self@),
    {
        match &self.protocol {
            Protocol::OpenAICompat => Ok(ClientKind::OpenAi),
            Protocol::AzureOpenAI => Ok(ClientKind::OpenAi),
            Protocol::Anthropic => {
                if self.api_key.as_str().unicode_len() == 0 {
                    Err(SetupError::MissingApiKey)
                } else {
                    Ok(ClientKind::Anthropic)
                }
            },
            Protocol::GoogleAI => Err(SetupError::NotInitialized),
            Protocol::Custom(_) => Err(SetupError::NotInitialized),
        }
    }

    /// The token budget of a conversation with this endpoint.
    pub fn context_budget(&self) -> (r: u32)
        ensures
            r == (match self.params.max_tokens {
                Some(n) => n,
                None => DEFAULT_CONTEXT_TOKENS,
            }),
    {
        match self.params.max_tokens {
            Some(n) => n,
            None => DEFAULT_CONTEXT_TOKENS,
        }
    }
}

/// Assembles what an agent is made from.
pub struct AgentBuilder {
    llm_config: ResolvedLlmConfig,
    agent_config: AgentConfig,
    abort_controller: Option<AbortController>,
}

impl AgentBuilder {
    /// The endpoint the agent will talk to.
    pub closed spec fn llm_view(&self) -> LlmConfigView {
        self.llm_config@
    }

    /// The configuration the agent will have.
    pub closed spec fn config_view(&self) -> ConfigView {
        self.agent_config@
    }

    /// The signal of the injected controller, if one was injected.
    pub closed spec fn cancellation(&self) -> Option<Arc<AtomicBool>> {
        match self.abort_controller {
            Some(controller) => Some(controller.signal()),
            None => None,
        }
    }

    /// A builder for the given endpoint, with the default configuration and
    /// no injected stop signal.
    pub fn new(llm_config: ResolvedLlmConfig) -> (r: Self)
        ensures
            r.llm_view() == llm_config@,
            r.config_view() == default_config(),
            r.cancellation().is_none(),
    {
        AgentBuilder { llm_config, agent_config: AgentConfig::default(), abort_controller: None }
    }

    /// Replaces the whole configuration.
    pub fn with_agent_config(self, agent_config: AgentConfig) -> (r: Self)
        ensures
            r.config_view() == agent_config@,
            r.llm_view() == self.llm_view(),
            r.cancellation() == self.cancellation(),
    {
        AgentBuilder {
            llm_config: self.llm_config,
            agent_config,
            abort_controller: self.abort_controller,
        }
    }

    /// Sets the step bound.
    pub fn with_max_steps(self, max_steps: usize) -> (r: Self)
        ensures
            r.config_view() == (ConfigView { max_steps, ..self.config_view() }),
            r.llm_view() == self.llm_view(),
            r.cancellation() == self.cancellation(),
    {
        let mut next = self;
        next.agent_config.max_steps = max_steps;
        next
    }

    /// Sets the tool names.
    pub fn with_tools(self, tools: Vec<String>) -> (r: Self)
        ensures
            r.config_view() == (ConfigView { tools: strings_view(tools@), ..self.config_view() }),
            r.llm_view() == self.llm_view(),
            r.cancellation() == self.cancellation(),
    {
        let mut next = self;
        next.agent_config.tools = tools;
        next
    }

    /// Sets the output mode.
    pub fn with_output_mode(self, output_mode: OutputMode) -> (r: Self)
        ensures
            r.config_view() == (ConfigView { output_mode, ..self.config_view() }),
            r.llm_view() == self.llm_view(),
            r.cancellation() == self.cancellation(),
    {
        let mut next = self;
        next.agent_config.output_mode = output_mode;
        next
    }

    /// Sets or clears the custom system prompt.
    pub fn with_system_prompt(self, system_prompt: Option<String>) -> (r: Self)
        ensures
            r.config_view() == (ConfigView {
                system_prompt: opt_view(system_prompt),
                ..self.config_view()
            }),
            r.llm_view() == self.llm_view(),
            r.cancellation() == self.cancellation(),
    {
        let mut next = self;
        next.agent_config.system_prompt = system_prompt;
        next
    }

    /// Injects a stop signal shared with the caller.
    pub fn with_cancellation(self, controller: AbortController) -> (r: Self)
        ensures
            r.config_view() == self.config_view(),
            r.llm_view() == self.llm_view(),
            r.cancellation() == Some(controller.signal()),
    {
        let mut next = self;
        next.abort_controller = Some(controller);
        next
    }

    /// The configuration assembled so far.
    pub fn agent_config(&self) -> (r: &AgentConfig)
        ensures
            r@ == self.config_view(),
    {
        &self.agent_config
    }

    /// The endpoint the agent will talk to.
    pub fn llm_config(&self) -> (r: &ResolvedLlmConfig)
        ensures
            r@ == self.llm_view(),
    {
        &self.llm_config
    }

    /// Takes the builder apart: endpoint, configuration, injected signal.
    pub fn into_parts(self) -> (r: (ResolvedLlmConfig, AgentConfig, Option<AbortController>))
        ensures
            r.0@ == self.llm_view(),
            r.1@ == self.config_view(),
            r.2.is_some() == self.cancellation().is_some(),
            r.2.is_some() ==> self.cancellation() == Some(r.2.unwrap().signal()),
    {
        (self.llm_config, self.agent_config, self.abort_controller)
    }
}

} // verus!
