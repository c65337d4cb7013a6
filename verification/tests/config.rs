use coro_agent::cancel::AbortController;
use coro_agent::config::{
    AgentBuilder, AgentConfig, ClientKind, OutputMode, Protocol, ResolvedLlmConfig, SetupError,
};
use coro_agent::output::{is_silent_tool, CliOutputConfig};

fn endpoint(protocol: Protocol, api_key: &str) -> ResolvedLlmConfig {
    ResolvedLlmConfig::new(
        protocol,
        "https://api.example.com".to_string(),
        api_key.to_string(),
        "some-model".to_string(),
    )
}

#[test]
fn test_system_prompt_configuration() {
    let agent_config = AgentConfig {
        system_prompt: Some("Custom system prompt for testing".to_string()),
        ..Default::default()
    };

    assert_eq!(
        agent_config.system_prompt,
        Some("Custom system prompt for testing".to_string())
    );

    let default_config = AgentConfig::default();
    assert_eq!(default_config.system_prompt, None);
}

#[test]
fn test_system_prompt_default_none() {
    let config = AgentConfig::default();
    assert_eq!(config.system_prompt, None);
}

#[test]
fn default_config_values() {
    let config = AgentConfig::default();
    assert_eq!(config.max_steps, 200);
    assert!(config.enable_lakeview);
    assert_eq!(
        config.tools,
        vec![
            "bash".to_string(),
            "str_replace_based_edit_tool".to_string(),
            "sequentialthinking".to_string(),
            "task_done".to_string(),
        ]
    );
    assert_eq!(config.output_mode, OutputMode::Normal);
    assert_eq!(OutputMode::default(), OutputMode::Normal);
}

#[test]
fn config_clone_keeps_every_field() {
    let config = AgentConfig {
        max_steps: 7,
        enable_lakeview: false,
        tools: vec!["bash".to_string()],
        output_mode: OutputMode::Debug,
        system_prompt: Some("p".to_string()),
    };
    let copy = config.clone();
    assert_eq!(copy.max_steps, 7);
    assert!(!copy.enable_lakeview);
    assert_eq!(copy.tools, vec!["bash".to_string()]);
    assert_eq!(copy.output_mode, OutputMode::Debug);
    assert_eq!(copy.system_prompt, Some("p".to_string()));
}

#[test]
fn builder_starts_from_defaults() {
    let builder = AgentBuilder::new(endpoint(Protocol::OpenAICompat, "k"));
    assert_eq!(builder.agent_config().max_steps, 200);
    assert_eq!(builder.agent_config().system_prompt, None);
    assert_eq!(builder.llm_config().model, "some-model");
    let (_, _, controller) = builder.into_parts();
    assert!(controller.is_none());
}

#[test]
fn builder_setters_change_one_field_each() {
    let builder = AgentBuilder::new(endpoint(Protocol::OpenAICompat, "k"))
        .with_max_steps(3)
        .with_tools(vec!["task_done".to_string()])
        .with_output_mode(OutputMode::Debug)
        .with_system_prompt(Some("be brief".to_string()));
    let config = builder.agent_config();
    assert_eq!(config.max_steps, 3);
    assert_eq!(config.tools, vec!["task_done".to_string()]);
    assert_eq!(config.output_mode, OutputMode::Debug);
    assert_eq!(config.system_prompt, Some("be brief".to_string()));
    assert!(config.enable_lakeview);
}

#[test]
fn builder_with_agent_config_replaces_all() {
    let replacement = AgentConfig {
        max_steps: 11,
        enable_lakeview: false,
        tools: Vec::new(),
        output_mode: OutputMode::Debug,
        system_prompt: None,
    };
    let builder = AgentBuilder::new(endpoint(Protocol::Anthropic, "k"))
        .with_max_steps(3)
        .with_agent_config(replacement);
    assert_eq!(builder.agent_config().max_steps, 11);
    assert!(builder.agent_config().tools.is_empty());
}

#[test]
fn builder_with_cancellation_keeps_the_shared_signal() {
    let (controller, registration) = AbortController::new();
    let builder =
        AgentBuilder::new(endpoint(Protocol::OpenAICompat, "k")).with_cancellation(controller);
    let (_, _, kept) = builder.into_parts();
    let kept = kept.unwrap();
    assert!(!registration.is_cancelled());
    kept.cancel();
    assert!(registration.is_cancelled());
}

#[test]
fn client_kind_by_protocol() {
    assert_eq!(
        endpoint(Protocol::OpenAICompat, "k").client_kind(),
        Ok(ClientKind::OpenAi)
    );
    assert_eq!(
        endpoint(Protocol::AzureOpenAI, "k").client_kind(),
        Ok(ClientKind::OpenAi)
    );
    assert_eq!(
        endpoint(Protocol::Anthropic, "k").client_kind(),
        Ok(ClientKind::Anthropic)
    );
    assert_eq!(
        endpoint(Protocol::Anthropic, "").client_kind(),
        Err(SetupError::MissingApiKey)
    );
    assert_eq!(
        endpoint(Protocol::GoogleAI, "k").client_kind(),
        Err(SetupError::NotInitialized)
    );
    assert_eq!(
        endpoint(Protocol::Custom("x".to_string()), "k").client_kind(),
        Err(SetupError::NotInitialized)
    );
}

#[test]
fn context_budget_defaults_to_8192() {
    let mut config = endpoint(Protocol::OpenAICompat, "k");
    assert_eq!(config.context_budget(), 8192);
    config.params.max_tokens = Some(100);
    assert_eq!(config.context_budget(), 100);
}

#[test]
fn silent_tool_is_the_thinking_tool_only() {
    assert!(is_silent_tool("sequentialthinking"));
    assert!(!is_silent_tool("bash"));
    assert!(!is_silent_tool(""));
    assert!(!is_silent_tool("sequentialthinking "));
}

#[test]
fn cli_output_config_default_is_realtime() {
    assert!(CliOutputConfig::default().realtime_updates);
}
