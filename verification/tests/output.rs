use coro_agent::context::{AgentExecutionContext, TokenUsage};
use coro_agent::events::{AgentEvent, MessageLevel, ToolExecutionInfo};
use coro_agent::output::{
    ensure_tool, is_approval, parameters_preview, ui_update, CliOutputConfig, CliOutputHandler,
    DisplayStep, UiUpdate,
};
use coro_agent::tools::{ToolCall, ToolResult};

fn call(id: &str, name: &str) -> ToolCall {
    ToolCall { id: id.to_string(), name: name.to_string(), parameters: serde_json::Value::Null }
}

fn started(id: &str, name: &str) -> AgentEvent {
    AgentEvent::ToolExecutionStarted { tool_info: ToolExecutionInfo::started(&call(id, name)) }
}

fn completed(id: &str, name: &str) -> AgentEvent {
    AgentEvent::ToolExecutionCompleted {
        tool_info: ToolExecutionInfo::completed(
            &call(id, name),
            &ToolResult::success(id.to_string(), "out".to_string()),
        ),
    }
}

fn context(total_tokens: u32) -> AgentExecutionContext {
    AgentExecutionContext {
        agent_id: "coro_agent".to_string(),
        original_goal: "g".to_string(),
        current_task: "t".to_string(),
        project_path: ".".to_string(),
        max_steps: 1,
        current_step: 1,
        execution_time_ms: 0,
        token_usage: TokenUsage { input_tokens: 0, output_tokens: 0, total_tokens },
    }
}

#[test]
fn handler_settings() {
    assert!(CliOutputHandler::default().supports_realtime_updates());
    assert!(!CliOutputHandler::new(CliOutputConfig { realtime_updates: false })
        .supports_realtime_updates());
}

#[test]
fn started_tool_shows_its_status_and_completion_redraws_it() {
    let mut handler = CliOutputHandler::default();
    assert_eq!(handler.plan(&started("a", "bash")), vec![DisplayStep::ToolStatus]);
    assert_eq!(
        handler.plan(&completed("a", "bash")),
        vec![DisplayStep::EraseLine, DisplayStep::ToolStatus, DisplayStep::ToolResult]
    );
    // the run is no longer on the screen: a second completion shows nothing
    assert!(handler.plan(&completed("a", "bash")).is_empty());
}

#[test]
fn edit_tool_also_shows_a_diff() {
    let mut handler = CliOutputHandler::default();
    handler.plan(&started("e", "str_replace_based_edit_tool"));
    assert_eq!(
        handler.plan(&completed("e", "str_replace_based_edit_tool")),
        vec![
            DisplayStep::EraseLine,
            DisplayStep::ToolStatus,
            DisplayStep::ToolResult,
            DisplayStep::EditDiff
        ]
    );
}

#[test]
fn silent_tool_shows_nothing() {
    let mut handler = CliOutputHandler::default();
    assert!(handler.plan(&started("s", "sequentialthinking")).is_empty());
    assert!(handler.plan(&completed("s", "sequentialthinking")).is_empty());
    // it stays active under its id, so the completion of another tool under that id is redrawn
    assert_eq!(
        handler.plan(&completed("s", "bash")),
        vec![DisplayStep::EraseLine, DisplayStep::ToolStatus, DisplayStep::ToolResult]
    );
}

#[test]
fn completion_of_an_unknown_run_shows_nothing() {
    let mut handler = CliOutputHandler::default();
    handler.plan(&started("a", "bash"));
    handler.plan(&started("a", "bash"));
    handler.plan(&started("b", "bash"));
    assert!(handler.plan(&completed("c", "bash")).is_empty());
    assert_eq!(handler.plan(&completed("b", "bash")).len(), 3);
    assert_eq!(handler.plan(&completed("a", "bash")).len(), 3);
    assert!(handler.plan(&completed("a", "bash")).is_empty());
}

#[test]
fn thinking_and_normal_messages_are_printed() {
    let mut handler = CliOutputHandler::default();
    let thinking = AgentEvent::AgentThinking { step_number: 1, thinking: "hm".to_string() };
    assert_eq!(handler.plan(&thinking), vec![DisplayStep::Thinking]);
    let normal = AgentEvent::Message { level: MessageLevel::Normal, content: "hi".to_string() };
    assert_eq!(handler.plan(&normal), vec![DisplayStep::Content]);
    for level in
        [MessageLevel::Debug, MessageLevel::Info, MessageLevel::Warning, MessageLevel::Error]
    {
        let logged = AgentEvent::Message { level, content: "hi".to_string() };
        assert!(handler.plan(&logged).is_empty());
    }
    let other = AgentEvent::StatusUpdate { status: "s".to_string() };
    assert!(handler.plan(&other).is_empty());
}

#[test]
fn preview_is_cut_at_200_characters() {
    let short = "x".repeat(200);
    assert_eq!(parameters_preview(&short), short);
    let long = "é".repeat(201);
    assert_eq!(parameters_preview(&long), format!("{}...", "é".repeat(200)));
    assert_eq!(parameters_preview(""), "");
}

#[test]
fn approval_is_a_single_y() {
    for line in ["y", "Y", "y\n", "  Y \r\n", "\ty\t"] {
        assert!(is_approval(line), "{:?}", line);
    }
    for line in ["", "\n", "n", "yes", "y y", "yY", "N", " ", "ý"] {
        assert!(!is_approval(line), "{:?}", line);
    }
}

#[test]
fn ui_is_told_of_tokens_and_status() {
    let completed = AgentEvent::ExecutionCompleted {
        context: context(12),
        success: true,
        summary: "s".to_string(),
    };
    assert_eq!(ui_update(&completed), Some(UiUpdate::TokenUpdate { tokens: 12 }));
    let empty = AgentEvent::ExecutionCompleted {
        context: context(0),
        success: true,
        summary: "s".to_string(),
    };
    assert_eq!(ui_update(&empty), None);
    let update = AgentEvent::TokenUsageUpdated {
        token_usage: TokenUsage { input_tokens: 1, output_tokens: 2, total_tokens: 0 },
    };
    assert_eq!(ui_update(&update), Some(UiUpdate::TokenUpdate { tokens: 0 }));
    let status = AgentEvent::StatusUpdate { status: "reading".to_string() };
    assert_eq!(
        ui_update(&status),
        Some(UiUpdate::TaskStarted { operation: "reading".to_string() })
    );
    let interrupted =
        AgentEvent::ExecutionInterrupted { context: context(5), reason: "r".to_string() };
    assert_eq!(ui_update(&interrupted), None);
}

#[test]
fn ensure_tool_adds_a_missing_name_once() {
    let mut tools = vec!["bash".to_string()];
    ensure_tool(&mut tools, "status_report");
    assert_eq!(tools, vec!["bash".to_string(), "status_report".to_string()]);
    ensure_tool(&mut tools, "status_report");
    ensure_tool(&mut tools, "bash");
    assert_eq!(tools.len(), 2);
    let mut none: Vec<String> = Vec::new();
    ensure_tool(&mut none, "x");
    assert_eq!(none, vec!["x".to_string()]);
}
