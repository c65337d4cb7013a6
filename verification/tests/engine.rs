use coro_agent::cancel::AbortController;
use coro_agent::compression::{CompressionLevel, ConversationManager};
use coro_agent::config::AgentConfig;
use coro_agent::context::{AgentExecution, Usage};
use coro_agent::effects::{ConfirmationOutcome, Effect, Input, LlmResponse, Tick};
use coro_agent::engine::{compose_system_prompt, AgentCore, EngineError, Phase, PromptParts};
use coro_agent::events::{AgentEvent, MessageLevel, ToolExecutionStatus};
use coro_agent::message::{ContentBlock, LlmMessage, MessageContent, MessageRole};
use coro_agent::tools::{ToolDescriptor, ToolResult};
use coro_agent::trajectory::EntryType;

fn parts() -> PromptParts {
    PromptParts {
        default_prompt: "DEFAULT PROMPT".to_string(),
        system_context: "System Information:\nOperating System: test".to_string(),
    }
}

fn tick() -> Tick {
    Tick { cancelled: false, elapsed_ms: 5 }
}

fn cancelled() -> Tick {
    Tick { cancelled: true, elapsed_ms: 9 }
}

fn null() -> serde_json::Value {
    serde_json::Value::Null
}

fn engine(max_steps: usize, tools: Vec<ToolDescriptor>) -> AgentCore {
    let config = AgentConfig { max_steps, ..Default::default() };
    AgentCore::new(config, tools, "mock-model".to_string(), "mock".to_string(), None)
}

fn tool_use(id: &str, name: &str) -> ContentBlock {
    ContentBlock::ToolUse { id: id.to_string(), name: name.to_string(), input: null() }
}

fn reply_with(blocks: Vec<ContentBlock>) -> Input {
    Input::ModelReplied {
        response: LlmResponse {
            message: LlmMessage {
                role: MessageRole::Assistant,
                content: MessageContent::MultiModal(blocks),
                metadata: None,
            },
            usage: None,
            model: "mock-model".to_string(),
            finish_reason: None,
        },
    }
}

fn reply_text(text: &str) -> Input {
    Input::ModelReplied {
        response: LlmResponse {
            message: LlmMessage::assistant(text),
            usage: None,
            model: "mock-model".to_string(),
            finish_reason: None,
        },
    }
}

fn unchanged(agent: &AgentCore) -> Input {
    Input::Compressed {
        result: ConversationManager::unchanged(agent.conversation_history().clone()),
    }
}

fn finish_of(effects: &[Effect]) -> Option<&AgentExecution> {
    match effects.last() {
        Some(Effect::Finish { result }) => Some(result),
        _ => None,
    }
}

fn count_terminal(effects: &[Effect]) -> (usize, usize) {
    let mut completed = 0;
    let mut interrupted = 0;
    for effect in effects {
        if let Effect::Emit { event } = effect {
            match event {
                AgentEvent::ExecutionCompleted { .. } => completed += 1,
                AgentEvent::ExecutionInterrupted { .. } => interrupted += 1,
                _ => {}
            }
        }
    }
    (completed, interrupted)
}

fn roles(agent: &AgentCore) -> Vec<MessageRole> {
    agent.conversation_history().iter().map(|m| m.role).collect()
}

#[test]
fn completion_signal_on_first_step_succeeds() {
    let mut agent = engine(10, vec![ToolDescriptor::named("task_done")]);
    let mut all = Vec::new();
    let first = agent.start_task("finish", ".", &parts(), null(), tick());
    assert!(matches!(first.last(), Some(Effect::Compress)));
    assert_eq!(agent.phase(), Phase::Compressing);
    all.extend(first);

    let input = unchanged(&agent);
    let second = agent.handle(input, tick());
    assert!(matches!(second.last(), Some(Effect::CallModel { .. })));
    assert_eq!(agent.phase(), Phase::Thinking);
    all.extend(second);

    let third = agent.handle(reply_with(vec![tool_use("t1", "task_done")]), tick());
    match third.last() {
        Some(Effect::RunTool { call }) => {
            assert_eq!(call.id, "t1");
            assert_eq!(call.name, "task_done");
        }
        other => panic!("expected a tool run, got {:?}", other),
    }
    assert_eq!(agent.phase(), Phase::Running);
    all.extend(third);

    let done = Input::ToolFinished {
        result: ToolResult::success("t1".to_string(), "done".to_string()),
    };
    let last = agent.handle(done, Tick { cancelled: false, elapsed_ms: 42 });
    let result = finish_of(&last).expect("the task ends");
    assert!(result.success);
    assert_eq!(result.final_result, "Task completed successfully");
    assert_eq!(result.steps_executed, 1);
    assert_eq!(result.duration_ms, 42);
    all.extend(last);

    assert!(agent.is_idle());
    let context = agent.execution_context().as_ref().unwrap();
    assert_eq!(context.current_step, 1);
    assert_eq!(context.execution_time_ms, 42);
    assert_eq!(count_terminal(&all), (1, 0));
    // the completion signal's result is not appended to the history
    assert_eq!(
        roles(&agent),
        vec![MessageRole::System, MessageRole::User, MessageRole::Assistant]
    );
}

#[test]
fn unresolvable_tool_calls_run_out_of_steps() {
    let mut agent = engine(3, Vec::new());
    let mut all = Vec::new();
    let mut effects = agent.start_task("loop", ".", &parts(), null(), tick());
    let mut turns = 0;
    loop {
        let next = match effects.last() {
            Some(Effect::Compress) => unchanged(&agent),
            Some(Effect::CallModel { .. }) => {
                turns += 1;
                reply_with(vec![tool_use(&format!("call-{}", turns), "missing_tool")])
            }
            Some(Effect::RunTool { call }) => {
                assert_eq!(call.name, "missing_tool");
                Input::ToolFailed { error: "Tool not found".to_string() }
            }
            Some(Effect::Finish { .. }) => break,
            other => panic!("unexpected request {:?}", other),
        };
        all.extend(effects);
        assert!(agent.accepts(&next));
        effects = agent.handle(next, tick());
    }
    let result = finish_of(&effects).unwrap();
    assert!(!result.success);
    assert_eq!(result.steps_executed, 3);
    assert_eq!(result.final_result, "Task incomplete after 3 steps");
    all.extend(effects);
    assert_eq!(turns, 3);
    assert_eq!(agent.execution_context().as_ref().unwrap().current_step, 3);
    assert_eq!(count_terminal(&all), (1, 0));
    let summary = all.iter().find_map(|e| match e {
        Effect::Emit { event: AgentEvent::ExecutionCompleted { success, summary, .. } } => {
            Some((*success, summary.clone()))
        }
        _ => None,
    });
    assert_eq!(summary, Some((false, "Task incomplete after 3 steps".to_string())));
    // every failed call left an error result in the history
    let errors = agent
        .conversation_history()
        .iter()
        .filter(|m| m.role == MessageRole::Tool)
        .count();
    assert_eq!(errors, 3);
    match &agent.conversation_history()[3].content {
        MessageContent::MultiModal(blocks) => match &blocks[0] {
            ContentBlock::ToolResult { tool_use_id, is_error, content } => {
                assert_eq!(tool_use_id, "call-1");
                assert_eq!(*is_error, Some(true));
                assert_eq!(content, "Tool execution failed: Tool not found");
            }
            _ => panic!("not a tool result"),
        },
        _ => panic!("not multi-part"),
    }
}

#[test]
fn cancellation_before_any_step_is_interrupted_at_step_zero() {
    let mut agent = engine(10, Vec::new());
    let effects = agent.start_task("never", "/p", &parts(), null(), cancelled());
    let result = finish_of(&effects).unwrap();
    assert!(!result.success);
    assert_eq!(result.final_result, "Execution interrupted");
    assert_eq!(result.steps_executed, 0);
    assert_eq!(result.duration_ms, 9);
    assert_eq!(count_terminal(&effects), (0, 1));
    assert!(agent.is_idle());
    let context = agent.execution_context().as_ref().unwrap();
    assert_eq!(context.current_step, 0);
    match &effects[effects.len() - 2] {
        Effect::Emit { event: AgentEvent::ExecutionInterrupted { context, reason } } => {
            assert_eq!(context.current_step, 0);
            assert_eq!(reason, "Execution interrupted by user");
        }
        other => panic!("expected the interrupted event, got {:?}", other),
    }
}

#[test]
fn cancellation_after_compression_is_interrupted_at_step_zero() {
    let mut agent = engine(10, Vec::new());
    agent.start_task("never", ".", &parts(), null(), tick());
    let input = unchanged(&agent);
    let effects = agent.handle(input, cancelled());
    let result = finish_of(&effects).unwrap();
    assert_eq!(result.steps_executed, 0);
    assert_eq!(result.final_result, "Execution interrupted");
    assert_eq!(count_terminal(&effects), (0, 1));
}

#[test]
fn cancellation_during_model_call_drops_the_reply() {
    let mut agent = engine(10, Vec::new());
    agent.start_task("t", ".", &parts(), null(), tick());
    let input = unchanged(&agent);
    agent.handle(input, tick());
    let before = agent.conversation_history().len();
    let effects = agent.handle(reply_text("late"), cancelled());
    assert_eq!(agent.conversation_history().len(), before);
    let result = finish_of(&effects).unwrap();
    assert_eq!(result.steps_executed, 1);
    assert_eq!(count_terminal(&effects), (0, 1));
}

#[test]
fn no_steps_allowed_ends_incomplete_even_when_cancelled() {
    let mut agent = engine(0, Vec::new());
    let effects = agent.start_task("t", ".", &parts(), null(), cancelled());
    let result = finish_of(&effects).unwrap();
    assert_eq!(result.final_result, "Task incomplete after 0 steps");
    assert_eq!(count_terminal(&effects), (1, 0));
}

#[test]
fn first_task_sets_goal_and_later_tasks_keep_it() {
    let mut agent = engine(1, Vec::new());
    let effects = agent.start_task("first goal", "/proj", &parts(), null(), tick());
    match &effects[0] {
        Effect::Emit { event: AgentEvent::ExecutionStarted { context } } => {
            assert_eq!(context.agent_id, "coro_agent");
            assert_eq!(context.original_goal, "first goal");
            assert_eq!(context.current_task, "first goal");
            assert_eq!(context.project_path, "/proj");
            assert_eq!(context.max_steps, 1);
            assert_eq!(context.current_step, 0);
        }
        other => panic!("expected the started event, got {:?}", other),
    }
    let input = unchanged(&agent);
    agent.handle(input, tick());
    let end = agent.handle(reply_text("hello"), tick());
    assert!(finish_of(&end).is_some());
    assert_eq!(agent.execution_context().as_ref().unwrap().current_step, 1);

    let effects = agent.start_task("second", "/other", &parts(), null(), tick());
    match &effects[0] {
        Effect::Emit { event: AgentEvent::ExecutionStarted { context } } => {
            assert_eq!(context.original_goal, "first goal");
            assert_eq!(context.current_task, "second");
            assert_eq!(context.project_path, "/proj");
            assert_eq!(context.current_step, 0);
        }
        other => panic!("expected the started event, got {:?}", other),
    }
    // history persists: system, user, assistant, user
    assert_eq!(
        roles(&agent),
        vec![
            MessageRole::System,
            MessageRole::User,
            MessageRole::Assistant,
            MessageRole::User
        ]
    );
}

#[test]
fn text_reply_is_shown_unless_blank() {
    let mut agent = engine(5, Vec::new());
    agent.start_task("t", ".", &parts(), null(), tick());
    let input = unchanged(&agent);
    agent.handle(input, tick());
    let effects = agent.handle(reply_text("Hello there"), tick());
    let shown: Vec<&String> = effects
        .iter()
        .filter_map(|e| match e {
            Effect::Emit { event: AgentEvent::Message { level: MessageLevel::Normal, content } } => {
                Some(content)
            }
            _ => None,
        })
        .collect();
    assert_eq!(shown, vec!["Hello there"]);
    // the step is not terminal: the loop goes on
    assert!(matches!(effects.last(), Some(Effect::Compress)));

    let input = unchanged(&agent);
    agent.handle(input, tick());
    let effects = agent.handle(reply_text(" \n\t "), tick());
    assert!(!effects
        .iter()
        .any(|e| matches!(e, Effect::Emit { event: AgentEvent::Message { .. } })));
}

#[test]
fn model_failure_fails_the_task_with_one_terminal_event() {
    let mut agent = engine(5, Vec::new());
    agent.set_recording(true);
    let mut all = agent.start_task("t", ".", &parts(), null(), tick());
    let input = unchanged(&agent);
    all.extend(agent.handle(input, tick()));
    let effects = agent.handle(
        Input::ModelFailed { error: "network down".to_string() },
        Tick { cancelled: false, elapsed_ms: 77 },
    );
    let result = finish_of(&effects).unwrap();
    assert!(!result.success);
    assert_eq!(result.final_result, "Error in step 1: network down");
    assert_eq!(result.steps_executed, 1);
    assert_eq!(result.duration_ms, 77);
    match &effects[0] {
        Effect::Emit { event: AgentEvent::Message { level, content } } => {
            assert_eq!(*level, MessageLevel::Error);
            assert_eq!(content, "LLM request failed: network down");
        }
        other => panic!("expected the error message, got {:?}", other),
    }
    match &effects[1] {
        Effect::Record { entry: EntryType::Error { error, context }, step } => {
            assert_eq!(error, "network down");
            assert_eq!(context.as_deref(), Some("Step 1"));
            assert_eq!(*step, 1);
        }
        other => panic!("expected the error entry, got {:?}", other),
    }
    all.extend(effects);
    assert_eq!(count_terminal(&all), (1, 0));
    assert!(agent.is_idle());
}

#[test]
fn tools_run_in_model_order_and_results_enter_history() {
    let mut agent = engine(5, vec![ToolDescriptor::named("bash")]);
    agent.start_task("t", ".", &parts(), null(), tick());
    let input = unchanged(&agent);
    agent.handle(input, tick());
    let effects = agent.handle(
        reply_with(vec![
            ContentBlock::Text { text: "working".to_string() },
            tool_use("a", "bash"),
            tool_use("b", "bash"),
        ]),
        tick(),
    );
    match &effects[0] {
        Effect::Emit { event: AgentEvent::ToolExecutionStarted { tool_info } } => {
            assert_eq!(tool_info.execution_id, "a");
            assert_eq!(tool_info.tool_name, "bash");
            assert_eq!(tool_info.status, ToolExecutionStatus::Executing);
            assert!(tool_info.result.is_none());
        }
        other => panic!("expected the started event, got {:?}", other),
    }
    assert!(matches!(effects.last(), Some(Effect::RunTool { call }) if call.id == "a"));

    let effects = agent.handle(
        Input::ToolFinished { result: ToolResult::success("a".to_string(), "out-a".to_string()) },
        tick(),
    );
    match &effects[0] {
        Effect::Emit { event: AgentEvent::ToolExecutionCompleted { tool_info } } => {
            assert_eq!(tool_info.execution_id, "a");
            assert_eq!(tool_info.status, ToolExecutionStatus::Success);
            assert_eq!(tool_info.result.as_ref().unwrap().content, "out-a");
        }
        other => panic!("expected the completed event, got {:?}", other),
    }
    assert!(matches!(effects.last(), Some(Effect::RunTool { call }) if call.id == "b"));

    let effects = agent.handle(Input::ToolFailed { error: "boom".to_string() }, tick());
    match &effects[0] {
        Effect::Emit { event: AgentEvent::ToolExecutionCompleted { tool_info } } => {
            assert_eq!(tool_info.execution_id, "b");
            assert_eq!(tool_info.status, ToolExecutionStatus::Error);
        }
        other => panic!("expected the completed event, got {:?}", other),
    }
    // both done: the step is over and the loop goes on without calling the model again
    assert!(matches!(effects.last(), Some(Effect::Compress)));
    let history = agent.conversation_history();
    assert_eq!(history.len(), 5);
    let ids: Vec<(String, Option<bool>, String)> = history[3..]
        .iter()
        .map(|m| match &m.content {
            MessageContent::MultiModal(blocks) => match &blocks[0] {
                ContentBlock::ToolResult { tool_use_id, is_error, content } => {
                    (tool_use_id.clone(), *is_error, content.clone())
                }
                _ => panic!("not a tool result"),
            },
            _ => panic!("not multi-part"),
        })
        .collect();
    assert_eq!(
        ids,
        vec![
            ("a".to_string(), Some(false), "out-a".to_string()),
            ("b".to_string(), Some(true), "Tool execution failed: boom".to_string()),
        ]
    );
}

#[test]
fn confirmation_is_asked_and_fails_closed() {
    let tools = vec![ToolDescriptor {
        name: "bash".to_string(),
        requires_confirmation: true,
        completion_signal: false,
        thought_stream: false,
    }];
    for outcome in [ConfirmationOutcome::Denied, ConfirmationOutcome::Failed] {
        let mut agent = engine(5, tools.iter().map(|t| ToolDescriptor {
            name: t.name.clone(),
            requires_confirmation: t.requires_confirmation,
            completion_signal: t.completion_signal,
            thought_stream: t.thought_stream,
        }).collect());
        agent.start_task("t", ".", &parts(), null(), tick());
        let input = unchanged(&agent);
        agent.handle(input, tick());
        let effects = agent.handle(reply_with(vec![tool_use("a", "bash")]), tick());
        match effects.last() {
            Some(Effect::Confirm { request }) => {
                assert_eq!(request.id, "a");
                assert_eq!(request.title, "Execute tool: bash");
                assert_eq!(request.message, "This tool requires confirmation before execution.");
                assert_eq!(request.tool_name, "bash");
            }
            other => panic!("expected a confirmation request, got {:?}", other),
        }
        assert_eq!(agent.phase(), Phase::Confirming);
        let effects = agent.handle(Input::Confirmed { outcome }, tick());
        // the tool is never run
        assert!(!effects.iter().any(|e| matches!(e, Effect::RunTool { .. })));
        match &agent.conversation_history().last().unwrap().content {
            MessageContent::MultiModal(blocks) => match &blocks[0] {
                ContentBlock::ToolResult { tool_use_id, is_error, content } => {
                    assert_eq!(tool_use_id, "a");
                    assert_eq!(*is_error, Some(true));
                    assert_eq!(content, "Execution cancelled by user");
                }
                _ => panic!("not a tool result"),
            },
            _ => panic!("not multi-part"),
        }
    }
}

#[test]
fn approved_confirmation_runs_the_tool() {
    let mut agent = engine(5, vec![ToolDescriptor {
        name: "bash".to_string(),
        requires_confirmation: true,
        completion_signal: false,
        thought_stream: false,
    }]);
    agent.start_task("t", ".", &parts(), null(), tick());
    let input = unchanged(&agent);
    agent.handle(input, tick());
    agent.handle(reply_with(vec![tool_use("a", "bash")]), tick());
    let effects =
        agent.handle(Input::Confirmed { outcome: ConfirmationOutcome::Approved }, tick());
    assert_eq!(effects.len(), 1);
    assert!(matches!(&effects[0], Effect::RunTool { call } if call.id == "a"));
    assert_eq!(agent.phase(), Phase::Running);
}

#[test]
fn thought_stream_tool_emits_thinking() {
    let mut agent = engine(5, vec![ToolDescriptor::named("sequentialthinking")]);
    agent.start_task("t", ".", &parts(), null(), tick());
    let input = unchanged(&agent);
    agent.handle(input, tick());
    agent.handle(reply_with(vec![tool_use("a", "sequentialthinking")]), tick());
    let mut data = serde_json::Map::new();
    data.insert("thought".to_string(), serde_json::Value::String("from data".to_string()));
    let result = ToolResult {
        tool_call_id: "a".to_string(),
        success: true,
        content: "Thought: from text\n\nrest".to_string(),
        data: Some(serde_json::Value::Object(data)),
    };
    let effects = agent.handle(Input::ToolFinished { result }, tick());
    let thoughts: Vec<(usize, String)> = effects
        .iter()
        .filter_map(|e| match e {
            Effect::Emit { event: AgentEvent::AgentThinking { step_number, thinking } } => {
                Some((*step_number, thinking.clone()))
            }
            _ => None,
        })
        .collect();
    assert_eq!(thoughts, vec![(1, "from data".to_string())]);
}

#[test]
fn thought_stream_falls_back_to_text_only_without_data() {
    let mut agent = engine(5, vec![ToolDescriptor::named("sequentialthinking")]);
    agent.start_task("t", ".", &parts(), null(), tick());
    let input = unchanged(&agent);
    agent.handle(input, tick());
    agent.handle(reply_with(vec![tool_use("a", "sequentialthinking")]), tick());
    let result = ToolResult {
        tool_call_id: "a".to_string(),
        success: true,
        content: "Header\nThought: from text\n\nrest".to_string(),
        data: None,
    };
    let effects = agent.handle(Input::ToolFinished { result }, tick());
    assert!(effects.iter().any(|e| matches!(
        e,
        Effect::Emit { event: AgentEvent::AgentThinking { thinking, .. } } if thinking == "from text"
    )));
}

#[test]
fn token_usage_accumulates_and_is_reported_at_once() {
    let mut agent = engine(5, Vec::new());
    agent.start_task("t", ".", &parts(), null(), tick());
    for round in 1..=2u32 {
        let input = unchanged(&agent);
        agent.handle(input, tick());
        let effects = agent.handle(
            Input::ModelReplied {
                response: LlmResponse {
                    message: LlmMessage::assistant("ok"),
                    usage: Some(Usage { prompt_tokens: 10, completion_tokens: 20, total_tokens: 30 }),
                    model: "m".to_string(),
                    finish_reason: None,
                },
            },
            tick(),
        );
        match &effects[0] {
            Effect::Emit { event: AgentEvent::TokenUsageUpdated { token_usage } } => {
                assert_eq!(token_usage.input_tokens, 10 * round);
                assert_eq!(token_usage.output_tokens, 20 * round);
                assert_eq!(token_usage.total_tokens, 30 * round);
            }
            other => panic!("expected the token update, got {:?}", other),
        }
    }
    let usage = agent.execution_context().as_ref().unwrap().token_usage;
    assert_eq!(usage.total_tokens, 60);
}

#[test]
fn compression_summary_is_reported_and_history_replaced() {
    let mut agent = engine(5, Vec::new());
    agent.start_task("t", ".", &parts(), null(), tick());
    let input = Input::Compressed {
        result: ConversationManager::compressed(
            CompressionLevel::Medium,
            9000,
            40,
            vec![LlmMessage::system("S"), LlmMessage::user("short")],
            3000,
            "dropped old turns".to_string(),
        ),
    };
    let effects = agent.handle(input, tick());
    match &effects[0] {
        Effect::Emit {
            event: AgentEvent::CompressionStarted { level, current_tokens, target_tokens, reason },
        } => {
            assert_eq!(level, "medium");
            assert_eq!(*current_tokens, 9000);
            assert_eq!(*target_tokens, 3000);
            assert_eq!(reason, "Token usage requires medium compression");
        }
        other => panic!("expected compression started, got {:?}", other),
    }
    match &effects[1] {
        Effect::Emit {
            event:
                AgentEvent::CompressionCompleted { summary, tokens_saved, messages_before, messages_after },
        } => {
            assert_eq!(summary, "dropped old turns");
            assert_eq!(*tokens_saved, 6000);
            assert_eq!(*messages_before, 40);
            assert_eq!(*messages_after, 2);
        }
        other => panic!("expected compression completed, got {:?}", other),
    }
    assert_eq!(agent.conversation_history().len(), 2);
    match effects.last() {
        Some(Effect::CallModel { messages }) => assert_eq!(messages.len(), 2),
        other => panic!("expected a model call, got {:?}", other),
    }
}

#[test]
fn compression_failure_falls_back_to_trim() {
    let mut agent = engine(5, Vec::new());
    let mut history = vec![LlmMessage::system("S")];
    for i in 0..199 {
        history.push(LlmMessage::user(&format!("m{}", i)));
    }
    agent.restore_from_history(history).unwrap();
    agent.start_task("t", ".", &parts(), null(), tick());
    assert_eq!(agent.conversation_history().len(), 201);
    let effects = agent.handle(
        Input::CompressionFailed { error: "summarizer unavailable".to_string() },
        tick(),
    );
    match &effects[0] {
        Effect::Emit { event: AgentEvent::CompressionFailed { error, fallback_action } } => {
            assert_eq!(error, "summarizer unavailable");
            assert_eq!(fallback_action, "Simple message trimming applied");
        }
        other => panic!("expected compression failed, got {:?}", other),
    }
    let history = agent.conversation_history();
    assert_eq!(history.len(), 50);
    assert_eq!(history[0].role, MessageRole::System);
    assert_eq!(history[49].get_text(), Some("t".to_string()));
    assert!(matches!(effects.last(), Some(Effect::CallModel { .. })));
}

#[test]
fn dangling_tool_use_is_repaired_at_the_next_task() {
    let mut agent = engine(5, vec![ToolDescriptor::named("bash")]);
    agent.start_task("one", ".", &parts(), null(), tick());
    let input = unchanged(&agent);
    agent.handle(input, tick());
    agent.handle(reply_with(vec![tool_use("a", "bash"), tool_use("b", "bash")]), tick());
    // interrupted while the first tool runs
    let effects = agent.handle(
        Input::ToolFinished { result: ToolResult::success("a".to_string(), "x".to_string()) },
        cancelled(),
    );
    assert_eq!(finish_of(&effects).unwrap().final_result, "Execution interrupted");
    assert_eq!(
        roles(&agent),
        vec![MessageRole::System, MessageRole::User, MessageRole::Assistant]
    );

    agent.start_task("two", ".", &parts(), null(), tick());
    assert_eq!(
        roles(&agent),
        vec![
            MessageRole::System,
            MessageRole::User,
            MessageRole::Assistant,
            MessageRole::Tool,
            MessageRole::Tool,
            MessageRole::User
        ]
    );
    let synthesized: Vec<String> = agent.conversation_history()[3..5]
        .iter()
        .map(|m| match &m.content {
            MessageContent::MultiModal(blocks) => match &blocks[0] {
                ContentBlock::ToolResult { tool_use_id, is_error, content } => {
                    assert_eq!(*is_error, Some(true));
                    assert_eq!(content, "Previous task interrupted or incomplete");
                    tool_use_id.clone()
                }
                _ => panic!("not a tool result"),
            },
            _ => panic!("not multi-part"),
        })
        .collect();
    assert_eq!(synthesized, vec!["a".to_string(), "b".to_string()]);
}

#[test]
fn system_prompt_is_injected_only_without_a_leading_system_message() {
    let mut agent = engine(5, vec![ToolDescriptor::named("bash"), ToolDescriptor::named("task_done")]);
    agent
        .restore_from_history(vec![LlmMessage::user("earlier"), LlmMessage::assistant("reply")])
        .unwrap();
    agent.start_task("t", ".", &parts(), null(), tick());
    let input = unchanged(&agent);
    let effects = agent.handle(input, tick());
    match effects.last() {
        Some(Effect::CallModel { messages }) => {
            assert_eq!(messages.len(), 4);
            assert_eq!(messages[0].role, MessageRole::System);
            assert_eq!(
                messages[0].get_text(),
                Some("DEFAULT PROMPT\n\nAvailable tools: bash, task_done".to_string())
            );
        }
        other => panic!("expected a model call, got {:?}", other),
    }
    // the stored history is not changed by the injection
    assert_eq!(agent.conversation_history().len(), 3);

    let mut fresh = engine(5, Vec::new());
    fresh.start_task("t", ".", &parts(), null(), tick());
    let input = unchanged(&fresh);
    let effects = fresh.handle(input, tick());
    match effects.last() {
        Some(Effect::CallModel { messages }) => {
            assert_eq!(messages.len(), 2);
            assert_eq!(messages[0].role, MessageRole::System);
        }
        other => panic!("expected a model call, got {:?}", other),
    }
}

#[test]
fn test_custom_system_prompt_excludes_project_context() {
    let parts = PromptParts {
        default_prompt: "You are an expert AI software engineering agent\nProject root path: /some/project/path\nIMPORTANT: When using tools that require file paths".to_string(),
        system_context: "System Information:\nOperating System: linux".to_string(),
    };
    let tools: Vec<ToolDescriptor> = AgentConfig::default()
        .tools
        .iter()
        .map(|name| ToolDescriptor::named(name))
        .collect();
    let system_prompt = compose_system_prompt(
        &Some("You are a general purpose AI assistant.".to_string()),
        &parts,
        &tools,
    );

    assert!(system_prompt.contains("You are a general purpose AI assistant."));
    assert!(system_prompt.contains("System Information:"));
    assert!(system_prompt.contains("Operating System:"));
    assert!(system_prompt.contains("Available tools:"));
    assert!(!system_prompt.contains("Project root path"));
    assert!(!system_prompt.contains("/some/project/path"));
    assert!(!system_prompt.contains("IMPORTANT: When using tools that require file paths"));
    assert!(!system_prompt.contains("You are an expert AI software engineering agent"));
    assert_eq!(
        system_prompt,
        "You are a general purpose AI assistant.\n\n[System Context]:\nSystem Information:\nOperating System: linux\n\nAvailable tools: bash, str_replace_based_edit_tool, sequentialthinking, task_done"
    );
}

#[test]
fn recording_adds_trajectory_entries_in_order() {
    let mut agent = engine(1, vec![ToolDescriptor::named("task_done")]);
    agent.set_recording(true);
    let mut kinds = Vec::new();
    let mut note = |effects: &[Effect]| {
        for e in effects {
            if let Effect::Record { entry, step } = e {
                let name = match entry {
                    EntryType::TaskStart { .. } => "task_start",
                    EntryType::LlmRequest { .. } => "llm_request",
                    EntryType::LlmResponse { .. } => "llm_response",
                    EntryType::ToolCall { .. } => "tool_call",
                    EntryType::ToolResult { .. } => "tool_result",
                    EntryType::StepComplete { .. } => "step_complete",
                    EntryType::Error { .. } => "error",
                    EntryType::TaskComplete { .. } => "task_complete",
                };
                kinds.push((name, *step));
            }
        }
    };
    let effects = agent.start_task("t", ".", &parts(), serde_json::Value::Bool(true), tick());
    note(&effects);
    let input = unchanged(&agent);
    let effects = agent.handle(input, tick());
    note(&effects);
    let effects = agent.handle(reply_with(vec![tool_use("a", "task_done")]), tick());
    note(&effects);
    let effects = agent.handle(
        Input::ToolFinished { result: ToolResult::success("a".to_string(), "ok".to_string()) },
        tick(),
    );
    note(&effects);
    assert_eq!(
        kinds,
        vec![
            ("task_start", 0),
            ("llm_request", 1),
            ("llm_response", 1),
            ("tool_call", 1),
            ("tool_result", 1),
            ("step_complete", 1),
            ("task_complete", 1),
        ]
    );
}

#[test]
fn restore_is_refused_while_a_task_runs() {
    let mut agent = engine(5, Vec::new());
    agent.start_task("t", ".", &parts(), null(), tick());
    assert_eq!(agent.restore_from_history(Vec::new()), Err(EngineError::Busy));
    let snapshot = agent.export_context_snapshot().unwrap();
    assert_eq!(agent.restore_context_from_snapshot(snapshot), Err(EngineError::Busy));
    assert_eq!(agent.conversation_history().len(), 2);
}

#[test]
fn export_then_restore_reproduces_history_and_context() {
    let mut agent = engine(1, Vec::new());
    agent.set_system_prompt(Some("custom".to_string()));
    agent.start_task("goal", "/p", &parts(), null(), tick());
    let input = unchanged(&agent);
    agent.handle(input, tick());
    agent.handle(reply_text("answer"), Tick { cancelled: false, elapsed_ms: 123 });
    assert!(agent.is_idle());
    let snapshot = agent.export_context_snapshot().unwrap();
    assert_eq!(snapshot.version, 1);
    assert_eq!(snapshot.agent_type, "coro_agent");
    assert_eq!(snapshot.agent_type, agent.agent_type());

    let mut other = engine(9, Vec::new());
    other.restore_context_from_snapshot(snapshot).unwrap();
    assert_eq!(other.config().max_steps, 1);
    assert_eq!(other.get_configured_system_prompt(), Some(&"custom".to_string()));
    assert_eq!(roles(&other), roles(&agent));
    for (a, b) in other.conversation_history().iter().zip(agent.conversation_history()) {
        assert_eq!(a.get_text(), b.get_text());
    }
    let restored = other.execution_context().as_ref().unwrap();
    assert_eq!(restored.original_goal, "goal");
    assert_eq!(restored.current_task, "goal");
    assert_eq!(restored.project_path, "/p");
    assert_eq!(restored.current_step, 1);
    assert_eq!(restored.execution_time_ms, 123);
}

#[test]
fn restore_without_config_keeps_the_current_one() {
    let mut agent = engine(7, Vec::new());
    let mut snapshot = engine(3, Vec::new()).export_context_snapshot().unwrap();
    snapshot.config = None;
    snapshot.conversation_history = vec![LlmMessage::user("kept")];
    agent.restore_context_from_snapshot(snapshot).unwrap();
    assert_eq!(agent.config().max_steps, 7);
    assert_eq!(agent.conversation_history().len(), 1);
    assert!(agent.execution_context().is_none());
}

#[test]
fn restore_from_history_discards_the_context() {
    let mut agent = engine(1, Vec::new());
    agent.start_task("goal", ".", &parts(), null(), tick());
    let input = unchanged(&agent);
    agent.handle(input, tick());
    agent.handle(reply_text("answer"), tick());
    assert!(agent.execution_context().is_some());
    agent.restore_from_history(vec![LlmMessage::user("only")]).unwrap();
    assert!(agent.execution_context().is_none());
    assert_eq!(agent.conversation_history().len(), 1);
}

#[test]
fn controller_can_be_swapped_between_tasks() {
    let (old, old_registration) = AbortController::new();
    let config = AgentConfig::default();
    let mut agent =
        AgentCore::new(config, Vec::new(), "m".to_string(), "p".to_string(), Some(old.clone()));
    assert!(!agent.is_cancelled());
    let (new, _) = AbortController::new();
    agent.set_abort_controller(new.clone());
    old.cancel();
    // the old signal still reaches its own registrations, not the engine's new one
    assert!(old_registration.is_cancelled());
    assert!(!agent.is_cancelled());
    agent.cancel();
    assert!(new.is_cancelled());
    assert!(agent.is_cancelled());
}

#[test]
fn unexpected_inputs_are_not_accepted() {
    let mut agent = engine(5, Vec::new());
    assert!(!agent.accepts(&reply_text("x")));
    agent.start_task("t", ".", &parts(), null(), tick());
    assert!(!agent.accepts(&reply_text("x")));
    assert!(agent.accepts(&Input::CompressionFailed { error: "e".to_string() }));
    let input = unchanged(&agent);
    assert!(agent.accepts(&input));
    agent.handle(input, tick());
    assert!(agent.accepts(&reply_text("x")));
    assert!(agent.accepts(&Input::ModelFailed { error: "e".to_string() }));
    assert!(!agent.accepts(&Input::Confirmed { outcome: ConfirmationOutcome::Approved }));
    assert!(!agent.accepts(&Input::ToolFailed { error: "e".to_string() }));
}

#[test]
fn test_tool_execution_error_handling() {
    // the model asks for a tool that fails, then answers in text once a tool result is there
    fn model(messages: &[LlmMessage]) -> Input {
        let has_tool_result = messages.iter().any(|msg| matches!(msg.role, MessageRole::Tool));
        if has_tool_result {
            Input::ModelReplied {
                response: LlmResponse {
                    message: LlmMessage {
                        role: MessageRole::Assistant,
                        content: MessageContent::Text(
                            "Understood, the tool execution failed but I can continue."
                                .to_string(),
                        ),
                        metadata: None,
                    },
                    usage: None,
                    model: "test-model".to_string(),
                    finish_reason: None,
                },
            }
        } else {
            let mut input = serde_json::Map::new();
            input.insert(
                "command".to_string(),
                serde_json::Value::String("/nonexistent/command/that/will/fail".to_string()),
            );
            Input::ModelReplied {
                response: LlmResponse {
                    message: LlmMessage {
                        role: MessageRole::Assistant,
                        content: MessageContent::MultiModal(vec![ContentBlock::ToolUse {
                            id: "test_id".to_string(),
                            name: "bash".to_string(),
                            input: serde_json::Value::Object(input),
                        }]),
                        metadata: None,
                    },
                    usage: None,
                    model: "test-model".to_string(),
                    finish_reason: None,
                },
            }
        }
    }

    fn run(agent: &mut AgentCore, task: &str) -> AgentExecution {
        let mut effects = agent.start_task(task, ".", &parts(), null(), tick());
        loop {
            let next = match effects.last() {
                Some(Effect::Compress) => unchanged(agent),
                Some(Effect::CallModel { messages }) => model(messages),
                Some(Effect::RunTool { .. }) => {
                    Input::ToolFailed { error: "No such file or directory".to_string() }
                }
                Some(Effect::Finish { result }) => return result.clone(),
                other => panic!("unexpected request {:?}", other),
            };
            effects = agent.handle(next, tick());
        }
    }

    let agent_config =
        AgentConfig { max_steps: 5, tools: vec!["bash".to_string()], ..Default::default() };
    let mut agent = AgentCore::new(
        agent_config,
        vec![ToolDescriptor::named("bash")],
        "test-model".to_string(),
        "test".to_string(),
        None,
    );

    let result = run(&mut agent, "Test task 1");
    assert!(!result.success);
    assert_eq!(result.steps_executed, 5);

    let has_error_tool_result = agent.conversation_history().iter().any(|msg| {
        if let MessageContent::MultiModal(blocks) = &msg.content {
            blocks.iter().any(|block| {
                if let ContentBlock::ToolResult { content, .. } = block {
                    content.contains("Tool execution failed") || content.contains("error")
                } else {
                    false
                }
            })
        } else {
            false
        }
    });
    assert!(has_error_tool_result, "Should have error tool result in history");

    let result2 = run(&mut agent, "Test task 2");
    assert_eq!(result2.final_result, "Task incomplete after 5 steps");
}

fn tool_use_ids_of(message: &LlmMessage) -> Vec<String> {
    if message.role == MessageRole::Assistant {
        message.tool_use_ids()
    } else {
        Vec::new()
    }
}

fn resolves(message: &LlmMessage, id: &str) -> bool {
    message.role == MessageRole::Tool
        && match &message.content {
            MessageContent::MultiModal(blocks) => blocks.iter().any(|b| {
                matches!(b, ContentBlock::ToolResult { tool_use_id, .. } if tool_use_id == id)
            }),
            MessageContent::Text(_) => false,
        }
}

/// No assistant message is followed by a further one before each of its
/// tool uses has a result.
fn history_is_valid(history: &[LlmMessage]) -> bool {
    for (i, asking) in history.iter().enumerate() {
        for id in tool_use_ids_of(asking) {
            for (j, later) in history.iter().enumerate().skip(i + 1) {
                if later.role == MessageRole::Assistant
                    && !history[i + 1..j].iter().any(|m| resolves(m, &id))
                {
                    return false;
                }
            }
        }
    }
    true
}

#[test]
fn history_stays_valid_over_tasks_with_interruptions() {
    let mut agent = engine(4, vec![ToolDescriptor::named("bash"), ToolDescriptor::named("task_done")]);
    let mut terminal = (0, 0);
    let mut note = |effects: &[Effect], agent: &AgentCore| {
        assert!(history_is_valid(agent.conversation_history()));
        let (c, i) = count_terminal(effects);
        terminal = (terminal.0 + c, terminal.1 + i);
    };

    // task one: interrupted while the first of two tools is in flight
    let e = agent.start_task("one", ".", &parts(), null(), tick());
    note(&e, &agent);
    let input = unchanged(&agent);
    let e = agent.handle(input, tick());
    note(&e, &agent);
    let e = agent.handle(reply_with(vec![tool_use("a", "bash"), tool_use("b", "bash")]), tick());
    note(&e, &agent);
    let e = agent.handle(Input::ToolFailed { error: "x".to_string() }, cancelled());
    note(&e, &agent);
    assert!(agent.is_idle());

    // task two: both tools answered, then a text reply, then the completion signal
    let e = agent.start_task("two", ".", &parts(), null(), tick());
    note(&e, &agent);
    let input = unchanged(&agent);
    let e = agent.handle(input, tick());
    note(&e, &agent);
    let e = agent.handle(reply_with(vec![tool_use("c", "bash"), tool_use("d", "bash")]), tick());
    note(&e, &agent);
    let e = agent.handle(
        Input::ToolFinished { result: ToolResult::success("c".to_string(), "1".to_string()) },
        tick(),
    );
    note(&e, &agent);
    let e = agent.handle(Input::ToolFailed { error: "2".to_string() }, tick());
    note(&e, &agent);
    let e = agent.handle(Input::CompressionFailed { error: "no".to_string() }, tick());
    note(&e, &agent);
    let e = agent.handle(reply_text("thinking aloud"), tick());
    note(&e, &agent);
    let input = unchanged(&agent);
    let e = agent.handle(input, tick());
    note(&e, &agent);
    let e = agent.handle(reply_with(vec![tool_use("e", "task_done")]), tick());
    note(&e, &agent);
    let e = agent.handle(
        Input::ToolFinished { result: ToolResult::success("e".to_string(), "ok".to_string()) },
        tick(),
    );
    note(&e, &agent);
    assert!(agent.is_idle());

    // task three: the dangling completion call is repaired, then the model fails
    let e = agent.start_task("three", ".", &parts(), null(), tick());
    note(&e, &agent);
    let input = unchanged(&agent);
    let e = agent.handle(input, tick());
    note(&e, &agent);
    let e = agent.handle(Input::ModelFailed { error: "down".to_string() }, tick());
    note(&e, &agent);
    assert!(agent.is_idle());

    // three tasks, three terminal events: interrupted, completed, completed (failed)
    assert_eq!(terminal, (2, 1));
    let last_roles = roles(&agent);
    assert_eq!(last_roles.iter().filter(|r| **r == MessageRole::Assistant).count(), 4);
}

#[test]
fn validity_checker_rejects_a_dangling_turn() {
    let dangling = vec![
        LlmMessage::user("u"),
        LlmMessage {
            role: MessageRole::Assistant,
            content: MessageContent::MultiModal(vec![tool_use("a", "bash"), tool_use("b", "bash")]),
            metadata: None,
        },
        LlmMessage::tool_result("a", false, "x"),
        LlmMessage::assistant("next"),
    ];
    assert!(!history_is_valid(&dangling));
    assert!(history_is_valid(&dangling[..3]));
}
