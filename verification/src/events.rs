//! The vocabulary of events an engine reports to its output sink.

use crate::context::{AgentExecutionContext, ContextView, TokenUsage};
use crate::json::clone_json;
use crate::tools::{ToolCall, ToolCallView, ToolResult, ToolResultView};
use vstd::prelude::*;

verus! {

/// How loud a message is.
#[derive(Debug, Clone, Copy, PartialEq, Eq, Structural)]
pub enum MessageLevel {
    Debug,
    Info,
    Normal,
    Warning,
    Error,
}

/// Where a tool run stands.
#[derive(Debug, Clone, Copy, PartialEq, Eq, Structural)]
pub enum ToolExecutionStatus {
    Executing,
    Success,
    Error,
}

/// What the sink is told about a tool run.
#[derive(Debug)]
pub struct ToolExecutionInfo {
    pub execution_id: String,
    pub tool_name: String,
    pub parameters: serde_json::Value,
    pub status: ToolExecutionStatus,
    pub result: Option<ToolResult>,
}

/// Model of a [`ToolExecutionInfo`].
pub ghost struct ToolInfoView {
    pub execution_id: Seq<char>,
    pub tool_name: Seq<char>,
    pub parameters: serde_json::Value,
    pub status: ToolExecutionStatus,
    pub result: Option<ToolResultView>,
}

impl View for ToolExecutionInfo {
    type V = ToolInfoView;

    open spec fn view(&self) -> ToolInfoView {
        ToolInfoView {
            execution_id: self.execution_id@,
            tool_name: self.tool_name@,
            parameters: self.parameters,
            status: self.status,
            result: match self.result {
                Some(r) => Some(r@),
                None => None,
            },
        }
    }
}

/// What the sink is told when the run of `call` starts.
pub open spec fn started_info(call: ToolCallView) -> ToolInfoView {
    ToolInfoView {
        execution_id: call.id,
        tool_name: call.name,
        parameters: call.parameters,
        status: ToolExecutionStatus::Executing,
        result: None,
    }
}

/// What the sink is told when the run of `call` ended with `result`.
pub open spec fn completed_info(call: ToolCallView, result: ToolResultView) -> ToolInfoView {
    ToolInfoView {
        execution_id: call.id,
        tool_name: call.name,
        parameters: call.parameters,
        status: if result.success {
            ToolExecutionStatus::Success
        } else {
            ToolExecutionStatus::Error
        },
        result: Some(result),
    }
}

impl ToolExecutionInfo {
    /// The report of a run that is starting.
    pub fn started(call: &ToolCall) -> (r: Self)
        ensures
            r@ == started_info(call@),
    {
        ToolExecutionInfo {
            execution_id: call.id.clone(),
            tool_name: call.name.clone(),
            parameters: clone_json(&call.parameters),
            status: ToolExecutionStatus::Executing,
            result: None,
        }
    }

    /// The report of a run that ended.
    pub fn completed(call: &ToolCall, result: &ToolResult) -> (r: Self)
        ensures
            r@ == completed_info(call@, result@),
    {
        let status = if result.success {
            ToolExecutionStatus::Success
        } else {
            ToolExecutionStatus::Error
        };
        ToolExecutionInfo {
            execution_id: call.id.clone(),
            tool_name: call.name.clone(),
            parameters: clone_json(&call.parameters),
            status,
            result: Some(result.clone()),
        }
    }
}

/// An event reported to the output sink.
#[derive(Debug)]
#[allow(inconsistent_fields)]
pub enum AgentEvent {
    ExecutionStarted { context: AgentExecutionContext },
    ExecutionCompleted { context: AgentExecutionContext, success: bool, summary: String },
    ExecutionInterrupted { context: AgentExecutionContext, reason: String },
    StepStarted { step_number: usize, task: String },
    StepCompleted { step_number: usize, task: String },
    ToolExecutionStarted { tool_info: ToolExecutionInfo },
    ToolExecutionUpdated { tool_info: ToolExecutionInfo },
    ToolExecutionCompleted { tool_info: ToolExecutionInfo },
    AgentThinking { step_number: usize, thinking: String },
    TokenUsageUpdated { token_usage: TokenUsage },
    StatusUpdate { status: String },
    Message { level: MessageLevel, content: String },
    CompressionStarted { level: String, current_tokens: u32, target_tokens: u32, reason: String },
    CompressionCompleted {
        summary: String,
        tokens_saved: u32,
        messages_before: usize,
        messages_after: usize,
    },
    CompressionFailed { error: String, fallback_action: String },
}

/// Model of an [`AgentEvent`].
#[allow(inconsistent_fields)]
pub ghost enum EventView {
    ExecutionStarted { context: ContextView },
    ExecutionCompleted { context: ContextView, success: bool, summary: Seq<char> },
    ExecutionInterrupted { context: ContextView, reason: Seq<char> },
    StepStarted { step_number: usize, task: Seq<char> },
    StepCompleted { step_number: usize, task: Seq<char> },
    ToolExecutionStarted { tool_info: ToolInfoView },
    ToolExecutionUpdated { tool_info: ToolInfoView },
    ToolExecutionCompleted { tool_info: ToolInfoView },
    AgentThinking { step_number: usize, thinking: Seq<char> },
    TokenUsageUpdated { token_usage: TokenUsage },
    StatusUpdate { status: Seq<char> },
    Message { level: MessageLevel, content: Seq<char> },
    CompressionStarted {
        level: Seq<char>,
        current_tokens: u32,
        target_tokens: u32,
        reason: Seq<char>,
    },
    CompressionCompleted {
        summary: Seq<char>,
        tokens_saved: u32,
        messages_before: usize,
        messages_after: usize,
    },
    CompressionFailed { error: Seq<char>, fallback_action: Seq<char> },
}

impl View for AgentEvent {
    type V = EventView;

    open spec fn view(&self) -> EventView {
        match *self {
            AgentEvent::ExecutionStarted { context } => EventView::ExecutionStarted {
                context: context@,
            },
            AgentEvent::ExecutionCompleted { context, success, summary } => {
                EventView::ExecutionCompleted { context: context@, success, summary: summary@ }
            },
            AgentEvent::ExecutionInterrupted { context, reason } => {
                EventView::ExecutionInterrupted { context: context@, reason: reason@ }
            },
            AgentEvent::StepStarted { step_number, task } => EventView::StepStarted {
                step_number,
                task: task@,
            },
            AgentEvent::StepCompleted { step_number, task } => EventView::StepCompleted {
                step_number,
                task: task@,
            },
            AgentEvent::ToolExecutionStarted { tool_info } => EventView::ToolExecutionStarted {
                tool_info: tool_info@,
            },
            AgentEvent::ToolExecutionUpdated { tool_info } => EventView::ToolExecutionUpdated {
                tool_info: tool_info@,
            },
            AgentEvent::ToolExecutionCompleted { tool_info } => EventView::ToolExecutionCompleted {
                tool_info: tool_info@,
            },
            AgentEvent::AgentThinking { step_number, thinking } => EventView::AgentThinking {
                step_number,
                thinking: thinking@,
            },
            AgentEvent::TokenUsageUpdated { token_usage } => EventView::TokenUsageUpdated {
                token_usage,
            },
            AgentEvent::StatusUpdate { status } => EventView::StatusUpdate { status: status@ },
            AgentEvent::Message { level, content } => EventView::Message {
                level,
                content: content@,
            },
            AgentEvent::CompressionStarted { level, current_tokens, target_tokens, reason } => {
                EventView::CompressionStarted {
                    level: level@,
                    current_tokens,
                    target_tokens,
                    reason: reason@,
                }
            },
            AgentEvent::CompressionCompleted {
                summary,
                tokens_saved,
                messages_before,
                messages_after,
            } => EventView::CompressionCompleted {
                summary: summary@,
                tokens_saved,
                messages_before,
                messages_after,
            },
            AgentEvent::CompressionFailed { error, fallback_action } => {
                EventView::CompressionFailed { error: error@, fallback_action: fallback_action@ }
            },
        }
    }
}

impl EventView {
    /// Whether the event ends a task invocation.
    pub open spec fn is_terminal(self) -> bool {
        self is ExecutionCompleted || self is ExecutionInterrupted
    }
}

impl AgentEvent {
    /// Whether the event ends a task invocation.
    pub fn is_terminal(&self) -> (r: bool)
        ensures
            r == self@.is_terminal(),
    {
        match self {
            AgentEvent::ExecutionCompleted { .. } => true,
            AgentEvent::ExecutionInterrupted { .. } => true,
            _ => false,
        }
    }
}

} // verus!
