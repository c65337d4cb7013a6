//! The engine's reactions as functions of its state: what the history,
//! the context and the phase become, and which effects are asked for.

use crate::compression::SummaryView;
use crate::context::{entered, ContextView, ExecutionView, Usage};
use crate::effects::{ConfirmationOutcome, EffectView, InputView, RequestView, ResponseView, Tick};
use crate::engine::{system_prompt_text, EngineView, Phase};
use crate::events::{completed_info, started_info, EventView, MessageLevel};
use crate::history::{outbound, repaired, trimmed, FALLBACK_MAX_MESSAGES};
use crate::message::{BlockView, ContentView, MessageRole, MessageView};
use crate::text::{decimal, is_blank};
use crate::tools::{
    needs_confirmation, signals_completion, streams_thoughts, thought_of, ToolCallView,
    ToolResultView,
};
use crate::trajectory::EntryTypeView;
use vstd::prelude::*;

verus! {

/// A reaction: the state after it and the effects it asks for, in order.
pub ghost struct Outcome {
    pub state: EngineView,
    pub effects: Seq<EffectView>,
}

/// How a task ends.
pub ghost enum Ending {
    /// A completion-signal tool succeeded.
    Completed,
    /// The steps ran out.
    Incomplete,
    /// The stop signal was observed.
    Interrupted,
    /// The model call failed.
    Failed { error: Seq<char> },
}

/// The summary of a completed task.
pub open spec fn completed_text() -> Seq<char> {
    "Task completed successfully"@
}

/// The summary of a task that ran out of steps.
pub open spec fn incomplete_text(step: usize) -> Seq<char> {
    "Task incomplete after "@ + decimal(step as nat) + " steps"@
}

/// The summary of a task whose model call failed.
pub open spec fn failed_text(step: usize, error: Seq<char>) -> Seq<char> {
    "Error in step "@ + decimal(step as nat) + ": "@ + error
}

/// The result text of an interrupted task.
pub open spec fn interrupted_text() -> Seq<char> {
    "Execution interrupted"@
}

/// The reason reported with an interruption.
pub open spec fn interrupted_reason() -> Seq<char> {
    "Execution interrupted by user"@
}

/// The label of a step.
pub open spec fn step_label(step: usize) -> Seq<char> {
    "Step "@ + decimal(step as nat)
}

/// The description recorded when a step is done.
pub open spec fn step_done_text(step: usize) -> Seq<char> {
    "Step "@ + decimal(step as nat) + " completed"@
}

/// The content of the result that stands for a tool run the user refused.
pub open spec fn refused_text() -> Seq<char> {
    "Execution cancelled by user"@
}

/// The content of the result that stands for a tool run that failed.
pub open spec fn tool_failed_text(error: Seq<char>) -> Seq<char> {
    "Tool execution failed: "@ + error
}

/// The message reported when the model call failed.
pub open spec fn model_failed_text(error: Seq<char>) -> Seq<char> {
    "LLM request failed: "@ + error
}

/// What is reported as done when compression failed.
pub open spec fn fallback_text() -> Seq<char> {
    "Simple message trimming applied"@
}

/// The reason reported with a compression.
pub open spec fn compression_reason(level: Seq<char>) -> Seq<char> {
    "Token usage requires "@ + level + " compression"@
}

/// The request for approval of a tool call.
pub open spec fn request_for(call: ToolCallView) -> RequestView {
    RequestView {
        id: call.id,
        title: "Execute tool: "@ + call.name,
        message: "This tool requires confirmation before execution."@,
        tool_name: call.name,
        parameters: call.parameters,
    }
}

/// The tool call a tool-use block asks for.
pub open spec fn call_of(block: BlockView) -> ToolCallView
    recommends
        block is ToolUse,
{
    ToolCallView {
        id: block->ToolUse_id,
        name: block->ToolUse_name,
        parameters: block->ToolUse_input,
    }
}

/// A plain text message.
pub open spec fn text_message(role: MessageRole, text: Seq<char>) -> MessageView {
    MessageView { role, content: ContentView::Text(text), metadata: None }
}

/// The tool message that carries the result of a tool call into the
/// history.
pub open spec fn result_message(call: ToolCallView, result: ToolResultView) -> MessageView {
    MessageView {
        role: MessageRole::Tool,
        content: ContentView::MultiModal(
            seq![
                BlockView::ToolResult {
                    tool_use_id: call.id,
                    is_error: Some(!result.success),
                    content: result.content,
                },
            ],
        ),
        metadata: None,
    }
}

/// The error result that stands for a tool run that did not happen or
/// did not end well.
pub open spec fn error_result(call: ToolCallView, content: Seq<char>) -> ToolResultView {
    ToolResultView { tool_call_id: call.id, success: false, content, data: None }
}

/// One trajectory entry, where the engine records; nothing otherwise.
pub open spec fn recorded(recording: bool, entry: EntryTypeView, step: usize) -> Seq<EffectView> {
    if recording {
        seq![EffectView::Record { entry, step }]
    } else {
        Seq::empty()
    }
}

/// The events that report an applied compression.
pub open spec fn compression_events(summary: Option<SummaryView>) -> Seq<EffectView> {
    match summary {
        Some(s) => seq![
            EffectView::Emit {
                event: EventView::CompressionStarted {
                    level: s.level.name(),
                    current_tokens: s.tokens_before,
                    target_tokens: s.tokens_after,
                    reason: compression_reason(s.level.name()),
                },
            },
            EffectView::Emit {
                event: EventView::CompressionCompleted {
                    summary: s.summary,
                    tokens_saved: s.tokens_saved,
                    messages_before: s.messages_before,
                    messages_after: s.messages_after,
                },
            },
        ],
        None => Seq::empty(),
    }
}

impl EngineView {
    /// The tool call being worked on.
    pub open spec fn current_call(self) -> ToolCallView
        recommends
            self.next < self.pending.len(),
    {
        self.pending[self.next as int]
    }

    /// The end of a task: the context takes the step count and the
    /// elapsed time, the engine goes idle, and exactly one terminal event
    /// is reported before the result is handed out.
    pub open spec fn ended(self, ending: Ending, tick: Tick) -> Outcome {
        let context = ContextView {
            current_step: self.step,
            execution_time_ms: tick.elapsed_ms,
            ..self.context.unwrap()
        };
        let state = EngineView {
            context: Some(context),
            phase: Phase::Idle,
            pending: Seq::empty(),
            next: 0,
            ..self
        };
        let summary = match ending {
            Ending::Completed => completed_text(),
            Ending::Incomplete => incomplete_text(self.step),
            Ending::Interrupted => incomplete_text(self.step),
            Ending::Failed { error } => failed_text(self.step, error),
        };
        let journal = match ending {
            Ending::Failed { .. } => Seq::empty(),
            _ => recorded(
                self.recording,
                EntryTypeView::TaskComplete {
                    success: ending is Completed,
                    summary,
                    total_steps: self.step,
                    duration_ms: tick.elapsed_ms,
                },
                self.step,
            ),
        };
        let event = match ending {
            Ending::Interrupted => EventView::ExecutionInterrupted {
                context,
                reason: interrupted_reason(),
            },
            _ => EventView::ExecutionCompleted { context, success: ending is Completed, summary },
        };
        let result = ExecutionView {
            success: ending is Completed,
            final_result: match ending {
                Ending::Interrupted => interrupted_text(),
                _ => summary,
            },
            steps_executed: self.step,
            duration_ms: tick.elapsed_ms,
        };
        Outcome {
            state,
            effects: journal + seq![EffectView::Emit { event }, EffectView::Finish { result }],
        }
    }

    /// The head of the step loop: with steps left, an observed stop signal
    /// ends the task and otherwise the conversation manager is asked;
    /// with none left, the task ends incomplete.
    pub open spec fn loop_head(self, tick: Tick) -> Outcome {
        if self.step < self.config.max_steps {
            if tick.cancelled {
                self.ended(Ending::Interrupted, tick)
            } else {
                Outcome {
                    state: EngineView { phase: Phase::Compressing, ..self },
                    effects: seq![EffectView::Compress],
                }
            }
        } else {
            self.ended(Ending::Incomplete, tick)
        }
    }

    /// The end of a step: it is recorded, and then the task ends if a
    /// completion signal was given, or the loop goes on.
    pub open spec fn step_done(self, completed: bool, tick: Tick) -> Outcome {
        let journal = recorded(
            self.recording,
            EntryTypeView::StepComplete { description: step_done_text(self.step), success: true },
            self.step,
        );
        let rest = if completed {
            self.ended(Ending::Completed, tick)
        } else {
            (EngineView { pending: Seq::empty(), next: 0, ..self }).loop_head(tick)
        };
        Outcome { state: rest.state, effects: journal + rest.effects }
    }

    /// The next tool call of the assistant message, if one is left: it is
    /// announced, and then the user is asked where the tool wants that,
    /// and the tool is run otherwise. With none left the step is done.
    pub open spec fn dispatch(self, tick: Tick) -> Outcome {
        if self.next >= self.pending.len() {
            self.step_done(false, tick)
        } else {
            let call = self.current_call();
            let announced = seq![
                EffectView::Emit {
                    event: EventView::ToolExecutionStarted { tool_info: started_info(call) },
                },
            ] + recorded(self.recording, EntryTypeView::ToolCall { call }, self.step);
            if needs_confirmation(self.tools, call.name) {
                Outcome {
                    state: EngineView { phase: Phase::Confirming, ..self },
                    effects: announced + seq![EffectView::Confirm { request: request_for(call) }],
                }
            } else {
                Outcome {
                    state: EngineView { phase: Phase::Running, ..self },
                    effects: announced + seq![EffectView::RunTool { call }],
                }
            }
        }
    }

    /// What is reported of a tool call's result: the completion of the
    /// run, a thought the result carries where the tool streams thoughts,
    /// and the entry for the trajectory.
    pub open spec fn result_effects(self, result: ToolResultView) -> Seq<EffectView> {
        let call = self.current_call();
        let reported = seq![
            EffectView::Emit {
                event: EventView::ToolExecutionCompleted {
                    tool_info: completed_info(call, result),
                },
            },
        ];
        let thought = if streams_thoughts(self.tools, call.name) && thought_of(result).is_some() {
            seq![
                EffectView::Emit {
                    event: EventView::AgentThinking {
                        step_number: self.step,
                        thinking: thought_of(result).unwrap(),
                    },
                },
            ]
        } else {
            Seq::empty()
        };
        reported + thought + recorded(
            self.recording,
            EntryTypeView::ToolResult { result },
            self.step,
        )
    }

    /// A tool call has its result: it is reported and recorded. A success
    /// of a completion-signal tool ends the task there; any other result
    /// goes into the history, and the next call is taken up.
    pub open spec fn settle(self, result: ToolResultView, tick: Tick) -> Outcome {
        let call = self.current_call();
        let rest = if signals_completion(self.tools, call.name) && result.success {
            self.step_done(true, tick)
        } else {
            (EngineView {
                history: self.history.push(result_message(call, result)),
                next: self.next + 1,
                ..self
            }).dispatch(tick)
        };
        Outcome { state: rest.state, effects: self.result_effects(result) + rest.effects }
    }

    /// The entry of a task: the context is established, the start is
    /// reported and recorded, an empty history gets the system prompt, a
    /// dangling assistant turn is repaired, the user's turn is appended,
    /// and the step loop begins.
    pub open spec fn begin(
        self,
        task: Seq<char>,
        project_path: Seq<char>,
        default_prompt: Seq<char>,
        system_context: Seq<char>,
        config_json: serde_json::Value,
        tick: Tick,
    ) -> Outcome {
        let context = entered(self.context, task, project_path, self.config.max_steps);
        let prompt = system_prompt_text(
            self.config.system_prompt,
            default_prompt,
            system_context,
            self.tools,
        );
        let seeded = if self.history.len() == 0 {
            seq![text_message(MessageRole::System, prompt)]
        } else {
            self.history
        };
        let history = repaired(seeded).push(text_message(MessageRole::User, task));
        let state = EngineView {
            context: Some(context),
            history,
            step: 0,
            system_prompt: prompt,
            pending: Seq::empty(),
            next: 0,
            ..self
        };
        let announced = seq![EffectView::Emit { event: EventView::ExecutionStarted { context } }]
            + recorded(
            self.recording,
            EntryTypeView::TaskStart { task, agent_config: config_json },
            0,
        );
        let rest = state.loop_head(tick);
        Outcome { state: rest.state, effects: announced + rest.effects }
    }

    /// The beginning of a step: an observed stop signal ends the task;
    /// otherwise the step is counted and the model is called with the
    /// outbound messages.
    pub open spec fn begin_step(self, tick: Tick) -> Outcome {
        if tick.cancelled {
            self.ended(Ending::Interrupted, tick)
        } else {
            let step = (self.step + 1) as usize;
            let messages = outbound(self.history, self.system_prompt);
            Outcome {
                state: EngineView { step, phase: Phase::Thinking, ..self },
                effects: recorded(
                    self.recording,
                    EntryTypeView::LlmRequest {
                        messages,
                        model: self.model_name,
                        provider: self.provider_name,
                    },
                    step,
                ) + seq![EffectView::CallModel { messages }],
            }
        }
    }

    /// What is reported of the conversation manager's outcome: the
    /// compression it applied, or its failure and the fallback.
    pub open spec fn compression_report(self, input: InputView) -> Seq<EffectView> {
        match input {
            InputView::Compressed { result } => compression_events(result.compression_applied),
            InputView::CompressionFailed { error } => seq![
                EffectView::Emit {
                    event: EventView::CompressionFailed { error, fallback_action: fallback_text() },
                },
            ],
            _ => Seq::empty(),
        }
    }

    /// The engine with the history the conversation manager left: its
    /// messages, or the trimmed history where it failed.
    pub open spec fn compression_kept(self, input: InputView) -> EngineView {
        EngineView {
            history: match input {
                InputView::Compressed { result } => result.messages,
                InputView::CompressionFailed { .. } => trimmed(
                    self.history,
                    FALLBACK_MAX_MESSAGES as nat,
                ),
                _ => self.history,
            },
            ..self
        }
    }

    /// The reaction to the conversation manager: its messages replace the
    /// history and a compression it applied is reported; where it failed,
    /// the history is trimmed and the failure reported. Then the next
    /// step begins.
    pub open spec fn after_compression(self, input: InputView, tick: Tick) -> Outcome
        recommends
            input is Compressed || input is CompressionFailed,
    {
        let rest = self.compression_kept(input).begin_step(tick);
        Outcome { state: rest.state, effects: self.compression_report(input) + rest.effects }
    }

    /// The context after the token counts of a model call were added.
    pub open spec fn with_usage(self, usage: Option<Usage>) -> Option<ContextView> {
        match (usage, self.context) {
            (Some(u), Some(c)) => Some(ContextView { token_usage: c.token_usage.plus(u), ..c }),
            _ => self.context,
        }
    }

    /// The reaction to the model: an observed stop signal ends the task
    /// and the reply is dropped. A failure is reported and ends the task
    /// as failed. A reply updates the token counts, is recorded and goes
    /// into the history; its tool calls are taken up in the order given,
    /// or else its text is shown and the step is done.
    pub open spec fn after_model(self, input: InputView, tick: Tick) -> Outcome
        recommends
            input is ModelReplied || input is ModelFailed,
    {
        if tick.cancelled {
            self.ended(Ending::Interrupted, tick)
        } else {
            match input {
                InputView::ModelReplied { response } => self.after_reply(response, tick),
                InputView::ModelFailed { error } => {
                    let rest = self.ended(Ending::Failed { error }, tick);
                    Outcome {
                        state: rest.state,
                        effects: self.failure_effects(error) + rest.effects,
                    }
                },
                _ => Outcome { state: self, effects: Seq::empty() },
            }
        }
    }

    /// What is reported of a reply before it is acted on: the new token
    /// counts, where the reply has any, and the entry for the trajectory.
    pub open spec fn reply_effects(self, response: ResponseView) -> Seq<EffectView> {
        let counted = if response.usage.is_some() && self.context.is_some() {
            seq![
                EffectView::Emit {
                    event: EventView::TokenUsageUpdated {
                        token_usage: self.with_usage(response.usage).unwrap().token_usage,
                    },
                },
            ]
        } else {
            Seq::empty()
        };
        counted + recorded(
            self.recording,
            EntryTypeView::LlmResponse {
                message: response.message,
                usage: response.usage,
                finish_reason: response.finish_reason,
            },
            self.step,
        )
    }

    /// The engine with a reply taken in: the token counts are added and
    /// the message stands at the end of the history, its tool calls
    /// pending in the order given.
    pub open spec fn reply_kept(self, response: ResponseView) -> EngineView {
        EngineView {
            context: self.with_usage(response.usage),
            history: self.history.push(response.message),
            pending: response.message.tool_uses().map_values(|b: BlockView| call_of(b)),
            next: 0,
            ..self
        }
    }

    /// What is shown of a reply without tool calls: its text, unless it is
    /// blank.
    pub open spec fn said(message: MessageView) -> Seq<EffectView> {
        match message.text() {
            Some(text) => if is_blank(text) {
                Seq::empty()
            } else {
                seq![
                    EffectView::Emit {
                        event: EventView::Message { level: MessageLevel::Normal, content: text },
                    },
                ]
            },
            None => Seq::empty(),
        }
    }

    /// The reaction to a reply of the model.
    pub open spec fn after_reply(self, response: ResponseView, tick: Tick) -> Outcome {
        let kept = self.reply_kept(response);
        if response.message.has_tool_use() {
            let rest = kept.dispatch(tick);
            Outcome { state: rest.state, effects: self.reply_effects(response) + rest.effects }
        } else {
            let rest = kept.step_done(false, tick);
            Outcome {
                state: rest.state,
                effects: self.reply_effects(response) + Self::said(response.message)
                    + rest.effects,
            }
        }
    }

    /// What is reported of a failed model call.
    pub open spec fn failure_effects(self, error: Seq<char>) -> Seq<EffectView> {
        seq![
            EffectView::Emit {
                event: EventView::Message {
                    level: MessageLevel::Error,
                    content: model_failed_text(error),
                },
            },
        ] + recorded(
            self.recording,
            EntryTypeView::Error { error, context: Some(step_label(self.step)) },
            self.step,
        )
    }

    /// The reaction to the user's decision: an observed stop signal ends
    /// the task. An approval runs the tool; a refusal, or a request that
    /// failed, stands as an error result of the call.
    pub open spec fn after_confirmation(self, outcome: ConfirmationOutcome, tick: Tick) -> Outcome {
        if tick.cancelled {
            self.ended(Ending::Interrupted, tick)
        } else if outcome == ConfirmationOutcome::Approved {
            Outcome {
                state: EngineView { phase: Phase::Running, ..self },
                effects: seq![EffectView::RunTool { call: self.current_call() }],
            }
        } else {
            self.settle(error_result(self.current_call(), refused_text()), tick)
        }
    }

    /// The reaction to a tool run: an observed stop signal ends the task.
    /// A failure of the run stands as an error result of the call.
    pub open spec fn after_tool(self, input: InputView, tick: Tick) -> Outcome
        recommends
            input is ToolFinished || input is ToolFailed,
    {
        if tick.cancelled {
            self.ended(Ending::Interrupted, tick)
        } else {
            match input {
                InputView::ToolFinished { result } => self.settle(result, tick),
                InputView::ToolFailed { error } => self.settle(
                    error_result(self.current_call(), tool_failed_text(error)),
                    tick,
                ),
                _ => Outcome { state: self, effects: Seq::empty() },
            }
        }
    }

    /// Whether the input is the outcome of what the engine waits for.
    pub open spec fn expects(self, input: InputView) -> bool {
        match self.phase {
            Phase::Idle => false,
            Phase::Compressing => input is Compressed || input is CompressionFailed,
            Phase::Thinking => input is ModelReplied || input is ModelFailed,
            Phase::Confirming => input is Confirmed,
            Phase::Running => input is ToolFinished || input is ToolFailed,
        }
    }

    /// The reaction to an expected input.
    pub open spec fn react(self, input: InputView, tick: Tick) -> Outcome
        recommends
            self.expects(input),
    {
        match self.phase {
            Phase::Idle => Outcome { state: self, effects: Seq::empty() },
            Phase::Compressing => self.after_compression(input, tick),
            Phase::Thinking => self.after_model(input, tick),
            Phase::Confirming => match input {
                InputView::Confirmed { outcome } => self.after_confirmation(outcome, tick),
                _ => Outcome { state: self, effects: Seq::empty() },
            },
            Phase::Running => self.after_tool(input, tick),
        }
    }
}

/// The end of a task leaves a well-formed idle engine.
pub proof fn lemma_ended_wf(s: EngineView, ending: Ending, tick: Tick)
    requires
        s.context.is_some(),
    ensures
        s.ended(ending, tick).state.wf(),
        s.ended(ending, tick).state.phase == Phase::Idle,
{
}

/// The loop head leaves a well-formed engine.
pub proof fn lemma_loop_head_wf(s: EngineView, tick: Tick)
    requires
        s.context.is_some(),
        s.next <= s.pending.len(),
    ensures
        s.loop_head(tick).state.wf(),
{
}

/// The end of a step leaves a well-formed engine.
pub proof fn lemma_step_done_wf(s: EngineView, completed: bool, tick: Tick)
    requires
        s.context.is_some(),
    ensures
        s.step_done(completed, tick).state.wf(),
{
    lemma_loop_head_wf(EngineView { pending: Seq::empty(), next: 0, ..s }, tick);
}

/// Taking up the next tool call leaves a well-formed engine.
pub proof fn lemma_dispatch_wf(s: EngineView, tick: Tick)
    requires
        s.context.is_some(),
        s.next <= s.pending.len(),
        s.step >= 1,
    ensures
        s.dispatch(tick).state.wf(),
{
    lemma_step_done_wf(s, false, tick);
}

/// Settling a tool call leaves a well-formed engine.
pub proof fn lemma_settle_wf(s: EngineView, result: ToolResultView, tick: Tick)
    requires
        s.context.is_some(),
        s.next < s.pending.len(),
        s.step >= 1,
    ensures
        s.settle(result, tick).state.wf(),
{
    lemma_step_done_wf(s, true, tick);
    lemma_dispatch_wf(
        EngineView {
            history: s.history.push(result_message(s.current_call(), result)),
            next: s.next + 1,
            ..s
        },
        tick,
    );
}

/// Every reaction to an expected input leaves a well-formed engine.
pub proof fn law_react_keeps_wf(s: EngineView, input: InputView, tick: Tick)
    requires
        s.wf(),
        s.expects(input),
    ensures
        s.react(input, tick).state.wf(),
{
    match s.phase {
        Phase::Idle => {},
        Phase::Compressing => {
            lemma_ended_wf(s.compression_kept(input), Ending::Interrupted, tick);
        },
        Phase::Thinking => {
            lemma_ended_wf(s, Ending::Interrupted, tick);
            match input {
                InputView::ModelReplied { response } => {
                    lemma_dispatch_wf(s.reply_kept(response), tick);
                    lemma_step_done_wf(s.reply_kept(response), false, tick);
                },
                InputView::ModelFailed { error } => {
                    lemma_ended_wf(s, Ending::Failed { error }, tick);
                },
                _ => {},
            }
        },
        Phase::Confirming => {
            lemma_ended_wf(s, Ending::Interrupted, tick);
            lemma_settle_wf(s, error_result(s.current_call(), refused_text()), tick);
        },
        Phase::Running => {
            lemma_ended_wf(s, Ending::Interrupted, tick);
            match input {
                InputView::ToolFinished { result } => {
                    lemma_settle_wf(s, result, tick);
                },
                InputView::ToolFailed { error } => {
                    lemma_settle_wf(
                        s,
                        error_result(s.current_call(), tool_failed_text(error)),
                        tick,
                    );
                },
                _ => {},
            }
        },
    }
}

/// The entry of a task leaves a well-formed engine.
pub proof fn law_begin_keeps_wf(
    s: EngineView,
    task: Seq<char>,
    project_path: Seq<char>,
    default_prompt: Seq<char>,
    system_context: Seq<char>,
    config_json: serde_json::Value,
    tick: Tick,
)
    ensures
        s.begin(task, project_path, default_prompt, system_context, config_json, tick).state.wf(),
{
}

} // verus!
