//! The agent execution engine: a state machine that turns the outcomes of
//! model calls, tool runs and confirmations into the next thing to do.
//!
//! The engine performs no outside work itself. A reaction takes the
//! outcome of the effect asked for last, together with what the driver
//! observed of the stop signal and the clock, and returns the effects to
//! perform next. Every reaction is a function of the engine's state and
//! its arguments, stated by [`EngineView::begin`] and
//! [`EngineView::react`].

use crate::cancel::{AbortController, AbortRegistration};
use crate::config::{AgentConfig, ConfigView};
use crate::context::{AgentExecution, AgentExecutionContext, ContextView};
use crate::compression::MaybeCompressedResult;
use crate::effects::{
    effects_view, push_effect, ConfirmationOutcome, ConfirmationRequest, Effect, EffectView, Input,
    LlmResponse, Tick,
};
use crate::events::{AgentEvent, EventView, MessageLevel, ToolExecutionInfo};
use crate::history::{
    clone_messages, fallback_trim, outbound_messages, repair_trailing_tool_uses,
    FALLBACK_MAX_MESSAGES,
};
use crate::json::clone_json;
use crate::machine::{recorded, Ending};
use crate::message::{
    lemma_tool_uses_are_blocks, messages_view, BlockView,
    ContentBlock, LlmMessage, MessageView,
};
use crate::snapshot::{PersistedAgentContext, SnapshotView};
use crate::text::{blank, concat3, decimal_string, join_strings, join_with, opt_view};
use crate::tools::{
    descriptors_view, find_tool, needs_confirmation, signals_completion, streams_thoughts,
    thought_of, thought_text, DescriptorView, ToolCall, ToolCallView, ToolDescriptor, ToolResult,
};
use crate::trajectory::EntryType;
use std::sync::atomic::AtomicBool;
use std::sync::Arc;
use vstd::prelude::*;
use vstd::string::*;

verus! {

/// What the engine waits for.
#[derive(Debug, Clone, Copy, PartialEq, Eq, Structural)]
pub enum Phase {
    /// No task is running.
    Idle,
    /// The outcome of the conversation manager.
    Compressing,
    /// The model's reply.
    Thinking,
    /// The user's decision on the current tool call.
    Confirming,
    /// The result of the current tool call.
    Running,
}

/// The texts of the system prompt that depend on the machine and the
/// project.
#[derive(Debug)]
pub struct PromptParts {
    /// The built-in prompt, with the project's context.
    pub default_prompt: String,
    /// The description of the machine that follows a custom prompt.
    pub system_context: String,
}

/// The names of a list of tools, in order.
pub open spec fn tool_names(tools: Seq<DescriptorView>) -> Seq<Seq<char>> {
    tools.map_values(|t: DescriptorView| t.name)
}

/// The system prompt: the custom prompt followed by the machine's
/// description, or else the built-in prompt; then the tools by name.
pub open spec fn system_prompt_text(
    custom: Option<Seq<char>>,
    default_prompt: Seq<char>,
    system_context: Seq<char>,
    tools: Seq<DescriptorView>,
) -> Seq<char> {
    let base = match custom {
        Some(c) => c + "\n\n[System Context]:\n"@ + system_context,
        None => default_prompt,
    };
    base + "\n\nAvailable tools: "@ + join_with(tool_names(tools), ", "@)
}

/// Composes the system prompt.
pub fn compose_system_prompt(
    custom: &Option<String>,
    parts: &PromptParts,
    tools: &Vec<ToolDescriptor>,
) -> (r: String)
    ensures
        r@ == system_prompt_text(
            opt_view(*custom),
            parts.default_prompt@,
            parts.system_context@,
            descriptors_view(tools@),
        ),
{
    let mut names: Vec<String> = Vec::new();
    let mut i: usize = 0;
    let ghost all = descriptors_view(tools@);
    while i < tools.len()
        invariant
            i <= tools.len(),
            all == descriptors_view(tools@),
            crate::text::strings_view(names@) == tool_names(all).subrange(0, i as int),
        decreases tools.len() - i,
    {
        let ghost before = names@;
        names.push(tools[i].name.clone());
        assert(crate::text::strings_view(names@) =~= crate::text::strings_view(before).push(
            tools@[i as int].name@,
        ));
        assert(crate::text::strings_view(names@) =~= tool_names(all).subrange(0, i + 1));
        i += 1;
    }
    assert(tool_names(all).subrange(0, i as int) =~= tool_names(all));
    let listed = join_strings(&names, ", ");
    let mut out = match custom {
        Some(c) => concat3(c.as_str(), "\n\n[System Context]:\n", parts.system_context.as_str()),
        None => parts.default_prompt.clone(),
    };
    out.append("\n\nAvailable tools: ");
    out.append(listed.as_str());
    out
}

/// Model of an [`AgentCore`].
pub ghost struct EngineView {
    pub config: ConfigView,
    pub tools: Seq<DescriptorView>,
    pub model_name: Seq<char>,
    pub provider_name: Seq<char>,
    /// Whether the engine asks for trajectory entries to be recorded.
    pub recording: bool,
    pub history: Seq<MessageView>,
    pub context: Option<ContextView>,
    pub phase: Phase,
    /// Steps begun in the current task.
    pub step: usize,
    /// The system prompt of the current task.
    pub system_prompt: Seq<char>,
    /// The tool calls of the assistant message being worked off.
    pub pending: Seq<ToolCallView>,
    /// How many of them are done.
    pub next: nat,
    /// The stop signal that the engine's controller sets.
    pub signal: Arc<AtomicBool>,
    /// The stop signal that the engine polls.
    pub watched: Arc<AtomicBool>,
}

impl EngineView {
    /// What holds of every engine between reactions.
    pub open spec fn wf(self) -> bool {
        &&& self.next <= self.pending.len()
        &&& (self.phase == Phase::Confirming || self.phase == Phase::Running) ==> self.next
            < self.pending.len()
        &&& self.phase != Phase::Idle ==> self.context.is_some()
        &&& self.phase == Phase::Thinking ==> self.step >= 1
        &&& (self.phase == Phase::Confirming || self.phase == Phase::Running) ==> self.step >= 1
        &&& self.phase == Phase::Compressing ==> self.step < self.config.max_steps
    }
}

/// The engine of one agent. It owns the conversation history, the
/// execution context and the configuration.
pub struct AgentCore {
    config: AgentConfig,
    tools: Vec<ToolDescriptor>,
    model_name: String,
    provider_name: String,
    recording: bool,
    conversation_history: Vec<LlmMessage>,
    execution_context: Option<AgentExecutionContext>,
    abort_controller: AbortController,
    abort_registration: AbortRegistration,
    phase: Phase,
    step: usize,
    system_prompt: String,
    pending: Vec<ToolCall>,
    next: usize,
}

/// The models of a list of tool calls, in order.
pub open spec fn calls_view(calls: Seq<ToolCall>) -> Seq<ToolCallView> {
    calls.map_values(|c: ToolCall| c@)
}

impl View for AgentCore {
    type V = EngineView;

    closed spec fn view(&self) -> EngineView {
        EngineView {
            config: self.config@,
            tools: descriptors_view(self.tools@),
            model_name: self.model_name@,
            provider_name: self.provider_name@,
            recording: self.recording,
            history: crate::message::messages_view(self.conversation_history@),
            context: crate::context::opt_context_view(self.execution_context),
            phase: self.phase,
            step: self.step,
            system_prompt: self.system_prompt@,
            pending: calls_view(self.pending@),
            next: self.next as nat,
            signal: self.abort_controller.signal(),
            watched: self.abort_registration.signal(),
        }
    }
}

spec fn decimal_view(step: usize) -> Seq<char> {
    crate::text::decimal(step as nat)
}

/// How a task ends.
enum Finale {
    Completed,
    Incomplete,
    Interrupted,
    Failed { error: String },
}

impl View for Finale {
    type V = Ending;

    closed spec fn view(&self) -> Ending {
        match *self {
            Finale::Completed => Ending::Completed,
            Finale::Incomplete => Ending::Incomplete,
            Finale::Interrupted => Ending::Interrupted,
            Finale::Failed { error } => Ending::Failed { error: error@ },
        }
    }
}

fn incomplete_summary(step: usize) -> (r: String)
    ensures
        r@ == crate::machine::incomplete_text(step),
{
    let number = decimal_string(step);
    concat3("Task incomplete after ", number.as_str(), " steps")
}

fn failed_summary(step: usize, error: &str) -> (r: String)
    ensures
        r@ == crate::machine::failed_text(step, error@),
{
    let number = decimal_string(step);
    let mut out = concat3("Error in step ", number.as_str(), ": ");
    out.append(error);
    out
}

/// Why the engine refused a request.
#[derive(Debug, Clone, Copy, PartialEq, Eq, Structural)]
pub enum EngineError {
    /// A task is running.
    Busy,
}

impl AgentCore {
    /// What holds of every engine between reactions.
    pub open spec fn inv(&self) -> bool {
        self@.wf()
    }

    /// An idle engine with an empty history and no context. It sets and
    /// polls the signal of the caller's controller; without one, the engine
    /// gets a controller of its own.
    pub fn new(
        config: AgentConfig,
        tools: Vec<ToolDescriptor>,
        model_name: String,
        provider_name: String,
        abort_controller: Option<AbortController>,
    ) -> (r: Self)
        ensures
            r.inv(),
            r@ == (EngineView {
                config: config@,
                tools: descriptors_view(tools@),
                model_name: model_name@,
                provider_name: provider_name@,
                recording: false,
                history: Seq::empty(),
                context: None,
                phase: Phase::Idle,
                step: 0,
                system_prompt: Seq::empty(),
                pending: Seq::empty(),
                next: 0,
                signal: r@.signal,
                watched: r@.signal,
            }),
            abort_controller.is_some() ==> r@.signal == abort_controller.unwrap().signal(),
    {
        let (abort_controller, abort_registration) = match abort_controller {
            Some(controller) => {
                let registration = controller.subscribe();
                (controller, registration)
            },
            None => AbortController::new(),
        };
        let r = AgentCore {
            config,
            tools,
            model_name,
            provider_name,
            recording: false,
            conversation_history: Vec::new(),
            execution_context: None,
            abort_controller,
            abort_registration,
            phase: Phase::Idle,
            step: 0,
            system_prompt: String::new(),
            pending: Vec::new(),
            next: 0,
        };
        assert(r@.history =~= Seq::empty());
        assert(r@.pending =~= Seq::empty());
        r
    }

    /// The identifier of this kind of engine.
    pub fn agent_type(&self) -> (r: &'static str)
        ensures
            r@ == crate::context::agent_type_name(),
    {
        "coro_agent"
    }

    /// The configuration.
    pub fn config(&self) -> (r: &AgentConfig)
        ensures
            r@ == self@.config,
    {
        &self.config
    }

    /// The stored conversation.
    pub fn conversation_history(&self) -> (r: &Vec<LlmMessage>)
        ensures
            messages_view(r@) == self@.history,
    {
        &self.conversation_history
    }

    /// The context of the current or the last task.
    pub fn execution_context(&self) -> (r: &Option<AgentExecutionContext>)
        ensures
            crate::context::opt_context_view(*r) == self@.context,
    {
        &self.execution_context
    }

    /// What the engine waits for.
    pub fn phase(&self) -> (r: Phase)
        ensures
            r == self@.phase,
    {
        self.phase
    }

    /// Whether no task is running.
    pub fn is_idle(&self) -> (r: bool)
        ensures
            r == (self@.phase == Phase::Idle),
    {
        match self.phase {
            Phase::Idle => true,
            _ => false,
        }
    }

    /// Replaces or clears the custom system prompt.
    pub fn set_system_prompt(&mut self, system_prompt: Option<String>)
        ensures
            final(self)@ == (EngineView {
                config: ConfigView {
                    system_prompt: opt_view(system_prompt),
                    ..old(self)@.config
                },
                ..old(self)@
            }),
    {
        self.config.system_prompt = system_prompt;
    }

    /// The custom system prompt, if one is configured.
    pub fn get_configured_system_prompt(&self) -> (r: Option<&String>)
        ensures
            r.is_some() == self@.config.system_prompt.is_some(),
            r.is_some() ==> r.unwrap()@ == self@.config.system_prompt.unwrap(),
    {
        self.config.system_prompt.as_ref()
    }

    /// Turns the recording of trajectory entries on or off.
    pub fn set_recording(&mut self, recording: bool)
        ensures
            final(self)@ == (EngineView { recording, ..old(self)@ }),
    {
        self.recording = recording;
    }

    /// Sets the stop signal of the engine's controller.
    pub fn cancel(&self) {
        self.abort_controller.cancel();
    }

    /// Polls the engine's registration on its stop signal.
    pub fn is_cancelled(&self) -> (r: bool) {
        self.abort_registration.is_cancelled()
    }

    /// Swaps in a controller for the next task: from now on the engine
    /// sets and polls the signal of the new controller, and nothing else
    /// about it changes. The old controller keeps its signal and its
    /// registrations.
    pub fn set_abort_controller(&mut self, abort_controller: AbortController)
        ensures
            final(self)@ == (EngineView {
                signal: abort_controller.signal(),
                watched: abort_controller.signal(),
                ..old(self)@
            }),
    {
        self.abort_registration = abort_controller.subscribe();
        self.abort_controller = abort_controller;
    }

    /// The snapshot an export writes at the given time.
    pub open spec fn exported(view: EngineView, saved_at: i64) -> SnapshotView {
        SnapshotView {
            version: crate::snapshot::SNAPSHOT_VERSION,
            agent_type: crate::context::agent_type_name(),
            saved_at,
            config: Some(view.config),
            conversation_history: view.history,
            execution_context: view.context,
        }
    }

    /// The engine after a snapshot was restored: the snapshot's
    /// configuration where it has one, and its history and context in any
    /// case.
    pub open spec fn restored(view: EngineView, snapshot: SnapshotView) -> EngineView {
        EngineView {
            config: match snapshot.config {
                Some(c) => c,
                None => view.config,
            },
            history: snapshot.conversation_history,
            context: snapshot.execution_context,
            ..view
        }
    }

    /// Captures the configuration, the conversation and the context.
    pub fn export_context_snapshot(&self) -> (r: Result<PersistedAgentContext, EngineError>)
        ensures
            r.is_ok(),
            r.unwrap()@ == Self::exported(self@, r.unwrap()@.saved_at),
    {
        let context = match &self.execution_context {
            Some(c) => Some(c.clone()),
            None => None,
        };
        Ok(
            PersistedAgentContext::new(
                "coro_agent".to_owned(),
                Some(self.config.clone()),
                clone_messages(&self.conversation_history),
                context,
            ),
        )
    }

    /// Adopts a snapshot. Refused while a task is running.
    pub fn restore_context_from_snapshot(&mut self, snapshot: PersistedAgentContext) -> (r: Result<
        (),
        EngineError,
    >)
        requires
            old(self).inv(),
        ensures
            final(self).inv(),
            r.is_ok() == (old(self)@.phase == Phase::Idle),
            r.is_ok() ==> final(self)@ == Self::restored(old(self)@, snapshot@),
            r.is_err() ==> final(self)@ == old(self)@ && r.unwrap_err() == EngineError::Busy,
    {
        if !self.is_idle() {
            return Err(EngineError::Busy);
        }
        match snapshot.config {
            Some(c) => {
                self.config = c;
            },
            None => {},
        }
        self.conversation_history = snapshot.conversation_history;
        self.execution_context = snapshot.execution_context;
        Ok(())
    }

    /// Replaces the conversation and discards the context, whose counters
    /// would not fit the new history. Refused while a task is running.
    pub fn restore_from_history(&mut self, history: Vec<LlmMessage>) -> (r: Result<(), EngineError>)
        requires
            old(self).inv(),
        ensures
            final(self).inv(),
            r.is_ok() == (old(self)@.phase == Phase::Idle),
            r.is_ok() ==> final(self)@ == (EngineView {
                history: messages_view(history@),
                context: None,
                ..old(self)@
            }),
            r.is_err() ==> final(self)@ == old(self)@ && r.unwrap_err() == EngineError::Busy,
    {
        if !self.is_idle() {
            return Err(EngineError::Busy);
        }
        self.conversation_history = history;
        self.execution_context = None;
        Ok(())
    }

    /// Whether the input is the outcome of what the engine waits for.
    pub fn accepts(&self, input: &Input) -> (r: bool)
        ensures
            r == self@.expects(input@),
    {
        match self.phase {
            Phase::Idle => false,
            Phase::Compressing => match input {
                Input::Compressed { .. } => true,
                Input::CompressionFailed { .. } => true,
                _ => false,
            },
            Phase::Thinking => match input {
                Input::ModelReplied { .. } => true,
                Input::ModelFailed { .. } => true,
                _ => false,
            },
            Phase::Confirming => match input {
                Input::Confirmed { .. } => true,
                _ => false,
            },
            Phase::Running => match input {
                Input::ToolFinished { .. } => true,
                Input::ToolFailed { .. } => true,
                _ => false,
            },
        }
    }

    /// Begins a task on an idle engine and returns the first effects.
    pub fn start_task(
        &mut self,
        task: &str,
        project_path: &str,
        parts: &PromptParts,
        config_json: serde_json::Value,
        tick: Tick,
    ) -> (effects: Vec<Effect>)
        requires
            old(self).inv(),
            old(self)@.phase == Phase::Idle,
        ensures
            final(self).inv(),
            final(self)@ == old(self)@.begin(
                task@,
                project_path@,
                parts.default_prompt@,
                parts.system_context@,
                config_json,
                tick,
            ).state,
            effects_view(effects@) == old(self)@.begin(
                task@,
                project_path@,
                parts.default_prompt@,
                parts.system_context@,
                config_json,
                tick,
            ).effects,
    {
        let ghost start = self@;
        let ghost target = start.begin(
            task@,
            project_path@,
            parts.default_prompt@,
            parts.system_context@,
            config_json,
            tick,
        );
        let mut effects: Vec<Effect> = Vec::new();
        crate::context::enter_task(
            &mut self.execution_context,
            task,
            project_path,
            self.config.max_steps,
        );
        let reported = self.execution_context.as_ref().unwrap().clone();
        push_effect(
            &mut effects,
            Effect::Emit { event: AgentEvent::ExecutionStarted { context: reported } },
        );
        self.record(
            &mut effects,
            EntryType::TaskStart { task: task.to_owned(), agent_config: config_json },
            0,
        );
        let prompt = compose_system_prompt(&self.config.system_prompt, parts, &self.tools);
        if self.conversation_history.len() == 0 {
            self.conversation_history.push(LlmMessage::system(prompt.as_str()));
            assert(messages_view(self.conversation_history@) =~= seq![
                crate::machine::text_message(crate::message::MessageRole::System, prompt@),
            ]);
        }
        let _ = repair_trailing_tool_uses(&mut self.conversation_history);
        let ghost prior = self.conversation_history@;
        self.conversation_history.push(LlmMessage::user(task));
        assert(messages_view(self.conversation_history@) =~= messages_view(prior).push(
            crate::machine::text_message(crate::message::MessageRole::User, task@),
        ));
        self.step = 0;
        self.system_prompt = prompt;
        self.pending = Vec::new();
        self.next = 0;
        assert(calls_view(self.pending@) =~= Seq::empty());
        self.loop_head(tick, &mut effects);
        proof {
            assert(effects_view(effects@) =~= target.effects);
            crate::machine::law_begin_keeps_wf(
                start,
                task@,
                project_path@,
                parts.default_prompt@,
                parts.system_context@,
                config_json,
                tick,
            );
        }
        effects
    }

    /// Reacts to the outcome of the effect asked for last and returns the
    /// effects to perform next.
    pub fn handle(&mut self, input: Input, tick: Tick) -> (effects: Vec<Effect>)
        requires
            old(self).inv(),
            old(self)@.expects(input@),
        ensures
            final(self).inv(),
            final(self)@ == old(self)@.react(input@, tick).state,
            effects_view(effects@) == old(self)@.react(input@, tick).effects,
    {
        let ghost start = self@;
        let mut effects: Vec<Effect> = Vec::new();
        assert(effects_view(effects@) =~= Seq::empty());
        proof {
            crate::machine::law_react_keeps_wf(start, input@, tick);
        }
        match self.phase {
            Phase::Idle => {},
            Phase::Compressing => {
                self.after_compression(input, tick, &mut effects);
            },
            Phase::Thinking => {
                if tick.cancelled {
                    self.finish(Finale::Interrupted, tick, &mut effects);
                } else {
                    match input {
                        Input::ModelReplied { response } => {
                            self.after_reply(response, tick, &mut effects);
                        },
                        Input::ModelFailed { error } => {
                            self.after_failure(error, tick, &mut effects);
                        },
                        _ => {},
                    }
                }
            },
            Phase::Confirming => {
                if tick.cancelled {
                    self.finish(Finale::Interrupted, tick, &mut effects);
                } else {
                    match input {
                        Input::Confirmed { outcome } => {
                            match outcome {
                                ConfirmationOutcome::Approved => {
                                    let call = self.pending[self.next].clone();
                                    self.phase = Phase::Running;
                                    push_effect(&mut effects, Effect::RunTool { call });
                                },
                                _ => {
                                    let id = self.pending[self.next].id.clone();
                                    self.settle(
                                        ToolResult::error(
                                            id,
                                            "Execution cancelled by user".to_owned(),
                                        ),
                                        tick,
                                        &mut effects,
                                    );
                                },
                            }
                        },
                        _ => {},
                    }
                }
            },
            Phase::Running => {
                if tick.cancelled {
                    self.finish(Finale::Interrupted, tick, &mut effects);
                } else {
                    match input {
                        Input::ToolFinished { result } => {
                            self.settle(result, tick, &mut effects);
                        },
                        Input::ToolFailed { error } => {
                            let id = self.pending[self.next].id.clone();
                            let mut content = "Tool execution failed: ".to_owned();
                            content.append(error.as_str());
                            self.settle(ToolResult::error(id, content), tick, &mut effects);
                        },
                        _ => {},
                    }
                }
            },
        }
        assert(effects_view(effects@) =~= start.react(input@, tick).effects);
        effects
    }

    fn record(&self, effects: &mut Vec<Effect>, entry: EntryType, step: usize)
        ensures
            effects_view(final(effects)@) == effects_view(old(effects)@) + recorded(
                self@.recording,
                entry@,
                step,
            ),
    {
        let ghost before = effects_view(effects@);
        if self.recording {
            push_effect(effects, Effect::Record { entry, step });
            assert(effects_view(effects@) =~= before + recorded(true, entry@, step));
        } else {
            assert(effects_view(effects@) =~= before + recorded(false, entry@, step));
        }
    }

    fn finish(&mut self, finale: Finale, tick: Tick, effects: &mut Vec<Effect>)
        requires
            old(self)@.context.is_some(),
        ensures
            final(self)@ == old(self)@.ended(finale@, tick).state,
            effects_view(final(effects)@) == effects_view(old(effects)@) + old(self)@.ended(
                finale@,
                tick,
            ).effects,
    {
        let ghost before = effects_view(effects@);
        let ghost start = self@;
        let ghost target = start.ended(finale@, tick);
        let step = self.step;
        let taken = self.execution_context.take();
        let previous = taken.unwrap();
        let context = AgentExecutionContext {
            agent_id: previous.agent_id,
            original_goal: previous.original_goal,
            current_task: previous.current_task,
            project_path: previous.project_path,
            max_steps: previous.max_steps,
            current_step: step,
            execution_time_ms: tick.elapsed_ms,
            token_usage: previous.token_usage,
        };
        let reported = context.clone();
        self.execution_context = Some(context);
        self.phase = Phase::Idle;
        self.pending = Vec::new();
        self.next = 0;
        assert(calls_view(self.pending@) =~= Seq::empty());
        assert(self@ == target.state);
        match finale {
            Finale::Completed => {
                self.record(
                    effects,
                    EntryType::TaskComplete {
                        success: true,
                        summary: "Task completed successfully".to_owned(),
                        total_steps: step,
                        duration_ms: tick.elapsed_ms,
                    },
                    step,
                );
                push_effect(
                    effects,
                    Effect::Emit {
                        event: AgentEvent::ExecutionCompleted {
                            context: reported,
                            success: true,
                            summary: "Task completed successfully".to_owned(),
                        },
                    },
                );
                push_effect(
                    effects,
                    Effect::Finish {
                        result: AgentExecution::success(
                            "Task completed successfully".to_owned(),
                            step,
                            tick.elapsed_ms,
                        ),
                    },
                );
            },
            Finale::Incomplete => {
                self.record(
                    effects,
                    EntryType::TaskComplete {
                        success: false,
                        summary: incomplete_summary(step),
                        total_steps: step,
                        duration_ms: tick.elapsed_ms,
                    },
                    step,
                );
                push_effect(
                    effects,
                    Effect::Emit {
                        event: AgentEvent::ExecutionCompleted {
                            context: reported,
                            success: false,
                            summary: incomplete_summary(step),
                        },
                    },
                );
                push_effect(
                    effects,
                    Effect::Finish {
                        result: AgentExecution::failure(
                            incomplete_summary(step),
                            step,
                            tick.elapsed_ms,
                        ),
                    },
                );
            },
            Finale::Interrupted => {
                self.record(
                    effects,
                    EntryType::TaskComplete {
                        success: false,
                        summary: incomplete_summary(step),
                        total_steps: step,
                        duration_ms: tick.elapsed_ms,
                    },
                    step,
                );
                push_effect(
                    effects,
                    Effect::Emit {
                        event: AgentEvent::ExecutionInterrupted {
                            context: reported,
                            reason: "Execution interrupted by user".to_owned(),
                        },
                    },
                );
                push_effect(
                    effects,
                    Effect::Finish {
                        result: AgentExecution::failure(
                            "Execution interrupted".to_owned(),
                            step,
                            tick.elapsed_ms,
                        ),
                    },
                );
            },
            Finale::Failed { error } => {
                push_effect(
                    effects,
                    Effect::Emit {
                        event: AgentEvent::ExecutionCompleted {
                            context: reported,
                            success: false,
                            summary: failed_summary(step, error.as_str()),
                        },
                    },
                );
                push_effect(
                    effects,
                    Effect::Finish {
                        result: AgentExecution::failure(
                            failed_summary(step, error.as_str()),
                            step,
                            tick.elapsed_ms,
                        ),
                    },
                );
            },
        }
        assert(effects_view(effects@) =~= before + target.effects);
    }

    fn loop_head(&mut self, tick: Tick, effects: &mut Vec<Effect>)
        requires
            old(self)@.context.is_some(),
        ensures
            final(self)@ == old(self)@.loop_head(tick).state,
            effects_view(final(effects)@) == effects_view(old(effects)@) + old(self)@.loop_head(
                tick,
            ).effects,
    {
        let ghost before = effects_view(effects@);
        if self.step < self.config.max_steps {
            if tick.cancelled {
                self.finish(Finale::Interrupted, tick, effects);
            } else {
                self.phase = Phase::Compressing;
                push_effect(effects, Effect::Compress);
                assert(effects_view(effects@) =~= before + seq![crate::effects::EffectView::Compress]);
            }
        } else {
            self.finish(Finale::Incomplete, tick, effects);
        }
    }

    fn report_compression(&self, result: &MaybeCompressedResult, effects: &mut Vec<Effect>)
        ensures
            effects_view(final(effects)@) == effects_view(old(effects)@)
                + crate::machine::compression_events(result@.compression_applied),
    {
        let ghost before = effects_view(effects@);
        match &result.compression_applied {
            Some(summary) => {
                let level = summary.level.as_str();
                push_effect(
                    effects,
                    Effect::Emit {
                        event: AgentEvent::CompressionStarted {
                            level: level.to_owned(),
                            current_tokens: summary.tokens_before,
                            target_tokens: summary.tokens_after,
                            reason: concat3("Token usage requires ", level, " compression"),
                        },
                    },
                );
                push_effect(
                    effects,
                    Effect::Emit {
                        event: AgentEvent::CompressionCompleted {
                            summary: summary.summary.clone(),
                            tokens_saved: summary.tokens_saved,
                            messages_before: summary.messages_before,
                            messages_after: summary.messages_after,
                        },
                    },
                );
                assert(effects_view(effects@) =~= before + crate::machine::compression_events(
                    result@.compression_applied,
                ));
            },
            None => {
                assert(effects_view(effects@) =~= before + crate::machine::compression_events(
                    result@.compression_applied,
                ));
            },
        }
    }

    fn begin_step(&mut self, tick: Tick, effects: &mut Vec<Effect>)
        requires
            old(self)@.context.is_some(),
            old(self)@.step < usize::MAX,
        ensures
            final(self)@ == old(self)@.begin_step(tick).state,
            effects_view(final(effects)@) == effects_view(old(effects)@) + old(self)@.begin_step(
                tick,
            ).effects,
    {
        let ghost before = effects_view(effects@);
        let ghost start = self@;
        if tick.cancelled {
            self.finish(Finale::Interrupted, tick, effects);
            return ;
        }
        let step = self.step + 1;
        let messages = outbound_messages(&self.conversation_history, self.system_prompt.as_str());
        self.step = step;
        self.phase = Phase::Thinking;
        if self.recording {
            self.record(
                effects,
                EntryType::LlmRequest {
                    messages: clone_messages(&messages),
                    model: self.model_name.clone(),
                    provider: self.provider_name.clone(),
                },
                step,
            );
        }
        let ghost journal = recorded(
            start.recording,
            crate::trajectory::EntryTypeView::LlmRequest {
                messages: messages_view(messages@),
                model: start.model_name,
                provider: start.provider_name,
            },
            step,
        );
        assert(effects_view(effects@) =~= before + journal);
        push_effect(effects, Effect::CallModel { messages });
        assert(effects_view(effects@) =~= before + start.begin_step(tick).effects);
    }

    fn after_compression(&mut self, input: Input, tick: Tick, effects: &mut Vec<Effect>)
        requires
            old(self)@.context.is_some(),
            old(self)@.step < usize::MAX,
            input@ is Compressed || input@ is CompressionFailed,
        ensures
            final(self)@ == old(self)@.after_compression(input@, tick).state,
            effects_view(final(effects)@) == effects_view(old(effects)@) + old(
                self,
            )@.after_compression(input@, tick).effects,
    {
        let ghost before = effects_view(effects@);
        let ghost start = self@;
        match input {
            Input::Compressed { result } => {
                self.report_compression(&result, effects);
                self.conversation_history = result.messages;
            },
            Input::CompressionFailed { error } => {
                fallback_trim(&mut self.conversation_history, FALLBACK_MAX_MESSAGES);
                push_effect(
                    effects,
                    Effect::Emit {
                        event: AgentEvent::CompressionFailed {
                            error,
                            fallback_action: "Simple message trimming applied".to_owned(),
                        },
                    },
                );
            },
            _ => {},
        }
        let ghost reported = start.compression_report(input@);
        assert(effects_view(effects@) =~= before + reported);
        let ghost kept = self@;
        assert(kept == start.compression_kept(input@));
        self.begin_step(tick, effects);
        assert(effects_view(effects@) =~= before + (reported + kept.begin_step(tick).effects));
    }

    fn pending_calls(message: &LlmMessage) -> (r: Vec<ToolCall>)
        ensures
            calls_view(r@) == message@.tool_uses().map_values(
                |b: BlockView| crate::machine::call_of(b),
            ),
    {
        let uses = message.get_tool_uses();
        let ghost blocks = message@.tool_uses();
        let ghost target = blocks.map_values(|b: BlockView| crate::machine::call_of(b));
        assert(uses@.map_values(|b: &ContentBlock| b@) == blocks);
        let mut out: Vec<ToolCall> = Vec::new();
        let mut i: usize = 0;
        assert(calls_view(out@) =~= target.subrange(0, 0));
        while i < uses.len()
            invariant
                i <= uses.len(),
                uses@.map_values(|b: &ContentBlock| b@) == blocks,
                blocks == crate::message::tool_uses(message@.blocks()),
                target == blocks.map_values(|b: BlockView| crate::machine::call_of(b)),
                calls_view(out@) == target.subrange(0, i as int),
            decreases uses.len() - i,
        {
            let ghost prior = out@;
            assert(uses@[i as int]@ == blocks[i as int]);
            match uses[i] {
                ContentBlock::ToolUse { id, name, input } => {
                    let call = ToolCall {
                        id: id.clone(),
                        name: name.clone(),
                        parameters: clone_json(input),
                    };
                    assert(call@ == target[i as int]);
                    out.push(call);
                    assert(calls_view(out@) =~= calls_view(prior).push(target[i as int]));
                },
                _ => {
                    proof {
                        lemma_tool_uses_are_blocks(message@.blocks());
                        assert(crate::message::tool_uses(message@.blocks())[i as int] is ToolUse);
                        assert(blocks[i as int] is ToolUse);
                    }
                },
            }
            assert(calls_view(out@) =~= target.subrange(0, i + 1));
            i += 1;
        }
        assert(target.subrange(0, i as int) =~= target);
        out
    }

    fn report_reply(&mut self, response: &LlmResponse, effects: &mut Vec<Effect>)
        ensures
            final(self)@ == (EngineView {
                context: old(self)@.with_usage(response@.usage),
                ..old(self)@
            }),
            effects_view(final(effects)@) == effects_view(old(effects)@) + old(
                self,
            )@.reply_effects(response@),
    {
        let ghost before = effects_view(effects@);
        let ghost start = self@;
        let step = self.step;
        match response.usage {
            Some(usage) => {
                let taken = self.execution_context.take();
                match taken {
                    Some(c) => {
                        let mut context = c;
                        context.token_usage.accumulate(usage);
                        let token_usage = context.token_usage;
                        self.execution_context = Some(context);
                        push_effect(
                            effects,
                            Effect::Emit { event: AgentEvent::TokenUsageUpdated { token_usage } },
                        );
                    },
                    None => {},
                }
            },
            None => {},
        }
        let ghost counted = if response@.usage.is_some() && start.context.is_some() {
            seq![
                EffectView::Emit {
                    event: EventView::TokenUsageUpdated {
                        token_usage: start.with_usage(response@.usage).unwrap().token_usage,
                    },
                },
            ]
        } else {
            Seq::empty()
        };
        assert(self@.context == start.with_usage(response@.usage));
        assert(effects_view(effects@) =~= before + counted);
        if self.recording {
            self.record(
                effects,
                EntryType::LlmResponse {
                    message: response.message.clone(),
                    usage: response.usage,
                    finish_reason: crate::message::clone_opt_reason(&response.finish_reason),
                },
                step,
            );
        }
        assert(effects_view(effects@) =~= before + start.reply_effects(response@));
    }

    fn say(message: &LlmMessage, effects: &mut Vec<Effect>)
        ensures
            effects_view(final(effects)@) == effects_view(old(effects)@) + EngineView::said(
                message@,
            ),
    {
        let ghost before = effects_view(effects@);
        let text = message.get_text();
        match text {
            Some(content) => {
                if !blank(content.as_str()) {
                    push_effect(
                        effects,
                        Effect::Emit {
                            event: AgentEvent::Message { level: MessageLevel::Normal, content },
                        },
                    );
                }
            },
            None => {},
        }
        assert(effects_view(effects@) =~= before + EngineView::said(message@));
    }

    fn after_reply(&mut self, response: LlmResponse, tick: Tick, effects: &mut Vec<Effect>)
        requires
            old(self)@.context.is_some(),
        ensures
            final(self)@ == old(self)@.after_reply(response@, tick).state,
            effects_view(final(effects)@) == effects_view(old(effects)@) + old(
                self,
            )@.after_reply(response@, tick).effects,
    {
        let ghost before = effects_view(effects@);
        let ghost start = self@;
        self.report_reply(&response, effects);
        let ghost head = start.reply_effects(response@);
        let asks = response.message.has_tool_use();
        if asks {
            self.pending = Self::pending_calls(&response.message);
            self.next = 0;
            let ghost prior = self.conversation_history@;
            self.conversation_history.push(response.message);
            assert(messages_view(self.conversation_history@) =~= messages_view(prior).push(
                response@.message,
            ));
            let ghost kept = self@;
            assert(kept == start.reply_kept(response@));
            self.dispatch(tick, effects);
            assert(effects_view(effects@) =~= before + (head + kept.dispatch(tick).effects));
        } else {
            Self::say(&response.message, effects);
            proof {
                lemma_tool_uses_are_blocks(response@.message.blocks());
            }
            self.pending = Vec::new();
            self.next = 0;
            assert(calls_view(self.pending@) =~= response@.message.tool_uses().map_values(
                |b: BlockView| crate::machine::call_of(b),
            ));
            let ghost prior = self.conversation_history@;
            self.conversation_history.push(response.message);
            assert(messages_view(self.conversation_history@) =~= messages_view(prior).push(
                response@.message,
            ));
            let ghost kept = self@;
            assert(kept == start.reply_kept(response@));
            self.step_done(false, tick, effects);
            assert(effects_view(effects@) =~= before + (head + EngineView::said(
                response@.message,
            ) + kept.step_done(false, tick).effects));
        }
    }

    fn after_failure(&mut self, error: String, tick: Tick, effects: &mut Vec<Effect>)
        requires
            old(self)@.context.is_some(),
        ensures
            final(self)@ == old(self)@.ended(Ending::Failed { error: error@ }, tick).state,
            effects_view(final(effects)@) == effects_view(old(effects)@) + (old(
                self,
            )@.failure_effects(error@) + old(self)@.ended(
                Ending::Failed { error: error@ },
                tick,
            ).effects),
    {
        let ghost before = effects_view(effects@);
        let ghost start = self@;
        let step = self.step;
        let mut content = "LLM request failed: ".to_owned();
        content.append(error.as_str());
        push_effect(
            effects,
            Effect::Emit { event: AgentEvent::Message { level: MessageLevel::Error, content } },
        );
        let number = decimal_string(step);
        self.record(
            effects,
            EntryType::Error {
                error: error.clone(),
                context: Some(concat3("Step ", number.as_str(), "")),
            },
            step,
        );
        proof {
            reveal_strlit("");
            assert("Step "@ + decimal_view(step) + ""@ =~= crate::machine::step_label(step));
        }
        assert(effects_view(effects@) =~= before + start.failure_effects(error@));
        self.finish(Finale::Failed { error }, tick, effects);
        assert(effects_view(effects@) =~= before + (start.failure_effects(error@) + start.ended(
            Ending::Failed { error: error@ },
            tick,
        ).effects));
    }

    fn wants_confirmation(&self, name: &str) -> (r: bool)
        ensures
            r == needs_confirmation(self@.tools, name@),
    {
        let found = find_tool(&self.tools, name);
        match found {
            Some(t) => t.requires_confirmation,
            None => false,
        }
    }

    fn is_completion_signal(&self, name: &str) -> (r: bool)
        ensures
            r == signals_completion(self@.tools, name@),
    {
        let found = find_tool(&self.tools, name);
        match found {
            Some(t) => t.completion_signal,
            None => false,
        }
    }

    fn is_thought_stream(&self, name: &str) -> (r: bool)
        ensures
            r == streams_thoughts(self@.tools, name@),
    {
        let found = find_tool(&self.tools, name);
        match found {
            Some(t) => t.thought_stream,
            None => false,
        }
    }

    fn dispatch(&mut self, tick: Tick, effects: &mut Vec<Effect>)
        requires
            old(self)@.context.is_some(),
            old(self)@.next <= old(self)@.pending.len(),
        ensures
            final(self)@ == old(self)@.dispatch(tick).state,
            effects_view(final(effects)@) == effects_view(old(effects)@) + old(self)@.dispatch(
                tick,
            ).effects,
    {
        let ghost before = effects_view(effects@);
        let ghost start = self@;
        if self.next >= self.pending.len() {
            self.step_done(false, tick, effects);
            return ;
        }
        let call = self.pending[self.next].clone();
        assert(call@ == start.current_call());
        let step = self.step;
        push_effect(
            effects,
            Effect::Emit {
                event: AgentEvent::ToolExecutionStarted {
                    tool_info: ToolExecutionInfo::started(&call),
                },
            },
        );
        self.record(effects, EntryType::ToolCall { call: call.clone() }, step);
        let ghost announced = seq![
            EffectView::Emit {
                event: EventView::ToolExecutionStarted {
                    tool_info: crate::events::started_info(call@),
                },
            },
        ] + recorded(
            start.recording,
            crate::trajectory::EntryTypeView::ToolCall { call: call@ },
            step,
        );
        assert(effects_view(effects@) =~= before + announced);
        if self.wants_confirmation(call.name.as_str()) {
            let request = ConfirmationRequest {
                id: call.id.clone(),
                title: concat3("Execute tool: ", call.name.as_str(), ""),
                message: "This tool requires confirmation before execution.".to_owned(),
                tool_name: call.name.clone(),
                parameters: clone_json(&call.parameters),
            };
            proof {
                reveal_strlit("");
                assert(request.title@ =~= "Execute tool: "@ + call@.name);
            }
            self.phase = Phase::Confirming;
            push_effect(effects, Effect::Confirm { request });
            assert(effects_view(effects@) =~= before + (announced + seq![
                EffectView::Confirm { request: crate::machine::request_for(call@) },
            ]));
        } else {
            self.phase = Phase::Running;
            push_effect(effects, Effect::RunTool { call });
            assert(effects_view(effects@) =~= before + (announced + seq![
                EffectView::RunTool { call: call@ },
            ]));
        }
    }

    fn report_result(&self, call: &ToolCall, result: &ToolResult, effects: &mut Vec<Effect>)
        requires
            self@.next < self@.pending.len(),
            call@ == self@.current_call(),
        ensures
            effects_view(final(effects)@) == effects_view(old(effects)@) + self@.result_effects(
                result@,
            ),
    {
        let ghost before = effects_view(effects@);
        let step = self.step;
        push_effect(
            effects,
            Effect::Emit {
                event: AgentEvent::ToolExecutionCompleted {
                    tool_info: ToolExecutionInfo::completed(call, result),
                },
            },
        );
        let ghost reported = seq![
            EffectView::Emit {
                event: EventView::ToolExecutionCompleted {
                    tool_info: crate::events::completed_info(call@, result@),
                },
            },
        ];
        assert(effects_view(effects@) =~= before + reported);
        if self.is_thought_stream(call.name.as_str()) {
            let found = thought_text(result);
            match found {
                Some(thinking) => {
                    push_effect(
                        effects,
                        Effect::Emit {
                            event: AgentEvent::AgentThinking { step_number: step, thinking },
                        },
                    );
                },
                None => {},
            }
        }
        let ghost thought = if streams_thoughts(self@.tools, call@.name) && thought_of(
            result@,
        ).is_some() {
            seq![
                EffectView::Emit {
                    event: EventView::AgentThinking {
                        step_number: step,
                        thinking: thought_of(result@).unwrap(),
                    },
                },
            ]
        } else {
            Seq::empty()
        };
        assert(effects_view(effects@) =~= before + reported + thought);
        self.record(effects, EntryType::ToolResult { result: result.clone() }, step);
        assert(effects_view(effects@) =~= before + self@.result_effects(result@));
    }

    fn settle(&mut self, result: ToolResult, tick: Tick, effects: &mut Vec<Effect>)
        requires
            old(self)@.context.is_some(),
            old(self)@.next < old(self)@.pending.len(),
        ensures
            final(self)@ == old(self)@.settle(result@, tick).state,
            effects_view(final(effects)@) == effects_view(old(effects)@) + old(self)@.settle(
                result@,
                tick,
            ).effects,
    {
        let ghost before = effects_view(effects@);
        let ghost start = self@;
        assert(self.next < self.pending.len());
        let call = self.pending[self.next].clone();
        assert(call@ == start.current_call());
        self.report_result(&call, &result, effects);
        let ghost head = start.result_effects(result@);
        if self.is_completion_signal(call.name.as_str()) && result.success {
            self.step_done(true, tick, effects);
            assert(effects_view(effects@) =~= before + (head + start.step_done(true, tick).effects));
        } else {
            let message = LlmMessage::tool_result(
                call.id.as_str(),
                !result.success,
                result.content.as_str(),
            );
            assert(message@ == crate::machine::result_message(call@, result@));
            let ghost prior = self.conversation_history@;
            self.conversation_history.push(message);
            assert(crate::message::messages_view(self.conversation_history@)
                =~= crate::message::messages_view(prior).push(message@));
            self.next = self.next + 1;
            let ghost moved = self@;
            self.dispatch(tick, effects);
            assert(effects_view(effects@) =~= before + (head + moved.dispatch(tick).effects));
        }
    }

    fn step_done(&mut self, completed: bool, tick: Tick, effects: &mut Vec<Effect>)
        requires
            old(self)@.context.is_some(),
        ensures
            final(self)@ == old(self)@.step_done(completed, tick).state,
            effects_view(final(effects)@) == effects_view(old(effects)@) + old(self)@.step_done(
                completed,
                tick,
            ).effects,
    {
        let ghost before = effects_view(effects@);
        let ghost start = self@;
        let step = self.step;
        let number = decimal_string(step);
        self.record(
            effects,
            EntryType::StepComplete {
                description: concat3("Step ", number.as_str(), " completed"),
                success: true,
            },
            step,
        );
        let ghost journal = recorded(
            start.recording,
            crate::trajectory::EntryTypeView::StepComplete {
                description: crate::machine::step_done_text(step),
                success: true,
            },
            step,
        );
        assert(effects_view(effects@) == before + journal);
        if completed {
            self.finish(Finale::Completed, tick, effects);
            assert(effects_view(effects@) =~= before + (journal + start.ended(
                Ending::Completed,
                tick,
            ).effects));
        } else {
            self.pending = Vec::new();
            self.next = 0;
            assert(calls_view(self.pending@) =~= Seq::empty());
            let ghost cleared = self@;
            self.loop_head(tick, effects);
            assert(effects_view(effects@) =~= before + (journal + cleared.loop_head(tick).effects));
        }
    }
}

} // verus!
