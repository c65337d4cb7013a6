//! What passes between the engine and the code that drives it: the
//! inputs the engine reacts to, and the effects it asks for.

use crate::compression::{CompressedView, MaybeCompressedResult};
use crate::context::{AgentExecution, ExecutionView, Usage};
use crate::events::{AgentEvent, EventView};
use crate::message::{messages_view, LlmMessage, MessageView};
use crate::message::{opt_reason_view, FinishReason, FinishReasonView};
use crate::tools::{ToolCall, ToolCallView, ToolResult, ToolResultView};
use crate::trajectory::{EntryType, EntryTypeView};
use vstd::prelude::*;

verus! {

/// What the driver observed of the outside world when it hands an input
/// to the engine.
#[derive(Debug, Clone, Copy, PartialEq, Eq, Structural)]
pub struct Tick {
    /// Whether the stop signal was set.
    pub cancelled: bool,
    /// Wall-clock milliseconds since the task was started.
    pub elapsed_ms: u64,
}

/// What the model capability returned.
#[derive(Debug)]
pub struct LlmResponse {
    pub message: LlmMessage,
    pub usage: Option<Usage>,
    pub model: String,
    pub finish_reason: Option<FinishReason>,
}

/// Model of an [`LlmResponse`].
pub ghost struct ResponseView {
    pub message: MessageView,
    pub usage: Option<Usage>,
    pub model: Seq<char>,
    pub finish_reason: Option<FinishReasonView>,
}

impl View for LlmResponse {
    type V = ResponseView;

    open spec fn view(&self) -> ResponseView {
        ResponseView {
            message: self.message@,
            usage: self.usage,
            model: self.model@,
            finish_reason: opt_reason_view(self.finish_reason),
        }
    }
}

/// A request for the user's approval of a tool run.
#[derive(Debug)]
pub struct ConfirmationRequest {
    /// The id of the tool call to approve.
    pub id: String,
    pub title: String,
    pub message: String,
    pub tool_name: String,
    pub parameters: serde_json::Value,
}

/// Model of a [`ConfirmationRequest`].
pub ghost struct RequestView {
    pub id: Seq<char>,
    pub title: Seq<char>,
    pub message: Seq<char>,
    pub tool_name: Seq<char>,
    pub parameters: serde_json::Value,
}

impl View for ConfirmationRequest {
    type V = RequestView;

    open spec fn view(&self) -> RequestView {
        RequestView {
            id: self.id@,
            title: self.title@,
            message: self.message@,
            tool_name: self.tool_name@,
            parameters: self.parameters,
        }
    }
}

/// How a request for approval ended.
#[derive(Debug, Clone, Copy, PartialEq, Eq, Structural)]
pub enum ConfirmationOutcome {
    Approved,
    Denied,
    /// The request itself failed.
    Failed,
}

/// An input the engine reacts to: the outcome of the effect it asked for
/// last.
#[derive(Debug)]
#[allow(inconsistent_fields)]
pub enum Input {
    Compressed { result: MaybeCompressedResult },
    CompressionFailed { error: String },
    ModelReplied { response: LlmResponse },
    ModelFailed { error: String },
    Confirmed { outcome: ConfirmationOutcome },
    ToolFinished { result: ToolResult },
    ToolFailed { error: String },
}

/// Model of an [`Input`].
#[allow(inconsistent_fields)]
pub ghost enum InputView {
    Compressed { result: CompressedView },
    CompressionFailed { error: Seq<char> },
    ModelReplied { response: ResponseView },
    ModelFailed { error: Seq<char> },
    Confirmed { outcome: ConfirmationOutcome },
    ToolFinished { result: ToolResultView },
    ToolFailed { error: Seq<char> },
}

impl View for Input {
    type V = InputView;

    open spec fn view(&self) -> InputView {
        match *self {
            Input::Compressed { result } => InputView::Compressed { result: result@ },
            Input::CompressionFailed { error } => InputView::CompressionFailed { error: error@ },
            Input::ModelReplied { response } => InputView::ModelReplied { response: response@ },
            Input::ModelFailed { error } => InputView::ModelFailed { error: error@ },
            Input::Confirmed { outcome } => InputView::Confirmed { outcome },
            Input::ToolFinished { result } => InputView::ToolFinished { result: result@ },
            Input::ToolFailed { error } => InputView::ToolFailed { error: error@ },
        }
    }
}

/// Something the engine asks its driver to do. The effects of one
/// reaction are performed in order; the last one says what the engine
/// waits for next.
#[derive(Debug)]
pub enum Effect {
    /// Report an event to the output sink. A failure to do so is absorbed.
    Emit { event: AgentEvent },
    /// Append an entry to the trajectory.
    Record { entry: EntryType, step: usize },
    /// Run the conversation manager on the stored history.
    Compress,
    /// Call the model with these messages.
    CallModel { messages: Vec<LlmMessage> },
    /// Ask the user to approve a tool run.
    Confirm { request: ConfirmationRequest },
    /// Run a tool.
    RunTool { call: ToolCall },
    /// The task is over; hand this result to the caller.
    Finish { result: AgentExecution },
}

/// Model of an [`Effect`].
pub ghost enum EffectView {
    Emit { event: EventView },
    Record { entry: EntryTypeView, step: usize },
    Compress,
    CallModel { messages: Seq<MessageView> },
    Confirm { request: RequestView },
    RunTool { call: ToolCallView },
    Finish { result: ExecutionView },
}

impl View for Effect {
    type V = EffectView;

    open spec fn view(&self) -> EffectView {
        match *self {
            Effect::Emit { event } => EffectView::Emit { event: event@ },
            Effect::Record { entry, step } => EffectView::Record { entry: entry@, step },
            Effect::Compress => EffectView::Compress,
            Effect::CallModel { messages } => EffectView::CallModel {
                messages: messages_view(messages@),
            },
            Effect::Confirm { request } => EffectView::Confirm { request: request@ },
            Effect::RunTool { call } => EffectView::RunTool { call: call@ },
            Effect::Finish { result } => EffectView::Finish { result: result@ },
        }
    }
}

/// The models of a list of effects, in order.
pub open spec fn effects_view(effects: Seq<Effect>) -> Seq<EffectView> {
    effects.map_values(|e: Effect| e@)
}

impl EffectView {
    /// Whether the effect reports the end of a task to the sink.
    pub open spec fn is_terminal_event(self) -> bool {
        self is Emit && self->event.is_terminal()
    }
}

/// How many of the effects report the end of a task to the sink.
pub open spec fn terminal_events(effects: Seq<EffectView>) -> nat
    decreases effects.len(),
{
    if effects.len() == 0 {
        0
    } else {
        terminal_events(effects.drop_last()) + if effects.last().is_terminal_event() {
            1nat
        } else {
            0nat
        }
    }
}

/// Counting over two lists counts each.
pub proof fn lemma_terminal_events_add(a: Seq<EffectView>, b: Seq<EffectView>)
    ensures
        terminal_events(a + b) == terminal_events(a) + terminal_events(b),
    decreases b.len(),
{
    if b.len() == 0 {
        assert(a + b =~= a);
    } else {
        assert((a + b).drop_last() =~= a + b.drop_last());
        lemma_terminal_events_add(a, b.drop_last());
    }
}

/// Appends an effect to the list being built.
pub fn push_effect(effects: &mut Vec<Effect>, effect: Effect)
    ensures
        effects_view(final(effects)@) == effects_view(old(effects)@).push(effect@),
{
    let ghost before = effects@;
    effects.push(effect);
    assert(effects_view(effects@) =~= effects_view(before).push(effect@));
}

} // verus!
