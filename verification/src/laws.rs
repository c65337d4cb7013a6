//! What holds of every run of the engine.

use crate::effects::{
    lemma_terminal_events_add, terminal_events, EffectView, InputView, Tick,
};
use crate::engine::{AgentCore, EngineView, Phase};
use crate::events::EventView;
use crate::history::{
    asks_at, assistant_at, law_push_assistant_after_settled, law_push_other_keeps_valid,
    law_repair_settles, law_trim_keeps_valid, repaired, resolved_between, resolves_at, settled,
    settled_but_last, valid_history, FALLBACK_MAX_MESSAGES,
};
use crate::message::{
    lemma_tool_use_ids_of_uses, tool_uses, BlockView, MessageRole, MessageView,
};
use crate::tools::ToolCallView;
use crate::machine::{
    error_result, interrupted_text, recorded, refused_text, result_message, tool_failed_text,
    Ending, Outcome,
};
use crate::tools::ToolResultView;
use crate::trajectory::EntryTypeView;
use vstd::prelude::*;

verus! {

/// Whether a reaction reports the end of the task exactly once if it ends
/// the task, and not at all if it does not; and hands out a result, as
/// its last effect and nowhere else, exactly if it ends the task.
pub open spec fn ends_once(o: Outcome) -> bool {
    &&& terminal_events(o.effects) == if o.state.phase == Phase::Idle {
        1nat
    } else {
        0nat
    }
    &&& o.effects.len() > 0
    &&& (o.effects.last() is Finish) == (o.state.phase == Phase::Idle)
}

proof fn lemma_count_single(e: EffectView)
    ensures
        terminal_events(seq![e]) == if e.is_terminal_event() {
            1nat
        } else {
            0nat
        },
{
    assert(seq![e].drop_last() =~= Seq::<EffectView>::empty());
    assert(terminal_events(Seq::<EffectView>::empty()) == 0);
}

proof fn lemma_count_empty()
    ensures
        terminal_events(Seq::<EffectView>::empty()) == 0,
{
}

proof fn lemma_count_recorded(recording: bool, entry: EntryTypeView, step: usize)
    ensures
        terminal_events(recorded(recording, entry, step)) == 0,
{
    if recording {
        lemma_count_single(EffectView::Record { entry, step });
    }
}

/// Effects that report no end of a task, put before a reaction, change
/// neither its count nor its last effect.
proof fn lemma_prefix(head: Seq<EffectView>, o: Outcome)
    requires
        terminal_events(head) == 0,
        ends_once(o),
    ensures
        ends_once(Outcome { state: o.state, effects: head + o.effects }),
{
    lemma_terminal_events_add(head, o.effects);
    assert((head + o.effects).last() == o.effects.last());
}

proof fn lemma_ended_once(s: EngineView, ending: Ending, tick: Tick)
    requires
        s.context.is_some(),
    ensures
        ends_once(s.ended(ending, tick)),
{
    let o = s.ended(ending, tick);
    let n = o.effects.len() as int;
    let emit = o.effects[n - 2];
    let finish = o.effects[n - 1];
    let journal = o.effects.subrange(0, n - 2);
    assert(o.effects =~= journal + seq![emit] + seq![finish]);
    lemma_count_single(emit);
    lemma_count_single(finish);
    lemma_terminal_events_add(journal, seq![emit]);
    lemma_terminal_events_add(journal + seq![emit], seq![finish]);
    match ending {
        Ending::Failed { .. } => {
            assert(journal =~= Seq::<EffectView>::empty());
        },
        _ => {
            let entry = EntryTypeView::TaskComplete {
                success: ending is Completed,
                summary: match ending {
                    Ending::Completed => crate::machine::completed_text(),
                    _ => crate::machine::incomplete_text(s.step),
                },
                total_steps: s.step,
                duration_ms: tick.elapsed_ms,
            };
            assert(journal =~= recorded(s.recording, entry, s.step));
            lemma_count_recorded(s.recording, entry, s.step);
        },
    }
}

proof fn lemma_loop_head_once(s: EngineView, tick: Tick)
    requires
        s.context.is_some(),
    ensures
        ends_once(s.loop_head(tick)),
{
    lemma_ended_once(s, Ending::Interrupted, tick);
    lemma_ended_once(s, Ending::Incomplete, tick);
    lemma_count_single(EffectView::Compress);
}

proof fn lemma_step_done_once(s: EngineView, completed: bool, tick: Tick)
    requires
        s.context.is_some(),
    ensures
        ends_once(s.step_done(completed, tick)),
{
    let entry = EntryTypeView::StepComplete {
        description: crate::machine::step_done_text(s.step),
        success: true,
    };
    lemma_count_recorded(s.recording, entry, s.step);
    if completed {
        lemma_ended_once(s, Ending::Completed, tick);
        lemma_prefix(recorded(s.recording, entry, s.step), s.ended(Ending::Completed, tick));
    } else {
        let cleared = EngineView { pending: Seq::empty(), next: 0, ..s };
        lemma_loop_head_once(cleared, tick);
        lemma_prefix(recorded(s.recording, entry, s.step), cleared.loop_head(tick));
    }
}

proof fn lemma_dispatch_once(s: EngineView, tick: Tick)
    requires
        s.context.is_some(),
    ensures
        ends_once(s.dispatch(tick)),
{
    if s.next >= s.pending.len() {
        lemma_step_done_once(s, false, tick);
    } else {
        let call = s.current_call();
        let started = EffectView::Emit {
            event: EventView::ToolExecutionStarted { tool_info: crate::events::started_info(call) },
        };
        let journal = recorded(s.recording, EntryTypeView::ToolCall { call }, s.step);
        lemma_count_single(started);
        lemma_count_recorded(s.recording, EntryTypeView::ToolCall { call }, s.step);
        lemma_terminal_events_add(seq![started], journal);
        let last = s.dispatch(tick).effects.last();
        lemma_count_single(last);
        lemma_terminal_events_add(seq![started] + journal, seq![last]);
        assert(s.dispatch(tick).effects =~= seq![started] + journal + seq![last]);
    }
}

proof fn lemma_result_effects_count(s: EngineView, result: ToolResultView)
    ensures
        terminal_events(s.result_effects(result)) == 0,
{
    let call = s.current_call();
    let reported = EffectView::Emit {
        event: EventView::ToolExecutionCompleted {
            tool_info: crate::events::completed_info(call, result),
        },
    };
    let journal = recorded(s.recording, EntryTypeView::ToolResult { result }, s.step);
    lemma_count_single(reported);
    lemma_count_recorded(s.recording, EntryTypeView::ToolResult { result }, s.step);
    lemma_count_empty();
    if crate::tools::streams_thoughts(s.tools, call.name) && crate::tools::thought_of(
        result,
    ).is_some() {
        let thought = EffectView::Emit {
            event: EventView::AgentThinking {
                step_number: s.step,
                thinking: crate::tools::thought_of(result).unwrap(),
            },
        };
        lemma_count_single(thought);
        lemma_terminal_events_add(seq![reported], seq![thought]);
        lemma_terminal_events_add(seq![reported] + seq![thought], journal);
    } else {
        lemma_terminal_events_add(seq![reported], Seq::<EffectView>::empty());
        lemma_terminal_events_add(seq![reported] + Seq::<EffectView>::empty(), journal);
    }
}

proof fn lemma_settle_once(s: EngineView, result: ToolResultView, tick: Tick)
    requires
        s.context.is_some(),
    ensures
        ends_once(s.settle(result, tick)),
{
    lemma_result_effects_count(s, result);
    let call = s.current_call();
    if crate::tools::signals_completion(s.tools, call.name) && result.success {
        lemma_step_done_once(s, true, tick);
        lemma_prefix(s.result_effects(result), s.step_done(true, tick));
    } else {
        let moved = EngineView {
            history: s.history.push(result_message(call, result)),
            next: s.next + 1,
            ..s
        };
        lemma_dispatch_once(moved, tick);
        lemma_prefix(s.result_effects(result), moved.dispatch(tick));
    }
}

proof fn lemma_begin_step_once(s: EngineView, tick: Tick)
    requires
        s.context.is_some(),
    ensures
        ends_once(s.begin_step(tick)),
{
    if tick.cancelled {
        lemma_ended_once(s, Ending::Interrupted, tick);
    } else {
        let step = (s.step + 1) as usize;
        let messages = crate::history::outbound(s.history, s.system_prompt);
        let entry = EntryTypeView::LlmRequest {
            messages,
            model: s.model_name,
            provider: s.provider_name,
        };
        lemma_count_recorded(s.recording, entry, step);
        lemma_count_single(EffectView::CallModel { messages });
        lemma_terminal_events_add(
            recorded(s.recording, entry, step),
            seq![EffectView::CallModel { messages }],
        );
    }
}

proof fn lemma_compression_report_count(s: EngineView, input: InputView)
    ensures
        terminal_events(s.compression_report(input)) == 0,
{
    lemma_count_empty();
    match input {
        InputView::Compressed { result } => {
            match result.compression_applied {
                Some(summary) => {
                    let events = crate::machine::compression_events(result.compression_applied);
                    lemma_count_single(events[0]);
                    lemma_count_single(events[1]);
                    lemma_terminal_events_add(seq![events[0]], seq![events[1]]);
                    assert(events =~= seq![events[0]] + seq![events[1]]);
                },
                None => {},
            }
        },
        InputView::CompressionFailed { error } => {
            lemma_count_single(s.compression_report(input)[0]);
            assert(s.compression_report(input) =~= seq![s.compression_report(input)[0]]);
        },
        _ => {},
    }
}

proof fn lemma_reply_effects_count(s: EngineView, response: crate::effects::ResponseView)
    ensures
        terminal_events(s.reply_effects(response)) == 0,
        terminal_events(EngineView::said(response.message)) == 0,
{
    lemma_count_empty();
    let entry = EntryTypeView::LlmResponse {
        message: response.message,
        usage: response.usage,
        finish_reason: response.finish_reason,
    };
    let journal = recorded(s.recording, entry, s.step);
    lemma_count_recorded(s.recording, entry, s.step);
    if response.usage.is_some() && s.context.is_some() {
        let counted = EffectView::Emit {
            event: EventView::TokenUsageUpdated {
                token_usage: s.with_usage(response.usage).unwrap().token_usage,
            },
        };
        lemma_count_single(counted);
        lemma_terminal_events_add(seq![counted], journal);
    } else {
        lemma_terminal_events_add(Seq::<EffectView>::empty(), journal);
    }
    let said = EngineView::said(response.message);
    if said.len() > 0 {
        lemma_count_single(said[0]);
        assert(said =~= seq![said[0]]);
    }
}

proof fn lemma_failure_effects_count(s: EngineView, error: Seq<char>)
    ensures
        terminal_events(s.failure_effects(error)) == 0,
{
    let shown = s.failure_effects(error)[0];
    let entry = EntryTypeView::Error { error, context: Some(crate::machine::step_label(s.step)) };
    lemma_count_single(shown);
    lemma_count_recorded(s.recording, entry, s.step);
    lemma_terminal_events_add(seq![shown], recorded(s.recording, entry, s.step));
    assert(s.failure_effects(error) =~= seq![shown] + recorded(s.recording, entry, s.step));
}

/// Every reaction to an expected input reports the end of the task
/// exactly once if it ends the task, and not at all if it does not.
pub proof fn law_reaction_ends_once(s: EngineView, input: InputView, tick: Tick)
    requires
        s.wf(),
        s.expects(input),
    ensures
        ends_once(s.react(input, tick)),
{
    match s.phase {
        Phase::Idle => {},
        Phase::Compressing => {
            let kept = s.compression_kept(input);
            lemma_compression_report_count(s, input);
            lemma_begin_step_once(kept, tick);
            lemma_prefix(s.compression_report(input), kept.begin_step(tick));
        },
        Phase::Thinking => {
            lemma_ended_once(s, Ending::Interrupted, tick);
            if !tick.cancelled {
                match input {
                    InputView::ModelReplied { response } => {
                        let kept = s.reply_kept(response);
                        lemma_reply_effects_count(s, response);
                        if response.message.has_tool_use() {
                            lemma_dispatch_once(kept, tick);
                            lemma_prefix(s.reply_effects(response), kept.dispatch(tick));
                        } else {
                            lemma_step_done_once(kept, false, tick);
                            lemma_terminal_events_add(
                                s.reply_effects(response),
                                EngineView::said(response.message),
                            );
                            lemma_prefix(
                                s.reply_effects(response) + EngineView::said(response.message),
                                kept.step_done(false, tick),
                            );
                        }
                    },
                    InputView::ModelFailed { error } => {
                        lemma_failure_effects_count(s, error);
                        lemma_ended_once(s, Ending::Failed { error }, tick);
                        lemma_prefix(
                            s.failure_effects(error),
                            s.ended(Ending::Failed { error }, tick),
                        );
                    },
                    _ => {},
                }
            }
        },
        Phase::Confirming => {
            lemma_ended_once(s, Ending::Interrupted, tick);
            lemma_count_single(EffectView::RunTool { call: s.current_call() });
            lemma_settle_once(s, error_result(s.current_call(), refused_text()), tick);
        },
        Phase::Running => {
            lemma_ended_once(s, Ending::Interrupted, tick);
            match input {
                InputView::ToolFinished { result } => {
                    lemma_settle_once(s, result, tick);
                },
                InputView::ToolFailed { error } => {
                    lemma_settle_once(
                        s,
                        error_result(s.current_call(), tool_failed_text(error)),
                        tick,
                    );
                },
                _ => {},
            }
        },
    }
}

/// The entry of a task reports the end of the task exactly once if the
/// task ends there, and not at all if it goes on.
pub proof fn law_entry_ends_once(
    s: EngineView,
    task: Seq<char>,
    project_path: Seq<char>,
    default_prompt: Seq<char>,
    system_context: Seq<char>,
    config_json: serde_json::Value,
    tick: Tick,
)
    ensures
        ends_once(s.begin(task, project_path, default_prompt, system_context, config_json, tick)),
{
    let context = crate::context::entered(s.context, task, project_path, s.config.max_steps);
    let started = EffectView::Emit { event: EventView::ExecutionStarted { context } };
    let entry = EntryTypeView::TaskStart { task, agent_config: config_json };
    let journal = recorded(s.recording, entry, 0);
    lemma_count_single(started);
    lemma_count_recorded(s.recording, entry, 0);
    lemma_terminal_events_add(seq![started], journal);
    let prompt = crate::engine::system_prompt_text(
        s.config.system_prompt,
        default_prompt,
        system_context,
        s.tools,
    );
    let seeded = if s.history.len() == 0 {
        seq![crate::machine::text_message(crate::message::MessageRole::System, prompt)]
    } else {
        s.history
    };
    let entered = EngineView {
        context: Some(context),
        history: crate::history::repaired(seeded).push(
            crate::machine::text_message(crate::message::MessageRole::User, task),
        ),
        step: 0,
        system_prompt: prompt,
        pending: Seq::empty(),
        next: 0,
        ..s
    };
    lemma_loop_head_once(entered, tick);
    lemma_prefix(seq![started] + journal, entered.loop_head(tick));
}

/// What a driver feeds the engine: an input and what was observed with it.
pub ghost struct Fed {
    pub input: InputView,
    pub tick: Tick,
}

/// Whether each input of the script is what the engine waits for when it
/// gets it, as long as the task runs.
pub open spec fn follows(s: EngineView, script: Seq<Fed>) -> bool
    decreases script.len(),
{
    if script.len() == 0 || s.phase == Phase::Idle {
        true
    } else {
        s.expects(script[0].input) && follows(
            s.react(script[0].input, script[0].tick).state,
            script.drop_first(),
        )
    }
}

/// The reactions to a script, one after the other, until the script or
/// the task is over.
pub open spec fn run(s: EngineView, script: Seq<Fed>) -> Outcome
    decreases script.len(),
{
    if script.len() == 0 || s.phase == Phase::Idle {
        Outcome { state: s, effects: Seq::empty() }
    } else {
        let first = s.react(script[0].input, script[0].tick);
        let rest = run(first.state, script.drop_first());
        Outcome { state: rest.state, effects: first.effects + rest.effects }
    }
}

/// A running task that is fed a script reports its end exactly once if
/// it ends, and not at all while it runs.
pub proof fn law_run_ends_once(s: EngineView, script: Seq<Fed>)
    requires
        s.wf(),
        s.phase != Phase::Idle,
        follows(s, script),
    ensures
        run(s, script).state.wf(),
        terminal_events(run(s, script).effects) == if run(s, script).state.phase == Phase::Idle {
            1nat
        } else {
            0nat
        },
    decreases script.len(),
{
    if script.len() > 0 {
        let first = s.react(script[0].input, script[0].tick);
        let rest = run(first.state, script.drop_first());
        law_reaction_ends_once(s, script[0].input, script[0].tick);
        crate::machine::law_react_keeps_wf(s, script[0].input, script[0].tick);
        lemma_terminal_events_add(first.effects, rest.effects);
        if first.state.phase != Phase::Idle {
            law_run_ends_once(first.state, script.drop_first());
        }
    }
}

/// One task invocation: its entry, and then the reactions to a script.
pub open spec fn invocation(
    s: EngineView,
    task: Seq<char>,
    project_path: Seq<char>,
    default_prompt: Seq<char>,
    system_context: Seq<char>,
    config_json: serde_json::Value,
    tick: Tick,
    script: Seq<Fed>,
) -> Outcome {
    let first = s.begin(task, project_path, default_prompt, system_context, config_json, tick);
    let rest = run(first.state, script);
    Outcome { state: rest.state, effects: first.effects + rest.effects }
}

/// A task invocation that has ended has reported exactly one terminal
/// event, completed or interrupted and never both; one that still runs
/// has reported none.
pub proof fn law_one_terminal_event(
    s: EngineView,
    task: Seq<char>,
    project_path: Seq<char>,
    default_prompt: Seq<char>,
    system_context: Seq<char>,
    config_json: serde_json::Value,
    tick: Tick,
    script: Seq<Fed>,
)
    requires
        follows(
            s.begin(task, project_path, default_prompt, system_context, config_json, tick).state,
            script,
        ),
    ensures
        ({
            let o = invocation(
                s,
                task,
                project_path,
                default_prompt,
                system_context,
                config_json,
                tick,
                script,
            );
            terminal_events(o.effects) == if o.state.phase == Phase::Idle {
                1nat
            } else {
                0nat
            }
        }),
{
    let first = s.begin(task, project_path, default_prompt, system_context, config_json, tick);
    let rest = run(first.state, script);
    law_entry_ends_once(s, task, project_path, default_prompt, system_context, config_json, tick);
    crate::machine::law_begin_keeps_wf(
        s,
        task,
        project_path,
        default_prompt,
        system_context,
        config_json,
        tick,
    );
    lemma_terminal_events_add(first.effects, rest.effects);
    if first.state.phase != Phase::Idle {
        law_run_ends_once(first.state, script);
    } else {
        lemma_count_empty();
    }
}

/// Whether the effects end a task as interrupted with no step taken: the
/// last two effects are the interrupted event, whose context counts no
/// step, and the result, a failure that counts none either.
pub open spec fn interrupted_at_start(o: Outcome) -> bool {
    let n = o.effects.len() as int;
    &&& o.state.phase == Phase::Idle
    &&& o.state.context.is_some()
    &&& o.state.context.unwrap().current_step == 0
    &&& n >= 2
    &&& o.effects[n - 2] is Emit
    &&& o.effects[n - 2]->event is ExecutionInterrupted
    &&& o.effects[n - 2]->event->ExecutionInterrupted_context.current_step == 0
    &&& o.effects[n - 1] is Finish
    &&& !o.effects[n - 1]->result.success
    &&& o.effects[n - 1]->result.steps_executed == 0
    &&& o.effects[n - 1]->result.final_result == interrupted_text()
    &&& forall|i: int|
        0 <= i < n ==> !((#[trigger] o.effects[i]) is Emit && o.effects[i]->event
            is ExecutionCompleted)
}

/// A stop signal observed at the entry of a task that may take a step
/// ends the task as interrupted with no step taken, and no completed
/// event is reported.
pub proof fn law_cancelled_at_entry(
    s: EngineView,
    task: Seq<char>,
    project_path: Seq<char>,
    default_prompt: Seq<char>,
    system_context: Seq<char>,
    config_json: serde_json::Value,
    tick: Tick,
)
    requires
        tick.cancelled,
        s.config.max_steps >= 1,
    ensures
        interrupted_at_start(
            s.begin(task, project_path, default_prompt, system_context, config_json, tick),
        ),
{
}

/// A stop signal observed after the first compression, before the first
/// call of the model, ends the task as interrupted with no step taken.
pub proof fn law_cancelled_before_first_step(s: EngineView, input: InputView, tick: Tick)
    requires
        s.wf(),
        s.phase == Phase::Compressing,
        s.expects(input),
        s.step == 0,
        tick.cancelled,
    ensures
        interrupted_at_start(s.react(input, tick)),
{
    lemma_compression_report_count(s, input);
    let report = s.compression_report(input);
    let rest = s.compression_kept(input).ended(Ending::Interrupted, tick);
    let o = s.react(input, tick);
    assert(o.effects =~= report + rest.effects);
    let n = o.effects.len() as int;
    assert forall|i: int| 0 <= i < n implies !((#[trigger] o.effects[i]) is Emit
        && o.effects[i]->event is ExecutionCompleted) by {
        if i < report.len() {
            assert(o.effects[i] == report[i]);
        } else {
            assert(o.effects[i] == rest.effects[i - report.len()]);
        }
    }
}

/// Restoring what was exported gives back the same configuration,
/// conversation and context, whenever the export was written.
pub proof fn law_export_restore(s: EngineView, other: EngineView, saved_at: i64)
    ensures
        AgentCore::restored(other, AgentCore::exported(s, saved_at)).config == s.config,
        AgentCore::restored(other, AgentCore::exported(s, saved_at)).history == s.history,
        AgentCore::restored(other, AgentCore::exported(s, saved_at)).context == s.context,
        AgentCore::restored(s, AgentCore::exported(s, saved_at)) == s,
{
}

/// The ids of a list of tool calls, in order.
pub open spec fn call_ids(calls: Seq<ToolCallView>) -> Seq<Seq<char>> {
    calls.map_values(|c: ToolCallView| c.id)
}

/// Where the message stands whose tool calls are pending: behind it
/// stand the results of the calls that are done, and nothing else.
pub open spec fn turn_start(s: EngineView) -> int {
    s.history.len() - 1 - s.next
}

/// Whether the history fits the tool calls being worked off: the pending
/// calls are the tool uses of the message at the start of the turn, each
/// call that is done has its result behind that message, in order, and
/// what stands before the turn is settled.
pub open spec fn open_turn(s: EngineView) -> bool {
    let a = turn_start(s);
    &&& 0 <= a
    &&& s.next <= s.pending.len()
    &&& settled(s.history.subrange(0, a))
    &&& s.history[a].tool_use_ids() == call_ids(s.pending)
    &&& forall|k: int|
        0 <= k < s.next ==> #[trigger] resolves_at(s.history, a + 1 + k, s.pending[k].id)
}

/// Whether the stored history is valid and fits what the engine waits
/// for: settled where the model is about to be called, an open turn
/// where tools are being run.
pub open spec fn coherent(s: EngineView) -> bool {
    &&& valid_history(s.history)
    &&& (s.phase == Phase::Compressing || s.phase == Phase::Thinking) ==> settled(s.history)
    &&& (s.phase == Phase::Confirming || s.phase == Phase::Running) ==> open_turn(s)
}

/// What the engine relies on in what collaborators hand it: messages
/// from the conversation manager that a model call may follow, and
/// replies of the model in the assistant's role.
pub open spec fn input_fit(input: InputView) -> bool {
    match input {
        InputView::Compressed { result } => settled(result.messages),
        InputView::ModelReplied { response } => response.message.role == MessageRole::Assistant,
        _ => true,
    }
}

/// A history whose part before a message is settled, and in which only
/// tool messages follow that message, is valid; it is settled if each
/// tool use of the message has its result among them.
proof fn lemma_turn_valid(h: Seq<MessageView>, a: int)
    requires
        0 <= a < h.len(),
        settled(h.subrange(0, a)),
        forall|k: int| a < k < h.len() ==> (#[trigger] h[k]).role == MessageRole::Tool,
    ensures
        valid_history(h),
        (forall|id: Seq<char>|
            #![trigger asks_at(h, a, id)]
            asks_at(h, a, id) ==> resolved_between(h, id, a, h.len() as int)) ==> settled(h),
{
    let p = h.subrange(0, a);
    assert forall|k: int, id: Seq<char>| #![trigger resolves_at(p, k, id)] resolves_at(
        p,
        k,
        id,
    ) implies resolves_at(h, k, id) by {
        assert(p[k] == h[k]);
    }
    assert forall|i: int, id: Seq<char>| #![trigger asks_at(h, i, id)] asks_at(h, i, id) && i
        < a implies asks_at(p, i, id) && resolved_between(h, id, i, a) by {
        assert(p[i] == h[i]);
        assert(asks_at(p, i, id));
        let k = choose|k: int| i < k < p.len() && #[trigger] resolves_at(p, k, id);
        assert(resolves_at(h, k, id));
    }
    assert forall|i: int, j: int, id: Seq<char>|
        #![trigger asks_at(h, i, id), assistant_at(h, j)]
        asks_at(h, i, id) && assistant_at(h, j) && i < j implies resolved_between(h, id, i, j) by {
        assert(j <= a) by {
            if j > a {
                assert(h[j].role == MessageRole::Tool);
            }
        }
        if j < a {
            assert(p[i] == h[i] && p[j] == h[j]);
            assert(asks_at(p, i, id) && assistant_at(p, j));
            let k = choose|k: int| i < k < j && #[trigger] resolves_at(p, k, id);
            assert(resolves_at(h, k, id));
        } else {
            assert(resolved_between(h, id, i, a));
        }
    }
    if forall|id: Seq<char>|
        #![trigger asks_at(h, a, id)]
        asks_at(h, a, id) ==> resolved_between(h, id, a, h.len() as int) {
        assert forall|i: int, id: Seq<char>| #![trigger asks_at(h, i, id)] asks_at(h, i, id) && i
            < h.len() implies resolved_between(h, id, i, h.len() as int) by {
            if i < a {
                let k = choose|k: int| i < k < a && #[trigger] resolves_at(h, k, id);
                assert(resolves_at(h, k, id));
            } else if i > a {
                assert(h[i].role == MessageRole::Tool);
            }
        }
    }
}

/// In an open turn only tool messages follow the message at its start.
proof fn lemma_open_turn_tail(s: EngineView)
    requires
        open_turn(s),
    ensures
        forall|k: int|
            turn_start(s) < k < s.history.len() ==> (#[trigger] s.history[k]).role
                == MessageRole::Tool,
        valid_history(s.history),
{
    let a = turn_start(s);
    assert forall|k: int| a < k < s.history.len() implies (#[trigger] s.history[k]).role
        == MessageRole::Tool by {
        assert(resolves_at(s.history, a + 1 + (k - a - 1), s.pending[k - a - 1].id));
    }
    lemma_turn_valid(s.history, a);
}

/// An open turn in which every call is done is settled.
proof fn lemma_closed_turn_settled(s: EngineView)
    requires
        open_turn(s),
        s.next == s.pending.len(),
    ensures
        settled(s.history),
{
    let a = turn_start(s);
    let h = s.history;
    lemma_open_turn_tail(s);
    assert forall|id: Seq<char>| #![trigger asks_at(h, a, id)] asks_at(h, a, id) implies resolved_between(
        h,
        id,
        a,
        h.len() as int,
    ) by {
        let ids = h[a].tool_use_ids();
        let u = choose|u: int| 0 <= u < ids.len() && ids[u] == id;
        assert(call_ids(s.pending)[u] == s.pending[u].id);
        assert(resolves_at(h, a + 1 + u, s.pending[u].id));
    }
    lemma_turn_valid(h, a);
}

/// The pending calls of a reply are its tool uses, id for id.
proof fn lemma_reply_ids(m: MessageView)
    ensures
        call_ids(m.tool_uses().map_values(|b: BlockView| crate::machine::call_of(b)))
            == m.tool_use_ids(),
{
    lemma_tool_use_ids_of_uses(m.blocks());
    let calls = m.tool_uses().map_values(|b: BlockView| crate::machine::call_of(b));
    assert forall|i: int| 0 <= i < calls.len() implies call_ids(calls)[i]
        == m.tool_use_ids()[i] by {
        assert(tool_uses(m.blocks())[i] is ToolUse);
    }
    assert(call_ids(calls) =~= m.tool_use_ids());
}

/// The end of a task does not touch the history.
proof fn lemma_ended_history(s: EngineView, ending: Ending, tick: Tick)
    ensures
        s.ended(ending, tick).state.history == s.history,
        s.ended(ending, tick).state.phase == Phase::Idle,
{
}

/// From a settled history the loop goes on coherently.
proof fn lemma_loop_head_coherent(s: EngineView, tick: Tick)
    requires
        settled(s.history),
    ensures
        coherent(s.loop_head(tick).state),
        settled(s.loop_head(tick).state.history),
{
}

/// From a settled history a step ends coherently.
proof fn lemma_step_done_coherent(s: EngineView, completed: bool, tick: Tick)
    requires
        valid_history(s.history),
        !completed ==> settled(s.history),
    ensures
        coherent(s.step_done(completed, tick).state),
        s.step_done(completed, tick).state.history == s.history,
{
    if !completed {
        lemma_loop_head_coherent(EngineView { pending: Seq::empty(), next: 0, ..s }, tick);
    }
}

/// Taking up the next call of an open turn is coherent.
proof fn lemma_dispatch_coherent(s: EngineView, tick: Tick)
    requires
        open_turn(s),
    ensures
        coherent(s.dispatch(tick).state),
        s.dispatch(tick).state.history == s.history,
{
    lemma_open_turn_tail(s);
    if s.next >= s.pending.len() {
        lemma_closed_turn_settled(s);
        lemma_step_done_coherent(s, false, tick);
    } else {
        let o = s.dispatch(tick).state;
        assert(turn_start(o) == turn_start(s));
        assert(open_turn(o));
    }
}

/// Settling the current call of an open turn is coherent.
proof fn lemma_settle_coherent(s: EngineView, result: ToolResultView, tick: Tick)
    requires
        open_turn(s),
        s.next < s.pending.len(),
    ensures
        coherent(s.settle(result, tick).state),
{
    lemma_open_turn_tail(s);
    let call = s.current_call();
    if crate::tools::signals_completion(s.tools, call.name) && result.success {
        lemma_step_done_coherent(s, true, tick);
    } else {
        let message = result_message(call, result);
        let moved = EngineView {
            history: s.history.push(message),
            next: s.next + 1,
            ..s
        };
        let a = turn_start(s);
        assert(turn_start(moved) == a);
        assert(moved.history.subrange(0, a) =~= s.history.subrange(0, a));
        assert(moved.history[a] == s.history[a]);
        assert forall|k: int| 0 <= k < moved.next implies #[trigger] resolves_at(
            moved.history,
            a + 1 + k,
            moved.pending[k].id,
        ) by {
            if k < s.next {
                assert(resolves_at(s.history, a + 1 + k, s.pending[k].id));
                assert(moved.history[a + 1 + k] == s.history[a + 1 + k]);
            } else {
                assert(moved.history[a + 1 + k] == message);
                assert(crate::history::is_result_for(message.blocks()[0], call.id));
            }
        }
        assert(open_turn(moved));
        lemma_dispatch_coherent(moved, tick);
    }
}

/// Every reaction keeps the stored history valid: with collaborators
/// that keep their part, no assistant message is ever followed by a
/// further one before each of its tool uses has a result.
pub proof fn law_reaction_keeps_history_valid(s: EngineView, input: InputView, tick: Tick)
    requires
        s.wf(),
        s.expects(input),
        coherent(s),
        input_fit(input),
    ensures
        coherent(s.react(input, tick).state),
        valid_history(s.react(input, tick).state.history),
{
    match s.phase {
        Phase::Idle => {},
        Phase::Compressing => {
            let kept = s.compression_kept(input);
            law_trim_keeps_valid(s.history, FALLBACK_MAX_MESSAGES as nat);
            assert(settled(kept.history));
            lemma_ended_history(kept, Ending::Interrupted, tick);
        },
        Phase::Thinking => {
            lemma_ended_history(s, Ending::Interrupted, tick);
            if !tick.cancelled {
                match input {
                    InputView::ModelReplied { response } => {
                        let kept = s.reply_kept(response);
                        let m = response.message;
                        law_push_assistant_after_settled(s.history, m);
                        if m.has_tool_use() {
                            lemma_reply_ids(m);
                            assert(kept.history.subrange(0, turn_start(kept)) =~= s.history);
                            assert(open_turn(kept));
                            lemma_dispatch_coherent(kept, tick);
                        } else {
                            lemma_tool_use_ids_of_uses(m.blocks());
                            assert forall|i: int, id: Seq<char>|
                                #![trigger asks_at(kept.history, i, id)]
                                asks_at(kept.history, i, id) && i
                                    < kept.history.len() implies resolved_between(
                                kept.history,
                                id,
                                i,
                                kept.history.len() as int,
                            ) by {
                                if i == kept.history.len() - 1 {
                                    assert(kept.history[i] == m);
                                    assert(m.tool_use_ids().len() == 0);
                                }
                            }
                            assert(settled(kept.history));
                            lemma_step_done_coherent(kept, false, tick);
                        }
                    },
                    InputView::ModelFailed { error } => {
                        lemma_ended_history(s, Ending::Failed { error }, tick);
                    },
                    _ => {},
                }
            }
        },
        Phase::Confirming => {
            lemma_ended_history(s, Ending::Interrupted, tick);
            lemma_open_turn_tail(s);
            lemma_settle_coherent(s, error_result(s.current_call(), refused_text()), tick);
            let o = s.react(input, tick).state;
            if !tick.cancelled && input == (InputView::Confirmed {
                outcome: crate::effects::ConfirmationOutcome::Approved,
            }) {
                assert(turn_start(o) == turn_start(s));
                assert(open_turn(o));
            }
        },
        Phase::Running => {
            lemma_ended_history(s, Ending::Interrupted, tick);
            lemma_open_turn_tail(s);
            match input {
                InputView::ToolFinished { result } => {
                    lemma_settle_coherent(s, result, tick);
                },
                InputView::ToolFailed { error } => {
                    lemma_settle_coherent(
                        s,
                        error_result(s.current_call(), tool_failed_text(error)),
                        tick,
                    );
                },
                _ => {},
            }
        },
    }
}

/// The entry of a task keeps the stored history valid, provided that at
/// most the last message of the history still waits for results.
pub proof fn law_entry_keeps_history_valid(
    s: EngineView,
    task: Seq<char>,
    project_path: Seq<char>,
    default_prompt: Seq<char>,
    system_context: Seq<char>,
    config_json: serde_json::Value,
    tick: Tick,
)
    requires
        settled_but_last(s.history),
    ensures
        coherent(s.begin(task, project_path, default_prompt, system_context, config_json, tick).state),
        settled(
            s.begin(
                task,
                project_path,
                default_prompt,
                system_context,
                config_json,
                tick,
            ).state.history,
        ),
{
    let context = crate::context::entered(s.context, task, project_path, s.config.max_steps);
    let prompt = crate::engine::system_prompt_text(
        s.config.system_prompt,
        default_prompt,
        system_context,
        s.tools,
    );
    let system = crate::machine::text_message(MessageRole::System, prompt);
    let seeded = if s.history.len() == 0 {
        seq![system]
    } else {
        s.history
    };
    if s.history.len() == 0 {
        assert(settled_but_last(seeded)) by {
            assert forall|i: int, id: Seq<char>| !asks_at(seeded, i, id) by {
                if 0 <= i < seeded.len() {
                    assert(seeded[i] == system);
                }
            }
        }
    }
    law_repair_settles(seeded);
    let user = crate::machine::text_message(MessageRole::User, task);
    law_push_other_keeps_valid(repaired(seeded), user);
    let entered = EngineView {
        context: Some(context),
        history: repaired(seeded).push(user),
        step: 0,
        system_prompt: prompt,
        pending: Seq::empty(),
        next: 0,
        ..s
    };
    lemma_loop_head_coherent(entered, tick);
}

/// Whether every input of a script is one the engine's collaborators may
/// hand it.
pub open spec fn all_fit(script: Seq<Fed>) -> bool {
    forall|i: int| 0 <= i < script.len() ==> input_fit((#[trigger] script[i]).input)
}

/// Feeding a running task a script keeps the stored history valid.
pub proof fn law_run_keeps_history_valid(s: EngineView, script: Seq<Fed>)
    requires
        s.wf(),
        coherent(s),
        follows(s, script),
        all_fit(script),
    ensures
        coherent(run(s, script).state),
        valid_history(run(s, script).state.history),
    decreases script.len(),
{
    if script.len() > 0 && s.phase != Phase::Idle {
        let first = s.react(script[0].input, script[0].tick);
        assert(input_fit(script[0].input));
        law_reaction_keeps_history_valid(s, script[0].input, script[0].tick);
        crate::machine::law_react_keeps_wf(s, script[0].input, script[0].tick);
        let rest = script.drop_first();
        assert forall|i: int| 0 <= i < rest.len() implies input_fit((#[trigger] rest[i]).input) by {
            assert(rest[i] == script[i + 1]);
        }
        law_run_keeps_history_valid(first.state, rest);
    }
}

/// A whole task invocation keeps the stored history valid, provided that
/// at its entry at most the last message still waits for results.
pub proof fn law_invocation_keeps_history_valid(
    s: EngineView,
    task: Seq<char>,
    project_path: Seq<char>,
    default_prompt: Seq<char>,
    system_context: Seq<char>,
    config_json: serde_json::Value,
    tick: Tick,
    script: Seq<Fed>,
)
    requires
        settled_but_last(s.history),
        follows(
            s.begin(task, project_path, default_prompt, system_context, config_json, tick).state,
            script,
        ),
        all_fit(script),
    ensures
        valid_history(
            invocation(
                s,
                task,
                project_path,
                default_prompt,
                system_context,
                config_json,
                tick,
                script,
            ).state.history,
        ),
{
    let first = s.begin(task, project_path, default_prompt, system_context, config_json, tick);
    law_entry_keeps_history_valid(
        s,
        task,
        project_path,
        default_prompt,
        system_context,
        config_json,
        tick,
    );
    crate::machine::law_begin_keeps_wf(
        s,
        task,
        project_path,
        default_prompt,
        system_context,
        config_json,
        tick,
    );
    law_run_keeps_history_valid(first.state, script);
}

/// A task that ends leaves a history which the next entry can repair,
/// unless it was cut short after some but not all results of one
/// assistant message had been appended.
pub proof fn law_end_leaves_repairable(s: EngineView, input: InputView, tick: Tick)
    requires
        s.wf(),
        s.expects(input),
        coherent(s),
        input_fit(input),
        s.react(input, tick).state.phase == Phase::Idle,
        (s.phase == Phase::Confirming || s.phase == Phase::Running) && s.react(
            input,
            tick,
        ).state.history == s.history ==> s.next == 0,
    ensures
        settled_but_last(s.react(input, tick).state.history),
{
    let o = s.react(input, tick).state;
    law_reaction_keeps_history_valid(s, input, tick);
    match s.phase {
        Phase::Idle => {},
        Phase::Compressing => {
            let kept = s.compression_kept(input);
            law_trim_keeps_valid(s.history, FALLBACK_MAX_MESSAGES as nat);
            lemma_ended_history(kept, Ending::Interrupted, tick);
            assert(settled(o.history));
        },
        Phase::Thinking => {
            lemma_ended_history(s, Ending::Interrupted, tick);
            if !tick.cancelled {
                match input {
                    InputView::ModelReplied { response } => {
                        let kept = s.reply_kept(response);
                        law_push_assistant_after_settled(s.history, response.message);
                        if response.message.has_tool_use() {
                            lemma_reply_ids(response.message);
                            assert(kept.history.subrange(0, turn_start(kept)) =~= s.history);
                            assert(open_turn(kept));
                            lemma_dispatch_coherent(kept, tick);
                        } else {
                            lemma_step_done_coherent_keeps(kept, tick);
                        }
                        assert(o.history == kept.history);
                    },
                    InputView::ModelFailed { error } => {
                        lemma_ended_history(s, Ending::Failed { error }, tick);
                    },
                    _ => {},
                }
            }
        },
        _ => {
            lemma_open_turn_tail(s);
            lemma_ended_history(s, Ending::Interrupted, tick);
            if o.history == s.history {
                let h = s.history;
                assert(turn_start(s) == h.len() - 1);
                assert(h.subrange(0, h.len() - 1) == h.drop_last());
                lemma_prefix_settled(h);
            } else {
                let result = match input {
                    InputView::ToolFinished { result } => result,
                    InputView::ToolFailed { error } => error_result(
                        s.current_call(),
                        tool_failed_text(error),
                    ),
                    _ => error_result(s.current_call(), refused_text()),
                };
                lemma_settle_end_settled(s, result, tick);
            }
        },
    }
}

/// The end of a step that does not complete the task leaves the history
/// as it was.
proof fn lemma_step_done_coherent_keeps(s: EngineView, tick: Tick)
    ensures
        s.step_done(false, tick).state.history == s.history,
        s.dispatch(tick).state.history == s.history,
{
}

/// A valid history whose part before the last message is settled waits
/// at most with its last message.
proof fn lemma_prefix_settled(h: Seq<MessageView>)
    requires
        h.len() > 0,
        valid_history(h),
        settled(h.drop_last()),
    ensures
        settled_but_last(h),
{
    let p = h.drop_last();
    assert forall|i: int, id: Seq<char>| #![trigger asks_at(h, i, id)] asks_at(h, i, id) && i
        < h.len() - 1 implies resolved_between(h, id, i, h.len() as int) by {
        assert(p[i] == h[i]);
        assert(asks_at(p, i, id));
        let k = choose|k: int| i < k < p.len() && #[trigger] resolves_at(p, k, id);
        assert(p[k] == h[k]);
        assert(resolves_at(h, k, id));
    }
}

/// Where settling a call appends its result and the task ends, every
/// call of the turn is done and the history is settled.
proof fn lemma_settle_end_settled(s: EngineView, result: ToolResultView, tick: Tick)
    requires
        open_turn(s),
        s.next < s.pending.len(),
        s.settle(result, tick).state.phase == Phase::Idle,
        s.settle(result, tick).state.history != s.history,
    ensures
        settled(s.settle(result, tick).state.history),
{
    lemma_open_turn_tail(s);
    let call = s.current_call();
    if crate::tools::signals_completion(s.tools, call.name) && result.success {
        lemma_step_done_coherent(s, true, tick);
    } else {
        let message = result_message(call, result);
        let moved = EngineView {
            history: s.history.push(message),
            next: s.next + 1,
            ..s
        };
        let a = turn_start(s);
        assert(turn_start(moved) == a);
        assert(moved.history.subrange(0, a) =~= s.history.subrange(0, a));
        assert(moved.history[a] == s.history[a]);
        assert forall|k: int| 0 <= k < moved.next implies #[trigger] resolves_at(
            moved.history,
            a + 1 + k,
            moved.pending[k].id,
        ) by {
            if k < s.next {
                assert(resolves_at(s.history, a + 1 + k, s.pending[k].id));
                assert(moved.history[a + 1 + k] == s.history[a + 1 + k]);
            } else {
                assert(moved.history[a + 1 + k] == message);
                assert(crate::history::is_result_for(message.blocks()[0], call.id));
            }
        }
        assert(open_turn(moved));
        lemma_dispatch_coherent(moved, tick);
        if moved.next >= moved.pending.len() {
            lemma_closed_turn_settled(moved);
        }
    }
}

} // verus!
