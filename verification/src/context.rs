//! Run metadata: token counters, the execution context and the result of a
//! task.

use vstd::prelude::*;

verus! {

/// Token counts reported by the model for one call.
#[derive(Debug, Clone, Copy, PartialEq, Eq, Structural)]
pub struct Usage {
    pub prompt_tokens: u32,
    pub completion_tokens: u32,
    pub total_tokens: u32,
}

/// Accumulated token counts of a run.
#[derive(Debug, Clone, Copy, PartialEq, Eq, Structural)]
pub struct TokenUsage {
    pub input_tokens: u32,
    pub output_tokens: u32,
    pub total_tokens: u32,
}

/// The sum of two counters, held at the largest value a counter can take.
pub open spec fn capped_sum(a: u32, b: u32) -> u32 {
    if a + b > u32::MAX {
        u32::MAX
    } else {
        (a + b) as u32
    }
}

impl Default for TokenUsage {
    fn default() -> (r: Self)
        ensures
            r == (TokenUsage { input_tokens: 0, output_tokens: 0, total_tokens: 0 }),
    {
        TokenUsage { input_tokens: 0, output_tokens: 0, total_tokens: 0 }
    }
}

impl TokenUsage {
    /// The counters after one more model call.
    pub open spec fn plus(self, usage: Usage) -> TokenUsage {
        TokenUsage {
            input_tokens: capped_sum(self.input_tokens, usage.prompt_tokens),
            output_tokens: capped_sum(self.output_tokens, usage.completion_tokens),
            total_tokens: capped_sum(self.total_tokens, usage.total_tokens),
        }
    }

    /// Adds the counts of one model call. A counter that would pass the
    /// largest value stays there.
    pub fn accumulate(&mut self, usage: Usage)
        ensures
            *final(self) == old(self).plus(usage),
    {
        self.input_tokens = self.input_tokens.saturating_add(usage.prompt_tokens);
        self.output_tokens = self.output_tokens.saturating_add(usage.completion_tokens);
        self.total_tokens = self.total_tokens.saturating_add(usage.total_tokens);
    }
}

/// No counter ever decreases.
pub proof fn law_usage_monotonic(before: TokenUsage, usage: Usage)
    ensures
        before.plus(usage).input_tokens >= before.input_tokens,
        before.plus(usage).output_tokens >= before.output_tokens,
        before.plus(usage).total_tokens >= before.total_tokens,
{
}

/// The identifier every engine of this kind reports.
pub open spec fn agent_type_name() -> Seq<char> {
    "coro_agent"@
}

/// Metadata of the run an engine is in, or was last in.
#[derive(Debug)]
pub struct AgentExecutionContext {
    pub agent_id: String,
    /// The first task this engine was given; kept for its whole life.
    pub original_goal: String,
    /// The task of the current invocation.
    pub current_task: String,
    pub project_path: String,
    pub max_steps: usize,
    /// Steps taken in the current invocation.
    pub current_step: usize,
    /// Wall-clock time of the last finished invocation, in milliseconds.
    pub execution_time_ms: u64,
    pub token_usage: TokenUsage,
}

/// Model of an [`AgentExecutionContext`].
pub ghost struct ContextView {
    pub agent_id: Seq<char>,
    pub original_goal: Seq<char>,
    pub current_task: Seq<char>,
    pub project_path: Seq<char>,
    pub max_steps: usize,
    pub current_step: usize,
    pub execution_time_ms: u64,
    pub token_usage: TokenUsage,
}

impl View for AgentExecutionContext {
    type V = ContextView;

    open spec fn view(&self) -> ContextView {
        ContextView {
            agent_id: self.agent_id@,
            original_goal: self.original_goal@,
            current_task: self.current_task@,
            project_path: self.project_path@,
            max_steps: self.max_steps,
            current_step: self.current_step,
            execution_time_ms: self.execution_time_ms,
            token_usage: self.token_usage,
        }
    }
}

impl Clone for AgentExecutionContext {
    fn clone(&self) -> (r: Self)
        ensures
            r@ == self@,
    {
        AgentExecutionContext {
            agent_id: self.agent_id.clone(),
            original_goal: self.original_goal.clone(),
            current_task: self.current_task.clone(),
            project_path: self.project_path.clone(),
            max_steps: self.max_steps,
            current_step: self.current_step,
            execution_time_ms: self.execution_time_ms,
            token_usage: self.token_usage,
        }
    }
}

/// The model of an optional context.
pub open spec fn opt_context_view(c: Option<AgentExecutionContext>) -> Option<ContextView> {
    match c {
        Some(c) => Some(c@),
        None => None,
    }
}

/// The context of a first task.
pub open spec fn fresh_context(task: Seq<char>, project_path: Seq<char>, max_steps: usize) -> ContextView {
    ContextView {
        agent_id: agent_type_name(),
        original_goal: task,
        current_task: task,
        project_path,
        max_steps,
        current_step: 0,
        execution_time_ms: 0,
        token_usage: TokenUsage { input_tokens: 0, output_tokens: 0, total_tokens: 0 },
    }
}

/// The context at the entry of a task: a fresh one where there was none;
/// otherwise the old one with the new task and the step count reset, the
/// original goal and everything else kept.
pub open spec fn entered(
    old_context: Option<ContextView>,
    task: Seq<char>,
    project_path: Seq<char>,
    max_steps: usize,
) -> ContextView {
    match old_context {
        None => fresh_context(task, project_path, max_steps),
        Some(c) => ContextView { current_task: task, current_step: 0, ..c },
    }
}

/// Establishes the context of a task on entry.
pub fn enter_task(
    context: &mut Option<AgentExecutionContext>,
    task: &str,
    project_path: &str,
    max_steps: usize,
)
    ensures
        opt_context_view(*final(context)) == Some(
            entered(opt_context_view(*old(context)), task@, project_path@, max_steps),
        ),
{
    let previous = context.take();
    let next = match previous {
        Some(c) => AgentExecutionContext {
            agent_id: c.agent_id,
            original_goal: c.original_goal,
            current_task: task.to_owned(),
            project_path: c.project_path,
            max_steps: c.max_steps,
            current_step: 0,
            execution_time_ms: c.execution_time_ms,
            token_usage: c.token_usage,
        },
        None => AgentExecutionContext {
            agent_id: "coro_agent".to_owned(),
            original_goal: task.to_owned(),
            current_task: task.to_owned(),
            project_path: project_path.to_owned(),
            max_steps,
            current_step: 0,
            execution_time_ms: 0,
            token_usage: TokenUsage::default(),
        },
    };
    *context = Some(next);
}

/// The original goal survives every later entry.
pub proof fn law_original_goal_kept(
    c: ContextView,
    task: Seq<char>,
    project_path: Seq<char>,
    max_steps: usize,
)
    ensures
        entered(Some(c), task, project_path, max_steps).original_goal == c.original_goal,
        entered(Some(c), task, project_path, max_steps).current_task == task,
        entered(Some(c), task, project_path, max_steps).current_step == 0,
        entered(None, task, project_path, max_steps).original_goal == task,
{
}

/// What a task invocation returns.
#[derive(Debug)]
pub struct AgentExecution {
    pub success: bool,
    pub final_result: String,
    pub steps_executed: usize,
    pub duration_ms: u64,
}

/// Model of an [`AgentExecution`].
pub ghost struct ExecutionView {
    pub success: bool,
    pub final_result: Seq<char>,
    pub steps_executed: usize,
    pub duration_ms: u64,
}

impl View for AgentExecution {
    type V = ExecutionView;

    open spec fn view(&self) -> ExecutionView {
        ExecutionView {
            success: self.success,
            final_result: self.final_result@,
            steps_executed: self.steps_executed,
            duration_ms: self.duration_ms,
        }
    }
}

impl Clone for AgentExecution {
    fn clone(&self) -> (r: Self)
        ensures
            r@ == self@,
    {
        AgentExecution {
            success: self.success,
            final_result: self.final_result.clone(),
            steps_executed: self.steps_executed,
            duration_ms: self.duration_ms,
        }
    }
}

impl AgentExecution {
    /// A successful result.
    pub fn success(final_result: String, steps_executed: usize, duration_ms: u64) -> (r: Self)
        ensures
            r@ == (ExecutionView {
                success: true,
                final_result: final_result@,
                steps_executed,
                duration_ms,
            }),
    {
        AgentExecution { success: true, final_result, steps_executed, duration_ms }
    }

    /// A failed result.
    pub fn failure(final_result: String, steps_executed: usize, duration_ms: u64) -> (r: Self)
        ensures
            r@ == (ExecutionView {
                success: false,
                final_result: final_result@,
                steps_executed,
                duration_ms,
            }),
    {
        AgentExecution { success: false, final_result, steps_executed, duration_ms }
    }
}

} // verus!
