//! The persisted snapshot of an engine's conversation and context.

use crate::config::{AgentConfig, ConfigView};
use crate::context::{opt_context_view, AgentExecutionContext, ContextView};
use crate::message::{messages_view, LlmMessage, MessageView};
use crate::trajectory::now_millis;
use vstd::prelude::*;

verus! {

/// The version of the snapshot format.
pub const SNAPSHOT_VERSION: u32 = 1;

/// A versioned snapshot of an agent's context. It holds no live resource.
#[derive(Debug)]
pub struct PersistedAgentContext {
    /// The version of the format.
    pub version: u32,
    /// The kind of engine that wrote the snapshot.
    pub agent_type: String,
    /// When it was written: milliseconds since the Unix epoch, UTC.
    pub saved_at: i64,
    /// The configuration at that time, if it was captured.
    pub config: Option<AgentConfig>,
    /// The whole conversation.
    pub conversation_history: Vec<LlmMessage>,
    /// The execution context, if there was one.
    pub execution_context: Option<AgentExecutionContext>,
}

/// Model of a [`PersistedAgentContext`].
pub ghost struct SnapshotView {
    pub version: u32,
    pub agent_type: Seq<char>,
    pub saved_at: i64,
    pub config: Option<ConfigView>,
    pub conversation_history: Seq<MessageView>,
    pub execution_context: Option<ContextView>,
}

/// The model of an optional configuration.
pub open spec fn opt_config_view(c: Option<AgentConfig>) -> Option<ConfigView> {
    match c {
        Some(c) => Some(c@),
        None => None,
    }
}

impl View for PersistedAgentContext {
    type V = SnapshotView;

    open spec fn view(&self) -> SnapshotView {
        SnapshotView {
            version: self.version,
            agent_type: self.agent_type@,
            saved_at: self.saved_at,
            config: opt_config_view(self.config),
            conversation_history: messages_view(self.conversation_history@),
            execution_context: opt_context_view(self.execution_context),
        }
    }
}

impl PersistedAgentContext {
    /// A snapshot written at the given time.
    pub fn at(
        saved_at: i64,
        agent_type: String,
        config: Option<AgentConfig>,
        conversation_history: Vec<LlmMessage>,
        execution_context: Option<AgentExecutionContext>,
    ) -> (r: Self)
        ensures
            r@ == (SnapshotView {
                version: SNAPSHOT_VERSION,
                agent_type: agent_type@,
                saved_at,
                config: opt_config_view(config),
                conversation_history: messages_view(conversation_history@),
                execution_context: opt_context_view(execution_context),
            }),
    {
        PersistedAgentContext {
            version: SNAPSHOT_VERSION,
            agent_type,
            saved_at,
            config,
            conversation_history,
            execution_context,
        }
    }

    /// A snapshot written now.
    pub fn new(
        agent_type: String,
        config: Option<AgentConfig>,
        conversation_history: Vec<LlmMessage>,
        execution_context: Option<AgentExecutionContext>,
    ) -> (r: Self)
        ensures
            r@ == (SnapshotView {
                version: SNAPSHOT_VERSION,
                agent_type: agent_type@,
                saved_at: r@.saved_at,
                config: opt_config_view(config),
                conversation_history: messages_view(conversation_history@),
                execution_context: opt_context_view(execution_context),
            }),
    {
        PersistedAgentContext::at(
            now_millis(),
            agent_type,
            config,
            conversation_history,
            execution_context,
        )
    }
}

} // verus!
