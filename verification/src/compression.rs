//! The token-budget rule of the conversation manager: when to compress,
//! and how hard.
//!
//! Estimating tokens and rewriting messages are capabilities of
//! collaborators. The rule takes their numbers and decides.

use crate::message::{messages_view, LlmMessage, MessageView};
use vstd::prelude::*;

verus! {

/// How hard the history is compressed. Later levels press harder and
/// leave less.
#[derive(Debug, Clone, Copy, PartialEq, Eq, Structural)]
pub enum CompressionLevel {
    Light,
    Medium,
    Heavy,
}

impl CompressionLevel {
    /// The place of the level in the order of escalation, from 0.
    pub open spec fn rank(self) -> nat {
        match self {
            CompressionLevel::Light => 0,
            CompressionLevel::Medium => 1,
            CompressionLevel::Heavy => 2,
        }
    }

    /// The name of the level.
    pub open spec fn name(self) -> Seq<char> {
        match self {
            CompressionLevel::Light => "light"@,
            CompressionLevel::Medium => "medium"@,
            CompressionLevel::Heavy => "heavy"@,
        }
    }

    /// The name of the level.
    pub fn as_str(&self) -> (r: &'static str)
        ensures
            r@ == self.name(),
    {
        match self {
            CompressionLevel::Light => "light",
            CompressionLevel::Medium => "medium",
            CompressionLevel::Heavy => "heavy",
        }
    }

    /// The next harder level, if there is one.
    pub fn escalate(self) -> (r: Option<CompressionLevel>)
        ensures
            match r {
                Some(next) => next.rank() == self.rank() + 1,
                None => self == CompressionLevel::Heavy,
            },
    {
        match self {
            CompressionLevel::Light => Some(CompressionLevel::Medium),
            CompressionLevel::Medium => Some(CompressionLevel::Heavy),
            CompressionLevel::Heavy => None,
        }
    }
}

/// The token cost the history is projected to have after compression at
/// each level.
#[derive(Debug, Clone, Copy, PartialEq, Eq, Structural)]
pub struct ProjectedCosts {
    pub light: u32,
    pub medium: u32,
    pub heavy: u32,
}

impl ProjectedCosts {
    /// The projected cost at a level.
    pub open spec fn at(self, level: CompressionLevel) -> u32 {
        match level {
            CompressionLevel::Light => self.light,
            CompressionLevel::Medium => self.medium,
            CompressionLevel::Heavy => self.heavy,
        }
    }
}

/// What was done to the history, in numbers.
#[derive(Debug)]
pub struct CompressionSummary {
    pub level: CompressionLevel,
    pub tokens_before: u32,
    pub tokens_after: u32,
    pub tokens_saved: u32,
    pub messages_before: usize,
    pub messages_after: usize,
    pub summary: String,
}

/// Model of a [`CompressionSummary`].
pub ghost struct SummaryView {
    pub level: CompressionLevel,
    pub tokens_before: u32,
    pub tokens_after: u32,
    pub tokens_saved: u32,
    pub messages_before: usize,
    pub messages_after: usize,
    pub summary: Seq<char>,
}

impl View for CompressionSummary {
    type V = SummaryView;

    open spec fn view(&self) -> SummaryView {
        SummaryView {
            level: self.level,
            tokens_before: self.tokens_before,
            tokens_after: self.tokens_after,
            tokens_saved: self.tokens_saved,
            messages_before: self.messages_before,
            messages_after: self.messages_after,
            summary: self.summary@,
        }
    }
}

/// What the manager hands back: the messages to go on with, and the
/// summary of a compression if one was applied.
#[derive(Debug)]
pub struct MaybeCompressedResult {
    pub messages: Vec<LlmMessage>,
    pub compression_applied: Option<CompressionSummary>,
}

/// Model of a [`MaybeCompressedResult`].
pub ghost struct CompressedView {
    pub messages: Seq<MessageView>,
    pub compression_applied: Option<SummaryView>,
}

impl View for MaybeCompressedResult {
    type V = CompressedView;

    open spec fn view(&self) -> CompressedView {
        CompressedView {
            messages: messages_view(self.messages@),
            compression_applied: match self.compression_applied {
                Some(s) => Some(s@),
                None => None,
            },
        }
    }
}

/// The share of the budget, in percent, above which the history is
/// compressed unless another share is configured.
pub const DEFAULT_THRESHOLD_PERCENT: u32 = 80;

/// The budget rule of one conversation.
#[derive(Debug, Clone, Copy, PartialEq, Eq, Structural)]
pub struct ConversationManager {
    /// The token budget of the conversation.
    pub max_tokens: u32,
    /// The share of the budget, in percent, above which the history is
    /// compressed.
    pub threshold_percent: u32,
}

impl ConversationManager {
    /// A manager for the given budget with the default threshold.
    pub fn new(max_tokens: u32) -> (r: Self)
        ensures
            r == (ConversationManager { max_tokens, threshold_percent: DEFAULT_THRESHOLD_PERCENT }),
    {
        ConversationManager { max_tokens, threshold_percent: DEFAULT_THRESHOLD_PERCENT }
    }

    /// Whether a history of the estimated cost is over the threshold.
    pub open spec fn over_threshold(self, estimated: u32) -> bool {
        estimated * 100 > self.max_tokens * self.threshold_percent
    }

    /// Whether a projected cost fits the budget.
    pub open spec fn fits(self, cost: u32) -> bool {
        cost <= self.max_tokens
    }

    /// The level to apply: none while the history is under the threshold;
    /// otherwise the lowest level whose projected cost fits the budget,
    /// and the hardest level where none fits.
    pub open spec fn chosen(self, estimated: u32, projected: ProjectedCosts) -> Option<
        CompressionLevel,
    > {
        if !self.over_threshold(estimated) {
            None
        } else if self.fits(projected.light) {
            Some(CompressionLevel::Light)
        } else if self.fits(projected.medium) {
            Some(CompressionLevel::Medium)
        } else {
            Some(CompressionLevel::Heavy)
        }
    }

    /// Whether the history must be compressed.
    pub fn should_compress(&self, estimated: u32) -> (r: bool)
        ensures
            r == self.over_threshold(estimated),
    {
        assert(self.max_tokens * self.threshold_percent <= 0xffff_ffff * 0xffff_ffff)
            by (nonlinear_arith)
            requires
                self.max_tokens <= 0xffff_ffff,
                self.threshold_percent <= 0xffff_ffff,
        ;
        let cost: u64 = estimated as u64 * 100;
        let limit: u64 = self.max_tokens as u64 * self.threshold_percent as u64;
        cost > limit
    }

    /// Chooses the level of compression for a history.
    pub fn select_level(&self, estimated: u32, projected: ProjectedCosts) -> (r: Option<
        CompressionLevel,
    >)
        ensures
            r == self.chosen(estimated, projected),
    {
        if !self.should_compress(estimated) {
            None
        } else if projected.light <= self.max_tokens {
            Some(CompressionLevel::Light)
        } else if projected.medium <= self.max_tokens {
            Some(CompressionLevel::Medium)
        } else {
            Some(CompressionLevel::Heavy)
        }
    }

    /// The result for a history that was left as it is.
    pub fn unchanged(messages: Vec<LlmMessage>) -> (r: MaybeCompressedResult)
        ensures
            r@ == (CompressedView {
                messages: messages_view(messages@),
                compression_applied: None,
            }),
    {
        MaybeCompressedResult { messages, compression_applied: None }
    }

    /// The result for a history that was compressed at `level` from
    /// `tokens_before` and `messages_before` down to what is handed in.
    pub fn compressed(
        level: CompressionLevel,
        tokens_before: u32,
        messages_before: usize,
        messages: Vec<LlmMessage>,
        tokens_after: u32,
        summary: String,
    ) -> (r: MaybeCompressedResult)
        ensures
            r@ == (CompressedView {
                messages: messages_view(messages@),
                compression_applied: Some(
                    SummaryView {
                        level,
                        tokens_before,
                        tokens_after,
                        tokens_saved: if tokens_before >= tokens_after {
                            (tokens_before - tokens_after) as u32
                        } else {
                            0
                        },
                        messages_before,
                        messages_after: messages@.len() as usize,
                        summary: summary@,
                    },
                ),
            }),
    {
        let tokens_saved = tokens_before.saturating_sub(tokens_after);
        let messages_after = messages.len();
        MaybeCompressedResult {
            messages,
            compression_applied: Some(
                CompressionSummary {
                    level,
                    tokens_before,
                    tokens_after,
                    tokens_saved,
                    messages_before,
                    messages_after,
                    summary,
                },
            ),
        }
    }
}

/// The chosen level is the lowest that fits the budget: where any level
/// fits, the chosen one fits and no easier one does.
pub proof fn law_lowest_sufficient_level(
    m: ConversationManager,
    estimated: u32,
    projected: ProjectedCosts,
    other: CompressionLevel,
)
    requires
        m.over_threshold(estimated),
    ensures
        m.chosen(estimated, projected).is_some(),
        m.fits(projected.at(other)) ==> m.fits(projected.at(m.chosen(estimated, projected).unwrap()))
            && m.chosen(estimated, projected).unwrap().rank() <= other.rank(),
{
}

/// A history under the threshold is left alone.
pub proof fn law_no_compression_under_threshold(
    m: ConversationManager,
    estimated: u32,
    projected: ProjectedCosts,
)
    requires
        !m.over_threshold(estimated),
    ensures
        m.chosen(estimated, projected).is_none(),
{
}

} // verus!
