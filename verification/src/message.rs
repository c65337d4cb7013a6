//! Conversation messages and their mathematical model.

use crate::json::clone_json;
use std::collections::HashMap;
use vstd::prelude::*;
use vstd::string::*;

verus! {

/// Who sent a message.
#[derive(Debug, Clone, Copy, PartialEq, Eq, Structural)]
pub enum MessageRole {
    /// Instructions to the model.
    System,
    /// Input from the human.
    User,
    /// Output of the model.
    Assistant,
    /// Outcome of a tool invocation.
    Tool,
}

/// Why the model stopped.
#[derive(Debug, PartialEq, Eq)]
pub enum FinishReason {
    /// It was done.
    Stop,
    /// It reached the token limit.
    Length,
    /// It asked for tools.
    ToolCalls,
    /// Something else, in the provider's words.
    Other(String),
}

/// Model of a [`FinishReason`].
pub ghost enum FinishReasonView {
    Stop,
    Length,
    ToolCalls,
    Other(Seq<char>),
}

impl View for FinishReason {
    type V = FinishReasonView;

    open spec fn view(&self) -> FinishReasonView {
        match *self {
            FinishReason::Stop => FinishReasonView::Stop,
            FinishReason::Length => FinishReasonView::Length,
            FinishReason::ToolCalls => FinishReasonView::ToolCalls,
            FinishReason::Other(words) => FinishReasonView::Other(words@),
        }
    }
}

impl Clone for FinishReason {
    fn clone(&self) -> (r: Self)
        ensures
            r@ == self@,
    {
        match self {
            FinishReason::Stop => FinishReason::Stop,
            FinishReason::Length => FinishReason::Length,
            FinishReason::ToolCalls => FinishReason::ToolCalls,
            FinishReason::Other(words) => FinishReason::Other(words.clone()),
        }
    }
}

/// The model of an optional finish reason.
pub open spec fn opt_reason_view(reason: Option<FinishReason>) -> Option<FinishReasonView> {
    match reason {
        Some(r) => Some(r@),
        None => None,
    }
}

/// A copy of an optional finish reason.
pub fn clone_opt_reason(reason: &Option<FinishReason>) -> (r: Option<FinishReason>)
    ensures
        opt_reason_view(r) == opt_reason_view(*reason),
{
    match reason {
        Some(x) => Some(x.clone()),
        None => None,
    }
}

/// One block of a multi-part message.
#[derive(Debug)]
pub enum ContentBlock {
    /// Plain text.
    Text { text: String },
    /// An image, base64 encoded, with its MIME type.
    Image { data: String, mime_type: String },
    /// A request by the model to invoke a tool.
    ToolUse { id: String, name: String, input: serde_json::Value },
    /// The outcome of a tool invocation, keyed to the request's id.
    ToolResult { tool_use_id: String, is_error: Option<bool>, content: String },
}

/// Model of a [`ContentBlock`]: strings are sequences of characters.
pub ghost enum BlockView {
    Text { text: Seq<char> },
    Image { data: Seq<char>, mime_type: Seq<char> },
    ToolUse { id: Seq<char>, name: Seq<char>, input: serde_json::Value },
    ToolResult { tool_use_id: Seq<char>, is_error: Option<bool>, content: Seq<char> },
}

impl View for ContentBlock {
    type V = BlockView;

    open spec fn view(&self) -> BlockView {
        match *self {
            ContentBlock::Text { text } => BlockView::Text { text: text@ },
            ContentBlock::Image { data, mime_type } => BlockView::Image {
                data: data@,
                mime_type: mime_type@,
            },
            ContentBlock::ToolUse { id, name, input } => BlockView::ToolUse {
                id: id@,
                name: name@,
                input,
            },
            ContentBlock::ToolResult { tool_use_id, is_error, content } => BlockView::ToolResult {
                tool_use_id: tool_use_id@,
                is_error,
                content: content@,
            },
        }
    }
}

impl Clone for ContentBlock {
    fn clone(&self) -> (r: Self)
        ensures
            r@ == self@,
    {
        match self {
            ContentBlock::Text { text } => ContentBlock::Text { text: text.clone() },
            ContentBlock::Image { data, mime_type } => ContentBlock::Image {
                data: data.clone(),
                mime_type: mime_type.clone(),
            },
            ContentBlock::ToolUse { id, name, input } => ContentBlock::ToolUse {
                id: id.clone(),
                name: name.clone(),
                input: clone_json(input),
            },
            ContentBlock::ToolResult { tool_use_id, is_error, content } => ContentBlock::ToolResult {
                tool_use_id: tool_use_id.clone(),
                is_error: *is_error,
                content: content.clone(),
            },
        }
    }
}

/// The models of a sequence of blocks, in order.
pub open spec fn blocks_view(blocks: Seq<ContentBlock>) -> Seq<BlockView> {
    blocks.map_values(|b: ContentBlock| b@)
}

/// What a message says: text, or an ordered sequence of blocks.
#[derive(Debug)]
pub enum MessageContent {
    Text(String),
    MultiModal(Vec<ContentBlock>),
}

/// Model of a [`MessageContent`].
pub ghost enum ContentView {
    Text(Seq<char>),
    MultiModal(Seq<BlockView>),
}

impl View for MessageContent {
    type V = ContentView;

    open spec fn view(&self) -> ContentView {
        match *self {
            MessageContent::Text(text) => ContentView::Text(text@),
            MessageContent::MultiModal(blocks) => ContentView::MultiModal(blocks_view(blocks@)),
        }
    }
}

impl Clone for MessageContent {
    fn clone(&self) -> (r: Self)
        ensures
            r@ == self@,
    {
        match self {
            MessageContent::Text(text) => MessageContent::Text(text.clone()),
            MessageContent::MultiModal(blocks) => {
                let copy = blocks.clone();
                assert(blocks_view(copy@) =~= blocks_view(blocks@));
                MessageContent::MultiModal(copy)
            },
        }
    }
}

/// Text becomes plain text content.
impl From<String> for MessageContent {
    fn from(text: String) -> (r: Self)
        ensures
            r@ == ContentView::Text(text@),
    {
        MessageContent::Text(text)
    }
}

impl vstd::std_specs::convert::FromSpecImpl<String> for MessageContent {
    open spec fn obeys_from_spec() -> bool {
        true
    }

    open spec fn from_spec(text: String) -> Self {
        MessageContent::Text(text)
    }
}

/// A string slice becomes plain text content. The conversion makes a new
/// string, so what it returns is stated through the view.
impl<'a> From<&'a str> for MessageContent {
    fn from(text: &'a str) -> (r: Self)
        ensures
            r@ == ContentView::Text(text@),
    {
        MessageContent::Text(text.to_owned())
    }
}

impl<'a> vstd::std_specs::convert::FromSpecImpl<&'a str> for MessageContent {
    open spec fn obeys_from_spec() -> bool {
        false
    }

    open spec fn from_spec(text: &'a str) -> Self {
        arbitrary()
    }
}

/// A message of a conversation.
#[derive(Debug)]
pub struct LlmMessage {
    /// Who sent it.
    pub role: MessageRole,
    /// What it says.
    pub content: MessageContent,
    /// Free-form annotations; the engine carries them and never reads them.
    pub metadata: Option<HashMap<String, serde_json::Value>>,
}

/// Model of an [`LlmMessage`].
pub ghost struct MessageView {
    pub role: MessageRole,
    pub content: ContentView,
    pub metadata: Option<Map<String, serde_json::Value>>,
}

impl View for LlmMessage {
    type V = MessageView;

    open spec fn view(&self) -> MessageView {
        MessageView {
            role: self.role,
            content: self.content@,
            metadata: match self.metadata {
                Some(m) => Some(m@),
                None => None,
            },
        }
    }
}

impl Clone for LlmMessage {
    fn clone(&self) -> (r: Self)
        ensures
            r@ == self@,
    {
        let metadata = match &self.metadata {
            Some(m) => Some(m.clone()),
            None => None,
        };
        LlmMessage { role: self.role, content: self.content.clone(), metadata }
    }
}

/// The models of a sequence of messages, in order.
pub open spec fn messages_view(messages: Seq<LlmMessage>) -> Seq<MessageView> {
    messages.map_values(|m: LlmMessage| m@)
}

/// The text blocks of a block sequence, in order.
pub open spec fn text_parts(blocks: Seq<BlockView>) -> Seq<Seq<char>>
    decreases blocks.len(),
{
    if blocks.len() == 0 {
        Seq::empty()
    } else {
        let rest = text_parts(blocks.drop_last());
        match blocks.last() {
            BlockView::Text { text } => rest.push(text),
            _ => rest,
        }
    }
}

/// The parts joined by single line feeds.
pub open spec fn join_lines(parts: Seq<Seq<char>>) -> Seq<char>
    decreases parts.len(),
{
    if parts.len() == 0 {
        Seq::empty()
    } else if parts.len() == 1 {
        parts[0]
    } else {
        join_lines(parts.drop_last()) + seq!['\n'] + parts.last()
    }
}

/// The tool-use blocks of a block sequence, in order.
pub open spec fn tool_uses(blocks: Seq<BlockView>) -> Seq<BlockView>
    decreases blocks.len(),
{
    if blocks.len() == 0 {
        Seq::empty()
    } else {
        let rest = tool_uses(blocks.drop_last());
        if blocks.last() is ToolUse {
            rest.push(blocks.last())
        } else {
            rest
        }
    }
}

/// The ids of the tool-use blocks of a block sequence, in order.
pub open spec fn tool_use_ids(blocks: Seq<BlockView>) -> Seq<Seq<char>>
    decreases blocks.len(),
{
    if blocks.len() == 0 {
        Seq::empty()
    } else {
        let rest = tool_use_ids(blocks.drop_last());
        match blocks.last() {
            BlockView::ToolUse { id, .. } => rest.push(id),
            _ => rest,
        }
    }
}

impl MessageView {
    /// The blocks of a multi-part message; none for plain text.
    pub open spec fn blocks(self) -> Seq<BlockView> {
        match self.content {
            ContentView::Text(_) => Seq::empty(),
            ContentView::MultiModal(blocks) => blocks,
        }
    }

    /// The text of the message: the plain text itself, or the text blocks
    /// joined by line feeds; nothing where a multi-part message has no text
    /// block.
    pub open spec fn text(self) -> Option<Seq<char>> {
        match self.content {
            ContentView::Text(text) => Some(text),
            ContentView::MultiModal(blocks) => if text_parts(blocks).len() == 0 {
                None
            } else {
                Some(join_lines(text_parts(blocks)))
            },
        }
    }

    /// Whether the message carries a tool-use block.
    pub open spec fn has_tool_use(self) -> bool {
        tool_uses(self.blocks()).len() > 0
    }

    /// The tool-use blocks of the message, in order.
    pub open spec fn tool_uses(self) -> Seq<BlockView> {
        tool_uses(self.blocks())
    }

    /// The ids of the tool-use blocks of the message, in order.
    pub open spec fn tool_use_ids(self) -> Seq<Seq<char>> {
        tool_use_ids(self.blocks())
    }
}

/// Extending a block sequence by one block extends its tool-use ids by that
/// block's id, if it is a tool-use block.
pub proof fn lemma_tool_use_ids_push(blocks: Seq<BlockView>, b: BlockView)
    ensures
        tool_use_ids(blocks.push(b)) == (match b {
            BlockView::ToolUse { id, .. } => tool_use_ids(blocks).push(id),
            _ => tool_use_ids(blocks),
        }),
{
    assert(blocks.push(b).drop_last() =~= blocks);
}

/// The tool-use ids are the ids of the tool uses, one for one.
pub proof fn lemma_tool_use_ids_of_uses(blocks: Seq<BlockView>)
    ensures
        tool_use_ids(blocks).len() == tool_uses(blocks).len(),
        forall|i: int|
            0 <= i < tool_uses(blocks).len() ==> (#[trigger] tool_uses(blocks)[i]) is ToolUse
                && tool_uses(blocks)[i]->id == tool_use_ids(blocks)[i],
    decreases blocks.len(),
{
    if blocks.len() > 0 {
        lemma_tool_use_ids_of_uses(blocks.drop_last());
    }
}

/// Extending a block sequence by one block extends its text parts by that
/// block's text, if it is a text block.
pub proof fn lemma_text_parts_push(blocks: Seq<BlockView>, b: BlockView)
    ensures
        text_parts(blocks.push(b)) == (match b {
            BlockView::Text { text } => text_parts(blocks).push(text),
            _ => text_parts(blocks),
        }),
{
    assert(blocks.push(b).drop_last() =~= blocks);
}

/// Extending a block sequence by one block extends its tool uses by that
/// block, if it is a tool-use block.
pub proof fn lemma_tool_uses_push(blocks: Seq<BlockView>, b: BlockView)
    ensures
        tool_uses(blocks.push(b)) == (if b is ToolUse {
            tool_uses(blocks).push(b)
        } else {
            tool_uses(blocks)
        }),
{
    assert(blocks.push(b).drop_last() =~= blocks);
}

/// Every tool use of a block sequence is a tool-use block of that sequence,
/// and there are no more of them than blocks.
pub proof fn lemma_tool_uses_are_blocks(blocks: Seq<BlockView>)
    ensures
        tool_uses(blocks).len() <= blocks.len(),
        forall|i: int|
            0 <= i < tool_uses(blocks).len() ==> (#[trigger] tool_uses(blocks)[i]) is ToolUse
                && blocks.contains(tool_uses(blocks)[i]),
    decreases blocks.len(),
{
    if blocks.len() > 0 {
        let front = blocks.drop_last();
        lemma_tool_uses_are_blocks(front);
        assert forall|i: int| 0 <= i < tool_uses(blocks).len() implies (#[trigger] tool_uses(
            blocks,
        )[i]) is ToolUse && blocks.contains(tool_uses(blocks)[i]) by {
            if i < tool_uses(front).len() {
                let j = choose|j: int| 0 <= j < front.len() && front[j] == tool_uses(front)[i];
                assert(blocks[j] == tool_uses(blocks)[i]);
            } else {
                assert(blocks[blocks.len() - 1] == tool_uses(blocks)[i]);
            }
        }
    }
}

impl LlmMessage {
    /// A system message with the given text.
    pub fn system(content: &str) -> (r: Self)
        ensures
            r@ == (MessageView {
                role: MessageRole::System,
                content: ContentView::Text(content@),
                metadata: None,
            }),
    {
        LlmMessage {
            role: MessageRole::System,
            content: MessageContent::Text(content.to_owned()),
            metadata: None,
        }
    }

    /// A user message with the given text.
    pub fn user(content: &str) -> (r: Self)
        ensures
            r@ == (MessageView {
                role: MessageRole::User,
                content: ContentView::Text(content@),
                metadata: None,
            }),
    {
        LlmMessage {
            role: MessageRole::User,
            content: MessageContent::Text(content.to_owned()),
            metadata: None,
        }
    }

    /// An assistant message with the given text.
    pub fn assistant(content: &str) -> (r: Self)
        ensures
            r@ == (MessageView {
                role: MessageRole::Assistant,
                content: ContentView::Text(content@),
                metadata: None,
            }),
    {
        LlmMessage {
            role: MessageRole::Assistant,
            content: MessageContent::Text(content.to_owned()),
            metadata: None,
        }
    }

    /// A tool message with the given text.
    pub fn tool(content: &str) -> (r: Self)
        ensures
            r@ == (MessageView {
                role: MessageRole::Tool,
                content: ContentView::Text(content@),
                metadata: None,
            }),
    {
        LlmMessage {
            role: MessageRole::Tool,
            content: MessageContent::Text(content.to_owned()),
            metadata: None,
        }
    }

    /// A tool message that carries one tool result keyed to `tool_use_id`.
    pub fn tool_result(tool_use_id: &str, is_error: bool, content: &str) -> (r: Self)
        ensures
            r@ == (MessageView {
                role: MessageRole::Tool,
                content: ContentView::MultiModal(
                    seq![
                        BlockView::ToolResult {
                            tool_use_id: tool_use_id@,
                            is_error: Some(is_error),
                            content: content@,
                        },
                    ],
                ),
                metadata: None,
            }),
    {
        let block = ContentBlock::ToolResult {
            tool_use_id: tool_use_id.to_owned(),
            is_error: Some(is_error),
            content: content.to_owned(),
        };
        let mut blocks: Vec<ContentBlock> = Vec::new();
        blocks.push(block);
        assert(blocks_view(blocks@) =~= seq![block@]);
        LlmMessage {
            role: MessageRole::Tool,
            content: MessageContent::MultiModal(blocks),
            metadata: None,
        }
    }

    /// The text of the message: the plain text itself, or the text blocks
    /// joined by line feeds.
    pub fn get_text(&self) -> (r: Option<String>)
        ensures
            r.is_some() == self@.text().is_some(),
            r.is_some() ==> r.unwrap()@ == self@.text().unwrap(),
    {
        match &self.content {
            MessageContent::Text(text) => Some(text.clone()),
            MessageContent::MultiModal(blocks) => {
                let ghost all = blocks_view(blocks@);
                let mut out = String::new();
                let mut count: usize = 0;
                let mut i: usize = 0;
                assert(all.subrange(0, 0) =~= Seq::empty());
                while i < blocks.len()
                    invariant
                        i <= blocks.len(),
                        all == blocks_view(blocks@),
                        count == text_parts(all.subrange(0, i as int)).len(),
                        count <= i,
                        out@ == join_lines(text_parts(all.subrange(0, i as int))),
                    decreases blocks.len() - i,
                {
                    proof {
                        lemma_text_parts_push(all.subrange(0, i as int), all[i as int]);
                        assert(all.subrange(0, i + 1) =~= all.subrange(0, i as int).push(
                            all[i as int],
                        ));
                    }
                    if let ContentBlock::Text { text } = &blocks[i] {
                        let ghost before = text_parts(all.subrange(0, i as int));
                        assert(before.push(text@).drop_last() =~= before);
                        if count > 0 {
                            out.append("\n");
                            proof {
                                reveal_strlit("\n");
                                assert("\n"@ =~= seq!['\n']);
                            }
                        }
                        out.append(text.as_str());
                        count += 1;
                    }
                    i += 1;
                }
                assert(all.subrange(0, i as int) =~= all);
                if count == 0 {
                    None
                } else {
                    Some(out)
                }
            },
        }
    }

    /// Whether the message carries a tool-use block.
    pub fn has_tool_use(&self) -> (r: bool)
        ensures
            r == self@.has_tool_use(),
    {
        match &self.content {
            MessageContent::Text(_) => false,
            MessageContent::MultiModal(blocks) => {
                let ghost all = blocks_view(blocks@);
                let mut i: usize = 0;
                assert(all.subrange(0, 0) =~= Seq::empty());
                while i < blocks.len()
                    invariant
                        i <= blocks.len(),
                        all == blocks_view(blocks@),
                        all == self@.blocks(),
                        tool_uses(all.subrange(0, i as int)).len() == 0,
                    decreases blocks.len() - i,
                {
                    proof {
                        lemma_tool_uses_push(all.subrange(0, i as int), all[i as int]);
                        assert(all.subrange(0, i + 1) =~= all.subrange(0, i as int).push(
                            all[i as int],
                        ));
                    }
                    if let ContentBlock::ToolUse { .. } = &blocks[i] {
                        proof {
                            assert(all[i as int] == blocks@[i as int]@);
                            assert(tool_uses(all.subrange(0, i + 1)).len() == 1);
                            lemma_tool_uses_prefix(all, i + 1);
                        }
                        return true;
                    }
                    i += 1;
                }
                assert(all.subrange(0, i as int) =~= all);
                false
            },
        }
    }

    /// The ids of the tool-use blocks of the message, in order.
    pub fn tool_use_ids(&self) -> (r: Vec<String>)
        ensures
            r@.map_values(|s: String| s@) == self@.tool_use_ids(),
    {
        let mut out: Vec<String> = Vec::new();
        match &self.content {
            MessageContent::Text(_) => {
                assert(out@.map_values(|s: String| s@) =~= Seq::empty());
            },
            MessageContent::MultiModal(blocks) => {
                let ghost all = blocks_view(blocks@);
                let mut i: usize = 0;
                assert(all.subrange(0, 0) =~= Seq::empty());
                assert(out@.map_values(|s: String| s@) =~= Seq::empty());
                while i < blocks.len()
                    invariant
                        i <= blocks.len(),
                        all == blocks_view(blocks@),
                        out@.map_values(|s: String| s@) == tool_use_ids(
                            all.subrange(0, i as int),
                        ),
                    decreases blocks.len() - i,
                {
                    proof {
                        lemma_tool_use_ids_push(all.subrange(0, i as int), all[i as int]);
                        assert(all.subrange(0, i + 1) =~= all.subrange(0, i as int).push(
                            all[i as int],
                        ));
                    }
                    if let ContentBlock::ToolUse { id, .. } = &blocks[i] {
                        let ghost before = out@;
                        out.push(id.clone());
                        assert(out@.map_values(|s: String| s@) =~= before.map_values(
                            |s: String| s@,
                        ).push(id@));
                    }
                    i += 1;
                }
                assert(all.subrange(0, i as int) =~= all);
            },
        }
        out
    }

    /// The tool-use blocks of the message, in order.
    pub fn get_tool_uses(&self) -> (r: Vec<&ContentBlock>)
        ensures
            r@.map_values(|b: &ContentBlock| b@) == self@.tool_uses(),
    {
        let mut out: Vec<&ContentBlock> = Vec::new();
        match &self.content {
            MessageContent::Text(_) => {
                assert(out@.map_values(|b: &ContentBlock| b@) =~= Seq::empty());
            },
            MessageContent::MultiModal(blocks) => {
                let ghost all = blocks_view(blocks@);
                let mut i: usize = 0;
                assert(all.subrange(0, 0) =~= Seq::empty());
                assert(out@.map_values(|b: &ContentBlock| b@) =~= Seq::empty());
                while i < blocks.len()
                    invariant
                        i <= blocks.len(),
                        all == blocks_view(blocks@),
                        out@.map_values(|b: &ContentBlock| b@) == tool_uses(
                            all.subrange(0, i as int),
                        ),
                    decreases blocks.len() - i,
                {
                    proof {
                        lemma_tool_uses_push(all.subrange(0, i as int), all[i as int]);
                        assert(all.subrange(0, i + 1) =~= all.subrange(0, i as int).push(
                            all[i as int],
                        ));
                    }
                    if let ContentBlock::ToolUse { .. } = &blocks[i] {
                        let ghost before = out@;
                        out.push(&blocks[i]);
                        assert(out@.map_values(|b: &ContentBlock| b@) =~= before.map_values(
                            |b: &ContentBlock| b@,
                        ).push(all[i as int]));
                    }
                    i += 1;
                }
                assert(all.subrange(0, i as int) =~= all);
            },
        }
        out
    }
}

/// The tool uses of a prefix are a prefix of the tool uses of the whole.
pub proof fn lemma_tool_uses_prefix(blocks: Seq<BlockView>, n: int)
    requires
        0 <= n <= blocks.len(),
    ensures
        tool_uses(blocks.subrange(0, n)).len() <= tool_uses(blocks).len(),
        tool_uses(blocks.subrange(0, n)) == tool_uses(blocks).subrange(
            0,
            tool_uses(blocks.subrange(0, n)).len() as int,
        ),
    decreases blocks.len() - n,
{
    if n == blocks.len() {
        assert(blocks.subrange(0, n) =~= blocks);
        assert(tool_uses(blocks).subrange(0, tool_uses(blocks).len() as int) =~= tool_uses(
            blocks,
        ));
    } else {
        lemma_tool_uses_prefix(blocks, n + 1);
        lemma_tool_uses_push(blocks.subrange(0, n), blocks[n]);
        assert(blocks.subrange(0, n + 1) =~= blocks.subrange(0, n).push(blocks[n]));
        let shorter = tool_uses(blocks.subrange(0, n));
        let longer = tool_uses(blocks.subrange(0, n + 1));
        assert(shorter =~= longer.subrange(0, shorter.len() as int));
        assert(shorter =~= tool_uses(blocks).subrange(0, shorter.len() as int));
    }
}

} // verus!
