//! What the engine knows of tools: calls, results, and the flags a tool
//! declares.

use crate::json::{clone_json, json_member, json_text, member, text_of};
use crate::text::{chars_of, same_text};
use vstd::prelude::*;
use vstd::string::*;

verus! {

/// A request to run a tool.
#[derive(Debug)]
pub struct ToolCall {
    pub id: String,
    pub name: String,
    pub parameters: serde_json::Value,
}

/// Model of a [`ToolCall`].
pub ghost struct ToolCallView {
    pub id: Seq<char>,
    pub name: Seq<char>,
    pub parameters: serde_json::Value,
}

impl View for ToolCall {
    type V = ToolCallView;

    open spec fn view(&self) -> ToolCallView {
        ToolCallView { id: self.id@, name: self.name@, parameters: self.parameters }
    }
}

impl Clone for ToolCall {
    fn clone(&self) -> (r: Self)
        ensures
            r@ == self@,
    {
        ToolCall {
            id: self.id.clone(),
            name: self.name.clone(),
            parameters: clone_json(&self.parameters),
        }
    }
}

/// The outcome of running a tool.
#[derive(Debug)]
pub struct ToolResult {
    pub tool_call_id: String,
    pub success: bool,
    pub content: String,
    /// Structured output, where the tool has any.
    pub data: Option<serde_json::Value>,
}

/// Model of a [`ToolResult`].
pub ghost struct ToolResultView {
    pub tool_call_id: Seq<char>,
    pub success: bool,
    pub content: Seq<char>,
    pub data: Option<serde_json::Value>,
}

impl View for ToolResult {
    type V = ToolResultView;

    open spec fn view(&self) -> ToolResultView {
        ToolResultView {
            tool_call_id: self.tool_call_id@,
            success: self.success,
            content: self.content@,
            data: self.data,
        }
    }
}

impl Clone for ToolResult {
    fn clone(&self) -> (r: Self)
        ensures
            r@ == self@,
    {
        let data = match &self.data {
            Some(d) => Some(clone_json(d)),
            None => None,
        };
        ToolResult {
            tool_call_id: self.tool_call_id.clone(),
            success: self.success,
            content: self.content.clone(),
            data,
        }
    }
}

impl ToolResult {
    /// A successful result without structured output.
    pub fn success(tool_call_id: String, content: String) -> (r: Self)
        ensures
            r@ == (ToolResultView {
                tool_call_id: tool_call_id@,
                success: true,
                content: content@,
                data: None,
            }),
    {
        ToolResult { tool_call_id, success: true, content, data: None }
    }

    /// A structured error result.
    pub fn error(tool_call_id: String, content: String) -> (r: Self)
        ensures
            r@ == (ToolResultView {
                tool_call_id: tool_call_id@,
                success: false,
                content: content@,
                data: None,
            }),
    {
        ToolResult { tool_call_id, success: false, content, data: None }
    }
}

/// What a tool declares of itself to the engine.
#[derive(Debug)]
pub struct ToolDescriptor {
    pub name: String,
    /// The user must approve each run.
    pub requires_confirmation: bool,
    /// A successful run ends the task.
    pub completion_signal: bool,
    /// Its output is the model's thinking, shown as such.
    pub thought_stream: bool,
}

/// Model of a [`ToolDescriptor`].
pub ghost struct DescriptorView {
    pub name: Seq<char>,
    pub requires_confirmation: bool,
    pub completion_signal: bool,
    pub thought_stream: bool,
}

impl View for ToolDescriptor {
    type V = DescriptorView;

    open spec fn view(&self) -> DescriptorView {
        DescriptorView {
            name: self.name@,
            requires_confirmation: self.requires_confirmation,
            completion_signal: self.completion_signal,
            thought_stream: self.thought_stream,
        }
    }
}

/// The models of a list of descriptors, in order.
pub open spec fn descriptors_view(tools: Seq<ToolDescriptor>) -> Seq<DescriptorView> {
    tools.map_values(|t: ToolDescriptor| t@)
}

/// The name of the built-in tool that signals completion.
pub open spec fn completion_tool_name() -> Seq<char> {
    "task_done"@
}

/// The name of the built-in tool that streams thoughts.
pub open spec fn thinking_tool_name() -> Seq<char> {
    "sequentialthinking"@
}

impl ToolDescriptor {
    /// The descriptor of a tool known by name only: the two built-in names
    /// carry their flags, and no tool asks for confirmation.
    pub fn named(name: &str) -> (r: Self)
        ensures
            r@ == (DescriptorView {
                name: name@,
                requires_confirmation: false,
                completion_signal: name@ == completion_tool_name(),
                thought_stream: name@ == thinking_tool_name(),
            }),
    {
        ToolDescriptor {
            name: name.to_owned(),
            requires_confirmation: false,
            completion_signal: same_text(name, "task_done"),
            thought_stream: same_text(name, "sequentialthinking"),
        }
    }
}

/// The position of the first descriptor with the given name, from `from` on.
pub open spec fn position_of(tools: Seq<DescriptorView>, name: Seq<char>, from: int) -> Option<int>
    decreases tools.len() - from,
{
    if from < 0 || from >= tools.len() {
        None
    } else if tools[from].name == name {
        Some(from)
    } else {
        position_of(tools, name, from + 1)
    }
}

/// The first descriptor with the given name.
pub open spec fn lookup(tools: Seq<DescriptorView>, name: Seq<char>) -> Option<DescriptorView> {
    match position_of(tools, name, 0) {
        Some(i) => Some(tools[i]),
        None => None,
    }
}

/// Finds the first descriptor with the given name.
pub fn find_tool<'a>(tools: &'a Vec<ToolDescriptor>, name: &str) -> (r: Option<&'a ToolDescriptor>)
    ensures
        r.is_some() == lookup(descriptors_view(tools@), name@).is_some(),
        r.is_some() ==> r.unwrap()@ == lookup(descriptors_view(tools@), name@).unwrap(),
{
    let ghost all = descriptors_view(tools@);
    let mut i: usize = 0;
    while i < tools.len()
        invariant
            i <= tools.len(),
            all == descriptors_view(tools@),
            position_of(all, name@, 0) == position_of(all, name@, i as int),
        decreases tools.len() - i,
    {
        assert(all[i as int] == tools@[i as int]@);
        if same_text(tools[i].name.as_str(), name) {
            return Some(&tools[i]);
        }
        i += 1;
    }
    None
}

/// Whether the named tool asks for confirmation; an unknown tool does not.
pub open spec fn needs_confirmation(tools: Seq<DescriptorView>, name: Seq<char>) -> bool {
    match lookup(tools, name) {
        Some(t) => t.requires_confirmation,
        None => false,
    }
}

/// Whether the named tool signals completion; an unknown tool does not.
pub open spec fn signals_completion(tools: Seq<DescriptorView>, name: Seq<char>) -> bool {
    match lookup(tools, name) {
        Some(t) => t.completion_signal,
        None => false,
    }
}

/// Whether the named tool streams thoughts; an unknown tool does not.
pub open spec fn streams_thoughts(tools: Seq<DescriptorView>, name: Seq<char>) -> bool {
    match lookup(tools, name) {
        Some(t) => t.thought_stream,
        None => false,
    }
}

/// Whether `needle` stands in `hay` at position `at`.
pub open spec fn occurs_at(hay: Seq<char>, needle: Seq<char>, at: int) -> bool {
    0 <= at && at + needle.len() <= hay.len() && hay.subrange(at, at + needle.len()) == needle
}

/// The first position from `from` on at which `needle` stands in `hay`.
pub open spec fn first_occurrence(hay: Seq<char>, needle: Seq<char>, from: int) -> Option<int>
    decreases hay.len() + 1 - from,
{
    if from < 0 || from + needle.len() > hay.len() {
        None
    } else if occurs_at(hay, needle, from) {
        Some(from)
    } else {
        first_occurrence(hay, needle, from + 1)
    }
}

/// The marker that introduces a thought in a tool's free-text output.
pub open spec fn thought_marker() -> Seq<char> {
    "Thought: "@
}

/// The blank line that ends a thought in a tool's free-text output.
pub open spec fn thought_end() -> Seq<char> {
    seq!['\n', '\n']
}

/// The thought in free text: what stands between the first marker and the
/// first blank line after it; nothing where either is missing.
pub open spec fn thought_in_text(content: Seq<char>) -> Option<Seq<char>> {
    match first_occurrence(content, thought_marker(), 0) {
        None => None,
        Some(at) => {
            let start = at + thought_marker().len();
            match first_occurrence(content, thought_end(), start) {
                None => None,
                Some(end) => Some(content.subrange(start, end)),
            }
        },
    }
}

/// The thought a result carries: with structured output, its string member
/// `thought`; without, the thought found in the text.
pub open spec fn thought_of(result: ToolResultView) -> Option<Seq<char>> {
    match result.data {
        Some(data) => match json_member(data, "thought"@) {
            Some(member) => json_text(member),
            None => None,
        },
        None => thought_in_text(result.content),
    }
}

fn matches_at(hay: &Vec<char>, needle: &Vec<char>, at: usize) -> (r: bool)
    requires
        at + needle.len() <= hay.len(),
    ensures
        r == occurs_at(hay@, needle@, at as int),
{
    let mut k: usize = 0;
    while k < needle.len()
        invariant
            k <= needle.len(),
            at + needle.len() <= hay.len(),
            hay@.subrange(at as int, at + k) == needle@.subrange(0, k as int),
        decreases needle.len() - k,
    {
        if hay[at + k] != needle[k] {
            assert(hay@.subrange(at as int, at + needle.len())[k as int] != needle@[k as int]);
            return false;
        }
        assert(hay@.subrange(at as int, at + k + 1) =~= hay@.subrange(at as int, at + k).push(
            hay@[at + k],
        ));
        assert(needle@.subrange(0, k + 1) =~= needle@.subrange(0, k as int).push(
            needle@[k as int],
        ));
        k += 1;
    }
    assert(needle@.subrange(0, k as int) =~= needle@);
    true
}

/// Finds the first position from `from` on at which `needle` stands in `hay`.
pub fn find_from(hay: &Vec<char>, needle: &Vec<char>, from: usize) -> (r: Option<usize>)
    ensures
        r.is_some() == first_occurrence(hay@, needle@, from as int).is_some(),
        r.is_some() ==> {
            &&& r.unwrap() as int == first_occurrence(hay@, needle@, from as int).unwrap()
            &&& from <= r.unwrap()
            &&& r.unwrap() + needle@.len() <= hay@.len()
        },
{
    if needle.len() > hay.len() {
        return None;
    }
    let last: usize = hay.len() - needle.len();
    if from > last {
        return None;
    }
    let mut i: usize = from;
    loop
        invariant
            from <= i <= last,
            last == hay.len() - needle.len(),
            first_occurrence(hay@, needle@, from as int) == first_occurrence(
                hay@,
                needle@,
                i as int,
            ),
        decreases last - i,
    {
        if matches_at(hay, needle, i) {
            return Some(i);
        }
        if i == last {
            return None;
        }
        i += 1;
    }
}

/// Extracts the thought from a tool's free-text output.
pub fn extract_thought(content: &str) -> (r: Option<String>)
    ensures
        r.is_some() == thought_in_text(content@).is_some(),
        r.is_some() ==> r.unwrap()@ == thought_in_text(content@).unwrap(),
{
    let hay = chars_of(content);
    let marker = chars_of("Thought: ");
    let end_mark = chars_of("\n\n");
    proof {
        reveal_strlit("\n\n");
        assert("\n\n"@ =~= thought_end());
    }
    let found = find_from(&hay, &marker, 0);
    match found {
        None => None,
        Some(at) => {
            assert(at + marker@.len() <= hay.len());
            let start = at + marker.len();
            let closing = find_from(&hay, &end_mark, start);
            match closing {
                None => None,
                Some(end) => Some(content.substring_char(start, end).to_owned()),
            }
        },
    }
}

/// The thought a tool result carries, if any.
pub fn thought_text(result: &ToolResult) -> (r: Option<String>)
    ensures
        r.is_some() == thought_of(result@).is_some(),
        r.is_some() ==> r.unwrap()@ == thought_of(result@).unwrap(),
{
    match &result.data {
        Some(data) => match member(data, "thought") {
            Some(found) => text_of(found),
            None => None,
        },
        None => extract_thought(result.content.as_str()),
    }
}

} // verus!
