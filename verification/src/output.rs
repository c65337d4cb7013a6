//! What the terminal sink decides: which lines an event puts on the
//! screen, what a typed answer means, and what the interactive view is
//! told. Writing the lines is left to the caller.

use crate::events::{AgentEvent, EventView, MessageLevel};
use crate::text::{chars_of, is_space, same_text, space_char, strings_view};
use vstd::prelude::*;
use vstd::string::*;

verus! {

/// Configuration of the terminal output handler.
#[derive(Debug, Clone, Copy, PartialEq, Eq, Structural)]
pub struct CliOutputConfig {
    /// Whether the handler redraws tool status lines in place.
    pub realtime_updates: bool,
}

impl Default for CliOutputConfig {
    fn default() -> (r: Self)
        ensures
            r.realtime_updates,
    {
        CliOutputConfig { realtime_updates: true }
    }
}

/// The one tool whose status lines are never shown: its output is the
/// thinking text, which is displayed on its own.
pub open spec fn silent_tool_name() -> Seq<char> {
    "sequentialthinking"@
}

/// The tool whose results are shown with a diff.
pub open spec fn edit_tool_name() -> Seq<char> {
    "str_replace_based_edit_tool"@
}

/// Whether a tool's status lines are suppressed.
pub fn is_silent_tool(tool_name: &str) -> (r: bool)
    ensures
        r == (tool_name@ == silent_tool_name()),
{
    same_text(tool_name, "sequentialthinking")
}

/// One thing to put on the screen for an event.
#[derive(Debug, Clone, Copy, PartialEq, Eq, Structural)]
pub enum DisplayStep {
    /// The status line of the event's tool run.
    ToolStatus,
    /// Move up one line and clear it.
    EraseLine,
    /// The result of the event's tool run.
    ToolResult,
    /// The diff of the event's edit.
    EditDiff,
    /// The event's thinking text, dimmed.
    Thinking,
    /// The event's message, as it is.
    Content,
}

/// The terminal sink: its settings and the tool runs that are active.
#[derive(Debug)]
pub struct CliOutputHandler {
    config: CliOutputConfig,
    active_tools: Vec<String>,
}

/// Whether no text occurs twice.
pub open spec fn distinct(ids: Seq<Seq<char>>) -> bool {
    forall|i: int, j: int| 0 <= i < j < ids.len() ==> ids[i] != ids[j]
}

/// What an event puts on the screen, given whether its tool run is
/// active, that is, was started and not yet completed.
pub open spec fn display_plan(event: EventView, active: bool) -> Seq<DisplayStep> {
    match event {
        EventView::ToolExecutionStarted { tool_info } => if tool_info.tool_name
            == silent_tool_name() {
            Seq::empty()
        } else {
            seq![DisplayStep::ToolStatus]
        },
        EventView::ToolExecutionCompleted { tool_info } => if tool_info.tool_name
            == silent_tool_name() || !active {
            Seq::empty()
        } else if tool_info.tool_name == edit_tool_name() {
            seq![
                DisplayStep::EraseLine,
                DisplayStep::ToolStatus,
                DisplayStep::ToolResult,
                DisplayStep::EditDiff,
            ]
        } else {
            seq![DisplayStep::EraseLine, DisplayStep::ToolStatus, DisplayStep::ToolResult]
        },
        EventView::AgentThinking { .. } => seq![DisplayStep::Thinking],
        EventView::Message { level, .. } => if level == MessageLevel::Normal {
            seq![DisplayStep::Content]
        } else {
            Seq::empty()
        },
        _ => Seq::empty(),
    }
}

/// The active tool runs after an event: a run that starts becomes
/// active; a run that completes, of a tool that is not silent, no longer
/// is.
pub open spec fn active_after(event: EventView, active: Set<Seq<char>>) -> Set<Seq<char>> {
    match event {
        EventView::ToolExecutionStarted { tool_info } => active.insert(tool_info.execution_id),
        EventView::ToolExecutionCompleted { tool_info } => if tool_info.tool_name
            == silent_tool_name() {
            active
        } else {
            active.remove(tool_info.execution_id)
        },
        _ => active,
    }
}

impl CliOutputHandler {
    /// The settings.
    pub closed spec fn settings(&self) -> CliOutputConfig {
        self.config
    }

    /// The tool runs that are active.
    pub closed spec fn active(&self) -> Set<Seq<char>> {
        strings_view(self.active_tools@).to_set()
    }

    /// What holds of every handler.
    pub closed spec fn inv(&self) -> bool {
        distinct(strings_view(self.active_tools@))
    }

    /// A handler with the given settings that tracks nothing yet.
    pub fn new(config: CliOutputConfig) -> (r: Self)
        ensures
            r.inv(),
            r.settings() == config,
            r.active() == Set::<Seq<char>>::empty(),
    {
        let r = CliOutputHandler { config, active_tools: Vec::new() };
        assert(strings_view(r.active_tools@) =~= Seq::empty());
        assert(r.active() =~= Set::<Seq<char>>::empty());
        r
    }

    /// Whether the handler redraws status lines in place.
    pub fn supports_realtime_updates(&self) -> (r: bool)
        ensures
            r == self.settings().realtime_updates,
    {
        self.config.realtime_updates
    }

    fn position(&self, id: &str) -> (r: Option<usize>)
        ensures
            r.is_some() == self.active().contains(id@),
            r.is_some() ==> r.unwrap() < self.active_tools@.len() && self.active_tools@[r.unwrap() as int]@
                == id@,
    {
        let ghost ids = strings_view(self.active_tools@);
        let mut i: usize = 0;
        while i < self.active_tools.len()
            invariant
                i <= self.active_tools.len(),
                ids == strings_view(self.active_tools@),
                forall|k: int| 0 <= k < i ==> ids[k] != id@,
            decreases self.active_tools.len() - i,
        {
            assert(ids[i as int] == self.active_tools@[i as int]@);
            if same_text(self.active_tools[i].as_str(), id) {
                assert(ids.contains(id@));
                return Some(i);
            }
            i += 1;
        }
        assert(!ids.contains(id@));
        None
    }

    fn track(&mut self, id: &str)
        requires
            old(self).inv(),
        ensures
            final(self).inv(),
            final(self).settings() == old(self).settings(),
            final(self).active() == old(self).active().insert(id@),
    {
        let ghost before = strings_view(self.active_tools@);
        let found = self.position(id);
        match found {
            Some(_) => {
                assert(self.active() =~= self.active().insert(id@));
            },
            None => {
                self.active_tools.push(id.to_owned());
                let ghost after = strings_view(self.active_tools@);
                assert(after =~= before.push(id@));
                assert(distinct(after)) by {
                    assert forall|i: int, j: int| 0 <= i < j < after.len() implies after[i]
                        != after[j] by {
                        if j == before.len() {
                            assert(before.contains(before[i]));
                        }
                    }
                }
                assert(after.to_set() =~= before.to_set().insert(id@)) by {
                    assert forall|x: Seq<char>| after.to_set().contains(x)
                        == before.to_set().insert(id@).contains(x) by {
                        if after.contains(x) {
                            let k = choose|k: int| 0 <= k < after.len() && after[k] == x;
                            if k < before.len() {
                                assert(before[k] == x);
                            }
                        }
                        if before.contains(x) {
                            let k = choose|k: int| 0 <= k < before.len() && before[k] == x;
                            assert(after[k] == x);
                        }
                        if x == id@ {
                            assert(after[before.len() as int] == x);
                        }
                    }
                }
            },
        }
    }

    fn untrack(&mut self, at: usize)
        requires
            old(self).inv(),
            at < old(self).active_tools@.len(),
        ensures
            final(self).inv(),
            final(self).settings() == old(self).settings(),
            final(self).active() == old(self).active().remove(
                old(self).active_tools@[at as int]@,
            ),
    {
        let ghost before = strings_view(self.active_tools@);
        let ghost gone = before[at as int];
        let _ = self.active_tools.remove(at);
        let ghost after = strings_view(self.active_tools@);
        assert(after =~= before.remove(at as int));
        assert(distinct(after)) by {
            assert forall|i: int, j: int| 0 <= i < j < after.len() implies after[i]
                != after[j] by {
                let i0 = if i < at {
                    i
                } else {
                    i + 1
                };
                let j0 = if j < at {
                    j
                } else {
                    j + 1
                };
                assert(after[i] == before[i0] && after[j] == before[j0]);
            }
        }
        assert(after.to_set() =~= before.to_set().remove(gone)) by {
            assert forall|x: Seq<char>| after.to_set().contains(x) == before.to_set().remove(
                gone,
            ).contains(x) by {
                if after.contains(x) {
                    let k = choose|k: int| 0 <= k < after.len() && after[k] == x;
                    let k0 = if k < at {
                        k
                    } else {
                        k + 1
                    };
                    assert(before[k0] == x);
                    assert(k0 != at);
                }
                if before.contains(x) && x != gone {
                    let k = choose|k: int| 0 <= k < before.len() && before[k] == x;
                    let k1 = if k < at {
                        k
                    } else {
                        k - 1
                    };
                    assert(after[k1] == x);
                }
            }
        }
    }

    /// Says what an event puts on the screen, and keeps track of the
    /// active tool runs.
    pub fn plan(&mut self, event: &AgentEvent) -> (r: Vec<DisplayStep>)
        requires
            old(self).inv(),
        ensures
            final(self).inv(),
            final(self).settings() == old(self).settings(),
            r@ == display_plan(
                event@,
                event@ is ToolExecutionCompleted && old(self).active().contains(
                    event@->ToolExecutionCompleted_tool_info.execution_id,
                ),
            ),
            final(self).active() == active_after(event@, old(self).active()),
    {
        let mut steps: Vec<DisplayStep> = Vec::new();
        match event {
            AgentEvent::ToolExecutionStarted { tool_info } => {
                if !is_silent_tool(tool_info.tool_name.as_str()) {
                    steps.push(DisplayStep::ToolStatus);
                }
                self.track(tool_info.execution_id.as_str());
            },
            AgentEvent::ToolExecutionCompleted { tool_info } => {
                if !is_silent_tool(tool_info.tool_name.as_str()) {
                    let found = self.position(tool_info.execution_id.as_str());
                    match found {
                        Some(at) => {
                            self.untrack(at);
                            steps.push(DisplayStep::EraseLine);
                            steps.push(DisplayStep::ToolStatus);
                            steps.push(DisplayStep::ToolResult);
                            if same_text(
                                tool_info.tool_name.as_str(),
                                "str_replace_based_edit_tool",
                            ) {
                                steps.push(DisplayStep::EditDiff);
                            }
                        },
                        None => {
                            assert(self.active().remove(tool_info.execution_id@)
                                =~= self.active());
                        },
                    }
                }
            },
            AgentEvent::AgentThinking { .. } => {
                steps.push(DisplayStep::Thinking);
            },
            AgentEvent::Message { level, .. } => {
                match level {
                    MessageLevel::Normal => {
                        steps.push(DisplayStep::Content);
                    },
                    _ => {},
                }
            },
            _ => {},
        }
        assert(steps@ =~= display_plan(
            event@,
            event@ is ToolExecutionCompleted && old(self).active().contains(
                event@->ToolExecutionCompleted_tool_info.execution_id,
            ),
        ));
        steps
    }
}

impl Default for CliOutputHandler {
    fn default() -> (r: Self)
        ensures
            r.inv(),
            r.settings().realtime_updates,
            r.active() == Set::<Seq<char>>::empty(),
    {
        CliOutputHandler::new(CliOutputConfig::default())
    }
}

/// How many characters of a tool's parameters are shown when the user is
/// asked.
pub const PREVIEW_LENGTH: usize = 200;

/// The preview of a tool's parameters: the text itself, or its first
/// characters followed by three dots where it is longer than the preview
/// length.
pub open spec fn preview_of(text: Seq<char>) -> Seq<char> {
    if text.len() > PREVIEW_LENGTH {
        text.subrange(0, PREVIEW_LENGTH as int) + "..."@
    } else {
        text
    }
}

/// Cuts a tool's parameters down to what is shown.
pub fn parameters_preview(text: &str) -> (r: String)
    ensures
        r@ == preview_of(text@),
{
    if text.unicode_len() > PREVIEW_LENGTH {
        let mut out = text.substring_char(0, PREVIEW_LENGTH).to_owned();
        out.append("...");
        out
    } else {
        text.to_owned()
    }
}

/// The text without the white space at its end.
pub open spec fn trim_end(text: Seq<char>) -> Seq<char>
    decreases text.len(),
{
    if text.len() > 0 && is_space(text.last()) {
        trim_end(text.drop_last())
    } else {
        text
    }
}

/// The text without the white space at its start.
pub open spec fn trim_start(text: Seq<char>) -> Seq<char>
    decreases text.len(),
{
    if text.len() > 0 && is_space(text[0]) {
        trim_start(text.drop_first())
    } else {
        text
    }
}

/// Whether a typed answer approves: a single `y`, small or capital, with
/// any white space around it.
pub open spec fn approves(line: Seq<char>) -> bool {
    trim_start(trim_end(line)) == seq!['y'] || trim_start(trim_end(line)) == seq!['Y']
}

/// Reads a typed answer to a request for approval.
pub fn is_approval(line: &str) -> (r: bool)
    ensures
        r == approves(line@),
{
    let chars = chars_of(line);
    let mut end: usize = chars.len();
    assert(chars@.subrange(0, end as int) =~= chars@);
    while end > 0 && space_char(chars[end - 1])
        invariant
            end <= chars.len(),
            trim_end(chars@) == trim_end(chars@.subrange(0, end as int)),
        decreases end,
    {
        assert(chars@.subrange(0, end as int).drop_last() =~= chars@.subrange(0, end - 1));
        end -= 1;
    }
    assert(trim_end(chars@) == chars@.subrange(0, end as int));
    let mut start: usize = 0;
    assert(chars@.subrange(0, end as int) =~= chars@.subrange(start as int, end as int));
    while start < end && space_char(chars[start])
        invariant
            start <= end <= chars.len(),
            trim_start(chars@.subrange(0, end as int)) == trim_start(
                chars@.subrange(start as int, end as int),
            ),
        decreases end - start,
    {
        assert(chars@.subrange(start as int, end as int).drop_first() =~= chars@.subrange(
            start + 1,
            end as int,
        ));
        start += 1;
    }
    let ghost core = chars@.subrange(start as int, end as int);
    assert(trim_start(trim_end(chars@)) == core);
    if end - start == 1 {
        let c = chars[start];
        assert(core =~= seq![c]);
        c == 'y' || c == 'Y'
    } else {
        assert(core.len() != 1);
        false
    }
}

/// What the interactive view is told about an event.
#[derive(Debug, PartialEq, Eq)]
pub enum UiUpdate {
    /// The total token count changed.
    TokenUpdate { tokens: u32 },
    /// The agent reports what it is doing.
    TaskStarted { operation: String },
}

/// Model of a [`UiUpdate`].
pub ghost enum UiUpdateView {
    TokenUpdate { tokens: u32 },
    TaskStarted { operation: Seq<char> },
}

impl View for UiUpdate {
    type V = UiUpdateView;

    open spec fn view(&self) -> UiUpdateView {
        match *self {
            UiUpdate::TokenUpdate { tokens } => UiUpdateView::TokenUpdate { tokens },
            UiUpdate::TaskStarted { operation } => UiUpdateView::TaskStarted {
                operation: operation@,
            },
        }
    }
}

/// What the interactive view is told about an event: the token total of
/// a finished run, unless it is zero, and of every token update; and the
/// status of a status update.
pub open spec fn ui_update_of(event: EventView) -> Option<UiUpdateView> {
    match event {
        EventView::ExecutionCompleted { context, .. } => if context.token_usage.total_tokens > 0 {
            Some(UiUpdateView::TokenUpdate { tokens: context.token_usage.total_tokens })
        } else {
            None
        },
        EventView::TokenUsageUpdated { token_usage } => Some(
            UiUpdateView::TokenUpdate { tokens: token_usage.total_tokens },
        ),
        EventView::StatusUpdate { status } => Some(UiUpdateView::TaskStarted { operation: status }),
        _ => None,
    }
}

/// Says what the interactive view is told about an event.
pub fn ui_update(event: &AgentEvent) -> (r: Option<UiUpdate>)
    ensures
        r.is_some() == ui_update_of(event@).is_some(),
        r.is_some() ==> r.unwrap()@ == ui_update_of(event@).unwrap(),
{
    match event {
        AgentEvent::ExecutionCompleted { context, .. } => {
            if context.token_usage.total_tokens > 0 {
                Some(UiUpdate::TokenUpdate { tokens: context.token_usage.total_tokens })
            } else {
                None
            }
        },
        AgentEvent::TokenUsageUpdated { token_usage } => Some(
            UiUpdate::TokenUpdate { tokens: token_usage.total_tokens },
        ),
        AgentEvent::StatusUpdate { status } => Some(
            UiUpdate::TaskStarted { operation: status.clone() },
        ),
        _ => None,
    }
}

/// The tool names with `name` among them: the list itself where it holds
/// the name, and the list with the name at its end where it does not.
pub open spec fn with_tool(tools: Seq<Seq<char>>, name: Seq<char>) -> Seq<Seq<char>> {
    if tools.contains(name) {
        tools
    } else {
        tools.push(name)
    }
}

/// Makes sure a tool is among the tools of an agent.
pub fn ensure_tool(tools: &mut Vec<String>, name: &str)
    ensures
        strings_view(final(tools)@) == with_tool(strings_view(old(tools)@), name@),
{
    let ghost before = strings_view(tools@);
    let mut i: usize = 0;
    while i < tools.len()
        invariant
            i <= tools.len(),
            before == strings_view(tools@),
            forall|k: int| 0 <= k < i ==> before[k] != name@,
        decreases tools.len() - i,
    {
        assert(before[i as int] == tools@[i as int]@);
        if same_text(tools[i].as_str(), name) {
            assert(before.contains(name@));
            return ;
        }
        i += 1;
    }
    assert(!before.contains(name@));
    tools.push(name.to_owned());
    assert(strings_view(tools@) =~= before.push(name@));
}

} // verus!
