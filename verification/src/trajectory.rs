//! The trajectory: an append-only journal of what happened during a run,
//! and the metadata derived from it.

use crate::context::Usage;
use crate::history::clone_messages;
use crate::json::clone_json;
use crate::message::{
    clone_opt_reason, messages_view, opt_reason_view, FinishReason, FinishReasonView, LlmMessage,
    MessageView,
};
use crate::text::{clone_opt_string, concat3, opt_view};
use crate::tools::{ToolCall, ToolCallView, ToolResult, ToolResultView};
use vstd::prelude::*;
use vstd::string::*;

verus! {

/// What a journal entry records.
#[derive(Debug)]
pub enum EntryType {
    TaskStart { task: String, agent_config: serde_json::Value },
    LlmRequest { messages: Vec<LlmMessage>, model: String, provider: String },
    LlmResponse { message: LlmMessage, usage: Option<Usage>, finish_reason: Option<FinishReason> },
    ToolCall { call: ToolCall },
    ToolResult { result: ToolResult },
    StepComplete { description: String, success: bool },
    Error { error: String, context: Option<String> },
    TaskComplete { success: bool, summary: String, total_steps: usize, duration_ms: u64 },
}

/// Model of an [`EntryType`].
pub ghost enum EntryTypeView {
    TaskStart { task: Seq<char>, agent_config: serde_json::Value },
    LlmRequest { messages: Seq<MessageView>, model: Seq<char>, provider: Seq<char> },
    LlmResponse {
        message: MessageView,
        usage: Option<Usage>,
        finish_reason: Option<FinishReasonView>,
    },
    ToolCall { call: ToolCallView },
    ToolResult { result: ToolResultView },
    StepComplete { description: Seq<char>, success: bool },
    Error { error: Seq<char>, context: Option<Seq<char>> },
    TaskComplete { success: bool, summary: Seq<char>, total_steps: usize, duration_ms: u64 },
}

impl View for EntryType {
    type V = EntryTypeView;

    open spec fn view(&self) -> EntryTypeView {
        match *self {
            EntryType::TaskStart { task, agent_config } => EntryTypeView::TaskStart {
                task: task@,
                agent_config,
            },
            EntryType::LlmRequest { messages, model, provider } => EntryTypeView::LlmRequest {
                messages: messages_view(messages@),
                model: model@,
                provider: provider@,
            },
            EntryType::LlmResponse { message, usage, finish_reason } => {
                EntryTypeView::LlmResponse {
                    message: message@,
                    usage,
                    finish_reason: opt_reason_view(finish_reason),
                }
            },
            EntryType::ToolCall { call } => EntryTypeView::ToolCall { call: call@ },
            EntryType::ToolResult { result } => EntryTypeView::ToolResult { result: result@ },
            EntryType::StepComplete { description, success } => EntryTypeView::StepComplete {
                description: description@,
                success,
            },
            EntryType::Error { error, context } => EntryTypeView::Error {
                error: error@,
                context: opt_view(context),
            },
            EntryType::TaskComplete { success, summary, total_steps, duration_ms } => {
                EntryTypeView::TaskComplete { success, summary: summary@, total_steps, duration_ms }
            },
        }
    }
}

impl Clone for EntryType {
    fn clone(&self) -> (r: Self)
        ensures
            r@ == self@,
    {
        match self {
            EntryType::TaskStart { task, agent_config } => EntryType::TaskStart {
                task: task.clone(),
                agent_config: clone_json(agent_config),
            },
            EntryType::LlmRequest { messages, model, provider } => EntryType::LlmRequest {
                messages: clone_messages(messages),
                model: model.clone(),
                provider: provider.clone(),
            },
            EntryType::LlmResponse { message, usage, finish_reason } => EntryType::LlmResponse {
                message: message.clone(),
                usage: *usage,
                finish_reason: clone_opt_reason(finish_reason),
            },
            EntryType::ToolCall { call } => EntryType::ToolCall { call: call.clone() },
            EntryType::ToolResult { result } => EntryType::ToolResult { result: result.clone() },
            EntryType::StepComplete { description, success } => EntryType::StepComplete {
                description: description.clone(),
                success: *success,
            },
            EntryType::Error { error, context } => EntryType::Error {
                error: error.clone(),
                context: clone_opt_string(context),
            },
            EntryType::TaskComplete { success, summary, total_steps, duration_ms } => {
                EntryType::TaskComplete {
                    success: *success,
                    summary: summary.clone(),
                    total_steps: *total_steps,
                    duration_ms: *duration_ms,
                }
            },
        }
    }
}

/// One entry of the journal. Its fields are set when it is made and never
/// changed afterwards.
#[derive(Debug)]
pub struct TrajectoryEntry {
    pub id: String,
    /// Milliseconds since the Unix epoch, UTC.
    pub timestamp: i64,
    pub step: usize,
    pub entry_type: EntryType,
}

/// Model of a [`TrajectoryEntry`].
pub ghost struct EntryView {
    pub id: Seq<char>,
    pub timestamp: i64,
    pub step: usize,
    pub entry_type: EntryTypeView,
}

impl View for TrajectoryEntry {
    type V = EntryView;

    open spec fn view(&self) -> EntryView {
        EntryView {
            id: self.id@,
            timestamp: self.timestamp,
            step: self.step,
            entry_type: self.entry_type@,
        }
    }
}

impl Clone for TrajectoryEntry {
    fn clone(&self) -> (r: Self)
        ensures
            r@ == self@,
    {
        TrajectoryEntry {
            id: self.id.clone(),
            timestamp: self.timestamp,
            step: self.step,
            entry_type: self.entry_type.clone(),
        }
    }
}

/// Calls `uuid::Uuid::new_v4` and writes the identifier as text.
///
/// Trusted for nothing: the identifier is drawn from the operating
/// system's random source, so no two calls need agree.
#[verifier::external_body]
pub(crate) fn fresh_id() -> (r: String) {
    uuid::Uuid::new_v4().to_string()
}

/// Calls `chrono::Utc::now` and `DateTime::timestamp_millis`.
///
/// Trusted for nothing: the result is the reading of the system clock,
/// which must not stand before the Unix epoch.
#[verifier::external_body]
pub(crate) fn now_millis() -> (r: i64) {
    chrono::Utc::now().timestamp_millis()
}

impl TrajectoryEntry {
    /// An entry with the given identifier and time.
    pub fn stamped(id: String, timestamp: i64, entry_type: EntryType, step: usize) -> (r: Self)
        ensures
            r@ == (EntryView { id: id@, timestamp, step, entry_type: entry_type@ }),
    {
        TrajectoryEntry { id, timestamp, step, entry_type }
    }

    /// An entry with a fresh identifier, stamped with the current time.
    pub fn new(entry_type: EntryType, step: usize) -> (r: Self)
        ensures
            r@.step == step,
            r@.entry_type == entry_type@,
    {
        TrajectoryEntry::stamped(fresh_id(), now_millis(), entry_type, step)
    }
}

/// The models of a list of entries, in order.
pub open spec fn entries_view(entries: Seq<TrajectoryEntry>) -> Seq<EntryView> {
    entries.map_values(|e: TrajectoryEntry| e@)
}

/// A copy of a list of entries.
pub fn clone_entries(entries: &Vec<TrajectoryEntry>) -> (r: Vec<TrajectoryEntry>)
    ensures
        entries_view(r@) == entries_view(entries@),
{
    let copy = entries.clone();
    assert(entries_view(copy@) =~= entries_view(entries@));
    copy
}

/// Metadata of a trajectory. It is computed from the entries whenever it
/// is asked for, and stored nowhere else.
#[derive(Debug)]
pub struct TrajectoryMetadata {
    pub id: String,
    pub started_at: i64,
    pub completed_at: Option<i64>,
    pub version: String,
    pub agent_type: String,
    pub task: Option<String>,
    pub success: Option<bool>,
    pub total_steps: usize,
    pub duration_ms: Option<u64>,
}

/// Model of a [`TrajectoryMetadata`].
pub ghost struct MetadataView {
    pub id: Seq<char>,
    pub started_at: i64,
    pub completed_at: Option<i64>,
    pub version: Seq<char>,
    pub agent_type: Seq<char>,
    pub task: Option<Seq<char>>,
    pub success: Option<bool>,
    pub total_steps: usize,
    pub duration_ms: Option<u64>,
}

impl View for TrajectoryMetadata {
    type V = MetadataView;

    open spec fn view(&self) -> MetadataView {
        MetadataView {
            id: self.id@,
            started_at: self.started_at,
            completed_at: self.completed_at,
            version: self.version@,
            agent_type: self.agent_type@,
            task: opt_view(self.task),
            success: self.success,
            total_steps: self.total_steps,
            duration_ms: self.duration_ms,
        }
    }
}

/// The persisted document: metadata and entries.
#[derive(Debug)]
pub struct Trajectory {
    pub metadata: TrajectoryMetadata,
    pub entries: Vec<TrajectoryEntry>,
}

/// Model of a [`Trajectory`].
pub ghost struct TrajectoryView {
    pub metadata: MetadataView,
    pub entries: Seq<EntryView>,
}

impl View for Trajectory {
    type V = TrajectoryView;

    open spec fn view(&self) -> TrajectoryView {
        TrajectoryView { metadata: self.metadata@, entries: entries_view(self.entries@) }
    }
}

/// The task of the last task-start entry.
pub open spec fn task_of(entries: Seq<EntryView>) -> Option<Seq<char>>
    decreases entries.len(),
{
    if entries.len() == 0 {
        None
    } else {
        match entries.last().entry_type {
            EntryTypeView::TaskStart { task, .. } => Some(task),
            _ => task_of(entries.drop_last()),
        }
    }
}

/// The success flag of the last task-complete entry.
pub open spec fn success_of(entries: Seq<EntryView>) -> Option<bool>
    decreases entries.len(),
{
    if entries.len() == 0 {
        None
    } else {
        match entries.last().entry_type {
            EntryTypeView::TaskComplete { success, .. } => Some(success),
            _ => success_of(entries.drop_last()),
        }
    }
}

/// The milliseconds from `start` to `end`, as an unsigned number; where the
/// end lies before the start, the difference wraps round.
pub open spec fn elapsed_ms(start: i64, end: i64) -> u64 {
    if end >= start {
        (end - start) as u64
    } else {
        (end - start + 0x1_0000_0000_0000_0000) as u64
    }
}

/// Computes the milliseconds from `start` to `end`.
pub fn elapsed_between(start: i64, end: i64) -> (r: u64)
    ensures
        r == elapsed_ms(start, end),
{
    if end >= start {
        (end as i128 - start as i128) as u64
    } else {
        let deficit: u64 = (start as i128 - end as i128) as u64;
        (u64::MAX - deficit) + 1
    }
}

/// The format version written into every document.
pub open spec fn format_version() -> Seq<char> {
    "1.0"@
}

/// The metadata of a journal: it starts with the first entry (or now, if
/// there is none) and is complete with the last; task and success are
/// those of the last task-start and task-complete entries.
pub open spec fn metadata_of(entries: Seq<EntryView>, id: Seq<char>, now: i64) -> MetadataView {
    let started_at = if entries.len() > 0 {
        entries[0].timestamp
    } else {
        now
    };
    MetadataView {
        id,
        started_at,
        completed_at: if entries.len() > 0 {
            Some(entries.last().timestamp)
        } else {
            None
        },
        version: format_version(),
        agent_type: crate::context::agent_type_name(),
        task: task_of(entries),
        success: success_of(entries),
        total_steps: entries.len() as usize,
        duration_ms: if entries.len() > 0 {
            Some(elapsed_ms(started_at, entries.last().timestamp))
        } else {
            None
        },
    }
}

/// Derives the metadata of a journal.
pub fn derive_metadata(entries: &Vec<TrajectoryEntry>, id: String, now: i64) -> (r:
    TrajectoryMetadata)
    ensures
        r@ == metadata_of(entries_view(entries@), id@, now),
{
    let ghost all = entries_view(entries@);
    let n = entries.len();
    let started_at = if n > 0 {
        entries[0].timestamp
    } else {
        now
    };
    let completed_at = if n > 0 {
        Some(entries[n - 1].timestamp)
    } else {
        None
    };
    let duration_ms = match completed_at {
        Some(end) => Some(elapsed_between(started_at, end)),
        None => None,
    };
    let mut task: Option<String> = None;
    let mut success: Option<bool> = None;
    let mut i: usize = 0;
    assert(all.subrange(0, 0) =~= Seq::empty());
    while i < n
        invariant
            i <= n,
            n == entries.len(),
            all == entries_view(entries@),
            opt_view(task) == task_of(all.subrange(0, i as int)),
            success == success_of(all.subrange(0, i as int)),
        decreases n - i,
    {
        proof {
            assert(all.subrange(0, i + 1).drop_last() =~= all.subrange(0, i as int));
            assert(all.subrange(0, i + 1).last() == entries@[i as int]@);
        }
        match &entries[i].entry_type {
            EntryType::TaskStart { task: t, .. } => {
                task = Some(t.clone());
            },
            EntryType::TaskComplete { success: s, .. } => {
                success = Some(*s);
            },
            _ => {},
        }
        i += 1;
    }
    assert(all.subrange(0, n as int) =~= all);
    TrajectoryMetadata {
        id,
        started_at,
        completed_at,
        version: "1.0".to_owned(),
        agent_type: "coro_agent".to_owned(),
        task,
        success,
        total_steps: n,
        duration_ms,
    }
}

/// Why a trajectory could not be saved or loaded.
#[derive(Debug)]
pub enum TrajectoryError {
    /// Writing the document failed.
    RecordingFailed { message: String },
    /// There is nothing at the path.
    LoadFailed { path: String },
    /// The file could not be read.
    Io { message: String },
    /// What is at the path is not a trajectory document.
    InvalidFormat,
}

/// Model of a [`TrajectoryError`].
pub ghost enum TrajectoryErrorView {
    RecordingFailed { message: Seq<char> },
    LoadFailed { path: Seq<char> },
    Io { message: Seq<char> },
    InvalidFormat,
}

impl View for TrajectoryError {
    type V = TrajectoryErrorView;

    open spec fn view(&self) -> TrajectoryErrorView {
        match *self {
            TrajectoryError::RecordingFailed { message } => TrajectoryErrorView::RecordingFailed {
                message: message@,
            },
            TrajectoryError::LoadFailed { path } => TrajectoryErrorView::LoadFailed {
                path: path@,
            },
            TrajectoryError::Io { message } => TrajectoryErrorView::Io { message: message@ },
            TrajectoryError::InvalidFormat => TrajectoryErrorView::InvalidFormat,
        }
    }
}

/// What was found at the path of a trajectory document.
#[derive(Debug)]
pub enum LoadedFile {
    /// Nothing is there.
    Missing,
    /// Something is there and reading it failed.
    Unreadable { message: String },
    /// It was read and is not a trajectory document.
    Malformed,
    /// It was read and parsed.
    Parsed { trajectory: Trajectory },
}

/// A recorder of journal entries, optionally bound to a file.
#[derive(Debug)]
pub struct TrajectoryRecorder {
    entries: Vec<TrajectoryEntry>,
    file_path: Option<String>,
    auto_save: bool,
}

impl TrajectoryRecorder {
    /// The recorded entries, oldest first.
    pub closed spec fn entries(&self) -> Seq<EntryView> {
        entries_view(self.entries@)
    }

    /// The file the recorder persists to, if any.
    pub closed spec fn path(&self) -> Option<Seq<char>> {
        opt_view(self.file_path)
    }

    /// Whether every append is followed by a rewrite of the document.
    pub closed spec fn persists(&self) -> bool {
        self.auto_save
    }

    /// A recorder that keeps its entries in memory only.
    pub fn new() -> (r: Self)
        ensures
            r.entries() == Seq::<EntryView>::empty(),
            r.path().is_none(),
            !r.persists(),
    {
        let r = TrajectoryRecorder { entries: Vec::new(), file_path: None, auto_save: false };
        assert(r.entries() =~= Seq::<EntryView>::empty());
        r
    }

    /// A recorder that rewrites the document at `path` after every append.
    pub fn with_file(path: &str) -> (r: Self)
        ensures
            r.entries() == Seq::<EntryView>::empty(),
            r.path() == Some(path@),
            r.persists(),
    {
        let r = TrajectoryRecorder {
            entries: Vec::new(),
            file_path: Some(path.to_owned()),
            auto_save: true,
        };
        assert(r.entries() =~= Seq::<EntryView>::empty());
        r
    }

    /// The file name of a journal started at the time written as `stamp`.
    pub fn auto_file_name(stamp: &str) -> (r: String)
        ensures
            r@ == "trajectory_"@ + stamp@ + ".json"@,
    {
        concat3("trajectory_", stamp, ".json")
    }

    /// A recorder bound to a file named after the time written as `stamp`,
    /// in the directory of trajectories.
    pub fn with_auto_filename(stamp: &str) -> (r: Self)
        ensures
            r.entries() == Seq::<EntryView>::empty(),
            r.path() == Some("trajectories/trajectory_"@ + stamp@ + ".json"@),
            r.persists(),
    {
        let path = concat3("trajectories/trajectory_", stamp, ".json");
        TrajectoryRecorder::with_file(path.as_str())
    }

    /// Appends an entry. Returns whether the document must be rewritten now.
    pub fn record(&mut self, entry: TrajectoryEntry) -> (persist: bool)
        ensures
            final(self).entries() == old(self).entries().push(entry@),
            final(self).path() == old(self).path(),
            final(self).persists() == old(self).persists(),
            persist == old(self).persists(),
    {
        let ghost before = self.entries@;
        self.entries.push(entry);
        assert(entries_view(self.entries@) =~= entries_view(before).push(entry@));
        self.auto_save
    }

    /// A copy of the recorded entries, oldest first.
    pub fn get_entries(&self) -> (r: Vec<TrajectoryEntry>)
        ensures
            entries_view(r@) == self.entries(),
    {
        clone_entries(&self.entries)
    }

    /// How many entries are recorded.
    pub fn entry_count(&self) -> (r: usize)
        ensures
            r == self.entries().len(),
    {
        self.entries.len()
    }

    /// Forgets every entry.
    pub fn clear(&mut self)
        ensures
            final(self).entries() == Seq::<EntryView>::empty(),
            final(self).path() == old(self).path(),
            final(self).persists() == old(self).persists(),
    {
        self.entries.clear();
        assert(entries_view(self.entries@) =~= Seq::<EntryView>::empty());
    }

    /// The file the recorder persists to, if any.
    pub fn file_path(&self) -> (r: Option<&str>)
        ensures
            r.is_some() == self.path().is_some(),
            r.is_some() ==> r.unwrap()@ == self.path().unwrap(),
    {
        match &self.file_path {
            Some(p) => Some(p.as_str()),
            None => None,
        }
    }

    /// Whether every append is followed by a rewrite of the document.
    pub fn auto_save(&self) -> (r: bool)
        ensures
            r == self.persists(),
    {
        self.auto_save
    }

    /// The document of the journal as it stands, under the given identifier.
    pub fn build_trajectory_with(&self, id: String, now: i64) -> (r: Trajectory)
        ensures
            r@ == (TrajectoryView {
                metadata: metadata_of(self.entries(), id@, now),
                entries: self.entries(),
            }),
    {
        let metadata = derive_metadata(&self.entries, id, now);
        Trajectory { metadata, entries: clone_entries(&self.entries) }
    }

    /// The document of the journal as it stands, under a fresh identifier.
    pub fn build_trajectory(&self) -> (r: Trajectory)
        ensures
            r@.entries == self.entries(),
            exists|id: Seq<char>, now: i64|
                r@.metadata == #[trigger] metadata_of(self.entries(), id, now),
    {
        let id = fresh_id();
        let now = now_millis();
        let r = self.build_trajectory_with(id, now);
        assert(r@.metadata == metadata_of(self.entries(), id@, now));
        r
    }

    /// What a save writes: the document, where the recorder is bound to a
    /// file; nothing otherwise.
    pub fn save(&self) -> (r: Option<Trajectory>)
        ensures
            r.is_some() == self.path().is_some(),
            r.is_some() ==> r.unwrap()@.entries == self.entries() && exists|
                id: Seq<char>,
                now: i64,
            |
                r.unwrap()@.metadata == #[trigger] metadata_of(self.entries(), id, now),
    {
        if self.file_path.is_some() {
            Some(self.build_trajectory())
        } else {
            None
        }
    }

    /// The error for a document that could not be written out.
    pub fn serialization_failure(detail: &str) -> (r: TrajectoryError)
        ensures
            r@ == (TrajectoryErrorView::RecordingFailed {
                message: "Failed to serialize trajectory: "@ + detail@,
            }),
    {
        let mut message = "Failed to serialize trajectory: ".to_owned();
        message.append(detail);
        TrajectoryError::RecordingFailed { message }
    }

    /// The outcome of a load, from what was found at `path`: a missing file
    /// and a file that is no trajectory document are different errors.
    pub fn load(path: &str, found: LoadedFile) -> (r: Result<Trajectory, TrajectoryError>)
        ensures
            match found {
                LoadedFile::Missing => r.is_err() && r.unwrap_err()@
                    == (TrajectoryErrorView::LoadFailed { path: path@ }),
                LoadedFile::Unreadable { message } => r.is_err() && r.unwrap_err()@
                    == (TrajectoryErrorView::Io { message: message@ }),
                LoadedFile::Malformed => r.is_err() && r.unwrap_err()@
                    == TrajectoryErrorView::InvalidFormat,
                LoadedFile::Parsed { trajectory } => r.is_ok() && r.unwrap() == trajectory,
            },
    {
        match found {
            LoadedFile::Missing => Err(TrajectoryError::LoadFailed { path: path.to_owned() }),
            LoadedFile::Unreadable { message } => Err(TrajectoryError::Io { message }),
            LoadedFile::Malformed => Err(TrajectoryError::InvalidFormat),
            LoadedFile::Parsed { trajectory } => Ok(trajectory),
        }
    }
}

impl Default for TrajectoryRecorder {
    fn default() -> (r: Self)
        ensures
            r.entries() == Seq::<EntryView>::empty(),
            r.path().is_none(),
            !r.persists(),
    {
        TrajectoryRecorder::new()
    }
}

} // verus!
