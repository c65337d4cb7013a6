use coro_agent::trajectory::{
    derive_metadata, elapsed_between, EntryType, LoadedFile, Trajectory, TrajectoryEntry,
    TrajectoryError, TrajectoryRecorder,
};

fn task_start(task: &str) -> EntryType {
    let mut config = serde_json::Map::new();
    config.insert("type".to_string(), serde_json::Value::String("test_agent".to_string()));
    EntryType::TaskStart { task: task.to_string(), agent_config: serde_json::Value::Object(config) }
}

fn task_complete(success: bool) -> EntryType {
    EntryType::TaskComplete { success, summary: "s".to_string(), total_steps: 1, duration_ms: 1 }
}

fn step(n: usize) -> EntryType {
    EntryType::StepComplete { description: format!("Step {} completed", n), success: true }
}

#[test]
fn test_trajectory_recorder_creation() {
    let recorder = TrajectoryRecorder::new();
    assert_eq!(recorder.entry_count(), 0);
    assert!(recorder.file_path().is_none());
    assert!(!recorder.auto_save());
}

#[test]
fn test_trajectory_recorder_with_file() {
    let file_path = "some_dir/test_trajectory.json";
    let recorder = TrajectoryRecorder::with_file(file_path);
    assert_eq!(recorder.entry_count(), 0);
    assert_eq!(recorder.file_path(), Some(file_path));
    assert!(recorder.auto_save());
}

#[test]
fn test_record_entry() {
    let mut recorder = TrajectoryRecorder::new();
    let entry = TrajectoryEntry::new(task_start("Test task"), 0);

    let persist = recorder.record(entry.clone());
    assert!(!persist);
    assert_eq!(recorder.entry_count(), 1);

    let entries = recorder.get_entries();
    assert_eq!(entries.len(), 1);
    assert_eq!(entries[0].id, entry.id);
}

#[test]
fn test_clear_entries() {
    let mut recorder = TrajectoryRecorder::new();
    let entry = TrajectoryEntry::new(task_start("Test task"), 0);

    recorder.record(entry);
    assert_eq!(recorder.entry_count(), 1);

    recorder.clear();
    assert_eq!(recorder.entry_count(), 0);
}

#[test]
fn test_auto_filename_recorder() {
    let recorder = TrajectoryRecorder::with_auto_filename("20240102_030405");

    let file_path = std::path::Path::new(recorder.file_path().unwrap());
    assert!(file_path.file_name().unwrap().to_str().unwrap().starts_with("trajectory_"));
    assert!(file_path.file_name().unwrap().to_str().unwrap().ends_with(".json"));
    assert_eq!(file_path.parent().unwrap().file_name().unwrap(), "trajectories");
    assert!(recorder.auto_save());
    assert_eq!(recorder.entry_count(), 0);
}

#[test]
fn auto_file_name_carries_the_stamp() {
    assert_eq!(
        TrajectoryRecorder::auto_file_name("20240102_030405"),
        "trajectory_20240102_030405.json"
    );
}

#[test]
fn default_recorder_is_unbound() {
    let recorder = TrajectoryRecorder::default();
    assert_eq!(recorder.entry_count(), 0);
    assert!(recorder.file_path().is_none());
    assert!(recorder.save().is_none());
}

#[test]
fn new_entries_get_distinct_ids_and_keep_their_payload() {
    let a = TrajectoryEntry::new(step(1), 1);
    let b = TrajectoryEntry::new(step(2), 2);
    assert_ne!(a.id, b.id);
    assert_eq!(a.id.len(), 36);
    assert_eq!(a.step, 1);
    assert_eq!(b.step, 2);
    assert!(a.timestamp > 1_600_000_000_000);
    assert!(b.timestamp >= a.timestamp);
    match &b.entry_type {
        EntryType::StepComplete { description, success } => {
            assert_eq!(description, "Step 2 completed");
            assert!(*success);
        }
        _ => panic!("wrong entry type"),
    }
}

#[test]
fn record_with_file_asks_for_persistence_and_keeps_order() {
    let mut recorder = TrajectoryRecorder::with_file("t.json");
    for i in 0..3 {
        let persist =
            recorder.record(TrajectoryEntry::stamped(format!("id{}", i), 10 + i, step(i as usize), i as usize));
        assert!(persist);
    }
    let ids: Vec<String> = recorder.get_entries().iter().map(|e| e.id.clone()).collect();
    assert_eq!(ids, vec!["id0", "id1", "id2"]);
    let document = recorder.save().expect("bound to a file");
    assert_eq!(document.entries.len(), 3);
    assert_eq!(document.metadata.total_steps, 3);
    assert_eq!(document.metadata.started_at, 10);
    assert_eq!(document.metadata.completed_at, Some(12));
    assert_eq!(document.metadata.duration_ms, Some(2));
    assert_eq!(document.metadata.id.len(), 36);
}

#[test]
fn metadata_is_derived_from_the_entries() {
    let entries = vec![
        TrajectoryEntry::stamped("a".to_string(), 1_000, task_start("first"), 0),
        TrajectoryEntry::stamped("b".to_string(), 1_500, task_complete(false), 1),
        TrajectoryEntry::stamped("c".to_string(), 2_000, task_start("second"), 0),
        TrajectoryEntry::stamped("d".to_string(), 2_250, step(1), 1),
        TrajectoryEntry::stamped("e".to_string(), 4_000, task_complete(true), 1),
        TrajectoryEntry::stamped("f".to_string(), 4_500, step(2), 2),
    ];
    let metadata = derive_metadata(&entries, "doc".to_string(), 99);
    assert_eq!(metadata.id, "doc");
    assert_eq!(metadata.started_at, 1_000);
    assert_eq!(metadata.completed_at, Some(4_500));
    assert_eq!(metadata.duration_ms, Some(3_500));
    assert_eq!(metadata.version, "1.0");
    assert_eq!(metadata.agent_type, "coro_agent");
    assert_eq!(metadata.task, Some("second".to_string()));
    assert_eq!(metadata.success, Some(true));
    assert_eq!(metadata.total_steps, 6);
}

#[test]
fn metadata_of_an_empty_journal() {
    let metadata = derive_metadata(&Vec::new(), "doc".to_string(), 77);
    assert_eq!(metadata.started_at, 77);
    assert_eq!(metadata.completed_at, None);
    assert_eq!(metadata.duration_ms, None);
    assert_eq!(metadata.task, None);
    assert_eq!(metadata.success, None);
    assert_eq!(metadata.total_steps, 0);
}

#[test]
fn elapsed_wraps_when_the_end_is_before_the_start() {
    assert_eq!(elapsed_between(5, 5), 0);
    assert_eq!(elapsed_between(5, 12), 7);
    assert_eq!(elapsed_between(-5, 12), 17);
    assert_eq!(elapsed_between(12, 5), (-7i64) as u64);
    assert_eq!(elapsed_between(i64::MIN, i64::MAX), u64::MAX);
    assert_eq!(elapsed_between(i64::MAX, i64::MIN), 1);
}

#[test]
fn build_trajectory_with_uses_the_given_identifier() {
    let mut recorder = TrajectoryRecorder::new();
    recorder.record(TrajectoryEntry::stamped("a".to_string(), 3, task_start("T"), 0));
    let document = recorder.build_trajectory_with("fixed".to_string(), 0);
    assert_eq!(document.metadata.id, "fixed");
    assert_eq!(document.metadata.task, Some("T".to_string()));
    assert_eq!(document.entries.len(), 1);
    assert_eq!(document.entries[0].id, "a");
    let other = recorder.build_trajectory();
    assert_ne!(other.metadata.id, "fixed");
    assert_eq!(other.metadata.started_at, 3);
}

#[test]
fn loading_a_missing_file_differs_from_loading_an_invalid_one() {
    let missing = TrajectoryRecorder::load("/nonexistent/t.json", LoadedFile::Missing);
    let invalid = TrajectoryRecorder::load("/tmp/bad.json", LoadedFile::Malformed);
    match missing {
        Err(TrajectoryError::LoadFailed { path }) => assert_eq!(path, "/nonexistent/t.json"),
        other => panic!("expected a load failure, got {:?}", other),
    }
    assert!(matches!(invalid, Err(TrajectoryError::InvalidFormat)));
    let unreadable = TrajectoryRecorder::load(
        "/tmp/x",
        LoadedFile::Unreadable { message: "permission denied".to_string() },
    );
    match unreadable {
        Err(TrajectoryError::Io { message }) => assert_eq!(message, "permission denied"),
        other => panic!("expected a read failure, got {:?}", other),
    }
}

#[test]
fn loading_a_parsed_document_hands_it_back() {
    let mut recorder = TrajectoryRecorder::new();
    recorder.record(TrajectoryEntry::stamped("a".to_string(), 3, task_start("T"), 0));
    let document: Trajectory = recorder.build_trajectory_with("doc".to_string(), 0);
    let loaded =
        TrajectoryRecorder::load("p", LoadedFile::Parsed { trajectory: document }).unwrap();
    assert_eq!(loaded.metadata.id, "doc");
    assert_eq!(loaded.entries.len(), 1);
}

#[test]
fn serialization_failure_is_a_recording_error() {
    match TrajectoryRecorder::serialization_failure("key must be a string") {
        TrajectoryError::RecordingFailed { message } => {
            assert_eq!(message, "Failed to serialize trajectory: key must be a string")
        }
        other => panic!("expected a recording failure, got {:?}", other),
    }
}
