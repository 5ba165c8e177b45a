use revdeprun::phase::{Phase, PhaseOutcome};
use revdeprun::pipeline::Pipeline;
use revdeprun::monitor::{count_artifacts, status_message, DirEntry, MonitorState};
use revdeprun::progress::{TaskRecord, TaskState};

fn file(name: &str) -> DirEntry {
    DirEntry { name: name.to_string(), is_file: true }
}

#[test]
fn missing_directory_counts_zero() {
    assert_eq!(count_artifacts(&None), 0);
    assert_eq!(count_artifacts(&Some(Vec::new())), 0);
}

#[test]
fn metadata_files_are_not_counted() {
    let entries = vec![
        file("a_1.0.tar.gz"),
        file("PACKAGES"),
        file("b_2.0.tar.gz"),
        file("PACKAGES.gz"),
        file("c_0.1.tar.gz"),
        DirEntry { name: "subdir".to_string(), is_file: false },
    ];
    assert_eq!(count_artifacts(&Some(entries)), 3);
}

#[test]
fn status_line_changes_only_when_text_changes() {
    let line = status_message("Installing revdep dependencies", 3);
    assert_eq!(line, "Installing revdep dependencies (3 packages staged)");
    let mut state = MonitorState::new();
    assert_eq!(state.observe(line.clone()), Some(line.clone()));
    assert_eq!(state.observe(line.clone()), None);
    let next = status_message("Installing revdep dependencies", 4);
    assert_eq!(state.observe(next.clone()), Some(next));
}

#[test]
fn dropped_task_is_cancelled() {
    let task = TaskRecord::start("Cloning x".to_string());
    assert_eq!(task.state(), TaskState::Running);
    assert_eq!(task.on_release(), Some("Cloning x (cancelled)".to_string()));
}

#[test]
fn finished_task_is_not_cancelled() {
    let mut task = TaskRecord::start("Cloning x".to_string());
    task.finish();
    assert_eq!(task.state(), TaskState::Finished);
    assert_eq!(task.on_release(), None);
    task.fail();
    assert_eq!(task.state(), TaskState::Finished);

    let mut failed = TaskRecord::start("y".to_string());
    failed.fail();
    failed.finish();
    assert_eq!(failed.state(), TaskState::Failed);
    assert_eq!(failed.label(), "y");
    assert_eq!(failed.on_release(), None);
}

#[test]
fn phases_run_in_order_and_halt_on_failure() {
    let mut pipeline = Pipeline::new();
    assert_eq!(pipeline.start(), Some(Phase::Setup));
    assert_eq!(pipeline.start(), None);
    pipeline.finish(&PhaseOutcome::Succeeded);
    assert_eq!(pipeline.start(), Some(Phase::Prepare));
    pipeline.finish(&PhaseOutcome::FailedWithStatus(Some(1)));
    assert!(pipeline.is_halted());
    assert_eq!(pipeline.start(), None);
    pipeline.finish(&PhaseOutcome::Succeeded);
    assert_eq!(pipeline.start(), None);

    let mut all = Pipeline::new();
    for expected in [Phase::Setup, Phase::Prepare, Phase::Run] {
        assert_eq!(all.start(), Some(expected));
        all.finish(&PhaseOutcome::Succeeded);
    }
    assert_eq!(all.start(), None);
    assert!(!all.is_halted());
}
