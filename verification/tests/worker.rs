use media_worker::protocol::WorkerCommand;
use media_worker::runtime::RuntimePaths;
use media_worker::state::AppState;
use media_worker::types::{
    BatchEvent, BatchState, BatchStatus, JobRecord, JobStatus, TaskEvent, WorkerStatusKind,
};
use media_worker::worker::{ingest_lines, needs_worker_start, preparing_notices};
use media_worker::worker::{
    diagnostic_notices, ingest_line, live_worker_sender, plan_worker_launch,
    prepend_to_search_path, ready_notices, starting_notices, worker_exited, CommandRelay, EnvVar,
    Notices, RelayAction, WorkerExit,
};

fn both(status: WorkerStatusKind, message: &str) -> Notices {
    Notices {
        batch: Some(BatchEvent::WorkerStatus { status, message: message.to_string() }),
        task: Some(TaskEvent::WorkerStatus { status, message: message.to_string() }),
    }
}

fn one_job_batch() -> BatchState {
    BatchState {
        batch_id: "batch-1".to_string(),
        status: BatchStatus::Queued,
        jobs: vec![JobRecord {
            job_id: "job-1".to_string(),
            file_name: "a.mov".to_string(),
            input_path: "/tmp/a.mov".to_string(),
            output_path: None,
            status: JobStatus::Queued,
            progress_pct: 0,
            error: None,
        }],
        summary: None,
    }
}

#[test]
fn a_bad_line_does_not_stop_the_ingestion() {
    let mut state = AppState::new();
    state.insert_batch(one_job_batch());

    let notices = ingest_line(&mut state.batches, &mut state.tasks, r#"{"type":"unknown_event"}"#);
    assert_eq!(
        notices,
        both(
            WorkerStatusKind::Error,
            "Failed to parse worker event: unknown event type `unknown_event`"
        )
    );
    assert_eq!(state.get_batch("batch-1"), Some(one_job_batch()));

    let notices = ingest_line(
        &mut state.batches,
        &mut state.tasks,
        r#"{"type":"job_progress","batchId":"batch-1","jobId":"job-1","progressPct":42.4}"#,
    );
    assert_eq!(
        notices,
        Notices {
            batch: Some(BatchEvent::JobProgress {
                batch_id: "batch-1".to_string(),
                job_id: "job-1".to_string(),
                progress_pct: 42,
            }),
            task: None,
        }
    );
    let batch = state.get_batch("batch-1").expect("batch should exist");
    assert_eq!(batch.status, BatchStatus::Running);
    assert_eq!(batch.jobs[0].status, JobStatus::Running);
    assert_eq!(batch.jobs[0].progress_pct, 42);
}

#[test]
fn a_line_that_is_no_json_is_reported_on_both_feeds() {
    let mut state = AppState::new();
    state.insert_batch(one_job_batch());
    let notices = ingest_line(&mut state.batches, &mut state.tasks, "{not-json");
    match (&notices.batch, &notices.task) {
        (
            Some(BatchEvent::WorkerStatus { status: WorkerStatusKind::Error, message }),
            Some(TaskEvent::WorkerStatus { status: WorkerStatusKind::Error, message: other }),
        ) => {
            assert!(message.starts_with("Failed to parse worker event: "));
            assert!(message.len() > "Failed to parse worker event: ".len());
            assert_eq!(message, other);
        }
        _ => panic!("expected an error status on both feeds"),
    }
    assert_eq!(state.get_batch("batch-1"), Some(one_job_batch()));
}

#[test]
fn a_line_with_a_missing_field_is_reported_and_changes_nothing() {
    let mut state = AppState::new();
    state.insert_batch(one_job_batch());
    let notices = ingest_line(&mut state.batches, &mut state.tasks, r#"{"type":"job_progress","batchId":"batch-1"}"#);
    assert_eq!(
        notices,
        both(WorkerStatusKind::Error, "Failed to parse worker event: missing field `jobId`")
    );
    assert_eq!(state.get_batch("batch-1"), Some(one_job_batch()));
}

#[test]
fn an_unknown_worker_status_is_taken_in_without_a_notice() {
    let mut state = AppState::new();
    let notices =
        ingest_line(&mut state.batches, &mut state.tasks, r#"{"type":"worker_status","status":"booting","message":"x"}"#);
    assert_eq!(notices, Notices { batch: None, task: None });
}

#[test]
fn the_relay_writes_the_line_of_each_command() {
    let mut relay = CommandRelay::new();
    let action = relay.command(&WorkerCommand::CancelBatch {
        batch_id: "b".to_string(),
        mode: "stop_after_current".to_string(),
    });
    assert_eq!(
        action,
        RelayAction::Write(
            "{\"type\":\"cancel_batch\",\"batchId\":\"b\",\"mode\":\"stop_after_current\"}\n"
                .to_string()
        )
    );
    assert!(!relay.stopped);
}

#[test]
fn the_relay_stops_for_good_after_a_failed_write() {
    let mut relay = CommandRelay::new();
    let action = relay.write_failed("broken pipe");
    assert_eq!(
        action,
        RelayAction::Report(both(
            WorkerStatusKind::Error,
            "Failed writing to worker stdin: broken pipe"
        ))
    );
    assert!(relay.stopped);
    let action = relay.command(&WorkerCommand::CancelTask {
        task_id: "t".to_string(),
        mode: "stop_after_current".to_string(),
    });
    assert_eq!(action, RelayAction::Idle);
    assert_eq!(relay.write_failed("again"), RelayAction::Idle);
    assert!(relay.stopped);
}

#[test]
fn a_diagnostic_line_is_forwarded_as_an_error() {
    assert_eq!(
        diagnostic_notices("Traceback (most recent call last):"),
        both(WorkerStatusKind::Error, "worker stderr: Traceback (most recent call last):")
    );
    assert_eq!(diagnostic_notices(""), both(WorkerStatusKind::Error, "worker stderr: "));
}

#[test]
fn the_end_of_the_worker_clears_its_queue() {
    let mut state = AppState::new();
    state.insert_batch(one_job_batch());
    let (sender, _receiver) = tokio::sync::mpsc::unbounded_channel();
    state.set_worker_sender(sender);
    let notices =
        worker_exited(&mut state.worker_sender, &WorkerExit::Exited("exit status: 1".to_string()));
    assert_eq!(
        notices,
        Notices {
            batch: Some(BatchEvent::WorkerStatus {
                status: WorkerStatusKind::Error,
                message: "Worker process exited unexpectedly: exit status: 1".to_string(),
            }),
            task: Some(TaskEvent::WorkerStatus {
                status: WorkerStatusKind::Error,
                message: "Worker exited unexpectedly.".to_string(),
            }),
        }
    );
    assert!(state.worker_sender().is_none());
    assert_eq!(state.get_batch("batch-1"), Some(one_job_batch()));

    let notices =
        worker_exited(&mut state.worker_sender, &WorkerExit::WaitFailed("gone".to_string()));
    assert_eq!(
        notices.batch,
        Some(BatchEvent::WorkerStatus {
            status: WorkerStatusKind::Error,
            message: "Failed waiting on worker process: gone".to_string(),
        })
    );
}

#[test]
fn the_start_and_the_readiness_of_the_worker_are_announced() {
    assert_eq!(
        starting_notices(),
        both(WorkerStatusKind::Starting, "Starting persistent Python worker...")
    );
    assert_eq!(ready_notices(), both(WorkerStatusKind::Ready, "Worker ready."));
    assert_eq!(
        preparing_notices(),
        Notices {
            batch: Some(BatchEvent::WorkerStatus {
                status: WorkerStatusKind::Starting,
                message: "Preparing runtime and worker...".to_string(),
            }),
            task: None,
        }
    );
}

#[test]
fn a_queue_is_reused_while_its_receiver_is_there() {
    let mut state = AppState::new();
    assert!(live_worker_sender(&state.worker_sender).is_none());
    let (sender, receiver) = tokio::sync::mpsc::unbounded_channel();
    state.set_worker_sender(sender);
    assert!(live_worker_sender(&state.worker_sender).is_some());
    drop(receiver);
    assert!(live_worker_sender(&state.worker_sender).is_none());
    assert!(state.worker_sender().is_some());
}

#[test]
fn a_worker_is_started_unless_a_queue_is_open() {
    assert!(needs_worker_start(false, false));
    assert!(needs_worker_start(false, true));
    assert!(needs_worker_start(true, true));
    assert!(!needs_worker_start(true, false));
}

#[test]
fn a_search_path_gets_a_directory_in_front() {
    assert_eq!(prepend_to_search_path("/w/src", Some("/a:/b")), "/w/src:/a:/b");
    assert_eq!(prepend_to_search_path("/w/src", Some("")), "/w/src");
    assert_eq!(prepend_to_search_path("/w/src", None), "/w/src");
}

#[test]
fn the_worker_is_launched_in_its_runtime() {
    let runtime = RuntimePaths {
        python_executable: "/data/runtime/venv/bin/python3".to_string(),
        worker_script: "/res/python-worker/worker.py".to_string(),
        ffmpeg_executable: "ffmpeg".to_string(),
        yap_executable: "/res/assets/bin/yap.sh".to_string(),
    };
    let launch = plan_worker_launch(&runtime, Some("/old/py"), Some("/usr/bin:/bin"))
        .expect("launch should be planned");
    assert_eq!(launch.program, "/data/runtime/venv/bin/python3");
    assert_eq!(launch.script, "/res/python-worker/worker.py");
    let var = |name: &str, value: &str| EnvVar { name: name.to_string(), value: value.to_string() };
    assert_eq!(
        launch.env,
        vec![
            var("PYTHONUNBUFFERED", "1"),
            var("PYTHONPATH", "/res/python-worker/src:/old/py"),
            var("PATH", "/data/runtime/venv/bin:/usr/bin:/bin"),
            var("AIYAAL_DEMUCS_PATH", "/data/runtime/venv/bin/demucs"),
            var("AIYAAL_FFMPEG_PATH", "ffmpeg"),
            var("AIYAAL_YAP_PATH", "/res/assets/bin/yap.sh"),
        ]
    );

    let launch = plan_worker_launch(&runtime, None, Some("")).expect("launch should be planned");
    assert_eq!(launch.env[1], var("PYTHONPATH", "/res/python-worker/src"));
    assert_eq!(launch.env[2], var("PATH", "/data/runtime/venv/bin"));
}

#[test]
fn a_launch_without_a_parent_directory_is_an_error() {
    let mut runtime = RuntimePaths {
        python_executable: "/venv/bin/python3".to_string(),
        worker_script: "".to_string(),
        ffmpeg_executable: "ffmpeg".to_string(),
        yap_executable: "yap".to_string(),
    };
    assert_eq!(
        plan_worker_launch(&runtime, None, None),
        Err("Failed to resolve worker source directory.".to_string())
    );
    runtime.worker_script = "worker.py".to_string();
    runtime.python_executable = "/".to_string();
    assert_eq!(
        plan_worker_launch(&runtime, None, None),
        Err("Failed to resolve Python venv bin directory.".to_string())
    );
    runtime.python_executable = "python3".to_string();
    let launch = plan_worker_launch(&runtime, None, None).expect("launch should be planned");
    assert_eq!(launch.env[1].value, "src");
    assert_eq!(launch.env[2].value, "");
}

#[test]
fn a_run_of_lines_is_taken_in_to_its_end() {
    let mut state = AppState::new();
    state.insert_batch(one_job_batch());
    let lines = vec![
        r#"{"type":"unknown_event"}"#.to_string(),
        "{not-json".to_string(),
        r#"{"type":"job_progress","batchId":"batch-1","jobId":"job-1","progressPct":42.4}"#
            .to_string(),
        r#"{"type":"job_progress","batchId":"batch-1"}"#.to_string(),
        r#"{"type":"job_done","batchId":"batch-1","jobId":"job-1","outputPath":"/o/a.mov"}"#
            .to_string(),
    ];
    let told = ingest_lines(&mut state.batches, &mut state.tasks, &lines);
    assert_eq!(told.len(), 5);
    assert_eq!(
        told[0],
        both(
            WorkerStatusKind::Error,
            "Failed to parse worker event: unknown event type `unknown_event`"
        )
    );
    assert!(matches!(
        &told[1].batch,
        Some(BatchEvent::WorkerStatus { status: WorkerStatusKind::Error, .. })
    ));
    assert_eq!(
        told[2].batch,
        Some(BatchEvent::JobProgress {
            batch_id: "batch-1".to_string(),
            job_id: "job-1".to_string(),
            progress_pct: 42,
        })
    );
    assert_eq!(
        told[3],
        both(WorkerStatusKind::Error, "Failed to parse worker event: missing field `jobId`")
    );
    assert_eq!(
        told[4].batch,
        Some(BatchEvent::JobDone {
            batch_id: "batch-1".to_string(),
            job_id: "job-1".to_string(),
            output_path: "/o/a.mov".to_string(),
        })
    );
    let batch = state.get_batch("batch-1").expect("batch should exist");
    assert_eq!(batch.status, BatchStatus::Running);
    assert_eq!(batch.jobs[0].status, JobStatus::Completed);
    assert_eq!(batch.jobs[0].progress_pct, 100);
    assert!(ingest_lines(&mut state.batches, &mut state.tasks, &[]).is_empty());
}
