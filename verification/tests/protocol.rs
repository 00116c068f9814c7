use media_worker::json::Json;
use media_worker::progress::Progress;
use media_worker::protocol::{
    parse_worker_event, to_frontend_batch_event, to_frontend_task_event, WorkerCommand, WorkerEvent,
};
use media_worker::types::{BatchEvent, CutRange, TaskEvent, TaskKind, WorkerStatusKind};

#[test]
fn should_serialize_cancel_batch_command() {
    let line = WorkerCommand::CancelBatch {
        batch_id: "batch-1".to_string(),
        mode: "stop_after_current".to_string(),
    }
    .to_json_line()
    .expect("command serialization should succeed");

    assert!(line.contains("\"type\":\"cancel_batch\""));
    assert!(line.contains("\"batchId\":\"batch-1\""));
}

#[test]
fn should_parse_job_progress_event() {
    let line = r#"{"type":"job_progress","batchId":"batch-1","jobId":"job-1","progressPct":42.4}"#;
    let event = parse_worker_event(line).expect("worker event should parse");

    match event {
        WorkerEvent::JobProgress {
            batch_id,
            job_id,
            progress_pct,
            ..
        } => {
            assert_eq!(batch_id, Some("batch-1".to_string()));
            assert_eq!(job_id, "job-1");
            assert_eq!(f64::from_bits(progress_pct.bits), 42.4);
        }
        _ => panic!("expected job progress event"),
    }
}

#[test]
fn should_fail_when_worker_event_json_is_invalid() {
    let result = parse_worker_event("{not-json");
    assert!(result.is_err());
}

#[test]
fn should_fail_when_worker_event_type_is_unknown() {
    let result = parse_worker_event(r#"{"type":"unknown_event"}"#);
    assert!(result.is_err());
}

#[test]
fn should_fail_when_required_fields_are_missing() {
    let result = parse_worker_event(r#"{"type":"job_progress","batchId":"batch-1"}"#);
    assert!(result.is_err());
}

#[test]
fn should_map_progress_with_rounding_and_clamping() {
    let event = parse_worker_event(
        r#"{"type":"job_progress","taskId":"task-1","taskKind":"flag","jobId":"job-1","progressPct":200.8}"#,
    )
    .expect("worker event should parse");
    let frontend_event =
        to_frontend_task_event(&event).expect("frontend task event should be mapped");

    match frontend_event {
        TaskEvent::JobProgress { progress_pct, .. } => {
            assert_eq!(progress_pct, 100);
        }
        _ => panic!("expected job progress frontend event"),
    }
}

#[test]
fn should_ignore_unknown_worker_status_when_mapping_frontend_event() {
    let event = parse_worker_event(
        r#"{"type":"worker_status","status":"booting","message":"starting up"}"#,
    )
    .expect("worker event should parse");

    assert!(to_frontend_batch_event(&event).is_none());
}

#[test]
fn should_map_job_log_to_task_event() {
    let event = parse_worker_event(
        r#"{"type":"job_log","taskId":"task-1","taskKind":"cut","jobId":"job-1","message":"line","stream":"stderr"}"#,
    )
    .expect("worker event should parse");

    let task_event = to_frontend_task_event(&event).expect("task event should map");
    match task_event {
        TaskEvent::JobLog {
            task_id,
            task_kind,
            stream,
            ..
        } => {
            assert_eq!(task_id, "task-1");
            assert_eq!(task_kind, TaskKind::Cut);
            assert_eq!(stream, "stderr");
        }
        _ => panic!("expected job log event"),
    }
}

#[test]
fn cancel_batch_line_is_the_exact_record() {
    let line = WorkerCommand::CancelBatch {
        batch_id: "batch-1".to_string(),
        mode: "stop_after_current".to_string(),
    }
    .to_json_line()
    .expect("command serialization should succeed");
    assert_eq!(
        line,
        "{\"type\":\"cancel_batch\",\"batchId\":\"batch-1\",\"mode\":\"stop_after_current\"}\n"
    );
}

#[test]
fn cancel_task_line_is_the_exact_record() {
    let line = WorkerCommand::CancelTask {
        task_id: "task-9".to_string(),
        mode: "stop_after_current".to_string(),
    }
    .to_json_line()
    .expect("command serialization should succeed");
    assert_eq!(
        line,
        "{\"type\":\"cancel_task\",\"taskId\":\"task-9\",\"mode\":\"stop_after_current\"}\n"
    );
}

#[test]
fn start_batch_line_lists_the_input_paths_in_order() {
    let line = WorkerCommand::StartBatch {
        batch_id: "b".to_string(),
        input_paths: vec!["/tmp/a.mov".to_string(), "/tmp/b.mp4".to_string()],
        output_dir: "/tmp/audio_replaced".to_string(),
        compute_mode: "auto".to_string(),
    }
    .to_json_line()
    .expect("command serialization should succeed");
    assert_eq!(
        line,
        "{\"type\":\"start_batch\",\"batchId\":\"b\",\"inputPaths\":[\"/tmp/a.mov\",\"/tmp/b.mp4\"],\"outputDir\":\"/tmp/audio_replaced\",\"computeMode\":\"auto\"}\n"
    );
}

#[test]
fn start_transcription_line_with_no_path_has_an_empty_array() {
    let line = WorkerCommand::StartTranscriptionBatch {
        task_id: "t".to_string(),
        input_paths: Vec::new(),
        yap_mode: "auto".to_string(),
    }
    .to_json_line()
    .expect("command serialization should succeed");
    assert_eq!(
        line,
        "{\"type\":\"start_transcription_batch\",\"taskId\":\"t\",\"inputPaths\":[],\"yapMode\":\"auto\"}\n"
    );
}

#[test]
fn start_cut_line_holds_each_range_as_an_object() {
    let line = WorkerCommand::StartCutJob {
        task_id: "t".to_string(),
        video_path: "/tmp/v.mp4".to_string(),
        ranges: vec![
            CutRange { start: "0:01".to_string(), end: "0:05".to_string() },
            CutRange { start: "1:00".to_string(), end: "1:30".to_string() },
        ],
        output_mode: "video_cleaned_default".to_string(),
    }
    .to_json_line()
    .expect("command serialization should succeed");
    assert_eq!(
        line,
        "{\"type\":\"start_cut_job\",\"taskId\":\"t\",\"videoPath\":\"/tmp/v.mp4\",\"ranges\":[{\"start\":\"0:01\",\"end\":\"0:05\"},{\"start\":\"1:00\",\"end\":\"1:30\"}],\"outputMode\":\"video_cleaned_default\"}\n"
    );
}

#[test]
fn start_flag_line_holds_the_settings() {
    let line = WorkerCommand::StartFlagBatch {
        task_id: "t".to_string(),
        input_paths: vec!["/tmp/a.srt".to_string()],
        settings: media_worker::types::ModerationSettings {
            content_criteria: "c".to_string(),
            priority_guidelines: "p".to_string(),
            profanity_words: vec!["x".to_string()],
            rules: vec![media_worker::types::ModerationRule {
                rule_id: "r".to_string(),
                category: "cat".to_string(),
                priority: "high".to_string(),
                reason: "why".to_string(),
                patterns: vec!["a".to_string(), "b".to_string()],
            }],
        },
    }
    .to_json_line()
    .expect("command serialization should succeed");
    assert_eq!(
        line,
        "{\"type\":\"start_flag_batch\",\"taskId\":\"t\",\"inputPaths\":[\"/tmp/a.srt\"],\"settings\":{\"contentCriteria\":\"c\",\"priorityGuidelines\":\"p\",\"profanityWords\":[\"x\"],\"rules\":[{\"ruleId\":\"r\",\"category\":\"cat\",\"priority\":\"high\",\"reason\":\"why\",\"patterns\":[\"a\",\"b\"]}]}}\n"
    );
}

#[test]
fn a_line_break_inside_a_string_is_escaped() {
    let line = WorkerCommand::CancelBatch {
        batch_id: "a\nb\"c".to_string(),
        mode: "stop_after_current".to_string(),
    }
    .to_json_line()
    .expect("command serialization should succeed");
    assert_eq!(
        line,
        "{\"type\":\"cancel_batch\",\"batchId\":\"a\\nb\\\"c\",\"mode\":\"stop_after_current\"}\n"
    );
    assert_eq!(line.matches('\n').count(), 1);
    assert!(line.ends_with('\n'));
}

#[test]
fn encoded_line_is_read_back_by_serde_json() {
    let line = WorkerCommand::StartBatch {
        batch_id: "b".to_string(),
        input_paths: vec!["/tmp/a \"q\".mov".to_string()],
        output_dir: "/tmp/out".to_string(),
        compute_mode: "auto".to_string(),
    }
    .to_json_line()
    .expect("command serialization should succeed");
    let value: serde_json::Value = serde_json::from_str(&line).expect("line should be JSON");
    assert_eq!(value["type"], "start_batch");
    assert_eq!(value["inputPaths"][0], "/tmp/a \"q\".mov");
}

#[test]
fn job_done_keeps_output_path_and_artifacts() {
    let event = parse_worker_event(
        r#"{"type":"job_done","taskId":"task-1","taskKind":"transcription","jobId":"job-1","outputPath":"/tmp/a.srt","artifacts":{"segments":[1,2],"ok":true}}"#,
    )
    .expect("worker event should parse");
    match &event {
        WorkerEvent::JobDone { output_path, artifacts, batch_id, .. } => {
            assert_eq!(output_path, &Some("/tmp/a.srt".to_string()));
            assert!(batch_id.is_none());
            let artifacts = artifacts.as_ref().expect("artifacts should be kept");
            match artifacts.get("ok") {
                Some(Json::Bool(flag)) => assert!(*flag),
                _ => panic!("expected a boolean member"),
            }
            match artifacts.get("segments") {
                Some(Json::Array(items)) => assert_eq!(items.len(), 2),
                _ => panic!("expected an array member"),
            }
        }
        _ => panic!("expected job done event"),
    }
    match to_frontend_task_event(&event) {
        Some(TaskEvent::JobDone { task_kind, output_path, artifacts, .. }) => {
            assert_eq!(task_kind, TaskKind::Transcription);
            assert_eq!(output_path, Some("/tmp/a.srt".to_string()));
            assert!(artifacts.is_some());
        }
        _ => panic!("expected job done task event"),
    }
    assert!(to_frontend_batch_event(&event).is_none());
}

#[test]
fn job_done_without_output_path_is_reported_with_an_empty_path_to_batches() {
    let event = parse_worker_event(r#"{"type":"job_done","batchId":"b","jobId":"j","outputPath":null}"#)
        .expect("worker event should parse");
    assert_eq!(
        to_frontend_batch_event(&event),
        Some(BatchEvent::JobDone {
            batch_id: "b".to_string(),
            job_id: "j".to_string(),
            output_path: String::new(),
        })
    );
    assert!(to_frontend_task_event(&event).is_none());
}

#[test]
fn job_log_without_stream_is_reported_as_stdout() {
    let event = parse_worker_event(r#"{"type":"job_log","batchId":"b","jobId":"j","message":"m"}"#)
        .expect("worker event should parse");
    assert_eq!(
        to_frontend_batch_event(&event),
        Some(BatchEvent::JobLog {
            batch_id: "b".to_string(),
            job_id: "j".to_string(),
            message: "m".to_string(),
            stream: "stdout".to_string(),
        })
    );
}

#[test]
fn batch_done_and_task_done_carry_their_counts() {
    let event = parse_worker_event(
        r#"{"type":"batch_done","batchId":"b","summary":{"ok":2,"failed":1,"cancelled":0}}"#,
    )
    .expect("worker event should parse");
    match &event {
        WorkerEvent::BatchDone { batch_id, summary } => {
            assert_eq!(batch_id, "b");
            assert_eq!((summary.ok, summary.failed, summary.cancelled), (2, 1, 0));
        }
        _ => panic!("expected batch done event"),
    }
    assert!(to_frontend_task_event(&event).is_none());

    let event = parse_worker_event(
        r#"{"type":"task_done","taskId":"t","taskKind":"cut","summary":{"ok":0,"failed":0,"cancelled":3}}"#,
    )
    .expect("worker event should parse");
    match to_frontend_task_event(&event) {
        Some(TaskEvent::TaskDone { task_id, task_kind, summary }) => {
            assert_eq!(task_id, "t");
            assert_eq!(task_kind, TaskKind::Cut);
            assert_eq!(summary.cancelled, 3);
        }
        _ => panic!("expected task done event"),
    }
    assert!(to_frontend_batch_event(&event).is_none());
}

#[test]
fn known_worker_status_is_reported_on_both_feeds() {
    let event = parse_worker_event(r#"{"type":"worker_status","status":"ready","message":"up"}"#)
        .expect("worker event should parse");
    assert_eq!(
        to_frontend_batch_event(&event),
        Some(BatchEvent::WorkerStatus { status: WorkerStatusKind::Ready, message: "up".to_string() })
    );
    assert_eq!(
        to_frontend_task_event(&event),
        Some(TaskEvent::WorkerStatus { status: WorkerStatusKind::Ready, message: "up".to_string() })
    );
}

#[test]
fn task_event_with_unknown_kind_is_not_forwarded() {
    let event = parse_worker_event(
        r#"{"type":"job_progress","taskId":"t","taskKind":"paint","jobId":"j","progressPct":5}"#,
    )
    .expect("worker event should parse");
    assert!(to_frontend_task_event(&event).is_none());
    assert!(to_frontend_batch_event(&event).is_none());
}

#[test]
fn progress_reading_of_whole_number_is_kept() {
    let event = parse_worker_event(r#"{"type":"job_progress","batchId":"b","jobId":"j","progressPct":33}"#)
        .expect("worker event should parse");
    match event {
        WorkerEvent::JobProgress { progress_pct, .. } => {
            assert_eq!(progress_pct, Progress::from_bits(33.0f64.to_bits()));
        }
        _ => panic!("expected job progress event"),
    }
}
