use media_worker::commands::{
    cancel_batch, cancel_batch_command, cancel_task, cancel_task_command, create_batch_jobs,
    dispatch, get_batch_state, get_task_state, has_extension_in, normalize_extension,
    normalize_extensions, resolve_input_paths, resolve_listed_paths, start_batch, start_cut_job,
    start_flag_batch, start_transcription_batch, submit_batch, submit_cut_task, submit_flag_task,
    submit_transcription_task, validate_paths_have_extensions, InputSource,
};
use media_worker::commands::{
    default_moderation_settings, ensure_supported_cancel_mode, ensure_supported_cut_output_mode,
    ensure_supported_output_mode, ensure_supported_yap_mode,
};
use media_worker::commands::{batch_cancel_ack, enqueue_outcome, task_cancel_ack};
use media_worker::protocol::{clone_command, WorkerCommand};
use media_worker::state::{BatchStore, TaskStore};
use media_worker::commands::{ensure_media_found, plan_flag_input, plan_transcription_input};
use media_worker::types::{
    BatchStatus, CancelBatchRequest, CancelTaskRequest, CutRange, JobStatus, StartBatchRequest,
    StartCutJobRequest, StartFlagBatchRequest, StartTranscriptionBatchRequest, TaskJobStatus,
    TaskKind, TaskStatus,
};

fn strings(values: &[&str]) -> Vec<String> {
    values.iter().map(|value| value.to_string()).collect()
}

fn batch_request(mode: &str) -> StartBatchRequest {
    StartBatchRequest {
        input_dir: "/tmp".to_string(),
        output_dir_mode: mode.to_string(),
        allowed_extensions: strings(&[".mp4", ".mov"]),
    }
}

#[test]
fn the_supported_modes_are_accepted() {
    assert_eq!(ensure_supported_output_mode("audio_replaced_default"), Ok(()));
    assert_eq!(ensure_supported_cut_output_mode("video_cleaned_default"), Ok(()));
    assert_eq!(ensure_supported_cancel_mode("stop_after_current"), Ok(()));
    assert_eq!(ensure_supported_yap_mode("auto"), Ok(()));
}

#[test]
fn an_unsupported_mode_is_rejected_with_its_message() {
    assert_eq!(
        ensure_supported_output_mode("video_cleaned_default"),
        Err("Unsupported output mode. Use audio_replaced_default.".to_string())
    );
    assert_eq!(
        ensure_supported_cut_output_mode("audio_replaced_default"),
        Err("Unsupported cut output mode. Use video_cleaned_default.".to_string())
    );
    assert_eq!(
        ensure_supported_cancel_mode(""),
        Err("Unsupported cancellation mode. Use stop_after_current.".to_string())
    );
    assert_eq!(
        ensure_supported_yap_mode("Auto"),
        Err("Unsupported yap mode. Use auto.".to_string())
    );
}

#[test]
fn allowed_extensions_are_compared_trimmed_lowered_and_dotted() {
    assert_eq!(normalize_extension("mp4"), ".mp4");
    assert_eq!(normalize_extension(".MOV"), ".mov");
    assert_eq!(normalize_extension("  .Srt \n"), ".srt");
    assert_eq!(normalize_extension(""), ".");
    assert_eq!(normalize_extensions(&strings(&[" MP4", ".mov"])), strings(&[".mp4", ".mov"]));
    let allowed = strings(&[".mp4", ".mov"]);
    assert!(has_extension_in("/tmp/a.MP4", &allowed));
    assert!(has_extension_in("clip.mov", &allowed));
    assert!(!has_extension_in("/tmp/a.srt", &allowed));
    assert!(!has_extension_in("/tmp/mp4", &allowed));
    assert!(!has_extension_in("/tmp/.mp4", &allowed));
    assert!(!has_extension_in("", &allowed));
    assert!(!has_extension_in("/tmp/a.mp4", &Vec::new()));
}

#[test]
fn paths_are_checked_against_the_allowed_extensions() {
    let allowed = strings(&["mp4", ".MOV"]);
    assert_eq!(
        validate_paths_have_extensions(&strings(&["/tmp/a.mp4", "/tmp/b.Mov"]), &allowed),
        Ok(())
    );
    assert_eq!(validate_paths_have_extensions(&[], &allowed), Ok(()));
    assert_eq!(
        validate_paths_have_extensions(
            &strings(&["/tmp/a.mp4", "/tmp/b.txt", "/tmp/c.doc"]),
            &allowed
        ),
        Err("Unsupported file extension for path: /tmp/b.txt".to_string())
    );
    assert_eq!(
        validate_paths_have_extensions(&strings(&["/tmp/noext"]), &allowed),
        Err("Unsupported file extension for path: /tmp/noext".to_string())
    );
}

#[test]
fn the_paths_of_a_request_are_resolved() {
    let allowed = strings(&[".srt"]);
    let paths = strings(&["/tmp/a.srt", "/tmp/b.SRT"]);
    assert_eq!(
        resolve_input_paths(Some("/dir"), Some(&paths), &allowed, "none"),
        Ok(InputSource::Paths(paths.clone()))
    );
    assert_eq!(
        resolve_input_paths(Some("/dir"), Some(&Vec::new()), &allowed, "No .srt files were selected."),
        Err("No .srt files were selected.".to_string())
    );
    assert_eq!(
        resolve_input_paths(None, Some(&strings(&["/tmp/a.mp4"])), &allowed, "none"),
        Err("Unsupported file extension for path: /tmp/a.mp4".to_string())
    );
    assert_eq!(
        resolve_input_paths(Some("/dir"), None, &allowed, "none"),
        Ok(InputSource::Directory("/dir".to_string()))
    );
    assert_eq!(
        resolve_input_paths(None, None, &allowed, "none"),
        Err("Input directory is required.".to_string())
    );
    assert_eq!(resolve_listed_paths(Vec::new(), "none"), Err("none".to_string()));
    assert_eq!(resolve_listed_paths(paths.clone(), "none"), Ok(paths));
}

#[test]
fn batch_jobs_are_made_queued() {
    let jobs = create_batch_jobs(&strings(&["/tmp/My Clip 01.mov", "/tmp/b.mp4"]));
    assert_eq!(jobs.len(), 2);
    assert_eq!(jobs[0].job_id, "tmp-my-clip-01-mov");
    assert_eq!(jobs[0].file_name, "My Clip 01.mov");
    assert_eq!(jobs[0].input_path, "/tmp/My Clip 01.mov");
    assert_eq!(jobs[0].output_path, None);
    assert_eq!(jobs[0].status, JobStatus::Queued);
    assert_eq!(jobs[0].progress_pct, 0);
    assert_eq!(jobs[0].error, None);
    assert_eq!(jobs[1].job_id, "tmp-b-mp4");
    assert!(create_batch_jobs(&[]).is_empty());
}

#[test]
fn the_default_moderation_settings_are_complete() {
    let settings = default_moderation_settings();
    assert_eq!(
        settings.content_criteria,
        "1. Adult relationships (kissing, romantic/sexual content, dating)\n2. Bad morals or unethical behavior\n3. Content against Islamic values and aqeedah\n4. Magic, sorcery, or supernatural practices\n5. Music references or musical performances\n6. Violence or frightening content\n7. Inappropriate language or themes"
    );
    assert_eq!(
        settings.priority_guidelines,
        "Priority Guidelines:\n- HIGH: Major aqeedah violations, explicit magic/sorcery, sexual content\n- MEDIUM: Offensive language, questionable behavior, moderate violence\n- LOW: Mild concerns, ambiguous references"
    );
    assert!(settings.profanity_words.is_empty());
    assert_eq!(settings.rules.len(), 3);
    assert_eq!(settings.rules[0].rule_id, "aqeedah_christmas");
    assert_eq!(settings.rules[0].patterns, strings(&["christmas", "xmas", "easter"]));
    assert_eq!(settings.rules[1].category, "magic");
    assert_eq!(settings.rules[1].reason, "References magic or sorcery.");
    assert_eq!(settings.rules[2].priority, "medium");
    assert_eq!(settings.rules[2].patterns, strings(&["stupid", "idiot", "dumb"]));
}

#[test]
fn a_batch_without_media_files_is_rejected_and_leaves_no_record() {
    let mut batches = BatchStore::new();
    let result = submit_batch(
        &mut batches,
        "batch-1".to_string(),
        &batch_request("audio_replaced_default"),
        Vec::new(),
        "/tmp/audio_replaced".to_string(),
    );
    assert_eq!(
        result.err(),
        Some("No .mp4/.mov files were found in the selected directory.".to_string())
    );
    assert!(batches.get("batch-1").is_none());

    let result =
        start_batch(&mut batches, &batch_request("audio_replaced_default"), Vec::new(), "/tmp/out".to_string());
    assert!(result.is_err());
}

#[test]
fn a_batch_in_an_unsupported_mode_is_rejected_first() {
    let mut batches = BatchStore::new();
    let result = submit_batch(
        &mut batches,
        "batch-1".to_string(),
        &batch_request("custom_mode"),
        Vec::new(),
        "/tmp/audio_replaced".to_string(),
    );
    assert_eq!(
        result.err(),
        Some("Unsupported output mode. Use audio_replaced_default.".to_string())
    );
    let result = submit_batch(
        &mut batches,
        "batch-1".to_string(),
        &batch_request("custom_mode"),
        strings(&["/tmp/a.mov"]),
        "/tmp/audio_replaced".to_string(),
    );
    assert!(result.is_err());
    assert!(batches.get("batch-1").is_none());
}

#[test]
fn an_accepted_batch_is_stored_and_comes_back_with_its_command() {
    let mut batches = BatchStore::new();
    let files = strings(&["/tmp/a.mov", "/tmp/b.mp4"]);
    let submission = submit_batch(
        &mut batches,
        "batch-1".to_string(),
        &batch_request("audio_replaced_default"),
        files.clone(),
        "/tmp/audio_replaced".to_string(),
    )
    .expect("batch should be accepted");
    assert_eq!(submission.response.batch_id, "batch-1");
    assert_eq!(submission.response.file_count, 2);
    assert_eq!(submission.response.input_paths, files);
    match &submission.command {
        WorkerCommand::StartBatch { batch_id, input_paths, output_dir, compute_mode } => {
            assert_eq!(batch_id, "batch-1");
            assert_eq!(input_paths, &files);
            assert_eq!(output_dir, "/tmp/audio_replaced");
            assert_eq!(compute_mode, "auto");
        }
        _ => panic!("expected a start batch command"),
    }
    let batch = get_batch_state(&batches, "batch-1").expect("batch should be stored");
    assert_eq!(batch.status, BatchStatus::Queued);
    assert_eq!(batch.summary, None);
    assert_eq!(batch.jobs, create_batch_jobs(&files));
}

#[test]
fn a_started_batch_gets_a_new_id_each_time() {
    let mut batches = BatchStore::new();
    let first = start_batch(
        &mut batches,
        &batch_request("audio_replaced_default"),
        strings(&["/tmp/a.mov"]),
        "/tmp/out".to_string(),
    )
    .expect("batch should be accepted");
    let second = start_batch(
        &mut batches,
        &batch_request("audio_replaced_default"),
        strings(&["/tmp/a.mov"]),
        "/tmp/out".to_string(),
    )
    .expect("batch should be accepted");
    assert_ne!(first.response.batch_id, second.response.batch_id);
    assert_eq!(first.response.batch_id.len(), 36);
    assert!(batches.get(&first.response.batch_id).is_some());
    assert!(batches.get(&second.response.batch_id).is_some());
    match &first.command {
        WorkerCommand::StartBatch { batch_id, .. } => assert_eq!(batch_id, &first.response.batch_id),
        _ => panic!("expected a start batch command"),
    }
}

#[test]
fn a_transcription_task_is_checked_and_stored() {
    let mut tasks = TaskStore::new();
    assert_eq!(
        submit_transcription_task(&mut tasks, "t".to_string(), "manual".to_string(), strings(&["/a.mp4"])).err(),
        Some("Unsupported yap mode. Use auto.".to_string())
    );
    assert_eq!(
        submit_transcription_task(&mut tasks, "t".to_string(), "auto".to_string(), Vec::new()).err(),
        Some("No .mp4/.mov files were selected.".to_string())
    );
    assert!(tasks.get("t").is_none());
    let submission =
        submit_transcription_task(&mut tasks, "t".to_string(), "auto".to_string(), strings(&["/a.mp4"]))
            .expect("task should be accepted");
    assert_eq!(submission.response.batch_id, "t");
    assert_eq!(submission.response.file_count, 1);
    match &submission.command {
        WorkerCommand::StartTranscriptionBatch { task_id, input_paths, yap_mode } => {
            assert_eq!(task_id, "t");
            assert_eq!(input_paths, &strings(&["/a.mp4"]));
            assert_eq!(yap_mode, "auto");
        }
        _ => panic!("expected a start transcription command"),
    }
    let task = get_task_state(&tasks, "t").expect("task should be stored");
    assert_eq!(task.task_kind, TaskKind::Transcription);
    assert_eq!(task.status, TaskStatus::Queued);
    assert_eq!(task.jobs.len(), 1);
    assert_eq!(task.jobs[0].status, TaskJobStatus::Queued);
    assert!(task.jobs[0].logs.is_empty());
    assert!(start_transcription_batch(&mut tasks, "auto".to_string(), strings(&["/b.mov"])).is_ok());
}

#[test]
fn a_flag_task_is_checked_and_stored() {
    let mut tasks = TaskStore::new();
    assert_eq!(
        submit_flag_task(&mut tasks, "t".to_string(), Vec::new(), default_moderation_settings()).err(),
        Some("No .srt files were selected.".to_string())
    );
    assert!(tasks.get("t").is_none());
    let submission =
        submit_flag_task(&mut tasks, "t".to_string(), strings(&["/a.srt"]), default_moderation_settings())
            .expect("task should be accepted");
    match &submission.command {
        WorkerCommand::StartFlagBatch { task_id, input_paths, settings } => {
            assert_eq!(task_id, "t");
            assert_eq!(input_paths, &strings(&["/a.srt"]));
            assert_eq!(settings, &default_moderation_settings());
        }
        _ => panic!("expected a start flag command"),
    }
    assert_eq!(tasks.get("t").expect("task should be stored").task_kind, TaskKind::Flag);
    let started = start_flag_batch(&mut tasks, strings(&["/b.srt"]), default_moderation_settings())
        .expect("task should be accepted");
    assert!(tasks.get(&started.response.batch_id).is_some());
}

#[test]
fn a_cut_is_checked_and_stored() {
    let mut tasks = TaskStore::new();
    let request = |mode: &str, ranges: Vec<CutRange>| StartCutJobRequest {
        video_path: "/tmp/v.mp4".to_string(),
        ranges,
        output_mode: mode.to_string(),
    };
    let range = CutRange { start: "0:01".to_string(), end: "0:05".to_string() };
    assert_eq!(
        submit_cut_task(&mut tasks, "t".to_string(), request("custom_mode", vec![range.clone()])).err(),
        Some("Unsupported cut output mode. Use video_cleaned_default.".to_string())
    );
    assert_eq!(
        submit_cut_task(&mut tasks, "t".to_string(), request("video_cleaned_default", Vec::new())).err(),
        Some("Cut job requires at least one range.".to_string())
    );
    assert!(tasks.get("t").is_none());
    let submission =
        submit_cut_task(&mut tasks, "t".to_string(), request("video_cleaned_default", vec![range.clone()]))
            .expect("cut should be accepted");
    assert_eq!(submission.response.task_id, "t");
    assert_eq!(submission.response.video_path, "/tmp/v.mp4");
    match &submission.command {
        WorkerCommand::StartCutJob { task_id, video_path, ranges, output_mode } => {
            assert_eq!(task_id, "t");
            assert_eq!(video_path, "/tmp/v.mp4");
            assert_eq!(ranges, &vec![range.clone()]);
            assert_eq!(output_mode, "video_cleaned_default");
        }
        _ => panic!("expected a start cut command"),
    }
    let task = tasks.get("t").expect("task should be stored");
    assert_eq!(task.task_kind, TaskKind::Cut);
    assert_eq!(task.jobs.len(), 1);
    assert_eq!(task.jobs[0].input_path, "/tmp/v.mp4");
    assert_eq!(task.jobs[0].job_id, "tmp-v-mp4");
    assert!(start_cut_job(&mut tasks, request("video_cleaned_default", vec![range])).is_ok());
}

#[test]
fn a_cancel_in_another_mode_gives_no_command() {
    let request = CancelBatchRequest { batch_id: "b".to_string(), mode: "immediate".to_string() };
    assert_eq!(
        cancel_batch_command(&request).err(),
        Some("Unsupported cancellation mode. Use stop_after_current.".to_string())
    );
    let request = CancelTaskRequest { task_id: "t".to_string(), mode: "now".to_string() };
    assert_eq!(
        cancel_task_command(&request).err(),
        Some("Unsupported cancellation mode. Use stop_after_current.".to_string())
    );
    let request = CancelTaskRequest { task_id: "t".to_string(), mode: "stop_after_current".to_string() };
    match cancel_task_command(&request) {
        Ok(WorkerCommand::CancelTask { task_id, mode }) => {
            assert_eq!(task_id, "t");
            assert_eq!(mode, "stop_after_current");
        }
        _ => panic!("expected a cancel task command"),
    }
}

#[test]
fn a_rejected_cancel_never_reaches_the_queue() {
    let (sender, mut receiver) = tokio::sync::mpsc::unbounded_channel();
    let request = CancelBatchRequest { batch_id: "b".to_string(), mode: "immediate".to_string() };
    assert_eq!(
        cancel_batch(Some(sender.clone()), request).err(),
        Some("Unsupported cancellation mode. Use stop_after_current.".to_string())
    );
    let request = CancelTaskRequest { task_id: "t".to_string(), mode: "".to_string() };
    assert!(cancel_task(Some(sender.clone()), request).is_err());
    assert!(receiver.try_recv().is_err());

    let request = CancelBatchRequest { batch_id: "b".to_string(), mode: "stop_after_current".to_string() };
    assert_eq!(cancel_batch(None, request).err(), Some("Worker is not running.".to_string()));
    let request = CancelBatchRequest { batch_id: "b".to_string(), mode: "immediate".to_string() };
    assert_eq!(
        cancel_batch(None, request).err(),
        Some("Unsupported cancellation mode. Use stop_after_current.".to_string())
    );
}

#[test]
fn an_accepted_cancel_is_put_on_the_queue() {
    let (sender, mut receiver) = tokio::sync::mpsc::unbounded_channel();
    let request = CancelBatchRequest { batch_id: "b".to_string(), mode: "stop_after_current".to_string() };
    let ack = cancel_batch(Some(sender.clone()), request).expect("cancel should be passed on");
    assert_eq!(ack.batch_id, "b");
    assert!(ack.accepted);
    match receiver.try_recv() {
        Ok(WorkerCommand::CancelBatch { batch_id, mode }) => {
            assert_eq!(batch_id, "b");
            assert_eq!(mode, "stop_after_current");
        }
        _ => panic!("expected the cancel command on the queue"),
    }
    drop(receiver);
    let request = CancelTaskRequest { task_id: "t".to_string(), mode: "stop_after_current".to_string() };
    let ack = cancel_task(Some(sender), request).expect("cancel should be answered");
    assert_eq!(ack.task_id, "t");
    assert!(!ack.accepted);
}

#[test]
fn only_accepted_commands_are_dispatched() {
    let (sender, mut receiver) = tokio::sync::mpsc::unbounded_channel();
    assert_eq!(
        dispatch(&sender, &WorkerCommand::CancelTask { task_id: "t".to_string(), mode: "kill".to_string() }),
        Err("Unsupported cancellation mode. Use stop_after_current.".to_string())
    );
    assert_eq!(
        dispatch(
            &sender,
            &WorkerCommand::StartBatch {
                batch_id: "b".to_string(),
                input_paths: Vec::new(),
                output_dir: "/o".to_string(),
                compute_mode: "gpu".to_string(),
            }
        ),
        Err("Unsupported compute mode. Use auto.".to_string())
    );
    assert_eq!(
        dispatch(
            &sender,
            &WorkerCommand::StartTranscriptionBatch {
                task_id: "t".to_string(),
                input_paths: Vec::new(),
                yap_mode: "manual".to_string(),
            }
        ),
        Err("Unsupported yap mode. Use auto.".to_string())
    );
    assert_eq!(
        dispatch(
            &sender,
            &WorkerCommand::StartCutJob {
                task_id: "t".to_string(),
                video_path: "/v".to_string(),
                ranges: Vec::new(),
                output_mode: "other".to_string(),
            }
        ),
        Err("Unsupported cut output mode. Use video_cleaned_default.".to_string())
    );
    assert!(receiver.try_recv().is_err());

    let command = WorkerCommand::StartBatch {
        batch_id: "b".to_string(),
        input_paths: strings(&["/a.mov"]),
        output_dir: "/o".to_string(),
        compute_mode: "auto".to_string(),
    };
    assert_eq!(dispatch(&sender, &command), Ok(()));
    assert!(matches!(receiver.try_recv(), Ok(WorkerCommand::StartBatch { .. })));
    drop(receiver);
    assert_eq!(
        dispatch(&sender, &command),
        Err("Failed to enqueue start batch command: channel closed".to_string())
    );
    assert_eq!(
        dispatch(
            &sender,
            &WorkerCommand::StartFlagBatch {
                task_id: "t".to_string(),
                input_paths: Vec::new(),
                settings: default_moderation_settings(),
            }
        ),
        Err("Failed to enqueue flag task: channel closed".to_string())
    );
}

#[test]
fn a_batch_needs_a_media_file() {
    assert_eq!(
        ensure_media_found(&[]),
        Err("No .mp4/.mov files were found in the selected directory.".to_string())
    );
    assert_eq!(ensure_media_found(&strings(&["/tmp/a.mov"])), Ok(()));
}

#[test]
fn the_input_of_a_transcription_is_planned() {
    let request = |dir: Option<&str>, paths: Option<Vec<String>>, allowed: Option<Vec<String>>, mode: &str| {
        StartTranscriptionBatchRequest {
            input_dir: dir.map(|value| value.to_string()),
            input_paths: paths,
            allowed_extensions: allowed,
            yap_mode: mode.to_string(),
        }
    };
    assert_eq!(
        plan_transcription_input(&request(Some("/d"), None, None, "manual")),
        Err("Unsupported yap mode. Use auto.".to_string())
    );
    let plan = plan_transcription_input(&request(Some("/d"), None, None, "auto"))
        .expect("input should be planned");
    assert_eq!(plan.source, InputSource::Directory("/d".to_string()));
    assert_eq!(plan.allowed_extensions, strings(&[".mp4", ".mov"]));
    assert_eq!(plan.empty_error, "No .mp4/.mov files were selected.");
    let plan = plan_transcription_input(&request(
        None,
        Some(strings(&["/d/a.mkv"])),
        Some(strings(&["mkv"])),
        "auto",
    ))
    .expect("input should be planned");
    assert_eq!(plan.source, InputSource::Paths(strings(&["/d/a.mkv"])));
    assert_eq!(plan.allowed_extensions, strings(&["mkv"]));
    assert_eq!(
        plan_transcription_input(&request(None, Some(Vec::new()), None, "auto")),
        Err("No .mp4/.mov files were selected.".to_string())
    );
    assert_eq!(
        plan_transcription_input(&request(None, Some(strings(&["/d/a.srt"])), None, "auto")),
        Err("Unsupported file extension for path: /d/a.srt".to_string())
    );
    assert_eq!(
        plan_transcription_input(&request(None, None, None, "auto")),
        Err("Input directory is required.".to_string())
    );
}

#[test]
fn the_input_of_a_flag_task_is_planned() {
    let request = StartFlagBatchRequest {
        input_dir: None,
        input_paths: Some(strings(&["/d/a.SRT", "/d/b.srt"])),
        allowed_extensions: None,
    };
    let plan = plan_flag_input(&request).expect("input should be planned");
    assert_eq!(plan.source, InputSource::Paths(strings(&["/d/a.SRT", "/d/b.srt"])));
    assert_eq!(plan.allowed_extensions, strings(&[".srt"]));
    assert_eq!(plan.empty_error, "No .srt files were selected.");
    let request = StartFlagBatchRequest {
        input_dir: Some("/d".to_string()),
        input_paths: Some(Vec::new()),
        allowed_extensions: None,
    };
    assert_eq!(plan_flag_input(&request), Err("No .srt files were selected.".to_string()));
    let request = StartFlagBatchRequest {
        input_dir: Some("/d".to_string()),
        input_paths: Some(strings(&["/d/a.mp4"])),
        allowed_extensions: None,
    };
    assert_eq!(
        plan_flag_input(&request),
        Err("Unsupported file extension for path: /d/a.mp4".to_string())
    );
}

#[test]
fn the_error_of_the_queue_follows_the_words_for_the_command() {
    let cancel = WorkerCommand::CancelBatch { batch_id: "b".to_string(), mode: "stop_after_current".to_string() };
    assert_eq!(enqueue_outcome(&cancel, Ok(())), Ok(()));
    assert_eq!(
        enqueue_outcome(&cancel, Err("channel closed".to_string())),
        Err("Failed to enqueue cancel command: channel closed".to_string())
    );
    let start = WorkerCommand::StartTranscriptionBatch {
        task_id: "t".to_string(),
        input_paths: Vec::new(),
        yap_mode: "auto".to_string(),
    };
    assert_eq!(
        enqueue_outcome(&start, Err("gone".to_string())),
        Err("Failed to enqueue transcription task: gone".to_string())
    );
    let cut = WorkerCommand::StartCutJob {
        task_id: "t".to_string(),
        video_path: "/v".to_string(),
        ranges: Vec::new(),
        output_mode: "video_cleaned_default".to_string(),
    };
    assert_eq!(
        enqueue_outcome(&cut, Err("gone".to_string())),
        Err("Failed to enqueue cut task: gone".to_string())
    );
    let ack = batch_cancel_ack("b".to_string(), &Ok(()));
    assert_eq!((ack.batch_id.as_str(), ack.accepted), ("b", true));
    let ack = task_cancel_ack("t".to_string(), &Err("channel closed".to_string()));
    assert_eq!((ack.task_id.as_str(), ack.accepted), ("t", false));
}

#[test]
fn a_copy_of_a_command_encodes_to_the_same_line() {
    let commands = vec![
        WorkerCommand::StartBatch {
            batch_id: "b".to_string(),
            input_paths: strings(&["/a.mov", "/b.mp4"]),
            output_dir: "/o".to_string(),
            compute_mode: "auto".to_string(),
        },
        WorkerCommand::StartFlagBatch {
            task_id: "t".to_string(),
            input_paths: strings(&["/a.srt"]),
            settings: default_moderation_settings(),
        },
        WorkerCommand::StartCutJob {
            task_id: "t".to_string(),
            video_path: "/v".to_string(),
            ranges: vec![CutRange { start: "1".to_string(), end: "2".to_string() }],
            output_mode: "video_cleaned_default".to_string(),
        },
        WorkerCommand::CancelTask { task_id: "t".to_string(), mode: "stop_after_current".to_string() },
    ];
    for command in &commands {
        assert_eq!(clone_command(command).to_json_line(), command.to_json_line());
    }
}

#[test]
fn the_rejection_of_a_command_names_its_mode() {
    let command = WorkerCommand::CancelBatch { batch_id: "b".to_string(), mode: "now".to_string() };
    assert_eq!(
        command.rejection(),
        Some("Unsupported cancellation mode. Use stop_after_current.".to_string())
    );
    let command = WorkerCommand::CancelBatch { batch_id: "b".to_string(), mode: "stop_after_current".to_string() };
    assert_eq!(command.rejection(), None);
    let command = WorkerCommand::StartFlagBatch {
        task_id: "t".to_string(),
        input_paths: Vec::new(),
        settings: default_moderation_settings(),
    };
    assert_eq!(command.rejection(), None);
}
