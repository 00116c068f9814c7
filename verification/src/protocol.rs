//! The line protocol spoken with the worker: commands out, events in.

use vstd::prelude::*;
use crate::decode::{decode_event, decoded, outcome_model, DecodeError};
use crate::json::{json_document, Json, JsonView};
use crate::progress::{percent_of, Progress};
use crate::text::str_eq;
use crate::wire::{is_one_line, Draft, LineWriter};
use crate::types::{
    clone_text_opt, clone_texts, cut_ranges, json_opt, moderation_rules, text_opt, texts,
    BatchEvent, BatchEventModel, BatchSummary, CutRange, CutRangeModel, ModerationRule,
    ModerationRuleModel, ModerationSettings, ModerationSettingsModel, Tally, TaskEvent,
    TaskEventModel, TaskKind, TaskSummary, WorkerStatusKind,
};

verus! {

/// One unit of work to start or to stop.
#[derive(Debug, Clone)]
pub enum WorkerCommand {
    StartBatch { batch_id: String, input_paths: Vec<String>, output_dir: String, compute_mode: String },
    StartTranscriptionBatch { task_id: String, input_paths: Vec<String>, yap_mode: String },
    StartFlagBatch { task_id: String, input_paths: Vec<String>, settings: ModerationSettings },
    StartCutJob { task_id: String, video_path: String, ranges: Vec<CutRange>, output_mode: String },
    CancelBatch { batch_id: String, mode: String },
    CancelTask { task_id: String, mode: String },
}

/// The model of a command.
pub enum WorkerCommandModel {
    StartBatch {
        batch_id: Seq<char>,
        input_paths: Seq<Seq<char>>,
        output_dir: Seq<char>,
        compute_mode: Seq<char>,
    },
    StartTranscriptionBatch { task_id: Seq<char>, input_paths: Seq<Seq<char>>, yap_mode: Seq<char> },
    StartFlagBatch {
        task_id: Seq<char>,
        input_paths: Seq<Seq<char>>,
        settings: ModerationSettingsModel,
    },
    StartCutJob {
        task_id: Seq<char>,
        video_path: Seq<char>,
        ranges: Seq<CutRangeModel>,
        output_mode: Seq<char>,
    },
    CancelBatch { batch_id: Seq<char>, mode: Seq<char> },
    CancelTask { task_id: Seq<char>, mode: Seq<char> },
}

impl WorkerCommandModel {
    /// Why the controlling layer does not pass this command on, if it does
    /// not: a batch is started in the compute mode `auto` only, a
    /// transcription in the mode `auto` only, a cut for the output mode
    /// `video_cleaned_default` only, and a batch or task is cancelled in the
    /// mode `stop_after_current` only.
    pub open spec fn rejection(self) -> Option<Seq<char>> {
        match self {
            WorkerCommandModel::StartBatch { compute_mode, .. } => if compute_mode == "auto"@ {
                None
            } else {
                Some("Unsupported compute mode. Use auto."@)
            },
            WorkerCommandModel::StartTranscriptionBatch { yap_mode, .. } => if yap_mode
                == "auto"@ {
                None
            } else {
                Some("Unsupported yap mode. Use auto."@)
            },
            WorkerCommandModel::StartFlagBatch { .. } => None,
            WorkerCommandModel::StartCutJob { output_mode, .. } => if output_mode
                == "video_cleaned_default"@ {
                None
            } else {
                Some("Unsupported cut output mode. Use video_cleaned_default."@)
            },
            WorkerCommandModel::CancelBatch { mode, .. } => if mode == "stop_after_current"@ {
                None
            } else {
                Some("Unsupported cancellation mode. Use stop_after_current."@)
            },
            WorkerCommandModel::CancelTask { mode, .. } => if mode == "stop_after_current"@ {
                None
            } else {
                Some("Unsupported cancellation mode. Use stop_after_current."@)
            },
        }
    }

    /// The controlling layer passes this command on.
    pub open spec fn is_accepted(self) -> bool {
        self.rejection() is None
    }
}

impl WorkerCommand {
    /// Why the controlling layer does not pass this command on, if it does
    /// not.
    pub fn rejection(&self) -> (r: Option<String>)
        ensures
            text_opt(r) == self@.rejection(),
    {
        match self {
            WorkerCommand::StartBatch { compute_mode, .. } => {
                if str_eq(compute_mode.as_str(), "auto") {
                    None
                } else {
                    Some("Unsupported compute mode. Use auto.".to_owned())
                }
            },
            WorkerCommand::StartTranscriptionBatch { yap_mode, .. } => {
                if str_eq(yap_mode.as_str(), "auto") {
                    None
                } else {
                    Some("Unsupported yap mode. Use auto.".to_owned())
                }
            },
            WorkerCommand::StartFlagBatch { .. } => None,
            WorkerCommand::StartCutJob { output_mode, .. } => {
                if str_eq(output_mode.as_str(), "video_cleaned_default") {
                    None
                } else {
                    Some("Unsupported cut output mode. Use video_cleaned_default.".to_owned())
                }
            },
            WorkerCommand::CancelBatch { mode, .. } => {
                if str_eq(mode.as_str(), "stop_after_current") {
                    None
                } else {
                    Some("Unsupported cancellation mode. Use stop_after_current.".to_owned())
                }
            },
            WorkerCommand::CancelTask { mode, .. } => {
                if str_eq(mode.as_str(), "stop_after_current") {
                    None
                } else {
                    Some("Unsupported cancellation mode. Use stop_after_current.".to_owned())
                }
            },
        }
    }
}

impl View for WorkerCommand {
    type V = WorkerCommandModel;

    open spec fn view(&self) -> WorkerCommandModel {
        match self {
            WorkerCommand::StartBatch { batch_id, input_paths, output_dir, compute_mode } => {
                WorkerCommandModel::StartBatch {
                    batch_id: batch_id@,
                    input_paths: texts(input_paths@),
                    output_dir: output_dir@,
                    compute_mode: compute_mode@,
                }
            },
            WorkerCommand::StartTranscriptionBatch { task_id, input_paths, yap_mode } => {
                WorkerCommandModel::StartTranscriptionBatch {
                    task_id: task_id@,
                    input_paths: texts(input_paths@),
                    yap_mode: yap_mode@,
                }
            },
            WorkerCommand::StartFlagBatch { task_id, input_paths, settings } => {
                WorkerCommandModel::StartFlagBatch {
                    task_id: task_id@,
                    input_paths: texts(input_paths@),
                    settings: settings@,
                }
            },
            WorkerCommand::StartCutJob { task_id, video_path, ranges, output_mode } => {
                WorkerCommandModel::StartCutJob {
                    task_id: task_id@,
                    video_path: video_path@,
                    ranges: cut_ranges(ranges@),
                    output_mode: output_mode@,
                }
            },
            WorkerCommand::CancelBatch { batch_id, mode } => WorkerCommandModel::CancelBatch {
                batch_id: batch_id@,
                mode: mode@,
            },
            WorkerCommand::CancelTask { task_id, mode } => WorkerCommandModel::CancelTask {
                task_id: task_id@,
                mode: mode@,
            },
        }
    }
}

/// What the worker reports. A job event may name a batch, a task with its
/// kind, or both.
#[derive(Debug, Clone, PartialEq)]
pub enum WorkerEvent {
    JobProgress {
        batch_id: Option<String>,
        task_id: Option<String>,
        task_kind: Option<String>,
        job_id: String,
        progress_pct: Progress,
    },
    JobDone {
        batch_id: Option<String>,
        task_id: Option<String>,
        task_kind: Option<String>,
        job_id: String,
        output_path: Option<String>,
        artifacts: Option<Json>,
    },
    JobError {
        batch_id: Option<String>,
        task_id: Option<String>,
        task_kind: Option<String>,
        job_id: String,
        error: String,
    },
    BatchDone { batch_id: String, summary: BatchSummary },
    TaskDone { task_id: String, task_kind: String, summary: TaskSummary },
    JobLog {
        batch_id: Option<String>,
        task_id: Option<String>,
        task_kind: Option<String>,
        job_id: String,
        message: String,
        stream: Option<String>,
    },
    WorkerStatus { status: String, message: String },
}

/// The model of an event.
pub enum WorkerEventModel {
    JobProgress {
        batch_id: Option<Seq<char>>,
        task_id: Option<Seq<char>>,
        task_kind: Option<Seq<char>>,
        job_id: Seq<char>,
        progress_pct: Progress,
    },
    JobDone {
        batch_id: Option<Seq<char>>,
        task_id: Option<Seq<char>>,
        task_kind: Option<Seq<char>>,
        job_id: Seq<char>,
        output_path: Option<Seq<char>>,
        artifacts: Option<JsonView>,
    },
    JobError {
        batch_id: Option<Seq<char>>,
        task_id: Option<Seq<char>>,
        task_kind: Option<Seq<char>>,
        job_id: Seq<char>,
        error: Seq<char>,
    },
    BatchDone { batch_id: Seq<char>, summary: Tally },
    TaskDone { task_id: Seq<char>, task_kind: Seq<char>, summary: Tally },
    JobLog {
        batch_id: Option<Seq<char>>,
        task_id: Option<Seq<char>>,
        task_kind: Option<Seq<char>>,
        job_id: Seq<char>,
        message: Seq<char>,
        stream: Option<Seq<char>>,
    },
    WorkerStatus { status: Seq<char>, message: Seq<char> },
}

impl View for WorkerEvent {
    type V = WorkerEventModel;

    open spec fn view(&self) -> WorkerEventModel {
        match self {
            WorkerEvent::JobProgress { batch_id, task_id, task_kind, job_id, progress_pct } => {
                WorkerEventModel::JobProgress {
                    batch_id: text_opt(*batch_id),
                    task_id: text_opt(*task_id),
                    task_kind: text_opt(*task_kind),
                    job_id: job_id@,
                    progress_pct: *progress_pct,
                }
            },
            WorkerEvent::JobDone {
                batch_id,
                task_id,
                task_kind,
                job_id,
                output_path,
                artifacts,
            } => WorkerEventModel::JobDone {
                batch_id: text_opt(*batch_id),
                task_id: text_opt(*task_id),
                task_kind: text_opt(*task_kind),
                job_id: job_id@,
                output_path: text_opt(*output_path),
                artifacts: json_opt(*artifacts),
            },
            WorkerEvent::JobError { batch_id, task_id, task_kind, job_id, error } => {
                WorkerEventModel::JobError {
                    batch_id: text_opt(*batch_id),
                    task_id: text_opt(*task_id),
                    task_kind: text_opt(*task_kind),
                    job_id: job_id@,
                    error: error@,
                }
            },
            WorkerEvent::BatchDone { batch_id, summary } => WorkerEventModel::BatchDone {
                batch_id: batch_id@,
                summary: summary@,
            },
            WorkerEvent::TaskDone { task_id, task_kind, summary } => WorkerEventModel::TaskDone {
                task_id: task_id@,
                task_kind: task_kind@,
                summary: summary@,
            },
            WorkerEvent::JobLog { batch_id, task_id, task_kind, job_id, message, stream } => {
                WorkerEventModel::JobLog {
                    batch_id: text_opt(*batch_id),
                    task_id: text_opt(*task_id),
                    task_kind: text_opt(*task_kind),
                    job_id: job_id@,
                    message: message@,
                    stream: text_opt(*stream),
                }
            },
            WorkerEvent::WorkerStatus { status, message } => WorkerEventModel::WorkerStatus {
                status: status@,
                message: message@,
            },
        }
    }
}

/// The task kind that a wire name stands for.
pub open spec fn task_kind_of(name: Seq<char>) -> Option<TaskKind> {
    if name == "transcription"@ {
        Some(TaskKind::Transcription)
    } else if name == "flag"@ {
        Some(TaskKind::Flag)
    } else if name == "cut"@ {
        Some(TaskKind::Cut)
    } else {
        None
    }
}

/// The worker status that a wire name stands for.
pub open spec fn worker_status_of(name: Seq<char>) -> Option<WorkerStatusKind> {
    if name == "starting"@ {
        Some(WorkerStatusKind::Starting)
    } else if name == "ready"@ {
        Some(WorkerStatusKind::Ready)
    } else if name == "error"@ {
        Some(WorkerStatusKind::Error)
    } else {
        None
    }
}

/// The task kind that a wire name stands for, if it stands for one.
pub fn parse_task_kind(value: &str) -> (r: Option<TaskKind>)
    ensures
        r == task_kind_of(value@),
{
    if str_eq(value, "transcription") {
        Some(TaskKind::Transcription)
    } else if str_eq(value, "flag") {
        Some(TaskKind::Flag)
    } else if str_eq(value, "cut") {
        Some(TaskKind::Cut)
    } else {
        None
    }
}

/// The worker status that a wire name stands for, if it stands for one.
pub fn to_worker_status(status: &str) -> (r: Option<WorkerStatusKind>)
    ensures
        r == worker_status_of(status@),
{
    if str_eq(status, "starting") {
        Some(WorkerStatusKind::Starting)
    } else if str_eq(status, "ready") {
        Some(WorkerStatusKind::Ready)
    } else if str_eq(status, "error") {
        Some(WorkerStatusKind::Error)
    } else {
        None
    }
}

/// The notification on the feed of batches that an event gives rise to: a
/// job event that names a batch, the end of a batch, and a worker status whose
/// name is known. A job that is done without an output path is reported with
/// an empty one, a log line without a stream as written to `stdout`.
pub open spec fn batch_notice(event: WorkerEventModel) -> Option<BatchEventModel> {
    match event {
        WorkerEventModel::JobProgress { batch_id: Some(batch_id), job_id, progress_pct, .. } => {
            Some(
                BatchEventModel::JobProgress {
                    batch_id,
                    job_id,
                    progress_pct: percent_of(progress_pct.bits),
                },
            )
        },
        WorkerEventModel::JobDone { batch_id: Some(batch_id), job_id, output_path, .. } => Some(
            BatchEventModel::JobDone {
                batch_id,
                job_id,
                output_path: match output_path {
                    Some(path) => path,
                    None => Seq::empty(),
                },
            },
        ),
        WorkerEventModel::JobError { batch_id: Some(batch_id), job_id, error, .. } => Some(
            BatchEventModel::JobError { batch_id, job_id, error },
        ),
        WorkerEventModel::BatchDone { batch_id, summary } => Some(
            BatchEventModel::BatchDone { batch_id, summary },
        ),
        WorkerEventModel::JobLog { batch_id: Some(batch_id), job_id, message, stream, .. } => Some(
            BatchEventModel::JobLog {
                batch_id,
                job_id,
                message,
                stream: match stream {
                    Some(name) => name,
                    None => "stdout"@,
                },
            },
        ),
        WorkerEventModel::WorkerStatus { status, message } => match worker_status_of(status) {
            Some(kind) => Some(BatchEventModel::WorkerStatus { status: kind, message }),
            None => None,
        },
        _ => None,
    }
}

/// The task kind of a job event: that of the name it carries, none where it
/// carries no name or one that is not known.
pub open spec fn event_task_kind(task_kind: Option<Seq<char>>) -> Option<TaskKind> {
    match task_kind {
        Some(name) => task_kind_of(name),
        None => None,
    }
}

/// The notification on the feed of tasks that an event gives rise to: a job
/// event that names a task and a known task kind, the end of a task of a
/// known kind, and a worker status whose name is known. A log line without a
/// stream is reported as written to `stdout`.
pub open spec fn task_notice(event: WorkerEventModel) -> Option<TaskEventModel> {
    match event {
        WorkerEventModel::JobProgress {
            task_id: Some(task_id),
            task_kind,
            job_id,
            progress_pct,
            ..
        } => match event_task_kind(task_kind) {
            Some(kind) => Some(
                TaskEventModel::JobProgress {
                    task_id,
                    task_kind: kind,
                    job_id,
                    progress_pct: percent_of(progress_pct.bits),
                },
            ),
            None => None,
        },
        WorkerEventModel::JobDone {
            task_id: Some(task_id),
            task_kind,
            job_id,
            output_path,
            artifacts,
            ..
        } => match event_task_kind(task_kind) {
            Some(kind) => Some(
                TaskEventModel::JobDone { task_id, task_kind: kind, job_id, output_path, artifacts },
            ),
            None => None,
        },
        WorkerEventModel::JobError { task_id: Some(task_id), task_kind, job_id, error, .. } => {
            match event_task_kind(task_kind) {
                Some(kind) => Some(
                    TaskEventModel::JobError { task_id, task_kind: kind, job_id, error },
                ),
                None => None,
            }
        },
        WorkerEventModel::TaskDone { task_id, task_kind, summary } => match task_kind_of(
            task_kind,
        ) {
            Some(kind) => Some(TaskEventModel::TaskDone { task_id, task_kind: kind, summary }),
            None => None,
        },
        WorkerEventModel::JobLog {
            task_id: Some(task_id),
            task_kind,
            job_id,
            message,
            stream,
            ..
        } => match event_task_kind(task_kind) {
            Some(kind) => Some(
                TaskEventModel::JobLog {
                    task_id,
                    task_kind: kind,
                    job_id,
                    message,
                    stream: match stream {
                        Some(name) => name,
                        None => "stdout"@,
                    },
                },
            ),
            None => None,
        },
        WorkerEventModel::WorkerStatus { status, message } => match worker_status_of(status) {
            Some(kind) => Some(TaskEventModel::WorkerStatus { status: kind, message }),
            None => None,
        },
        _ => None,
    }
}

/// The model of an optional batch notification.
pub open spec fn batch_event_opt(event: Option<BatchEvent>) -> Option<BatchEventModel> {
    match event {
        Some(e) => Some(e@),
        None => None,
    }
}

/// The model of an optional task notification.
pub open spec fn task_event_opt(event: Option<TaskEvent>) -> Option<TaskEventModel> {
    match event {
        Some(e) => Some(e@),
        None => None,
    }
}

/// The task kind of a job event.
fn parse_event_task_kind(task_kind: &Option<String>) -> (r: Option<TaskKind>)
    ensures
        r == event_task_kind(text_opt(*task_kind)),
{
    match task_kind {
        Some(name) => parse_task_kind(name.as_str()),
        None => None,
    }
}

/// The notification on the feed of batches that an event gives rise to, if
/// it gives rise to one.
pub fn to_frontend_batch_event(event: &WorkerEvent) -> (r: Option<BatchEvent>)
    ensures
        batch_event_opt(r) == batch_notice(event@),
{
    match event {
        WorkerEvent::JobProgress { batch_id: Some(batch_id), job_id, progress_pct, .. } => Some(
            BatchEvent::job_progress(batch_id.as_str(), job_id.as_str(), progress_pct.percent()),
        ),
        WorkerEvent::JobDone { batch_id: Some(batch_id), job_id, output_path, .. } => {
            let path = match output_path {
                Some(path) => path.clone(),
                None => String::new(),
            };
            Some(BatchEvent::job_done(batch_id.as_str(), job_id.as_str(), path.as_str()))
        },
        WorkerEvent::JobError { batch_id: Some(batch_id), job_id, error, .. } => Some(
            BatchEvent::job_error(batch_id.as_str(), job_id.as_str(), error.as_str()),
        ),
        WorkerEvent::BatchDone { batch_id, summary } => Some(
            BatchEvent::batch_done(batch_id.as_str(), *summary),
        ),
        WorkerEvent::JobLog { batch_id: Some(batch_id), job_id, message, stream, .. } => {
            let name = match stream {
                Some(name) => name.clone(),
                None => "stdout".to_owned(),
            };
            Some(
                BatchEvent::job_log(
                    batch_id.as_str(),
                    job_id.as_str(),
                    message.as_str(),
                    name.as_str(),
                ),
            )
        },
        WorkerEvent::WorkerStatus { status, message } => match to_worker_status(status.as_str()) {
            Some(kind) => Some(BatchEvent::worker_status(kind, message.as_str())),
            None => None,
        },
        _ => None,
    }
}

/// The notification on the feed of tasks that an event gives rise to, if it
/// gives rise to one.
pub fn to_frontend_task_event(event: &WorkerEvent) -> (r: Option<TaskEvent>)
    ensures
        task_event_opt(r) == task_notice(event@),
{
    match event {
        WorkerEvent::JobProgress { task_id: Some(task_id), task_kind, job_id, progress_pct, .. } => {
            match parse_event_task_kind(task_kind) {
                Some(kind) => Some(
                    TaskEvent::job_progress(
                        task_id.as_str(),
                        kind,
                        job_id.as_str(),
                        progress_pct.percent(),
                    ),
                ),
                None => None,
            }
        },
        WorkerEvent::JobDone {
            task_id: Some(task_id),
            task_kind,
            job_id,
            output_path,
            artifacts,
            ..
        } => match parse_event_task_kind(task_kind) {
            Some(kind) => {
                let copy = match artifacts {
                    Some(json) => Some(json.clone()),
                    None => None,
                };
                Some(
                    TaskEvent::job_done(
                        task_id.as_str(),
                        kind,
                        job_id.as_str(),
                        clone_text_opt(output_path),
                        copy,
                    ),
                )
            },
            None => None,
        },
        WorkerEvent::JobError { task_id: Some(task_id), task_kind, job_id, error, .. } => {
            match parse_event_task_kind(task_kind) {
                Some(kind) => Some(
                    TaskEvent::job_error(task_id.as_str(), kind, job_id.as_str(), error.as_str()),
                ),
                None => None,
            }
        },
        WorkerEvent::TaskDone { task_id, task_kind, summary } => match parse_task_kind(
            task_kind.as_str(),
        ) {
            Some(kind) => Some(TaskEvent::task_done(task_id.as_str(), kind, *summary)),
            None => None,
        },
        WorkerEvent::JobLog { task_id: Some(task_id), task_kind, job_id, message, stream, .. } => {
            match parse_event_task_kind(task_kind) {
                Some(kind) => {
                    let name = match stream {
                        Some(name) => name.clone(),
                        None => "stdout".to_owned(),
                    };
                    Some(
                        TaskEvent::job_log(
                            task_id.as_str(),
                            kind,
                            job_id.as_str(),
                            message.as_str(),
                            name.as_str(),
                        ),
                    )
                },
                None => None,
            }
        },
        WorkerEvent::WorkerStatus { status, message } => match to_worker_status(status.as_str()) {
            Some(kind) => Some(TaskEvent::worker_status(kind, message.as_str())),
            None => None,
        },
        _ => None,
    }
}

/// A draft with one cut range behind it: an object with `start` and `end`.
pub open spec fn range_draft(draft: Draft, range: CutRangeModel) -> Draft {
    draft.raw(seq!['{']).field("start"@, range.start).raw(seq![',']).field("end"@, range.end).raw(
        seq!['}'],
    )
}

/// A draft with the given cut ranges behind it, a comma between two of them.
pub open spec fn range_items(draft: Draft, ranges: Seq<CutRangeModel>) -> Draft
    decreases ranges.len(),
{
    if ranges.len() == 0 {
        draft
    } else if ranges.len() == 1 {
        range_draft(draft, ranges[0])
    } else {
        range_draft(range_items(draft, ranges.drop_last()).raw(seq![',']), ranges.last())
    }
}

/// A draft with one moderation rule behind it: an object with `ruleId`,
/// `category`, `priority`, `reason` and `patterns`.
pub open spec fn rule_draft(draft: Draft, rule: ModerationRuleModel) -> Draft {
    draft.raw(seq!['{']).field("ruleId"@, rule.rule_id).raw(seq![',']).field(
        "category"@,
        rule.category,
    ).raw(seq![',']).field("priority"@, rule.priority).raw(seq![',']).field(
        "reason"@,
        rule.reason,
    ).raw(seq![',']).name("patterns"@).strings(rule.patterns).raw(seq!['}'])
}

/// A draft with the given rules behind it, a comma between two of them.
pub open spec fn rule_items(draft: Draft, rules: Seq<ModerationRuleModel>) -> Draft
    decreases rules.len(),
{
    if rules.len() == 0 {
        draft
    } else if rules.len() == 1 {
        rule_draft(draft, rules[0])
    } else {
        rule_draft(rule_items(draft, rules.drop_last()).raw(seq![',']), rules.last())
    }
}

/// A draft with the moderation settings behind it: an object with
/// `contentCriteria`, `priorityGuidelines`, `profanityWords` and `rules`.
pub open spec fn settings_draft(draft: Draft, settings: ModerationSettingsModel) -> Draft {
    rule_items(
        draft.raw(seq!['{']).field("contentCriteria"@, settings.content_criteria).raw(
            seq![','],
        ).field("priorityGuidelines"@, settings.priority_guidelines).raw(seq![',']).name(
            "profanityWords"@,
        ).strings(settings.profanity_words).raw(seq![',']).name("rules"@).raw(seq!['[']),
        settings.rules,
    ).raw(seq![']']).raw(seq!['}'])
}

/// The record of a command without its line break: one JSON object, its
/// `type` first, then the fields of the command under their wire names.
pub open spec fn command_draft(command: WorkerCommandModel) -> Draft {
    let opened = Draft::start().raw(seq!['{']);
    match command {
        WorkerCommandModel::StartBatch { batch_id, input_paths, output_dir, compute_mode } => {
            opened.field("type"@, "start_batch"@).raw(seq![',']).field("batchId"@, batch_id).raw(
                seq![','],
            ).name("inputPaths"@).strings(input_paths).raw(seq![',']).field(
                "outputDir"@,
                output_dir,
            ).raw(seq![',']).field("computeMode"@, compute_mode).raw(seq!['}'])
        },
        WorkerCommandModel::StartTranscriptionBatch { task_id, input_paths, yap_mode } => {
            opened.field("type"@, "start_transcription_batch"@).raw(seq![',']).field(
                "taskId"@,
                task_id,
            ).raw(seq![',']).name("inputPaths"@).strings(input_paths).raw(seq![',']).field(
                "yapMode"@,
                yap_mode,
            ).raw(seq!['}'])
        },
        WorkerCommandModel::StartFlagBatch { task_id, input_paths, settings } => {
            settings_draft(
                opened.field("type"@, "start_flag_batch"@).raw(seq![',']).field(
                    "taskId"@,
                    task_id,
                ).raw(seq![',']).name("inputPaths"@).strings(input_paths).raw(seq![',']).name(
                    "settings"@,
                ),
                settings,
            ).raw(seq!['}'])
        },
        WorkerCommandModel::StartCutJob { task_id, video_path, ranges, output_mode } => {
            range_items(
                opened.field("type"@, "start_cut_job"@).raw(seq![',']).field(
                    "taskId"@,
                    task_id,
                ).raw(seq![',']).field("videoPath"@, video_path).raw(seq![',']).name(
                    "ranges"@,
                ).raw(seq!['[']),
                ranges,
            ).raw(seq![']']).raw(seq![',']).field("outputMode"@, output_mode).raw(seq!['}'])
        },
        WorkerCommandModel::CancelBatch { batch_id, mode } => {
            opened.field("type"@, "cancel_batch"@).raw(seq![',']).field("batchId"@, batch_id).raw(
                seq![','],
            ).field("mode"@, mode).raw(seq!['}'])
        },
        WorkerCommandModel::CancelTask { task_id, mode } => {
            opened.field("type"@, "cancel_task"@).raw(seq![',']).field("taskId"@, task_id).raw(
                seq![','],
            ).field("mode"@, mode).raw(seq!['}'])
        },
    }
}

/// The line of a command: its record and a line break.
pub open spec fn command_line(command: WorkerCommandModel) -> Seq<char> {
    command_draft(command).text + seq!['\n']
}

/// A text that is one record of the protocol: it ends in a line break and
/// holds no other.
pub open spec fn is_one_record(line: Seq<char>) -> bool {
    &&& line.len() > 0
    &&& line.last() == '\n'
    &&& is_one_line(line.drop_last())
}

/// Writes one cut range.
fn write_range(writer: &mut LineWriter, range: &CutRange)
    ensures
        final(writer)@ == range_draft(old(writer)@, range@),
        is_one_line(old(writer).text@) ==> is_one_line(final(writer).text@),
{
    writer.open_object();
    writer.field("start", range.start.as_str());
    writer.comma();
    writer.field("end", range.end.as_str());
    writer.close_object();
}

/// Writes the cut ranges, a comma between two of them.
fn write_ranges(writer: &mut LineWriter, ranges: &Vec<CutRange>)
    ensures
        final(writer)@ == range_items(old(writer)@, cut_ranges(ranges@)),
        is_one_line(old(writer).text@) ==> is_one_line(final(writer).text@),
{
    let ghost all = cut_ranges(ranges@);
    let ghost opened = writer@;
    let ghost clean = is_one_line(writer.text@);
    let mut i: usize = 0;
    while i < ranges.len()
        invariant
            i <= ranges.len(),
            all == cut_ranges(ranges@),
            writer@ == range_items(opened, all.take(i as int)),
            clean ==> is_one_line(writer.text@),
        decreases ranges.len() - i,
    {
        assert(all.take(i as int + 1).drop_last() =~= all.take(i as int));
        if i > 0 {
            writer.comma();
        }
        write_range(writer, &ranges[i]);
        i = i + 1;
    }
    assert(all.take(ranges.len() as int) =~= all);
}

/// Writes one moderation rule.
fn write_rule(writer: &mut LineWriter, rule: &ModerationRule)
    ensures
        final(writer)@ == rule_draft(old(writer)@, rule@),
        is_one_line(old(writer).text@) ==> is_one_line(final(writer).text@),
{
    writer.open_object();
    writer.field("ruleId", rule.rule_id.as_str());
    writer.comma();
    writer.field("category", rule.category.as_str());
    writer.comma();
    writer.field("priority", rule.priority.as_str());
    writer.comma();
    writer.field("reason", rule.reason.as_str());
    writer.comma();
    writer.name("patterns");
    writer.strings(&rule.patterns);
    writer.close_object();
}

/// Writes the moderation rules, a comma between two of them.
fn write_rules(writer: &mut LineWriter, rules: &Vec<ModerationRule>)
    ensures
        final(writer)@ == rule_items(old(writer)@, moderation_rules(rules@)),
        is_one_line(old(writer).text@) ==> is_one_line(final(writer).text@),
{
    let ghost all = moderation_rules(rules@);
    let ghost opened = writer@;
    let ghost clean = is_one_line(writer.text@);
    let mut i: usize = 0;
    while i < rules.len()
        invariant
            i <= rules.len(),
            all == moderation_rules(rules@),
            writer@ == rule_items(opened, all.take(i as int)),
            clean ==> is_one_line(writer.text@),
        decreases rules.len() - i,
    {
        assert(all.take(i as int + 1).drop_last() =~= all.take(i as int));
        if i > 0 {
            writer.comma();
        }
        write_rule(writer, &rules[i]);
        i = i + 1;
    }
    assert(all.take(rules.len() as int) =~= all);
}

/// Writes the moderation settings.
fn write_settings(writer: &mut LineWriter, settings: &ModerationSettings)
    ensures
        final(writer)@ == settings_draft(old(writer)@, settings@),
        is_one_line(old(writer).text@) ==> is_one_line(final(writer).text@),
{
    writer.open_object();
    writer.field("contentCriteria", settings.content_criteria.as_str());
    writer.comma();
    writer.field("priorityGuidelines", settings.priority_guidelines.as_str());
    writer.comma();
    writer.name("profanityWords");
    writer.strings(&settings.profanity_words);
    writer.comma();
    writer.name("rules");
    writer.open_array();
    write_rules(writer, &settings.rules);
    writer.close_array();
    writer.close_object();
}

impl WorkerCommand {
    /// The line that carries this command to the worker: one JSON object and
    /// a line break, and no other line break. Every command has its line.
    pub fn to_json_line(&self) -> (r: Result<String, String>)
        ensures
            r matches Ok(line) && line@ == command_line(self@) && is_one_record(line@),
    {
        let mut writer = LineWriter::new();
        writer.open_object();
        match self {
            WorkerCommand::StartBatch { batch_id, input_paths, output_dir, compute_mode } => {
                writer.field("type", "start_batch");
                writer.comma();
                writer.field("batchId", batch_id.as_str());
                writer.comma();
                writer.name("inputPaths");
                writer.strings(input_paths);
                writer.comma();
                writer.field("outputDir", output_dir.as_str());
                writer.comma();
                writer.field("computeMode", compute_mode.as_str());
            },
            WorkerCommand::StartTranscriptionBatch { task_id, input_paths, yap_mode } => {
                writer.field("type", "start_transcription_batch");
                writer.comma();
                writer.field("taskId", task_id.as_str());
                writer.comma();
                writer.name("inputPaths");
                writer.strings(input_paths);
                writer.comma();
                writer.field("yapMode", yap_mode.as_str());
            },
            WorkerCommand::StartFlagBatch { task_id, input_paths, settings } => {
                writer.field("type", "start_flag_batch");
                writer.comma();
                writer.field("taskId", task_id.as_str());
                writer.comma();
                writer.name("inputPaths");
                writer.strings(input_paths);
                writer.comma();
                writer.name("settings");
                write_settings(&mut writer, settings);
            },
            WorkerCommand::StartCutJob { task_id, video_path, ranges, output_mode } => {
                writer.field("type", "start_cut_job");
                writer.comma();
                writer.field("taskId", task_id.as_str());
                writer.comma();
                writer.field("videoPath", video_path.as_str());
                writer.comma();
                writer.name("ranges");
                writer.open_array();
                write_ranges(&mut writer, ranges);
                writer.close_array();
                writer.comma();
                writer.field("outputMode", output_mode.as_str());
            },
            WorkerCommand::CancelBatch { batch_id, mode } => {
                writer.field("type", "cancel_batch");
                writer.comma();
                writer.field("batchId", batch_id.as_str());
                writer.comma();
                writer.field("mode", mode.as_str());
            },
            WorkerCommand::CancelTask { task_id, mode } => {
                writer.field("type", "cancel_task");
                writer.comma();
                writer.field("taskId", task_id.as_str());
                writer.comma();
                writer.field("mode", mode.as_str());
            },
        }
        writer.close_object();
        let ghost text = writer.text@;
        let line = writer.finish();
        assert(line@.drop_last() =~= text);
        Ok(line)
    }
}

/// Reads one line of the worker as an event. A line that is no JSON document
/// gives the parser's message; a document gives the event it stands for, or
/// the reason why it stands for none.
pub fn parse_worker_event(line: &str) -> (r: Result<WorkerEvent, DecodeError>)
    ensures
        match json_document(line@) {
            None => r matches Err(DecodeError::Syntax(_)),
            Some(doc) => outcome_model(r) == decoded(doc),
        },
{
    match Json::parse(line) {
        Ok(json) => decode_event(&json),
        Err(error) => Err(DecodeError::Syntax(error.message)),
    }
}

/// A copy of a list of cut ranges.
fn clone_ranges(ranges: &Vec<CutRange>) -> (r: Vec<CutRange>)
    ensures
        cut_ranges(r@) == cut_ranges(ranges@),
{
    let mut out: Vec<CutRange> = Vec::new();
    let mut i: usize = 0;
    while i < ranges.len()
        invariant
            i <= ranges.len(),
            out.len() == i,
            forall|k: int| 0 <= k < i ==> out[k]@ == ranges[k]@,
        decreases ranges.len() - i,
    {
        out.push(CutRange { start: ranges[i].start.clone(), end: ranges[i].end.clone() });
        i = i + 1;
    }
    assert(cut_ranges(out@) =~= cut_ranges(ranges@));
    out
}

/// A copy of the moderation settings.
fn clone_settings(settings: &ModerationSettings) -> (r: ModerationSettings)
    ensures
        r@ == settings@,
{
    let mut rules: Vec<ModerationRule> = Vec::new();
    let mut i: usize = 0;
    while i < settings.rules.len()
        invariant
            i <= settings.rules.len(),
            rules.len() == i,
            forall|k: int| 0 <= k < i ==> rules[k]@ == settings.rules[k]@,
        decreases settings.rules.len() - i,
    {
        let rule = &settings.rules[i];
        rules.push(
            ModerationRule {
                rule_id: rule.rule_id.clone(),
                category: rule.category.clone(),
                priority: rule.priority.clone(),
                reason: rule.reason.clone(),
                patterns: clone_texts(&rule.patterns),
            },
        );
        i = i + 1;
    }
    assert(moderation_rules(rules@) =~= moderation_rules(settings.rules@));
    ModerationSettings {
        content_criteria: settings.content_criteria.clone(),
        priority_guidelines: settings.priority_guidelines.clone(),
        profanity_words: clone_texts(&settings.profanity_words),
        rules,
    }
}

/// A copy of a command.
pub fn clone_command(command: &WorkerCommand) -> (r: WorkerCommand)
    ensures
        r@ == command@,
{
    match command {
        WorkerCommand::StartBatch { batch_id, input_paths, output_dir, compute_mode } => {
            WorkerCommand::StartBatch {
                batch_id: batch_id.clone(),
                input_paths: clone_texts(input_paths),
                output_dir: output_dir.clone(),
                compute_mode: compute_mode.clone(),
            }
        },
        WorkerCommand::StartTranscriptionBatch { task_id, input_paths, yap_mode } => {
            WorkerCommand::StartTranscriptionBatch {
                task_id: task_id.clone(),
                input_paths: clone_texts(input_paths),
                yap_mode: yap_mode.clone(),
            }
        },
        WorkerCommand::StartFlagBatch { task_id, input_paths, settings } => {
            WorkerCommand::StartFlagBatch {
                task_id: task_id.clone(),
                input_paths: clone_texts(input_paths),
                settings: clone_settings(settings),
            }
        },
        WorkerCommand::StartCutJob { task_id, video_path, ranges, output_mode } => {
            WorkerCommand::StartCutJob {
                task_id: task_id.clone(),
                video_path: video_path.clone(),
                ranges: clone_ranges(ranges),
                output_mode: output_mode.clone(),
            }
        },
        WorkerCommand::CancelBatch { batch_id, mode } => WorkerCommand::CancelBatch {
            batch_id: batch_id.clone(),
            mode: mode.clone(),
        },
        WorkerCommand::CancelTask { task_id, mode } => WorkerCommand::CancelTask {
            task_id: task_id.clone(),
            mode: mode.clone(),
        },
    }
}

} // verus!
