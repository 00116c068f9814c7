//! The records, requests, answers and notifications of the library, each
//! with its mathematical model.

use vstd::prelude::*;
use crate::json::{Json, JsonView};

verus! {

/// The characters of an optional string.
pub open spec fn text_opt(value: Option<String>) -> Option<Seq<char>> {
    match value {
        Some(text) => Some(text@),
        None => None,
    }
}

/// The characters of an optional string slice.
pub open spec fn text_opt_str(value: Option<&str>) -> Option<Seq<char>> {
    match value {
        Some(text) => Some(text@),
        None => None,
    }
}

/// The characters of each string of a list.
pub open spec fn texts(values: Seq<String>) -> Seq<Seq<char>> {
    Seq::new(values.len(), |i: int| values[i]@)
}

/// A copy of an optional string.
pub fn clone_text_opt(value: &Option<String>) -> (r: Option<String>)
    ensures
        text_opt(r) == text_opt(*value),
{
    match value {
        Some(text) => Some(text.clone()),
        None => None,
    }
}

/// A copy of a list of strings.
pub fn clone_texts(values: &Vec<String>) -> (r: Vec<String>)
    ensures
        texts(r@) == texts(values@),
{
    let mut out: Vec<String> = Vec::new();
    let mut i: usize = 0;
    while i < values.len()
        invariant
            i <= values.len(),
            out.len() == i,
            forall|k: int| 0 <= k < i ==> out[k]@ == values[k]@,
        decreases values.len() - i,
    {
        out.push(values[i].clone());
        i = i + 1;
    }
    assert(texts(out@) =~= texts(values@));
    out
}

/// The request to start a batch on the media files of a directory.
#[derive(Debug, Clone)]
pub struct StartBatchRequest {
    pub input_dir: String,
    pub output_dir_mode: String,
    pub allowed_extensions: Vec<String>,
}

/// The request to cancel a batch.
#[derive(Debug, Clone)]
pub struct CancelBatchRequest {
    pub batch_id: String,
    pub mode: String,
}

/// The request to list the videos of a directory.
#[derive(Debug, Clone)]
pub struct ListVideosRequest {
    pub input_dir: String,
    pub allowed_extensions: Vec<String>,
}

/// A video of a directory, with what lies beside it.
#[derive(Debug, Clone, PartialEq, Eq)]
pub struct VideoListItem {
    pub file_name: String,
    pub path: String,
    pub srt_path: Option<String>,
    pub analysis_path: Option<String>,
    pub has_srt: bool,
    pub has_analysis: bool,
}

/// The request to transcribe the named files, or the videos of a directory.
#[derive(Debug, Clone)]
pub struct StartTranscriptionBatchRequest {
    pub input_dir: Option<String>,
    pub input_paths: Option<Vec<String>>,
    pub allowed_extensions: Option<Vec<String>>,
    pub yap_mode: String,
}

/// The request to flag the named subtitle files, or those of a directory.
#[derive(Debug, Clone)]
pub struct StartFlagBatchRequest {
    pub input_dir: Option<String>,
    pub input_paths: Option<Vec<String>>,
    pub allowed_extensions: Option<Vec<String>>,
}

/// The request to list the subtitle files of a directory.
#[derive(Debug, Clone)]
pub struct ListSrtFilesRequest {
    pub input_dir: String,
}

/// A subtitle file of a directory, with what lies beside it.
#[derive(Debug, Clone, PartialEq, Eq)]
pub struct SrtListItem {
    pub file_name: String,
    pub path: String,
    pub analysis_path: Option<String>,
    pub has_analysis: bool,
}

/// A stretch of a video that is cut out, from `start` to `end`.
#[derive(Debug, Clone, PartialEq, Eq)]
pub struct CutRange {
    pub start: String,
    pub end: String,
}

/// The request to cut ranges out of one video.
#[derive(Debug, Clone)]
pub struct StartCutJobRequest {
    pub video_path: String,
    pub ranges: Vec<CutRange>,
    pub output_mode: String,
}

/// The request to cancel a task.
#[derive(Debug, Clone)]
pub struct CancelTaskRequest {
    pub task_id: String,
    pub mode: String,
}

/// The answer to a cut that was taken in.
#[derive(Debug, Clone)]
pub struct CutJobStartedResponse {
    pub task_id: String,
    pub video_path: String,
}

/// The answer to a batch or task that was taken in.
#[derive(Debug, Clone)]
pub struct BatchStartedResponse {
    pub batch_id: String,
    pub file_count: usize,
    pub input_paths: Vec<String>,
}

/// The answer to a request to cancel a batch.
#[derive(Debug, Clone)]
pub struct CancelAck {
    pub batch_id: String,
    pub accepted: bool,
}

/// The answer to a request to cancel a task.
#[derive(Debug, Clone)]
pub struct TaskCancelAck {
    pub task_id: String,
    pub accepted: bool,
}

/// The answer to a request to save the settings.
#[derive(Debug, Clone)]
pub struct SaveAck {
    pub success: bool,
}

/// Where one job stands.
pub enum JobPhase {
    Queued,
    Running,
    Completed,
    Failed,
    Cancelled,
}

/// Where a batch or a task stands as a whole.
pub enum RecordPhase {
    Queued,
    Running,
    Completed,
    Cancelled,
}

impl RecordPhase {
    /// A batch or task that has ended.
    pub open spec fn is_terminal(self) -> bool {
        self is Completed || self is Cancelled
    }
}

impl JobPhase {
    /// A job that has ended.
    pub open spec fn is_terminal(self) -> bool {
        self is Completed || self is Failed || self is Cancelled
    }
}

/// The counts that end a batch or a task.
pub struct Tally {
    pub ok: nat,
    pub failed: nat,
    pub cancelled: nat,
}

/// The model of a job record, of a batch or of a task. A job of a batch has
/// no log.
pub struct JobModel {
    pub job_id: Seq<char>,
    pub file_name: Seq<char>,
    pub input_path: Seq<char>,
    pub output_path: Option<Seq<char>>,
    pub phase: JobPhase,
    pub progress_pct: nat,
    pub error: Option<Seq<char>>,
    pub logs: Seq<Seq<char>>,
}

/// The model of a batch or task record. A batch has no kind.
pub struct RecordModel {
    pub id: Seq<char>,
    pub kind: Option<TaskKind>,
    pub phase: RecordPhase,
    pub jobs: Seq<JobModel>,
    pub summary: Option<Tally>,
}

/// Where a job of a batch stands.
#[derive(Debug, Clone, Copy, PartialEq, Eq)]
pub enum JobStatus {
    Queued,
    Running,
    Completed,
    Failed,
    Cancelled,
}

impl View for JobStatus {
    type V = JobPhase;

    open spec fn view(&self) -> JobPhase {
        match self {
            JobStatus::Queued => JobPhase::Queued,
            JobStatus::Running => JobPhase::Running,
            JobStatus::Completed => JobPhase::Completed,
            JobStatus::Failed => JobPhase::Failed,
            JobStatus::Cancelled => JobPhase::Cancelled,
        }
    }
}

/// One input file of a batch and how far its work has come.
#[derive(Debug, PartialEq)]
pub struct JobRecord {
    pub job_id: String,
    pub file_name: String,
    pub input_path: String,
    pub output_path: Option<String>,
    pub status: JobStatus,
    pub progress_pct: u8,
    pub error: Option<String>,
}

impl View for JobRecord {
    type V = JobModel;

    open spec fn view(&self) -> JobModel {
        JobModel {
            job_id: self.job_id@,
            file_name: self.file_name@,
            input_path: self.input_path@,
            output_path: text_opt(self.output_path),
            phase: self.status@,
            progress_pct: self.progress_pct as nat,
            error: text_opt(self.error),
            logs: Seq::empty(),
        }
    }
}

impl Clone for JobRecord {
    fn clone(&self) -> (r: Self)
        ensures
            r@ == self@,
    {
        JobRecord {
            job_id: self.job_id.clone(),
            file_name: self.file_name.clone(),
            input_path: self.input_path.clone(),
            output_path: clone_text_opt(&self.output_path),
            status: self.status,
            progress_pct: self.progress_pct,
            error: clone_text_opt(&self.error),
        }
    }
}

/// The counts that end a batch.
#[derive(Debug, Clone, Copy, PartialEq, Eq)]
pub struct BatchSummary {
    pub ok: usize,
    pub failed: usize,
    pub cancelled: usize,
}

impl View for BatchSummary {
    type V = Tally;

    open spec fn view(&self) -> Tally {
        Tally { ok: self.ok as nat, failed: self.failed as nat, cancelled: self.cancelled as nat }
    }
}

/// The counts that end a task.
#[derive(Debug, Clone, Copy, PartialEq, Eq)]
pub struct TaskSummary {
    pub ok: usize,
    pub failed: usize,
    pub cancelled: usize,
}

impl View for TaskSummary {
    type V = Tally;

    open spec fn view(&self) -> Tally {
        Tally { ok: self.ok as nat, failed: self.failed as nat, cancelled: self.cancelled as nat }
    }
}

/// Where a batch stands as a whole.
#[derive(Debug, Clone, Copy, PartialEq, Eq)]
pub enum BatchStatus {
    Queued,
    Running,
    Completed,
    Cancelled,
}

impl View for BatchStatus {
    type V = RecordPhase;

    open spec fn view(&self) -> RecordPhase {
        match self {
            BatchStatus::Queued => RecordPhase::Queued,
            BatchStatus::Running => RecordPhase::Running,
            BatchStatus::Completed => RecordPhase::Completed,
            BatchStatus::Cancelled => RecordPhase::Cancelled,
        }
    }
}

/// What a task does with its files.
#[derive(Debug, Clone, Copy, PartialEq, Eq)]
pub enum TaskKind {
    Transcription,
    Flag,
    Cut,
}

/// Where a job of a task stands.
#[derive(Debug, Clone, Copy, PartialEq, Eq)]
pub enum TaskJobStatus {
    Queued,
    Running,
    Completed,
    Failed,
    Cancelled,
}

impl View for TaskJobStatus {
    type V = JobPhase;

    open spec fn view(&self) -> JobPhase {
        match self {
            TaskJobStatus::Queued => JobPhase::Queued,
            TaskJobStatus::Running => JobPhase::Running,
            TaskJobStatus::Completed => JobPhase::Completed,
            TaskJobStatus::Failed => JobPhase::Failed,
            TaskJobStatus::Cancelled => JobPhase::Cancelled,
        }
    }
}

/// Where a task stands as a whole.
#[derive(Debug, Clone, Copy, PartialEq, Eq)]
pub enum TaskStatus {
    Queued,
    Running,
    Completed,
    Cancelled,
}

impl View for TaskStatus {
    type V = RecordPhase;

    open spec fn view(&self) -> RecordPhase {
        match self {
            TaskStatus::Queued => RecordPhase::Queued,
            TaskStatus::Running => RecordPhase::Running,
            TaskStatus::Completed => RecordPhase::Completed,
            TaskStatus::Cancelled => RecordPhase::Cancelled,
        }
    }
}

/// One input file of a task and how far its work has come, with the lines
/// the worker has logged for it.
#[derive(Debug, PartialEq)]
pub struct TaskJobRecord {
    pub job_id: String,
    pub file_name: String,
    pub input_path: String,
    pub output_path: Option<String>,
    pub status: TaskJobStatus,
    pub progress_pct: u8,
    pub error: Option<String>,
    pub logs: Vec<String>,
}

impl View for TaskJobRecord {
    type V = JobModel;

    open spec fn view(&self) -> JobModel {
        JobModel {
            job_id: self.job_id@,
            file_name: self.file_name@,
            input_path: self.input_path@,
            output_path: text_opt(self.output_path),
            phase: self.status@,
            progress_pct: self.progress_pct as nat,
            error: text_opt(self.error),
            logs: texts(self.logs@),
        }
    }
}

impl Clone for TaskJobRecord {
    fn clone(&self) -> (r: Self)
        ensures
            r@ == self@,
    {
        TaskJobRecord {
            job_id: self.job_id.clone(),
            file_name: self.file_name.clone(),
            input_path: self.input_path.clone(),
            output_path: clone_text_opt(&self.output_path),
            status: self.status,
            progress_pct: self.progress_pct,
            error: clone_text_opt(&self.error),
            logs: clone_texts(&self.logs),
        }
    }
}

/// The models of the jobs of a batch, in their order.
pub open spec fn batch_jobs(jobs: Seq<JobRecord>) -> Seq<JobModel> {
    Seq::new(jobs.len(), |i: int| jobs[i]@)
}

/// The models of the jobs of a task, in their order.
pub open spec fn task_jobs(jobs: Seq<TaskJobRecord>) -> Seq<JobModel> {
    Seq::new(jobs.len(), |i: int| jobs[i]@)
}

/// The model of an optional batch summary.
pub open spec fn batch_tally(summary: Option<BatchSummary>) -> Option<Tally> {
    match summary {
        Some(counts) => Some(counts@),
        None => None,
    }
}

/// The model of an optional task summary.
pub open spec fn task_tally(summary: Option<TaskSummary>) -> Option<Tally> {
    match summary {
        Some(counts) => Some(counts@),
        None => None,
    }
}

/// A task: its kind, its status, its jobs in the order of submission, and
/// its summary once it has ended.
#[derive(Debug, PartialEq)]
pub struct TaskState {
    pub task_id: String,
    pub task_kind: TaskKind,
    pub status: TaskStatus,
    pub jobs: Vec<TaskJobRecord>,
    pub summary: Option<TaskSummary>,
}

impl View for TaskState {
    type V = RecordModel;

    open spec fn view(&self) -> RecordModel {
        RecordModel {
            id: self.task_id@,
            kind: Some(self.task_kind),
            phase: self.status@,
            jobs: task_jobs(self.jobs@),
            summary: task_tally(self.summary),
        }
    }
}

impl Clone for TaskState {
    fn clone(&self) -> (r: Self)
        ensures
            r@ == self@,
    {
        let mut jobs: Vec<TaskJobRecord> = Vec::new();
        let mut i: usize = 0;
        while i < self.jobs.len()
            invariant
                i <= self.jobs.len(),
                jobs.len() == i,
                forall|k: int| 0 <= k < i ==> jobs[k]@ == self.jobs[k]@,
            decreases self.jobs.len() - i,
        {
            jobs.push(self.jobs[i].clone());
            i = i + 1;
        }
        assert(task_jobs(jobs@) =~= task_jobs(self.jobs@));
        TaskState {
            task_id: self.task_id.clone(),
            task_kind: self.task_kind,
            status: self.status,
            jobs,
            summary: self.summary,
        }
    }
}

/// A batch: its status, its jobs in the order of submission, and its summary
/// once it has ended.
#[derive(Debug, PartialEq)]
pub struct BatchState {
    pub batch_id: String,
    pub status: BatchStatus,
    pub jobs: Vec<JobRecord>,
    pub summary: Option<BatchSummary>,
}

impl View for BatchState {
    type V = RecordModel;

    open spec fn view(&self) -> RecordModel {
        RecordModel {
            id: self.batch_id@,
            kind: None,
            phase: self.status@,
            jobs: batch_jobs(self.jobs@),
            summary: batch_tally(self.summary),
        }
    }
}

impl Clone for BatchState {
    fn clone(&self) -> (r: Self)
        ensures
            r@ == self@,
    {
        let mut jobs: Vec<JobRecord> = Vec::new();
        let mut i: usize = 0;
        while i < self.jobs.len()
            invariant
                i <= self.jobs.len(),
                jobs.len() == i,
                forall|k: int| 0 <= k < i ==> jobs[k]@ == self.jobs[k]@,
            decreases self.jobs.len() - i,
        {
            jobs.push(self.jobs[i].clone());
            i = i + 1;
        }
        assert(batch_jobs(jobs@) =~= batch_jobs(self.jobs@));
        BatchState {
            batch_id: self.batch_id.clone(),
            status: self.status,
            jobs,
            summary: self.summary,
        }
    }
}

/// What a worker status says of the worker.
#[derive(Debug, Clone, Copy, PartialEq, Eq)]
pub enum WorkerStatusKind {
    Starting,
    Ready,
    Error,
}

/// The model of a cut range.
pub struct CutRangeModel {
    pub start: Seq<char>,
    pub end: Seq<char>,
}

impl View for CutRange {
    type V = CutRangeModel;

    open spec fn view(&self) -> CutRangeModel {
        CutRangeModel { start: self.start@, end: self.end@ }
    }
}

/// The models of a list of cut ranges, in their order.
pub open spec fn cut_ranges(ranges: Seq<CutRange>) -> Seq<CutRangeModel> {
    Seq::new(ranges.len(), |i: int| ranges[i]@)
}

/// One rule of the moderation settings.
#[derive(Debug, Clone, PartialEq, Eq)]
pub struct ModerationRule {
    pub rule_id: String,
    pub category: String,
    pub priority: String,
    pub reason: String,
    pub patterns: Vec<String>,
}

/// The model of a moderation rule.
pub struct ModerationRuleModel {
    pub rule_id: Seq<char>,
    pub category: Seq<char>,
    pub priority: Seq<char>,
    pub reason: Seq<char>,
    pub patterns: Seq<Seq<char>>,
}

impl View for ModerationRule {
    type V = ModerationRuleModel;

    open spec fn view(&self) -> ModerationRuleModel {
        ModerationRuleModel {
            rule_id: self.rule_id@,
            category: self.category@,
            priority: self.priority@,
            reason: self.reason@,
            patterns: texts(self.patterns@),
        }
    }
}

/// The settings that a flag task works with.
#[derive(Debug, Clone, PartialEq, Eq)]
pub struct ModerationSettings {
    pub content_criteria: String,
    pub priority_guidelines: String,
    pub profanity_words: Vec<String>,
    pub rules: Vec<ModerationRule>,
}

/// The model of the moderation settings.
pub struct ModerationSettingsModel {
    pub content_criteria: Seq<char>,
    pub priority_guidelines: Seq<char>,
    pub profanity_words: Seq<Seq<char>>,
    pub rules: Seq<ModerationRuleModel>,
}

/// The models of a list of rules, in their order.
pub open spec fn moderation_rules(rules: Seq<ModerationRule>) -> Seq<ModerationRuleModel> {
    Seq::new(rules.len(), |i: int| rules[i]@)
}

impl View for ModerationSettings {
    type V = ModerationSettingsModel;

    open spec fn view(&self) -> ModerationSettingsModel {
        ModerationSettingsModel {
            content_criteria: self.content_criteria@,
            priority_guidelines: self.priority_guidelines@,
            profanity_words: texts(self.profanity_words@),
            rules: moderation_rules(self.rules@),
        }
    }
}

/// A notification on the feed of batches.
#[derive(Debug, Clone, PartialEq)]
pub enum BatchEvent {
    JobProgress { batch_id: String, job_id: String, progress_pct: u8 },
    JobDone { batch_id: String, job_id: String, output_path: String },
    JobError { batch_id: String, job_id: String, error: String },
    BatchDone { batch_id: String, summary: BatchSummary },
    JobLog { batch_id: String, job_id: String, message: String, stream: String },
    WorkerStatus { status: WorkerStatusKind, message: String },
}

/// The model of a notification on the feed of batches.
pub enum BatchEventModel {
    JobProgress { batch_id: Seq<char>, job_id: Seq<char>, progress_pct: nat },
    JobDone { batch_id: Seq<char>, job_id: Seq<char>, output_path: Seq<char> },
    JobError { batch_id: Seq<char>, job_id: Seq<char>, error: Seq<char> },
    BatchDone { batch_id: Seq<char>, summary: Tally },
    JobLog { batch_id: Seq<char>, job_id: Seq<char>, message: Seq<char>, stream: Seq<char> },
    WorkerStatus { status: WorkerStatusKind, message: Seq<char> },
}

impl View for BatchEvent {
    type V = BatchEventModel;

    open spec fn view(&self) -> BatchEventModel {
        match self {
            BatchEvent::JobProgress { batch_id, job_id, progress_pct } => {
                BatchEventModel::JobProgress {
                    batch_id: batch_id@,
                    job_id: job_id@,
                    progress_pct: *progress_pct as nat,
                }
            },
            BatchEvent::JobDone { batch_id, job_id, output_path } => BatchEventModel::JobDone {
                batch_id: batch_id@,
                job_id: job_id@,
                output_path: output_path@,
            },
            BatchEvent::JobError { batch_id, job_id, error } => BatchEventModel::JobError {
                batch_id: batch_id@,
                job_id: job_id@,
                error: error@,
            },
            BatchEvent::BatchDone { batch_id, summary } => BatchEventModel::BatchDone {
                batch_id: batch_id@,
                summary: summary@,
            },
            BatchEvent::JobLog { batch_id, job_id, message, stream } => BatchEventModel::JobLog {
                batch_id: batch_id@,
                job_id: job_id@,
                message: message@,
                stream: stream@,
            },
            BatchEvent::WorkerStatus { status, message } => BatchEventModel::WorkerStatus {
                status: *status,
                message: message@,
            },
        }
    }
}

impl BatchEvent {
    /// A status of the worker, with a message.
    pub fn worker_status(status: WorkerStatusKind, message: &str) -> (r: Self)
        ensures
            r@ == (BatchEventModel::WorkerStatus { status, message: message@ }),
    {
        BatchEvent::WorkerStatus { status, message: message.to_owned() }
    }

    /// The progress of a job, in percent.
    pub fn job_progress(batch_id: &str, job_id: &str, progress_pct: u8) -> (r: Self)
        ensures
            r@ == (BatchEventModel::JobProgress {
                batch_id: batch_id@,
                job_id: job_id@,
                progress_pct: progress_pct as nat,
            }),
    {
        BatchEvent::JobProgress {
            batch_id: batch_id.to_owned(),
            job_id: job_id.to_owned(),
            progress_pct,
        }
    }

    /// The end of a job that succeeded.
    pub fn job_done(batch_id: &str, job_id: &str, output_path: &str) -> (r: Self)
        ensures
            r@ == (BatchEventModel::JobDone {
                batch_id: batch_id@,
                job_id: job_id@,
                output_path: output_path@,
            }),
    {
        BatchEvent::JobDone {
            batch_id: batch_id.to_owned(),
            job_id: job_id.to_owned(),
            output_path: output_path.to_owned(),
        }
    }

    /// The end of a job that failed.
    pub fn job_error(batch_id: &str, job_id: &str, error: &str) -> (r: Self)
        ensures
            r@ == (BatchEventModel::JobError {
                batch_id: batch_id@,
                job_id: job_id@,
                error: error@,
            }),
    {
        BatchEvent::JobError {
            batch_id: batch_id.to_owned(),
            job_id: job_id.to_owned(),
            error: error.to_owned(),
        }
    }

    /// The end of a batch, with its counts.
    pub fn batch_done(batch_id: &str, summary: BatchSummary) -> (r: Self)
        ensures
            r@ == (BatchEventModel::BatchDone { batch_id: batch_id@, summary: summary@ }),
    {
        BatchEvent::BatchDone { batch_id: batch_id.to_owned(), summary }
    }

    /// A line that the worker has logged for a job.
    pub fn job_log(batch_id: &str, job_id: &str, message: &str, stream: &str) -> (r: Self)
        ensures
            r@ == (BatchEventModel::JobLog {
                batch_id: batch_id@,
                job_id: job_id@,
                message: message@,
                stream: stream@,
            }),
    {
        BatchEvent::JobLog {
            batch_id: batch_id.to_owned(),
            job_id: job_id.to_owned(),
            message: message.to_owned(),
            stream: stream.to_owned(),
        }
    }
}

/// A notification on the feed of tasks.
#[derive(Debug, Clone, PartialEq)]
pub enum TaskEvent {
    JobProgress { task_id: String, task_kind: TaskKind, job_id: String, progress_pct: u8 },
    JobDone {
        task_id: String,
        task_kind: TaskKind,
        job_id: String,
        output_path: Option<String>,
        artifacts: Option<Json>,
    },
    JobError { task_id: String, task_kind: TaskKind, job_id: String, error: String },
    TaskDone { task_id: String, task_kind: TaskKind, summary: TaskSummary },
    JobLog { task_id: String, task_kind: TaskKind, job_id: String, message: String, stream: String },
    WorkerStatus { status: WorkerStatusKind, message: String },
}

/// The model of a notification on the feed of tasks.
pub enum TaskEventModel {
    JobProgress { task_id: Seq<char>, task_kind: TaskKind, job_id: Seq<char>, progress_pct: nat },
    JobDone {
        task_id: Seq<char>,
        task_kind: TaskKind,
        job_id: Seq<char>,
        output_path: Option<Seq<char>>,
        artifacts: Option<JsonView>,
    },
    JobError { task_id: Seq<char>, task_kind: TaskKind, job_id: Seq<char>, error: Seq<char> },
    TaskDone { task_id: Seq<char>, task_kind: TaskKind, summary: Tally },
    JobLog {
        task_id: Seq<char>,
        task_kind: TaskKind,
        job_id: Seq<char>,
        message: Seq<char>,
        stream: Seq<char>,
    },
    WorkerStatus { status: WorkerStatusKind, message: Seq<char> },
}

/// The model of an optional document.
pub open spec fn json_opt(value: Option<Json>) -> Option<JsonView> {
    match value {
        Some(json) => Some(json@),
        None => None,
    }
}

impl View for TaskEvent {
    type V = TaskEventModel;

    open spec fn view(&self) -> TaskEventModel {
        match self {
            TaskEvent::JobProgress { task_id, task_kind, job_id, progress_pct } => {
                TaskEventModel::JobProgress {
                    task_id: task_id@,
                    task_kind: *task_kind,
                    job_id: job_id@,
                    progress_pct: *progress_pct as nat,
                }
            },
            TaskEvent::JobDone { task_id, task_kind, job_id, output_path, artifacts } => {
                TaskEventModel::JobDone {
                    task_id: task_id@,
                    task_kind: *task_kind,
                    job_id: job_id@,
                    output_path: text_opt(*output_path),
                    artifacts: json_opt(*artifacts),
                }
            },
            TaskEvent::JobError { task_id, task_kind, job_id, error } => TaskEventModel::JobError {
                task_id: task_id@,
                task_kind: *task_kind,
                job_id: job_id@,
                error: error@,
            },
            TaskEvent::TaskDone { task_id, task_kind, summary } => TaskEventModel::TaskDone {
                task_id: task_id@,
                task_kind: *task_kind,
                summary: summary@,
            },
            TaskEvent::JobLog { task_id, task_kind, job_id, message, stream } => {
                TaskEventModel::JobLog {
                    task_id: task_id@,
                    task_kind: *task_kind,
                    job_id: job_id@,
                    message: message@,
                    stream: stream@,
                }
            },
            TaskEvent::WorkerStatus { status, message } => TaskEventModel::WorkerStatus {
                status: *status,
                message: message@,
            },
        }
    }
}

impl TaskEvent {
    /// The progress of a job, in percent.
    pub fn job_progress(task_id: &str, task_kind: TaskKind, job_id: &str, progress_pct: u8) -> (r:
        Self)
        ensures
            r@ == (TaskEventModel::JobProgress {
                task_id: task_id@,
                task_kind,
                job_id: job_id@,
                progress_pct: progress_pct as nat,
            }),
    {
        TaskEvent::JobProgress {
            task_id: task_id.to_owned(),
            task_kind,
            job_id: job_id.to_owned(),
            progress_pct,
        }
    }

    /// The end of a job that succeeded.
    pub fn job_done(
        task_id: &str,
        task_kind: TaskKind,
        job_id: &str,
        output_path: Option<String>,
        artifacts: Option<Json>,
    ) -> (r: Self)
        ensures
            r@ == (TaskEventModel::JobDone {
                task_id: task_id@,
                task_kind,
                job_id: job_id@,
                output_path: text_opt(output_path),
                artifacts: json_opt(artifacts),
            }),
    {
        TaskEvent::JobDone {
            task_id: task_id.to_owned(),
            task_kind,
            job_id: job_id.to_owned(),
            output_path,
            artifacts,
        }
    }

    /// The end of a job that failed.
    pub fn job_error(task_id: &str, task_kind: TaskKind, job_id: &str, error: &str) -> (r: Self)
        ensures
            r@ == (TaskEventModel::JobError {
                task_id: task_id@,
                task_kind,
                job_id: job_id@,
                error: error@,
            }),
    {
        TaskEvent::JobError {
            task_id: task_id.to_owned(),
            task_kind,
            job_id: job_id.to_owned(),
            error: error.to_owned(),
        }
    }

    /// The end of a task, with its counts.
    pub fn task_done(task_id: &str, task_kind: TaskKind, summary: TaskSummary) -> (r: Self)
        ensures
            r@ == (TaskEventModel::TaskDone { task_id: task_id@, task_kind, summary: summary@ }),
    {
        TaskEvent::TaskDone { task_id: task_id.to_owned(), task_kind, summary }
    }

    /// A line that the worker has logged for a job.
    pub fn job_log(
        task_id: &str,
        task_kind: TaskKind,
        job_id: &str,
        message: &str,
        stream: &str,
    ) -> (r: Self)
        ensures
            r@ == (TaskEventModel::JobLog {
                task_id: task_id@,
                task_kind,
                job_id: job_id@,
                message: message@,
                stream: stream@,
            }),
    {
        TaskEvent::JobLog {
            task_id: task_id.to_owned(),
            task_kind,
            job_id: job_id.to_owned(),
            message: message.to_owned(),
            stream: stream.to_owned(),
        }
    }

    /// A status of the worker, with a message.
    pub fn worker_status(status: WorkerStatusKind, message: &str) -> (r: Self)
        ensures
            r@ == (TaskEventModel::WorkerStatus { status, message: message@ }),
    {
        TaskEvent::WorkerStatus { status, message: message.to_owned() }
    }
}

} // verus!
