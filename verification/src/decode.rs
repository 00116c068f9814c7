//! Reading an event of the worker out of a JSON document.

use vstd::prelude::*;
use crate::json::{Json, JsonView};
use crate::progress::Progress;
use crate::protocol::{WorkerEvent, WorkerEventModel};
use crate::text::{concat2, concat3, str_eq};
use crate::types::{BatchSummary, Tally, TaskSummary};

verus! {

/// Why a line is not an event.
#[derive(Debug, PartialEq)]
pub enum DecodeError {
    /// The line is no JSON document; the parser's message.
    Syntax(String),
    /// The document is no JSON object.
    NotAnObject,
    /// The `type` of the document is none that the protocol knows.
    UnknownType(String),
    /// The document lacks a member that its `type` requires.
    MissingField(String),
    /// A member of the document does not hold what the protocol expects.
    InvalidField(String),
}

/// The model of a decode error.
pub enum DecodeErrorModel {
    Syntax(Seq<char>),
    NotAnObject,
    UnknownType(Seq<char>),
    MissingField(Seq<char>),
    InvalidField(Seq<char>),
}

impl View for DecodeError {
    type V = DecodeErrorModel;

    open spec fn view(&self) -> DecodeErrorModel {
        match self {
            DecodeError::Syntax(message) => DecodeErrorModel::Syntax(message@),
            DecodeError::NotAnObject => DecodeErrorModel::NotAnObject,
            DecodeError::UnknownType(name) => DecodeErrorModel::UnknownType(name@),
            DecodeError::MissingField(name) => DecodeErrorModel::MissingField(name@),
            DecodeError::InvalidField(name) => DecodeErrorModel::InvalidField(name@),
        }
    }
}

/// What every message of a decode error starts with.
pub open spec fn decode_failure() -> Seq<char> {
    "Failed to parse worker event: "@
}

/// The message of a decode error.
pub open spec fn decode_error_text(error: DecodeErrorModel) -> Seq<char> {
    match error {
        DecodeErrorModel::Syntax(message) => decode_failure() + message,
        DecodeErrorModel::NotAnObject => decode_failure() + "expected a JSON object"@,
        DecodeErrorModel::UnknownType(name) => decode_failure() + "unknown event type `"@ + name
            + "`"@,
        DecodeErrorModel::MissingField(name) => decode_failure() + "missing field `"@ + name
            + "`"@,
        DecodeErrorModel::InvalidField(name) => decode_failure() + "invalid value for field `"@
            + name + "`"@,
    }
}

impl DecodeError {
    /// The message of this error, for a reader.
    pub fn message(&self) -> (r: String)
        ensures
            r@ == decode_error_text(self@),
    {
        let detail = match self {
            DecodeError::Syntax(message) => message.clone(),
            DecodeError::NotAnObject => "expected a JSON object".to_owned(),
            DecodeError::UnknownType(name) => concat3("unknown event type `", name.as_str(), "`"),
            DecodeError::MissingField(name) => concat3("missing field `", name.as_str(), "`"),
            DecodeError::InvalidField(name) => concat3(
                "invalid value for field `",
                name.as_str(),
                "`",
            ),
        };
        let r = concat2("Failed to parse worker event: ", detail.as_str());
        assert(r@ =~= decode_error_text(self@));
        r
    }
}

/// A member that has to be a string.
pub open spec fn text_field(doc: JsonView, key: Seq<char>) -> Result<Seq<char>, DecodeErrorModel> {
    match doc.get(key) {
        None => Err(DecodeErrorModel::MissingField(key)),
        Some(JsonView::Text(text)) => Ok(text),
        Some(_) => Err(DecodeErrorModel::InvalidField(key)),
    }
}

/// A member that is a string where it is there and not `null`.
pub open spec fn optional_text_field(doc: JsonView, key: Seq<char>) -> Result<
    Option<Seq<char>>,
    DecodeErrorModel,
> {
    match doc.get(key) {
        None => Ok(None),
        Some(JsonView::Null) => Ok(None),
        Some(JsonView::Text(text)) => Ok(Some(text)),
        Some(_) => Err(DecodeErrorModel::InvalidField(key)),
    }
}

/// A member of any kind: nothing where it is not there or `null`.
pub open spec fn optional_field(doc: JsonView, key: Seq<char>) -> Option<JsonView> {
    match doc.get(key) {
        None => None,
        Some(JsonView::Null) => None,
        Some(value) => Some(value),
    }
}

/// A member that has to be a number: the reading it stands for.
pub open spec fn progress_field(doc: JsonView, key: Seq<char>) -> Result<
    Progress,
    DecodeErrorModel,
> {
    match doc.get(key) {
        None => Err(DecodeErrorModel::MissingField(key)),
        Some(JsonView::Number(number)) => match number.bits {
            Some(bits) => Ok(Progress { bits }),
            None => Err(DecodeErrorModel::InvalidField(key)),
        },
        Some(_) => Err(DecodeErrorModel::InvalidField(key)),
    }
}

/// A member that has to be a count: a whole number from 0 that fits.
pub open spec fn count_field(doc: JsonView, key: Seq<char>) -> Result<nat, DecodeErrorModel> {
    match doc.get(key) {
        None => Err(DecodeErrorModel::MissingField(key)),
        Some(JsonView::Number(number)) => match number.unsigned {
            Some(count) => if count <= usize::MAX {
                Ok(count as nat)
            } else {
                Err(DecodeErrorModel::InvalidField(key))
            },
            None => Err(DecodeErrorModel::InvalidField(key)),
        },
        Some(_) => Err(DecodeErrorModel::InvalidField(key)),
    }
}

/// A member that has to be a summary: an object with the counts `ok`,
/// `failed` and `cancelled`.
pub open spec fn summary_field(doc: JsonView, key: Seq<char>) -> Result<Tally, DecodeErrorModel> {
    match doc.get(key) {
        None => Err(DecodeErrorModel::MissingField(key)),
        Some(JsonView::Object(members)) => {
            let summary = JsonView::Object(members);
            match count_field(summary, "ok"@) {
                Err(error) => Err(error),
                Ok(ok) => match count_field(summary, "failed"@) {
                    Err(error) => Err(error),
                    Ok(failed) => match count_field(summary, "cancelled"@) {
                        Err(error) => Err(error),
                        Ok(cancelled) => Ok(Tally { ok, failed, cancelled }),
                    },
                },
            }
        },
        Some(_) => Err(DecodeErrorModel::InvalidField(key)),
    }
}

/// What every job event says of its job: the batch, the task and the task
/// kind, each if it names one, and the id of the job.
pub struct JobHeader {
    pub batch_id: Option<Seq<char>>,
    pub task_id: Option<Seq<char>>,
    pub task_kind: Option<Seq<char>>,
    pub job_id: Seq<char>,
}

/// The header of a job event.
pub open spec fn job_header(doc: JsonView) -> Result<JobHeader, DecodeErrorModel> {
    match optional_text_field(doc, "batchId"@) {
        Err(error) => Err(error),
        Ok(batch_id) => match optional_text_field(doc, "taskId"@) {
            Err(error) => Err(error),
            Ok(task_id) => match optional_text_field(doc, "taskKind"@) {
                Err(error) => Err(error),
                Ok(task_kind) => match text_field(doc, "jobId"@) {
                    Err(error) => Err(error),
                    Ok(job_id) => Ok(JobHeader { batch_id, task_id, task_kind, job_id }),
                },
            },
        },
    }
}

/// The `job_progress` event of a document.
pub open spec fn decoded_job_progress(doc: JsonView) -> Result<WorkerEventModel, DecodeErrorModel> {
    match job_header(doc) {
        Err(error) => Err(error),
        Ok(header) => match progress_field(doc, "progressPct"@) {
            Err(error) => Err(error),
            Ok(progress_pct) => Ok(
                WorkerEventModel::JobProgress {
                    batch_id: header.batch_id,
                    task_id: header.task_id,
                    task_kind: header.task_kind,
                    job_id: header.job_id,
                    progress_pct,
                },
            ),
        },
    }
}

/// The `job_done` event of a document.
pub open spec fn decoded_job_done(doc: JsonView) -> Result<WorkerEventModel, DecodeErrorModel> {
    match job_header(doc) {
        Err(error) => Err(error),
        Ok(header) => match optional_text_field(doc, "outputPath"@) {
            Err(error) => Err(error),
            Ok(output_path) => Ok(
                WorkerEventModel::JobDone {
                    batch_id: header.batch_id,
                    task_id: header.task_id,
                    task_kind: header.task_kind,
                    job_id: header.job_id,
                    output_path,
                    artifacts: optional_field(doc, "artifacts"@),
                },
            ),
        },
    }
}

/// The `job_error` event of a document.
pub open spec fn decoded_job_error(doc: JsonView) -> Result<WorkerEventModel, DecodeErrorModel> {
    match job_header(doc) {
        Err(error) => Err(error),
        Ok(header) => match text_field(doc, "error"@) {
            Err(error) => Err(error),
            Ok(error) => Ok(
                WorkerEventModel::JobError {
                    batch_id: header.batch_id,
                    task_id: header.task_id,
                    task_kind: header.task_kind,
                    job_id: header.job_id,
                    error,
                },
            ),
        },
    }
}

/// The `job_log` event of a document.
pub open spec fn decoded_job_log(doc: JsonView) -> Result<WorkerEventModel, DecodeErrorModel> {
    match job_header(doc) {
        Err(error) => Err(error),
        Ok(header) => match text_field(doc, "message"@) {
            Err(error) => Err(error),
            Ok(message) => match optional_text_field(doc, "stream"@) {
                Err(error) => Err(error),
                Ok(stream) => Ok(
                    WorkerEventModel::JobLog {
                        batch_id: header.batch_id,
                        task_id: header.task_id,
                        task_kind: header.task_kind,
                        job_id: header.job_id,
                        message,
                        stream,
                    },
                ),
            },
        },
    }
}

/// The `batch_done` event of a document.
pub open spec fn decoded_batch_done(doc: JsonView) -> Result<WorkerEventModel, DecodeErrorModel> {
    match text_field(doc, "batchId"@) {
        Err(error) => Err(error),
        Ok(batch_id) => match summary_field(doc, "summary"@) {
            Err(error) => Err(error),
            Ok(summary) => Ok(WorkerEventModel::BatchDone { batch_id, summary }),
        },
    }
}

/// The `task_done` event of a document.
pub open spec fn decoded_task_done(doc: JsonView) -> Result<WorkerEventModel, DecodeErrorModel> {
    match text_field(doc, "taskId"@) {
        Err(error) => Err(error),
        Ok(task_id) => match text_field(doc, "taskKind"@) {
            Err(error) => Err(error),
            Ok(task_kind) => match summary_field(doc, "summary"@) {
                Err(error) => Err(error),
                Ok(summary) => Ok(WorkerEventModel::TaskDone { task_id, task_kind, summary }),
            },
        },
    }
}

/// The `worker_status` event of a document.
pub open spec fn decoded_worker_status(doc: JsonView) -> Result<
    WorkerEventModel,
    DecodeErrorModel,
> {
    match text_field(doc, "status"@) {
        Err(error) => Err(error),
        Ok(status) => match text_field(doc, "message"@) {
            Err(error) => Err(error),
            Ok(message) => Ok(WorkerEventModel::WorkerStatus { status, message }),
        },
    }
}

/// The event that a document stands for: the document has to be an object
/// whose `type` names one of the seven events and whose members hold what
/// that event requires. A member that the event does not know is passed
/// over.
pub open spec fn decoded(doc: JsonView) -> Result<WorkerEventModel, DecodeErrorModel> {
    if !(doc is Object) {
        Err(DecodeErrorModel::NotAnObject)
    } else {
        match text_field(doc, "type"@) {
            Err(error) => Err(error),
            Ok(name) => if name == "job_progress"@ {
                decoded_job_progress(doc)
            } else if name == "job_done"@ {
                decoded_job_done(doc)
            } else if name == "job_error"@ {
                decoded_job_error(doc)
            } else if name == "batch_done"@ {
                decoded_batch_done(doc)
            } else if name == "task_done"@ {
                decoded_task_done(doc)
            } else if name == "job_log"@ {
                decoded_job_log(doc)
            } else if name == "worker_status"@ {
                decoded_worker_status(doc)
            } else {
                Err(DecodeErrorModel::UnknownType(name))
            },
        }
    }
}

/// The model of the outcome of a decoding.
pub open spec fn outcome_model(outcome: Result<WorkerEvent, DecodeError>) -> Result<
    WorkerEventModel,
    DecodeErrorModel,
> {
    match outcome {
        Ok(event) => Ok(event@),
        Err(error) => Err(error@),
    }
}

fn required_text(json: &Json, key: &str) -> (r: Result<String, DecodeError>)
    ensures
        match text_field(json@, key@) {
            Ok(text) => r matches Ok(found) && found@ == text,
            Err(error) => r matches Err(given) && given@ == error,
        },
{
    match json.get(key) {
        None => Err(DecodeError::MissingField(key.to_owned())),
        Some(Json::Text(text)) => Ok(text.clone()),
        Some(_) => Err(DecodeError::InvalidField(key.to_owned())),
    }
}

fn optional_text(json: &Json, key: &str) -> (r: Result<Option<String>, DecodeError>)
    ensures
        match optional_text_field(json@, key@) {
            Ok(text) => r matches Ok(found) && crate::types::text_opt(found) == text,
            Err(error) => r matches Err(given) && given@ == error,
        },
{
    match json.get(key) {
        None => Ok(None),
        Some(Json::Null) => Ok(None),
        Some(Json::Text(text)) => Ok(Some(text.clone())),
        Some(_) => Err(DecodeError::InvalidField(key.to_owned())),
    }
}

fn optional_json(json: &Json, key: &str) -> (r: Option<Json>)
    ensures
        crate::types::json_opt(r) == optional_field(json@, key@),
{
    match json.get(key) {
        None => None,
        Some(Json::Null) => None,
        Some(value) => Some(value.clone()),
    }
}

fn required_progress(json: &Json, key: &str) -> (r: Result<Progress, DecodeError>)
    ensures
        match progress_field(json@, key@) {
            Ok(progress) => r matches Ok(found) && found == progress,
            Err(error) => r matches Err(given) && given@ == error,
        },
{
    match json.get(key) {
        None => Err(DecodeError::MissingField(key.to_owned())),
        Some(Json::Number(number)) => match number.bits {
            Some(bits) => Ok(Progress::from_bits(bits)),
            None => Err(DecodeError::InvalidField(key.to_owned())),
        },
        Some(_) => Err(DecodeError::InvalidField(key.to_owned())),
    }
}

fn required_count(json: &Json, key: &str) -> (r: Result<usize, DecodeError>)
    ensures
        match count_field(json@, key@) {
            Ok(count) => r matches Ok(found) && found == count,
            Err(error) => r matches Err(given) && given@ == error,
        },
{
    match json.get(key) {
        None => Err(DecodeError::MissingField(key.to_owned())),
        Some(Json::Number(number)) => match number.unsigned {
            Some(count) => {
                if count <= usize::MAX as u64 {
                    Ok(count as usize)
                } else {
                    Err(DecodeError::InvalidField(key.to_owned()))
                }
            },
            None => Err(DecodeError::InvalidField(key.to_owned())),
        },
        Some(_) => Err(DecodeError::InvalidField(key.to_owned())),
    }
}

/// The three counts of a summary.
struct Counts {
    ok: usize,
    failed: usize,
    cancelled: usize,
}

fn required_summary(json: &Json, key: &str) -> (r: Result<Counts, DecodeError>)
    ensures
        match summary_field(json@, key@) {
            Ok(tally) => r matches Ok(found) && found.ok == tally.ok && found.failed
                == tally.failed && found.cancelled == tally.cancelled,
            Err(error) => r matches Err(given) && given@ == error,
        },
{
    match json.get(key) {
        None => Err(DecodeError::MissingField(key.to_owned())),
        Some(summary) => {
            match summary {
                Json::Object(_) => {},
                _ => {
                    return Err(DecodeError::InvalidField(key.to_owned()));
                },
            }
            let ok = match required_count(summary, "ok") {
                Ok(count) => count,
                Err(error) => {
                    return Err(error);
                },
            };
            let failed = match required_count(summary, "failed") {
                Ok(count) => count,
                Err(error) => {
                    return Err(error);
                },
            };
            let cancelled = match required_count(summary, "cancelled") {
                Ok(count) => count,
                Err(error) => {
                    return Err(error);
                },
            };
            Ok(Counts { ok, failed, cancelled })
        },
    }
}

/// The header of a job event, as it is read.
struct Header {
    batch_id: Option<String>,
    task_id: Option<String>,
    task_kind: Option<String>,
    job_id: String,
}

fn required_header(json: &Json) -> (r: Result<Header, DecodeError>)
    ensures
        match job_header(json@) {
            Ok(header) => r matches Ok(found) && crate::types::text_opt(found.batch_id)
                == header.batch_id && crate::types::text_opt(found.task_id) == header.task_id
                && crate::types::text_opt(found.task_kind) == header.task_kind && found.job_id@
                == header.job_id,
            Err(error) => r matches Err(given) && given@ == error,
        },
{
    let batch_id = match optional_text(json, "batchId") {
        Ok(value) => value,
        Err(error) => {
            return Err(error);
        },
    };
    let task_id = match optional_text(json, "taskId") {
        Ok(value) => value,
        Err(error) => {
            return Err(error);
        },
    };
    let task_kind = match optional_text(json, "taskKind") {
        Ok(value) => value,
        Err(error) => {
            return Err(error);
        },
    };
    let job_id = match required_text(json, "jobId") {
        Ok(value) => value,
        Err(error) => {
            return Err(error);
        },
    };
    Ok(Header { batch_id, task_id, task_kind, job_id })
}

fn decode_job_progress(json: &Json) -> (r: Result<WorkerEvent, DecodeError>)
    ensures
        outcome_model(r) == decoded_job_progress(json@),
{
    let header = match required_header(json) {
        Ok(value) => value,
        Err(error) => {
            return Err(error);
        },
    };
    let progress_pct = match required_progress(json, "progressPct") {
        Ok(value) => value,
        Err(error) => {
            return Err(error);
        },
    };
    Ok(
        WorkerEvent::JobProgress {
            batch_id: header.batch_id,
            task_id: header.task_id,
            task_kind: header.task_kind,
            job_id: header.job_id,
            progress_pct,
        },
    )
}

fn decode_job_done(json: &Json) -> (r: Result<WorkerEvent, DecodeError>)
    ensures
        outcome_model(r) == decoded_job_done(json@),
{
    let header = match required_header(json) {
        Ok(value) => value,
        Err(error) => {
            return Err(error);
        },
    };
    let output_path = match optional_text(json, "outputPath") {
        Ok(value) => value,
        Err(error) => {
            return Err(error);
        },
    };
    let artifacts = optional_json(json, "artifacts");
    Ok(
        WorkerEvent::JobDone {
            batch_id: header.batch_id,
            task_id: header.task_id,
            task_kind: header.task_kind,
            job_id: header.job_id,
            output_path,
            artifacts,
        },
    )
}

fn decode_job_error(json: &Json) -> (r: Result<WorkerEvent, DecodeError>)
    ensures
        outcome_model(r) == decoded_job_error(json@),
{
    let header = match required_header(json) {
        Ok(value) => value,
        Err(error) => {
            return Err(error);
        },
    };
    let error = match required_text(json, "error") {
        Ok(value) => value,
        Err(error) => {
            return Err(error);
        },
    };
    Ok(
        WorkerEvent::JobError {
            batch_id: header.batch_id,
            task_id: header.task_id,
            task_kind: header.task_kind,
            job_id: header.job_id,
            error,
        },
    )
}

fn decode_job_log(json: &Json) -> (r: Result<WorkerEvent, DecodeError>)
    ensures
        outcome_model(r) == decoded_job_log(json@),
{
    let header = match required_header(json) {
        Ok(value) => value,
        Err(error) => {
            return Err(error);
        },
    };
    let message = match required_text(json, "message") {
        Ok(value) => value,
        Err(error) => {
            return Err(error);
        },
    };
    let stream = match optional_text(json, "stream") {
        Ok(value) => value,
        Err(error) => {
            return Err(error);
        },
    };
    Ok(
        WorkerEvent::JobLog {
            batch_id: header.batch_id,
            task_id: header.task_id,
            task_kind: header.task_kind,
            job_id: header.job_id,
            message,
            stream,
        },
    )
}

fn decode_batch_done(json: &Json) -> (r: Result<WorkerEvent, DecodeError>)
    ensures
        outcome_model(r) == decoded_batch_done(json@),
{
    let batch_id = match required_text(json, "batchId") {
        Ok(value) => value,
        Err(error) => {
            return Err(error);
        },
    };
    let counts = match required_summary(json, "summary") {
        Ok(value) => value,
        Err(error) => {
            return Err(error);
        },
    };
    Ok(
        WorkerEvent::BatchDone {
            batch_id,
            summary: BatchSummary {
                ok: counts.ok,
                failed: counts.failed,
                cancelled: counts.cancelled,
            },
        },
    )
}

fn decode_task_done(json: &Json) -> (r: Result<WorkerEvent, DecodeError>)
    ensures
        outcome_model(r) == decoded_task_done(json@),
{
    let task_id = match required_text(json, "taskId") {
        Ok(value) => value,
        Err(error) => {
            return Err(error);
        },
    };
    let task_kind = match required_text(json, "taskKind") {
        Ok(value) => value,
        Err(error) => {
            return Err(error);
        },
    };
    let counts = match required_summary(json, "summary") {
        Ok(value) => value,
        Err(error) => {
            return Err(error);
        },
    };
    Ok(
        WorkerEvent::TaskDone {
            task_id,
            task_kind,
            summary: TaskSummary {
                ok: counts.ok,
                failed: counts.failed,
                cancelled: counts.cancelled,
            },
        },
    )
}

fn decode_worker_status(json: &Json) -> (r: Result<WorkerEvent, DecodeError>)
    ensures
        outcome_model(r) == decoded_worker_status(json@),
{
    let status = match required_text(json, "status") {
        Ok(value) => value,
        Err(error) => {
            return Err(error);
        },
    };
    let message = match required_text(json, "message") {
        Ok(value) => value,
        Err(error) => {
            return Err(error);
        },
    };
    Ok(WorkerEvent::WorkerStatus { status, message })
}

/// The event that a document stands for.
pub fn decode_event(json: &Json) -> (r: Result<WorkerEvent, DecodeError>)
    ensures
        outcome_model(r) == decoded(json@),
{
    match json {
        Json::Object(_) => {},
        _ => {
            return Err(DecodeError::NotAnObject);
        },
    }
    let name = match required_text(json, "type") {
        Ok(value) => value,
        Err(error) => {
            return Err(error);
        },
    };
    if str_eq(name.as_str(), "job_progress") {
        decode_job_progress(json)
    } else if str_eq(name.as_str(), "job_done") {
        decode_job_done(json)
    } else if str_eq(name.as_str(), "job_error") {
        decode_job_error(json)
    } else if str_eq(name.as_str(), "batch_done") {
        decode_batch_done(json)
    } else if str_eq(name.as_str(), "task_done") {
        decode_task_done(json)
    } else if str_eq(name.as_str(), "job_log") {
        decode_job_log(json)
    } else if str_eq(name.as_str(), "worker_status") {
        decode_worker_status(json)
    } else {
        Err(DecodeError::UnknownType(name))
    }
}

/// The members that an event of the given type cannot be without.
pub open spec fn required_fields(name: Seq<char>) -> Seq<Seq<char>> {
    if name == "job_progress"@ {
        seq!["jobId"@, "progressPct"@]
    } else if name == "job_done"@ {
        seq!["jobId"@]
    } else if name == "job_error"@ {
        seq!["jobId"@, "error"@]
    } else if name == "batch_done"@ {
        seq!["batchId"@, "summary"@]
    } else if name == "task_done"@ {
        seq!["taskId"@, "taskKind"@, "summary"@]
    } else if name == "job_log"@ {
        seq!["jobId"@, "message"@]
    } else if name == "worker_status"@ {
        seq!["status"@, "message"@]
    } else {
        Seq::empty()
    }
}

/// The type is one of the seven that the protocol knows.
pub open spec fn is_known_type(name: Seq<char>) -> bool {
    name == "job_progress"@ || name == "job_done"@ || name == "job_error"@ || name
        == "batch_done"@ || name == "task_done"@ || name == "job_log"@ || name
        == "worker_status"@
}

/// A document whose type the protocol does not know is no event.
pub proof fn lemma_unknown_type_is_rejected(doc: JsonView, name: Seq<char>)
    requires
        doc is Object,
        doc.get("type"@) == Some(JsonView::Text(name)),
        !is_known_type(name),
    ensures
        decoded(doc) == Err::<WorkerEventModel, DecodeErrorModel>(
            DecodeErrorModel::UnknownType(name),
        ),
{
}

/// A document that lacks a member which its type requires is no event.
pub proof fn lemma_missing_field_is_rejected(doc: JsonView, name: Seq<char>, i: int)
    requires
        doc is Object,
        doc.get("type"@) == Some(JsonView::Text(name)),
        0 <= i < required_fields(name).len(),
        doc.get(required_fields(name)[i]) is None,
    ensures
        decoded(doc) is Err,
{
    reveal_strlit("job_progress");
    reveal_strlit("job_done");
    reveal_strlit("job_error");
    reveal_strlit("batch_done");
    reveal_strlit("task_done");
    reveal_strlit("job_log");
    reveal_strlit("worker_status");
    if name == "job_progress"@ {
        assert(decoded(doc) == decoded_job_progress(doc));
    } else if name == "job_done"@ {
        assert("job_done"@[4] != "job_progress"@[4]);
        assert(decoded(doc) == decoded_job_done(doc));
    } else if name == "job_error"@ {
        assert("job_error"@[4] != "job_progress"@[4]);
        assert("job_error"@[4] != "job_done"@[4]);
        assert(decoded(doc) == decoded_job_error(doc));
    } else if name == "batch_done"@ {
        assert("batch_done"@[0] != "job_progress"@[0]);
        assert("batch_done"@[0] != "job_done"@[0]);
        assert("batch_done"@[0] != "job_error"@[0]);
        assert(decoded(doc) == decoded_batch_done(doc));
    } else if name == "task_done"@ {
        assert("task_done"@[0] != "job_progress"@[0]);
        assert("task_done"@[0] != "job_done"@[0]);
        assert("task_done"@[0] != "job_error"@[0]);
        assert("task_done"@[0] != "batch_done"@[0]);
        assert(decoded(doc) == decoded_task_done(doc));
    } else if name == "job_log"@ {
        assert("job_log"@[4] != "job_progress"@[4]);
        assert("job_log"@[4] != "job_done"@[4]);
        assert("job_log"@[4] != "job_error"@[4]);
        assert("job_log"@[0] != "batch_done"@[0]);
        assert("job_log"@[0] != "task_done"@[0]);
        assert(decoded(doc) == decoded_job_log(doc));
    } else if name == "worker_status"@ {
        assert("worker_status"@[0] != "job_progress"@[0]);
        assert("worker_status"@[0] != "job_done"@[0]);
        assert("worker_status"@[0] != "job_error"@[0]);
        assert("worker_status"@[0] != "batch_done"@[0]);
        assert("worker_status"@[0] != "task_done"@[0]);
        assert("worker_status"@[0] != "job_log"@[0]);
        assert(decoded(doc) == decoded_worker_status(doc));
    }
}

} // verus!
