//! The store of batch and task records, and what each event of the worker
//! does to it.

use vstd::prelude::*;
use crate::lookup::{
    find_first, is_first, keys_of, lemma_position_found, lemma_position_is_first, position, Keyed,
};
use crate::channel::{clone_sender, WorkerSender};
use crate::progress::{lemma_percent_in_range, percent_of};
use crate::protocol::{parse_task_kind, task_kind_of, WorkerEvent, WorkerEventModel};
use crate::types::{
    batch_jobs, clone_text_opt, task_jobs, text_opt, texts, BatchState, BatchStatus, BatchSummary,
    JobModel, JobPhase, JobRecord, JobStatus, RecordModel, RecordPhase, Tally, TaskJobRecord,
    TaskJobStatus, TaskState, TaskStatus, TaskSummary,
};

verus! {

/// The error of a job that was running when its batch or task ended.
pub open spec fn lost_job_error() -> Seq<char> {
    "Worker ended before emitting final job state."@
}

/// What an event does to one job.
pub enum JobChange {
    /// The job runs, at the given percentage.
    Progress(nat),
    /// The job is done, with the output it names, if any.
    Done(Option<Seq<char>>),
    /// The job has failed with the given error.
    Failed(Seq<char>),
    /// The job has written a line to its log.
    Logged(Seq<char>),
}

/// What an event does to a batch or a task.
pub enum RecordStep {
    /// A change to the job with the given id.
    Job(Seq<char>, JobChange),
    /// The end of the batch or task, with its counts.
    Finished(Tally),
}

/// A job after a change.
pub open spec fn job_after(job: JobModel, change: JobChange) -> JobModel {
    match change {
        JobChange::Progress(pct) => JobModel { phase: JobPhase::Running, progress_pct: pct, ..job },
        JobChange::Done(output_path) => JobModel {
            phase: JobPhase::Completed,
            progress_pct: 100,
            output_path,
            error: None,
            ..job
        },
        JobChange::Failed(error) => JobModel { phase: JobPhase::Failed, error: Some(error), ..job },
        JobChange::Logged(message) => JobModel { logs: job.logs.push(message), ..job },
    }
}

/// A job after the end of its batch or task: one that still waited is
/// cancelled, one that still ran has failed, with the error it had or else
/// `lost_job_error`; every other job is as it was.
pub open spec fn job_swept(job: JobModel) -> JobModel {
    match job.phase {
        JobPhase::Queued => JobModel { phase: JobPhase::Cancelled, ..job },
        JobPhase::Running => JobModel {
            phase: JobPhase::Failed,
            error: if job.error is None {
                Some(lost_job_error())
            } else {
                job.error
            },
            ..job
        },
        _ => job,
    }
}

/// The ids of a list of jobs, in their order.
pub open spec fn job_ids(jobs: Seq<JobModel>) -> Seq<Seq<char>> {
    Seq::new(jobs.len(), |i: int| jobs[i].job_id)
}

/// The jobs after a change to the first of them with the given id; unchanged
/// where none has it.
pub open spec fn jobs_after(jobs: Seq<JobModel>, job_id: Seq<char>, change: JobChange) -> Seq<
    JobModel,
> {
    match position(job_ids(jobs), job_id) {
        Some(i) => jobs.update(i, job_after(jobs[i], change)),
        None => jobs,
    }
}

/// Every job swept.
pub open spec fn jobs_swept(jobs: Seq<JobModel>) -> Seq<JobModel> {
    Seq::new(jobs.len(), |i: int| job_swept(jobs[i]))
}

/// A batch or task after a step. Progress of a job makes a record run that
/// has not ended. The end of a record that has already ended changes nothing.
pub open spec fn record_after(record: RecordModel, step: RecordStep) -> RecordModel {
    match step {
        RecordStep::Job(job_id, change) => RecordModel {
            phase: if change is Progress && !record.phase.is_terminal() {
                RecordPhase::Running
            } else {
                record.phase
            },
            jobs: jobs_after(record.jobs, job_id, change),
            ..record
        },
        RecordStep::Finished(tally) => if record.phase.is_terminal() {
            record
        } else {
            RecordModel {
                phase: if tally.cancelled > 0 {
                    RecordPhase::Cancelled
                } else {
                    RecordPhase::Completed
                },
                jobs: jobs_swept(record.jobs),
                summary: Some(tally),
                ..record
            }
        },
    }
}

impl Keyed for JobRecord {
    open spec fn key_of(&self) -> Seq<char> {
        self.job_id@
    }

    fn key(&self) -> (r: &str) {
        self.job_id.as_str()
    }
}

impl Keyed for TaskJobRecord {
    open spec fn key_of(&self) -> Seq<char> {
        self.job_id@
    }

    fn key(&self) -> (r: &str) {
        self.job_id.as_str()
    }
}

impl Keyed for BatchState {
    open spec fn key_of(&self) -> Seq<char> {
        self.batch_id@
    }

    fn key(&self) -> (r: &str) {
        self.batch_id.as_str()
    }
}

impl Keyed for TaskState {
    open spec fn key_of(&self) -> Seq<char> {
        self.task_id@
    }

    fn key(&self) -> (r: &str) {
        self.task_id.as_str()
    }
}

impl BatchState {
    /// Marks the job with the given id as running, at the given percentage,
    /// and the batch as running unless it has ended.
    pub fn record_progress(&mut self, job_id: &str, pct: u8)
        ensures
            final(self)@ == record_after(
                old(self)@,
                RecordStep::Job(job_id@, JobChange::Progress(pct as nat)),
            ),
    {
        match self.status {
            BatchStatus::Completed | BatchStatus::Cancelled => {},
            _ => {
                self.status = BatchStatus::Running;
            },
        }
        let found = find_first(&self.jobs, job_id);
        assert(keys_of(self.jobs@) =~= job_ids(batch_jobs(self.jobs@)));
        if let Some(i) = found {
            let job = &mut self.jobs[i];
            job.status = JobStatus::Running;
            job.progress_pct = pct;
        }
        assert(batch_jobs(self.jobs@) =~= jobs_after(
            batch_jobs(old(self).jobs@),
            job_id@,
            JobChange::Progress(pct as nat),
        ));
    }

    /// Marks the job with the given id as completed, with the output it names.
    pub fn record_done(&mut self, job_id: &str, output_path: Option<String>)
        ensures
            final(self)@ == record_after(
                old(self)@,
                RecordStep::Job(job_id@, JobChange::Done(text_opt(output_path))),
            ),
    {
        let found = find_first(&self.jobs, job_id);
        assert(keys_of(self.jobs@) =~= job_ids(batch_jobs(self.jobs@)));
        if let Some(i) = found {
            let job = &mut self.jobs[i];
            job.status = JobStatus::Completed;
            job.progress_pct = 100;
            job.output_path = output_path;
            job.error = None;
        }
        assert(batch_jobs(self.jobs@) =~= jobs_after(
            batch_jobs(old(self).jobs@),
            job_id@,
            JobChange::Done(text_opt(output_path)),
        ));
    }

    /// Marks the job with the given id as failed, with the given error.
    pub fn record_error(&mut self, job_id: &str, error: String)
        ensures
            final(self)@ == record_after(
                old(self)@,
                RecordStep::Job(job_id@, JobChange::Failed(error@)),
            ),
    {
        let found = find_first(&self.jobs, job_id);
        assert(keys_of(self.jobs@) =~= job_ids(batch_jobs(self.jobs@)));
        if let Some(i) = found {
            let job = &mut self.jobs[i];
            job.status = JobStatus::Failed;
            job.error = Some(error);
        }
        assert(batch_jobs(self.jobs@) =~= jobs_after(
            batch_jobs(old(self).jobs@),
            job_id@,
            JobChange::Failed(error@),
        ));
    }

    /// Ends the batch with the given counts, unless it has ended before: the
    /// batch is cancelled where a job was cancelled and completed otherwise,
    /// and every job that had not ended is swept.
    pub fn finish(&mut self, summary: BatchSummary)
        ensures
            final(self)@ == record_after(old(self)@, RecordStep::Finished(summary@)),
    {
        match self.status {
            BatchStatus::Completed | BatchStatus::Cancelled => {
                return ;
            },
            _ => {},
        }
        self.summary = Some(summary);
        self.status = if summary.cancelled > 0 {
            BatchStatus::Cancelled
        } else {
            BatchStatus::Completed
        };
        let ghost before = self.jobs@;
        let ghost head = *self;
        let mut i: usize = 0;
        while i < self.jobs.len()
            invariant
                i <= self.jobs.len(),
                self.jobs.len() == before.len(),
                self.batch_id == head.batch_id,
                self.status == head.status,
                self.summary == head.summary,
                forall|k: int| 0 <= k < i ==> self.jobs[k]@ == job_swept(before[k]@),
                forall|k: int| i <= k < before.len() ==> self.jobs[k] == before[k],
            decreases self.jobs.len() - i,
        {
            let job = &mut self.jobs[i];
            match job.status {
                JobStatus::Queued => {
                    job.status = JobStatus::Cancelled;
                },
                JobStatus::Running => {
                    job.status = JobStatus::Failed;
                    if job.error.is_none() {
                        job.error = Some("Worker ended before emitting final job state.".to_owned());
                    }
                },
                _ => {},
            }
            i = i + 1;
        }
        assert(batch_jobs(self.jobs@) =~= jobs_swept(batch_jobs(before)));
    }
}

impl TaskState {
    /// Marks the job with the given id as running, at the given percentage,
    /// and the task as running unless it has ended.
    pub fn record_progress(&mut self, job_id: &str, pct: u8)
        ensures
            final(self)@ == record_after(
                old(self)@,
                RecordStep::Job(job_id@, JobChange::Progress(pct as nat)),
            ),
    {
        match self.status {
            TaskStatus::Completed | TaskStatus::Cancelled => {},
            _ => {
                self.status = TaskStatus::Running;
            },
        }
        let found = find_first(&self.jobs, job_id);
        assert(keys_of(self.jobs@) =~= job_ids(task_jobs(self.jobs@)));
        if let Some(i) = found {
            let job = &mut self.jobs[i];
            job.status = TaskJobStatus::Running;
            job.progress_pct = pct;
        }
        assert(task_jobs(self.jobs@) =~= jobs_after(
            task_jobs(old(self).jobs@),
            job_id@,
            JobChange::Progress(pct as nat),
        ));
    }

    /// Marks the job with the given id as completed, with the output it names.
    pub fn record_done(&mut self, job_id: &str, output_path: Option<String>)
        ensures
            final(self)@ == record_after(
                old(self)@,
                RecordStep::Job(job_id@, JobChange::Done(text_opt(output_path))),
            ),
    {
        let found = find_first(&self.jobs, job_id);
        assert(keys_of(self.jobs@) =~= job_ids(task_jobs(self.jobs@)));
        if let Some(i) = found {
            let job = &mut self.jobs[i];
            job.status = TaskJobStatus::Completed;
            job.progress_pct = 100;
            job.output_path = output_path;
            job.error = None;
        }
        assert(task_jobs(self.jobs@) =~= jobs_after(
            task_jobs(old(self).jobs@),
            job_id@,
            JobChange::Done(text_opt(output_path)),
        ));
    }

    /// Marks the job with the given id as failed, with the given error.
    pub fn record_error(&mut self, job_id: &str, error: String)
        ensures
            final(self)@ == record_after(
                old(self)@,
                RecordStep::Job(job_id@, JobChange::Failed(error@)),
            ),
    {
        let found = find_first(&self.jobs, job_id);
        assert(keys_of(self.jobs@) =~= job_ids(task_jobs(self.jobs@)));
        if let Some(i) = found {
            let job = &mut self.jobs[i];
            job.status = TaskJobStatus::Failed;
            job.error = Some(error);
        }
        assert(task_jobs(self.jobs@) =~= jobs_after(
            task_jobs(old(self).jobs@),
            job_id@,
            JobChange::Failed(error@),
        ));
    }

    /// Appends a line to the log of the job with the given id.
    pub fn record_log(&mut self, job_id: &str, message: String)
        ensures
            final(self)@ == record_after(
                old(self)@,
                RecordStep::Job(job_id@, JobChange::Logged(message@)),
            ),
    {
        let found = find_first(&self.jobs, job_id);
        assert(keys_of(self.jobs@) =~= job_ids(task_jobs(self.jobs@)));
        if let Some(i) = found {
            let ghost logs = texts(self.jobs[i as int].logs@);
            let job = &mut self.jobs[i];
            job.logs.push(message);
            assert(texts(job.logs@) =~= logs.push(message@));
        }
        assert(task_jobs(self.jobs@) =~= jobs_after(
            task_jobs(old(self).jobs@),
            job_id@,
            JobChange::Logged(message@),
        ));
    }

    /// Ends the task with the given counts, unless it has ended before: the
    /// task is cancelled where a job was cancelled and completed otherwise,
    /// and every job that had not ended is swept.
    pub fn finish(&mut self, summary: TaskSummary)
        ensures
            final(self)@ == record_after(old(self)@, RecordStep::Finished(summary@)),
    {
        match self.status {
            TaskStatus::Completed | TaskStatus::Cancelled => {
                return ;
            },
            _ => {},
        }
        self.summary = Some(summary);
        self.status = if summary.cancelled > 0 {
            TaskStatus::Cancelled
        } else {
            TaskStatus::Completed
        };
        let ghost before = self.jobs@;
        let ghost head = *self;
        let mut i: usize = 0;
        while i < self.jobs.len()
            invariant
                i <= self.jobs.len(),
                self.jobs.len() == before.len(),
                self.task_id == head.task_id,
                self.task_kind == head.task_kind,
                self.status == head.status,
                self.summary == head.summary,
                forall|k: int| 0 <= k < i ==> self.jobs[k]@ == job_swept(before[k]@),
                forall|k: int| i <= k < before.len() ==> self.jobs[k] == before[k],
            decreases self.jobs.len() - i,
        {
            let job = &mut self.jobs[i];
            match job.status {
                TaskJobStatus::Queued => {
                    job.status = TaskJobStatus::Cancelled;
                },
                TaskJobStatus::Running => {
                    job.status = TaskJobStatus::Failed;
                    if job.error.is_none() {
                        job.error = Some("Worker ended before emitting final job state.".to_owned());
                    }
                },
                _ => {},
            }
            i = i + 1;
        }
        assert(task_jobs(self.jobs@) =~= jobs_swept(task_jobs(before)));
    }
}

/// The record that an event is about, and what it does to it.
pub struct Target {
    pub id: Seq<char>,
    pub step: RecordStep,
}

/// What an event does to the batches: a job event that names a batch changes
/// that job, the end of a batch ends it, and every other event does nothing.
/// A log line is never for a batch.
pub open spec fn batch_step(event: WorkerEventModel) -> Option<Target> {
    match event {
        WorkerEventModel::JobProgress { batch_id: Some(id), job_id, progress_pct, .. } => Some(
            Target {
                id,
                step: RecordStep::Job(job_id, JobChange::Progress(percent_of(progress_pct.bits))),
            },
        ),
        WorkerEventModel::JobDone { batch_id: Some(id), job_id, output_path, .. } => Some(
            Target { id, step: RecordStep::Job(job_id, JobChange::Done(output_path)) },
        ),
        WorkerEventModel::JobError { batch_id: Some(id), job_id, error, .. } => Some(
            Target { id, step: RecordStep::Job(job_id, JobChange::Failed(error)) },
        ),
        WorkerEventModel::BatchDone { batch_id, summary } => Some(
            Target { id: batch_id, step: RecordStep::Finished(summary) },
        ),
        _ => None,
    }
}

/// What an event does to the tasks: a job event that names a task and a known
/// task kind changes that job, the end of a task of a known kind ends it,
/// and every other event does nothing.
pub open spec fn task_step(event: WorkerEventModel) -> Option<Target> {
    match event {
        WorkerEventModel::JobProgress {
            task_id: Some(id),
            task_kind: Some(kind),
            job_id,
            progress_pct,
            ..
        } => if task_kind_of(kind) is Some {
            Some(
                Target {
                    id,
                    step: RecordStep::Job(
                        job_id,
                        JobChange::Progress(percent_of(progress_pct.bits)),
                    ),
                },
            )
        } else {
            None
        },
        WorkerEventModel::JobDone {
            task_id: Some(id),
            task_kind: Some(kind),
            job_id,
            output_path,
            ..
        } => if task_kind_of(kind) is Some {
            Some(Target { id, step: RecordStep::Job(job_id, JobChange::Done(output_path)) })
        } else {
            None
        },
        WorkerEventModel::JobError { task_id: Some(id), task_kind: Some(kind), job_id, error, .. } => {
            if task_kind_of(kind) is Some {
                Some(Target { id, step: RecordStep::Job(job_id, JobChange::Failed(error)) })
            } else {
                None
            }
        },
        WorkerEventModel::JobLog { task_id: Some(id), task_kind: Some(kind), job_id, message, .. } => {
            if task_kind_of(kind) is Some {
                Some(Target { id, step: RecordStep::Job(job_id, JobChange::Logged(message)) })
            } else {
                None
            }
        },
        WorkerEventModel::TaskDone { task_id, task_kind, summary } => if task_kind_of(task_kind)
            is Some {
            Some(Target { id: task_id, step: RecordStep::Finished(summary) })
        } else {
            None
        },
        _ => None,
    }
}

/// The records after a step on one of them. A step on a record that the store
/// does not hold changes nothing.
pub open spec fn store_after(store: Map<Seq<char>, RecordModel>, target: Option<Target>) -> Map<
    Seq<char>,
    RecordModel,
> {
    match target {
        Some(t) => if store.dom().contains(t.id) {
            store.insert(t.id, record_after(store[t.id], t.step))
        } else {
            store
        },
        None => store,
    }
}

/// The ids of a list of records, in their order.
pub open spec fn record_ids(records: Seq<RecordModel>) -> Seq<Seq<char>> {
    Seq::new(records.len(), |i: int| records[i].id)
}

/// A list of records as a map from id to record: under each id the first
/// record of the list that has it.
pub open spec fn records_map(records: Seq<RecordModel>) -> Map<Seq<char>, RecordModel> {
    Map::new(
        |id: Seq<char>| position(record_ids(records), id) is Some,
        |id: Seq<char>| records[position(record_ids(records), id).unwrap()],
    )
}

/// The models of a list of batches, in their order.
pub open spec fn batch_records(records: Seq<BatchState>) -> Seq<RecordModel> {
    Seq::new(records.len(), |i: int| records[i]@)
}

/// The models of a list of tasks, in their order.
pub open spec fn task_records(records: Seq<TaskState>) -> Seq<RecordModel> {
    Seq::new(records.len(), |i: int| records[i]@)
}

/// Replacing the first record of an id by one of the same id replaces it in
/// the map.
proof fn lemma_records_map_update(records: Seq<RecordModel>, i: int, changed: RecordModel)
    requires
        0 <= i < records.len(),
        position(record_ids(records), changed.id) == Some(i),
    ensures
        records_map(records.update(i, changed)) == records_map(records).insert(
            changed.id,
            changed,
        ),
{
    let after = records.update(i, changed);
    lemma_position_is_first(record_ids(records), changed.id);
    assert(record_ids(after) =~= record_ids(records));
    assert forall|id: Seq<char>| #[trigger]
        records_map(records).insert(changed.id, changed).dom().contains(id) implies records_map(
        after,
    )[id] == records_map(records).insert(changed.id, changed)[id] by {
        lemma_position_is_first(record_ids(records), id);
    }
    assert(records_map(after) =~= records_map(records).insert(changed.id, changed));
}

/// Adding a record whose id no record has adds it to the map.
proof fn lemma_records_map_push(records: Seq<RecordModel>, added: RecordModel)
    requires
        position(record_ids(records), added.id) is None,
    ensures
        records_map(records.push(added)) == records_map(records).insert(added.id, added),
{
    let after = records.push(added);
    let ids = record_ids(records);
    let ids_after = record_ids(after);
    assert(ids_after =~= ids.push(added.id));
    lemma_position_is_first(ids, added.id);
    assert(is_first(ids_after, added.id, records.len() as int));
    lemma_position_found(ids_after, added.id, records.len() as int);
    assert forall|id: Seq<char>| id != added.id implies position(ids_after, id) == position(
        ids,
        id,
    ) by {
        lemma_position_is_first(ids, id);
        lemma_position_is_first(ids_after, id);
        match position(ids, id) {
            Some(k) => {
                assert(is_first(ids_after, id, k));
                lemma_position_found(ids_after, id, k);
            },
            None => {
                if position(ids_after, id) is Some {
                    let k = position(ids_after, id).unwrap();
                    assert(k < ids.len());
                    assert(ids[k] == id);
                }
            },
        }
    }
    assert(records_map(after) =~= records_map(records).insert(added.id, added));
}

/// The batches that were submitted, by id.
pub struct BatchStore {
    records: Vec<BatchState>,
}

impl View for BatchStore {
    type V = Map<Seq<char>, RecordModel>;

    closed spec fn view(&self) -> Map<Seq<char>, RecordModel> {
        records_map(batch_records(self.records@))
    }
}

/// In the map of a list of records, each record stands under its own id.
pub proof fn lemma_records_map_keys(records: Seq<RecordModel>)
    ensures
        forall|id: Seq<char>|
            records_map(records).dom().contains(id) ==> (#[trigger] records_map(records)[id]).id
                == id,
{
    assert forall|id: Seq<char>| records_map(records).dom().contains(id) implies (
    #[trigger] records_map(records)[id]).id == id by {
        lemma_position_is_first(record_ids(records), id);
    }
}

impl BatchStore {
    /// Each batch of the store stands under its own id.
    pub proof fn lemma_keys(self)
        ensures
            forall|id: Seq<char>| self@.dom().contains(id) ==> (#[trigger] self@[id]).id == id,
    {
        lemma_records_map_keys(batch_records(self.records@));
    }

    /// A store without a batch.
    pub fn new() -> (r: Self)
        ensures
            r@ == Map::<Seq<char>, RecordModel>::empty(),
    {
        let r = BatchStore { records: Vec::new() };
        assert(r@ =~= Map::<Seq<char>, RecordModel>::empty());
        r
    }

    /// Puts a batch under its id, in place of the one that was there.
    pub fn insert(&mut self, batch: BatchState)
        ensures
            final(self)@ == old(self)@.insert(batch.batch_id@, batch@),
    {
        let ghost before = batch_records(self.records@);
        let found = find_first(&self.records, batch.batch_id.as_str());
        assert(keys_of(self.records@) =~= record_ids(before));
        match found {
            Some(i) => {
                self.records[i] = batch;
                proof {
                    assert(batch_records(self.records@) =~= before.update(i as int, batch@));
                    lemma_records_map_update(before, i as int, batch@);
                }
            },
            None => {
                self.records.push(batch);
                proof {
                    assert(batch_records(self.records@) =~= before.push(batch@));
                    lemma_records_map_push(before, batch@);
                }
            },
        }
    }

    /// A copy of the batch with the given id, if the store holds one.
    pub fn get(&self, batch_id: &str) -> (r: Option<BatchState>)
        ensures
            r is Some <==> self@.dom().contains(batch_id@),
            r matches Some(batch) ==> batch@ == self@[batch_id@],
    {
        let found = find_first(&self.records, batch_id);
        assert(keys_of(self.records@) =~= record_ids(batch_records(self.records@)));
        match found {
            Some(i) => Some(self.records[i].clone()),
            None => None,
        }
    }

    /// Applies one event of the worker to the batch it names.
    pub fn apply_worker_event(&mut self, event: &WorkerEvent)
        ensures
            final(self)@ == store_after(old(self)@, batch_step(event@)),
    {
        let ghost before = batch_records(self.records@);
        assert(keys_of(self.records@) =~= record_ids(before));
        match event {
            WorkerEvent::JobProgress { batch_id: Some(id), job_id, progress_pct, .. } => {
                if let Some(i) = find_first(&self.records, id.as_str()) {
                    self.records[i].record_progress(job_id.as_str(), progress_pct.percent());
                    proof {
                        assert(batch_records(self.records@) =~= before.update(
                            i as int,
                            self.records[i as int]@,
                        ));
                        lemma_records_map_update(before, i as int, self.records[i as int]@);
                    }
                }
            },
            WorkerEvent::JobDone { batch_id: Some(id), job_id, output_path, .. } => {
                if let Some(i) = find_first(&self.records, id.as_str()) {
                    self.records[i].record_done(job_id.as_str(), clone_text_opt(output_path));
                    proof {
                        assert(batch_records(self.records@) =~= before.update(
                            i as int,
                            self.records[i as int]@,
                        ));
                        lemma_records_map_update(before, i as int, self.records[i as int]@);
                    }
                }
            },
            WorkerEvent::JobError { batch_id: Some(id), job_id, error, .. } => {
                if let Some(i) = find_first(&self.records, id.as_str()) {
                    self.records[i].record_error(job_id.as_str(), error.clone());
                    proof {
                        assert(batch_records(self.records@) =~= before.update(
                            i as int,
                            self.records[i as int]@,
                        ));
                        lemma_records_map_update(before, i as int, self.records[i as int]@);
                    }
                }
            },
            WorkerEvent::BatchDone { batch_id, summary } => {
                if let Some(i) = find_first(&self.records, batch_id.as_str()) {
                    self.records[i].finish(*summary);
                    proof {
                        assert(batch_records(self.records@) =~= before.update(
                            i as int,
                            self.records[i as int]@,
                        ));
                        lemma_records_map_update(before, i as int, self.records[i as int]@);
                    }
                }
            },
            _ => {},
        }
    }
}

/// The tasks that were submitted, by id.
pub struct TaskStore {
    records: Vec<TaskState>,
}

impl View for TaskStore {
    type V = Map<Seq<char>, RecordModel>;

    closed spec fn view(&self) -> Map<Seq<char>, RecordModel> {
        records_map(task_records(self.records@))
    }
}

impl TaskStore {
    /// Each task of the store stands under its own id.
    pub proof fn lemma_keys(self)
        ensures
            forall|id: Seq<char>| self@.dom().contains(id) ==> (#[trigger] self@[id]).id == id,
    {
        lemma_records_map_keys(task_records(self.records@));
    }

    /// A store without a task.
    pub fn new() -> (r: Self)
        ensures
            r@ == Map::<Seq<char>, RecordModel>::empty(),
    {
        let r = TaskStore { records: Vec::new() };
        assert(r@ =~= Map::<Seq<char>, RecordModel>::empty());
        r
    }

    /// Puts a task under its id, in place of the one that was there.
    pub fn insert(&mut self, task: TaskState)
        ensures
            final(self)@ == old(self)@.insert(task.task_id@, task@),
    {
        let ghost before = task_records(self.records@);
        let found = find_first(&self.records, task.task_id.as_str());
        assert(keys_of(self.records@) =~= record_ids(before));
        match found {
            Some(i) => {
                self.records[i] = task;
                proof {
                    assert(task_records(self.records@) =~= before.update(i as int, task@));
                    lemma_records_map_update(before, i as int, task@);
                }
            },
            None => {
                self.records.push(task);
                proof {
                    assert(task_records(self.records@) =~= before.push(task@));
                    lemma_records_map_push(before, task@);
                }
            },
        }
    }

    /// A copy of the task with the given id, if the store holds one.
    pub fn get(&self, task_id: &str) -> (r: Option<TaskState>)
        ensures
            r is Some <==> self@.dom().contains(task_id@),
            r matches Some(task) ==> task@ == self@[task_id@],
    {
        let found = find_first(&self.records, task_id);
        assert(keys_of(self.records@) =~= record_ids(task_records(self.records@)));
        match found {
            Some(i) => Some(self.records[i].clone()),
            None => None,
        }
    }

    /// Applies one event of the worker to the task it names.
    pub fn apply_worker_event(&mut self, event: &WorkerEvent)
        ensures
            final(self)@ == store_after(old(self)@, task_step(event@)),
    {
        let ghost before = task_records(self.records@);
        assert(keys_of(self.records@) =~= record_ids(before));
        match event {
            WorkerEvent::JobProgress {
                task_id: Some(id),
                task_kind: Some(kind),
                job_id,
                progress_pct,
                ..
            } => {
                if parse_task_kind(kind.as_str()).is_none() {
                    return ;
                }
                if let Some(i) = find_first(&self.records, id.as_str()) {
                    self.records[i].record_progress(job_id.as_str(), progress_pct.percent());
                    proof {
                        assert(task_records(self.records@) =~= before.update(
                            i as int,
                            self.records[i as int]@,
                        ));
                        lemma_records_map_update(before, i as int, self.records[i as int]@);
                    }
                }
            },
            WorkerEvent::JobDone {
                task_id: Some(id),
                task_kind: Some(kind),
                job_id,
                output_path,
                ..
            } => {
                if parse_task_kind(kind.as_str()).is_none() {
                    return ;
                }
                if let Some(i) = find_first(&self.records, id.as_str()) {
                    self.records[i].record_done(job_id.as_str(), clone_text_opt(output_path));
                    proof {
                        assert(task_records(self.records@) =~= before.update(
                            i as int,
                            self.records[i as int]@,
                        ));
                        lemma_records_map_update(before, i as int, self.records[i as int]@);
                    }
                }
            },
            WorkerEvent::JobError { task_id: Some(id), task_kind: Some(kind), job_id, error, .. } => {
                if parse_task_kind(kind.as_str()).is_none() {
                    return ;
                }
                if let Some(i) = find_first(&self.records, id.as_str()) {
                    self.records[i].record_error(job_id.as_str(), error.clone());
                    proof {
                        assert(task_records(self.records@) =~= before.update(
                            i as int,
                            self.records[i as int]@,
                        ));
                        lemma_records_map_update(before, i as int, self.records[i as int]@);
                    }
                }
            },
            WorkerEvent::JobLog { task_id: Some(id), task_kind: Some(kind), job_id, message, .. } => {
                if parse_task_kind(kind.as_str()).is_none() {
                    return ;
                }
                if let Some(i) = find_first(&self.records, id.as_str()) {
                    self.records[i].record_log(job_id.as_str(), message.clone());
                    proof {
                        assert(task_records(self.records@) =~= before.update(
                            i as int,
                            self.records[i as int]@,
                        ));
                        lemma_records_map_update(before, i as int, self.records[i as int]@);
                    }
                }
            },
            WorkerEvent::TaskDone { task_id, task_kind, summary } => {
                if parse_task_kind(task_kind.as_str()).is_none() {
                    return ;
                }
                if let Some(i) = find_first(&self.records, task_id.as_str()) {
                    self.records[i].finish(*summary);
                    proof {
                        assert(task_records(self.records@) =~= before.update(
                            i as int,
                            self.records[i as int]@,
                        ));
                        lemma_records_map_update(before, i as int, self.records[i as int]@);
                    }
                }
            },
            _ => {},
        }
    }
}

/// The shared state of the controlling application: the batches, the tasks
/// and the queue of the running worker, if there is one.
pub struct AppState {
    pub batches: BatchStore,
    pub tasks: TaskStore,
    pub worker_sender: Option<WorkerSender>,
}

impl AppState {
    /// A state without a record and without a worker.
    pub fn new() -> (r: Self)
        ensures
            r.batches@ == Map::<Seq<char>, RecordModel>::empty(),
            r.tasks@ == Map::<Seq<char>, RecordModel>::empty(),
            r.worker_sender is None,
    {
        AppState { batches: BatchStore::new(), tasks: TaskStore::new(), worker_sender: None }
    }

    /// Puts a batch under its id, in place of the one that was there.
    pub fn insert_batch(&mut self, batch: BatchState)
        ensures
            final(self).batches@ == old(self).batches@.insert(batch.batch_id@, batch@),
            final(self).tasks == old(self).tasks,
            final(self).worker_sender == old(self).worker_sender,
    {
        self.batches.insert(batch);
    }

    /// A copy of the batch with the given id, if there is one.
    pub fn get_batch(&self, batch_id: &str) -> (r: Option<BatchState>)
        ensures
            r is Some <==> self.batches@.dom().contains(batch_id@),
            r matches Some(batch) ==> batch@ == self.batches@[batch_id@],
    {
        self.batches.get(batch_id)
    }

    /// Takes the queue of the worker that has been started.
    pub fn set_worker_sender(&mut self, sender: WorkerSender)
        ensures
            final(self).worker_sender == Some(sender),
            final(self).batches == old(self).batches,
            final(self).tasks == old(self).tasks,
    {
        self.worker_sender = Some(sender);
    }

    /// Puts a task under its id, in place of the one that was there.
    pub fn insert_task(&mut self, task: TaskState)
        ensures
            final(self).tasks@ == old(self).tasks@.insert(task.task_id@, task@),
            final(self).batches == old(self).batches,
            final(self).worker_sender == old(self).worker_sender,
    {
        self.tasks.insert(task);
    }

    /// A copy of the task with the given id, if there is one.
    pub fn get_task(&self, task_id: &str) -> (r: Option<TaskState>)
        ensures
            r is Some <==> self.tasks@.dom().contains(task_id@),
            r matches Some(task) ==> task@ == self.tasks@[task_id@],
    {
        self.tasks.get(task_id)
    }

    /// Forgets the queue of the worker.
    pub fn clear_worker_sender(&mut self)
        ensures
            final(self).worker_sender is None,
            final(self).batches == old(self).batches,
            final(self).tasks == old(self).tasks,
    {
        self.worker_sender = None;
    }

    /// A handle on the queue of the running worker, if there is one.
    pub fn worker_sender(&self) -> (r: Option<WorkerSender>)
        ensures
            r is Some <==> self.worker_sender is Some,
    {
        match &self.worker_sender {
            Some(sender) => Some(clone_sender(sender)),
            None => None,
        }
    }

    /// Applies one event of the worker: to the batch it names, then to the
    /// task it names. The worker's queue is not touched.
    pub fn apply_worker_event(&mut self, event: &WorkerEvent)
        ensures
            final(self).batches@ == store_after(old(self).batches@, batch_step(event@)),
            final(self).tasks@ == store_after(old(self).tasks@, task_step(event@)),
            final(self).worker_sender == old(self).worker_sender,
    {
        self.batches.apply_worker_event(event);
        self.tasks.apply_worker_event(event);
    }
}

/// A job is never above 100 percent after an event: progress is stored as the
/// rounded percentage of the reading, and a finished job stands at 100.
pub proof fn lemma_progress_stays_in_range(record: RecordModel, event: WorkerEventModel, i: int)
    requires
        0 <= i < record.jobs.len(),
        record.jobs[i].progress_pct <= 100,
    ensures
        batch_step(event) matches Some(t) ==> record_after(record, t.step).jobs[i].progress_pct
            <= 100,
        task_step(event) matches Some(t) ==> record_after(record, t.step).jobs[i].progress_pct
            <= 100,
{
    if let WorkerEventModel::JobProgress { progress_pct, .. } = event {
        lemma_percent_in_range(progress_pct.bits);
    }
    lemma_position_is_first(job_ids(record.jobs), job_of(event));
}

/// The job id that an event names; empty where it names none.
pub open spec fn job_of(event: WorkerEventModel) -> Seq<char> {
    match event {
        WorkerEventModel::JobProgress { job_id, .. } => job_id,
        WorkerEventModel::JobDone { job_id, .. } => job_id,
        WorkerEventModel::JobError { job_id, .. } => job_id,
        WorkerEventModel::JobLog { job_id, .. } => job_id,
        _ => Seq::empty(),
    }
}

/// Progress is stored as the rounded percentage of the reading: after a
/// progress event for a job that the record holds, that job runs at
/// `percent_of` the reading.
pub proof fn lemma_progress_is_stored(record: RecordModel, job_id: Seq<char>, bits: u64)
    requires
        position(job_ids(record.jobs), job_id) is Some,
    ensures
        ({
            let i = position(job_ids(record.jobs), job_id).unwrap();
            let after = record_after(
                record,
                RecordStep::Job(job_id, JobChange::Progress(percent_of(bits))),
            );
            &&& after.jobs[i].progress_pct == percent_of(bits)
            &&& after.jobs[i].progress_pct <= 100
            &&& after.jobs[i].phase is Running
        }),
{
    lemma_percent_in_range(bits);
    lemma_position_is_first(job_ids(record.jobs), job_id);
}

/// No step changes which jobs a record holds: its id, its kind, and the ids
/// of its jobs in their order stay as they were. So job ids that were
/// distinct stay distinct.
pub proof fn lemma_step_keeps_jobs(record: RecordModel, step: RecordStep)
    ensures
        record_after(record, step).id == record.id,
        record_after(record, step).kind == record.kind,
        job_ids(record_after(record, step).jobs) == job_ids(record.jobs),
{
    match step {
        RecordStep::Job(job_id, change) => {
            lemma_position_is_first(job_ids(record.jobs), job_id);
        },
        RecordStep::Finished(_) => {},
    }
    assert(job_ids(record_after(record, step).jobs) =~= job_ids(record.jobs));
}

/// A change to one job leaves every other job of the record as it was.
pub proof fn lemma_job_change_is_local(
    record: RecordModel,
    job_id: Seq<char>,
    change: JobChange,
    k: int,
)
    requires
        0 <= k < record.jobs.len(),
        position(job_ids(record.jobs), job_id) != Some(k),
    ensures
        record_after(record, RecordStep::Job(job_id, change)).jobs[k] == record.jobs[k],
{
    lemma_position_is_first(job_ids(record.jobs), job_id);
}

/// A record ends once: after it has ended, no step changes its status or its
/// summary.
pub proof fn lemma_ended_record_stays(record: RecordModel, step: RecordStep)
    requires
        record.phase.is_terminal(),
    ensures
        record_after(record, step).phase == record.phase,
        record_after(record, step).summary == record.summary,
{
}

/// The end of a record that had not ended leaves it ended, with the counts
/// as its summary, cancelled exactly where a job was cancelled, and every
/// job ended: one that waited is cancelled, one that ran has failed with an
/// error.
pub proof fn lemma_end_of_record(record: RecordModel, tally: Tally)
    requires
        !record.phase.is_terminal(),
    ensures
        ({
            let after = record_after(record, RecordStep::Finished(tally));
            &&& after.phase.is_terminal()
            &&& after.phase is Cancelled <==> tally.cancelled > 0
            &&& after.summary == Some(tally)
            &&& after.jobs.len() == record.jobs.len()
            &&& forall|i: int|
                0 <= i < record.jobs.len() ==> {
                    &&& (#[trigger] after.jobs[i]).phase.is_terminal()
                    &&& record.jobs[i].phase is Queued ==> after.jobs[i].phase is Cancelled
                    &&& record.jobs[i].phase is Running ==> after.jobs[i].phase is Failed
                        && after.jobs[i].error is Some
                }
        }),
{
}

/// A log line is appended to the log of its job, behind what was there: two
/// lines for one job stand in the order in which they came.
pub proof fn lemma_log_lines_keep_order(
    record: RecordModel,
    job_id: Seq<char>,
    first: Seq<char>,
    second: Seq<char>,
)
    requires
        position(job_ids(record.jobs), job_id) is Some,
    ensures
        ({
            let i = position(job_ids(record.jobs), job_id).unwrap();
            let once = record_after(record, RecordStep::Job(job_id, JobChange::Logged(first)));
            let twice = record_after(once, RecordStep::Job(job_id, JobChange::Logged(second)));
            &&& once.jobs[i].logs == record.jobs[i].logs.push(first)
            &&& twice.jobs[i].logs == record.jobs[i].logs.push(first).push(second)
            &&& twice.phase == record.phase
        }),
{
    let once = record_after(record, RecordStep::Job(job_id, JobChange::Logged(first)));
    lemma_position_is_first(job_ids(record.jobs), job_id);
    lemma_step_keeps_jobs(record, RecordStep::Job(job_id, JobChange::Logged(first)));
    lemma_position_is_first(job_ids(once.jobs), job_id);
}

/// A log line never changes a batch: no log event is a step on the batches.
pub proof fn lemma_log_leaves_batches(event: WorkerEventModel, store: Map<Seq<char>, RecordModel>)
    requires
        event is JobLog,
    ensures
        batch_step(event) is None,
        store_after(store, batch_step(event)) == store,
{
}

/// An event for a record that the store does not hold changes nothing, and
/// so does a change to a job that its record does not hold.
pub proof fn lemma_unknown_ids_are_ignored(
    store: Map<Seq<char>, RecordModel>,
    target: Target,
    record: RecordModel,
    job_id: Seq<char>,
    change: JobChange,
)
    ensures
        !store.dom().contains(target.id) ==> store_after(store, Some(target)) == store,
        position(job_ids(record.jobs), job_id) is None ==> record_after(
            record,
            RecordStep::Job(job_id, change),
        ).jobs == record.jobs,
{
}

/// No two jobs of the record have one id.
pub open spec fn has_distinct_job_ids(record: RecordModel) -> bool {
    forall|i: int, j: int|
        0 <= i < j < record.jobs.len() ==> record.jobs[i].job_id != record.jobs[j].job_id
}

/// Jobs that have distinct ids keep them: no step makes two jobs share an id.
pub proof fn lemma_job_ids_stay_distinct(record: RecordModel, step: RecordStep)
    requires
        has_distinct_job_ids(record),
    ensures
        has_distinct_job_ids(record_after(record, step)),
{
    lemma_step_keeps_jobs(record, step);
    let after = record_after(record, step);
    assert forall|i: int, j: int| 0 <= i < j < after.jobs.len() implies after.jobs[i].job_id
        != after.jobs[j].job_id by {
        assert(job_ids(after.jobs)[i] == job_ids(record.jobs)[i]);
        assert(job_ids(after.jobs)[j] == job_ids(record.jobs)[j]);
    }
}

/// A record lives as long as the store: no event removes one or adds one, and
/// each record stays under its id.
pub proof fn lemma_records_stay(store: Map<Seq<char>, RecordModel>, target: Option<Target>)
    requires
        forall|id: Seq<char>| store.dom().contains(id) ==> (#[trigger] store[id]).id == id,
    ensures
        store_after(store, target).dom() == store.dom(),
        forall|id: Seq<char>|
            store.dom().contains(id) ==> (#[trigger] store_after(store, target)[id]).id == id,
{
    if let Some(t) = target {
        if store.dom().contains(t.id) {
            lemma_step_keeps_jobs(store[t.id], t.step);
            assert(store_after(store, target).dom() =~= store.dom());
        }
    }
}

/// A record after a run of steps, one after the other.
pub open spec fn record_after_all(record: RecordModel, steps: Seq<RecordStep>) -> RecordModel
    decreases steps.len(),
{
    if steps.len() == 0 {
        record
    } else {
        record_after(record_after_all(record, steps.drop_last()), steps.last())
    }
}

/// Whatever comes after the end of a record, it stays ended as it was: its
/// status and its summary are those of its end, and it holds the jobs it
/// held.
pub proof fn lemma_end_is_final(record: RecordModel, steps: Seq<RecordStep>)
    requires
        record.phase.is_terminal(),
    ensures
        record_after_all(record, steps).phase == record.phase,
        record_after_all(record, steps).summary == record.summary,
        record_after_all(record, steps).id == record.id,
        job_ids(record_after_all(record, steps).jobs) == job_ids(record.jobs),
    decreases steps.len(),
{
    if steps.len() > 0 {
        lemma_end_is_final(record, steps.drop_last());
        lemma_step_keeps_jobs(record_after_all(record, steps.drop_last()), steps.last());
    }
}

/// The records of a store after a run of events, where each event is given
/// by what it does: `batch_step` of it for the batches, `task_step` of it for
/// the tasks.
pub open spec fn store_after_all(
    store: Map<Seq<char>, RecordModel>,
    targets: Seq<Option<Target>>,
) -> Map<Seq<char>, RecordModel>
    decreases targets.len(),
{
    if targets.len() == 0 {
        store
    } else {
        store_after(store_after_all(store, targets.drop_last()), targets.last())
    }
}

/// Whatever events come in, a record that has ended stays in its store, ended
/// as it was.
pub proof fn lemma_ended_record_stays_in_store(
    store: Map<Seq<char>, RecordModel>,
    targets: Seq<Option<Target>>,
    id: Seq<char>,
)
    requires
        store.dom().contains(id),
        store[id].phase.is_terminal(),
    ensures
        store_after_all(store, targets).dom().contains(id),
        store_after_all(store, targets)[id].phase == store[id].phase,
        store_after_all(store, targets)[id].summary == store[id].summary,
    decreases targets.len(),
{
    if targets.len() > 0 {
        lemma_ended_record_stays_in_store(store, targets.drop_last(), id);
    }
}

} // verus!
