//! The decisions of the supervisor of the worker process: what to start it
//! with, what to tell the listeners, and what each line of the worker does.
//! The process, its pipes and the waiting belong to the caller.

use vstd::prelude::*;
use crate::channel::{clone_sender, sender_is_closed, WorkerSender};
use crate::decode::{decode_error_text, decoded, DecodeError, DecodeErrorModel};
use crate::json::json_document;
use crate::paths::{joined, parent_of, path_join, path_parent};
use crate::protocol::{
    batch_event_opt, batch_notice, command_line, parse_worker_event, task_event_opt, task_notice,
    to_frontend_batch_event, to_frontend_task_event, WorkerCommand, WorkerEvent, WorkerEventModel,
};
use crate::runtime::RuntimePaths;
use crate::state::{batch_step, store_after, task_step, BatchStore, TaskStore};
use crate::text::{concat2, concat3};
use crate::types::{
    texts, BatchEvent, BatchEventModel, RecordModel, TaskEvent, TaskEventModel, WorkerStatusKind,
};

verus! {

/// What the listeners are told: at most one notification on the feed of
/// batches and one on the feed of tasks.
#[derive(Debug, PartialEq)]
pub struct Notices {
    pub batch: Option<BatchEvent>,
    pub task: Option<TaskEvent>,
}

/// The model of a pair of notifications.
pub struct NoticesModel {
    pub batch: Option<BatchEventModel>,
    pub task: Option<TaskEventModel>,
}

impl View for Notices {
    type V = NoticesModel;

    open spec fn view(&self) -> NoticesModel {
        NoticesModel { batch: batch_event_opt(self.batch), task: task_event_opt(self.task) }
    }
}

/// A worker status with the given message on the feed of batches, and one
/// with the message for tasks on the feed of tasks.
pub open spec fn status_notices(
    status: WorkerStatusKind,
    batch_message: Seq<char>,
    task_message: Seq<char>,
) -> NoticesModel {
    NoticesModel {
        batch: Some(BatchEventModel::WorkerStatus { status, message: batch_message }),
        task: Some(TaskEventModel::WorkerStatus { status, message: task_message }),
    }
}

/// A worker status with one message on both feeds.
fn status_on_both(status: WorkerStatusKind, message: &str) -> (r: Notices)
    ensures
        r@ == status_notices(status, message@, message@),
{
    Notices {
        batch: Some(BatchEvent::worker_status(status, message)),
        task: Some(TaskEvent::worker_status(status, message)),
    }
}

/// What the listeners of batches are told when a batch has been taken in and
/// its worker is still to be made ready.
pub fn preparing_notices() -> (r: Notices)
    ensures
        r@ == (NoticesModel {
            batch: Some(
                BatchEventModel::WorkerStatus {
                    status: WorkerStatusKind::Starting,
                    message: "Preparing runtime and worker..."@,
                },
            ),
            task: None,
        }),
{
    Notices {
        batch: Some(
            BatchEvent::worker_status(
                WorkerStatusKind::Starting,
                "Preparing runtime and worker...",
            ),
        ),
        task: None,
    }
}

/// What the listeners are told before a worker is started.
pub fn starting_notices() -> (r: Notices)
    ensures
        r@ == status_notices(
            WorkerStatusKind::Starting,
            "Starting persistent Python worker..."@,
            "Starting persistent Python worker..."@,
        ),
{
    status_on_both(WorkerStatusKind::Starting, "Starting persistent Python worker...")
}

/// What the listeners are told once the worker runs.
pub fn ready_notices() -> (r: Notices)
    ensures
        r@ == status_notices(WorkerStatusKind::Ready, "Worker ready."@, "Worker ready."@),
{
    status_on_both(WorkerStatusKind::Ready, "Worker ready.")
}

/// A worker has to be started unless there is a queue whose receiving end
/// is still there.
pub fn needs_worker_start(has_queue: bool, queue_closed: bool) -> (r: bool)
    ensures
        r == (!has_queue || queue_closed),
{
    !has_queue || queue_closed
}

/// The queue of the running worker, for reuse: a handle on it where there
/// is one whose receiving end is still there. Without one, a worker has to
/// be started.
pub fn live_worker_sender(slot: &Option<WorkerSender>) -> (r: Option<WorkerSender>)
    ensures
        slot is None ==> r is None,
{
    match slot {
        Some(sender) => {
            if needs_worker_start(true, sender_is_closed(sender)) {
                None
            } else {
                Some(clone_sender(sender))
            }
        },
        None => None,
    }
}

/// One variable of the environment of the worker process.
#[derive(Debug, PartialEq)]
pub struct EnvVar {
    pub name: String,
    pub value: String,
}

/// The model of a variable of the environment.
pub struct EnvVarModel {
    pub name: Seq<char>,
    pub value: Seq<char>,
}

impl View for EnvVar {
    type V = EnvVarModel;

    open spec fn view(&self) -> EnvVarModel {
        EnvVarModel { name: self.name@, value: self.value@ }
    }
}

/// The models of a list of variables, in their order.
pub open spec fn env_vars(vars: Seq<EnvVar>) -> Seq<EnvVarModel> {
    Seq::new(vars.len(), |i: int| vars[i]@)
}

/// How the worker process is started: the program, the script it runs, and
/// the variables that are set for it.
#[derive(Debug, PartialEq)]
pub struct WorkerLaunch {
    pub program: String,
    pub script: String,
    pub env: Vec<EnvVar>,
}

/// A search path with one more directory in front: the directory alone where
/// there was no search path or an empty one.
pub open spec fn prepended(directory: Seq<char>, existing: Option<Seq<char>>) -> Seq<char> {
    match existing {
        Some(rest) => if rest.len() > 0 {
            directory + seq![':'] + rest
        } else {
            directory
        },
        None => directory,
    }
}

/// A search path with one more directory in front.
pub fn prepend_to_search_path(directory: &str, existing: Option<&str>) -> (r: String)
    ensures
        r@ == prepended(directory@, crate::types::text_opt_str(existing)),
{
    match existing {
        Some(rest) => {
            if rest.unicode_len() > 0 {
                proof {
                    reveal_strlit(":");
                    assert(":"@ =~= seq![':']);
                }
                concat3(directory, ":", rest)
            } else {
                directory.to_owned()
            }
        },
        None => directory.to_owned(),
    }
}

/// The variables that are set for the worker, given the directory of its
/// sources, the directory of the runtime's programs, and the search paths of
/// the caller.
pub open spec fn launch_env(
    runtime: RuntimePaths,
    source_dir: Seq<char>,
    bin_dir: Seq<char>,
    python_path: Option<Seq<char>>,
    path: Option<Seq<char>>,
) -> Seq<EnvVarModel> {
    seq![
        EnvVarModel { name: "PYTHONUNBUFFERED"@, value: "1"@ },
        EnvVarModel { name: "PYTHONPATH"@, value: prepended(source_dir, python_path) },
        EnvVarModel { name: "PATH"@, value: prepended(bin_dir, path) },
        EnvVarModel { name: "AIYAAL_DEMUCS_PATH"@, value: joined(bin_dir, "demucs"@) },
        EnvVarModel { name: "AIYAAL_FFMPEG_PATH"@, value: runtime.ffmpeg_executable@ },
        EnvVarModel { name: "AIYAAL_YAP_PATH"@, value: runtime.yap_executable@ },
    ]
}

/// How to start the worker in the given runtime: the interpreter runs the
/// worker script, unbuffered, with the `src` directory beside the script in
/// front of the module search path, the directory of the interpreter in
/// front of the program search path, and the tools of the runtime named in
/// variables of their own. An error comes back where the script or the
/// interpreter has no parent directory.
pub fn plan_worker_launch(
    runtime: &RuntimePaths,
    python_path: Option<&str>,
    path: Option<&str>,
) -> (r: Result<WorkerLaunch, String>)
    ensures
        match parent_of(runtime.worker_script@) {
            None => r matches Err(message) && message@
                == "Failed to resolve worker source directory."@,
            Some(script_dir) => match parent_of(runtime.python_executable@) {
                None => r matches Err(message) && message@
                    == "Failed to resolve Python venv bin directory."@,
                Some(bin_dir) => {
                    &&& r matches Ok(launch)
                    &&& launch.program@ == runtime.python_executable@
                    &&& launch.script@ == runtime.worker_script@
                    &&& env_vars(launch.env@) == launch_env(
                        *runtime,
                        joined(script_dir, "src"@),
                        bin_dir,
                        crate::types::text_opt_str(python_path),
                        crate::types::text_opt_str(path),
                    )
                },
            },
        },
{
    let script_dir = match path_parent(runtime.worker_script.as_str()) {
        Some(parent) => parent,
        None => {
            return Err("Failed to resolve worker source directory.".to_owned());
        },
    };
    let source_dir = path_join(script_dir.as_str(), "src");
    let bin_dir = match path_parent(runtime.python_executable.as_str()) {
        Some(parent) => parent,
        None => {
            return Err("Failed to resolve Python venv bin directory.".to_owned());
        },
    };
    let mut env: Vec<EnvVar> = Vec::new();
    env.push(EnvVar { name: "PYTHONUNBUFFERED".to_owned(), value: "1".to_owned() });
    env.push(
        EnvVar {
            name: "PYTHONPATH".to_owned(),
            value: prepend_to_search_path(source_dir.as_str(), python_path),
        },
    );
    env.push(
        EnvVar { name: "PATH".to_owned(), value: prepend_to_search_path(bin_dir.as_str(), path) },
    );
    env.push(
        EnvVar {
            name: "AIYAAL_DEMUCS_PATH".to_owned(),
            value: path_join(bin_dir.as_str(), "demucs"),
        },
    );
    env.push(
        EnvVar {
            name: "AIYAAL_FFMPEG_PATH".to_owned(),
            value: runtime.ffmpeg_executable.clone(),
        },
    );
    env.push(
        EnvVar { name: "AIYAAL_YAP_PATH".to_owned(), value: runtime.yap_executable.clone() },
    );
    assert(env_vars(env@) =~= launch_env(
        *runtime,
        joined(script_dir@, "src"@),
        bin_dir@,
        crate::types::text_opt_str(python_path),
        crate::types::text_opt_str(path),
    ));
    Ok(
        WorkerLaunch {
            program: runtime.python_executable.clone(),
            script: runtime.worker_script.clone(),
            env,
        },
    )
}

/// The relay of commands from the queue to the input of the worker. It
/// writes until a write fails, and nothing after that.
#[derive(Debug, PartialEq)]
pub struct CommandRelay {
    pub stopped: bool,
}

/// What the relay has the caller do next.
#[derive(Debug, PartialEq)]
pub enum RelayAction {
    /// Write this line to the input of the worker.
    Write(String),
    /// Tell the listeners.
    Report(Notices),
    /// Nothing: the relay has stopped.
    Idle,
}

/// The model of an action of the relay.
pub enum RelayActionModel {
    Write(Seq<char>),
    Report(NoticesModel),
    Idle,
}

impl View for RelayAction {
    type V = RelayActionModel;

    open spec fn view(&self) -> RelayActionModel {
        match self {
            RelayAction::Write(line) => RelayActionModel::Write(line@),
            RelayAction::Report(notices) => RelayActionModel::Report(notices@),
            RelayAction::Idle => RelayActionModel::Idle,
        }
    }
}

impl CommandRelay {
    /// A relay that writes.
    pub fn new() -> (r: Self)
        ensures
            !r.stopped,
    {
        CommandRelay { stopped: false }
    }

    /// The next command from the queue: its line is to be written. A relay
    /// that has stopped does nothing.
    pub fn command(&mut self, command: &WorkerCommand) -> (r: RelayAction)
        ensures
            final(self).stopped == old(self).stopped,
            old(self).stopped ==> r@ is Idle,
            !old(self).stopped ==> r@ == RelayActionModel::Write(command_line(command@)),
    {
        if self.stopped {
            return RelayAction::Idle;
        }
        match command.to_json_line() {
            Ok(line) => RelayAction::Write(line),
            Err(message) => RelayAction::Report(
                status_on_both(WorkerStatusKind::Error, message.as_str()),
            ),
        }
    }

    /// A write to the worker has failed: the listeners are told, once, and
    /// the relay stops for good.
    pub fn write_failed(&mut self, error: &str) -> (r: RelayAction)
        ensures
            final(self).stopped,
            old(self).stopped ==> r@ is Idle,
            !old(self).stopped ==> r@ == RelayActionModel::Report(
                status_notices(
                    WorkerStatusKind::Error,
                    "Failed writing to worker stdin: "@ + error@,
                    "Failed writing to worker stdin: "@ + error@,
                ),
            ),
    {
        if self.stopped {
            return RelayAction::Idle;
        }
        self.stopped = true;
        let message = concat2("Failed writing to worker stdin: ", error);
        RelayAction::Report(status_on_both(WorkerStatusKind::Error, message.as_str()))
    }
}

/// What the listeners are told of an event: what it means for batches and
/// what it means for tasks, each if it means anything there.
pub fn event_notices(event: &WorkerEvent) -> (r: Notices)
    ensures
        r@.batch == batch_notice(event@),
        r@.task == task_notice(event@),
{
    Notices { batch: to_frontend_batch_event(event), task: to_frontend_task_event(event) }
}

/// What the listeners are told of a line that is no event: the error, on both
/// feeds.
pub fn decode_failure_notices(error: &DecodeError) -> (r: Notices)
    ensures
        r@ == status_notices(
            WorkerStatusKind::Error,
            decode_error_text(error@),
            decode_error_text(error@),
        ),
{
    let message = error.message();
    status_on_both(WorkerStatusKind::Error, message.as_str())
}

/// The event that a line of the worker stands for, if it stands for one.
pub open spec fn line_event(line: Seq<char>) -> Option<WorkerEventModel> {
    match json_document(line) {
        Some(doc) => match decoded(doc) {
            Ok(event) => Some(event),
            Err(_) => None,
        },
        None => None,
    }
}

/// The batches after a line of the worker: after its event, where it is one,
/// and as they were, where it is none.
pub open spec fn batches_after_line(store: Map<Seq<char>, RecordModel>, line: Seq<char>) -> Map<
    Seq<char>,
    RecordModel,
> {
    match line_event(line) {
        Some(event) => store_after(store, batch_step(event)),
        None => store,
    }
}

/// The tasks after a line of the worker: after its event, where it is one,
/// and as they were, where it is none.
pub open spec fn tasks_after_line(store: Map<Seq<char>, RecordModel>, line: Seq<char>) -> Map<
    Seq<char>,
    RecordModel,
> {
    match line_event(line) {
        Some(event) => store_after(store, task_step(event)),
        None => store,
    }
}

/// The batches after a run of lines, one after the other.
pub open spec fn batches_after_lines(
    store: Map<Seq<char>, RecordModel>,
    lines: Seq<Seq<char>>,
) -> Map<Seq<char>, RecordModel>
    decreases lines.len(),
{
    if lines.len() == 0 {
        store
    } else {
        batches_after_line(batches_after_lines(store, lines.drop_last()), lines.last())
    }
}

/// The tasks after a run of lines, one after the other.
pub open spec fn tasks_after_lines(
    store: Map<Seq<char>, RecordModel>,
    lines: Seq<Seq<char>>,
) -> Map<Seq<char>, RecordModel>
    decreases lines.len(),
{
    if lines.len() == 0 {
        store
    } else {
        tasks_after_line(tasks_after_lines(store, lines.drop_last()), lines.last())
    }
}

/// What the listeners are told of a line: of an event, what it means for
/// batches and for tasks; of a line that is no event, the error on both
/// feeds.
pub open spec fn tells_of_line(line: Seq<char>, notices: NoticesModel) -> bool {
    match json_document(line) {
        None => exists|message: Seq<char>|
            notices == status_notices(
                WorkerStatusKind::Error,
                decode_error_text(DecodeErrorModel::Syntax(message)),
                decode_error_text(DecodeErrorModel::Syntax(message)),
            ),
        Some(doc) => match decoded(doc) {
            Err(error) => notices == status_notices(
                WorkerStatusKind::Error,
                decode_error_text(error),
                decode_error_text(error),
            ),
            Ok(event) => notices.batch == batch_notice(event) && notices.task == task_notice(
                event,
            ),
        },
    }
}

/// Takes in one line of the output of the worker. A line that is an event is
/// applied to the batches and to the tasks, and the listeners are told what
/// it means for each. A line that is no event leaves both as they were, and
/// the listeners are told of the error on both feeds. Either way the next
/// line can be taken in.
pub fn ingest_line(batches: &mut BatchStore, tasks: &mut TaskStore, line: &str) -> (r: Notices)
    ensures
        final(batches)@ == batches_after_line(old(batches)@, line@),
        final(tasks)@ == tasks_after_line(old(tasks)@, line@),
        tells_of_line(line@, r@),
{
    match parse_worker_event(line) {
        Ok(event) => {
            batches.apply_worker_event(&event);
            tasks.apply_worker_event(&event);
            event_notices(&event)
        },
        Err(error) => {
            proof {
                if error is Syntax {
                    assert(error@ == DecodeErrorModel::Syntax(error->Syntax_0@));
                }
            }
            decode_failure_notices(&error)
        },
    }
}

/// Takes in the lines of the output of the worker, one after the other, and
/// gives what the listeners are told of each. No line ends the run: after a
/// line that is no event the next is taken in like every other.
pub fn ingest_lines(batches: &mut BatchStore, tasks: &mut TaskStore, lines: &[String]) -> (r: Vec<
    Notices,
>)
    ensures
        r.len() == lines@.len(),
        final(batches)@ == batches_after_lines(old(batches)@, texts(lines@)),
        final(tasks)@ == tasks_after_lines(old(tasks)@, texts(lines@)),
        forall|i: int| 0 <= i < r.len() ==> tells_of_line(lines@[i]@, (#[trigger] r[i])@),
{
    let ghost all = texts(lines@);
    let mut told: Vec<Notices> = Vec::new();
    let mut i: usize = 0;
    while i < lines.len()
        invariant
            i <= lines@.len(),
            told.len() == i,
            all == texts(lines@),
            batches@ == batches_after_lines(old(batches)@, all.take(i as int)),
            tasks@ == tasks_after_lines(old(tasks)@, all.take(i as int)),
            forall|k: int| 0 <= k < i ==> tells_of_line(lines@[k]@, (#[trigger] told[k])@),
        decreases lines@.len() - i,
    {
        assert(all.take(i as int + 1).drop_last() =~= all.take(i as int));
        let notices = ingest_line(batches, tasks, lines[i].as_str());
        told.push(notices);
        i = i + 1;
    }
    assert(all.take(lines@.len() as int) =~= all);
    told
}

/// A line that is no event changes nothing of what the lines around it do:
/// the records after a run of lines are those after the run without that
/// line.
pub proof fn lemma_ingestion_goes_on(
    store: Map<Seq<char>, RecordModel>,
    before: Seq<Seq<char>>,
    bad: Seq<char>,
    after: Seq<Seq<char>>,
)
    requires
        line_event(bad) is None,
    ensures
        batches_after_lines(store, before.push(bad) + after) == batches_after_lines(
            store,
            before + after,
        ),
        tasks_after_lines(store, before.push(bad) + after) == tasks_after_lines(
            store,
            before + after,
        ),
    decreases after.len(),
{
    if after.len() == 0 {
        assert(before.push(bad) + after =~= before.push(bad));
        assert(before + after =~= before);
        assert(before.push(bad).drop_last() =~= before);
    } else {
        lemma_ingestion_goes_on(store, before, bad, after.drop_last());
        assert((before.push(bad) + after).drop_last() =~= before.push(bad) + after.drop_last());
        assert((before + after).drop_last() =~= before + after.drop_last());
    }
}

/// What the listeners are told of one line of the diagnostic stream of the
/// worker: the line, as an error, on both feeds.
pub fn diagnostic_notices(line: &str) -> (r: Notices)
    ensures
        r@ == status_notices(
            WorkerStatusKind::Error,
            "worker stderr: "@ + line@,
            "worker stderr: "@ + line@,
        ),
{
    let message = concat2("worker stderr: ", line);
    status_on_both(WorkerStatusKind::Error, message.as_str())
}

/// How the wait for the end of the worker process came out.
#[derive(Debug, PartialEq)]
pub enum WorkerExit {
    /// The process has ended, with this status.
    Exited(String),
    /// The wait itself failed, with this error.
    WaitFailed(String),
}

/// What is said of the end of the worker on the feed of batches.
pub open spec fn exit_message(exit: WorkerExit) -> Seq<char> {
    match exit {
        WorkerExit::Exited(status) => "Worker process exited unexpectedly: "@ + status@,
        WorkerExit::WaitFailed(error) => "Failed waiting on worker process: "@ + error@,
    }
}

/// What the listeners are told of the end of the worker: the error, in full
/// on the feed of batches and in short on the feed of tasks.
pub fn worker_exit_notices(exit: &WorkerExit) -> (r: Notices)
    ensures
        r@ == status_notices(
            WorkerStatusKind::Error,
            exit_message(*exit),
            "Worker exited unexpectedly."@,
        ),
{
    let message = match exit {
        WorkerExit::Exited(status) => concat2(
            "Worker process exited unexpectedly: ",
            status.as_str(),
        ),
        WorkerExit::WaitFailed(error) => concat2(
            "Failed waiting on worker process: ",
            error.as_str(),
        ),
    };
    Notices {
        batch: Some(BatchEvent::worker_status(WorkerStatusKind::Error, message.as_str())),
        task: Some(
            TaskEvent::worker_status(WorkerStatusKind::Error, "Worker exited unexpectedly."),
        ),
    }
}

/// The worker process has ended: its queue is forgotten, so that the next
/// submission starts a new worker, and the listeners are told of the error
/// on both feeds.
pub fn worker_exited(slot: &mut Option<WorkerSender>, exit: &WorkerExit) -> (r: Notices)
    ensures
        *final(slot) is None,
        r@ == status_notices(
            WorkerStatusKind::Error,
            exit_message(*exit),
            "Worker exited unexpectedly."@,
        ),
{
    *slot = None;
    worker_exit_notices(exit)
}

} // verus!
