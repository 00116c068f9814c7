//! What the controlling application asks for: the checks on a request, the
//! job records of a submission, and the command that goes to the worker.

use vstd::prelude::*;
use crate::channel::{send_command, WorkerSender};
use crate::ids::{file_name_of, fresh_id, job_id_of, to_file_name, to_job_id};
use crate::paths::{extension_of, path_extension, trim, trimmed};
use crate::protocol::{clone_command, WorkerCommand, WorkerCommandModel};
use crate::state::{BatchStore, TaskStore};
use crate::text::{ascii_lowered, concat2, str_eq, to_ascii_lower};
use crate::types::{
    batch_jobs, clone_texts, cut_ranges, moderation_rules, task_jobs, text_opt, texts,
    BatchStartedResponse, StartBatchRequest, StartFlagBatchRequest,
    StartTranscriptionBatchRequest,
    BatchState, BatchStatus, CancelAck, CancelBatchRequest, CancelTaskRequest,
    CutJobStartedResponse, JobModel, JobPhase, JobRecord, JobStatus, ModerationRule,
    ModerationRuleModel, ModerationSettings, ModerationSettingsModel, RecordModel, RecordPhase,
    StartCutJobRequest, TaskCancelAck, TaskJobRecord, TaskJobStatus, TaskKind, TaskState,
    TaskStatus,
};

verus! {

/// A batch is taken in for the output mode `audio_replaced_default` alone.
pub fn ensure_supported_output_mode(output_dir_mode: &str) -> (r: Result<(), String>)
    ensures
        r is Ok <==> output_dir_mode@ == "audio_replaced_default"@,
        r matches Err(message) ==> message@
            == "Unsupported output mode. Use audio_replaced_default."@,
{
    if !str_eq(output_dir_mode, "audio_replaced_default") {
        return Err("Unsupported output mode. Use audio_replaced_default.".to_owned());
    }
    Ok(())
}

/// A cut is taken in for the output mode `video_cleaned_default` alone.
pub fn ensure_supported_cut_output_mode(output_mode: &str) -> (r: Result<(), String>)
    ensures
        r is Ok <==> output_mode@ == "video_cleaned_default"@,
        r matches Err(message) ==> message@
            == "Unsupported cut output mode. Use video_cleaned_default."@,
{
    if !str_eq(output_mode, "video_cleaned_default") {
        return Err("Unsupported cut output mode. Use video_cleaned_default.".to_owned());
    }
    Ok(())
}

/// A batch or task is cancelled in the mode `stop_after_current` alone.
pub fn ensure_supported_cancel_mode(mode: &str) -> (r: Result<(), String>)
    ensures
        r is Ok <==> mode@ == "stop_after_current"@,
        r matches Err(message) ==> message@
            == "Unsupported cancellation mode. Use stop_after_current."@,
{
    if !str_eq(mode, "stop_after_current") {
        return Err("Unsupported cancellation mode. Use stop_after_current.".to_owned());
    }
    Ok(())
}

/// A transcription is taken in for the mode `auto` alone.
pub fn ensure_supported_yap_mode(yap_mode: &str) -> (r: Result<(), String>)
    ensures
        r is Ok <==> yap_mode@ == "auto"@,
        r matches Err(message) ==> message@ == "Unsupported yap mode. Use auto."@,
{
    if !str_eq(yap_mode, "auto") {
        return Err("Unsupported yap mode. Use auto.".to_owned());
    }
    Ok(())
}

/// An allowed extension as it is compared: without white space at its ends,
/// in lower case, and with a dot in front where it had none.
pub open spec fn normalized_extension(raw: Seq<char>) -> Seq<char> {
    let lowered = ascii_lowered(trimmed(raw));
    if lowered.len() > 0 && lowered[0] == '.' {
        lowered
    } else {
        seq!['.'] + lowered
    }
}

/// The extension of a path as it is compared: in lower case behind a dot;
/// empty where the path has no extension.
pub open spec fn dotted_extension(path: Seq<char>) -> Seq<char> {
    match extension_of(path) {
        Some(extension) => seq!['.'] + ascii_lowered(extension),
        None => Seq::empty(),
    }
}

/// The path has one of the allowed extensions.
pub open spec fn has_allowed_extension(path: Seq<char>, allowed: Seq<Seq<char>>) -> bool {
    exists|i: int|
        0 <= i < allowed.len() && #[trigger] normalized_extension(allowed[i]) == dotted_extension(
            path,
        )
}

/// The allowed extension in the form in which it is compared.
pub fn normalize_extension(raw: &str) -> (r: String)
    ensures
        r@ == normalized_extension(raw@),
{
    let lowered = to_ascii_lower(trim(raw));
    if lowered.as_str().unicode_len() > 0 && lowered.as_str().get_char(0) == '.' {
        lowered
    } else {
        proof {
            reveal_strlit(".");
            assert("."@ =~= seq!['.']);
        }
        concat2(".", lowered.as_str())
    }
}

/// The extension of the path, in the form in which it is compared, is among
/// the given extensions, which are in that form already.
pub fn has_extension_in(path: &str, normalized: &Vec<String>) -> (r: bool)
    ensures
        r == exists|i: int|
            0 <= i < normalized.len() && (#[trigger] normalized[i])@ == dotted_extension(path@),
{
    let extension = match path_extension(path) {
        Some(found) => {
            proof {
                reveal_strlit(".");
                assert("."@ =~= seq!['.']);
            }
            concat2(".", to_ascii_lower(found.as_str()).as_str())
        },
        None => String::new(),
    };
    let mut i: usize = 0;
    while i < normalized.len()
        invariant
            i <= normalized.len(),
            extension@ == dotted_extension(path@),
            forall|k: int| 0 <= k < i ==> (#[trigger] normalized[k])@ != dotted_extension(path@),
        decreases normalized.len() - i,
    {
        if str_eq(normalized[i].as_str(), extension.as_str()) {
            return true;
        }
        i = i + 1;
    }
    false
}

/// The allowed extensions, each in the form in which it is compared.
pub fn normalize_extensions(allowed_extensions: &[String]) -> (r: Vec<String>)
    ensures
        r.len() == allowed_extensions@.len(),
        forall|i: int|
            0 <= i < r.len() ==> (#[trigger] r[i])@ == normalized_extension(
                allowed_extensions@[i]@,
            ),
{
    let mut out: Vec<String> = Vec::new();
    let mut i: usize = 0;
    while i < allowed_extensions.len()
        invariant
            i <= allowed_extensions@.len(),
            out.len() == i,
            forall|k: int|
                0 <= k < i ==> (#[trigger] out[k])@ == normalized_extension(
                    allowed_extensions@[k]@,
                ),
        decreases allowed_extensions@.len() - i,
    {
        out.push(normalize_extension(allowed_extensions[i].as_str()));
        i = i + 1;
    }
    out
}

/// `i` is the place of the first path without an allowed extension.
pub open spec fn is_first_rejected(paths: Seq<Seq<char>>, allowed: Seq<Seq<char>>, i: int) -> bool {
    &&& 0 <= i < paths.len()
    &&& !has_allowed_extension(paths[i], allowed)
    &&& forall|k: int| 0 <= k < i ==> has_allowed_extension(#[trigger] paths[k], allowed)
}

/// The message for a path whose extension is not allowed.
pub open spec fn unsupported_extension_message(path: Seq<char>) -> Seq<char> {
    "Unsupported file extension for path: "@ + path
}

/// Every path has to have one of the allowed extensions: the first that
/// has none of them is named in the error.
pub fn validate_paths_have_extensions(paths: &[String], allowed_extensions: &[String]) -> (r:
    Result<(), String>)
    ensures
        r is Ok <==> forall|i: int|
            0 <= i < paths@.len() ==> has_allowed_extension(
                #[trigger] texts(paths@)[i],
                texts(allowed_extensions@),
            ),
        r matches Err(message) ==> exists|i: int|
            is_first_rejected(texts(paths@), texts(allowed_extensions@), i) && message@
                == unsupported_extension_message(texts(paths@)[i]),
{
    let normalized = normalize_extensions(allowed_extensions);
    let ghost allowed = texts(allowed_extensions@);
    assert forall|path: Seq<char>|
        has_allowed_extension(path, allowed) == exists|i: int|
            0 <= i < normalized.len() && (#[trigger] normalized[i])@ == dotted_extension(path) by {
        if has_allowed_extension(path, allowed) {
            let i = choose|i: int|
                0 <= i < allowed.len() && #[trigger] normalized_extension(allowed[i])
                    == dotted_extension(path);
            assert(normalized[i]@ == dotted_extension(path));
        }
        if exists|i: int|
            0 <= i < normalized.len() && (#[trigger] normalized[i])@ == dotted_extension(path) {
            let i = choose|i: int|
                0 <= i < normalized.len() && (#[trigger] normalized[i])@ == dotted_extension(path);
            assert(normalized_extension(allowed[i]) == dotted_extension(path));
        }
    }
    let mut i: usize = 0;
    while i < paths.len()
        invariant
            i <= paths@.len(),
            allowed == texts(allowed_extensions@),
            forall|path: Seq<char>|
                has_allowed_extension(path, allowed) == exists|i: int|
                    0 <= i < normalized.len() && (#[trigger] normalized[i])@ == dotted_extension(
                        path,
                    ),
            forall|k: int|
                0 <= k < i ==> has_allowed_extension(#[trigger] texts(paths@)[k], allowed),
        decreases paths@.len() - i,
    {
        if !has_extension_in(paths[i].as_str(), &normalized) {
            assert(is_first_rejected(texts(paths@), allowed, i as int));
            return Err(concat2("Unsupported file extension for path: ", paths[i].as_str()));
        }
        i = i + 1;
    }
    Ok(())
}

/// Where the input paths of a request come from.
#[derive(Debug, PartialEq)]
pub enum InputSource {
    /// The request named them.
    Paths(Vec<String>),
    /// They are the media files of this directory, which is still to be read.
    Directory(String),
}

/// What the paths of a request resolve to: the paths it names, where it
/// names any, after a check of their extensions, and an error where it names
/// an empty list; else the directory it names, which is still to be read, and
/// an error where it names none.
pub open spec fn resolves(
    r: Result<InputSource, String>,
    input_dir: Option<Seq<char>>,
    input_paths: Option<Seq<Seq<char>>>,
    allowed: Seq<Seq<char>>,
    empty_error: Seq<char>,
) -> bool {
    match input_paths {
        Some(paths) => {
            if paths.len() == 0 {
                r matches Err(message) && message@ == empty_error
            } else if forall|i: int|
                0 <= i < paths.len() ==> has_allowed_extension(#[trigger] paths[i], allowed) {
                r matches Ok(InputSource::Paths(resolved)) && texts(resolved@) == paths
            } else {
                r matches Err(message) && exists|i: int|
                    is_first_rejected(paths, allowed, i) && message@
                        == unsupported_extension_message(paths[i])
            }
        },
        None => match input_dir {
            Some(directory) => r matches Ok(InputSource::Directory(named)) && named@ == directory,
            None => r matches Err(message) && message@ == "Input directory is required."@,
        },
    }
}

/// The characters of each string of an optional list.
pub open spec fn texts_opt(values: Option<&Vec<String>>) -> Option<Seq<Seq<char>>> {
    match values {
        Some(list) => Some(texts(list@)),
        None => None,
    }
}

/// The paths of a request: those it names, where it names any, after a check
/// of their extensions; else the directory it names, to be read by the
/// caller, who hands the files to `resolve_listed_paths`.
pub fn resolve_input_paths(
    input_dir: Option<&str>,
    input_paths: Option<&Vec<String>>,
    allowed_extensions: &[String],
    empty_error: &str,
) -> (r: Result<InputSource, String>)
    ensures
        resolves(
            r,
            crate::types::text_opt_str(input_dir),
            texts_opt(input_paths),
            texts(allowed_extensions@),
            empty_error@,
        ),
{
    if let Some(paths) = input_paths {
        if paths.len() == 0 {
            return Err(empty_error.to_owned());
        }
        match validate_paths_have_extensions(paths.as_slice(), allowed_extensions) {
            Ok(()) => {},
            Err(message) => {
                return Err(message);
            },
        }
        return Ok(InputSource::Paths(clone_texts(paths)));
    }
    match input_dir {
        Some(directory) => Ok(InputSource::Directory(directory.to_owned())),
        None => Err("Input directory is required.".to_owned()),
    }
}

/// The extensions that a request allows: those it names, else the given
/// ones.
pub open spec fn allowed_or(named: Option<Vec<String>>, otherwise: Seq<Seq<char>>) -> Seq<
    Seq<char>,
> {
    match named {
        Some(list) => texts(list@),
        None => otherwise,
    }
}

/// Where the input of a task comes from, with what its files are checked
/// against and what is said where there is none.
#[derive(Debug, PartialEq)]
pub struct InputPlan {
    pub source: InputSource,
    pub allowed_extensions: Vec<String>,
    pub empty_error: String,
}

/// The extensions of the files that are transcribed unless a request says
/// otherwise.
pub open spec fn video_extensions() -> Seq<Seq<char>> {
    seq![".mp4"@, ".mov"@]
}

/// The extensions of the files that are flagged unless a request says
/// otherwise.
pub open spec fn subtitle_extensions() -> Seq<Seq<char>> {
    seq![".srt"@]
}

/// Where the input of a transcription comes from. The mode of the request
/// is checked first; its files are videos unless it says otherwise.
pub fn plan_transcription_input(request: &StartTranscriptionBatchRequest) -> (r: Result<
    InputPlan,
    String,
>)
    ensures
        request.yap_mode@ != "auto"@ ==> (r matches Err(message) && message@
            == "Unsupported yap mode. Use auto."@),
        request.yap_mode@ == "auto"@ ==> ({
            let allowed = allowed_or(request.allowed_extensions, video_extensions());
            match r {
                Ok(plan) => {
                    &&& resolves(
                        Ok(plan.source),
                        text_opt(request.input_dir),
                        texts_opt_owned(request.input_paths),
                        allowed,
                        "No .mp4/.mov files were selected."@,
                    )
                    &&& texts(plan.allowed_extensions@) == allowed
                    &&& plan.empty_error@ == "No .mp4/.mov files were selected."@
                },
                Err(message) => resolves(
                    Err(message),
                    text_opt(request.input_dir),
                    texts_opt_owned(request.input_paths),
                    allowed,
                    "No .mp4/.mov files were selected."@,
                ),
            }
        }),
{
    match ensure_supported_yap_mode(request.yap_mode.as_str()) {
        Ok(()) => {},
        Err(message) => {
            return Err(message);
        },
    }
    let allowed_extensions = match &request.allowed_extensions {
        Some(list) => clone_texts(list),
        None => {
            let mut list: Vec<String> = Vec::new();
            list.push(".mp4".to_owned());
            list.push(".mov".to_owned());
            assert(texts(list@) =~= video_extensions());
            list
        },
    };
    let input_dir = match &request.input_dir {
        Some(directory) => Some(directory.as_str()),
        None => None,
    };
    let source = match resolve_input_paths(
        input_dir,
        request.input_paths.as_ref(),
        allowed_extensions.as_slice(),
        "No .mp4/.mov files were selected.",
    ) {
        Ok(source) => source,
        Err(message) => {
            return Err(message);
        },
    };
    Ok(
        InputPlan {
            source,
            allowed_extensions,
            empty_error: "No .mp4/.mov files were selected.".to_owned(),
        },
    )
}

/// Where the input of a flag task comes from; its files are subtitles unless
/// the request says otherwise.
pub fn plan_flag_input(request: &StartFlagBatchRequest) -> (r: Result<InputPlan, String>)
    ensures
        ({
            let allowed = allowed_or(request.allowed_extensions, subtitle_extensions());
            match r {
                Ok(plan) => {
                    &&& resolves(
                        Ok(plan.source),
                        text_opt(request.input_dir),
                        texts_opt_owned(request.input_paths),
                        allowed,
                        "No .srt files were selected."@,
                    )
                    &&& texts(plan.allowed_extensions@) == allowed
                    &&& plan.empty_error@ == "No .srt files were selected."@
                },
                Err(message) => resolves(
                    Err(message),
                    text_opt(request.input_dir),
                    texts_opt_owned(request.input_paths),
                    allowed,
                    "No .srt files were selected."@,
                ),
            }
        }),
{
    let allowed_extensions = match &request.allowed_extensions {
        Some(list) => clone_texts(list),
        None => {
            let mut list: Vec<String> = Vec::new();
            list.push(".srt".to_owned());
            assert(texts(list@) =~= subtitle_extensions());
            list
        },
    };
    let input_dir = match &request.input_dir {
        Some(directory) => Some(directory.as_str()),
        None => None,
    };
    let source = match resolve_input_paths(
        input_dir,
        request.input_paths.as_ref(),
        allowed_extensions.as_slice(),
        "No .srt files were selected.",
    ) {
        Ok(source) => source,
        Err(message) => {
            return Err(message);
        },
    };
    Ok(
        InputPlan {
            source,
            allowed_extensions,
            empty_error: "No .srt files were selected.".to_owned(),
        },
    )
}

/// The characters of each string of an optional list.
pub open spec fn texts_opt_owned(values: Option<Vec<String>>) -> Option<Seq<Seq<char>>> {
    match values {
        Some(list) => Some(texts(list@)),
        None => None,
    }
}

/// A batch needs a media file: without one it is turned down.
pub fn ensure_media_found(media_files: &[String]) -> (r: Result<(), String>)
    ensures
        r is Ok <==> media_files@.len() > 0,
        r matches Err(message) ==> message@
            == "No .mp4/.mov files were found in the selected directory."@,
{
    if media_files.len() == 0 {
        return Err("No .mp4/.mov files were found in the selected directory.".to_owned());
    }
    Ok(())
}

/// The media files that were found in a directory, as the paths of a request:
/// an error where there is none.
pub fn resolve_listed_paths(files: Vec<String>, empty_error: &str) -> (r: Result<
    Vec<String>,
    String,
>)
    ensures
        files.len() == 0 ==> (r matches Err(message) && message@ == empty_error@),
        files.len() > 0 ==> r == Ok::<Vec<String>, String>(files),
{
    if files.len() == 0 {
        return Err(empty_error.to_owned());
    }
    Ok(files)
}

/// The queue of the worker, or the error that no worker is running.
pub fn require_worker_sender(sender: Option<WorkerSender>) -> (r: Result<WorkerSender, String>)
    ensures
        match sender {
            Some(handle) => r == Ok::<WorkerSender, String>(handle),
            None => r matches Err(message) && message@ == "Worker is not running."@,
        },
{
    match sender {
        Some(handle) => Ok(handle),
        None => Err("Worker is not running.".to_owned()),
    }
}

/// A job as it is when its path is submitted: queued, at 0 percent, without
/// output, error or log.
pub open spec fn queued_job(path: Seq<char>) -> JobModel {
    JobModel {
        job_id: job_id_of(path),
        file_name: file_name_of(path),
        input_path: path,
        output_path: None,
        phase: JobPhase::Queued,
        progress_pct: 0,
        error: None,
        logs: Seq::empty(),
    }
}

/// The queued jobs of a list of paths, in the order of the paths.
pub open spec fn queued_jobs(paths: Seq<Seq<char>>) -> Seq<JobModel> {
    Seq::new(paths.len(), |i: int| queued_job(paths[i]))
}

/// The jobs of a new batch: one queued job for each input path, in the
/// order of the paths.
pub fn create_batch_jobs(input_paths: &[String]) -> (jobs: Vec<JobRecord>)
    ensures
        batch_jobs(jobs@) == queued_jobs(texts(input_paths@)),
{
    let mut jobs: Vec<JobRecord> = Vec::new();
    let mut i: usize = 0;
    while i < input_paths.len()
        invariant
            i <= input_paths@.len(),
            jobs.len() == i,
            forall|k: int| 0 <= k < i ==> (#[trigger] jobs[k])@ == queued_job(input_paths@[k]@),
        decreases input_paths@.len() - i,
    {
        let input_path = &input_paths[i];
        jobs.push(
            JobRecord {
                job_id: to_job_id(input_path.as_str()),
                file_name: to_file_name(input_path.as_str()),
                input_path: input_path.clone(),
                output_path: None,
                status: JobStatus::Queued,
                progress_pct: 0,
                error: None,
            },
        );
        i = i + 1;
    }
    assert(batch_jobs(jobs@) =~= queued_jobs(texts(input_paths@)));
    jobs
}

/// The jobs of a new task: one queued job for each input path, in the order
/// of the paths, each with an empty log.
pub fn create_task_jobs(input_paths: &[String]) -> (jobs: Vec<TaskJobRecord>)
    ensures
        task_jobs(jobs@) == queued_jobs(texts(input_paths@)),
{
    let mut jobs: Vec<TaskJobRecord> = Vec::new();
    let mut i: usize = 0;
    while i < input_paths.len()
        invariant
            i <= input_paths@.len(),
            jobs.len() == i,
            forall|k: int| 0 <= k < i ==> (#[trigger] jobs[k])@ == queued_job(input_paths@[k]@),
        decreases input_paths@.len() - i,
    {
        let input_path = &input_paths[i];
        let job = TaskJobRecord {
            job_id: to_job_id(input_path.as_str()),
            file_name: to_file_name(input_path.as_str()),
            input_path: input_path.clone(),
            output_path: None,
            status: TaskJobStatus::Queued,
            progress_pct: 0,
            error: None,
            logs: Vec::new(),
        };
        assert(texts(job.logs@) =~= Seq::<Seq<char>>::empty());
        jobs.push(job);
        i = i + 1;
    }
    assert(task_jobs(jobs@) =~= queued_jobs(texts(input_paths@)));
    jobs
}

/// A list of three strings.
fn texts_of_three(a: &str, b: &str, c: &str) -> (r: Vec<String>)
    ensures
        texts(r@) == seq![a@, b@, c@],
{
    let mut out: Vec<String> = Vec::new();
    out.push(a.to_owned());
    out.push(b.to_owned());
    out.push(c.to_owned());
    assert(texts(out@) =~= seq![a@, b@, c@]);
    out
}

/// The content criteria of the default settings.
pub const DEFAULT_CONTENT_CRITERIA: &'static str =
    "1. Adult relationships (kissing, romantic/sexual content, dating)\n\
2. Bad morals or unethical behavior\n\
3. Content against Islamic values and aqeedah\n\
4. Magic, sorcery, or supernatural practices\n\
5. Music references or musical performances\n\
6. Violence or frightening content\n\
7. Inappropriate language or themes";

/// The priority guidelines of the default settings.
pub const DEFAULT_PRIORITY_GUIDELINES: &'static str =
    "Priority Guidelines:\n\
- HIGH: Major aqeedah violations, explicit magic/sorcery, sexual content\n\
- MEDIUM: Offensive language, questionable behavior, moderate violence\n\
- LOW: Mild concerns, ambiguous references";

/// The moderation settings that are used until others are saved: three
/// rules and no profanity word.
pub open spec fn default_moderation() -> ModerationSettingsModel {
    ModerationSettingsModel {
        content_criteria: DEFAULT_CONTENT_CRITERIA@,
        priority_guidelines: DEFAULT_PRIORITY_GUIDELINES@,
        profanity_words: Seq::empty(),
        rules: seq![
            ModerationRuleModel {
                rule_id: "aqeedah_christmas"@,
                category: "aqeedah"@,
                priority: "high"@,
                reason: "Promotes non-Islamic religious celebration."@,
                patterns: seq!["christmas"@, "xmas"@, "easter"@],
            },
            ModerationRuleModel {
                rule_id: "magic_sorcery"@,
                category: "magic"@,
                priority: "high"@,
                reason: "References magic or sorcery."@,
                patterns: seq!["spell"@, "sorcery"@, "witchcraft"@],
            },
            ModerationRuleModel {
                rule_id: "offensive_language"@,
                category: "language"@,
                priority: "medium"@,
                reason: "Contains offensive language."@,
                patterns: seq!["stupid"@, "idiot"@, "dumb"@],
            },
        ],
    }
}

/// The moderation settings that are used until others are saved.
pub fn default_moderation_settings() -> (r: ModerationSettings)
    ensures
        r@ == default_moderation(),
{
    let mut rules: Vec<ModerationRule> = Vec::new();
    rules.push(
        ModerationRule {
            rule_id: "aqeedah_christmas".to_owned(),
            category: "aqeedah".to_owned(),
            priority: "high".to_owned(),
            reason: "Promotes non-Islamic religious celebration.".to_owned(),
            patterns: texts_of_three("christmas", "xmas", "easter"),
        },
    );
    rules.push(
        ModerationRule {
            rule_id: "magic_sorcery".to_owned(),
            category: "magic".to_owned(),
            priority: "high".to_owned(),
            reason: "References magic or sorcery.".to_owned(),
            patterns: texts_of_three("spell", "sorcery", "witchcraft"),
        },
    );
    rules.push(
        ModerationRule {
            rule_id: "offensive_language".to_owned(),
            category: "language".to_owned(),
            priority: "medium".to_owned(),
            reason: "Contains offensive language.".to_owned(),
            patterns: texts_of_three("stupid", "idiot", "dumb"),
        },
    );
    let settings = ModerationSettings {
        content_criteria: DEFAULT_CONTENT_CRITERIA.to_owned(),
        priority_guidelines: DEFAULT_PRIORITY_GUIDELINES.to_owned(),
        profanity_words: Vec::new(),
        rules,
    };
    assert(texts(settings.profanity_words@) =~= Seq::<Seq<char>>::empty());
    assert(moderation_rules(settings.rules@) =~= default_moderation().rules);
    settings
}

/// A batch or task as it is when it is submitted: queued, without a summary,
/// with one queued job for each path.
pub open spec fn queued_record(
    id: Seq<char>,
    kind: Option<TaskKind>,
    paths: Seq<Seq<char>>,
) -> RecordModel {
    RecordModel { id, kind, phase: RecordPhase::Queued, jobs: queued_jobs(paths), summary: None }
}

/// What a submission hands back: the command for the worker and the answer
/// for the caller.
#[derive(Debug)]
pub struct BatchSubmission {
    pub command: WorkerCommand,
    pub response: BatchStartedResponse,
}

/// What the submission of a cut hands back: the command for the worker and
/// the answer for the caller.
#[derive(Debug)]
pub struct CutSubmission {
    pub command: WorkerCommand,
    pub response: CutJobStartedResponse,
}

/// The answer to a submission names the record and its paths.
pub open spec fn answers_submission(
    response: BatchStartedResponse,
    id: Seq<char>,
    paths: Seq<Seq<char>>,
) -> bool {
    &&& response.batch_id@ == id
    &&& response.file_count == paths.len()
    &&& texts(response.input_paths@) == paths
}

/// Why a batch is not accepted, if it is not: its output mode is not the
/// supported one, or no media file was found for it.
pub open spec fn batch_rejection(output_dir_mode: Seq<char>, files: nat) -> Option<Seq<char>> {
    if output_dir_mode != "audio_replaced_default"@ {
        Some("Unsupported output mode. Use audio_replaced_default."@)
    } else if files == 0 {
        Some("No .mp4/.mov files were found in the selected directory."@)
    } else {
        None
    }
}

/// Why a transcription task is not accepted, if it is not.
pub open spec fn transcription_rejection(yap_mode: Seq<char>, files: nat) -> Option<Seq<char>> {
    if yap_mode != "auto"@ {
        Some("Unsupported yap mode. Use auto."@)
    } else if files == 0 {
        Some("No .mp4/.mov files were selected."@)
    } else {
        None
    }
}

/// Why a flag task is not accepted, if it is not.
pub open spec fn flag_rejection(files: nat) -> Option<Seq<char>> {
    if files == 0 {
        Some("No .srt files were selected."@)
    } else {
        None
    }
}

/// Why a cut is not accepted, if it is not.
pub open spec fn cut_rejection(output_mode: Seq<char>, ranges: nat) -> Option<Seq<char>> {
    if output_mode != "video_cleaned_default"@ {
        Some("Unsupported cut output mode. Use video_cleaned_default."@)
    } else if ranges == 0 {
        Some("Cut job requires at least one range."@)
    } else {
        None
    }
}

/// Submits a batch under the given id, for the media files that were found
/// in its directory. A batch that is not accepted leaves the store as it was
/// and gives no command. An accepted batch is stored as queued, one queued job
/// for each file, and comes back with its start command.
pub fn submit_batch(
    batches: &mut BatchStore,
    batch_id: String,
    request: &StartBatchRequest,
    media_files: Vec<String>,
    output_dir: String,
) -> (r: Result<BatchSubmission, String>)
    ensures
        match batch_rejection(request.output_dir_mode@, media_files.len() as nat) {
            Some(reason) => {
                &&& r matches Err(message)
                &&& message@ == reason
                &&& final(batches)@ == old(batches)@
            },
            None => {
                &&& r matches Ok(submission)
                &&& final(batches)@ == old(batches)@.insert(
                    batch_id@,
                    queued_record(batch_id@, None, texts(media_files@)),
                )
                &&& submission.command@ == (WorkerCommandModel::StartBatch {
                    batch_id: batch_id@,
                    input_paths: texts(media_files@),
                    output_dir: output_dir@,
                    compute_mode: "auto"@,
                })
                &&& answers_submission(submission.response, batch_id@, texts(media_files@))
            },
        },
{
    match ensure_supported_output_mode(request.output_dir_mode.as_str()) {
        Ok(()) => {},
        Err(message) => {
            return Err(message);
        },
    }
    match ensure_media_found(media_files.as_slice()) {
        Ok(()) => {},
        Err(message) => {
            return Err(message);
        },
    }
    batches.insert(
        BatchState {
            batch_id: batch_id.clone(),
            status: BatchStatus::Queued,
            jobs: create_batch_jobs(media_files.as_slice()),
            summary: None,
        },
    );
    let command = WorkerCommand::StartBatch {
        batch_id: batch_id.clone(),
        input_paths: clone_texts(&media_files),
        output_dir,
        compute_mode: "auto".to_owned(),
    };
    let response = BatchStartedResponse {
        batch_id,
        file_count: media_files.len(),
        input_paths: media_files,
    };
    Ok(BatchSubmission { command, response })
}

/// Submits a batch under a new random id: see `submit_batch`. The id is the
/// one in the answer.
pub fn start_batch(
    batches: &mut BatchStore,
    request: &StartBatchRequest,
    media_files: Vec<String>,
    output_dir: String,
) -> (r: Result<BatchSubmission, String>)
    ensures
        match batch_rejection(request.output_dir_mode@, media_files.len() as nat) {
            Some(reason) => {
                &&& r matches Err(message)
                &&& message@ == reason
                &&& final(batches)@ == old(batches)@
            },
            None => {
                &&& r matches Ok(submission)
                &&& final(batches)@ == old(batches)@.insert(
                    submission.response.batch_id@,
                    queued_record(submission.response.batch_id@, None, texts(media_files@)),
                )
                &&& submission.command@ == (WorkerCommandModel::StartBatch {
                    batch_id: submission.response.batch_id@,
                    input_paths: texts(media_files@),
                    output_dir: output_dir@,
                    compute_mode: "auto"@,
                })
                &&& answers_submission(
                    submission.response,
                    submission.response.batch_id@,
                    texts(media_files@),
                )
            },
        },
{
    submit_batch(batches, fresh_id(), request, media_files, output_dir)
}

/// Submits a transcription task under the given id, for the given input
/// paths. A task that is not accepted leaves the store as it was and gives
/// no command.
pub fn submit_transcription_task(
    tasks: &mut TaskStore,
    task_id: String,
    yap_mode: String,
    input_paths: Vec<String>,
) -> (r: Result<BatchSubmission, String>)
    ensures
        match transcription_rejection(yap_mode@, input_paths.len() as nat) {
            Some(reason) => {
                &&& r matches Err(message)
                &&& message@ == reason
                &&& final(tasks)@ == old(tasks)@
            },
            None => {
                &&& r matches Ok(submission)
                &&& final(tasks)@ == old(tasks)@.insert(
                    task_id@,
                    queued_record(task_id@, Some(TaskKind::Transcription), texts(input_paths@)),
                )
                &&& submission.command@ == (WorkerCommandModel::StartTranscriptionBatch {
                    task_id: task_id@,
                    input_paths: texts(input_paths@),
                    yap_mode: yap_mode@,
                })
                &&& answers_submission(submission.response, task_id@, texts(input_paths@))
            },
        },
{
    match ensure_supported_yap_mode(yap_mode.as_str()) {
        Ok(()) => {},
        Err(message) => {
            return Err(message);
        },
    }
    if input_paths.len() == 0 {
        return Err("No .mp4/.mov files were selected.".to_owned());
    }
    tasks.insert(
        TaskState {
            task_id: task_id.clone(),
            task_kind: TaskKind::Transcription,
            status: TaskStatus::Queued,
            jobs: create_task_jobs(input_paths.as_slice()),
            summary: None,
        },
    );
    let command = WorkerCommand::StartTranscriptionBatch {
        task_id: task_id.clone(),
        input_paths: clone_texts(&input_paths),
        yap_mode,
    };
    let response = BatchStartedResponse {
        batch_id: task_id,
        file_count: input_paths.len(),
        input_paths,
    };
    Ok(BatchSubmission { command, response })
}

/// Submits a transcription task under a new random id: see
/// `submit_transcription_task`. The id is the one in the answer.
pub fn start_transcription_batch(
    tasks: &mut TaskStore,
    yap_mode: String,
    input_paths: Vec<String>,
) -> (r: Result<BatchSubmission, String>)
    ensures
        match transcription_rejection(yap_mode@, input_paths.len() as nat) {
            Some(reason) => {
                &&& r matches Err(message)
                &&& message@ == reason
                &&& final(tasks)@ == old(tasks)@
            },
            None => {
                &&& r matches Ok(submission)
                &&& final(tasks)@ == old(tasks)@.insert(
                    submission.response.batch_id@,
                    queued_record(
                        submission.response.batch_id@,
                        Some(TaskKind::Transcription),
                        texts(input_paths@),
                    ),
                )
                &&& submission.command@ == (WorkerCommandModel::StartTranscriptionBatch {
                    task_id: submission.response.batch_id@,
                    input_paths: texts(input_paths@),
                    yap_mode: yap_mode@,
                })
                &&& answers_submission(
                    submission.response,
                    submission.response.batch_id@,
                    texts(input_paths@),
                )
            },
        },
{
    submit_transcription_task(tasks, fresh_id(), yap_mode, input_paths)
}

/// Submits a flag task under the given id, for the given input paths and
/// moderation settings. A task that is not accepted leaves the store as it
/// was and gives no command.
pub fn submit_flag_task(
    tasks: &mut TaskStore,
    task_id: String,
    input_paths: Vec<String>,
    settings: ModerationSettings,
) -> (r: Result<BatchSubmission, String>)
    ensures
        match flag_rejection(input_paths.len() as nat) {
            Some(reason) => {
                &&& r matches Err(message)
                &&& message@ == reason
                &&& final(tasks)@ == old(tasks)@
            },
            None => {
                &&& r matches Ok(submission)
                &&& final(tasks)@ == old(tasks)@.insert(
                    task_id@,
                    queued_record(task_id@, Some(TaskKind::Flag), texts(input_paths@)),
                )
                &&& submission.command@ == (WorkerCommandModel::StartFlagBatch {
                    task_id: task_id@,
                    input_paths: texts(input_paths@),
                    settings: settings@,
                })
                &&& answers_submission(submission.response, task_id@, texts(input_paths@))
            },
        },
{
    if input_paths.len() == 0 {
        return Err("No .srt files were selected.".to_owned());
    }
    tasks.insert(
        TaskState {
            task_id: task_id.clone(),
            task_kind: TaskKind::Flag,
            status: TaskStatus::Queued,
            jobs: create_task_jobs(input_paths.as_slice()),
            summary: None,
        },
    );
    let command = WorkerCommand::StartFlagBatch {
        task_id: task_id.clone(),
        input_paths: clone_texts(&input_paths),
        settings,
    };
    let response = BatchStartedResponse {
        batch_id: task_id,
        file_count: input_paths.len(),
        input_paths,
    };
    Ok(BatchSubmission { command, response })
}

/// Submits a flag task under a new random id: see `submit_flag_task`. The id
/// is the one in the answer.
pub fn start_flag_batch(
    tasks: &mut TaskStore,
    input_paths: Vec<String>,
    settings: ModerationSettings,
) -> (r: Result<BatchSubmission, String>)
    ensures
        match flag_rejection(input_paths.len() as nat) {
            Some(reason) => {
                &&& r matches Err(message)
                &&& message@ == reason
                &&& final(tasks)@ == old(tasks)@
            },
            None => {
                &&& r matches Ok(submission)
                &&& final(tasks)@ == old(tasks)@.insert(
                    submission.response.batch_id@,
                    queued_record(
                        submission.response.batch_id@,
                        Some(TaskKind::Flag),
                        texts(input_paths@),
                    ),
                )
                &&& submission.command@ == (WorkerCommandModel::StartFlagBatch {
                    task_id: submission.response.batch_id@,
                    input_paths: texts(input_paths@),
                    settings: settings@,
                })
                &&& answers_submission(
                    submission.response,
                    submission.response.batch_id@,
                    texts(input_paths@),
                )
            },
        },
{
    submit_flag_task(tasks, fresh_id(), input_paths, settings)
}

/// Submits the cut of one video under the given id. A cut that is not
/// accepted leaves the store as it was and gives no command. An accepted cut
/// is stored as a queued task with the video as its one job.
pub fn submit_cut_task(tasks: &mut TaskStore, task_id: String, request: StartCutJobRequest) -> (r:
    Result<CutSubmission, String>)
    ensures
        match cut_rejection(request.output_mode@, request.ranges.len() as nat) {
            Some(reason) => {
                &&& r matches Err(message)
                &&& message@ == reason
                &&& final(tasks)@ == old(tasks)@
            },
            None => {
                &&& r matches Ok(submission)
                &&& final(tasks)@ == old(tasks)@.insert(
                    task_id@,
                    queued_record(task_id@, Some(TaskKind::Cut), seq![request.video_path@]),
                )
                &&& submission.command@ == (WorkerCommandModel::StartCutJob {
                    task_id: task_id@,
                    video_path: request.video_path@,
                    ranges: cut_ranges(request.ranges@),
                    output_mode: request.output_mode@,
                })
                &&& submission.response.task_id@ == task_id@
                &&& submission.response.video_path@ == request.video_path@
            },
        },
{
    match ensure_supported_cut_output_mode(request.output_mode.as_str()) {
        Ok(()) => {},
        Err(message) => {
            return Err(message);
        },
    }
    if request.ranges.len() == 0 {
        return Err("Cut job requires at least one range.".to_owned());
    }
    let mut input_paths: Vec<String> = Vec::new();
    input_paths.push(request.video_path.clone());
    assert(texts(input_paths@) =~= seq![request.video_path@]);
    tasks.insert(
        TaskState {
            task_id: task_id.clone(),
            task_kind: TaskKind::Cut,
            status: TaskStatus::Queued,
            jobs: create_task_jobs(input_paths.as_slice()),
            summary: None,
        },
    );
    let command = WorkerCommand::StartCutJob {
        task_id: task_id.clone(),
        video_path: request.video_path.clone(),
        ranges: request.ranges,
        output_mode: request.output_mode,
    };
    let response = CutJobStartedResponse { task_id, video_path: request.video_path };
    Ok(CutSubmission { command, response })
}

/// Submits the cut of one video under a new random id: see
/// `submit_cut_task`. The id is the one in the answer.
pub fn start_cut_job(tasks: &mut TaskStore, request: StartCutJobRequest) -> (r: Result<
    CutSubmission,
    String,
>)
    ensures
        match cut_rejection(request.output_mode@, request.ranges.len() as nat) {
            Some(reason) => {
                &&& r matches Err(message)
                &&& message@ == reason
                &&& final(tasks)@ == old(tasks)@
            },
            None => {
                &&& r matches Ok(submission)
                &&& final(tasks)@ == old(tasks)@.insert(
                    submission.response.task_id@,
                    queued_record(
                        submission.response.task_id@,
                        Some(TaskKind::Cut),
                        seq![request.video_path@],
                    ),
                )
                &&& submission.command@ == (WorkerCommandModel::StartCutJob {
                    task_id: submission.response.task_id@,
                    video_path: request.video_path@,
                    ranges: cut_ranges(request.ranges@),
                    output_mode: request.output_mode@,
                })
                &&& submission.response.video_path@ == request.video_path@
            },
        },
{
    submit_cut_task(tasks, fresh_id(), request)
}

/// The command that asks the worker to stop a batch. A request in any mode
/// but `stop_after_current` is rejected and gives no command.
pub fn cancel_batch_command(request: &CancelBatchRequest) -> (r: Result<WorkerCommand, String>)
    ensures
        request.mode@ != "stop_after_current"@ ==> (r matches Err(message) && message@
            == "Unsupported cancellation mode. Use stop_after_current."@),
        request.mode@ == "stop_after_current"@ ==> (r matches Ok(command) && command@
            == (WorkerCommandModel::CancelBatch {
            batch_id: request.batch_id@,
            mode: request.mode@,
        })),
{
    match ensure_supported_cancel_mode(request.mode.as_str()) {
        Ok(()) => {},
        Err(message) => {
            return Err(message);
        },
    }
    Ok(
        WorkerCommand::CancelBatch {
            batch_id: request.batch_id.clone(),
            mode: request.mode.clone(),
        },
    )
}

/// The command that asks the worker to stop a task. A request in any mode but
/// `stop_after_current` is rejected and gives no command.
pub fn cancel_task_command(request: &CancelTaskRequest) -> (r: Result<WorkerCommand, String>)
    ensures
        request.mode@ != "stop_after_current"@ ==> (r matches Err(message) && message@
            == "Unsupported cancellation mode. Use stop_after_current."@),
        request.mode@ == "stop_after_current"@ ==> (r matches Ok(command) && command@
            == (WorkerCommandModel::CancelTask {
            task_id: request.task_id@,
            mode: request.mode@,
        })),
{
    match ensure_supported_cancel_mode(request.mode.as_str()) {
        Ok(()) => {},
        Err(message) => {
            return Err(message);
        },
    }
    Ok(WorkerCommand::CancelTask { task_id: request.task_id.clone(), mode: request.mode.clone() })
}

/// The answer to a request to cancel a batch that was passed on: accepted
/// exactly where the queue took the command.
pub fn batch_cancel_ack(batch_id: String, sent: &Result<(), String>) -> (r: CancelAck)
    ensures
        r.batch_id == batch_id,
        r.accepted == (*sent is Ok),
{
    CancelAck { batch_id, accepted: sent.is_ok() }
}

/// The answer to a request to cancel a task that was passed on: accepted
/// exactly where the queue took the command.
pub fn task_cancel_ack(task_id: String, sent: &Result<(), String>) -> (r: TaskCancelAck)
    ensures
        r.task_id == task_id,
        r.accepted == (*sent is Ok),
{
    TaskCancelAck { task_id, accepted: sent.is_ok() }
}

/// Why a request to cancel is not passed on, if it is not: its mode is not
/// the supported one, or no worker is running.
pub open spec fn cancel_rejection(mode: Seq<char>, has_worker: bool) -> Option<Seq<char>> {
    if mode != "stop_after_current"@ {
        Some("Unsupported cancellation mode. Use stop_after_current."@)
    } else if !has_worker {
        Some("Worker is not running."@)
    } else {
        None
    }
}

/// Asks the worker to stop a batch after its current job. A request that is
/// rejected never reaches the queue: its mode is checked first, then the
/// presence of a worker. A request that is passed on is answered with what
/// the queue said: accepted where it took the command.
pub fn cancel_batch(sender: Option<WorkerSender>, request: CancelBatchRequest) -> (r: Result<
    CancelAck,
    String,
>)
    ensures
        match cancel_rejection(request.mode@, sender is Some) {
            Some(reason) => r matches Err(message) && message@ == reason,
            None => r matches Ok(ack) && ack.batch_id@ == request.batch_id@,
        },
{
    let command = match cancel_batch_command(&request) {
        Ok(command) => command,
        Err(message) => {
            return Err(message);
        },
    };
    let sender = match require_worker_sender(sender) {
        Ok(sender) => sender,
        Err(message) => {
            return Err(message);
        },
    };
    let sent = send_command(&sender, command);
    Ok(batch_cancel_ack(request.batch_id, &sent))
}

/// Asks the worker to stop a task after its current job. A request that is
/// rejected never reaches the queue: its mode is checked first, then the
/// presence of a worker. A request that is passed on is answered with what
/// the queue said: accepted where it took the command.
pub fn cancel_task(sender: Option<WorkerSender>, request: CancelTaskRequest) -> (r: Result<
    TaskCancelAck,
    String,
>)
    ensures
        match cancel_rejection(request.mode@, sender is Some) {
            Some(reason) => r matches Err(message) && message@ == reason,
            None => r matches Ok(ack) && ack.task_id@ == request.task_id@,
        },
{
    let command = match cancel_task_command(&request) {
        Ok(command) => command,
        Err(message) => {
            return Err(message);
        },
    };
    let sender = match require_worker_sender(sender) {
        Ok(sender) => sender,
        Err(message) => {
            return Err(message);
        },
    };
    let sent = send_command(&sender, command);
    Ok(task_cancel_ack(request.task_id, &sent))
}

/// A copy of the batch with the given id, if there is one.
pub fn get_batch_state(batches: &BatchStore, batch_id: &str) -> (r: Option<BatchState>)
    ensures
        r is Some <==> batches@.dom().contains(batch_id@),
        r matches Some(batch) ==> batch@ == batches@[batch_id@],
{
    batches.get(batch_id)
}

/// A copy of the task with the given id, if there is one.
pub fn get_task_state(tasks: &TaskStore, task_id: &str) -> (r: Option<TaskState>)
    ensures
        r is Some <==> tasks@.dom().contains(task_id@),
        r matches Some(task) ==> task@ == tasks@[task_id@],
{
    tasks.get(task_id)
}

/// What the message starts with when the queue did not take a command.
pub open spec fn enqueue_failure(command: WorkerCommandModel) -> Seq<char> {
    match command {
        WorkerCommandModel::StartBatch { .. } => "Failed to enqueue start batch command: "@,
        WorkerCommandModel::StartTranscriptionBatch { .. } => {
            "Failed to enqueue transcription task: "@
        },
        WorkerCommandModel::StartFlagBatch { .. } => "Failed to enqueue flag task: "@,
        WorkerCommandModel::StartCutJob { .. } => "Failed to enqueue cut task: "@,
        WorkerCommandModel::CancelBatch { .. } => "Failed to enqueue cancel command: "@,
        WorkerCommandModel::CancelTask { .. } => "Failed to enqueue cancel command: "@,
    }
}

/// What is said where the queue did not take a command: the words for this
/// kind of command, then the error of the queue.
pub fn enqueue_outcome(command: &WorkerCommand, sent: Result<(), String>) -> (r: Result<
    (),
    String,
>)
    ensures
        match sent {
            Ok(()) => r is Ok,
            Err(error) => r matches Err(message) && message@ == enqueue_failure(command@)
                + error@,
        },
{
    let prefix = match command {
        WorkerCommand::StartBatch { .. } => "Failed to enqueue start batch command: ",
        WorkerCommand::StartTranscriptionBatch { .. } => "Failed to enqueue transcription task: ",
        WorkerCommand::StartFlagBatch { .. } => "Failed to enqueue flag task: ",
        WorkerCommand::StartCutJob { .. } => "Failed to enqueue cut task: ",
        WorkerCommand::CancelBatch { .. } => "Failed to enqueue cancel command: ",
        WorkerCommand::CancelTask { .. } => "Failed to enqueue cancel command: ",
    };
    match sent {
        Ok(()) => Ok(()),
        Err(error) => Err(concat2(prefix, error.as_str())),
    }
}

/// Hands a command to the queue of the worker. A command that the
/// controlling layer does not accept is turned down here and never reaches
/// the queue. An accepted command is put at the end of the queue; where the
/// queue does not take it, its error comes back as `enqueue_outcome` puts
/// it.
pub fn dispatch(sender: &WorkerSender, command: &WorkerCommand) -> (r: Result<(), String>)
    ensures
        match command@.rejection() {
            Some(reason) => r matches Err(message) && message@ == reason,
            None => r matches Err(message) ==> enqueue_failure(command@).is_prefix_of(message@),
        },
{
    if let Some(reason) = command.rejection() {
        return Err(reason);
    }
    let sent = send_command(sender, clone_command(command));
    enqueue_outcome(command, sent)
}

} // verus!
