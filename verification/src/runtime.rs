//! The runtime that the worker needs: where its parts are looked for, and the
//! decisions of the bootstrap that builds it. Looking at the file system and
//! running the commands belong to the caller.

use vstd::prelude::*;
use crate::paths::{joined, path_join};
use crate::text::{concat2, concat3};
use crate::types::{text_opt, texts};

verus! {

/// The programs and the script that the worker is started with.
#[derive(Debug, Clone, PartialEq)]
pub struct RuntimePaths {
    pub python_executable: String,
    pub worker_script: String,
    pub ffmpeg_executable: String,
    pub yap_executable: String,
}

/// A place where something is looked for, and whether it was found there.
#[derive(Debug, Clone, PartialEq)]
pub struct Probe {
    pub path: String,
    pub exists: bool,
}

/// The model of a probe.
pub struct ProbeModel {
    pub path: Seq<char>,
    pub exists: bool,
}

impl View for Probe {
    type V = ProbeModel;

    open spec fn view(&self) -> ProbeModel {
        ProbeModel { path: self.path@, exists: self.exists }
    }
}

/// The models of a list of probes, in their order.
pub open spec fn probes(list: Seq<Probe>) -> Seq<ProbeModel> {
    Seq::new(list.len(), |i: int| list[i]@)
}

/// The first place of the list where the thing was found.
pub open spec fn first_existing(list: Seq<ProbeModel>) -> Option<Seq<char>>
    decreases list.len(),
{
    if list.len() == 0 {
        None
    } else if list[0].exists {
        Some(list[0].path)
    } else {
        first_existing(list.skip(1))
    }
}

/// The places of the list where the thing was found, in their order.
pub open spec fn all_existing(list: Seq<ProbeModel>) -> Seq<Seq<char>>
    decreases list.len(),
{
    if list.len() == 0 {
        Seq::empty()
    } else if list.last().exists {
        all_existing(list.drop_last()).push(list.last().path)
    } else {
        all_existing(list.drop_last())
    }
}

/// The first candidate that exists wins.
pub fn resolve_existing_path(candidates: &[Probe]) -> (r: Option<String>)
    ensures
        text_opt(r) == first_existing(probes(candidates@)),
{
    let ghost all = probes(candidates@);
    assert(all.skip(0) =~= all);
    let mut i: usize = 0;
    while i < candidates.len()
        invariant
            i <= candidates@.len(),
            all == probes(candidates@),
            first_existing(all) == first_existing(all.skip(i as int)),
        decreases candidates@.len() - i,
    {
        assert(all.skip(i as int)[0] == all[i as int]);
        assert(all.skip(i as int).skip(1) =~= all.skip(i as int + 1));
        if candidates[i].exists {
            return Some(candidates[i].path.clone());
        }
        i = i + 1;
    }
    None
}

/// Where the entrypoint of the worker is looked for, in this order: beside
/// the working directory, one level up, and among the resources.
pub fn worker_script_candidates(resource_dir: &str) -> (r: Vec<String>)
    ensures
        texts(r@) == seq![
            "python-worker/worker.py"@,
            "../python-worker/worker.py"@,
            joined(resource_dir@, "python-worker/worker.py"@),
        ],
{
    let mut out: Vec<String> = Vec::new();
    out.push("python-worker/worker.py".to_owned());
    out.push("../python-worker/worker.py".to_owned());
    out.push(path_join(resource_dir, "python-worker/worker.py"));
    assert(texts(out@) =~= seq![
        "python-worker/worker.py"@,
        "../python-worker/worker.py"@,
        joined(resource_dir@, "python-worker/worker.py"@),
    ]);
    out
}

/// Where the manifest of pinned dependencies is looked for, in this order:
/// beside the working directory, one level up, and among the resources.
pub fn requirements_candidates(resource_dir: &str) -> (r: Vec<String>)
    ensures
        texts(r@) == seq![
            "python-worker/requirements.lock.txt"@,
            "../python-worker/requirements.lock.txt"@,
            joined(resource_dir@, "python-worker/requirements.lock.txt"@),
        ],
{
    let mut out: Vec<String> = Vec::new();
    out.push("python-worker/requirements.lock.txt".to_owned());
    out.push("../python-worker/requirements.lock.txt".to_owned());
    out.push(path_join(resource_dir, "python-worker/requirements.lock.txt"));
    assert(texts(out@) =~= seq![
        "python-worker/requirements.lock.txt"@,
        "../python-worker/requirements.lock.txt"@,
        joined(resource_dir@, "python-worker/requirements.lock.txt"@),
    ]);
    out
}

/// The entrypoint of the worker: the first candidate that exists. Without
/// one the setup fails.
pub fn locate_worker_script(candidates: &[Probe]) -> (r: Result<String, String>)
    ensures
        match first_existing(probes(candidates@)) {
            Some(path) => r matches Ok(found) && found@ == path,
            None => r matches Err(message) && message@
                == "Failed to locate python worker entrypoint (worker.py)."@,
        },
{
    match resolve_existing_path(candidates) {
        Some(path) => Ok(path),
        None => Err("Failed to locate python worker entrypoint (worker.py).".to_owned()),
    }
}

/// The manifest of pinned dependencies: the first candidate that exists.
/// Without one the setup fails.
pub fn locate_requirements(candidates: &[Probe]) -> (r: Result<String, String>)
    ensures
        match first_existing(probes(candidates@)) {
            Some(path) => r matches Ok(found) && found@ == path,
            None => r matches Err(message) && message@
                == "Failed to locate python worker requirements.lock.txt."@,
        },
{
    match resolve_existing_path(candidates) {
        Some(path) => Ok(path),
        None => Err("Failed to locate python worker requirements.lock.txt.".to_owned()),
    }
}

/// Where a bundled base runtime is looked for among the resources.
pub fn bundled_python_candidates(resource_dir: &str) -> (r: Vec<String>)
    ensures
        texts(r@) == seq![
            joined(resource_dir@, "python/bin/python3"@),
            joined(resource_dir@, "runtime/python/bin/python3"@),
            joined(resource_dir@, "python/python3"@),
        ],
{
    let mut out: Vec<String> = Vec::new();
    out.push(path_join(resource_dir, "python/bin/python3"));
    out.push(path_join(resource_dir, "runtime/python/bin/python3"));
    out.push(path_join(resource_dir, "python/python3"));
    assert(texts(out@) =~= seq![
        joined(resource_dir@, "python/bin/python3"@),
        joined(resource_dir@, "runtime/python/bin/python3"@),
        joined(resource_dir@, "python/python3"@),
    ]);
    out
}

/// The base runtimes of the system, in the order in which they are tried.
pub open spec fn system_pythons() -> Seq<Seq<char>> {
    seq!["python3.14"@, "python3.13"@, "python3.12"@, "python3"@]
}

/// The base runtimes that a bootstrap tries, in their order.
pub open spec fn python_candidates(configured: Option<Seq<char>>, bundled: Seq<ProbeModel>) -> Seq<
    Seq<char>,
> {
    match configured {
        Some(python) => seq![python],
        None => all_existing(bundled) + system_pythons(),
    }
}

/// The base runtimes that a bootstrap tries: the configured one alone where
/// one is configured; else the bundled ones that exist, then those of the
/// system.
pub fn resolve_python_candidates(configured: Option<String>, bundled: &[Probe]) -> (r: Vec<String>)
    ensures
        texts(r@) == python_candidates(text_opt(configured), probes(bundled@)),
{
    let mut out: Vec<String> = Vec::new();
    if let Some(python) = configured {
        out.push(python);
        assert(texts(out@) =~= seq![python@]);
        return out;
    }
    let ghost all = probes(bundled@);
    let mut i: usize = 0;
    while i < bundled.len()
        invariant
            i <= bundled@.len(),
            all == probes(bundled@),
            texts(out@) == all_existing(all.take(i as int)),
        decreases bundled@.len() - i,
    {
        assert(all.take(i as int + 1).drop_last() =~= all.take(i as int));
        if bundled[i].exists {
            out.push(bundled[i].path.clone());
            assert(texts(out@) =~= all_existing(all.take(i as int)).push(all[i as int].path));
        }
        i = i + 1;
    }
    assert(all.take(bundled@.len() as int) =~= all);
    let ghost found = texts(out@);
    out.push("python3.14".to_owned());
    out.push("python3.13".to_owned());
    out.push("python3.12".to_owned());
    out.push("python3".to_owned());
    assert(texts(out@) =~= found + system_pythons());
    out
}

/// A tool of the runtime: the one that is configured, else the first
/// candidate that exists, else the tool by its bare name.
pub open spec fn tool_path(
    configured: Option<Seq<char>>,
    candidates: Seq<ProbeModel>,
    fallback: Seq<char>,
) -> Seq<char> {
    match configured {
        Some(path) => path,
        None => match first_existing(candidates) {
            Some(path) => path,
            None => fallback,
        },
    }
}

/// A tool of the runtime: the one that is configured, else the first
/// candidate that exists, else the tool by its bare name.
pub fn resolve_tool(configured: Option<String>, candidates: &[Probe], fallback: &str) -> (r: String)
    ensures
        r@ == tool_path(text_opt(configured), probes(candidates@), fallback@),
{
    match configured {
        Some(path) => path,
        None => match resolve_existing_path(candidates) {
            Some(path) => path,
            None => fallback.to_owned(),
        },
    }
}

/// Where the transcription tool is looked for, in this order: among the
/// resources, if there are any, beside the working directory, and in the
/// runtime directory; each time the script before the program.
pub open spec fn yap_places(resource_dir: Option<Seq<char>>, runtime_dir: Seq<char>) -> Seq<
    Seq<char>,
> {
    let bundled = match resource_dir {
        Some(dir) => seq![joined(dir, "assets/bin/yap.sh"@), joined(dir, "assets/bin/yap"@)],
        None => Seq::empty(),
    };
    bundled + seq![
        "assets/bin/yap.sh"@,
        "assets/bin/yap"@,
        joined(runtime_dir, "bin/yap.sh"@),
        joined(runtime_dir, "bin/yap"@),
    ]
}

/// Where the transcription tool is looked for.
pub fn yap_candidates(resource_dir: Option<&str>, runtime_dir: &str) -> (r: Vec<String>)
    ensures
        texts(r@) == yap_places(crate::types::text_opt_str(resource_dir), runtime_dir@),
{
    let mut out: Vec<String> = Vec::new();
    if let Some(dir) = resource_dir {
        out.push(path_join(dir, "assets/bin/yap.sh"));
        out.push(path_join(dir, "assets/bin/yap"));
    }
    out.push("assets/bin/yap.sh".to_owned());
    out.push("assets/bin/yap".to_owned());
    out.push(path_join(runtime_dir, "bin/yap.sh"));
    out.push(path_join(runtime_dir, "bin/yap"));
    assert(texts(out@) =~= yap_places(crate::types::text_opt_str(resource_dir), runtime_dir@));
    out
}

/// Where the parts of the runtime lie below the data directory of the
/// application.
#[derive(Debug, Clone, PartialEq)]
pub struct RuntimeLayout {
    pub runtime_dir: String,
    pub venv_dir: String,
    pub venv_python: String,
    pub bundled_ffmpeg: String,
}

/// Where the parts of the runtime lie: the runtime directory below the data
/// directory, in it the isolated environment with its interpreter, and the
/// place of a bundled `ffmpeg`.
pub fn runtime_layout(app_data_dir: &str) -> (r: RuntimeLayout)
    ensures
        r.runtime_dir@ == joined(app_data_dir@, "runtime"@),
        r.venv_dir@ == joined(r.runtime_dir@, "venv"@),
        r.venv_python@ == joined(r.venv_dir@, "bin/python3"@),
        r.bundled_ffmpeg@ == joined(r.runtime_dir@, "bin/ffmpeg"@),
{
    let runtime_dir = path_join(app_data_dir, "runtime");
    let venv_dir = path_join(runtime_dir.as_str(), "venv");
    let venv_python = path_join(venv_dir.as_str(), "bin/python3");
    let bundled_ffmpeg = path_join(runtime_dir.as_str(), "bin/ffmpeg");
    RuntimeLayout { runtime_dir, venv_dir, venv_python, bundled_ffmpeg }
}

/// What the setup does once it knows whether the isolated environment is
/// there.
#[derive(Debug, Clone, Copy, PartialEq, Eq)]
pub enum SetupStep {
    /// The environment is not there: it is built.
    Build,
    /// The environment is there: only its dependencies are checked.
    Verify,
}

/// An environment that is there is not built again.
pub fn setup_step(environment_exists: bool) -> (r: SetupStep)
    ensures
        r is Build <==> !environment_exists,
{
    if environment_exists {
        SetupStep::Verify
    } else {
        SetupStep::Build
    }
}

/// A program and its arguments.
#[derive(Debug, Clone, PartialEq)]
pub struct CommandLine {
    pub binary: String,
    pub args: Vec<String>,
}

/// The model of a command line.
pub struct CommandLineModel {
    pub binary: Seq<char>,
    pub args: Seq<Seq<char>>,
}

impl View for CommandLine {
    type V = CommandLineModel;

    open spec fn view(&self) -> CommandLineModel {
        CommandLineModel { binary: self.binary@, args: texts(self.args@) }
    }
}

/// The command that makes an isolated environment from a base runtime.
pub open spec fn create_environment(
    base_python: Seq<char>,
    venv_dir: Seq<char>,
) -> CommandLineModel {
    CommandLineModel { binary: base_python, args: seq!["-m"@, "venv"@, venv_dir] }
}

/// The command that upgrades the package manager of an environment.
pub open spec fn upgrade_installer(python: Seq<char>) -> CommandLineModel {
    CommandLineModel {
        binary: python,
        args: seq!["-m"@, "pip"@, "install"@, "--upgrade"@, "pip"@],
    }
}

/// The command that installs the pinned dependencies into an environment.
pub open spec fn install_manifest(python: Seq<char>, requirements: Seq<char>) -> CommandLineModel {
    CommandLineModel { binary: python, args: seq!["-m"@, "pip"@, "install"@, "-r"@, requirements] }
}

/// The command that checks whether the heavy dependencies can be loaded.
pub open spec fn import_check(python: Seq<char>) -> CommandLineModel {
    CommandLineModel {
        binary: python,
        args: seq!["-c"@, "import demucs, torch, torchaudio, torchcodec"@],
    }
}

/// The command that makes an isolated environment from a base runtime.
pub fn create_environment_command(base_python: &str, venv_dir: &str) -> (r: CommandLine)
    ensures
        r@ == create_environment(base_python@, venv_dir@),
{
    let mut args: Vec<String> = Vec::new();
    args.push("-m".to_owned());
    args.push("venv".to_owned());
    args.push(venv_dir.to_owned());
    assert(texts(args@) =~= seq!["-m"@, "venv"@, venv_dir@]);
    CommandLine { binary: base_python.to_owned(), args }
}

/// The command that upgrades the package manager of an environment.
pub fn upgrade_installer_command(python: &str) -> (r: CommandLine)
    ensures
        r@ == upgrade_installer(python@),
{
    let mut args: Vec<String> = Vec::new();
    args.push("-m".to_owned());
    args.push("pip".to_owned());
    args.push("install".to_owned());
    args.push("--upgrade".to_owned());
    args.push("pip".to_owned());
    assert(texts(args@) =~= seq!["-m"@, "pip"@, "install"@, "--upgrade"@, "pip"@]);
    CommandLine { binary: python.to_owned(), args }
}

/// The command that installs the pinned dependencies into an environment.
pub fn install_manifest_command(python: &str, requirements: &str) -> (r: CommandLine)
    ensures
        r@ == install_manifest(python@, requirements@),
{
    let mut args: Vec<String> = Vec::new();
    args.push("-m".to_owned());
    args.push("pip".to_owned());
    args.push("install".to_owned());
    args.push("-r".to_owned());
    args.push(requirements.to_owned());
    assert(texts(args@) =~= seq!["-m"@, "pip"@, "install"@, "-r"@, requirements@]);
    CommandLine { binary: python.to_owned(), args }
}

/// The command that checks whether the heavy dependencies can be loaded.
pub fn import_check_command(python: &str) -> (r: CommandLine)
    ensures
        r@ == import_check(python@),
{
    let mut args: Vec<String> = Vec::new();
    args.push("-c".to_owned());
    args.push("import demucs, torch, torchaudio, torchcodec".to_owned());
    assert(texts(args@) =~= seq!["-c"@, "import demucs, torch, torchaudio, torchcodec"@]);
    CommandLine { binary: python.to_owned(), args }
}

/// How the run of a command came out.
#[derive(Debug, Clone, PartialEq)]
pub enum CommandRun {
    /// The command could not be started, with this error.
    NotStarted(String),
    /// The command ran to its end: whether it succeeded, its exit status as
    /// text, and what it wrote to its diagnostic stream.
    Exited { success: bool, status: String, stderr: String },
}

/// The error of a run that did not succeed.
pub open spec fn run_failure(binary: Seq<char>, run: CommandRun) -> Option<Seq<char>> {
    match run {
        CommandRun::NotStarted(error) => Some(
            "Failed to execute command "@ + binary + ": "@ + error@,
        ),
        CommandRun::Exited { success, status, stderr } => if success {
            None
        } else {
            Some(
                "Command `"@ + binary + "` failed with status "@ + status@ + ": "@ + stderr@,
            )
        },
    }
}

/// The outcome of a run: nothing to say where the command succeeded, else
/// the error.
pub fn command_result(binary: &str, run: &CommandRun) -> (r: Result<(), String>)
    ensures
        match run_failure(binary@, *run) {
            None => r is Ok,
            Some(error) => r matches Err(message) && message@ == error,
        },
{
    match run {
        CommandRun::NotStarted(error) => {
            let head = concat3("Failed to execute command ", binary, ": ");
            Err(concat2(head.as_str(), error.as_str()))
        },
        CommandRun::Exited { success, status, stderr } => {
            if *success {
                Ok(())
            } else {
                let head = concat3("Command `", binary, "` failed with status ");
                let middle = concat3(head.as_str(), status.as_str(), ": ");
                let r = concat2(middle.as_str(), stderr.as_str());
                assert(r@ =~= "Command `"@ + binary@ + "` failed with status "@ + status@ + ": "@
                    + stderr@);
                Err(r)
            }
        },
    }
}

/// What follows the check of the heavy dependencies.
#[derive(Debug, PartialEq)]
pub enum Repair {
    /// The dependencies load: nothing is to be done.
    NotNeeded,
    /// The dependencies do not load: they are installed again with this
    /// command.
    Reinstall(CommandLine),
}

/// What follows the check of the heavy dependencies: nothing where the check
/// succeeded, a reinstall from the manifest where it ran and failed, and an
/// error where it could not be started.
pub fn plan_repair(python: &str, requirements: &str, check: &CommandRun) -> (r: Result<
    Repair,
    String,
>)
    ensures
        match *check {
            CommandRun::NotStarted(error) => r matches Err(message) && message@
                == "Failed to execute python import check: "@ + error@,
            CommandRun::Exited { success, .. } => if success {
                r matches Ok(Repair::NotNeeded)
            } else {
                r matches Ok(Repair::Reinstall(command)) && command@ == install_manifest(
                    python@,
                    requirements@,
                )
            },
        },
{
    match check {
        CommandRun::NotStarted(error) => Err(
            concat2("Failed to execute python import check: ", error.as_str()),
        ),
        CommandRun::Exited { success, .. } => {
            if *success {
                Ok(Repair::NotNeeded)
            } else {
                Ok(Repair::Reinstall(install_manifest_command(python, requirements)))
            }
        },
    }
}

/// The steps that are taken with one base runtime, in their order.
#[derive(Debug, Clone, Copy, PartialEq, Eq)]
pub enum BootstrapStep {
    /// Clear what an earlier attempt left of the environment.
    Clear,
    /// Make a new environment from the base runtime.
    Create,
    /// Upgrade the package manager of the environment.
    Upgrade,
    /// Install the pinned dependencies.
    Install,
}

impl BootstrapStep {
    /// How many steps come before this one.
    pub open spec fn number(self) -> nat {
        match self {
            BootstrapStep::Clear => 0,
            BootstrapStep::Create => 1,
            BootstrapStep::Upgrade => 2,
            BootstrapStep::Install => 3,
        }
    }
}

/// The strings of a list, one behind the other, with a separator between two
/// of them.
pub open spec fn joined_texts(parts: Seq<Seq<char>>, separator: Seq<char>) -> Seq<char>
    decreases parts.len(),
{
    if parts.len() == 0 {
        Seq::empty()
    } else if parts.len() == 1 {
        parts[0]
    } else {
        joined_texts(parts.drop_last(), separator) + separator + parts.last()
    }
}

/// The strings of a list, one behind the other, with a separator between two
/// of them.
pub fn join_texts(parts: &Vec<String>, separator: &str) -> (r: String)
    ensures
        r@ == joined_texts(texts(parts@), separator@),
{
    let mut out = String::new();
    let ghost all = texts(parts@);
    let mut i: usize = 0;
    while i < parts.len()
        invariant
            i <= parts.len(),
            all == texts(parts@),
            out@ == joined_texts(all.take(i as int), separator@),
        decreases parts.len() - i,
    {
        assert(all.take(i as int + 1).drop_last() =~= all.take(i as int));
        if i > 0 {
            out.append(separator);
        }
        out.append(parts[i].as_str());
        proof {
            if i == 0 {
                assert(out@ =~= all[0]);
            }
        }
        i = i + 1;
    }
    assert(all.take(parts.len() as int) =~= all);
    out
}

/// The one error of a bootstrap in which every base runtime failed: the
/// failures of all of them, in the order in which they were tried.
pub open spec fn aggregate_failure(errors: Seq<Seq<char>>) -> Seq<char> {
    "Failed to bootstrap Python runtime with all candidates. "@ + joined_texts(errors, " | "@)
}

/// The failure of one base runtime as it is kept: the runtime, then why it
/// failed.
pub open spec fn candidate_failure(base_python: Seq<char>, error: Seq<char>) -> Seq<char> {
    base_python + ": "@ + error
}

/// The error of a bootstrap whose manifest is not there.
pub open spec fn missing_manifest(requirements: Seq<char>) -> Seq<char> {
    "Missing requirements lock file at "@ + requirements
}

/// The error of a bootstrap that could not clear the environment directory.
pub open spec fn clear_failure(venv_dir: Seq<char>, error: Seq<char>) -> Seq<char> {
    "Failed to clear runtime venv directory "@ + venv_dir + ": "@ + error
}

/// The interpreter of an environment.
pub open spec fn venv_python(venv_dir: Seq<char>) -> Seq<char> {
    joined(venv_dir, "bin/python3"@)
}

/// The model of a bootstrap: the base runtimes to try, the one that is being
/// tried and the step it is at, the failures so far, and the error that has
/// ended the bootstrap early or its success, if any.
pub struct BootstrapModel {
    pub candidates: Seq<Seq<char>>,
    pub venv_dir: Seq<char>,
    pub requirements: Seq<char>,
    pub index: nat,
    pub step: BootstrapStep,
    pub errors: Seq<Seq<char>>,
    pub ended: Option<Result<(), Seq<char>>>,
}

/// What the caller of a bootstrap does next.
pub enum BootstrapActionModel {
    /// Remove the directory, if it is there.
    ClearDirectory(Seq<char>),
    /// Run the command.
    Run(CommandLineModel),
    /// Nothing more: the bootstrap is over, with this outcome.
    Finished(Result<(), Seq<char>>),
}

impl BootstrapModel {
    /// The outcome of a bootstrap that is over: the success or the error that
    /// ended it, or, once every base runtime has been tried, the failures of
    /// all of them.
    pub open spec fn outcome(self) -> Option<Result<(), Seq<char>>> {
        match self.ended {
            Some(result) => Some(result),
            None => if self.index >= self.candidates.len() {
                Some(Err(aggregate_failure(self.errors)))
            } else {
                None
            },
        }
    }

    /// What the caller does next.
    pub open spec fn action(self) -> BootstrapActionModel {
        match self.outcome() {
            Some(result) => BootstrapActionModel::Finished(result),
            None => match self.step {
                BootstrapStep::Clear => BootstrapActionModel::ClearDirectory(self.venv_dir),
                BootstrapStep::Create => BootstrapActionModel::Run(
                    create_environment(self.candidates[self.index as int], self.venv_dir),
                ),
                BootstrapStep::Upgrade => BootstrapActionModel::Run(
                    upgrade_installer(venv_python(self.venv_dir)),
                ),
                BootstrapStep::Install => BootstrapActionModel::Run(
                    install_manifest(venv_python(self.venv_dir), self.requirements),
                ),
            },
        }
    }

    /// The bootstrap at its start: over at once where the manifest is not
    /// there, else at the first step of the first base runtime.
    pub open spec fn start(
        candidates: Seq<Seq<char>>,
        venv_dir: Seq<char>,
        requirements: Seq<char>,
        manifest_exists: bool,
    ) -> BootstrapModel {
        BootstrapModel {
            candidates,
            venv_dir,
            requirements,
            index: 0,
            step: BootstrapStep::Clear,
            errors: Seq::empty(),
            ended: if manifest_exists {
                None
            } else {
                Some(Err(missing_manifest(requirements)))
            },
        }
    }

    /// The bootstrap after the caller has done what it was told, with the
    /// given result. A step that succeeds leads to the next step of the same
    /// base runtime, and the last one to success. A directory that cannot be
    /// cleared ends the bootstrap. A command that fails ends the attempt
    /// with this base runtime: its failure is kept, and the next base
    /// runtime is tried from the first step. A bootstrap that is over stays
    /// as it is.
    pub open spec fn after(self, result: Result<(), Seq<char>>) -> BootstrapModel {
        if self.outcome() is Some {
            self
        } else {
            match result {
                Ok(()) => match self.step {
                    BootstrapStep::Clear => BootstrapModel { step: BootstrapStep::Create, ..self },
                    BootstrapStep::Create => BootstrapModel {
                        step: BootstrapStep::Upgrade,
                        ..self
                    },
                    BootstrapStep::Upgrade => BootstrapModel {
                        step: BootstrapStep::Install,
                        ..self
                    },
                    BootstrapStep::Install => BootstrapModel { ended: Some(Ok(())), ..self },
                },
                Err(error) => match self.step {
                    BootstrapStep::Clear => BootstrapModel {
                        ended: Some(Err(clear_failure(self.venv_dir, error))),
                        ..self
                    },
                    _ => BootstrapModel {
                        index: self.index + 1,
                        step: BootstrapStep::Clear,
                        errors: self.errors.push(
                            candidate_failure(self.candidates[self.index as int], error),
                        ),
                        ..self
                    },
                },
            }
        }
    }

    /// How many steps the bootstrap can still take at most.
    pub open spec fn steps_left(self) -> nat {
        if self.outcome() is Some {
            0
        } else {
            (4 * (self.candidates.len() - self.index) - self.step.number()) as nat
        }
    }

    /// One failure is kept for each base runtime that has been given up.
    pub open spec fn consistent(self) -> bool {
        self.errors.len() == self.index && self.index <= self.candidates.len()
    }
}

/// What the caller of a bootstrap does next.
#[derive(Debug, PartialEq)]
pub enum BootstrapAction {
    /// Remove the directory, if it is there, and report how that went.
    ClearDirectory(String),
    /// Run the command and report how that went, as `command_result` puts it.
    Run(CommandLine),
    /// Nothing more: the bootstrap is over, with this outcome.
    Finished(Result<(), String>),
}

/// The model of the outcome of a step or of the bootstrap.
pub open spec fn result_model(result: Result<(), String>) -> Result<(), Seq<char>> {
    match result {
        Ok(()) => Ok(()),
        Err(message) => Err(message@),
    }
}

/// The model of an outcome that may not be there yet.
pub open spec fn ended_model(ended: Option<Result<(), String>>) -> Option<Result<(), Seq<char>>> {
    match ended {
        Some(result) => Some(result_model(result)),
        None => None,
    }
}

impl View for BootstrapAction {
    type V = BootstrapActionModel;

    open spec fn view(&self) -> BootstrapActionModel {
        match self {
            BootstrapAction::ClearDirectory(dir) => BootstrapActionModel::ClearDirectory(dir@),
            BootstrapAction::Run(command) => BootstrapActionModel::Run(command@),
            BootstrapAction::Finished(result) => BootstrapActionModel::Finished(
                result_model(*result),
            ),
        }
    }
}

/// The building of the isolated environment: base runtimes are tried in
/// their order until one gets through all steps.
#[derive(Debug)]
pub struct Bootstrap {
    pub candidates: Vec<String>,
    pub venv_dir: String,
    pub requirements_lock: String,
    pub index: usize,
    pub step: BootstrapStep,
    pub errors: Vec<String>,
    pub ended: Option<Result<(), String>>,
}

impl View for Bootstrap {
    type V = BootstrapModel;

    open spec fn view(&self) -> BootstrapModel {
        BootstrapModel {
            candidates: texts(self.candidates@),
            venv_dir: self.venv_dir@,
            requirements: self.requirements_lock@,
            index: self.index as nat,
            step: self.step,
            errors: texts(self.errors@),
            ended: ended_model(self.ended),
        }
    }
}

/// A copy of the outcome of a step or of the bootstrap.
fn clone_result(result: &Result<(), String>) -> (r: Result<(), String>)
    ensures
        result_model(r) == result_model(*result),
{
    match result {
        Ok(()) => Ok(()),
        Err(message) => Err(message.clone()),
    }
}

impl Bootstrap {
    /// A bootstrap at its start.
    pub fn start(
        candidates: Vec<String>,
        venv_dir: String,
        requirements_lock: String,
        manifest_exists: bool,
    ) -> (r: Self)
        ensures
            r@ == BootstrapModel::start(
                texts(candidates@),
                venv_dir@,
                requirements_lock@,
                manifest_exists,
            ),
    {
        let ended = if manifest_exists {
            None
        } else {
            Some(Err(concat2("Missing requirements lock file at ", requirements_lock.as_str())))
        };
        let r = Bootstrap {
            candidates,
            venv_dir,
            requirements_lock,
            index: 0,
            step: BootstrapStep::Clear,
            errors: Vec::new(),
            ended,
        };
        assert(texts(r.errors@) =~= Seq::<Seq<char>>::empty());
        r
    }

    /// The outcome of the bootstrap, once it is over.
    pub fn outcome(&self) -> (r: Option<Result<(), String>>)
        ensures
            ended_model(r) == self@.outcome(),
    {
        match &self.ended {
            Some(result) => Some(clone_result(result)),
            None => {
                if self.index >= self.candidates.len() {
                    let list = join_texts(&self.errors, " | ");
                    Some(
                        Err(
                            concat2(
                                "Failed to bootstrap Python runtime with all candidates. ",
                                list.as_str(),
                            ),
                        ),
                    )
                } else {
                    None
                }
            },
        }
    }

    /// What the caller does next.
    pub fn action(&self) -> (r: BootstrapAction)
        ensures
            r@ == self@.action(),
    {
        if let Some(result) = self.outcome() {
            return BootstrapAction::Finished(result);
        }
        match self.step {
            BootstrapStep::Clear => BootstrapAction::ClearDirectory(self.venv_dir.clone()),
            BootstrapStep::Create => BootstrapAction::Run(
                create_environment_command(
                    self.candidates[self.index].as_str(),
                    self.venv_dir.as_str(),
                ),
            ),
            BootstrapStep::Upgrade => {
                let python = path_join(self.venv_dir.as_str(), "bin/python3");
                BootstrapAction::Run(upgrade_installer_command(python.as_str()))
            },
            BootstrapStep::Install => {
                let python = path_join(self.venv_dir.as_str(), "bin/python3");
                BootstrapAction::Run(
                    install_manifest_command(python.as_str(), self.requirements_lock.as_str()),
                )
            },
        }
    }

    /// Takes in how the last action went, and says what the caller does next.
    pub fn advance(&mut self, result: Result<(), String>) -> (r: BootstrapAction)
        ensures
            final(self)@ == old(self)@.after(result_model(result)),
            r@ == final(self)@.action(),
    {
        if self.ended.is_some() || self.index >= self.candidates.len() {
            return self.action();
        }
        match result {
            Ok(()) => {
                match self.step {
                    BootstrapStep::Clear => {
                        self.step = BootstrapStep::Create;
                    },
                    BootstrapStep::Create => {
                        self.step = BootstrapStep::Upgrade;
                    },
                    BootstrapStep::Upgrade => {
                        self.step = BootstrapStep::Install;
                    },
                    BootstrapStep::Install => {
                        self.ended = Some(Ok(()));
                    },
                }
            },
            Err(error) => {
                match self.step {
                    BootstrapStep::Clear => {
                        let head = concat3(
                            "Failed to clear runtime venv directory ",
                            self.venv_dir.as_str(),
                            ": ",
                        );
                        self.ended = Some(Err(concat2(head.as_str(), error.as_str())));
                    },
                    _ => {
                        let ghost before = texts(self.errors@);
                        let failure = concat3(
                            self.candidates[self.index].as_str(),
                            ": ",
                            error.as_str(),
                        );
                        self.errors.push(failure);
                        assert(texts(self.errors@) =~= before.push(failure@));
                        self.index = self.index + 1;
                        self.step = BootstrapStep::Clear;
                    },
                }
            },
        }
        self.action()
    }
}

/// Every step brings a bootstrap that is not over nearer to its end: no
/// base runtime is tried again, and after four steps for each of them at the
/// most the bootstrap is over.
pub proof fn lemma_bootstrap_moves_on(state: BootstrapModel, result: Result<(), Seq<char>>)
    requires
        state.outcome() is None,
    ensures
        state.after(result).steps_left() < state.steps_left(),
        state.after(result).index >= state.index,
        state.after(result).candidates == state.candidates,
{
}

/// A bootstrap that is over stays over, with the outcome it has.
pub proof fn lemma_bootstrap_end_is_final(state: BootstrapModel, result: Result<(), Seq<char>>)
    requires
        state.outcome() is Some,
    ensures
        state.after(result) == state,
        state.steps_left() == 0,
{
}

/// The first base runtime that gets through the last step wins: the
/// bootstrap is over, with success.
pub proof fn lemma_first_success_wins(state: BootstrapModel)
    requires
        state.outcome() is None,
        state.step is Install,
    ensures
        state.after(Ok(())).outcome() == Some(Ok::<(), Seq<char>>(())),
{
}

/// The failures are kept one for each base runtime that was given up, from
/// the start of the bootstrap on. So a bootstrap in which every base runtime
/// failed ends with the failures of all of them.
pub proof fn lemma_failures_are_kept(state: BootstrapModel, result: Result<(), Seq<char>>)
    requires
        state.consistent(),
    ensures
        state.after(result).consistent(),
        state.after(result).ended is None && state.after(result).outcome() is Some
            ==> state.after(result).outcome() == Some(
            Err::<(), Seq<char>>(aggregate_failure(state.after(result).errors)),
        ) && state.after(result).errors.len() == state.candidates.len(),
        state.outcome() is None && result is Err && !(state.step is Clear) ==> state.after(
            result,
        ).errors == state.errors.push(
            candidate_failure(state.candidates[state.index as int], result->Err_0),
        ),
{
}

/// A bootstrap starts with no failure kept.
pub proof fn lemma_bootstrap_starts_consistent(
    candidates: Seq<Seq<char>>,
    venv_dir: Seq<char>,
    requirements: Seq<char>,
    manifest_exists: bool,
)
    ensures
        BootstrapModel::start(candidates, venv_dir, requirements, manifest_exists).consistent(),
{
}

impl BootstrapModel {
    /// The bootstrap after a run of results, one after the other.
    pub open spec fn after_all(self, results: Seq<Result<(), Seq<char>>>) -> BootstrapModel
        decreases results.len(),
    {
        if results.len() == 0 {
            self
        } else {
            self.after_all(results.drop_last()).after(results.last())
        }
    }
}

/// However the steps come out, a bootstrap is over once it has been told of
/// as many results as it had steps left: after four results for each base
/// runtime at the most.
pub proof fn lemma_bootstrap_ends(state: BootstrapModel, results: Seq<Result<(), Seq<char>>>)
    ensures
        state.after_all(results).steps_left() + results.len() <= state.steps_left()
            || state.after_all(results).outcome() is Some,
        results.len() >= state.steps_left() ==> state.after_all(results).outcome() is Some,
        state.steps_left() <= 4 * state.candidates.len(),
    decreases results.len(),
{
    if results.len() > 0 {
        let before = state.after_all(results.drop_last());
        lemma_bootstrap_ends(state, results.drop_last());
        if before.outcome() is None {
            lemma_bootstrap_moves_on(before, results.last());
        } else {
            lemma_bootstrap_end_is_final(before, results.last());
        }
    }
}

} // verus!
