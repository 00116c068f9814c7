use media_worker::runtime::{runtime_layout, setup_step, SetupStep};
use media_worker::runtime::{
    bundled_python_candidates, command_result, create_environment_command, import_check_command,
    install_manifest_command, join_texts, locate_requirements, locate_worker_script, plan_repair,
    requirements_candidates, resolve_existing_path, resolve_python_candidates, resolve_tool,
    upgrade_installer_command, worker_script_candidates, yap_candidates, Bootstrap,
    BootstrapAction, BootstrapStep, CommandLine, CommandRun, Probe, Repair,
};

fn strings(values: &[&str]) -> Vec<String> {
    values.iter().map(|value| value.to_string()).collect()
}

fn probe(path: &str, exists: bool) -> Probe {
    Probe { path: path.to_string(), exists }
}

fn command(binary: &str, args: &[&str]) -> CommandLine {
    CommandLine { binary: binary.to_string(), args: strings(args) }
}

fn failed(stderr: &str) -> Result<(), String> {
    Err(stderr.to_string())
}

#[test]
fn the_first_candidate_that_exists_wins() {
    assert_eq!(resolve_existing_path(&[]), None);
    assert_eq!(resolve_existing_path(&[probe("a", false), probe("b", false)]), None);
    assert_eq!(
        resolve_existing_path(&[probe("a", false), probe("b", true), probe("c", true)]),
        Some("b".to_string())
    );
    assert_eq!(resolve_existing_path(&[probe("a", true)]), Some("a".to_string()));
}

#[test]
fn the_parts_of_the_worker_are_looked_for_in_order() {
    assert_eq!(
        worker_script_candidates("/res"),
        strings(&[
            "python-worker/worker.py",
            "../python-worker/worker.py",
            "/res/python-worker/worker.py"
        ])
    );
    assert_eq!(
        requirements_candidates("/res/"),
        strings(&[
            "python-worker/requirements.lock.txt",
            "../python-worker/requirements.lock.txt",
            "/res/python-worker/requirements.lock.txt"
        ])
    );
    assert_eq!(
        bundled_python_candidates("/res"),
        strings(&[
            "/res/python/bin/python3",
            "/res/runtime/python/bin/python3",
            "/res/python/python3"
        ])
    );
    assert_eq!(
        yap_candidates(Some("/res"), "/data/runtime"),
        strings(&[
            "/res/assets/bin/yap.sh",
            "/res/assets/bin/yap",
            "assets/bin/yap.sh",
            "assets/bin/yap",
            "/data/runtime/bin/yap.sh",
            "/data/runtime/bin/yap"
        ])
    );
    assert_eq!(
        yap_candidates(None, "rt"),
        strings(&["assets/bin/yap.sh", "assets/bin/yap", "rt/bin/yap.sh", "rt/bin/yap"])
    );
}

#[test]
fn a_missing_part_is_a_setup_error() {
    assert_eq!(
        locate_worker_script(&[probe("a", false)]),
        Err("Failed to locate python worker entrypoint (worker.py).".to_string())
    );
    assert_eq!(
        locate_requirements(&[]),
        Err("Failed to locate python worker requirements.lock.txt.".to_string())
    );
    assert_eq!(locate_worker_script(&[probe("a", false), probe("b", true)]), Ok("b".to_string()));
    assert_eq!(locate_requirements(&[probe("r", true)]), Ok("r".to_string()));
}

#[test]
fn a_configured_base_runtime_is_the_only_candidate() {
    assert_eq!(
        resolve_python_candidates(Some("/opt/py".to_string()), &[probe("/res/python3", true)]),
        strings(&["/opt/py"])
    );
    assert_eq!(
        resolve_python_candidates(
            None,
            &[probe("/res/a", false), probe("/res/b", true), probe("/res/c", true)]
        ),
        strings(&["/res/b", "/res/c", "python3.14", "python3.13", "python3.12", "python3"])
    );
    assert_eq!(
        resolve_python_candidates(None, &[]),
        strings(&["python3.14", "python3.13", "python3.12", "python3"])
    );
}

#[test]
fn a_tool_is_the_configured_one_or_the_first_found_or_its_bare_name() {
    let candidates = [probe("/rt/bin/ffmpeg", true)];
    assert_eq!(resolve_tool(Some("/x/ffmpeg".to_string()), &candidates, "ffmpeg"), "/x/ffmpeg");
    assert_eq!(resolve_tool(None, &candidates, "ffmpeg"), "/rt/bin/ffmpeg");
    assert_eq!(resolve_tool(None, &[probe("/rt/bin/ffmpeg", false)], "ffmpeg"), "ffmpeg");
    assert_eq!(
        resolve_tool(None, &[probe("a", false), probe("b", true), probe("c", true)], "yap"),
        "b"
    );
}

#[test]
fn the_commands_of_the_bootstrap() {
    assert_eq!(
        create_environment_command("python3.13", "/rt/venv"),
        command("python3.13", &["-m", "venv", "/rt/venv"])
    );
    assert_eq!(
        upgrade_installer_command("/rt/venv/bin/python3"),
        command("/rt/venv/bin/python3", &["-m", "pip", "install", "--upgrade", "pip"])
    );
    assert_eq!(
        install_manifest_command("/rt/venv/bin/python3", "req.txt"),
        command("/rt/venv/bin/python3", &["-m", "pip", "install", "-r", "req.txt"])
    );
    assert_eq!(
        import_check_command("py"),
        command("py", &["-c", "import demucs, torch, torchaudio, torchcodec"])
    );
}

#[test]
fn the_outcome_of_a_run() {
    let run = CommandRun::Exited {
        success: true,
        status: "exit status: 0".to_string(),
        stderr: "warn".to_string(),
    };
    assert_eq!(command_result("pip", &run), Ok(()));
    let run = CommandRun::Exited {
        success: false,
        status: "exit status: 2".to_string(),
        stderr: "no such option".to_string(),
    };
    assert_eq!(
        command_result("pip", &run),
        Err("Command `pip` failed with status exit status: 2: no such option".to_string())
    );
    assert_eq!(
        command_result("python9", &CommandRun::NotStarted("not found".to_string())),
        Err("Failed to execute command python9: not found".to_string())
    );
}

#[test]
fn the_repair_follows_a_failed_check_only() {
    let ok = CommandRun::Exited { success: true, status: "0".to_string(), stderr: String::new() };
    let bad = CommandRun::Exited { success: false, status: "1".to_string(), stderr: "x".to_string() };
    assert_eq!(plan_repair("py", "req.txt", &ok), Ok(Repair::NotNeeded));
    assert_eq!(
        plan_repair("py", "req.txt", &bad),
        Ok(Repair::Reinstall(command("py", &["-m", "pip", "install", "-r", "req.txt"])))
    );
    assert_eq!(
        plan_repair("py", "req.txt", &CommandRun::NotStarted("denied".to_string())),
        Err("Failed to execute python import check: denied".to_string())
    );
}

#[test]
fn strings_are_joined_with_a_separator() {
    assert_eq!(join_texts(&Vec::new(), " | "), "");
    assert_eq!(join_texts(&strings(&["a"]), " | "), "a");
    assert_eq!(join_texts(&strings(&["a", "b", "c"]), " | "), "a | b | c");
    assert_eq!(join_texts(&strings(&["", ""]), ","), ",");
}

#[test]
fn the_first_base_runtime_that_gets_through_wins() {
    let mut bootstrap = Bootstrap::start(
        strings(&["python3.14", "python3"]),
        "/rt/venv".to_string(),
        "req.txt".to_string(),
        true,
    );
    assert_eq!(bootstrap.outcome(), None);
    assert_eq!(bootstrap.action(), BootstrapAction::ClearDirectory("/rt/venv".to_string()));
    assert_eq!(
        bootstrap.advance(Ok(())),
        BootstrapAction::Run(command("python3.14", &["-m", "venv", "/rt/venv"]))
    );
    assert_eq!(
        bootstrap.advance(Ok(())),
        BootstrapAction::Run(command(
            "/rt/venv/bin/python3",
            &["-m", "pip", "install", "--upgrade", "pip"]
        ))
    );
    assert_eq!(
        bootstrap.advance(failed("pip broke")),
        BootstrapAction::ClearDirectory("/rt/venv".to_string())
    );
    assert_eq!(bootstrap.index, 1);
    assert_eq!(bootstrap.step, BootstrapStep::Clear);
    assert_eq!(bootstrap.errors, strings(&["python3.14: pip broke"]));
    assert_eq!(
        bootstrap.advance(Ok(())),
        BootstrapAction::Run(command("python3", &["-m", "venv", "/rt/venv"]))
    );
    bootstrap.advance(Ok(()));
    assert_eq!(
        bootstrap.advance(Ok(())),
        BootstrapAction::Run(command(
            "/rt/venv/bin/python3",
            &["-m", "pip", "install", "-r", "req.txt"]
        ))
    );
    assert_eq!(bootstrap.advance(Ok(())), BootstrapAction::Finished(Ok(())));
    assert_eq!(bootstrap.outcome(), Some(Ok(())));
    assert_eq!(bootstrap.advance(failed("late")), BootstrapAction::Finished(Ok(())));
    assert_eq!(bootstrap.errors, strings(&["python3.14: pip broke"]));
}

#[test]
fn the_failures_of_all_base_runtimes_make_one_error() {
    let mut bootstrap = Bootstrap::start(
        strings(&["a", "b", "c"]),
        "/v".to_string(),
        "req.txt".to_string(),
        true,
    );
    bootstrap.advance(Ok(()));
    bootstrap.advance(failed("no venv"));
    bootstrap.advance(Ok(()));
    bootstrap.advance(Ok(()));
    bootstrap.advance(Ok(()));
    bootstrap.advance(failed("no network"));
    bootstrap.advance(Ok(()));
    bootstrap.advance(Ok(()));
    let last = bootstrap.advance(failed("old pip"));
    let message = "Failed to bootstrap Python runtime with all candidates. a: no venv | b: no network | c: old pip";
    assert_eq!(last, BootstrapAction::Finished(Err(message.to_string())));
    assert_eq!(bootstrap.outcome(), Some(Err(message.to_string())));
    assert_eq!(bootstrap.advance(Ok(())), BootstrapAction::Finished(Err(message.to_string())));
    assert_eq!(bootstrap.index, 3);
}

#[test]
fn a_bootstrap_ends_early_on_a_missing_manifest_and_on_a_directory_that_stays() {
    let mut bootstrap =
        Bootstrap::start(strings(&["a"]), "/v".to_string(), "/p/req.txt".to_string(), false);
    assert_eq!(
        bootstrap.action(),
        BootstrapAction::Finished(Err("Missing requirements lock file at /p/req.txt".to_string()))
    );
    assert_eq!(
        bootstrap.advance(Ok(())),
        BootstrapAction::Finished(Err("Missing requirements lock file at /p/req.txt".to_string()))
    );

    let mut bootstrap =
        Bootstrap::start(strings(&["a", "b"]), "/v".to_string(), "req.txt".to_string(), true);
    assert_eq!(
        bootstrap.advance(failed("permission denied")),
        BootstrapAction::Finished(Err(
            "Failed to clear runtime venv directory /v: permission denied".to_string()
        ))
    );
    assert!(bootstrap.errors.is_empty());

    let bootstrap = Bootstrap::start(Vec::new(), "/v".to_string(), "req.txt".to_string(), true);
    assert_eq!(
        bootstrap.action(),
        BootstrapAction::Finished(Err(
            "Failed to bootstrap Python runtime with all candidates. ".to_string()
        ))
    );
}

#[test]
fn a_bootstrap_is_over_after_four_steps_for_each_base_runtime_at_most() {
    let mut bootstrap =
        Bootstrap::start(strings(&["a", "b", "c"]), "/v".to_string(), "r".to_string(), true);
    let mut steps = 0;
    while bootstrap.outcome().is_none() {
        let result = if steps % 4 == 3 { failed("x") } else { Ok(()) };
        bootstrap.advance(result);
        steps += 1;
        assert!(steps <= 12);
    }
    assert_eq!(steps, 12);
}

#[test]
fn the_runtime_lies_below_the_data_directory() {
    let layout = runtime_layout("/data/app");
    assert_eq!(layout.runtime_dir, "/data/app/runtime");
    assert_eq!(layout.venv_dir, "/data/app/runtime/venv");
    assert_eq!(layout.venv_python, "/data/app/runtime/venv/bin/python3");
    assert_eq!(layout.bundled_ffmpeg, "/data/app/runtime/bin/ffmpeg");
}

#[test]
fn an_environment_that_is_there_is_not_built_again() {
    assert_eq!(setup_step(true), SetupStep::Verify);
    assert_eq!(setup_step(false), SetupStep::Build);
}
