use media_worker::commands::{
    create_task_jobs, default_moderation_settings, ensure_supported_cancel_mode,
    ensure_supported_cut_output_mode, ensure_supported_output_mode, ensure_supported_yap_mode,
    require_worker_sender,
};

#[test]
fn should_reject_unsupported_output_mode() {
    let result = ensure_supported_output_mode("custom_mode");
    assert!(result.is_err());
}

#[test]
fn should_reject_unsupported_cut_output_mode() {
    let result = ensure_supported_cut_output_mode("custom_mode");
    assert!(result.is_err());
}

#[test]
fn should_reject_unsupported_yap_mode() {
    let result = ensure_supported_yap_mode("manual");
    assert!(result.is_err());
}

#[test]
fn should_error_when_cancel_requested_without_running_worker() {
    let result = require_worker_sender(None);
    assert!(result.is_err());
    assert_eq!(result.err().unwrap_or_default(), "Worker is not running.");
}

#[test]
fn should_reject_unsupported_cancel_mode() {
    let result = ensure_supported_cancel_mode("immediate");
    assert!(result.is_err());
}

#[test]
fn should_create_task_jobs_with_empty_logs() {
    let jobs = create_task_jobs(&["/tmp/a.mov".to_string()]);
    assert_eq!(jobs.len(), 1);
    assert!(jobs[0].logs.is_empty());
}

#[test]
fn should_provide_default_moderation_rules() {
    let settings = default_moderation_settings();
    assert!(!settings.rules.is_empty());
    assert_eq!(settings.rules[0].priority, "high");
}
