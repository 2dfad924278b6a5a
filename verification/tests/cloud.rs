use lingcode::cloud::{exit_failure_text, CloudTask, DeployEvent};
use lingcode::modal::RunStatus;
use lingcode::CloudModal;

#[test]
fn task_titles_and_args() {
    assert_eq!(CloudTask::Deploy.title(), "Deploy to LingCode Cloud");
    assert_eq!(CloudTask::Deploy.args(), vec!["cloud", "deploy", ".", "--ndjson"]);
    assert_eq!(CloudTask::Connect.args(), vec!["cloud", "connect", "."]);
    assert_eq!(CloudTask::Disconnect.args(), vec!["cloud", "disconnect", "."]);
    assert!(CloudTask::Deploy.is_ndjson());
    assert!(!CloudTask::Connect.is_ndjson());
}

#[test]
fn deploy_events_render() {
    let mut modal = CloudModal::new(CloudTask::Deploy);
    let task = CloudTask::Deploy;
    modal.on_output_line(task, String::new(), Some(DeployEvent::Detect { pm: "npm".into(), out_dir: "dist".into() }));
    modal.on_output_line(task, String::new(), Some(DeployEvent::Build { line: "vite build".into() }));
    modal.on_output_line(task, String::new(), Some(DeployEvent::Package { bytes: 5000 }));
    modal.on_output_line(task, String::new(), Some(DeployEvent::Upload { status: "ok".into(), mode: "full".into() }));
    modal.on_output_line(task, String::new(), Some(DeployEvent::Poll { job_id: "j1".into() }));
    modal.on_output_line(task, "not json".into(), None);
    modal.on_output_line(task, String::new(), Some(DeployEvent::Done { url: "https://app.lingcode.dev".into() }));
    assert_eq!(
        modal.lines,
        vec![
            "Detected npm → dist",
            "  vite build",
            "Packaged 4 KB",
            "Upload ok (full)",
            "Building on cloud… (j1)",
            "not json",
            "Live at https://app.lingcode.dev",
        ]
    );
    assert_eq!(modal.url.as_deref(), Some("https://app.lingcode.dev"));
    assert!(matches!(modal.status, RunStatus::Done));
}

#[test]
fn deploy_error_event_survives_clean_exit() {
    let mut modal = CloudModal::new(CloudTask::Deploy);
    modal.apply_event(DeployEvent::Error { message: "quota".into() });
    assert_eq!(modal.lines, vec!["Error: quota"]);
    modal.finish(Ok(()));
    assert!(matches!(&modal.status, RunStatus::Error(m) if m == "quota"));
}

#[test]
fn plain_tasks_log_raw_lines() {
    let mut modal = CloudModal::new(CloudTask::Connect);
    assert_eq!(modal.title, "Connect LingCode Cloud Backend");
    modal.on_output_line(CloudTask::Connect, "connected".into(), None);
    assert_eq!(modal.lines, vec!["connected"]);
    modal.finish(Ok(()));
    assert!(matches!(modal.status, RunStatus::Done));
}

#[test]
fn failed_exit_messages() {
    assert_eq!(exit_failure_text("exit status: 2", "  \n"), "`lingcode` exited with status exit status: 2");
    assert_eq!(exit_failure_text("exit status: 2", "\n  not signed in\n"), "not signed in");
    let mut modal = CloudModal::new(CloudTask::Deploy);
    modal.on_failed_exit("exit status: 1", "boom");
    assert!(matches!(&modal.status, RunStatus::Error(m) if m == "boom"));
}
