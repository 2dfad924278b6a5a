use lingcode::remote::{extract_url, remote_control_url, RemoteControl, RemoteStatus, StartDecision};
use lingcode::RemoteServer;

#[test]
fn url_is_pulled_from_log_line() {
    assert_eq!(
        extract_url("listening on http://127.0.0.1:4096 (press Ctrl-C)"),
        Some("http://127.0.0.1:4096".to_string())
    );
    assert_eq!(extract_url("relay at https://lingcode.dev/r/abc"), Some("https://lingcode.dev/r/abc".to_string()));
    assert_eq!(extract_url("no address here"), None);
    assert_eq!(extract_url("ends http://x"), Some("http://x".to_string()));
}

#[test]
fn earliest_address_wins() {
    assert_eq!(
        extract_url("relay https://relay.lingcode.dev/r/42 -> http://127.0.0.1:4096"),
        Some("https://relay.lingcode.dev/r/42".to_string())
    );
    assert_eq!(
        extract_url("http://a.example then https://b.example"),
        Some("http://a.example".to_string())
    );
}

#[test]
fn url_stops_at_unicode_space() {
    assert_eq!(extract_url("at http://host:1\u{3000}more"), Some("http://host:1".to_string()));
}

#[test]
fn server_lifecycle() {
    let mut server = RemoteServer::new();
    assert!(matches!(server.start(), StartDecision::Launch { .. }));
    server.launched();
    assert!(server.is_running());
    server.on_output_line("   ");
    server.on_output_line("starting relay");
    server.on_output_line("listening on http://127.0.0.1:9000");
    server.on_output_line("also http://other:1");
    let running = server.running.as_ref().unwrap();
    assert_eq!(running.url.as_deref(), Some("http://127.0.0.1:9000"));
    assert_eq!(running.lines.len(), 3);
    assert!(matches!(server.start(), StartDecision::AlreadyRunning));
    assert!(server.stop());
    assert!(!server.is_running());
    assert!(server.last_error.is_none());
    assert!(!server.stop());
}

#[test]
fn server_exit_reports_reason() {
    let mut server = RemoteServer::new();
    server.launched();
    server.on_exit();
    assert!(!server.is_running());
    assert!(server.last_error.as_deref().unwrap().starts_with("Remote server stopped"));
    // Starting again clears the error.
    assert!(matches!(server.start(), StartDecision::Launch { .. }));
    assert!(server.last_error.is_none());
}

#[test]
fn launch_failures() {
    let mut server = RemoteServer::new();
    server.launch_failed("No such file or directory");
    assert_eq!(
        server.last_error.as_deref(),
        Some("Failed to launch `lingcode remote`: No such file or directory")
    );
    server.output_not_captured();
    assert_eq!(server.last_error.as_deref(), Some("Failed to capture server output"));
}

#[test]
fn server_log_keeps_latest_hundred() {
    let mut server = RemoteServer::new();
    server.launched();
    for i in 0..150 {
        server.on_output_line(&format!("line {i}"));
    }
    let lines = &server.running.as_ref().unwrap().lines;
    assert_eq!(lines.len(), 100);
    assert_eq!(lines[0], "line 50");
}

#[test]
fn output_while_stopped_is_ignored() {
    let mut server = RemoteServer::new();
    server.on_output_line("listening on http://x");
    assert!(server.running.is_none());
    assert_eq!(remote_control_url(), "https://lingcode.dev/remote-control.html");
}

#[test]
fn panel_follows_the_server() {
    let mut s = RemoteServer::new();
    assert!(matches!(s.status(), RemoteStatus::Stopped));
    assert_eq!(s.controls(), vec![RemoteControl::StartServer, RemoteControl::Close]);
    assert!(s.log_lines().is_empty());
    match s.start() {
        StartDecision::Launch { program, args } => {
            assert_eq!(program, "lingcode");
            assert_eq!(args, vec!["remote"]);
        }
        StartDecision::AlreadyRunning => panic!("expected a launch"),
    }
    s.launched();
    assert!(matches!(s.status(), RemoteStatus::Starting));
    assert_eq!(
        s.controls(),
        vec![RemoteControl::StopServer, RemoteControl::OpenWebClient, RemoteControl::Close]
    );
    s.on_output_line("listening on http://127.0.0.1:4096");
    match s.status() {
        RemoteStatus::Serving(url) => assert_eq!(url, "http://127.0.0.1:4096"),
        _ => panic!("expected the address"),
    }
    assert_eq!(s.log_lines(), vec!["listening on http://127.0.0.1:4096"]);
    s.on_exit();
    match s.status() {
        RemoteStatus::Failed(e) => assert!(e.starts_with("Remote server stopped")),
        _ => panic!("expected the reason"),
    }
    let labels: Vec<&str> = [
        RemoteControl::StopServer,
        RemoteControl::OpenWebClient,
        RemoteControl::StartServer,
        RemoteControl::Close,
    ]
    .iter()
    .map(|c| c.label())
    .collect();
    assert_eq!(labels, vec!["Stop Server", "Open Web Client", "Start Server", "Close"]);
}
