use lingcode::install::{command_line, detect, package_managers, InstallModal};
use lingcode::modal::RunStatus;

/// The managers detected in a project whose marker files are `files`.
fn detect_in(files: &[&str]) -> Vec<&'static str> {
    let present: Vec<String> = files.iter().map(|f| f.to_string()).collect();
    detect(&package_managers(), &present)
}

#[test]
fn npm_suppressed_by_yarn_lock() {
    let detected = detect_in(&["package.json", "yarn.lock"]);
    assert!(detected.contains(&"yarn"));
    assert!(!detected.contains(&"npm"));
}

#[test]
fn plain_npm_when_no_lockfile() {
    assert_eq!(detect_in(&["package.json"]), vec!["npm"]);
}

#[test]
fn multiple_ecosystems_detected() {
    let detected = detect_in(&["Cargo.toml", "go.mod"]);
    assert!(detected.contains(&"cargo"));
    assert!(detected.contains(&"go"));
}

#[test]
fn empty_project_detects_nothing() {
    assert!(detect_in(&[]).is_empty());
}

#[test]
fn pip_suppressed_by_poetry_lock() {
    assert_eq!(detect_in(&["requirements.txt", "poetry.lock"]), vec!["poetry"]);
    assert_eq!(detect_in(&["requirements.txt"]), vec!["pip"]);
}

#[test]
fn npm_suppressed_by_every_lockfile() {
    for lock in ["pnpm-lock.yaml", "bun.lockb", "bun.lock"] {
        let detected = detect_in(&["package.json", lock]);
        assert!(!detected.contains(&"npm"), "{lock}");
        assert_eq!(detected.len(), 1);
    }
}

#[test]
fn detection_follows_table_order() {
    assert_eq!(
        detect_in(&["Package.swift", "go.mod", "Cargo.toml", "pnpm-lock.yaml", "pom.xml"]),
        vec!["pnpm", "cargo", "go", "maven", "swift"]
    );
    assert_eq!(detect_in(&["paket.dependencies"]), vec!["dotnet"]);
}

#[test]
fn unrelated_files_detect_nothing() {
    assert!(detect_in(&["README.md", "yarn.lockfile"]).is_empty());
}

#[test]
fn install_command_lines() {
    let managers = package_managers();
    assert_eq!(command_line(&managers[7]), "→ python -m pip install -r requirements.txt");
    assert_eq!(command_line(&managers[4]), "→ cargo fetch");
}

#[test]
fn install_view_lines_and_status() {
    let managers = package_managers();
    let mut modal = InstallModal::new();
    modal.report_detected(&["yarn", "cargo"]);
    modal.push_output("added 10 packages");
    modal.push_result(&managers[1], true, "exit status: 0");
    modal.push_result(&managers[4], false, "exit status: 101");
    modal.push_not_found(&managers[9], "program not found");
    assert_eq!(
        modal.lines,
        vec![
            "Detected: yarn, cargo",
            "  added 10 packages",
            "yarn ✓",
            "cargo failed (exit status: 101)",
            "  bundle not found (program not found)",
        ]
    );
    modal.finish_installs(true);
    modal.finish(Ok(()));
    assert!(matches!(&modal.status, RunStatus::Error(m) if m == "One or more installs failed."));
}

#[test]
fn install_view_without_managers() {
    let mut modal = InstallModal::new();
    modal.report_detected(&[]);
    assert_eq!(modal.lines, vec!["No recognized package manager in this project."]);
    modal.finish_installs(false);
    modal.finish(Ok(()));
    assert!(matches!(modal.status, RunStatus::Done));
}

#[test]
fn install_view_keeps_latest_lines() {
    let mut modal = InstallModal::new();
    for i in 0..250 {
        modal.push_line(format!("line {i}"));
    }
    assert_eq!(modal.lines.len(), 200);
    assert_eq!(modal.lines[0], "line 50");
    assert_eq!(modal.lines[199], "line 249");
}

#[test]
fn failed_run_overrides_status() {
    let mut modal = InstallModal::new();
    modal.finish(Err("failed to await install exit".to_string()));
    assert!(matches!(&modal.status, RunStatus::Error(m) if m == "failed to await install exit"));
}
