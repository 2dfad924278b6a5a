use lingcode::lingmodel::SignInRejection;
use lingcode::play::{assertion_body, JwtFailure};
use lingcode::android::analyzed_artifact;
use lingcode::android_text::bump_first_declared;
use lingcode::lingmodel::{plan_update, Plan, PlanUpdate};
use lingcode::play::located_bundle;
use lingcode::android::{route, AndroidAction, AndroidCommand, AndroidRoute};
use lingcode::cloud::{cloud_route, CloudCommand, CloudRoute};
use lingcode::android::AndroidJob;
use lingcode::cloud::{CloudTask, DeployEvent};
use lingcode::lingmodel::{ConfigurationPanel, ConfigurationView, PlanRefresh};
use lingcode::modal::{FooterItem, FooterKind};
use lingcode::templates::DirSearch;
use lingcode::{AndroidModal, CloudModal, InstallModal, State};

fn kinds(items: &[FooterItem]) -> Vec<(FooterKind, &str)> {
    items.iter().map(|i| (i.kind, i.text.as_str())).collect()
}

#[test]
fn cloud_footer_shows_the_deploy_address() {
    let mut m = CloudModal::new(CloudTask::Deploy);
    assert_eq!(kinds(&m.footer()), vec![(FooterKind::Busy, "Working…")]);
    m.apply_event(DeployEvent::Done { url: "https://app.lingcode.dev/x".to_string() });
    assert_eq!(
        kinds(&m.footer()),
        vec![(FooterKind::Link, "https://app.lingcode.dev/x"), (FooterKind::Close, "Close")]
    );
}

#[test]
fn install_footer_says_done_or_the_error() {
    let mut m = InstallModal::new();
    assert_eq!(kinds(&m.footer()), vec![(FooterKind::Busy, "Installing…")]);
    m.finish(Ok(()));
    assert_eq!(kinds(&m.footer()), vec![(FooterKind::Success, "Done"), (FooterKind::Close, "Close")]);
    let mut m = InstallModal::new();
    m.finish_installs(true);
    m.finish(Ok(()));
    assert_eq!(
        kinds(&m.footer()),
        vec![(FooterKind::Failure, "One or more installs failed."), (FooterKind::Close, "Close")]
    );
}

#[test]
fn android_footer_of_a_report() {
    let m = AndroidModal::new("Android Doctor".to_string(), AndroidJob::Report(vec!["x".to_string()]));
    assert_eq!(kinds(&m.footer()), vec![(FooterKind::Close, "Close")]);
    let m = AndroidModal::new("Logcat".to_string(), AndroidJob::Logcat { adb: "adb".to_string() });
    assert_eq!(kinds(&m.footer()), vec![(FooterKind::Busy, "Working…")]);
}

#[test]
fn configuration_panel_states() {
    let mut view = ConfigurationView::new();
    let mut state = State::new(true);
    assert!(matches!(view.panel(&state), ConfigurationPanel::Loading));
    view.credentials_loaded();
    assert!(matches!(view.panel(&state), ConfigurationPanel::Editor));
    let refresh = state.set_api_key(Some("k".to_string()));
    assert!(matches!(refresh, PlanRefresh::Fetch(ref t) if t == "k"));
    match view.panel(&state) {
        ConfigurationPanel::Configured { label, from_env } => {
            assert_eq!(label, "LingModel API key configured");
            assert!(!from_env);
        }
        _ => panic!("expected the configured card"),
    }
    state.api_key_from_env = true;
    match view.panel(&state) {
        ConfigurationPanel::Configured { label, from_env } => {
            assert_eq!(label, "API key set in LINGMODEL_API_KEY environment variable");
            assert!(from_env);
        }
        _ => panic!("expected the configured card"),
    }
    assert!(matches!(state.set_api_key(None), PlanRefresh::Clear));
    assert!(matches!(view.panel(&state), ConfigurationPanel::Editor));
}

#[test]
fn directory_search_moves_on() {
    let mut search = DirSearch::new("web-game");
    assert_eq!(search.candidate(), "web-game");
    search.on_taken();
    assert_eq!(search.candidate(), "web-game-1");
    search.on_taken();
    assert_eq!(search.candidate(), "web-game-2");
}

#[test]
fn completion_needs_a_key() {
    let mut provider = lingcode::LingModelLanguageModelProvider::new(true);
    let model = provider.default_model();
    assert_eq!(model.cache_configuration(), None);
    assert_eq!(
        model.completion_key(&provider.state),
        Err(lingcode::lingmodel::CompletionRefusal::NoApiKey)
    );
    provider.state.set_api_key(Some("secret".to_string()));
    assert_eq!(model.api_key(&provider.state), Some("secret".to_string()));
    assert_eq!(model.completion_key(&provider.state), Ok("secret".to_string()));
    assert!(matches!(provider.reset_credentials(), PlanRefresh::Clear));
    assert_eq!(model.api_key(&provider.state), None);
}

#[test]
fn commands_are_routed() {
    assert_eq!(route(AndroidCommand::ListDevices), AndroidRoute::Action(AndroidAction::Devices));
    assert_eq!(route(AndroidCommand::StartEmulator), AndroidRoute::StartEmulator);
    assert_eq!(route(AndroidCommand::DeployToPlay), AndroidRoute::DeployToPlay);
    assert!(matches!(cloud_route(CloudCommand::ConnectBackend), CloudRoute::Task(CloudTask::Connect)));
    assert!(matches!(
        cloud_route(CloudCommand::ShareCloudProject),
        CloudRoute::OpenUrl("https://lingcode.dev/project.html")
    ));
}

#[test]
fn plan_is_kept_when_the_fetch_fails() {
    let fetch = PlanRefresh::Fetch("tok".to_string());
    assert_eq!(plan_update(&fetch, None), PlanUpdate::Keep);
    assert_eq!(plan_update(&fetch, Some(Plan::Pro)), PlanUpdate::Publish(Some(Plan::Pro)));
    assert_eq!(plan_update(&PlanRefresh::Clear, Some(Plan::Pro)), PlanUpdate::Publish(None));
    assert_eq!(plan_update(&PlanRefresh::Skip, None), PlanUpdate::Keep);
}

#[test]
fn artifact_and_bundle_choice() {
    let c = vec![("a.apk".to_string(), false), ("b.aab".to_string(), true), ("c.apk".to_string(), true)];
    assert_eq!(analyzed_artifact(&c), Ok("b.aab".to_string()));
    assert_eq!(
        analyzed_artifact(&[("a.apk".to_string(), false)]),
        Err("No built APK/AAB found — build the app first.".to_string())
    );
    assert_eq!(located_bundle(None, &c), Some("b.aab".to_string()));
    // A configured path that is no file finds nothing, whatever else exists.
    assert_eq!(located_bundle(Some(("x.aab".to_string(), false)), &c), None);
    assert_eq!(located_bundle(Some(("x.aab".to_string(), true)), &c), Some("x.aab".to_string()));
}

#[test]
fn first_declaring_build_file_is_bumped() {
    let texts = vec![
        None,
        Some("versionCode = computeVersion()\nminSdk 24\n".to_string()),
        Some("defaultConfig { versionCode 7 }".to_string()),
        Some("versionCode 100".to_string()),
    ];
    assert_eq!(
        bump_first_declared(&texts),
        Some((2, 7, 8, "defaultConfig { versionCode 8 }".to_string()))
    );
    assert_eq!(bump_first_declared(&[None, Some("minSdk 24".to_string())]), None);
}

#[test]
fn cloud_done_event_records_address() {
    let mut m = CloudModal::new(CloudTask::Deploy);
    let line = "{\"phase\":\"done\",\"url\":\"https://demo.lingcode.app\"}".to_string();
    m.on_output_line(
        CloudTask::Deploy,
        line,
        Some(DeployEvent::Done { url: "https://demo.lingcode.app".to_string() }),
    );
    m.finish(Ok(()));
    assert_eq!(m.url.as_deref(), Some("https://demo.lingcode.app"));
    assert!(matches!(m.status, lingcode::modal::RunStatus::Done));
    assert_eq!(m.lines, vec!["Live at https://demo.lingcode.app"]);
    let mut m = CloudModal::new(CloudTask::Deploy);
    m.on_output_line(CloudTask::Deploy, "x".to_string(), Some(DeployEvent::Error { message: "boom".to_string() }));
    assert!(matches!(&m.status, lingcode::modal::RunStatus::Error(e) if e == "boom"));
}

#[test]
fn assertion_body_for_each_signing_outcome() {
    assert_eq!(
        assertion_body(Ok("h.c.s".to_string())),
        Ok("grant_type=urn:ietf:params:oauth:grant-type:jwt-bearer&assertion=h.c.s".to_string())
    );
    assert_eq!(
        assertion_body(Err(JwtFailure::InvalidKey)),
        Err("invalid service account private key".to_string())
    );
    assert_eq!(assertion_body(Err(JwtFailure::Signing)), Err("signing the auth JWT".to_string()));
}

#[test]
fn sign_in_uses_the_drawn_bytes() {
    let mut state = State::new(false);
    let url = state.begin_sign_in_with(&[0u8; 32], &[0xffu8; 16]);
    let pending = state.pending.as_ref().unwrap();
    assert_eq!(pending.verifier, "A".repeat(43));
    assert_eq!(pending.state, format!("{}w", "_".repeat(21)));
    assert!(url.starts_with("https://lingcode.dev/oauth/authorize?response_type=code&client_id=lingcode-ide"));
    assert!(url.ends_with(&format!("&code_challenge_method=S256&state={}", pending.state)));
    assert!(url.contains(&format!("&code_challenge={}&", lingcode::lingmodel::code_challenge(&pending.verifier))));
}

#[test]
fn install_run_outcome() {
    let mut m = InstallModal::new();
    m.finish_run(&[true, true]);
    assert_eq!(kinds(&m.footer()), vec![(FooterKind::Success, "Done"), (FooterKind::Close, "Close")]);
    let mut m = InstallModal::new();
    m.finish_run(&[true, false]);
    assert_eq!(
        kinds(&m.footer()),
        vec![(FooterKind::Failure, "One or more installs failed."), (FooterKind::Close, "Close")]
    );
}

#[test]
fn rejection_messages() {
    assert_eq!(
        SignInRejection::Failed("denied".to_string()).message(),
        "LingModel sign-in failed: denied"
    );
    assert_eq!(
        SignInRejection::StateMismatch.message(),
        "LingModel sign-in: state mismatch; ignoring callback"
    );
}
