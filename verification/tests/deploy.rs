use lingcode::android::PlayConfig;
use lingcode::play::{BumpOutcome, DeployRequest, PlayDeploy};

fn config(auto_bump: bool) -> PlayConfig {
    PlayConfig {
        service_account_json_path: "/keys/sa.json".to_string(),
        package_name: "com.example.app".to_string(),
        track: "beta".to_string(),
        auto_bump_version_code: auto_bump,
        aab_path: None,
    }
}

const BASE: &str = "https://androidpublisher.googleapis.com/androidpublisher/v3/applications/com.example.app";

#[test]
fn deploy_starts_with_the_bump_when_configured() {
    let d = PlayDeploy::new(config(true));
    let s = d.start();
    assert!(s.lines.is_empty());
    assert!(matches!(s.request, DeployRequest::BumpVersionCode));
    let s = d.on_bumped(&BumpOutcome::Bumped { old: 7, new: 8 });
    assert_eq!(s.lines, vec!["Bumped versionCode 7 → 8", "Building release bundle…"]);
    assert!(matches!(s.request, DeployRequest::ResolveGradle));
}

#[test]
fn deploy_without_bump_builds_first() {
    let d = PlayDeploy::new(config(false));
    let s = d.start();
    assert_eq!(s.lines, vec!["Building release bundle…"]);
    assert!(matches!(s.request, DeployRequest::ResolveGradle));
}

#[test]
fn deploy_fails_without_gradle_or_bundle() {
    let d = PlayDeploy::new(config(false));
    match d.on_gradle(None).request {
        DeployRequest::Finish(Err(m)) => {
            assert_eq!(m, "No Gradle wrapper (gradlew) and no system `gradle` on PATH.")
        }
        _ => panic!("expected a failure"),
    }
    match d.on_build_finished(false).request {
        DeployRequest::Finish(Err(m)) => assert_eq!(m, "Release build failed."),
        _ => panic!("expected a failure"),
    }
    match d.on_bundle_located(None).request {
        DeployRequest::Finish(Err(m)) => {
            assert_eq!(m, "could not find the built .aab (set \"aab_path\" in the config)")
        }
        _ => panic!("expected a failure"),
    }
}

#[test]
fn deploy_walks_through_the_play_api() {
    let mut d = PlayDeploy::new(config(false));
    assert_eq!(d.base, BASE);
    let s = d.on_gradle(Some(("./gradlew".to_string(), vec!["bundleRelease".to_string()])));
    assert!(matches!(s.request, DeployRequest::RunBuild { ref program, .. } if program == "./gradlew"));
    let s = d.on_build_finished(true);
    assert!(matches!(s.request, DeployRequest::LocateBundle { explicit: None }));
    let s = d.on_bundle_located(Some("/p/app-release.aab".to_string()));
    assert_eq!(s.lines, vec!["Built /p/app-release.aab"]);
    let s = d.on_bundle_read(Ok(()));
    assert_eq!(s.lines, vec!["Authenticating with Google Play…"]);
    assert!(matches!(s.request, DeployRequest::LoadServiceAccount { ref path } if path == "/keys/sa.json"));

    let s = d.on_token_reply(true, "200 OK", "{\"access_token\":\"tok\"}");
    assert_eq!(d.token.as_deref(), Some("tok"));
    assert_eq!(s.lines, vec!["Creating Play edit…"]);
    assert!(matches!(s.request, DeployRequest::CreateEdit { ref url } if *url == format!("{BASE}/edits")));

    let s = d.on_edit_reply(true, "200 OK", "{\"id\":\"E9\"}");
    assert_eq!(d.edit_id.as_deref(), Some("E9"));
    assert_eq!(s.lines, vec!["Uploading bundle…"]);
    assert!(matches!(s.request, DeployRequest::UploadBundle { ref url } if url.ends_with("/edits/E9/bundles?uploadType=media")));

    let s = d.on_upload_reply(true, "200 OK", "{\"versionCode\":31}");
    assert_eq!(d.version_code, Some(31));
    assert_eq!(s.lines, vec!["Uploaded versionCode 31", "Assigning to 'beta' track…"]);
    match s.request {
        DeployRequest::AssignTrack { url, body } => {
            assert_eq!(url, format!("{BASE}/edits/E9/tracks/beta"));
            assert_eq!(
                body,
                "{\"releases\":[{\"status\":\"completed\",\"versionCodes\":[\"31\"]}],\"track\":\"beta\"}"
            );
        }
        _ => panic!("expected the track assignment"),
    }

    let s = d.on_assign_reply(true, "200 OK", "{}");
    assert_eq!(s.lines, vec!["Committing…"]);
    assert!(matches!(s.request, DeployRequest::Commit { ref url } if *url == format!("{BASE}/edits/E9:commit")));

    let s = d.on_commit_reply(true, "200 OK", "");
    assert_eq!(s.lines, vec!["Done — versionCode 31 released to 'beta'."]);
    assert!(matches!(s.request, DeployRequest::Finish(Ok(()))));
}

#[test]
fn deploy_reports_failed_replies() {
    let mut d = PlayDeploy::new(config(false));
    match d.on_token_reply(false, "401 Unauthorized", "nope").request {
        DeployRequest::Finish(Err(m)) => assert_eq!(m, "Google OAuth failed (401 Unauthorized): nope"),
        _ => panic!("expected a failure"),
    }
    assert_eq!(d.token, None);
    match d.on_token_reply(true, "200 OK", "{}").request {
        DeployRequest::Finish(Err(m)) => assert_eq!(m, "OAuth response had no access_token"),
        _ => panic!("expected a failure"),
    }
    match d.on_edit_reply(false, "500", "boom").request {
        DeployRequest::Finish(Err(m)) => assert_eq!(m, format!("Play API {BASE}/edits failed (500): boom")),
        _ => panic!("expected a failure"),
    }
    assert_eq!(d.edit_id, None);
    match d.on_edit_reply(true, "200 OK", "").request {
        DeployRequest::Finish(Err(m)) => assert_eq!(m, "Play API did not return an edit id"),
        _ => panic!("expected a failure"),
    }
    d.edit_id = Some("E1".to_string());
    match d.on_upload_reply(true, "200 OK", "{}").request {
        DeployRequest::Finish(Err(m)) => assert_eq!(m, "Play API did not return a versionCode"),
        _ => panic!("expected a failure"),
    }
    match d.on_assign_reply(true, "200 OK", "<html>").request {
        DeployRequest::Finish(Err(m)) => {
            assert_eq!(m, format!("parsing Play API response from {BASE}/edits/E1/tracks/beta"))
        }
        _ => panic!("expected a failure"),
    }
}

#[test]
fn deploy_service_account_failures_pass_through() {
    let d = PlayDeploy::new(config(false));
    let s = d.on_service_account(Err("reading service account JSON at /x".to_string()), 0);
    match s.request {
        DeployRequest::Finish(Err(m)) => assert_eq!(m, "reading service account JSON at /x"),
        _ => panic!("expected a failure"),
    }
    let s = d.on_service_account(
        Ok(("a@b".to_string(), "not a key".to_string(), "https://t".to_string())),
        1_700_000_000,
    );
    match s.request {
        DeployRequest::Finish(Err(m)) => assert_eq!(m, "invalid service account private key"),
        _ => panic!("expected a failure"),
    }
}
