use lingcode::play::{
    api_reply, assigning_message, bump_message, bundle_upload_url, commit_url, edit_id_from,
    edits_url, oauth_access_token, play_api_base, play_config_sample, released_message,
    service_account_assertion, track_body, track_url, uploaded_message, uploaded_version_code,
    BumpOutcome,
};

#[test]
fn play_api_urls() {
    let base = play_api_base("com.example.app");
    assert_eq!(base, "https://androidpublisher.googleapis.com/androidpublisher/v3/applications/com.example.app");
    assert_eq!(edits_url(&base), format!("{base}/edits"));
    assert_eq!(track_url(&base, "E1", "internal"), format!("{base}/edits/E1/tracks/internal"));
    assert_eq!(commit_url(&base, "E1"), format!("{base}/edits/E1:commit"));
    assert_eq!(
        bundle_upload_url("com.example.app", "E1"),
        "https://androidpublisher.googleapis.com/upload/androidpublisher/v3/applications/com.example.app/edits/E1/bundles?uploadType=media"
    );
}

#[test]
fn replies_are_read() {
    assert_eq!(edit_id_from("u", "{\"id\":\"E42\",\"expiryTimeSeconds\":\"1\"}"), Ok("E42".to_string()));
    assert_eq!(edit_id_from("u", "   "), Err("Play API did not return an edit id".to_string()));
    assert_eq!(edit_id_from("u", "{}"), Err("Play API did not return an edit id".to_string()));
    assert_eq!(edit_id_from("u", "not json"), Err("parsing Play API response from u".to_string()));
    assert_eq!(uploaded_version_code("u", "{\"versionCode\":42}"), Ok(42));
    assert_eq!(uploaded_version_code("u", "{\"versionCode\":\"42\"}"), Err("Play API did not return a versionCode".to_string()));
    assert_eq!(
        api_reply("https://x", false, "403 Forbidden", "denied".to_string()),
        Err("Play API https://x failed (403 Forbidden): denied".to_string())
    );
    assert_eq!(api_reply("https://x", true, "200 OK", "{}".to_string()), Ok("{}".to_string()));
}

#[test]
fn oauth_token_reply() {
    assert_eq!(oauth_access_token(true, "200 OK", "{\"access_token\":\"ya29\"}"), Ok("ya29".to_string()));
    assert_eq!(oauth_access_token(true, "200 OK", "{\"token\":1}"), Err("OAuth response had no access_token".to_string()));
    assert!(oauth_access_token(true, "200 OK", "<html>").is_err());
    assert_eq!(
        oauth_access_token(false, "401 Unauthorized", "bad"),
        Err("Google OAuth failed (401 Unauthorized): bad".to_string())
    );
}

#[test]
fn track_body_json() {
    assert_eq!(
        track_body("internal", 42),
        "{\"releases\":[{\"status\":\"completed\",\"versionCodes\":[\"42\"]}],\"track\":\"internal\"}"
    );
    let body = track_body("be\"ta", -3);
    assert!(body.ends_with("\"track\":\"be\\\"ta\"}"));
    assert!(body.contains("[\"-3\"]"));
}

#[test]
fn progress_messages() {
    assert_eq!(bump_message(&BumpOutcome::Bumped { old: 7, new: 8 }), "Bumped versionCode 7 → 8");
    assert_eq!(bump_message(&BumpOutcome::NotFound), "No versionCode found to bump (skipping).");
    assert_eq!(bump_message(&BumpOutcome::Failed("denied".into())), "versionCode bump skipped: denied");
    assert_eq!(uploaded_message(120), "Uploaded versionCode 120");
    assert_eq!(assigning_message("beta"), "Assigning to 'beta' track…");
    assert_eq!(released_message(120, "beta"), "Done — versionCode 120 released to 'beta'.");
    assert_eq!(play_config_sample().len(), 10);
    assert_eq!(play_config_sample()[0], "No release config found at .lingcode/play-deploy.json.");
}

#[test]
fn invalid_private_key_is_reported() {
    assert_eq!(
        service_account_assertion("sa@x.iam.gserviceaccount.com", "https://oauth2.googleapis.com/token", "not a key", 1_700_000_000),
        Err("invalid service account private key".to_string())
    );
}

#[test]
fn track_names_are_json_escaped() {
    assert_eq!(
        track_body("a\tb\u{1}\\é", 1),
        "{\"releases\":[{\"status\":\"completed\",\"versionCodes\":[\"1\"]}],\"track\":\"a\\tb\\u0001\\\\é\"}"
    );
}
