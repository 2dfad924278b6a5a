use lingcode::android::{
    analyze_report, apk_diff_job, apk_diff_report, build_job, deploy_job, doctor_report,
    exe_name, first_existing, gradle_command, layout_chunks, logcat_args, pick_build_tools,
    start_emulator_job, AndroidAction, AndroidJob, PlayConfig, Toolchain,
};
use lingcode::android_text::{
    badging_difference, bump_version_code, chunk_bytes, first_avd_name, first_device_serial,
    version_code_in,
};
use lingcode::modal::RunStatus;
use lingcode::AndroidModal;

fn toolchain() -> Toolchain {
    Toolchain {
        sdk: Some("/sdk".into()),
        java_home: None,
        adb: Some("/sdk/platform-tools/adb".into()),
        emulator: None,
        system_gradle: Some("/usr/bin/gradle".into()),
        home: Some("/home/u".into()),
        gradle_wrapper: Some("/proj/gradlew".into()),
    }
}

#[test]
fn version_code_is_bumped_in_place() {
    let text = "android {\n    defaultConfig {\n        versionCode = 41\n        versionName \"1.0\"\n    }\n}\n";
    let (old, new, updated) = bump_version_code(text).unwrap();
    assert_eq!((old, new), (41, 42));
    assert_eq!(updated, text.replace("versionCode = 41", "versionCode = 42"));
    assert_eq!(version_code_in(&updated), Some(42));
}

#[test]
fn version_code_grows_a_digit() {
    let (old, new, updated) = bump_version_code("versionCode 99\n").unwrap();
    assert_eq!((old, new), (99, 100));
    assert_eq!(updated, "versionCode 100\n");
}

#[test]
fn version_code_absent_or_too_large() {
    assert!(bump_version_code("versionName \"2\"").is_none());
    assert!(bump_version_code("versionCode = x").is_none());
    assert!(bump_version_code("versionCode 99999999999999999999").is_none());
    assert_eq!(version_code_in("versionCode 18446744073709551615"), Some(u64::MAX));
    // Only a number right after the optional `=` and white space counts.
    assert!(bump_version_code("versionCode = rootProject.ext.code + 7").is_none());
    assert!(bump_version_code("versionCode = computeVersion()\nminSdk 24\n").is_none());
    assert_eq!(version_code_in("versionCode\t=\n  12"), Some(12));
    assert_eq!(version_code_in("versionCode=3"), Some(3));
    assert_eq!(version_code_in("versionCode == 3"), None);
}

#[test]
fn device_serial_from_adb_listing() {
    let out = "List of devices attached\nR58M12345\tunauthorized\nemulator-5554\tdevice\n\n";
    assert_eq!(first_device_serial(out), Some("emulator-5554".to_string()));
    assert_eq!(first_device_serial("List of devices attached\n\n"), None);
    // The header line is never a device.
    assert_eq!(first_device_serial("serial device\n"), None);
    assert_eq!(first_device_serial("header\r\nabc device product:x\r\n"), Some("abc".to_string()));
}

#[test]
fn first_avd_is_first_nonblank_line() {
    assert_eq!(first_avd_name("\n   \n  Pixel_7_API_34  \nNexus\n"), Some("Pixel_7_API_34".to_string()));
    assert_eq!(first_avd_name(" \n\n"), None);
}

#[test]
fn badging_difference_is_sorted_and_distinct() {
    let a = "package: name='a'\nsdkVersion:'24'\nuses-permission: name='X'\nuses-permission: name='X'\n";
    let b = "package: name='a'\nsdkVersion:'26'\n";
    assert_eq!(
        badging_difference(a, b, 60),
        vec!["sdkVersion:'24'".to_string(), "uses-permission: name='X'".to_string()]
    );
    assert_eq!(badging_difference(b, a, 60), vec!["sdkVersion:'26'".to_string()]);
    assert_eq!(badging_difference("c\nb\na\n", "", 2), vec!["a".to_string(), "b".to_string()]);
}

#[test]
fn apk_diff_report_lines() {
    let lines = apk_diff_report("/a.apk", "/b.apk", 4096, 2048, Some(("x\ny\n", "y\nz\n")));
    assert_eq!(
        lines,
        vec![
            "A: /a.apk",
            "B: /b.apk",
            "Size A: 4 KB",
            "Size B: 2 KB",
            "Size delta (B - A): -2 KB",
            "",
            "Only in A (removed):",
            "- x",
            "",
            "Only in B (added):",
            "+ z",
        ]
    );
    let same = apk_diff_report("/a", "/b", 1000, 1500, Some(("k\n", "k\n")));
    assert_eq!(same[4], "Size delta (B - A): 0 KB");
    assert_eq!(same[7], "  (none)");
    assert_eq!(same[10], "  (none)");
    let small_drop = apk_diff_report("/a", "/b", 1500, 1000, None);
    assert_eq!(small_drop[4], "Size delta (B - A): 0 KB");
    assert_eq!(small_drop[6], "aapt2 not found (install Android SDK build-tools) — size diff only.");
    assert_eq!(small_drop.len(), 7);
}

#[test]
fn analyze_report_lines() {
    let badging: String = (0..100).map(|i| format!("line{i}\n")).collect();
    let lines = analyze_report("/p/app.apk", Some(10 * 1024), Some(&badging));
    assert_eq!(lines.len(), 82);
    assert_eq!(lines[0], "Analyzing /p/app.apk");
    assert_eq!(lines[1], "Size: 10 KB");
    assert_eq!(lines[81], "line79");
    let bare = analyze_report("/p/app.aab", None, None);
    assert_eq!(bare, vec!["Analyzing /p/app.aab", "aapt2 not found (install Android SDK build-tools) — size only."]);
}

#[test]
fn bytes_are_chunked() {
    let bytes: Vec<u8> = (0..450u32).map(|i| (i % 251) as u8).collect();
    let chunks = chunk_bytes(&bytes, 200);
    assert_eq!(chunks.iter().map(|c| c.len()).collect::<Vec<_>>(), vec![200, 200, 50]);
    assert_eq!(chunks.concat(), bytes);
    assert!(chunk_bytes(&[], 200).is_empty());
    assert!(layout_chunks("  \n").is_err());
    assert_eq!(layout_chunks("  <hierarchy/>  ").unwrap(), vec![b"<hierarchy/>".to_vec()]);
}

#[test]
fn gradle_invocations() {
    let wrapper = Some("C:\\proj\\gradlew.bat".to_string());
    let (program, args) = gradle_command(&wrapper, &None, true, &["assembleDebug"]).unwrap();
    assert_eq!(program, "cmd");
    assert_eq!(args, vec!["/C", "C:\\proj\\gradlew.bat", "assembleDebug"]);
    let (program, args) = gradle_command(&None, &Some("/usr/bin/gradle".into()), false, &["bundleRelease"]).unwrap();
    assert_eq!((program.as_str(), args), ("/usr/bin/gradle", vec!["bundleRelease".to_string()]));
    assert!(gradle_command(&None, &None, false, &["x"]).is_none());
    assert_eq!(exe_name("adb", true), "adb.exe");
    assert_eq!(exe_name("adb", false), "adb");
}

#[test]
fn doctor_lists_every_tool() {
    let report = doctor_report(&toolchain());
    assert_eq!(
        report,
        vec![
            "Android SDK: /sdk",
            "JDK: JAVA_HOME not set — install JDK 17+ and set JAVA_HOME",
            "adb: /sdk/platform-tools/adb",
            "emulator: NOT FOUND — expected <sdk>/emulator/emulator",
            "gradle (system): /usr/bin/gradle",
        ]
    );
}

#[test]
fn jobs_per_action() {
    let tc = toolchain();
    assert!(matches!(build_job(AndroidAction::BuildDebug, None, &tc, false),
        AndroidJob::Report(l) if l == vec!["Open an Android project first."]));
    assert!(matches!(build_job(AndroidAction::BuildBundle, Some("/proj".into()), &tc, false),
        AndroidJob::Command { program, args, cwd } if program == "/proj/gradlew" && args == vec!["bundleRelease"] && cwd == "/proj"));
    assert!(matches!(build_job(AndroidAction::Devices, None, &tc, false),
        AndroidJob::Command { args, cwd, .. } if args == vec!["devices", "-l"] && cwd == "/home/u"));
    assert!(matches!(build_job(AndroidAction::Emulators, None, &tc, false),
        AndroidJob::Report(l) if l == vec!["emulator not found — install the Android SDK emulator package."]));
    assert!(matches!(build_job(AndroidAction::Logcat, None, &tc, false),
        AndroidJob::Logcat { adb } if adb == "/sdk/platform-tools/adb"));
    assert!(matches!(build_job(AndroidAction::AnalyzeApk, Some("/p".into()), &tc, false),
        AndroidJob::AnalyzeApk { cwd, sdk } if cwd == "/p" && sdk.as_deref() == Some("/sdk")));
    assert!(matches!(build_job(AndroidAction::Doctor, None, &tc, false), AndroidJob::Report(l) if l.len() == 5));
    assert_eq!(AndroidAction::Run.title(), "Run on Device / Emulator");
    assert!(AndroidAction::AnalyzeApk.needs_project());
    assert!(!AndroidAction::Logcat.needs_project());
}

#[test]
fn other_jobs() {
    assert!(matches!(apk_diff_job(vec!["a".into()], None), AndroidJob::Report(_)));
    assert!(matches!(apk_diff_job(vec!["a".into(), "b".into()], None), AndroidJob::ApkDiff { a, b, .. } if a == "a" && b == "b"));
    assert!(matches!(deploy_job(None, None), AndroidJob::Report(l) if l == vec!["Open an Android project first."]));
    assert!(matches!(deploy_job(Some("/p".into()), None), AndroidJob::Report(l) if l.len() == 10));
    let config = PlayConfig {
        service_account_json_path: "k.json".into(),
        package_name: "com.x".into(),
        track: "beta".into(),
        auto_bump_version_code: false,
        aab_path: None,
    };
    assert!(matches!(deploy_job(Some("/p".into()), Some(config)), AndroidJob::PlayDeploy { cwd, .. } if cwd == "/p"));
    assert!(matches!(start_emulator_job(true), AndroidJob::Report(l) if l.len() == 2));
    assert_eq!(logcat_args("emu"), vec!["-s", "emu", "logcat", "-v", "threadtime"]);
}

#[test]
fn newest_build_tools_with_aapt2() {
    let dirs = vec![
        ("30.0.3".to_string(), true),
        ("34.0.0".to_string(), false),
        ("33.0.1".to_string(), true),
        ("29.0.2".to_string(), true),
    ];
    assert_eq!(pick_build_tools(&dirs), Some(2));
    assert_eq!(pick_build_tools(&[("1".to_string(), false)]), None);
    assert_eq!(first_existing(&[("a".to_string(), false), ("b".to_string(), true)]), Some(1));
}

#[test]
fn android_view_status() {
    let report = AndroidModal::new("T".into(), AndroidJob::Report(vec!["x".into()]));
    assert!(matches!(report.status, RunStatus::Done));
    assert_eq!(report.lines, vec!["x"]);
    let mut running = AndroidModal::new("T".into(), AndroidJob::Logcat { adb: "adb".into() });
    assert!(matches!(running.status, RunStatus::Running));
    for i in 0..401 {
        running.push_line(format!("{i}"));
    }
    assert_eq!(running.lines.len(), 400);
    assert_eq!(running.lines[0], "1");
    running.finish(Err("`adb` exited with a non-zero status".into()));
    assert!(matches!(running.status, RunStatus::Error(_)));
}
