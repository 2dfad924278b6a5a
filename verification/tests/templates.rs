use lingcode::templates::{candidate_dir_name, chosen_template, template_answers, templates};

#[test]
fn template_choices() {
    let all = templates();
    assert_eq!(
        template_answers(&all),
        vec!["Python app", "Web / HTML5 game", "Android app", "Node / TypeScript", "Cancel"]
    );
    assert_eq!(chosen_template(&all, 2).unwrap().slug, "android-app");
    assert!(chosen_template(&all, 4).is_none());
    assert_eq!(all[0].files.len(), 5);
    assert_eq!(all[2].files.len(), 10);
    let android_readme = all[2].files.iter().find(|f| f.path == "README.md").unwrap();
    assert!(android_readme.contents.starts_with("# Android app\n\nA minimal Kotlin + Gradle Android app"));
    let settings = all[2].files.iter().find(|f| f.path == "settings.gradle.kts").unwrap();
    assert!(settings.contents.contains(":app"));
    for t in &all {
        for f in &t.files {
            assert!(!f.contents.is_empty(), "{} of {} is empty", f.path, t.slug);
        }
    }
}

#[test]
fn fresh_directory_names() {
    assert_eq!(candidate_dir_name("web-game", 0), "web-game");
    assert_eq!(candidate_dir_name("web-game", 1), "web-game-1");
    assert_eq!(candidate_dir_name("web-game", 12), "web-game-12");
    assert_ne!(candidate_dir_name("a", 1), candidate_dir_name("a", 11));
}
