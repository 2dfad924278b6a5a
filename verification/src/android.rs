//! Android tooling: the actions, the toolchain report, the job each action
//! runs, the analyze and diff reports, and the state of the Android view.
use vstd::prelude::*;
use vstd::string::*;
use crate::auth::opt_view;
use crate::modal::{RunStatus, capped_push, push_capped, string_views};
use crate::android_text::{at_most, line_difference, badging_difference};
use crate::text::{
    chars_of, decimal, lex_less, lex_lt, push_decimal, split_lines, string_of, text_lines, views,
};

verus! {

/// The Google Play Console.
pub fn play_console_url() -> (r: &'static str)
    ensures
        r@ == "https://play.google.com/console"@,
{
    "https://play.google.com/console"
}

/// An Android action that opens the Android view.
#[derive(Clone, Copy, PartialEq, Eq, Structural, Debug)]
pub enum AndroidAction {
    Doctor,
    BuildDebug,
    BuildBundle,
    Run,
    Devices,
    Emulators,
    Logcat,
    LayoutInspector,
    AnalyzeApk,
}

impl AndroidAction {
    pub open spec fn spec_title(self) -> Seq<char> {
        match self {
            AndroidAction::Doctor => "Android Toolchain"@,
            AndroidAction::BuildDebug => "Build Debug APK"@,
            AndroidAction::BuildBundle => "Build Release Bundle"@,
            AndroidAction::Run => "Run on Device / Emulator"@,
            AndroidAction::Devices => "Android Devices"@,
            AndroidAction::Emulators => "Android Emulators"@,
            AndroidAction::Logcat => "Logcat"@,
            AndroidAction::LayoutInspector => "Layout Inspector"@,
            AndroidAction::AnalyzeApk => "Analyze APK / AAB"@,
        }
    }

    /// The title of the action's view.
    pub fn title(self) -> (r: &'static str)
        ensures
            r@ == self.spec_title(),
    {
        match self {
            AndroidAction::Doctor => "Android Toolchain",
            AndroidAction::BuildDebug => "Build Debug APK",
            AndroidAction::BuildBundle => "Build Release Bundle",
            AndroidAction::Run => "Run on Device / Emulator",
            AndroidAction::Devices => "Android Devices",
            AndroidAction::Emulators => "Android Emulators",
            AndroidAction::Logcat => "Logcat",
            AndroidAction::LayoutInspector => "Layout Inspector",
            AndroidAction::AnalyzeApk => "Analyze APK / AAB",
        }
    }

    pub open spec fn spec_needs_project(self) -> bool {
        self == AndroidAction::BuildDebug || self == AndroidAction::BuildBundle || self
            == AndroidAction::Run || self == AndroidAction::AnalyzeApk
    }

    /// Whether the action works on the open project.
    pub fn needs_project(self) -> (b: bool)
        ensures
            b == self.spec_needs_project(),
    {
        match self {
            AndroidAction::BuildDebug | AndroidAction::BuildBundle | AndroidAction::Run
            | AndroidAction::AnalyzeApk => true,
            _ => false,
        }
    }
}

/// An Android command of the editor.
#[derive(Clone, Copy, PartialEq, Eq, Structural, Debug)]
pub enum AndroidCommand {
    Doctor,
    BuildDebug,
    BuildBundle,
    Run,
    ListDevices,
    ListEmulators,
    StartEmulator,
    Logcat,
    LayoutInspector,
    AnalyzeApk,
    ApkDiff,
    DeployToPlay,
    OpenPlayConsole,
}

/// What a command leads to.
#[derive(Clone, Copy, PartialEq, Eq, Structural, Debug)]
pub enum AndroidRoute {
    /// Open the view of an action in the current project.
    Action(AndroidAction),
    /// Launch the first emulator.
    StartEmulator,
    /// Ask for two artifacts and compare them.
    ApkDiff,
    /// Deploy the project to Google Play.
    DeployToPlay,
    /// Open the Play Console in the browser.
    OpenPlayConsole,
}

/// Where each Android command goes.
pub fn route(command: AndroidCommand) -> (r: AndroidRoute)
    ensures
        r == match command {
            AndroidCommand::Doctor => AndroidRoute::Action(AndroidAction::Doctor),
            AndroidCommand::BuildDebug => AndroidRoute::Action(AndroidAction::BuildDebug),
            AndroidCommand::BuildBundle => AndroidRoute::Action(AndroidAction::BuildBundle),
            AndroidCommand::Run => AndroidRoute::Action(AndroidAction::Run),
            AndroidCommand::ListDevices => AndroidRoute::Action(AndroidAction::Devices),
            AndroidCommand::ListEmulators => AndroidRoute::Action(AndroidAction::Emulators),
            AndroidCommand::StartEmulator => AndroidRoute::StartEmulator,
            AndroidCommand::Logcat => AndroidRoute::Action(AndroidAction::Logcat),
            AndroidCommand::LayoutInspector => AndroidRoute::Action(AndroidAction::LayoutInspector),
            AndroidCommand::AnalyzeApk => AndroidRoute::Action(AndroidAction::AnalyzeApk),
            AndroidCommand::ApkDiff => AndroidRoute::ApkDiff,
            AndroidCommand::DeployToPlay => AndroidRoute::DeployToPlay,
            AndroidCommand::OpenPlayConsole => AndroidRoute::OpenPlayConsole,
        },
{
    match command {
        AndroidCommand::Doctor => AndroidRoute::Action(AndroidAction::Doctor),
        AndroidCommand::BuildDebug => AndroidRoute::Action(AndroidAction::BuildDebug),
        AndroidCommand::BuildBundle => AndroidRoute::Action(AndroidAction::BuildBundle),
        AndroidCommand::Run => AndroidRoute::Action(AndroidAction::Run),
        AndroidCommand::ListDevices => AndroidRoute::Action(AndroidAction::Devices),
        AndroidCommand::ListEmulators => AndroidRoute::Action(AndroidAction::Emulators),
        AndroidCommand::StartEmulator => AndroidRoute::StartEmulator,
        AndroidCommand::Logcat => AndroidRoute::Action(AndroidAction::Logcat),
        AndroidCommand::LayoutInspector => AndroidRoute::Action(AndroidAction::LayoutInspector),
        AndroidCommand::AnalyzeApk => AndroidRoute::Action(AndroidAction::AnalyzeApk),
        AndroidCommand::ApkDiff => AndroidRoute::ApkDiff,
        AndroidCommand::DeployToPlay => AndroidRoute::DeployToPlay,
        AndroidCommand::OpenPlayConsole => AndroidRoute::OpenPlayConsole,
    }
}

// ---- toolchain ------------------------------------------------------------

/// The file name of the tool `name` on the platform (`.exe` on Windows).
pub fn exe_name(name: &str, windows: bool) -> (r: String)
    ensures
        windows ==> r@ == name@ + ".exe"@,
        !windows ==> r@ == name@,
{
    let mut r = String::from_str(name);
    if windows {
        r.append(".exe");
    }
    r
}

/// The file name of the project's Gradle wrapper on the platform.
pub fn gradle_wrapper_name(windows: bool) -> (r: &'static str)
    ensures
        windows ==> r@ == "gradlew.bat"@,
        !windows ==> r@ == "gradlew"@,
{
    if windows {
        "gradlew.bat"
    } else {
        "gradlew"
    }
}

/// The environment variables that may name the Android SDK, in the order
/// they are tried.
pub fn sdk_env_vars() -> (r: Vec<&'static str>)
    ensures
        crate::install::str_views(r@) == seq!["ANDROID_HOME"@, "ANDROID_SDK_ROOT"@],
{
    let r = vec!["ANDROID_HOME", "ANDROID_SDK_ROOT"];
    assert(crate::install::str_views(r@) =~= seq!["ANDROID_HOME"@, "ANDROID_SDK_ROOT"@]);
    r
}

/// The first of `candidates` that is an existing directory (`true` beside
/// it).
pub fn first_existing(candidates: &[(String, bool)]) -> (r: Option<usize>)
    ensures
        match r {
            Some(i) => i < candidates@.len() && candidates@[i as int].1 && forall|j: int|
                0 <= j < i ==> !(#[trigger] candidates@[j]).1,
            None => forall|j: int| 0 <= j < candidates@.len() ==> !(#[trigger] candidates@[j]).1,
        },
{
    let mut i: usize = 0;
    while i < candidates.len()
        invariant
            i <= candidates.len(),
            forall|j: int| 0 <= j < i ==> !(#[trigger] candidates@[j]).1,
        decreases candidates.len() - i,
    {
        if candidates[i].1 {
            return Some(i);
        }
        i = i + 1;
    }
    None
}

/// What was found of the Android toolchain, as display paths.
pub struct Toolchain {
    /// The Android SDK directory.
    pub sdk: Option<String>,
    /// `JAVA_HOME`, where it names a directory.
    pub java_home: Option<String>,
    /// `adb`, from the SDK or the `PATH`.
    pub adb: Option<String>,
    /// `emulator`, from the SDK or the `PATH`.
    pub emulator: Option<String>,
    /// `gradle` on the `PATH`.
    pub system_gradle: Option<String>,
    /// The user's home directory.
    pub home: Option<String>,
    /// The project's Gradle wrapper, where it is a file.
    pub gradle_wrapper: Option<String>,
}

/// A report line for a tool: its path after `label`, or `missing`.
pub open spec fn found_line(label: Seq<char>, path: Option<String>, missing: Seq<char>) -> Seq<
    char,
> {
    match path {
        Some(p) => label + p@,
        None => missing,
    }
}

fn push_found(lines: &mut Vec<String>, label: &str, path: &Option<String>, missing: &str)
    ensures
        string_views(final(lines)@) == string_views(old(lines)@).push(
            found_line(label@, *path, missing@),
        ),
{
    let ghost before = string_views(lines@);
    let line = match path {
        Some(p) => {
            let mut l = String::from_str(label);
            l.append(p.as_str());
            l
        },
        None => String::from_str(missing),
    };
    lines.push(line);
    assert(string_views(lines@) == before.push(line@));
}

/// The lines of the toolchain report.
pub open spec fn doctor_lines(tc: Toolchain) -> Seq<Seq<char>> {
    seq![
        found_line("Android SDK: "@, tc.sdk, "Android SDK: NOT FOUND — set ANDROID_HOME or install the SDK"@),
        found_line("JDK (JAVA_HOME): "@, tc.java_home, "JDK: JAVA_HOME not set — install JDK 17+ and set JAVA_HOME"@),
        found_line("adb: "@, tc.adb, "adb: NOT FOUND — expected <sdk>/platform-tools/adb"@),
        found_line("emulator: "@, tc.emulator, "emulator: NOT FOUND — expected <sdk>/emulator/emulator"@),
        found_line("gradle (system): "@, tc.system_gradle, "gradle (system): not on PATH (projects with gradlew don't need it)"@),
    ]
}

/// The toolchain report: SDK, JDK, adb, emulator and system Gradle, each
/// with its path or how to get it.
pub fn doctor_report(tc: &Toolchain) -> (r: Vec<String>)
    ensures
        string_views(r@) == doctor_lines(*tc),
{
    let mut r: Vec<String> = Vec::new();
    push_found(&mut r, "Android SDK: ", &tc.sdk, "Android SDK: NOT FOUND — set ANDROID_HOME or install the SDK");
    push_found(&mut r, "JDK (JAVA_HOME): ", &tc.java_home, "JDK: JAVA_HOME not set — install JDK 17+ and set JAVA_HOME");
    push_found(&mut r, "adb: ", &tc.adb, "adb: NOT FOUND — expected <sdk>/platform-tools/adb");
    push_found(&mut r, "emulator: ", &tc.emulator, "emulator: NOT FOUND — expected <sdk>/emulator/emulator");
    push_found(&mut r, "gradle (system): ", &tc.system_gradle, "gradle (system): not on PATH (projects with gradlew don't need it)");
    assert(string_views(r@) =~= doctor_lines(*tc));
    r
}

/// The program and arguments that run Gradle `tasks`: the project's wrapper
/// (on Windows through `cmd /C`), else a `gradle` on the `PATH`.
pub open spec fn gradle_invocation(
    wrapper: Option<Seq<char>>,
    system_gradle: Option<Seq<char>>,
    windows: bool,
    tasks: Seq<Seq<char>>,
) -> Option<(Seq<char>, Seq<Seq<char>>)> {
    match wrapper {
        Some(w) => if windows {
            Some(("cmd"@, seq!["/C"@, w] + tasks))
        } else {
            Some((w, tasks))
        },
        None => match system_gradle {
            Some(g) => Some((g, tasks)),
            None => None,
        },
    }
}

fn strings_of(tasks: &[&str]) -> (r: Vec<String>)
    ensures
        string_views(r@) == crate::install::str_views(tasks@),
{
    let mut r: Vec<String> = Vec::new();
    let mut i: usize = 0;
    while i < tasks.len()
        invariant
            i <= tasks.len(),
            string_views(r@) == crate::install::str_views(tasks@.take(i as int)),
        decreases tasks.len() - i,
    {
        let ghost before = string_views(r@);
        r.push(String::from_str(tasks[i]));
        assert(crate::install::str_views(tasks@.take(i + 1)) == crate::install::str_views(
            tasks@.take(i as int),
        ).push(tasks@[i as int]@));
        assert(string_views(r@) == before.push(tasks@[i as int]@));
        i = i + 1;
    }
    assert(tasks@.take(tasks.len() as int) == tasks@);
    r
}

/// The program and arguments that run Gradle `tasks`.
pub fn gradle_command(
    wrapper: &Option<String>,
    system_gradle: &Option<String>,
    windows: bool,
    tasks: &[&str],
) -> (r: Option<(String, Vec<String>)>)
    ensures
        match r {
            Some((p, a)) => gradle_invocation(opt_view(*wrapper), opt_view(*system_gradle), windows,
                crate::install::str_views(tasks@)) == Some((p@, string_views(a@))),
            None => gradle_invocation(opt_view(*wrapper), opt_view(*system_gradle), windows,
                crate::install::str_views(tasks@)) is None,
        },
{
    let args = strings_of(tasks);
    match wrapper {
        Some(w) => {
            if windows {
                let mut full: Vec<String> = Vec::new();
                full.push(String::from_str("/C"));
                full.push(w.clone());
                let ghost head = string_views(full@);
                let mut i: usize = 0;
                while i < args.len()
                    invariant
                        i <= args.len(),
                        string_views(full@) == head + string_views(args@).take(i as int),
                    decreases args.len() - i,
                {
                    let ghost before = string_views(full@);
                    full.push(args[i].clone());
                    assert(string_views(full@) == before.push(args@[i as int]@));
                    assert(string_views(args@).take(i + 1) == string_views(args@).take(
                        i as int,
                    ).push(args@[i as int]@));
                    i = i + 1;
                }
                assert(string_views(args@).take(args.len() as int) == string_views(args@));
                assert(head == seq!["/C"@, w@]);
                Some((String::from_str("cmd"), full))
            } else {
                Some((w.clone(), args))
            }
        },
        None => match system_gradle {
            Some(g) => Some((g.clone(), args)),
            None => None,
        },
    }
}


// ---- jobs -----------------------------------------------------------------

/// Release configuration, read from `<project>/.lingcode/play-deploy.json`.
pub struct PlayConfig {
    /// Path to the service-account JSON key (with Play access).
    pub service_account_json_path: String,
    /// The application id, e.g. `com.example.app`.
    pub package_name: String,
    /// Release track: `internal` (the default), `alpha`, `beta` or
    /// `production`.
    pub track: String,
    /// Bump `versionCode` before building.
    pub auto_bump_version_code: bool,
    /// An explicit path to the built `.aab`.
    pub aab_path: Option<String>,
}

/// The track a release goes to when the configuration names none.
pub fn default_track() -> (r: String)
    ensures
        r@ == "internal"@,
{
    String::from_str("internal")
}

/// What the Android view runs.
pub enum AndroidJob {
    /// Spawn a process and stream its output.
    Command { program: String, args: Vec<String>, cwd: String },
    /// No process: show these lines (a report or an error).
    Report(Vec<String>),
    /// Build the release bundle, then upload it to Google Play.
    PlayDeploy { cwd: String, config: PlayConfig },
    /// Stream `adb logcat` from the first connected device.
    Logcat { adb: String },
    /// Dump and show the on-screen view hierarchy.
    LayoutInspector { adb: String },
    /// Inspect the project's built APK/AAB.
    AnalyzeApk { cwd: String, sdk: Option<String> },
    /// Compare two APK/AAB artifacts.
    ApkDiff { a: String, b: String, sdk: Option<String> },
}

/// `job` is a report of exactly `lines`.
pub open spec fn is_report(job: AndroidJob, lines: Seq<Seq<char>>) -> bool {
    job matches AndroidJob::Report(l) && string_views(l@) == lines
}

/// `job` runs `program` with `args` in `cwd`.
pub open spec fn is_command(
    job: AndroidJob,
    program: Seq<char>,
    args: Seq<Seq<char>>,
    cwd: Seq<char>,
) -> bool {
    job matches AndroidJob::Command { program: p, args: a, cwd: c } && p@ == program
        && string_views(a@) == args && c@ == cwd
}

/// The Gradle tasks that a build action runs.
pub open spec fn build_tasks(action: AndroidAction) -> Seq<Seq<char>> {
    match action {
        AndroidAction::BuildDebug => seq!["assembleDebug"@],
        AndroidAction::BuildBundle => seq!["bundleRelease"@],
        _ => seq!["installDebug"@],
    }
}

/// The directory a device or emulator listing runs in: the project, else the
/// home directory, else the current one.
pub open spec fn listing_dir(cwd: Option<String>, home: Option<String>) -> Seq<char> {
    match cwd {
        Some(c) => c@,
        None => match home {
            Some(h) => h@,
            None => "."@,
        },
    }
}

/// `job` is what `action` runs for the project `cwd` with the toolchain `tc`
/// on the platform (`windows`).
pub open spec fn is_job_for(
    job: AndroidJob,
    action: AndroidAction,
    cwd: Option<String>,
    tc: Toolchain,
    windows: bool,
) -> bool {
    if action.spec_needs_project() && cwd is None {
        is_report(job, seq!["Open an Android project first."@])
    } else {
        match action {
            AndroidAction::Doctor => is_report(job, doctor_lines(tc)),
            AndroidAction::BuildDebug | AndroidAction::BuildBundle | AndroidAction::Run => {
                match gradle_invocation(opt_view(tc.gradle_wrapper), opt_view(tc.system_gradle), windows,
                    build_tasks(action)) {
                    Some((p, a)) => is_command(job, p, a, cwd->0@),
                    None => is_report(
                        job,
                        seq!["No Gradle wrapper (gradlew) found in this project and no system `gradle` on PATH."@],
                    ),
                }
            },
            AndroidAction::Devices => match tc.adb {
                Some(adb) => is_command(job, adb@, seq!["devices"@, "-l"@], listing_dir(cwd, tc.home)),
                None => is_report(job, seq!["adb not found — install the Android SDK platform-tools."@]),
            },
            AndroidAction::Emulators => match tc.emulator {
                Some(em) => is_command(job, em@, seq!["-list-avds"@], listing_dir(cwd, tc.home)),
                None => is_report(job, seq!["emulator not found — install the Android SDK emulator package."@]),
            },
            AndroidAction::Logcat => match tc.adb {
                Some(adb) => job matches AndroidJob::Logcat { adb: a } && a@ == adb@,
                None => is_report(job, seq!["adb not found."@]),
            },
            AndroidAction::LayoutInspector => match tc.adb {
                Some(adb) => job matches AndroidJob::LayoutInspector { adb: a } && a@ == adb@,
                None => is_report(job, seq!["adb not found."@]),
            },
            AndroidAction::AnalyzeApk => job matches AndroidJob::AnalyzeApk { cwd: c, sdk: s }
                && c@ == cwd->0@ && opt_view(s) == opt_view(tc.sdk),
        }
    }
}

fn report(line: &str) -> (j: AndroidJob)
    ensures
        is_report(j, seq![line@]),
{
    let mut v: Vec<String> = Vec::new();
    v.push(String::from_str(line));
    assert(string_views(v@) =~= seq![line@]);
    AndroidJob::Report(v)
}

fn copy_opt(o: &Option<String>) -> (r: Option<String>)
    ensures
        r == *o,
{
    match o {
        Some(s) => Some(s.clone()),
        None => None,
    }
}

/// The job that `action` runs for the project `cwd` with the toolchain `tc`.
pub fn build_job(action: AndroidAction, cwd: Option<String>, tc: &Toolchain, windows: bool) -> (j:
    AndroidJob)
    ensures
        is_job_for(j, action, cwd, *tc, windows),
{
    if action.needs_project() && cwd.is_none() {
        return report("Open an Android project first.");
    }
    match action {
        AndroidAction::Doctor => AndroidJob::Report(doctor_report(tc)),
        AndroidAction::BuildDebug | AndroidAction::BuildBundle | AndroidAction::Run => {
            let tasks: Vec<&str> = match action {
                AndroidAction::BuildDebug => vec!["assembleDebug"],
                AndroidAction::BuildBundle => vec!["bundleRelease"],
                _ => vec!["installDebug"],
            };
            assert(crate::install::str_views(tasks@) =~= build_tasks(action));
            let dir = match &cwd {
                Some(c) => c.clone(),
                None => String::new(),
            };
            match gradle_command(&tc.gradle_wrapper, &tc.system_gradle, windows, tasks.as_slice()) {
                Some((program, args)) => AndroidJob::Command { program, args, cwd: dir },
                None => report(
                    "No Gradle wrapper (gradlew) found in this project and no system `gradle` on PATH.",
                ),
            }
        },
        AndroidAction::Devices => match &tc.adb {
            Some(adb) => {
                let names: Vec<&str> = vec!["devices", "-l"];
                let args = strings_of(names.as_slice());
                assert(crate::install::str_views(names@) =~= seq!["devices"@, "-l"@]);
                AndroidJob::Command { program: adb.clone(), args, cwd: listing_cwd(&cwd, &tc.home) }
            },
            None => report("adb not found — install the Android SDK platform-tools."),
        },
        AndroidAction::Emulators => match &tc.emulator {
            Some(em) => {
                let names: Vec<&str> = vec!["-list-avds"];
                let args = strings_of(names.as_slice());
                assert(crate::install::str_views(names@) =~= seq!["-list-avds"@]);
                AndroidJob::Command { program: em.clone(), args, cwd: listing_cwd(&cwd, &tc.home) }
            },
            None => report("emulator not found — install the Android SDK emulator package."),
        },
        AndroidAction::Logcat => match &tc.adb {
            Some(adb) => AndroidJob::Logcat { adb: adb.clone() },
            None => report("adb not found."),
        },
        AndroidAction::LayoutInspector => match &tc.adb {
            Some(adb) => AndroidJob::LayoutInspector { adb: adb.clone() },
            None => report("adb not found."),
        },
        AndroidAction::AnalyzeApk => {
            let dir = match &cwd {
                Some(c) => c.clone(),
                None => String::new(),
            };
            AndroidJob::AnalyzeApk { cwd: dir, sdk: copy_opt(&tc.sdk) }
        },
    }
}

fn listing_cwd(cwd: &Option<String>, home: &Option<String>) -> (r: String)
    ensures
        r@ == listing_dir(*cwd, *home),
{
    match cwd {
        Some(c) => c.clone(),
        None => match home {
            Some(h) => h.clone(),
            None => String::from_str("."),
        },
    }
}


// ---- device tools ---------------------------------------------------------

/// The arguments that stream the log of device `serial`.
pub fn logcat_args(serial: &str) -> (r: Vec<String>)
    ensures
        string_views(r@) == seq!["-s"@, serial@, "logcat"@, "-v"@, "threadtime"@],
{
    let r = vec![
        String::from_str("-s"),
        String::from_str(serial),
        String::from_str("logcat"),
        String::from_str("-v"),
        String::from_str("threadtime"),
    ];
    assert(string_views(r@) =~= seq!["-s"@, serial@, "logcat"@, "-v"@, "threadtime"@]);
    r
}

/// The line that opens a logcat stream from `serial`.
pub fn logcat_banner(serial: &str) -> (r: String)
    ensures
        r@ == "Streaming logcat from "@ + serial@ + " (close to stop)…"@,
{
    let mut r = String::from_str("Streaming logcat from ");
    r.append(serial);
    r.append(" (close to stop)…");
    r
}

/// Where the view hierarchy is dumped on the device.
pub fn layout_dump_path() -> (r: &'static str)
    ensures
        r@ == "/sdcard/lingcode_layout.xml"@,
{
    "/sdcard/lingcode_layout.xml"
}

/// The arguments that dump the view hierarchy of device `serial`.
pub fn layout_dump_args(serial: &str) -> (r: Vec<String>)
    ensures
        string_views(r@) == seq!["-s"@, serial@, "shell"@, "uiautomator"@, "dump"@,
            "/sdcard/lingcode_layout.xml"@],
{
    let r = vec![
        String::from_str("-s"),
        String::from_str(serial),
        String::from_str("shell"),
        String::from_str("uiautomator"),
        String::from_str("dump"),
        String::from_str("/sdcard/lingcode_layout.xml"),
    ];
    assert(string_views(r@) =~= seq!["-s"@, serial@, "shell"@, "uiautomator"@, "dump"@,
        "/sdcard/lingcode_layout.xml"@]);
    r
}

/// The arguments that read the dumped view hierarchy of device `serial`.
pub fn layout_read_args(serial: &str) -> (r: Vec<String>)
    ensures
        string_views(r@) == seq!["-s"@, serial@, "shell"@, "cat"@, "/sdcard/lingcode_layout.xml"@],
{
    let r = vec![
        String::from_str("-s"),
        String::from_str(serial),
        String::from_str("shell"),
        String::from_str("cat"),
        String::from_str("/sdcard/lingcode_layout.xml"),
    ];
    assert(string_views(r@) =~= seq!["-s"@, serial@, "shell"@, "cat"@,
        "/sdcard/lingcode_layout.xml"@]);
    r
}

// ---- build tools ----------------------------------------------------------

/// The version directory of the SDK's build tools whose `aapt2` is used: the
/// one that sorts last among those that hold it.
pub open spec fn is_chosen_build_tools(dirs: Seq<(String, bool)>, i: int) -> bool {
    &&& 0 <= i < dirs.len()
    &&& dirs[i].1
    &&& forall|j: int| 0 <= j < dirs.len() && (#[trigger] dirs[j]).1 ==> !lex_lt(dirs[i].0@, dirs[j].0@)
}

/// Among the build-tools version directories `dirs` (name, whether it holds
/// `aapt2`), the one whose `aapt2` is used: the last in name order that
/// holds it.
pub fn pick_build_tools(dirs: &[(String, bool)]) -> (r: Option<usize>)
    ensures
        match r {
            Some(i) => is_chosen_build_tools(dirs@, i as int),
            None => forall|j: int| 0 <= j < dirs@.len() ==> !(#[trigger] dirs@[j]).1,
        },
{
    let mut best: Option<usize> = None;
    let mut i: usize = 0;
    while i < dirs.len()
        invariant
            i <= dirs.len(),
            match best {
                Some(b) => b < i && dirs@[b as int].1 && forall|j: int|
                    0 <= j < i && (#[trigger] dirs@[j]).1 ==> !lex_lt(dirs@[b as int].0@, dirs@[j].0@),
                None => forall|j: int| 0 <= j < i ==> !(#[trigger] dirs@[j]).1,
            },
        decreases dirs.len() - i,
    {
        if dirs[i].1 {
            match best {
                None => {
                    proof {
                        crate::text::lemma_lex_irreflexive(dirs@[i as int].0@);
                    }
                    best = Some(i);
                },
                Some(b) => {
                    let a = chars_of(dirs[b].0.as_str());
                    let c = chars_of(dirs[i].0.as_str());
                    if lex_less(a.as_slice(), c.as_slice()) {
                        proof {
                            crate::text::lemma_lex_irreflexive(dirs@[i as int].0@);
                            assert forall|j: int|
                                0 <= j < i + 1 && (#[trigger] dirs@[j]).1 implies !lex_lt(
                                dirs@[i as int].0@,
                                dirs@[j].0@,
                            ) by {
                                if j < i {
                                    crate::text::lemma_lex_total(dirs@[b as int].0@, dirs@[j].0@);
                                    crate::text::lemma_lex_asymmetric(dirs@[i as int].0@, dirs@[j].0@);
                                    if lex_lt(dirs@[i as int].0@, dirs@[j].0@) {
                                        if lex_lt(dirs@[j].0@, dirs@[b as int].0@) {
                                            crate::text::lemma_lex_transitive(
                                                dirs@[i as int].0@,
                                                dirs@[j].0@,
                                                dirs@[b as int].0@,
                                            );
                                            crate::text::lemma_lex_asymmetric(
                                                dirs@[b as int].0@,
                                                dirs@[i as int].0@,
                                            );
                                        } else if dirs@[j].0@ == dirs@[b as int].0@ {
                                            crate::text::lemma_lex_asymmetric(
                                                dirs@[b as int].0@,
                                                dirs@[i as int].0@,
                                            );
                                        }
                                    }
                                }
                            }
                        }
                        best = Some(i);
                    } else {
                        proof {
                            crate::text::lemma_lex_total(dirs@[b as int].0@, dirs@[i as int].0@);
                        }
                    }
                },
            }
        }
        i = i + 1;
    }
    best
}

// ---- reports --------------------------------------------------------------

/// Whole kibibytes of a size.
pub open spec fn kib(size: nat) -> nat {
    size / 1024
}

/// Division that rounds toward zero, as Rust's `/` on integers does.
pub open spec fn div_toward_zero(x: int, d: int) -> int {
    if x < 0 {
        -((-x) / d)
    } else {
        x / d
    }
}

/// The first lines of the APK diff: both paths, both sizes and the
/// difference of the sizes, in KB.
pub open spec fn size_lines(a: Seq<char>, b: Seq<char>, size_a: nat, size_b: nat) -> Seq<Seq<char>> {
    seq![
        "A: "@ + a,
        "B: "@ + b,
        "Size A: "@ + decimal(kib(size_a)) + " KB"@,
        "Size B: "@ + decimal(kib(size_b)) + " KB"@,
        "Size delta (B - A): "@ + crate::play::signed_decimal(
            div_toward_zero(size_b - size_a, 1024),
        ) + " KB"@,
        ""@,
    ]
}

/// A section of the APK diff: its heading and one line per entry, or a note
/// that there is none.
pub open spec fn diff_section(heading: Seq<char>, mark: Seq<char>, entries: Seq<Seq<char>>) -> Seq<
    Seq<char>,
> {
    seq![heading] + if entries.len() == 0 {
        seq!["  (none)"@]
    } else {
        entries.map_values(|e: Seq<char>| mark + e)
    }
}

/// How many entries each section of the APK diff lists at most.
pub const DIFF_LIMIT: usize = 60;

/// The whole APK diff: sizes, then, where `aapt2` gave badging dumps for
/// both artifacts, the lines only in A and the lines only in B.
pub open spec fn apk_diff_lines(
    a: Seq<char>,
    b: Seq<char>,
    size_a: nat,
    size_b: nat,
    badging: Option<(Seq<char>, Seq<char>)>,
) -> Seq<Seq<char>> {
    size_lines(a, b, size_a, size_b) + match badging {
        None => seq!["aapt2 not found (install Android SDK build-tools) — size diff only."@],
        Some((da, db)) => diff_section(
            "Only in A (removed):"@,
            "- "@,
            line_difference(da, db, DIFF_LIMIT as nat),
        ) + seq![""@] + diff_section(
            "Only in B (added):"@,
            "+ "@,
            line_difference(db, da, DIFF_LIMIT as nat),
        ),
    }
}

fn push_line(lines: &mut Vec<String>, line: String)
    ensures
        string_views(final(lines)@) == string_views(old(lines)@).push(line@),
{
    let ghost before = string_views(lines@);
    lines.push(line);
    assert(string_views(lines@) == before.push(line@));
}

fn push_section(lines: &mut Vec<String>, heading: &str, mark: &str, entries: &Vec<String>)
    ensures
        string_views(final(lines)@) == string_views(old(lines)@) + diff_section(
            heading@,
            mark@,
            string_views(entries@),
        ),
{
    let ghost start = string_views(lines@);
    push_line(lines, String::from_str(heading));
    if entries.len() == 0 {
        push_line(lines, String::from_str("  (none)"));
        assert(string_views(lines@) == start + diff_section(heading@, mark@, string_views(entries@)));
        return;
    }
    let ghost marked = string_views(entries@).map_values(|e: Seq<char>| mark@ + e);
    let mut i: usize = 0;
    while i < entries.len()
        invariant
            i <= entries.len(),
            marked == string_views(entries@).map_values(|e: Seq<char>| mark@ + e),
            string_views(lines@) == start + seq![heading@] + marked.take(i as int),
        decreases entries.len() - i,
    {
        let mut l = String::from_str(mark);
        l.append(entries[i].as_str());
        assert(marked[i as int] == mark@ + entries@[i as int]@);
        push_line(lines, l);
        assert(marked.take(i + 1) == marked.take(i as int).push(marked[i as int]));
        i = i + 1;
    }
    assert(marked.take(entries.len() as int) == marked);
}

/// The lines of the APK diff of artifacts `a` and `b` with sizes `size_a`
/// and `size_b` and, where `aapt2` is there, their badging dumps.
pub fn apk_diff_report(
    a: &str,
    b: &str,
    size_a: u64,
    size_b: u64,
    badging: Option<(&str, &str)>,
) -> (r: Vec<String>)
    requires
        size_a <= i64::MAX,
        size_b <= i64::MAX,
    ensures
        string_views(r@) == apk_diff_lines(
            a@,
            b@,
            size_a as nat,
            size_b as nat,
            match badging {
                Some((x, y)) => Some((x@, y@)),
                None => None,
            },
        ),
{
    proof {
        reveal_strlit("");
    }
    let mut r: Vec<String> = Vec::new();
    let mut l = String::from_str("A: ");
    l.append(a);
    push_line(&mut r, l);
    let mut l = String::from_str("B: ");
    l.append(b);
    push_line(&mut r, l);
    let mut l = String::from_str("Size A: ");
    push_decimal(&mut l, size_a / 1024);
    l.append(" KB");
    push_line(&mut r, l);
    let mut l = String::from_str("Size B: ");
    push_decimal(&mut l, size_b / 1024);
    l.append(" KB");
    push_line(&mut r, l);
    let mut l = String::from_str("Size delta (B - A): ");
    let delta: i64 = if size_b >= size_a {
        ((size_b - size_a) / 1024) as i64
    } else {
        -(((size_a - size_b) / 1024) as i64)
    };
    assert(delta as int == div_toward_zero(size_b - size_a, 1024));
    crate::play::push_signed(&mut l, delta);
    l.append(" KB");
    push_line(&mut r, l);
    push_line(&mut r, String::new());
    let ghost head = string_views(r@);
    assert(head.len() == 6);
    assert(head[0] == size_lines(a@, b@, size_a as nat, size_b as nat)[0]);
    assert(head[2] == size_lines(a@, b@, size_a as nat, size_b as nat)[2]);
    assert(head[4] == size_lines(a@, b@, size_a as nat, size_b as nat)[4]);
    assert(head[5] == size_lines(a@, b@, size_a as nat, size_b as nat)[5]);
    assert(head =~= size_lines(a@, b@, size_a as nat, size_b as nat));
    match badging {
        None => {
            push_line(
                &mut r,
                String::from_str("aapt2 not found (install Android SDK build-tools) — size diff only."),
            );
        },
        Some((da, db)) => {
            let removed = badging_difference(da, db, DIFF_LIMIT);
            let added = badging_difference(db, da, DIFF_LIMIT);
            push_section(&mut r, "Only in A (removed):", "- ", &removed);
            push_line(&mut r, String::new());
            push_section(&mut r, "Only in B (added):", "+ ", &added);
        },
    }
    r
}

/// How many badging lines the analyze report shows at most.
pub const ANALYZE_LIMIT: usize = 80;

/// The lines of the analyze report of `artifact`: its path, its size where
/// it could be read, and the first badging lines where `aapt2` is there.
pub open spec fn analyze_lines(artifact: Seq<char>, size: Option<u64>, badging: Option<Seq<char>>) -> Seq<
    Seq<char>,
> {
    seq!["Analyzing "@ + artifact] + match size {
        Some(n) => seq!["Size: "@ + decimal(kib(n as nat)) + " KB"@],
        None => Seq::empty(),
    } + match badging {
        Some(text) => at_most(text_lines(text), ANALYZE_LIMIT as nat),
        None => seq!["aapt2 not found (install Android SDK build-tools) — size only."@],
    }
}

/// The lines of the analyze report.
pub fn analyze_report(artifact: &str, size: Option<u64>, badging: Option<&str>) -> (r: Vec<String>)
    ensures
        string_views(r@) == analyze_lines(
            artifact@,
            size,
            match badging {
                Some(t) => Some(t@),
                None => None,
            },
        ),
{
    let mut r: Vec<String> = Vec::new();
    let mut l = String::from_str("Analyzing ");
    l.append(artifact);
    push_line(&mut r, l);
    if let Some(n) = size {
        let mut l = String::from_str("Size: ");
        push_decimal(&mut l, n / 1024);
        l.append(" KB");
        push_line(&mut r, l);
    }
    let ghost head = string_views(r@);
    match badging {
        None => {
            push_line(
                &mut r,
                String::from_str("aapt2 not found (install Android SDK build-tools) — size only."),
            );
        },
        Some(text) => {
            let cs = chars_of(text);
            let lines = split_lines(cs.as_slice());
            let ghost shown = at_most(views(lines@), ANALYZE_LIMIT as nat);
            let mut i: usize = 0;
            while i < lines.len() && i < ANALYZE_LIMIT
                invariant
                    i <= lines.len(),
                    i <= ANALYZE_LIMIT,
                    string_views(r@) == head + views(lines@).take(i as int),
                decreases lines.len() - i,
            {
                assert(views(lines@)[i as int] == lines@[i as int]@);
                push_line(&mut r, string_of(lines[i].as_slice()));
                assert(views(lines@).take(i + 1) == views(lines@).take(i as int).push(
                    views(lines@)[i as int],
                ));
                i = i + 1;
            }
            proof {
                if views(lines@).len() <= ANALYZE_LIMIT {
                    assert(views(lines@).take(i as int) == views(lines@));
                }
            }
        },
    }
    r
}

/// The artifact the analyze report is about: the first of `candidates` that
/// is a file (`true` beside it), or the failure when none is.
pub fn analyzed_artifact(candidates: &[(String, bool)]) -> (r: Result<String, String>)
    ensures
        match r {
            Ok(a) => exists|i: int|
                0 <= i < candidates@.len() && candidates@[i].1 && a == candidates@[i].0 && forall|
                    j: int,
                | 0 <= j < i ==> !(#[trigger] candidates@[j]).1,
            Err(m) => m@ == "No built APK/AAB found — build the app first."@ && forall|j: int|
                0 <= j < candidates@.len() ==> !(#[trigger] candidates@[j]).1,
        },
{
    match first_existing(candidates) {
        Some(i) => Ok(candidates[i].0.clone()),
        None => Err(String::from_str("No built APK/AAB found — build the app first.")),
    }
}

/// Where a built artifact is looked for by the analyze report, in order.
pub fn analyze_candidates() -> (r: Vec<&'static str>)
    ensures
        crate::install::str_views(r@) == seq![
            "app/build/outputs/apk/debug/app-debug.apk"@,
            "app/build/outputs/bundle/release/app-release.aab"@,
            "app/build/outputs/apk/release/app-release.apk"@,
            "build/outputs/apk/debug/app-debug.apk"@,
        ],
{
    let r = vec![
        "app/build/outputs/apk/debug/app-debug.apk",
        "app/build/outputs/bundle/release/app-release.aab",
        "app/build/outputs/apk/release/app-release.apk",
        "build/outputs/apk/debug/app-debug.apk",
    ];
    assert(crate::install::str_views(r@) =~= seq![
        "app/build/outputs/apk/debug/app-debug.apk"@,
        "app/build/outputs/bundle/release/app-release.aab"@,
        "app/build/outputs/apk/release/app-release.apk"@,
        "build/outputs/apk/debug/app-debug.apk"@,
    ]);
    r
}

// ---- the Android view -----------------------------------------------------

/// How many output lines the Android view keeps.
pub const ANDROID_LOG_LINES: usize = 400;

/// The Android view: its title, the latest lines and where the job stands.
pub struct AndroidModal {
    pub title: String,
    pub lines: Vec<String>,
    pub status: RunStatus,
}

impl AndroidModal {
    /// The view of `job`: a report is shown at once and is done; anything
    /// else starts running with no lines yet.
    pub fn new(title: String, job: AndroidJob) -> (m: Self)
        ensures
            m.title == title,
            job is Report ==> m.lines == job->Report_0 && m.status is Done,
            !(job is Report) ==> m.lines@.len() == 0 && m.status is Running,
    {
        match job {
            AndroidJob::Report(lines) => AndroidModal { title, lines, status: RunStatus::Done },
            _ => AndroidModal { title, lines: Vec::new(), status: RunStatus::Running },
        }
    }

    /// Logs a line, keeping the latest `ANDROID_LOG_LINES`.
    pub fn push_line(&mut self, line: String)
        ensures
            string_views(final(self).lines@) == capped_push(
                string_views(old(self).lines@),
                line@,
                ANDROID_LOG_LINES as nat,
            ),
            final(self).status == old(self).status,
            final(self).title == old(self).title,
    {
        push_capped(&mut self.lines, line, ANDROID_LOG_LINES);
    }

    /// The footer: "Working…" while running; the error after a failure;
    /// and Close.
    pub fn footer(&self) -> (r: Vec<crate::modal::FooterItem>)
        ensures
            crate::modal::footer_views(r@) == crate::modal::footer_of(
                self.status,
                "Working…"@,
                None,
                None,
            ),
    {
        crate::modal::footer(&self.status, "Working…", None, None)
    }

    /// Settles the status once the job has ended with `result`.
    pub fn finish(&mut self, result: Result<(), String>)
        ensures
            final(self).lines == old(self).lines,
            final(self).title == old(self).title,
            final(self).status == crate::modal::finished_status(old(self).status, result),
    {
        let mut status = RunStatus::Running;
        std::mem::swap(&mut status, &mut self.status);
        self.status = crate::modal::finish_status(status, result);
    }
}

/// The message when a process exits with a failure status.
pub fn nonzero_exit_message(program: &str) -> (r: String)
    ensures
        r@ == "`"@ + program@ + "` exited with a non-zero status"@,
{
    let mut r = String::from_str("`");
    r.append(program);
    r.append("` exited with a non-zero status");
    r
}


// ---- jobs of the other actions --------------------------------------------

/// The job of an APK diff for the files picked: two of them are compared;
/// any other number is refused with a note.
pub fn apk_diff_job(paths: Vec<String>, sdk: Option<String>) -> (j: AndroidJob)
    ensures
        paths@.len() == 2 ==> (j matches AndroidJob::ApkDiff { a, b, sdk: s } && a == paths@[0]
            && b == paths@[1] && s == sdk),
        paths@.len() != 2 ==> is_report(j, seq!["Select exactly two APK/AAB files to compare."@]),
{
    if paths.len() == 2 {
        let a = paths[0].clone();
        let b = paths[1].clone();
        AndroidJob::ApkDiff { a, b, sdk }
    } else {
        report("Select exactly two APK/AAB files to compare.")
    }
}

/// The job of a Play deploy: the project must be open; without a readable
/// configuration the sample is shown.
pub fn deploy_job(cwd: Option<String>, config: Option<PlayConfig>) -> (j: AndroidJob)
    ensures
        cwd is None ==> is_report(j, seq!["Open an Android project first."@]),
        cwd is Some && config is None ==> is_report(j, crate::play::config_sample_lines()),
        cwd is Some && config is Some ==> (j matches AndroidJob::PlayDeploy { cwd: c, config: k }
            && c == cwd->0 && k == config->0),
{
    match cwd {
        None => report("Open an Android project first."),
        Some(c) => match config {
            Some(k) => AndroidJob::PlayDeploy { cwd: c, config: k },
            None => AndroidJob::Report(crate::play::play_config_sample()),
        },
    }
}

/// What starting an emulator shows: where no emulator is found, how to get
/// one; otherwise that the first AVD is being launched.
pub fn start_emulator_job(emulator_found: bool) -> (j: AndroidJob)
    ensures
        !emulator_found ==> is_report(
            j,
            seq!["emulator not found — install the Android SDK emulator package."@],
        ),
        emulator_found ==> is_report(
            j,
            seq!["Launching the first available emulator…"@, "It will open in a new window shortly."@],
        ),
{
    if !emulator_found {
        return report("emulator not found — install the Android SDK emulator package.");
    }
    let lines = vec![
        String::from_str("Launching the first available emulator…"),
        String::from_str("It will open in a new window shortly."),
    ];
    assert(string_views(lines@) =~= seq![
        "Launching the first available emulator…"@,
        "It will open in a new window shortly."@,
    ]);
    AndroidJob::Report(lines)
}

/// The message when no device is ready.
pub fn no_device_message() -> (r: String)
    ensures
        r@ == "No connected device or emulator (start one first)."@,
{
    String::from_str("No connected device or emulator (start one first).")
}

/// The pieces in which a dumped view hierarchy is shown: its trimmed UTF-8
/// bytes in runs of 200, or the failure when the dump is blank.
pub fn layout_chunks(xml: &str) -> (r: Result<Vec<Vec<u8>>, String>)
    ensures
        crate::text::trim(xml@).len() == 0 ==> (r matches Err(m) && m@
            == "uiautomator returned no hierarchy (is the screen on?)."@),
        crate::text::trim(xml@).len() > 0 ==> (r matches Ok(pieces)
            && crate::android_text::is_chunking(
            crate::android_text::byte_views(pieces@),
            vstd::utf8::encode_utf8(crate::text::trim(xml@)),
            200,
        )),
{
    let trimmed = crate::text::trim_str(xml);
    if trimmed.as_str().is_empty() {
        return Err(String::from_str("uiautomator returned no hierarchy (is the screen on?)."));
    }
    Ok(crate::android_text::chunk_bytes(trimmed.as_str().as_bytes(), 200))
}

/// The build actions run Gradle in the project with one task each, and
/// each its own: a debug build assembles the debug APK (`assembleDebug`), a
/// release build makes the bundle (`bundleRelease`), and Run builds and
/// installs the app on the device (`installDebug`). The task is the last
/// argument, whether the wrapper runs directly, through `cmd /C`, or a
/// system `gradle` stands in.
pub proof fn law_build_actions_run_their_gradle_task(
    job: AndroidJob,
    action: AndroidAction,
    cwd: Option<String>,
    tc: Toolchain,
    windows: bool,
)
    requires
        is_job_for(job, action, cwd, tc, windows),
        action == AndroidAction::BuildDebug || action == AndroidAction::BuildBundle || action
            == AndroidAction::Run,
        cwd is Some,
        tc.gradle_wrapper is Some || tc.system_gradle is Some,
    ensures
        job matches AndroidJob::Command { program, args, cwd: c } && {
            let a = string_views(args@);
            &&& c@ == cwd->0@
            &&& a.len() >= 1
            &&& a.last() == (if action == AndroidAction::BuildDebug {
                "assembleDebug"@
            } else if action == AndroidAction::BuildBundle {
                "bundleRelease"@
            } else {
                "installDebug"@
            })
            &&& (tc.gradle_wrapper is Some && !windows ==> program@ == tc.gradle_wrapper->0@
                && a.len() == 1)
            &&& (tc.gradle_wrapper is Some && windows ==> program@ == "cmd"@ && a == seq![
                "/C"@,
                tc.gradle_wrapper->0@,
                a.last(),
            ])
            &&& (tc.gradle_wrapper is None ==> program@ == tc.system_gradle->0@ && a.len() == 1)
        },
{
    let t = build_tasks(action);
    assert(t.len() == 1);
    match tc.gradle_wrapper {
        Some(w) => {
            if windows {
                assert((seq!["/C"@, w@] + t).last() == t[0]);
                assert(seq!["/C"@, w@] + t =~= seq!["/C"@, w@, t[0]]);
            }
        },
        None => {},
    }
}

} // verus!
