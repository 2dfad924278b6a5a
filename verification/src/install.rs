//! Magic Install: which package managers a project uses, judged from the
//! marker files present in it, and the lines and status of the install view.
use vstd::prelude::*;
use vstd::string::*;
use crate::modal::{RunStatus, capped_push, push_capped, string_views};
use crate::text::{chars_eq, chars_of};

verus! {

/// A package manager: the marker files that imply it, the files that
/// suppress it (plain `npm` when a lockfile of another manager is present),
/// and the install command.
pub struct PackageManager {
    pub name: &'static str,
    pub markers: Vec<&'static str>,
    pub suppressed_by: Vec<&'static str>,
    pub program: &'static str,
    pub args: Vec<&'static str>,
}

/// The views of a sequence of string slices.
pub open spec fn str_views(v: Seq<&str>) -> Seq<Seq<char>> {
    v.map_values(|s: &str| s@)
}

/// The managers' names, in the order of the detection table.
pub open spec fn table_names() -> Seq<Seq<char>> {
    seq![
        "pnpm"@, "yarn"@, "bun"@, "npm"@, "cargo"@, "poetry"@, "pipenv"@, "pip"@, "go"@,
        "bundler"@, "composer"@, "dotnet"@, "maven"@, "swift"@,
    ]
}

/// The marker files of each manager.
pub open spec fn table_markers() -> Seq<Seq<Seq<char>>> {
    seq![
        seq!["pnpm-lock.yaml"@],
        seq!["yarn.lock"@],
        seq!["bun.lockb"@, "bun.lock"@],
        seq!["package.json"@],
        seq!["Cargo.toml"@],
        seq!["poetry.lock"@],
        seq!["Pipfile"@],
        seq!["requirements.txt"@],
        seq!["go.mod"@],
        seq!["Gemfile"@],
        seq!["composer.json"@],
        seq!["global.json"@, "paket.dependencies"@],
        seq!["pom.xml"@],
        seq!["Package.swift"@],
    ]
}

/// The files that suppress each manager.
pub open spec fn table_suppressors() -> Seq<Seq<Seq<char>>> {
    seq![
        seq![],
        seq![],
        seq![],
        seq!["yarn.lock"@, "pnpm-lock.yaml"@, "bun.lockb"@, "bun.lock"@],
        seq![],
        seq![],
        seq![],
        seq!["poetry.lock"@, "Pipfile"@],
        seq![],
        seq![],
        seq![],
        seq![],
        seq![],
        seq![],
    ]
}

/// The program that each manager's install runs.
pub open spec fn table_programs() -> Seq<Seq<char>> {
    seq![
        "pnpm"@, "yarn"@, "bun"@, "npm"@, "cargo"@, "poetry"@, "pipenv"@, "python"@, "go"@,
        "bundle"@, "composer"@, "dotnet"@, "mvn"@, "swift"@,
    ]
}

/// The arguments of each manager's install command.
pub open spec fn table_args() -> Seq<Seq<Seq<char>>> {
    seq![
        seq!["install"@],
        seq!["install"@],
        seq!["install"@],
        seq!["install"@],
        seq!["fetch"@],
        seq!["install"@],
        seq!["install"@],
        seq!["-m"@, "pip"@, "install"@, "-r"@, "requirements.txt"@],
        seq!["mod"@, "download"@],
        seq!["install"@],
        seq!["install"@],
        seq!["restore"@],
        seq!["install"@, "-q"@],
        seq!["package"@, "resolve"@],
    ]
}

/// `m` is the entry `i` of the detection table.
pub open spec fn is_table_entry(m: PackageManager, i: int) -> bool {
    &&& m.name@ == table_names()[i]
    &&& str_views(m.markers@) == table_markers()[i]
    &&& str_views(m.suppressed_by@) == table_suppressors()[i]
    &&& m.program@ == table_programs()[i]
    &&& str_views(m.args@) == table_args()[i]
}

fn manager(
    name: &'static str,
    markers: Vec<&'static str>,
    suppressed_by: Vec<&'static str>,
    program: &'static str,
    args: Vec<&'static str>,
) -> (m: PackageManager)
    ensures
        m.name == name && m.markers == markers && m.suppressed_by == suppressed_by
            && m.program == program && m.args == args,
{
    PackageManager { name, markers, suppressed_by, program, args }
}

/// The detection table, ordered by ecosystem; suppression keeps a generic
/// manager from running next to the lockfile-specific one.
pub fn package_managers() -> (r: Vec<PackageManager>)
    ensures
        r@.len() == 14,
        forall|i: int| 0 <= i < 14 ==> is_table_entry(#[trigger] r@[i], i),
{
    let r = vec![
        manager("pnpm", vec!["pnpm-lock.yaml"], vec![], "pnpm", vec!["install"]),
        manager("yarn", vec!["yarn.lock"], vec![], "yarn", vec!["install"]),
        manager("bun", vec!["bun.lockb", "bun.lock"], vec![], "bun", vec!["install"]),
        manager(
            "npm",
            vec!["package.json"],
            vec!["yarn.lock", "pnpm-lock.yaml", "bun.lockb", "bun.lock"],
            "npm",
            vec!["install"],
        ),
        manager("cargo", vec!["Cargo.toml"], vec![], "cargo", vec!["fetch"]),
        manager("poetry", vec!["poetry.lock"], vec![], "poetry", vec!["install"]),
        manager("pipenv", vec!["Pipfile"], vec![], "pipenv", vec!["install"]),
        manager(
            "pip",
            vec!["requirements.txt"],
            vec!["poetry.lock", "Pipfile"],
            "python",
            vec!["-m", "pip", "install", "-r", "requirements.txt"],
        ),
        manager("go", vec!["go.mod"], vec![], "go", vec!["mod", "download"]),
        manager("bundler", vec!["Gemfile"], vec![], "bundle", vec!["install"]),
        manager("composer", vec!["composer.json"], vec![], "composer", vec!["install"]),
        manager("dotnet", vec!["global.json", "paket.dependencies"], vec![], "dotnet", vec!["restore"]),
        manager("maven", vec!["pom.xml"], vec![], "mvn", vec!["install", "-q"]),
        manager("swift", vec!["Package.swift"], vec![], "swift", vec!["package", "resolve"]),
    ];
    proof {
        assert forall|i: int| 0 <= i < 14 implies is_table_entry(#[trigger] r@[i], i) by {
            assert(str_views(r@[i].markers@) =~= table_markers()[i]);
            assert(str_views(r@[i].suppressed_by@) =~= table_suppressors()[i]);
            assert(str_views(r@[i].args@) =~= table_args()[i]);
        }
    }
    r
}


/// One of `files` is among the `present` marker files.
pub open spec fn any_present(files: Seq<Seq<char>>, present: Seq<Seq<char>>) -> bool {
    exists|i: int| 0 <= i < files.len() && present.contains(#[trigger] files[i])
}

/// The manager `m` applies to a project whose marker files are `present`: one
/// of its markers is there and none of its suppressors.
pub open spec fn applies(m: PackageManager, present: Seq<Seq<char>>) -> bool {
    any_present(str_views(m.markers@), present) && !any_present(
        str_views(m.suppressed_by@),
        present,
    )
}

/// The names of the managers in `ms` that apply, in table order.
pub open spec fn detected_names(ms: Seq<PackageManager>, present: Seq<Seq<char>>) -> Seq<
    Seq<char>,
>
    decreases ms.len(),
{
    if ms.len() == 0 {
        Seq::empty()
    } else {
        let rest = detected_names(ms.drop_last(), present);
        if applies(ms.last(), present) {
            rest.push(ms.last().name@)
        } else {
            rest
        }
    }
}

/// Whether `name` is one of `present`.
pub fn contains_name(present: &[String], name: &str) -> (b: bool)
    ensures
        b == string_views(present@).contains(name@),
{
    let target = chars_of(name);
    let mut j: usize = 0;
    while j < present.len()
        invariant
            j <= present.len(),
            target@ == name@,
            forall|k: int| 0 <= k < j ==> present@[k]@ != name@,
        decreases present.len() - j,
    {
        let cand = chars_of(present[j].as_str());
        if chars_eq(cand.as_slice(), target.as_slice()) {
            assert(string_views(present@)[j as int] == name@);
            return true;
        }
        j = j + 1;
    }
    proof {
        if string_views(present@).contains(name@) {
            let k = choose|k: int| 0 <= k < present@.len() && string_views(present@)[k] == name@;
            assert(present@[k]@ == name@);
        }
    }
    false
}

/// Whether any of `files` is among `present`.
pub fn any_file_present(files: &[&'static str], present: &[String]) -> (b: bool)
    ensures
        b == any_present(str_views(files@), string_views(present@)),
{
    let mut i: usize = 0;
    while i < files.len()
        invariant
            i <= files.len(),
            forall|k: int| 0 <= k < i ==> !string_views(present@).contains(#[trigger] files@[k]@),
        decreases files.len() - i,
    {
        if contains_name(present, files[i]) {
            assert(str_views(files@)[i as int] == files@[i as int]@);
            return true;
        }
        i = i + 1;
    }
    proof {
        if any_present(str_views(files@), string_views(present@)) {
            let k = choose|k: int|
                0 <= k < str_views(files@).len() && string_views(present@).contains(
                    #[trigger] str_views(files@)[k],
                );
            assert(str_views(files@)[k] == files@[k]@);
        }
    }
    false
}

/// The names of the managers of `managers` that apply to a project whose
/// marker files are `present`, in table order.
pub fn detect(managers: &[PackageManager], present: &[String]) -> (r: Vec<&'static str>)
    ensures
        str_views(r@) == detected_names(managers@, string_views(present@)),
{
    let mut r: Vec<&'static str> = Vec::new();
    let mut i: usize = 0;
    while i < managers.len()
        invariant
            i <= managers.len(),
            str_views(r@) == detected_names(managers@.take(i as int), string_views(present@)),
        decreases managers.len() - i,
    {
        let m = &managers[i];
        let hit = any_file_present(m.markers.as_slice(), present) && !any_file_present(
            m.suppressed_by.as_slice(),
            present,
        );
        assert(managers@.take(i + 1).drop_last() == managers@.take(i as int));
        assert(managers@.take(i + 1).last() == managers@[i as int]);
        if hit {
            r.push(m.name);
        }
        i = i + 1;
    }
    assert(managers@.take(managers.len() as int) == managers@);
    r
}

// ---- the install view -----------------------------------------------------

/// `parts` joined with `sep` between each two.
pub open spec fn join(parts: Seq<Seq<char>>, sep: Seq<char>) -> Seq<char>
    decreases parts.len(),
{
    if parts.len() == 0 {
        Seq::empty()
    } else if parts.len() == 1 {
        parts[0]
    } else {
        join(parts.drop_last(), sep) + sep + parts.last()
    }
}

/// `parts` joined with `sep`, as `[&str]::join` does.
pub fn join_strs(parts: &[&str], sep: &str) -> (r: String)
    ensures
        r@ == join(str_views(parts@), sep@),
{
    let mut r = String::new();
    let mut i: usize = 0;
    while i < parts.len()
        invariant
            i <= parts.len(),
            r@ == join(str_views(parts@.take(i as int)), sep@),
        decreases parts.len() - i,
    {
        assert(str_views(parts@.take(i + 1)).drop_last() == str_views(parts@.take(i as int)));
        if i > 0 {
            r.append(sep);
        }
        r.append(parts[i]);
        i = i + 1;
    }
    assert(parts@.take(parts.len() as int) == parts@);
    r
}

/// The line that lists the detected managers.
pub fn detected_line(names: &[&str]) -> (r: String)
    ensures
        r@ == "Detected: "@ + join(str_views(names@), ", "@),
{
    let mut r = String::from_str("Detected: ");
    let joined = join_strs(names, ", ");
    r.append(joined.as_str());
    r
}

/// The line that announces the install command of `m`.
pub fn command_line(m: &PackageManager) -> (r: String)
    ensures
        r@ == "→ "@ + m.program@ + " "@ + join(str_views(m.args@), " "@),
{
    let mut r = String::from_str("→ ");
    r.append(m.program);
    r.append(" ");
    let joined = join_strs(m.args.as_slice(), " ");
    r.append(joined.as_str());
    r
}

/// How many output lines the install view keeps.
pub const INSTALL_LOG_LINES: usize = 200;

/// The install view: the latest output lines and where the run stands.
pub struct InstallModal {
    pub lines: Vec<String>,
    pub status: RunStatus,
}

impl InstallModal {
    /// A view for a run that has just started.
    pub fn new() -> (m: Self)
        ensures
            m.lines@.len() == 0,
            m.status is Running,
    {
        InstallModal { lines: Vec::new(), status: RunStatus::Running }
    }

    /// Logs a line, keeping the latest `INSTALL_LOG_LINES`.
    pub fn push_line(&mut self, line: String)
        ensures
            string_views(final(self).lines@) == capped_push(
                string_views(old(self).lines@),
                line@,
                INSTALL_LOG_LINES as nat,
            ),
            final(self).status == old(self).status,
    {
        push_capped(&mut self.lines, line, INSTALL_LOG_LINES);
    }

    /// Logs the lines that open a run for the managers `names`: a note when
    /// there are none, else the list.
    pub fn report_detected(&mut self, names: &[&str])
        ensures
            final(self).status == old(self).status,
            names@.len() == 0 ==> string_views(final(self).lines@) == capped_push(
                string_views(old(self).lines@),
                "No recognized package manager in this project."@,
                INSTALL_LOG_LINES as nat,
            ),
            names@.len() > 0 ==> string_views(final(self).lines@) == capped_push(
                string_views(old(self).lines@),
                "Detected: "@ + join(str_views(names@), ", "@),
                INSTALL_LOG_LINES as nat,
            ),
    {
        if names.len() == 0 {
            self.push_line(String::from_str("No recognized package manager in this project."));
        } else {
            self.push_line(detected_line(names));
        }
    }

    /// Logs a line of a command's output, indented.
    pub fn push_output(&mut self, line: &str)
        ensures
            final(self).status == old(self).status,
            string_views(final(self).lines@) == capped_push(
                string_views(old(self).lines@),
                "  "@ + line@,
                INSTALL_LOG_LINES as nat,
            ),
    {
        let mut l = String::from_str("  ");
        l.append(line);
        self.push_line(l);
    }

    /// Logs that the program of a manager could not be launched.
    pub fn push_not_found(&mut self, m: &PackageManager, error: &str)
        ensures
            final(self).status == old(self).status,
            string_views(final(self).lines@) == capped_push(
                string_views(old(self).lines@),
                "  "@ + m.program@ + " not found ("@ + error@ + ")"@,
                INSTALL_LOG_LINES as nat,
            ),
    {
        let mut l = String::from_str("  ");
        l.append(m.program);
        l.append(" not found (");
        l.append(error);
        l.append(")");
        self.push_line(l);
    }

    /// Logs how a manager's install ended; `status` is the exit status as
    /// shown.
    pub fn push_result(&mut self, m: &PackageManager, success: bool, status: &str)
        ensures
            final(self).status == old(self).status,
            success ==> string_views(final(self).lines@) == capped_push(
                string_views(old(self).lines@),
                m.name@ + " ✓"@,
                INSTALL_LOG_LINES as nat,
            ),
            !success ==> string_views(final(self).lines@) == capped_push(
                string_views(old(self).lines@),
                m.name@ + " failed ("@ + status@ + ")"@,
                INSTALL_LOG_LINES as nat,
            ),
    {
        let mut l = String::from_str(m.name);
        if success {
            l.append(" ✓");
        } else {
            l.append(" failed (");
            l.append(status);
            l.append(")");
        }
        self.push_line(l);
    }

    /// Records at the end of the installs whether one of them failed.
    pub fn finish_installs(&mut self, any_failed: bool)
        ensures
            final(self).lines == old(self).lines,
            any_failed ==> (final(self).status matches RunStatus::Error(m) && m@
                == "One or more installs failed."@),
            !any_failed ==> final(self).status == old(self).status,
    {
        if any_failed {
            self.status = RunStatus::Error(String::from_str("One or more installs failed."));
        }
    }

    /// The footer: "Installing…" while running; the error after a failure;
    /// "Done" once done; and Close.
    pub fn footer(&self) -> (r: Vec<crate::modal::FooterItem>)
        ensures
            crate::modal::footer_views(r@) == crate::modal::footer_of(
                self.status,
                "Installing…"@,
                Some("Done"@),
                None,
            ),
    {
        crate::modal::footer(&self.status, "Installing…", Some("Done"), None)
    }

    /// Ends a run whose installs succeeded or not as `succeeded` says: one
    /// failed install fails the run; otherwise the run is done, unless an
    /// error was reported already.
    pub fn finish_run(&mut self, succeeded: &[bool])
        ensures
            final(self).lines == old(self).lines,
            (exists|i: int| 0 <= i < succeeded@.len() && !succeeded@[i]) ==> (final(self).status matches RunStatus::Error(m)
                && m@ == "One or more installs failed."@),
            (forall|i: int| 0 <= i < succeeded@.len() ==> succeeded@[i]) ==> final(self).status
                == crate::modal::finished_status(old(self).status, Ok(())),
    {
        let mut any_failed = false;
        let mut i: usize = 0;
        while i < succeeded.len()
            invariant
                i <= succeeded@.len(),
                any_failed == exists|j: int| 0 <= j < i && !succeeded@[j],
            decreases succeeded@.len() - i,
        {
            if !succeeded[i] {
                any_failed = true;
            }
            i = i + 1;
        }
        self.finish_installs(any_failed);
        self.finish(Ok(()));
    }

    /// Settles the status once the run has ended with `result`.
    pub fn finish(&mut self, result: Result<(), String>)
        ensures
            final(self).lines == old(self).lines,
            final(self).status == crate::modal::finished_status(old(self).status, result),
    {
        let mut status = RunStatus::Running;
        std::mem::swap(&mut status, &mut self.status);
        self.status = crate::modal::finish_status(status, result);
    }
}


proof fn lemma_detected_names(ms: Seq<PackageManager>, present: Seq<Seq<char>>, x: Seq<char>)
    ensures
        detected_names(ms, present).contains(x) <==> exists|i: int|
            0 <= i < ms.len() && applies(#[trigger] ms[i], present) && ms[i].name@ == x,
    decreases ms.len(),
{
    if ms.len() > 0 {
        let init = ms.drop_last();
        lemma_detected_names(init, present, x);
        let rest = detected_names(init, present);
        if applies(ms.last(), present) {
            if rest.push(ms.last().name@).contains(x) && !rest.contains(x) {
                let k = choose|k: int| 0 <= k < rest.len() + 1 && rest.push(ms.last().name@)[k] == x;
                assert(k == rest.len());
                assert(ms[ms.len() - 1] == ms.last());
            }
            if rest.contains(x) {
                let k = choose|k: int| 0 <= k < rest.len() && rest[k] == x;
                assert(rest.push(ms.last().name@)[k] == x);
            }
            if ms.last().name@ == x {
                assert(rest.push(ms.last().name@)[rest.len() as int] == x);
            }
        }
        if exists|i: int| 0 <= i < ms.len() && applies(#[trigger] ms[i], present) && ms[i].name@ == x {
            let i = choose|i: int| 0 <= i < ms.len() && applies(#[trigger] ms[i], present) && ms[i].name@ == x;
            if i < ms.len() - 1 {
                assert(init[i] == ms[i]);
            }
        }
        if exists|i: int| 0 <= i < init.len() && applies(#[trigger] init[i], present) && init[i].name@ == x {
            let i = choose|i: int| 0 <= i < init.len() && applies(#[trigger] init[i], present) && init[i].name@ == x;
            assert(ms[i] == init[i]);
        }
    }
}

proof fn lemma_table_applies(ms: Seq<PackageManager>, present: Seq<Seq<char>>, i: int, x: Seq<char>)
    requires
        ms.len() == 14,
        forall|k: int| 0 <= k < 14 ==> is_table_entry(#[trigger] ms[k], k),
        detected_names(ms, present).contains(x),
        0 <= i < 14,
        table_names()[i] == x,
        forall|k: int| 0 <= k < 14 && k != i ==> table_names()[k] != x,
    ensures
        applies(ms[i], present),
{
    lemma_detected_names(ms, present, x);
    let k = choose|k: int| 0 <= k < ms.len() && applies(#[trigger] ms[k], present) && ms[k].name@ == x;
    assert(is_table_entry(ms[k], k));
}

/// Lockfile-specific managers are not doubled up with their generic
/// counterparts: `npm` never runs beside `yarn`, `pnpm` or `bun`, and `pip`
/// never beside `poetry` or `pipenv`.
pub proof fn law_no_doubled_managers(ms: Seq<PackageManager>, present: Seq<Seq<char>>)
    requires
        ms.len() == 14,
        forall|k: int| 0 <= k < 14 ==> is_table_entry(#[trigger] ms[k], k),
    ensures
        detected_names(ms, present).contains("npm"@) ==> !detected_names(ms, present).contains(
            "yarn"@,
        ) && !detected_names(ms, present).contains("pnpm"@) && !detected_names(
            ms,
            present,
        ).contains("bun"@),
        detected_names(ms, present).contains("pip"@) ==> !detected_names(ms, present).contains(
            "poetry"@,
        ) && !detected_names(ms, present).contains("pipenv"@),
{
    reveal_strlit("pnpm");
    reveal_strlit("yarn");
    reveal_strlit("bun");
    reveal_strlit("npm");
    reveal_strlit("cargo");
    reveal_strlit("poetry");
    reveal_strlit("pipenv");
    reveal_strlit("pip");
    reveal_strlit("go");
    reveal_strlit("bundler");
    reveal_strlit("composer");
    reveal_strlit("dotnet");
    reveal_strlit("maven");
    reveal_strlit("swift");
    let d = detected_names(ms, present);
    let names = table_names();
    assert forall|k: int| 0 <= k < 14 && k != 3 implies names[k] != "npm"@ by {
        assert(names[0] != "npm"@) by { assert("pnpm"@.len() != "npm"@.len()); }
        assert(names[1] != "npm"@) by { assert("yarn"@.len() != "npm"@.len()); }
        assert(names[2] != "npm"@) by { assert("bun"@[0] != "npm"@[0]); }
        assert(names[4] != "npm"@) by { assert("cargo"@.len() != "npm"@.len()); }
        assert(names[5] != "npm"@) by { assert("poetry"@.len() != "npm"@.len()); }
        assert(names[6] != "npm"@) by { assert("pipenv"@.len() != "npm"@.len()); }
        assert(names[7] != "npm"@) by { assert("pip"@[0] != "npm"@[0]); }
        assert(names[8] != "npm"@) by { assert("go"@.len() != "npm"@.len()); }
        assert(names[9] != "npm"@) by { assert("bundler"@.len() != "npm"@.len()); }
        assert(names[10] != "npm"@) by { assert("composer"@.len() != "npm"@.len()); }
        assert(names[11] != "npm"@) by { assert("dotnet"@.len() != "npm"@.len()); }
        assert(names[12] != "npm"@) by { assert("maven"@.len() != "npm"@.len()); }
        assert(names[13] != "npm"@) by { assert("swift"@.len() != "npm"@.len()); }
    }
    assert forall|k: int| 0 <= k < 14 && k != 1 implies names[k] != "yarn"@ by {
        assert(names[0] != "yarn"@) by { assert("pnpm"@[0] != "yarn"@[0]); }
        assert(names[2] != "yarn"@) by { assert("bun"@.len() != "yarn"@.len()); }
        assert(names[3] != "yarn"@) by { assert("npm"@.len() != "yarn"@.len()); }
        assert(names[4] != "yarn"@) by { assert("cargo"@.len() != "yarn"@.len()); }
        assert(names[5] != "yarn"@) by { assert("poetry"@.len() != "yarn"@.len()); }
        assert(names[6] != "yarn"@) by { assert("pipenv"@.len() != "yarn"@.len()); }
        assert(names[7] != "yarn"@) by { assert("pip"@.len() != "yarn"@.len()); }
        assert(names[8] != "yarn"@) by { assert("go"@.len() != "yarn"@.len()); }
        assert(names[9] != "yarn"@) by { assert("bundler"@.len() != "yarn"@.len()); }
        assert(names[10] != "yarn"@) by { assert("composer"@.len() != "yarn"@.len()); }
        assert(names[11] != "yarn"@) by { assert("dotnet"@.len() != "yarn"@.len()); }
        assert(names[12] != "yarn"@) by { assert("maven"@.len() != "yarn"@.len()); }
        assert(names[13] != "yarn"@) by { assert("swift"@.len() != "yarn"@.len()); }
    }
    assert forall|k: int| 0 <= k < 14 && k != 0 implies names[k] != "pnpm"@ by {
        assert(names[1] != "pnpm"@) by { assert("yarn"@[0] != "pnpm"@[0]); }
        assert(names[2] != "pnpm"@) by { assert("bun"@.len() != "pnpm"@.len()); }
        assert(names[3] != "pnpm"@) by { assert("npm"@.len() != "pnpm"@.len()); }
        assert(names[4] != "pnpm"@) by { assert("cargo"@.len() != "pnpm"@.len()); }
        assert(names[5] != "pnpm"@) by { assert("poetry"@.len() != "pnpm"@.len()); }
        assert(names[6] != "pnpm"@) by { assert("pipenv"@.len() != "pnpm"@.len()); }
        assert(names[7] != "pnpm"@) by { assert("pip"@.len() != "pnpm"@.len()); }
        assert(names[8] != "pnpm"@) by { assert("go"@.len() != "pnpm"@.len()); }
        assert(names[9] != "pnpm"@) by { assert("bundler"@.len() != "pnpm"@.len()); }
        assert(names[10] != "pnpm"@) by { assert("composer"@.len() != "pnpm"@.len()); }
        assert(names[11] != "pnpm"@) by { assert("dotnet"@.len() != "pnpm"@.len()); }
        assert(names[12] != "pnpm"@) by { assert("maven"@.len() != "pnpm"@.len()); }
        assert(names[13] != "pnpm"@) by { assert("swift"@.len() != "pnpm"@.len()); }
    }
    assert forall|k: int| 0 <= k < 14 && k != 2 implies names[k] != "bun"@ by {
        assert(names[0] != "bun"@) by { assert("pnpm"@.len() != "bun"@.len()); }
        assert(names[1] != "bun"@) by { assert("yarn"@.len() != "bun"@.len()); }
        assert(names[3] != "bun"@) by { assert("npm"@[0] != "bun"@[0]); }
        assert(names[4] != "bun"@) by { assert("cargo"@.len() != "bun"@.len()); }
        assert(names[5] != "bun"@) by { assert("poetry"@.len() != "bun"@.len()); }
        assert(names[6] != "bun"@) by { assert("pipenv"@.len() != "bun"@.len()); }
        assert(names[7] != "bun"@) by { assert("pip"@[0] != "bun"@[0]); }
        assert(names[8] != "bun"@) by { assert("go"@.len() != "bun"@.len()); }
        assert(names[9] != "bun"@) by { assert("bundler"@.len() != "bun"@.len()); }
        assert(names[10] != "bun"@) by { assert("composer"@.len() != "bun"@.len()); }
        assert(names[11] != "bun"@) by { assert("dotnet"@.len() != "bun"@.len()); }
        assert(names[12] != "bun"@) by { assert("maven"@.len() != "bun"@.len()); }
        assert(names[13] != "bun"@) by { assert("swift"@.len() != "bun"@.len()); }
    }
    assert forall|k: int| 0 <= k < 14 && k != 7 implies names[k] != "pip"@ by {
        assert(names[0] != "pip"@) by { assert("pnpm"@.len() != "pip"@.len()); }
        assert(names[1] != "pip"@) by { assert("yarn"@.len() != "pip"@.len()); }
        assert(names[2] != "pip"@) by { assert("bun"@[0] != "pip"@[0]); }
        assert(names[3] != "pip"@) by { assert("npm"@[0] != "pip"@[0]); }
        assert(names[4] != "pip"@) by { assert("cargo"@.len() != "pip"@.len()); }
        assert(names[5] != "pip"@) by { assert("poetry"@.len() != "pip"@.len()); }
        assert(names[6] != "pip"@) by { assert("pipenv"@.len() != "pip"@.len()); }
        assert(names[8] != "pip"@) by { assert("go"@.len() != "pip"@.len()); }
        assert(names[9] != "pip"@) by { assert("bundler"@.len() != "pip"@.len()); }
        assert(names[10] != "pip"@) by { assert("composer"@.len() != "pip"@.len()); }
        assert(names[11] != "pip"@) by { assert("dotnet"@.len() != "pip"@.len()); }
        assert(names[12] != "pip"@) by { assert("maven"@.len() != "pip"@.len()); }
        assert(names[13] != "pip"@) by { assert("swift"@.len() != "pip"@.len()); }
    }
    assert forall|k: int| 0 <= k < 14 && k != 5 implies names[k] != "poetry"@ by {
        assert(names[0] != "poetry"@) by { assert("pnpm"@.len() != "poetry"@.len()); }
        assert(names[1] != "poetry"@) by { assert("yarn"@.len() != "poetry"@.len()); }
        assert(names[2] != "poetry"@) by { assert("bun"@.len() != "poetry"@.len()); }
        assert(names[3] != "poetry"@) by { assert("npm"@.len() != "poetry"@.len()); }
        assert(names[4] != "poetry"@) by { assert("cargo"@.len() != "poetry"@.len()); }
        assert(names[6] != "poetry"@) by { assert("pipenv"@[1] != "poetry"@[1]); }
        assert(names[7] != "poetry"@) by { assert("pip"@.len() != "poetry"@.len()); }
        assert(names[8] != "poetry"@) by { assert("go"@.len() != "poetry"@.len()); }
        assert(names[9] != "poetry"@) by { assert("bundler"@.len() != "poetry"@.len()); }
        assert(names[10] != "poetry"@) by { assert("composer"@.len() != "poetry"@.len()); }
        assert(names[11] != "poetry"@) by { assert("dotnet"@[0] != "poetry"@[0]); }
        assert(names[12] != "poetry"@) by { assert("maven"@.len() != "poetry"@.len()); }
        assert(names[13] != "poetry"@) by { assert("swift"@.len() != "poetry"@.len()); }
    }
    assert forall|k: int| 0 <= k < 14 && k != 6 implies names[k] != "pipenv"@ by {
        assert(names[0] != "pipenv"@) by { assert("pnpm"@.len() != "pipenv"@.len()); }
        assert(names[1] != "pipenv"@) by { assert("yarn"@.len() != "pipenv"@.len()); }
        assert(names[2] != "pipenv"@) by { assert("bun"@.len() != "pipenv"@.len()); }
        assert(names[3] != "pipenv"@) by { assert("npm"@.len() != "pipenv"@.len()); }
        assert(names[4] != "pipenv"@) by { assert("cargo"@.len() != "pipenv"@.len()); }
        assert(names[5] != "pipenv"@) by { assert("poetry"@[1] != "pipenv"@[1]); }
        assert(names[7] != "pipenv"@) by { assert("pip"@.len() != "pipenv"@.len()); }
        assert(names[8] != "pipenv"@) by { assert("go"@.len() != "pipenv"@.len()); }
        assert(names[9] != "pipenv"@) by { assert("bundler"@.len() != "pipenv"@.len()); }
        assert(names[10] != "pipenv"@) by { assert("composer"@.len() != "pipenv"@.len()); }
        assert(names[11] != "pipenv"@) by { assert("dotnet"@[0] != "pipenv"@[0]); }
        assert(names[12] != "pipenv"@) by { assert("maven"@.len() != "pipenv"@.len()); }
        assert(names[13] != "pipenv"@) by { assert("swift"@.len() != "pipenv"@.len()); }
    }
    if d.contains("npm"@) {
        lemma_table_applies(ms, present, 3, "npm"@);
        let sup = str_views(ms[3].suppressed_by@);
        assert(sup == table_suppressors()[3]);
        if d.contains("yarn"@) {
            lemma_table_applies(ms, present, 1, "yarn"@);
            let m1 = str_views(ms[1].markers@);
            assert(m1 == table_markers()[1]);
            let j = choose|j: int| 0 <= j < m1.len() && present.contains(#[trigger] m1[j]);
            assert(sup[0] == m1[j]);
        }
        if d.contains("pnpm"@) {
            lemma_table_applies(ms, present, 0, "pnpm"@);
            let m0 = str_views(ms[0].markers@);
            assert(m0 == table_markers()[0]);
            let j = choose|j: int| 0 <= j < m0.len() && present.contains(#[trigger] m0[j]);
            assert(sup[1] == m0[j]);
        }
        if d.contains("bun"@) {
            lemma_table_applies(ms, present, 2, "bun"@);
            let m2 = str_views(ms[2].markers@);
            assert(m2 == table_markers()[2]);
            let j = choose|j: int| 0 <= j < m2.len() && present.contains(#[trigger] m2[j]);
            assert(sup[2 + j] == m2[j]);
        }
    }
    if d.contains("pip"@) {
        lemma_table_applies(ms, present, 7, "pip"@);
        let sup = str_views(ms[7].suppressed_by@);
        assert(sup == table_suppressors()[7]);
        if d.contains("poetry"@) {
            lemma_table_applies(ms, present, 5, "poetry"@);
            let m5 = str_views(ms[5].markers@);
            assert(m5 == table_markers()[5]);
            let j = choose|j: int| 0 <= j < m5.len() && present.contains(#[trigger] m5[j]);
            assert(sup[0] == m5[j]);
        }
        if d.contains("pipenv"@) {
            lemma_table_applies(ms, present, 6, "pipenv"@);
            let m6 = str_views(ms[6].markers@);
            assert(m6 == table_markers()[6]);
            let j = choose|j: int| 0 <= j < m6.len() && present.contains(#[trigger] m6[j]);
            assert(sup[1] == m6[j]);
        }
    }
}

/// A project with one marker file detects the manager of that file.
proof fn lemma_single_marker(ms: Seq<PackageManager>, i: int, j: int, m: Seq<char>)
    requires
        ms.len() == 14,
        forall|k: int| 0 <= k < 14 ==> is_table_entry(#[trigger] ms[k], k),
        0 <= i < 14,
        0 <= j < table_markers()[i].len(),
        table_markers()[i][j] == m,
        !table_suppressors()[i].contains(m),
    ensures
        detected_names(ms, seq![m]).contains(table_names()[i]),
{
    let present = seq![m];
    assert(is_table_entry(ms[i], i));
    let markers = str_views(ms[i].markers@);
    assert(present.contains(markers[j])) by {
        assert(present[0] == markers[j]);
    }
    let sup = str_views(ms[i].suppressed_by@);
    assert forall|k: int| 0 <= k < sup.len() implies !present.contains(#[trigger] sup[k]) by {
        if present.contains(sup[k]) {
            let x = choose|x: int| 0 <= x < present.len() && present[x] == sup[k];
            assert(x == 0);
            assert(table_suppressors()[i][k] == m);
        }
    }
    assert(applies(ms[i], present));
    lemma_detected_names(ms, present, table_names()[i]);
}

/// Each manager is detected from each of its marker files: a project whose
/// only marker is that file detects its manager (`composer.json` gives
/// composer, `Cargo.toml` cargo, `package.json` npm, `requirements.txt`
/// pip, and so on for every marker of the table).
pub proof fn law_each_marker_detects_its_manager(ms: Seq<PackageManager>)
    requires
        ms.len() == 14,
        forall|k: int| 0 <= k < 14 ==> is_table_entry(#[trigger] ms[k], k),
    ensures
        detected_names(ms, seq!["pnpm-lock.yaml"@]).contains("pnpm"@),
        detected_names(ms, seq!["yarn.lock"@]).contains("yarn"@),
        detected_names(ms, seq!["bun.lockb"@]).contains("bun"@),
        detected_names(ms, seq!["bun.lock"@]).contains("bun"@),
        detected_names(ms, seq!["package.json"@]).contains("npm"@),
        detected_names(ms, seq!["Cargo.toml"@]).contains("cargo"@),
        detected_names(ms, seq!["poetry.lock"@]).contains("poetry"@),
        detected_names(ms, seq!["Pipfile"@]).contains("pipenv"@),
        detected_names(ms, seq!["requirements.txt"@]).contains("pip"@),
        detected_names(ms, seq!["go.mod"@]).contains("go"@),
        detected_names(ms, seq!["Gemfile"@]).contains("bundler"@),
        detected_names(ms, seq!["composer.json"@]).contains("composer"@),
        detected_names(ms, seq!["global.json"@]).contains("dotnet"@),
        detected_names(ms, seq!["paket.dependencies"@]).contains("dotnet"@),
        detected_names(ms, seq!["pom.xml"@]).contains("maven"@),
        detected_names(ms, seq!["Package.swift"@]).contains("swift"@),
{
    reveal_strlit("package.json");
    reveal_strlit("yarn.lock");
    reveal_strlit("pnpm-lock.yaml");
    reveal_strlit("bun.lockb");
    reveal_strlit("bun.lock");
    reveal_strlit("requirements.txt");
    reveal_strlit("poetry.lock");
    reveal_strlit("Pipfile");
    assert(!table_suppressors()[3].contains("package.json"@)) by {
        let sup = table_suppressors()[3];
        assert forall|k: int| 0 <= k < sup.len() implies sup[k].len() != "package.json"@.len() by {}
    }
    assert(!table_suppressors()[7].contains("requirements.txt"@)) by {
        let sup = table_suppressors()[7];
        assert forall|k: int| 0 <= k < sup.len() implies sup[k].len() != "requirements.txt"@.len() by {}
    }
    lemma_single_marker(ms, 0, 0, "pnpm-lock.yaml"@);
    lemma_single_marker(ms, 1, 0, "yarn.lock"@);
    lemma_single_marker(ms, 2, 0, "bun.lockb"@);
    lemma_single_marker(ms, 2, 1, "bun.lock"@);
    lemma_single_marker(ms, 3, 0, "package.json"@);
    lemma_single_marker(ms, 4, 0, "Cargo.toml"@);
    lemma_single_marker(ms, 5, 0, "poetry.lock"@);
    lemma_single_marker(ms, 6, 0, "Pipfile"@);
    lemma_single_marker(ms, 7, 0, "requirements.txt"@);
    lemma_single_marker(ms, 8, 0, "go.mod"@);
    lemma_single_marker(ms, 9, 0, "Gemfile"@);
    lemma_single_marker(ms, 10, 0, "composer.json"@);
    lemma_single_marker(ms, 11, 0, "global.json"@);
    lemma_single_marker(ms, 11, 1, "paket.dependencies"@);
    lemma_single_marker(ms, 12, 0, "pom.xml"@);
    lemma_single_marker(ms, 13, 0, "Package.swift"@);
}

} // verus!
