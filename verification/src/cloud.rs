//! LingCode Cloud: the CLI tasks, and how the deploy view turns the CLI's
//! progress events and exit into lines and a status.
use vstd::prelude::*;
use vstd::string::*;
use crate::modal::{RunStatus, capped_push, push_capped, string_views};
use crate::install::str_views;
use crate::text::{decimal, push_decimal, trim, trim_str};

verus! {

/// The account's backend console (a web app).
pub fn backend_console_url() -> (r: &'static str)
    ensures
        r@ == "https://lingcode.dev/backends.html"@,
{
    "https://lingcode.dev/backends.html"
}

/// The project and collaborators panel (a web app).
pub fn project_share_url() -> (r: &'static str)
    ensures
        r@ == "https://lingcode.dev/project.html"@,
{
    "https://lingcode.dev/project.html"
}

/// A LingCode Cloud command of the editor.
#[derive(Clone, Copy, PartialEq, Eq, Structural, Debug)]
pub enum CloudCommand {
    DeployToCloud,
    ConnectBackend,
    DisconnectBackend,
    OpenBackendConsole,
    ShareCloudProject,
}

/// What a cloud command leads to: a CLI task in the current project, or a
/// web page opened in the browser (whose session handles the sign-in).
pub enum CloudRoute {
    Task(CloudTask),
    OpenUrl(&'static str),
}

/// Where each cloud command goes.
pub fn cloud_route(command: CloudCommand) -> (r: CloudRoute)
    ensures
        command == CloudCommand::DeployToCloud ==> r == CloudRoute::Task(CloudTask::Deploy),
        command == CloudCommand::ConnectBackend ==> r == CloudRoute::Task(CloudTask::Connect),
        command == CloudCommand::DisconnectBackend ==> r == CloudRoute::Task(CloudTask::Disconnect),
        command == CloudCommand::OpenBackendConsole ==> (r matches CloudRoute::OpenUrl(u) && u@
            == "https://lingcode.dev/backends.html"@),
        command == CloudCommand::ShareCloudProject ==> (r matches CloudRoute::OpenUrl(u) && u@
            == "https://lingcode.dev/project.html"@),
{
    match command {
        CloudCommand::DeployToCloud => CloudRoute::Task(CloudTask::Deploy),
        CloudCommand::ConnectBackend => CloudRoute::Task(CloudTask::Connect),
        CloudCommand::DisconnectBackend => CloudRoute::Task(CloudTask::Disconnect),
        CloudCommand::OpenBackendConsole => CloudRoute::OpenUrl(backend_console_url()),
        CloudCommand::ShareCloudProject => CloudRoute::OpenUrl(project_share_url()),
    }
}

/// A task run through the `lingcode` CLI.
#[derive(Clone, Copy, PartialEq, Eq, Structural, Debug)]
pub enum CloudTask {
    Deploy,
    Connect,
    Disconnect,
}

impl CloudTask {
    pub open spec fn spec_title(self) -> Seq<char> {
        match self {
            CloudTask::Deploy => "Deploy to LingCode Cloud"@,
            CloudTask::Connect => "Connect LingCode Cloud Backend"@,
            CloudTask::Disconnect => "Disconnect LingCode Cloud Backend"@,
        }
    }

    /// The title of the task's view.
    pub fn title(self) -> (r: &'static str)
        ensures
            r@ == self.spec_title(),
    {
        match self {
            CloudTask::Deploy => "Deploy to LingCode Cloud",
            CloudTask::Connect => "Connect LingCode Cloud Backend",
            CloudTask::Disconnect => "Disconnect LingCode Cloud Backend",
        }
    }

    pub open spec fn spec_args(self) -> Seq<Seq<char>> {
        match self {
            CloudTask::Deploy => seq!["cloud"@, "deploy"@, "."@, "--ndjson"@],
            CloudTask::Connect => seq!["cloud"@, "connect"@, "."@],
            CloudTask::Disconnect => seq!["cloud"@, "disconnect"@, "."@],
        }
    }

    /// The arguments passed to the CLI. Deploy asks for NDJSON progress.
    pub fn args(self) -> (r: Vec<&'static str>)
        ensures
            str_views(r@) == self.spec_args(),
    {
        let r = match self {
            CloudTask::Deploy => vec!["cloud", "deploy", ".", "--ndjson"],
            CloudTask::Connect => vec!["cloud", "connect", "."],
            CloudTask::Disconnect => vec!["cloud", "disconnect", "."],
        };
        assert(str_views(r@) =~= self.spec_args());
        r
    }

    /// Whether the task reports structured progress.
    pub fn is_ndjson(self) -> (b: bool)
        ensures
            b == (self == CloudTask::Deploy),
    {
        match self {
            CloudTask::Deploy => true,
            _ => false,
        }
    }
}

/// A progress event of `lingcode cloud deploy --ndjson`.
pub enum DeployEvent {
    Detect { pm: String, out_dir: String },
    Build { line: String },
    Package { bytes: u64 },
    Upload { status: String, mode: String },
    Poll { job_id: String },
    Done { url: String },
    Error { message: String },
}

/// The line the view shows for an event.
pub open spec fn event_line(e: DeployEvent) -> Seq<char> {
    match e {
        DeployEvent::Detect { pm, out_dir } => "Detected "@ + pm@ + " → "@ + out_dir@,
        DeployEvent::Build { line } => "  "@ + line@,
        DeployEvent::Package { bytes } => "Packaged "@ + decimal((bytes / 1024) as nat) + " KB"@,
        DeployEvent::Upload { status, mode } => "Upload "@ + status@ + " ("@ + mode@ + ")"@,
        DeployEvent::Poll { job_id } => "Building on cloud… ("@ + job_id@ + ")"@,
        DeployEvent::Done { url } => "Live at "@ + url@,
        DeployEvent::Error { message } => "Error: "@ + message@,
    }
}

/// The deploy's address after `event`: a `Done` event gives it; other
/// events keep `url`.
pub open spec fn url_after(url: Option<String>, event: DeployEvent) -> Option<String> {
    match event {
        DeployEvent::Done { url: u } => Some(u),
        _ => url,
    }
}

/// The status after `event`: `Done` ends the run, `Error` fails it with its
/// message; other events keep `status`.
pub open spec fn status_after(status: RunStatus, event: DeployEvent) -> RunStatus {
    match event {
        DeployEvent::Done { .. } => RunStatus::Done,
        DeployEvent::Error { message } => RunStatus::Error(message),
        _ => status,
    }
}

/// How many output lines the cloud view keeps.
pub const CLOUD_LOG_LINES: usize = 200;

/// The cloud task view: its title, the latest lines, the status, and the
/// address of a finished deploy.
pub struct CloudModal {
    pub title: String,
    pub lines: Vec<String>,
    pub status: RunStatus,
    pub url: Option<String>,
}

impl CloudModal {
    /// The view of `task` as it starts.
    pub fn new(task: CloudTask) -> (m: Self)
        ensures
            m.title@ == task.spec_title(),
            m.lines@.len() == 0,
            m.status is Running,
            m.url is None,
    {
        CloudModal {
            title: String::from_str(task.title()),
            lines: Vec::new(),
            status: RunStatus::Running,
            url: None,
        }
    }

    /// Logs a line, keeping the latest `CLOUD_LOG_LINES`.
    pub fn push_line(&mut self, line: String)
        ensures
            string_views(final(self).lines@) == capped_push(
                string_views(old(self).lines@),
                line@,
                CLOUD_LOG_LINES as nat,
            ),
            final(self).status == old(self).status,
            final(self).url == old(self).url,
            final(self).title == old(self).title,
    {
        push_capped(&mut self.lines, line, CLOUD_LOG_LINES);
    }

    /// Applies a progress event: logs its line; `Done` also records the
    /// address and ends the run, `Error` records the failure.
    pub fn apply_event(&mut self, event: DeployEvent)
        ensures
            string_views(final(self).lines@) == capped_push(
                string_views(old(self).lines@),
                event_line(event),
                CLOUD_LOG_LINES as nat,
            ),
            final(self).title == old(self).title,
            final(self).url == url_after(old(self).url, event),
            final(self).status == status_after(old(self).status, event),
    {
        match event {
            DeployEvent::Detect { pm, out_dir } => {
                let mut l = String::from_str("Detected ");
                l.append(pm.as_str());
                l.append(" → ");
                l.append(out_dir.as_str());
                self.push_line(l);
            },
            DeployEvent::Build { line } => {
                let mut l = String::from_str("  ");
                l.append(line.as_str());
                self.push_line(l);
            },
            DeployEvent::Package { bytes } => {
                let mut l = String::from_str("Packaged ");
                push_decimal(&mut l, bytes / 1024);
                l.append(" KB");
                self.push_line(l);
            },
            DeployEvent::Upload { status, mode } => {
                let mut l = String::from_str("Upload ");
                l.append(status.as_str());
                l.append(" (");
                l.append(mode.as_str());
                l.append(")");
                self.push_line(l);
            },
            DeployEvent::Poll { job_id } => {
                let mut l = String::from_str("Building on cloud… (");
                l.append(job_id.as_str());
                l.append(")");
                self.push_line(l);
            },
            DeployEvent::Done { url } => {
                let mut l = String::from_str("Live at ");
                l.append(url.as_str());
                self.url = Some(url);
                self.status = RunStatus::Done;
                self.push_line(l);
            },
            DeployEvent::Error { message } => {
                let mut l = String::from_str("Error: ");
                l.append(message.as_str());
                self.status = RunStatus::Error(message);
                self.push_line(l);
            },
        }
    }

    /// Handles one non-empty output line of the CLI for `task`: a deploy's
    /// line is the event parsed from it (`parsed`), or the raw line where it
    /// is no event; other tasks log the raw line.
    pub fn on_output_line(&mut self, task: CloudTask, line: String, parsed: Option<DeployEvent>)
        ensures
            final(self).title == old(self).title,
            (task != CloudTask::Deploy || parsed is None) ==> {
                &&& string_views(final(self).lines@) == capped_push(
                    string_views(old(self).lines@),
                    line@,
                    CLOUD_LOG_LINES as nat,
                )
                &&& final(self).status == old(self).status
                &&& final(self).url == old(self).url
            },
            (task == CloudTask::Deploy && parsed is Some) ==> {
                &&& string_views(final(self).lines@) == capped_push(
                    string_views(old(self).lines@),
                    event_line(parsed->0),
                    CLOUD_LOG_LINES as nat,
                )
                &&& final(self).url == url_after(old(self).url, parsed->0)
                &&& final(self).status == status_after(old(self).status, parsed->0)
            },
    {
        if task.is_ndjson() {
            match parsed {
                Some(event) => self.apply_event(event),
                None => self.push_line(line),
            }
        } else {
            self.push_line(line);
        }
    }

    /// Records a failed exit of the CLI: the trimmed standard error, or a
    /// note with the exit status (`status`, as shown) when it is empty.
    pub fn on_failed_exit(&mut self, status: &str, stderr: &str)
        ensures
            final(self).lines == old(self).lines,
            final(self).url == old(self).url,
            final(self).title == old(self).title,
            final(self).status matches RunStatus::Error(m) && m@ == exit_failure_message(
                status@,
                stderr@,
            ),
    {
        self.status = RunStatus::Error(exit_failure_text(status, stderr));
    }

    /// The footer: "Working…" while running; the error after a failure;
    /// once done, the deploy's address when there is one; and Close.
    pub fn footer(&self) -> (r: Vec<crate::modal::FooterItem>)
        ensures
            crate::modal::footer_views(r@) == crate::modal::footer_of(
                self.status,
                "Working…"@,
                None,
                match self.url {
                    Some(u) => Some(u@),
                    None => None,
                },
            ),
    {
        let url = match &self.url {
            Some(u) => Some(u.as_str()),
            None => None,
        };
        crate::modal::footer(&self.status, "Working…", None, url)
    }

    /// Settles the status once the run has ended with `result`.
    pub fn finish(&mut self, result: Result<(), String>)
        ensures
            final(self).lines == old(self).lines,
            final(self).url == old(self).url,
            final(self).title == old(self).title,
            final(self).status == crate::modal::finished_status(old(self).status, result),
    {
        let mut status = RunStatus::Running;
        std::mem::swap(&mut status, &mut self.status);
        self.status = crate::modal::finish_status(status, result);
    }
}

/// The message for a failed exit of the CLI.
pub open spec fn exit_failure_message(status: Seq<char>, stderr: Seq<char>) -> Seq<char> {
    if trim(stderr).len() == 0 {
        "`lingcode` exited with status "@ + status
    } else {
        trim(stderr)
    }
}

/// The message for a failed exit of the CLI with exit status `status` (as
/// shown) and standard error `stderr`.
pub fn exit_failure_text(status: &str, stderr: &str) -> (r: String)
    ensures
        r@ == exit_failure_message(status@, stderr@),
{
    let message = trim_str(stderr);
    if message.as_str().is_empty() {
        let mut m = String::from_str("`lingcode` exited with status ");
        m.append(status);
        m
    } else {
        message
    }
}

/// Only a `Done` event ends the deploy and only an `Error` event fails it,
/// with its message; every other event (detect, build, package, upload,
/// poll) leaves the status and the address as they were. So a deploy that
/// is still running keeps running through its progress events.
pub proof fn law_only_done_or_error_settle_the_deploy(
    status: RunStatus,
    url: Option<String>,
    event: DeployEvent,
)
    ensures
        !(event is Done) && !(event is Error) ==> status_after(status, event) == status && url_after(url, event) == url,
        event matches DeployEvent::Done { url: u } ==> status_after(status, event) == RunStatus::Done
            && url_after(url, event) == Some(u),
        event matches DeployEvent::Error { message } ==> status_after(status, event)
            == RunStatus::Error(message) && url_after(url, event) == url,
        status is Running && !(event is Done) && !(event is Error) ==> status_after(status, event) is Running,
{
}

} // verus!
