//! The remote-coding host: finding the address in the server's output, and
//! the lifecycle of the server process as the editor tracks it.
use vstd::prelude::*;
use vstd::string::*;
use crate::modal::{capped_push, push_capped, string_views};
use crate::text::{
    chars_of, find, find_chars, is_space, lemma_word_end, slice_range, string_of, trim,
    trim_str, word_end, is_whitespace,
};

verus! {

/// Where the web client that drives a remote host lives.
pub fn remote_control_url() -> (r: &'static str)
    ensures
        r@ == "https://lingcode.dev/remote-control.html"@,
{
    "https://lingcode.dev/remote-control.html"
}

/// Where the first address of `line` starts: the earliest `http://` or
/// `https://`.
pub open spec fn url_start(line: Seq<char>) -> Option<int> {
    match (find(line, "http://"@), find(line, "https://"@)) {
        (Some(a), Some(b)) => Some(if a <= b {
            a
        } else {
            b
        }),
        (Some(a), None) => Some(a),
        (None, Some(b)) => Some(b),
        (None, None) => None,
    }
}

/// The first `http(s)://…` token of a server log line: from where the address
/// starts up to the next white space.
pub open spec fn url_in_line(line: Seq<char>) -> Option<Seq<char>> {
    match url_start(line) {
        None => None,
        Some(start) => {
            let rest = line.skip(start);
            Some(rest.take(word_end(rest, 0)))
        },
    }
}

/// Pulls the first `http(s)://…` token out of a server log line.
pub fn extract_url(line: &str) -> (r: Option<String>)
    ensures
        match r {
            Some(u) => url_in_line(line@) == Some(u@),
            None => url_in_line(line@) is None,
        },
{
    let cs = chars_of(line);
    let http = chars_of("http://");
    let https = chars_of("https://");
    let start = match (find_chars(cs.as_slice(), http.as_slice()), find_chars(cs.as_slice(), https.as_slice())) {
        (Some(a), Some(b)) => if a <= b {
            a
        } else {
            b
        },
        (Some(a), None) => a,
        (None, Some(b)) => b,
        (None, None) => {
            return None;
        },
    };
    proof {
        crate::text::lemma_find_from(cs@, http@, 0);
        crate::text::lemma_find_from(cs@, https@, 0);
    }
    let mut end: usize = start;
    while end < cs.len() && !is_whitespace(cs[end])
        invariant
            start <= end <= cs.len(),
            word_end(cs@.skip(start as int), 0) == word_end(
                cs@.skip(start as int),
                end - start,
            ),
        decreases cs.len() - end,
    {
        assert(cs@.skip(start as int)[end - start] == cs@[end as int]);
        end = end + 1;
    }
    proof {
        let rest = cs@.skip(start as int);
        if end < cs.len() {
            assert(rest[end - start] == cs@[end as int]);
        }
        assert(rest.take(end - start) == cs@.subrange(start as int, end as int));
    }
    let token = slice_range(cs.as_slice(), start, end);
    Some(string_of(token.as_slice()))
}

/// How many output lines the status view keeps.
pub const REMOTE_LOG_LINES: usize = 100;

/// A server process that is running, as far as the editor knows.
pub struct RunningServer {
    /// The address parsed from the server's `listening on …` line.
    pub url: Option<String>,
    /// The latest output lines, oldest first.
    pub lines: Vec<String>,
}

/// The remote-coding server as the editor tracks it. The process itself is
/// held by the caller next to this value.
pub struct RemoteServer {
    pub running: Option<RunningServer>,
    /// Surfaced on a failed launch or after the server exits.
    pub last_error: Option<String>,
}

/// What `start` asks the caller to do.
pub enum StartDecision {
    /// A server is already running: only refresh the view.
    AlreadyRunning,
    /// Launch `program` (found on the `PATH`, else by its bare name) with
    /// `args`, its input closed and its output read line by line, and report
    /// how that went.
    Launch { program: &'static str, args: Vec<&'static str> },
}

impl RemoteServer {
    /// The state kept at all times: the log never holds more than
    /// `REMOTE_LOG_LINES` lines.
    pub open spec fn well_formed(&self) -> bool {
        self.running matches Some(r) ==> r.lines@.len() <= REMOTE_LOG_LINES
    }

    /// A server that was never started.
    pub fn new() -> (s: Self)
        ensures
            s.running is None,
            s.last_error is None,
            s.well_formed(),
    {
        RemoteServer { running: None, last_error: None }
    }

    pub fn is_running(&self) -> (b: bool)
        ensures
            b == self.running is Some,
    {
        self.running.is_some()
    }

    /// The first step of starting the server: nothing changes if one runs
    /// already; otherwise the last error is cleared and the caller launches
    /// `lingcode remote`, which registers this machine as a relay host and
    /// serves it.
    pub fn start(&mut self) -> (d: StartDecision)
        ensures
            old(self).running is Some ==> d is AlreadyRunning && *final(self) == *old(self),
            old(self).running is None ==> (d matches StartDecision::Launch { program, args } && {
                &&& program@ == "lingcode"@
                &&& crate::install::str_views(args@) == seq!["remote"@]
            }) && final(self).running is None && final(self).last_error is None,
    {
        if self.running.is_some() {
            return StartDecision::AlreadyRunning;
        }
        self.last_error = None;
        let args = vec!["remote"];
        assert(crate::install::str_views(args@) =~= seq!["remote"@]);
        StartDecision::Launch { program: "lingcode", args }
    }

    /// The launch of `lingcode remote` failed with `error`.
    pub fn launch_failed(&mut self, error: &str)
        ensures
            final(self).running == old(self).running,
            final(self).last_error matches Some(e) && e@
                == "Failed to launch `lingcode remote`: "@ + error@,
    {
        let mut message = String::from_str("Failed to launch `lingcode remote`: ");
        message.append(error);
        self.last_error = Some(message);
    }

    /// The process started but its output could not be captured.
    pub fn output_not_captured(&mut self)
        ensures
            final(self).running == old(self).running,
            final(self).last_error matches Some(e) && e@ == "Failed to capture server output"@,
    {
        self.last_error = Some(String::from_str("Failed to capture server output"));
    }

    /// The process started: the server now runs, with no address known yet.
    pub fn launched(&mut self)
        ensures
            final(self).running matches Some(r) && r.url is None && r.lines@.len() == 0,
            final(self).last_error == old(self).last_error,
            final(self).well_formed(),
    {
        self.running = Some(RunningServer { url: None, lines: Vec::new() });
    }

    /// A line of server output arrived. Blank lines are skipped; otherwise the
    /// line is logged, and the first address seen becomes the server's.
    pub fn on_output_line(&mut self, line: &str)
        ensures
            old(self).well_formed() ==> final(self).well_formed(),
            final(self).last_error == old(self).last_error,
            (trim(line@).len() == 0 || old(self).running is None) ==> *final(self) == *old(self),
            trim(line@).len() > 0 && old(self).running is Some ==> {
                let before = old(self).running->0;
                let after = final(self).running->0;
                &&& final(self).running is Some
                &&& string_views(after.lines@) == capped_push(
                    string_views(before.lines@),
                    line@,
                    REMOTE_LOG_LINES as nat,
                )
                &&& after.url == (if before.url is Some {
                    before.url
                } else {
                    after.url
                })
                &&& before.url is None ==> match after.url {
                    Some(u) => url_in_line(line@) == Some(u@),
                    None => url_in_line(line@) is None,
                }
            },
    {
        let trimmed = trim_str(line);
        if trimmed.as_str().is_empty() {
            return;
        }
        match self.running.take() {
            None => {},
            Some(mut running) => {
                if running.url.is_none() {
                    running.url = extract_url(line);
                }
                let ghost before = running.lines@;
                push_capped(&mut running.lines, String::from_str(line), REMOTE_LOG_LINES);
                assert(string_views(before).len() == before.len());
                assert(string_views(running.lines@).len() == running.lines@.len());
                self.running = Some(running);
            },
        }
    }

    /// The server's output closed: the process has exited. If it was thought
    /// to run, it is no longer, and the reason is surfaced.
    pub fn on_exit(&mut self)
        ensures
            final(self).running is None,
            old(self).running is Some ==> (final(self).last_error matches Some(e) && e@
                == server_stopped_message()),
            old(self).running is None ==> final(self).last_error == old(self).last_error,
    {
        if self.running.take().is_some() {
            self.last_error = Some(String::from_str(
                "Remote server stopped (is `lingcode` signed in to LingCode Cloud? run `lingcode remote` in a terminal to see why).",
            ));
        }
    }

    /// Stops the server. Returns whether there is a process to kill.
    pub fn stop(&mut self) -> (kill: bool)
        ensures
            kill == old(self).running is Some,
            final(self).running is None,
            kill ==> final(self).last_error is None,
            !kill ==> final(self).last_error == old(self).last_error,
    {
        if self.running.take().is_some() {
            self.last_error = None;
            true
        } else {
            false
        }
    }
}

/// What the status line of the server panel shows.
pub enum RemoteStatus {
    /// "Serving at" and the server's address.
    Serving(String),
    /// "Starting server…": it runs but has not printed its address yet.
    Starting,
    /// It does not run, and this is why.
    Failed(String),
    /// "The remote server is not running."
    Stopped,
}

/// A button of the server panel.
#[derive(PartialEq, Eq, Structural, Clone, Copy, Debug)]
pub enum RemoteControl {
    StopServer,
    OpenWebClient,
    StartServer,
    Close,
}

impl RemoteControl {
    /// The button's caption.
    pub fn label(self) -> (r: &'static str)
        ensures
            r@ == match self {
                RemoteControl::StopServer => "Stop Server"@,
                RemoteControl::OpenWebClient => "Open Web Client"@,
                RemoteControl::StartServer => "Start Server"@,
                RemoteControl::Close => "Close"@,
            },
    {
        match self {
            RemoteControl::StopServer => "Stop Server",
            RemoteControl::OpenWebClient => "Open Web Client",
            RemoteControl::StartServer => "Start Server",
            RemoteControl::Close => "Close",
        }
    }
}

impl RemoteServer {
    /// The status line: the address or "starting" while the server runs;
    /// else the last error, if any; else that it is not running.
    pub fn status(&self) -> (r: RemoteStatus)
        ensures
            match self.running {
                Some(run) => match run.url {
                    Some(u) => r matches RemoteStatus::Serving(x) && x@ == u@,
                    None => r is Starting,
                },
                None => match self.last_error {
                    Some(e) => r matches RemoteStatus::Failed(x) && x@ == e@,
                    None => r is Stopped,
                },
            },
    {
        match &self.running {
            Some(run) => match &run.url {
                Some(u) => RemoteStatus::Serving(u.clone()),
                None => RemoteStatus::Starting,
            },
            None => match &self.last_error {
                Some(e) => RemoteStatus::Failed(e.clone()),
                None => RemoteStatus::Stopped,
            },
        }
    }

    /// The buttons: Stop and Open Web Client while the server runs, else
    /// Start; then Close.
    pub fn controls(&self) -> (r: Vec<RemoteControl>)
        ensures
            self.running is Some ==> r@ == seq![
                RemoteControl::StopServer,
                RemoteControl::OpenWebClient,
                RemoteControl::Close,
            ],
            self.running is None ==> r@ == seq![RemoteControl::StartServer, RemoteControl::Close],
    {
        if self.is_running() {
            vec![RemoteControl::StopServer, RemoteControl::OpenWebClient, RemoteControl::Close]
        } else {
            vec![RemoteControl::StartServer, RemoteControl::Close]
        }
    }

    /// The output lines shown: those of the running server, else none.
    pub fn log_lines(&self) -> (r: Vec<String>)
        ensures
            self.running matches Some(run) ==> string_views(r@) == string_views(run.lines@),
            self.running is None ==> r@.len() == 0,
    {
        match &self.running {
            Some(run) => {
                let mut r: Vec<String> = Vec::new();
                let mut i: usize = 0;
                while i < run.lines.len()
                    invariant
                        i <= run.lines@.len(),
                        string_views(r@) == string_views(run.lines@.take(i as int)),
                    decreases run.lines@.len() - i,
                {
                    r.push(run.lines[i].clone());
                    assert(string_views(run.lines@.take(i + 1)) =~= string_views(
                        run.lines@.take(i as int),
                    ).push(run.lines@[i as int]@));
                    i = i + 1;
                }
                assert(run.lines@.take(i as int) =~= run.lines@);
                r
            },
            None => Vec::new(),
        }
    }
}

/// The reason shown once the server has stopped on its own.
pub open spec fn server_stopped_message() -> Seq<char> {
    "Remote server stopped (is `lingcode` signed in to LingCode Cloud? run `lingcode remote` in a terminal to see why)."@
}


/// An address taken from a log line starts with `http://` or `https://`
/// and holds no white space.
pub proof fn law_url_is_one_token(line: Seq<char>)
    ensures
        url_in_line(line) matches Some(u) ==> {
            &&& (u.take(7) == "http://"@ || u.take(8) == "https://"@)
            &&& forall|i: int| 0 <= i < u.len() ==> !is_space(#[trigger] u[i])
        },
{
    reveal_strlit("http://");
    reveal_strlit("https://");
    if let Some(start) = url_start(line) {
        crate::text::lemma_find_from(line, "http://"@, 0);
        crate::text::lemma_find_from(line, "https://"@, 0);
        let rest = line.skip(start);
        lemma_word_end(rest, 0);
        let u = rest.take(word_end(rest, 0));
        assert(0 <= start <= line.len());
        if find(line, "http://"@) == Some(start) {
            assert(line.subrange(start, start + 7) == "http://"@);
            assert forall|k: int| 0 <= k < 7 implies rest[k] == line[start + k] by {}
            assert(u.take(7) == "http://"@);
        } else {
            assert(line.subrange(start, start + 8) == "https://"@);
            assert(u.take(8) == "https://"@);
        }
        lemma_word_run(rest, 0);
    }
}

proof fn lemma_word_run(s: Seq<char>, i: int)
    requires
        0 <= i <= s.len(),
    ensures
        forall|k: int| i <= k < word_end(s, i) ==> !is_space(#[trigger] s[k]),
    decreases s.len() - i,
{
    if i < s.len() && !is_space(s[i]) {
        lemma_word_run(s, i + 1);
    }
}

} // verus!
