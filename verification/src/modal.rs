//! The state that the progress views share: a bounded log of output lines
//! and the run status.
use vstd::prelude::*;
use vstd::string::*;

verus! {

/// `lines` after one more line was appended to a log that keeps at most
/// `cap` lines: the oldest line goes when the log grows past `cap`.
pub open spec fn capped_push(lines: Seq<Seq<char>>, line: Seq<char>, cap: nat) -> Seq<Seq<char>> {
    let grown = lines.push(line);
    if grown.len() > cap {
        grown.drop_first()
    } else {
        grown
    }
}

/// The views of a vector of strings.
pub open spec fn string_views(v: Seq<String>) -> Seq<Seq<char>> {
    v.map_values(|s: String| s@)
}

/// Appends `line` to `lines`, dropping the oldest line when there are more
/// than `cap`.
pub fn push_capped(lines: &mut Vec<String>, line: String, cap: usize)
    ensures
        string_views(final(lines)@) == capped_push(string_views(old(lines)@), line@, cap as nat),
{
    let ghost before = string_views(lines@);
    lines.push(line);
    assert(string_views(lines@) == before.push(line@));
    if lines.len() > cap {
        lines.remove(0);
        assert(string_views(lines@) == before.push(line@).drop_first());
    }
}

/// A log bounded by `cap` stays bounded, and its newest line is the one just
/// pushed.
pub proof fn law_capped_log_stays_bounded(lines: Seq<Seq<char>>, line: Seq<char>, cap: nat)
    requires
        lines.len() <= cap,
        cap > 0,
    ensures
        capped_push(lines, line, cap).len() <= cap,
        capped_push(lines, line, cap).last() == line,
        lines.len() < cap ==> capped_push(lines, line, cap) == lines.push(line),
{
}

/// Where a run stands.
pub enum RunStatus {
    Running,
    Done,
    Error(String),
}

/// The status once the run has ended with `result`: a failure of the run
/// itself wins; otherwise an error reported during the run stays, and the run
/// is done.
pub open spec fn finished_status(status: RunStatus, result: Result<(), String>) -> RunStatus {
    match result {
        Err(e) => RunStatus::Error(e),
        Ok(()) => if status is Error {
            status
        } else {
            RunStatus::Done
        },
    }
}

/// The status once the run has ended with `result`.
pub fn finish_status(status: RunStatus, result: Result<(), String>) -> (r: RunStatus)
    ensures
        r == finished_status(status, result),
{
    match result {
        Err(e) => RunStatus::Error(e),
        Ok(()) => match status {
            RunStatus::Error(m) => RunStatus::Error(m),
            _ => RunStatus::Done,
        },
    }
}

/// An error reported while a run was going on is never replaced by `Done`,
/// and a run always ends settled: never still running.
pub proof fn law_reported_error_survives_success(status: RunStatus, result: Result<(), String>)
    ensures
        status is Error && result is Ok ==> finished_status(status, result) == status,
        !(finished_status(status, result) is Running),
        result is Err ==> finished_status(status, result) is Error,
{
}


/// A line of a process's output is logged unless it is empty.
pub fn is_loggable(line: &str) -> (b: bool)
    ensures
        b == (line@.len() > 0),
{
    !line.is_empty()
}

/// The line logged after a process failed: its standard error, trimmed,
/// unless that is blank.
pub fn failure_output_line(stderr: &str) -> (r: Option<String>)
    ensures
        crate::text::trim(stderr@).len() == 0 ==> r is None,
        crate::text::trim(stderr@).len() > 0 ==> (r matches Some(l) && l@ == crate::text::trim(
            stderr@,
        )),
{
    let t = crate::text::trim_str(stderr);
    if t.as_str().is_empty() {
        None
    } else {
        Some(t)
    }
}

// ---- the footer of a progress view ----------------------------------------

/// What an element of a progress view's footer is.
#[derive(PartialEq, Eq, Structural, Clone, Copy, Debug)]
pub enum FooterKind {
    /// A muted note while the run goes on.
    Busy,
    /// The error the run ended with.
    Failure,
    /// A note that the run went well.
    Success,
    /// An address to open, with an Open button.
    Link,
    /// The button that closes the view.
    Close,
}

/// An element of a progress view's footer and its text.
pub struct FooterItem {
    pub kind: FooterKind,
    pub text: String,
}

impl View for FooterItem {
    type V = (FooterKind, Seq<char>);

    open spec fn view(&self) -> (FooterKind, Seq<char>) {
        (self.kind, self.text@)
    }
}

/// The views of footer elements.
pub open spec fn footer_views(items: Seq<FooterItem>) -> Seq<(FooterKind, Seq<char>)> {
    items.map_values(|i: FooterItem| i@)
}

/// The footer of a view in `status`: the note `busy` while running; the
/// error and Close after a failure; once done, the note `done_note` and the
/// link `url` where there are any, then Close.
pub open spec fn footer_of(
    status: RunStatus,
    busy: Seq<char>,
    done_note: Option<Seq<char>>,
    url: Option<Seq<char>>,
) -> Seq<(FooterKind, Seq<char>)> {
    match status {
        RunStatus::Running => seq![(FooterKind::Busy, busy)],
        RunStatus::Error(m) => seq![(FooterKind::Failure, m@), (FooterKind::Close, "Close"@)],
        RunStatus::Done => (match done_note {
            Some(n) => seq![(FooterKind::Success, n)],
            None => Seq::empty(),
        }) + (match url {
            Some(u) => seq![(FooterKind::Link, u)],
            None => Seq::empty(),
        }) + seq![(FooterKind::Close, "Close"@)],
    }
}

/// The footer of a view in `status`.
pub fn footer(status: &RunStatus, busy: &str, done_note: Option<&str>, url: Option<&str>) -> (r: Vec<
    FooterItem,
>)
    ensures
        footer_views(r@) == footer_of(
            *status,
            busy@,
            match done_note {
                Some(n) => Some(n@),
                None => None,
            },
            match url {
                Some(u) => Some(u@),
                None => None,
            },
        ),
{
    let mut r: Vec<FooterItem> = Vec::new();
    match status {
        RunStatus::Running => {
            r.push(FooterItem { kind: FooterKind::Busy, text: String::from_str(busy) });
        },
        RunStatus::Error(m) => {
            r.push(FooterItem { kind: FooterKind::Failure, text: m.clone() });
            r.push(FooterItem { kind: FooterKind::Close, text: String::from_str("Close") });
        },
        RunStatus::Done => {
            if let Some(n) = done_note {
                r.push(FooterItem { kind: FooterKind::Success, text: String::from_str(n) });
            }
            if let Some(u) = url {
                r.push(FooterItem { kind: FooterKind::Link, text: String::from_str(u) });
            }
            r.push(FooterItem { kind: FooterKind::Close, text: String::from_str("Close") });
        },
    }
    let ghost want = footer_of(
        *status,
        busy@,
        match done_note {
            Some(n) => Some(n@),
            None => None,
        },
        match url {
            Some(u) => Some(u@),
            None => None,
        },
    );
    assert(footer_views(r@) =~= want);
    r
}

} // verus!
