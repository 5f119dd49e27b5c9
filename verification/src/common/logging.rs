//! The run report: an append-only record of log lines and of per-phase
//! counts, read once at the end of a run.

use crate::text::{chars_of, decimal, decimal_of_usize, join, join_texts, string_of, texts};
use vstd::prelude::*;
use vstd::string::StringExecFns;

verus! {

/// How a log line is to be read.
#[derive(Clone, Copy, Debug, PartialEq, Eq, Structural)]
pub enum LogLevel {
    Info,
    Success,
    Warn,
}

/// One entry of the report.
#[derive(Debug, Clone, PartialEq, Eq)]
pub struct LogLine {
    pub level: LogLevel,
    pub msg: String,
    pub highlight: Option<String>,
}

/// What a log line says.
pub struct LogLineView {
    pub level: LogLevel,
    pub msg: Seq<char>,
    pub highlight: Option<Seq<char>>,
}

impl View for LogLine {
    type V = LogLineView;

    open spec fn view(&self) -> LogLineView {
        LogLineView {
            level: self.level,
            msg: self.msg@,
            highlight: match self.highlight {
                Some(h) => Some(h@),
                None => None,
            },
        }
    }
}

/// How many entities one phase affected.
#[derive(Debug, Clone, PartialEq, Eq)]
pub struct GroupSummary {
    pub title: String,
    pub affected_count: usize,
}

/// What a group summary says.
pub struct GroupView {
    pub title: Seq<char>,
    pub affected_count: usize,
}

impl View for GroupSummary {
    type V = GroupView;

    open spec fn view(&self) -> GroupView {
        GroupView { title: self.title@, affected_count: self.affected_count }
    }
}

/// What the lines of a report say, in order.
pub open spec fn line_views(v: Seq<LogLine>) -> Seq<LogLineView> {
    Seq::new(v.len(), |i: int| v[i]@)
}

/// What the groups of a report say, in order.
pub open spec fn group_views(v: Seq<GroupSummary>) -> Seq<GroupView> {
    Seq::new(v.len(), |i: int| v[i]@)
}

/// An informational line.
pub open spec fn info_line(msg: Seq<char>) -> LogLineView {
    LogLineView { level: LogLevel::Info, msg, highlight: None }
}

/// A warning line.
pub open spec fn warn_line(msg: Seq<char>) -> LogLineView {
    LogLineView { level: LogLevel::Warn, msg, highlight: None }
}

/// A success line with a highlighted part.
pub open spec fn ok_line(msg: Seq<char>, highlight: Seq<char>) -> LogLineView {
    LogLineView { level: LogLevel::Success, msg, highlight: Some(highlight) }
}

/// A group summary.
pub open spec fn group_of(title: Seq<char>, affected_count: usize) -> GroupView {
    GroupView { title, affected_count }
}

/// The report as it stands: what `snapshot` hands out.
pub struct LogSnapshot {
    pub lines: Vec<LogLine>,
    pub groups: Vec<GroupSummary>,
}

/// The reporter that every phase writes to. It only ever grows.
pub trait Log {
    /// The lines reported so far.
    spec fn lines(&self) -> Seq<LogLineView>;

    /// The groups reported so far.
    spec fn groups(&self) -> Seq<GroupView>;

    /// Adds an informational line.
    fn info(&mut self, msg: &str)
        ensures
            final(self).lines() == old(self).lines().push(info_line(msg@)),
            final(self).groups() == old(self).groups(),
    ;

    /// Adds a warning line.
    fn warn(&mut self, msg: &str)
        ensures
            final(self).lines() == old(self).lines().push(warn_line(msg@)),
            final(self).groups() == old(self).groups(),
    ;

    /// Adds a success line whose `highlight` is shown with emphasis.
    fn ok_with_highlight(&mut self, msg: &str, highlight: &str)
        ensures
            final(self).lines() == old(self).lines().push(ok_line(msg@, highlight@)),
            final(self).groups() == old(self).groups(),
    ;

    /// Adds the count of the entities that the phase `title` affected.
    fn add_group(&mut self, title: &str, affected_count: usize)
        ensures
            final(self).lines() == old(self).lines(),
            final(self).groups() == old(self).groups().push(group_of(title@, affected_count)),
    ;

    /// A copy of the report as it stands.
    fn snapshot(&self) -> (s: LogSnapshot)
        ensures
            line_views(s.lines@) == self.lines(),
            group_views(s.groups@) == self.groups(),
    ;
}

/// A reporter that keeps the report in memory.
pub struct MemoryLogger {
    pub lines: Vec<LogLine>,
    pub groups: Vec<GroupSummary>,
}

impl Default for MemoryLogger {
    fn default() -> (r: MemoryLogger)
        ensures
            r.lines@.len() == 0,
            r.groups@.len() == 0,
    {
        MemoryLogger { lines: Vec::new(), groups: Vec::new() }
    }
}

/// A copy of a log line.
pub fn copy_line(line: &LogLine) -> (r: LogLine)
    ensures
        r@ == line@,
{
    let highlight = match &line.highlight {
        Some(h) => Some(h.clone()),
        None => None,
    };
    LogLine { level: line.level, msg: line.msg.clone(), highlight }
}

/// A copy of a group summary.
pub fn copy_group(group: &GroupSummary) -> (r: GroupSummary)
    ensures
        r@ == group@,
{
    GroupSummary { title: group.title.clone(), affected_count: group.affected_count }
}

impl Log for MemoryLogger {
    open spec fn lines(&self) -> Seq<LogLineView> {
        line_views(self.lines@)
    }

    open spec fn groups(&self) -> Seq<GroupView> {
        group_views(self.groups@)
    }

    fn info(&mut self, msg: &str) {
        self.lines.push(LogLine { level: LogLevel::Info, msg: msg.to_owned(), highlight: None });
        assert(line_views(self.lines@) =~= line_views(old(self).lines@).push(info_line(msg@)));
    }

    fn warn(&mut self, msg: &str) {
        self.lines.push(LogLine { level: LogLevel::Warn, msg: msg.to_owned(), highlight: None });
        assert(line_views(self.lines@) =~= line_views(old(self).lines@).push(warn_line(msg@)));
    }

    fn ok_with_highlight(&mut self, msg: &str, highlight: &str) {
        self.lines.push(
            LogLine {
                level: LogLevel::Success,
                msg: msg.to_owned(),
                highlight: Some(highlight.to_owned()),
            },
        );
        assert(line_views(self.lines@) =~= line_views(old(self).lines@).push(
            ok_line(msg@, highlight@),
        ));
    }

    fn add_group(&mut self, title: &str, affected_count: usize) {
        self.groups.push(GroupSummary { title: title.to_owned(), affected_count });
        assert(group_views(self.groups@) =~= group_views(old(self).groups@).push(
            group_of(title@, affected_count),
        ));
    }

    fn snapshot(&self) -> (s: LogSnapshot) {
        let mut lines: Vec<LogLine> = Vec::new();
        let mut i: usize = 0;
        while i < self.lines.len()
            invariant
                i <= self.lines.len(),
                lines.len() == i,
                forall|j: int| 0 <= j < i ==> lines@[j]@ == self.lines@[j]@,
            decreases self.lines.len() - i,
        {
            lines.push(copy_line(&self.lines[i]));
            i += 1;
        }
        let mut groups: Vec<GroupSummary> = Vec::new();
        let mut k: usize = 0;
        while k < self.groups.len()
            invariant
                k <= self.groups.len(),
                groups.len() == k,
                forall|j: int| 0 <= j < k ==> groups@[j]@ == self.groups@[j]@,
            decreases self.groups.len() - k,
        {
            groups.push(copy_group(&self.groups[k]));
            k += 1;
        }
        assert(line_views(lines@) =~= line_views(self.lines@));
        assert(group_views(groups@) =~= group_views(self.groups@));
        LogSnapshot { lines, groups }
    }
}

/// How one group is shown in the summary: its title and its count.
pub open spec fn group_text(group: GroupView) -> Seq<char> {
    group.title + ": "@ + decimal(group.affected_count as int)
}

/// How the groups are shown in the summary, in order.
pub open spec fn group_texts(groups: Seq<GroupView>) -> Seq<Seq<char>> {
    Seq::new(groups.len(), |i: int| group_text(groups[i]))
}

/// The one-line summary of a report: its groups with their counts, or the
/// remark that nothing changed when it has no group.
pub open spec fn summary_text(groups: Seq<GroupView>) -> Seq<char> {
    if groups.len() == 0 {
        "Summary: no changes"@
    } else {
        "Summary — "@ + join(group_texts(groups), " · "@)
    }
}

/// The footer of the rendered report: the run's failure if it failed, the
/// summary otherwise.
pub open spec fn footer_of(groups: Seq<GroupView>, failure: Option<Seq<char>>) -> Seq<char> {
    match failure {
        Some(e) => "Error: "@ + e,
        None => summary_text(groups),
    }
}

/// The one-line summary of a report.
pub fn summary_line(snapshot: &LogSnapshot) -> (line: String)
    ensures
        line@ == summary_text(group_views(snapshot.groups@)),
{
    if snapshot.groups.len() == 0 {
        return "Summary: no changes".to_owned();
    }
    let mut parts: Vec<Vec<char>> = Vec::new();
    let mut i: usize = 0;
    while i < snapshot.groups.len()
        invariant
            i <= snapshot.groups.len(),
            parts.len() == i,
            forall|j: int| 0 <= j < i ==> parts@[j]@ == group_text(snapshot.groups@[j]@),
        decreases snapshot.groups.len() - i,
    {
        let group = &snapshot.groups[i];
        let part = group.title.clone().concat(": ").concat(
            decimal_of_usize(group.affected_count).as_str(),
        );
        parts.push(chars_of(part.as_str()));
        i += 1;
    }
    assert(texts(parts@) =~= group_texts(group_views(snapshot.groups@)));
    let listed = join_texts(&parts, &chars_of(" · "));
    "Summary — ".to_owned().concat(string_of(&listed).as_str())
}

/// The footer of the rendered report: the run's failure if it failed, the
/// summary otherwise.
pub fn footer_text(snapshot: &LogSnapshot, failure: Option<&str>) -> (line: String)
    ensures
        line@ == footer_of(
            group_views(snapshot.groups@),
            match failure {
                Some(e) => Some(e@),
                None => None,
            },
        ),
{
    match failure {
        Some(e) => "Error: ".to_owned().concat(e),
        None => summary_line(snapshot),
    }
}

} // verus!
