//! Pod log entries, log-level detection and the log summary.

use vstd::prelude::*;
use crate::tally::{counts_view, lemma_tally_counts, string_views, tally, tally_keys, total_count};
use crate::text::{ascii_upper, contains_text, lower_case, occurs_at, str_contains, to_lower, to_upper, upper_case};

verus! {

/// One log line of a container.
#[derive(Debug, Clone)]
pub struct LogEntry {
    pub content: Option<String>,
    pub last: Option<bool>,
    pub pod_name: Option<String>,
    pub time_stamp: Option<String>,
    pub time_stamp_str: Option<String>,
}

/// Severity of a log line.
#[derive(Debug, Clone, Copy, PartialEq, Eq, Structural)]
pub enum LogLevel {
    Error,
    Warning,
    Fatal,
    Info,
    Debug,
    Unknown,
}

/// A log line with its detected level and issue flags.
#[derive(Debug, Clone)]
pub struct AnalyzedLogEntry {
    pub content: String,
    pub level: LogLevel,
    pub pod_name: Option<String>,
    pub timestamp: Option<String>,
    pub is_error: bool,
    pub is_warning: bool,
    pub potential_issue: bool,
}

/// Counts, per-level tallies and the (possibly filtered) analyzed lines.
#[derive(Debug, Clone)]
pub struct PodLogsSummary {
    pub total_lines: usize,
    pub error_count: usize,
    pub warning_count: usize,
    pub potential_issue_count: usize,
    pub logs_by_level: Vec<(String, usize)>,
    pub pod_name: Option<String>,
    pub container: Option<String>,
    pub tail_lines: Option<i64>,
    pub filtered: bool,
    pub log_entries: Vec<AnalyzedLogEntry>,
}

/// The level of a line, given its upper-cased text. Markers are checked in
/// order of severity: FATAL/CRITICAL, then ERROR/ERR, WARN/WARNING, DEBUG, INFO.
pub open spec fn level_of_upper(upper: Seq<char>) -> LogLevel {
    if contains_text(upper, "FATAL"@) || contains_text(upper, "CRITICAL"@) {
        LogLevel::Fatal
    } else if contains_text(upper, "ERROR"@) || contains_text(upper, "ERR"@) {
        LogLevel::Error
    } else if contains_text(upper, "WARN"@) || contains_text(upper, "WARNING"@) {
        LogLevel::Warning
    } else if contains_text(upper, "DEBUG"@) {
        LogLevel::Debug
    } else if contains_text(upper, "INFO"@) {
        LogLevel::Info
    } else {
        LogLevel::Unknown
    }
}

/// The name of a level.
pub open spec fn level_name(level: LogLevel) -> Seq<char> {
    match level {
        LogLevel::Fatal => "FATAL"@,
        LogLevel::Error => "ERROR"@,
        LogLevel::Warning => "WARNING"@,
        LogLevel::Info => "INFO"@,
        LogLevel::Debug => "DEBUG"@,
        LogLevel::Unknown => "UNKNOWN"@,
    }
}

/// A lower-cased line mentions a problem: an exception, a failure, a
/// timeout, a panic, a crash, an inability, a refusal or a denial.
pub open spec fn mentions_problem(lower: Seq<char>) -> bool {
    ||| contains_text(lower, "exception"@)
    ||| contains_text(lower, "failed"@)
    ||| contains_text(lower, "timeout"@)
    ||| contains_text(lower, "panic"@)
    ||| contains_text(lower, "crash"@)
    ||| contains_text(lower, "unable to"@)
    ||| contains_text(lower, "cannot"@)
    ||| contains_text(lower, "refused"@)
    ||| contains_text(lower, "denied"@)
}

/// The text of an entry, empty when absent.
pub open spec fn entry_content(entry: LogEntry) -> Seq<char> {
    match entry.content {
        Some(c) => c@,
        None => Seq::empty(),
    }
}

/// The detected level of an entry.
pub open spec fn entry_level(entry: LogEntry) -> LogLevel {
    level_of_upper(upper_case(entry_content(entry)))
}

/// Whether a level counts as an error.
pub open spec fn is_error_level(level: LogLevel) -> bool {
    level == LogLevel::Error || level == LogLevel::Fatal
}

/// Whether an entry is a potential issue: an error or warning line, or one
/// that mentions a problem.
pub open spec fn entry_potential_issue(entry: LogEntry) -> bool {
    is_error_level(entry_level(entry)) || entry_level(entry) == LogLevel::Warning
        || mentions_problem(lower_case(entry_content(entry)))
}

impl LogLevel {
    /// The level of a line whose text is already upper-cased.
    pub fn detect_upper(upper: &str) -> (r: Self)
        ensures
            r == level_of_upper(upper@),
    {
        if str_contains(upper, "FATAL") || str_contains(upper, "CRITICAL") {
            LogLevel::Fatal
        } else if str_contains(upper, "ERROR") || str_contains(upper, "ERR") {
            LogLevel::Error
        } else if str_contains(upper, "WARN") || str_contains(upper, "WARNING") {
            LogLevel::Warning
        } else if str_contains(upper, "DEBUG") {
            LogLevel::Debug
        } else if str_contains(upper, "INFO") {
            LogLevel::Info
        } else {
            LogLevel::Unknown
        }
    }

    /// Detects the level of a log line from its upper-cased text.
    pub fn detect(content: &str) -> (r: Self)
        ensures
            r == level_of_upper(upper_case(content@)),
            ascii_upper(content@) ==> r == level_of_upper(content@),
    {
        let upper = to_upper(content);
        Self::detect_upper(upper.as_str())
    }

    /// The name of the level.
    pub fn as_str(&self) -> (r: &'static str)
        ensures
            r@ == level_name(*self),
    {
        match self {
            LogLevel::Fatal => "FATAL",
            LogLevel::Error => "ERROR",
            LogLevel::Warning => "WARNING",
            LogLevel::Info => "INFO",
            LogLevel::Debug => "DEBUG",
            LogLevel::Unknown => "UNKNOWN",
        }
    }
}

/// Whether a lower-cased line mentions a problem.
pub fn mentions_problem_exec(lower: &str) -> (b: bool)
    ensures
        b == mentions_problem(lower@),
{
    str_contains(lower, "exception") || str_contains(lower, "failed") || str_contains(lower, "timeout")
        || str_contains(lower, "panic") || str_contains(lower, "crash") || str_contains(lower, "unable to")
        || str_contains(lower, "cannot") || str_contains(lower, "refused") || str_contains(lower, "denied")
}

impl AnalyzedLogEntry {
    /// What the analysis of an entry holds.
    pub open spec fn analyzes(self, entry: LogEntry) -> bool {
        &&& self.content@ == entry_content(entry)
        &&& self.level == entry_level(entry)
        &&& self.pod_name == entry.pod_name
        &&& self.timestamp == match entry.time_stamp_str {
            Some(t) => Some(t),
            None => entry.time_stamp,
        }
        &&& self.is_error == is_error_level(entry_level(entry))
        &&& self.is_warning == (entry_level(entry) == LogLevel::Warning)
        &&& self.potential_issue == entry_potential_issue(entry)
    }

    /// Analyzes one log entry.
    pub fn from_entry(entry: LogEntry) -> (r: Self)
        ensures
            r.analyzes(entry),
    {
        let ghost e = entry;
        let LogEntry { content, last: _, pod_name, time_stamp, time_stamp_str } = entry;
        let content = match content {
            Some(c) => c,
            None => String::new(),
        };
        let level = LogLevel::detect(content.as_str());
        let is_error = match level {
            LogLevel::Error | LogLevel::Fatal => true,
            _ => false,
        };
        let is_warning = match level {
            LogLevel::Warning => true,
            _ => false,
        };
        let lower = to_lower(content.as_str());
        let potential_issue = is_error || is_warning || mentions_problem_exec(lower.as_str());
        let timestamp = match time_stamp_str {
            Some(t) => Some(t),
            None => time_stamp,
        };
        AnalyzedLogEntry { content, level, pod_name, timestamp, is_error, is_warning, potential_issue }
    }
}

/// The entries that remain after optional filtering to potential issues.
pub open spec fn kept_entries(entries: Seq<LogEntry>, errors_only: bool) -> Seq<LogEntry> {
    if errors_only {
        entries.filter(|e: LogEntry| entry_potential_issue(e))
    } else {
        entries
    }
}

/// Number of entries satisfying a predicate.
pub open spec fn count_where(entries: Seq<LogEntry>, p: spec_fn(LogEntry) -> bool) -> nat {
    entries.filter(p).len()
}

/// The level names of entries, in order.
pub open spec fn level_names(entries: Seq<LogEntry>) -> Seq<Seq<char>> {
    entries.map_values(|e: LogEntry| level_name(entry_level(e)))
}

impl PodLogsSummary {
    /// What the summary of a batch of log entries reports.
    pub open spec fn summarizes(
        self,
        entries: Seq<LogEntry>,
        pod_name: Option<String>,
        container: Option<String>,
        tail_lines: Option<i64>,
        errors_only: bool,
    ) -> bool {
        let kept = kept_entries(entries, errors_only);
        &&& self.log_entries@.len() == kept.len()
        &&& forall|i: int| 0 <= i < kept.len() ==> #[trigger] self.log_entries@[i].analyzes(kept[i])
        &&& self.total_lines == kept.len()
        &&& self.error_count == count_where(kept, |e: LogEntry| is_error_level(entry_level(e)))
        &&& self.warning_count == count_where(kept, |e: LogEntry| entry_level(e) == LogLevel::Warning)
        &&& self.potential_issue_count == count_where(kept, |e: LogEntry| entry_potential_issue(e))
        &&& counts_view(self.logs_by_level@) == tally(level_names(kept))
        &&& self.pod_name == pod_name
        &&& self.container == container
        &&& self.tail_lines == tail_lines
        &&& self.filtered == errors_only
    }

    /// Analyzes log entries, keeps only potential issues when
    /// `filter_errors_only` is set, and counts the result.
    pub fn from_entries(
        entries: Vec<LogEntry>,
        pod_name: Option<String>,
        container: Option<String>,
        tail_lines: Option<i64>,
        filter_errors_only: bool,
    ) -> (r: Self)
        ensures
            r.summarizes(entries@, pod_name, container, tail_lines, filter_errors_only),
    {
        let ghost all = entries@;
        let total_in = entries.len();
        let ghost kept = kept_entries(all, filter_errors_only);
        let ghost is_err = |e: LogEntry| is_error_level(entry_level(e));
        let ghost is_warn = |e: LogEntry| entry_level(e) == LogLevel::Warning;
        let ghost is_issue = |e: LogEntry| entry_potential_issue(e);
        let mut analyzed: Vec<AnalyzedLogEntry> = Vec::new();
        let mut names: Vec<String> = Vec::new();
        let mut error_count: usize = 0;
        let mut warning_count: usize = 0;
        let mut potential_issue_count: usize = 0;
        let mut entries = entries;
        let mut remaining: Vec<LogEntry> = Vec::new();
        // Reverse so that entries can be taken from the end in their order.
        while entries.len() > 0
            invariant
                remaining@ + entries@.reverse() == all.reverse(),
            decreases entries@.len(),
        {
            let e = entries.pop().unwrap();
            remaining.push(e);
            assert(remaining@ + entries@.reverse() =~= all.reverse());
        }
        let ghost n = all.len();
        let ghost mut done: Seq<LogEntry> = Seq::empty();
        proof {
            assert(remaining@ =~= all.reverse());
        }
        while remaining.len() > 0
            invariant
                done + remaining@.reverse() == all,
                analyzed@.len() == kept_entries(done, filter_errors_only).len(),
                forall|i: int| 0 <= i < analyzed@.len() ==> #[trigger] analyzed@[i].analyzes(kept_entries(done, filter_errors_only)[i]),
                string_views(names@) == level_names(kept_entries(done, filter_errors_only)),
                error_count == count_where(kept_entries(done, filter_errors_only), is_err),
                warning_count == count_where(kept_entries(done, filter_errors_only), is_warn),
                potential_issue_count == count_where(kept_entries(done, filter_errors_only), is_issue),
                done.len() <= all.len(),
                all.len() == n,
                n == total_in,
                is_err == (|e: LogEntry| is_error_level(entry_level(e))),
                is_warn == (|e: LogEntry| entry_level(e) == LogLevel::Warning),
                is_issue == (|e: LogEntry| entry_potential_issue(e)),
            decreases remaining@.len(),
        {
            let entry = remaining.pop().unwrap();
            let ghost e = entry;
            let ghost prev_done = done;
            proof {
                done = done.push(e);
                assert(done + remaining@.reverse() =~= all) by {
                    assert(prev_done + (remaining@.push(e)).reverse() == all);
                    assert((remaining@.push(e)).reverse() =~= seq![e] + remaining@.reverse());
                }
                assert(done.drop_last() =~= prev_done);
                lemma_kept_push(prev_done, e, filter_errors_only);
                lemma_count_push(kept_entries(prev_done, filter_errors_only), e, is_err);
                lemma_count_push(kept_entries(prev_done, filter_errors_only), e, is_warn);
                lemma_count_push(kept_entries(prev_done, filter_errors_only), e, is_issue);
            }
            let a = AnalyzedLogEntry::from_entry(entry);
            if !filter_errors_only || a.potential_issue {
                proof {
                    lemma_count_bound(kept_entries(prev_done, filter_errors_only), is_err);
                    lemma_count_bound(kept_entries(prev_done, filter_errors_only), is_warn);
                    lemma_count_bound(kept_entries(prev_done, filter_errors_only), is_issue);
                    lemma_kept_len(prev_done, filter_errors_only);
                    assert(prev_done.len() < n);
                }
                if a.is_error {
                    error_count = error_count + 1;
                }
                if a.is_warning {
                    warning_count = warning_count + 1;
                }
                if a.potential_issue {
                    potential_issue_count = potential_issue_count + 1;
                }
                let level_text = a.level.as_str().to_owned();
                assert(level_text@ == level_name(entry_level(e)));
                names.push(level_text);
                analyzed.push(a);
                proof {
                    assert(kept_entries(done, filter_errors_only) =~= kept_entries(prev_done, filter_errors_only).push(e));
                    let ko = kept_entries(prev_done, filter_errors_only);
                    assert(level_names(ko.push(e)) =~= level_names(ko).push(level_name(entry_level(e))));
                    assert(string_views(names@) =~= level_names(kept_entries(done, filter_errors_only)));
                }
            } else {
                proof {
                    assert(kept_entries(done, filter_errors_only) =~= kept_entries(prev_done, filter_errors_only));
                }
            }
        }
        proof {
            assert(done =~= all);
        }
        let logs_by_level = tally_keys(&names);
        PodLogsSummary {
            total_lines: analyzed.len(),
            error_count,
            warning_count,
            potential_issue_count,
            logs_by_level,
            pod_name,
            container,
            tail_lines,
            filtered: filter_errors_only,
            log_entries: analyzed,
        }
    }
}

proof fn lemma_kept_push(done: Seq<LogEntry>, e: LogEntry, errors_only: bool)
    ensures
        kept_entries(done.push(e), errors_only) == if !errors_only || entry_potential_issue(e) {
            kept_entries(done, errors_only).push(e)
        } else {
            kept_entries(done, errors_only)
        },
{
    let p = |x: LogEntry| entry_potential_issue(x);
    if errors_only {
        assert(done.push(e).drop_last() =~= done);
        assert(done.push(e).filter(p) == if p(e) { done.filter(p).push(e) } else { done.filter(p) }) by {
            reveal(Seq::filter);
        }
    }
}

proof fn lemma_count_push(s: Seq<LogEntry>, e: LogEntry, p: spec_fn(LogEntry) -> bool)
    ensures
        count_where(s.push(e), p) == count_where(s, p) + if p(e) { 1nat } else { 0nat },
{
    assert(s.push(e).drop_last() =~= s);
    reveal(Seq::filter);
}

proof fn lemma_count_bound(s: Seq<LogEntry>, p: spec_fn(LogEntry) -> bool)
    ensures
        count_where(s, p) <= s.len(),
{
    s.lemma_filter_len(p);
}

proof fn lemma_kept_len(done: Seq<LogEntry>, errors_only: bool)
    ensures
        kept_entries(done, errors_only).len() <= done.len(),
{
    if errors_only {
        done.lemma_filter_len(|x: LogEntry| entry_potential_issue(x));
    }
}


proof fn lemma_filter_weaker(s: Seq<LogEntry>, p: spec_fn(LogEntry) -> bool, q: spec_fn(LogEntry) -> bool)
    requires
        forall|e: LogEntry| #[trigger] p(e) ==> q(e),
    ensures
        s.filter(p).len() <= s.filter(q).len(),
    decreases s.len(),
{
    if s.len() > 0 {
        let rest = s.drop_last();
        lemma_filter_weaker(rest, p, q);
        rest.lemma_filter_len_push(p, s.last());
        rest.lemma_filter_len_push(q, s.last());
        assert(rest.push(s.last()) =~= s);
    }
}

proof fn lemma_filter_keeps_all(s: Seq<LogEntry>, p: spec_fn(LogEntry) -> bool)
    requires
        forall|i: int| 0 <= i < s.len() ==> #[trigger] p(s[i]),
    ensures
        s.filter(p) == s,
    decreases s.len(),
{
    reveal(Seq::filter);
    if s.len() > 0 {
        lemma_filter_keeps_all(s.drop_last(), p);
    }
}

/// Errors and warnings are potential issues: neither count exceeds the
/// count of potential issues, which does not exceed the number of lines
/// reported; the lines reported are at most the lines read; and with the
/// errors-only filter every reported line is a potential issue.
pub proof fn lemma_issue_counts(
    s: PodLogsSummary,
    entries: Seq<LogEntry>,
    pod_name: Option<String>,
    container: Option<String>,
    tail_lines: Option<i64>,
    errors_only: bool,
)
    requires
        s.summarizes(entries, pod_name, container, tail_lines, errors_only),
    ensures
        s.error_count <= s.potential_issue_count,
        s.warning_count <= s.potential_issue_count,
        s.potential_issue_count <= s.total_lines,
        s.total_lines <= entries.len(),
        errors_only ==> s.potential_issue_count == s.total_lines,
{
    let kept = kept_entries(entries, errors_only);
    let issue = |e: LogEntry| entry_potential_issue(e);
    lemma_filter_weaker(kept, |e: LogEntry| is_error_level(entry_level(e)), issue);
    lemma_filter_weaker(kept, |e: LogEntry| entry_level(e) == LogLevel::Warning, issue);
    kept.lemma_filter_len(issue);
    entries.lemma_filter_len(issue);
    if errors_only {
        assert forall|i: int| 0 <= i < kept.len() implies #[trigger] issue(kept[i]) by {
            entries.lemma_filter_pred(issue, i);
        }
        lemma_filter_keeps_all(kept, issue);
    }
}

/// Every reported line has exactly one level: the counts by level add up
/// to the number of lines.
pub proof fn lemma_levels_add_up(
    s: PodLogsSummary,
    entries: Seq<LogEntry>,
    pod_name: Option<String>,
    container: Option<String>,
    tail_lines: Option<i64>,
    errors_only: bool,
)
    requires
        s.summarizes(entries, pod_name, container, tail_lines, errors_only),
    ensures
        total_count(counts_view(s.logs_by_level@)) == s.total_lines,
{
    let kept = kept_entries(entries, errors_only);
    lemma_tally_counts(level_names(kept), Seq::empty());
}

/// Two analyses of a log line report the same thing.
pub open spec fn same_analysis(x: AnalyzedLogEntry, y: AnalyzedLogEntry) -> bool {
    &&& x.content@ == y.content@
    &&& x.level == y.level
    &&& x.pod_name == y.pod_name
    &&& x.timestamp == y.timestamp
    &&& x.is_error == y.is_error
    &&& x.is_warning == y.is_warning
    &&& x.potential_issue == y.potential_issue
}

/// The analyses of potential issues among a sequence of analyses, in order.
pub open spec fn issue_analyses(xs: Seq<AnalyzedLogEntry>) -> Seq<AnalyzedLogEntry> {
    xs.filter(|x: AnalyzedLogEntry| x.potential_issue)
}

proof fn lemma_filter_analyses(xs: Seq<AnalyzedLogEntry>, es: Seq<LogEntry>)
    requires
        xs.len() == es.len(),
        forall|i: int| 0 <= i < xs.len() ==> #[trigger] xs[i].analyzes(es[i]),
    ensures
        issue_analyses(xs).len() == kept_entries(es, true).len(),
        forall|j: int| 0 <= j < issue_analyses(xs).len() ==>
            (#[trigger] issue_analyses(xs)[j]).analyzes(
                kept_entries(es, true)[j],
            ),
    decreases xs.len(),
{
    reveal(Seq::filter);
    if xs.len() > 0 {
        let xr = xs.drop_last();
        let er = es.drop_last();
        assert forall|i: int| 0 <= i < xr.len() implies #[trigger] xr[i].analyzes(er[i]) by {
            assert(xs[i].analyzes(es[i]));
        }
        lemma_filter_analyses(xr, er);
        assert(xs.last().analyzes(es.last())) by {
            assert(xs[xs.len() - 1].analyzes(es[es.len() - 1]));
        }
    }
}

proof fn lemma_filter_twice(s: Seq<LogEntry>, p: spec_fn(LogEntry) -> bool, q: spec_fn(LogEntry) -> bool)
    requires
        forall|e: LogEntry| #[trigger] q(e) ==> p(e),
    ensures
        s.filter(p).filter(q) == s.filter(q),
    decreases s.len(),
{
    reveal(Seq::filter);
    if s.len() > 0 {
        lemma_filter_twice(s.drop_last(), p, q);
        let x = s.last();
        if p(x) {
            assert(s.filter(p).drop_last() =~= s.drop_last().filter(p));
            assert(s.filter(p).last() == x);
        } else {
            assert(s.filter(p) =~= s.drop_last().filter(p));
        }
    }
}

/// The errors-only filter keeps exactly the potential issues: the lines
/// reported with it are, in order, the lines reported without it that are
/// potential issues; all of them count as potential issues; and the error,
/// warning and potential-issue counts are those of the unfiltered summary.
pub proof fn lemma_errors_only_keeps_issues(
    all: PodLogsSummary,
    issues: PodLogsSummary,
    entries: Seq<LogEntry>,
    pod_name: Option<String>,
    container: Option<String>,
    tail_lines: Option<i64>,
)
    requires
        all.summarizes(entries, pod_name, container, tail_lines, false),
        issues.summarizes(entries, pod_name, container, tail_lines, true),
    ensures
        issues.filtered,
        !all.filtered,
        issues.log_entries@.len() == issue_analyses(all.log_entries@).len(),
        forall|j: int| 0 <= j < issues.log_entries@.len() ==>
            same_analysis(#[trigger] issues.log_entries@[j], issue_analyses(all.log_entries@)[j]),
        issues.total_lines == issues.potential_issue_count,
        issues.potential_issue_count == all.potential_issue_count,
        issues.error_count == all.error_count,
        issues.warning_count == all.warning_count,
{
    let issue = |e: LogEntry| entry_potential_issue(e);
    let is_err = |e: LogEntry| is_error_level(entry_level(e));
    let is_warn = |e: LogEntry| entry_level(e) == LogLevel::Warning;
    let kept = entries.filter(issue);
    lemma_filter_analyses(all.log_entries@, entries);
    let fa = issue_analyses(all.log_entries@);
    assert forall|j: int| 0 <= j < issues.log_entries@.len() implies
        same_analysis(#[trigger] issues.log_entries@[j], fa[j]) by {
        assert(issues.log_entries@[j].analyzes(kept[j]));
        assert(fa[j].analyzes(kept[j]));
    }
    lemma_issue_counts(issues, entries, pod_name, container, tail_lines, true);
    lemma_filter_twice(entries, issue, issue);
    lemma_filter_twice(entries, issue, is_err);
    lemma_filter_twice(entries, issue, is_warn);
}

proof fn lemma_occurs_first(h: Seq<char>, n: Seq<char>)
    requires
        n.len() <= h.len(),
        h.subrange(0, n.len() as int) == n,
    ensures
        contains_text(h, n),
{
    assert(occurs_at(h, n, 0));
}

proof fn lemma_absent(h: Seq<char>, n: Seq<char>)
    requires
        2 <= n.len(),
        h.len() <= 8,
        0 + n.len() <= h.len() ==> h[0] != n[0] || h[1] != n[1],
        1 + n.len() <= h.len() ==> h[1] != n[0] || h[2] != n[1],
        2 + n.len() <= h.len() ==> h[2] != n[0] || h[3] != n[1],
        3 + n.len() <= h.len() ==> h[3] != n[0] || h[4] != n[1],
        4 + n.len() <= h.len() ==> h[4] != n[0] || h[5] != n[1],
        5 + n.len() <= h.len() ==> h[5] != n[0] || h[6] != n[1],
        6 + n.len() <= h.len() ==> h[6] != n[0] || h[7] != n[1],
    ensures
        !contains_text(h, n),
{
    assert forall|i: int| !occurs_at(h, n, i) by {
        if occurs_at(h, n, i) {
            assert(h.subrange(i, i + n.len())[0] == n[0]);
            assert(h.subrange(i, i + n.len())[1] == n[1]);
            assert(i == 0 || i == 1 || i == 2 || i == 3 || i == 4 || i == 5 || i == 6);
        }
    }
}

proof fn lemma_upper_word(h: Seq<char>)
    requires
        h.len() <= 8,
        0 < h.len() ==> 'A' <= h[0] <= 'Z',
        1 < h.len() ==> 'A' <= h[1] <= 'Z',
        2 < h.len() ==> 'A' <= h[2] <= 'Z',
        3 < h.len() ==> 'A' <= h[3] <= 'Z',
        4 < h.len() ==> 'A' <= h[4] <= 'Z',
        5 < h.len() ==> 'A' <= h[5] <= 'Z',
        6 < h.len() ==> 'A' <= h[6] <= 'Z',
        7 < h.len() ==> 'A' <= h[7] <= 'Z',
    ensures
        ascii_upper(h),
{
    assert forall|i: int| 0 <= i < h.len() implies 'A' <= #[trigger] h[i] <= 'Z' by {
        assert(i == 0 || i == 1 || i == 2 || i == 3 || i == 4 || i == 5 || i == 6 || i == 7);
    }
}

proof fn lemma_fatal_name()
    ensures
        ascii_upper("FATAL"@),
        level_of_upper("FATAL"@) == LogLevel::Fatal,
{
    reveal_strlit("FATAL");
    let h = "FATAL"@;
    lemma_upper_word(h);
    assert(h.subrange(0, 5) =~= "FATAL"@);
    lemma_occurs_first(h, "FATAL"@);
}

proof fn lemma_error_name()
    ensures
        ascii_upper("ERROR"@),
        level_of_upper("ERROR"@) == LogLevel::Error,
{
    reveal_strlit("ERROR");
    reveal_strlit("CRITICAL");
    reveal_strlit("FATAL");
    let h = "ERROR"@;
    lemma_upper_word(h);
    lemma_absent(h, "FATAL"@);
    lemma_absent(h, "CRITICAL"@);
    assert(h.subrange(0, 5) =~= "ERROR"@);
    lemma_occurs_first(h, "ERROR"@);
}

proof fn lemma_warning_name()
    ensures
        ascii_upper("WARNING"@),
        level_of_upper("WARNING"@) == LogLevel::Warning,
{
    reveal_strlit("WARNING");
    reveal_strlit("CRITICAL");
    reveal_strlit("ERR");
    reveal_strlit("ERROR");
    reveal_strlit("FATAL");
    reveal_strlit("WARN");
    let h = "WARNING"@;
    lemma_upper_word(h);
    lemma_absent(h, "FATAL"@);
    lemma_absent(h, "CRITICAL"@);
    lemma_absent(h, "ERROR"@);
    lemma_absent(h, "ERR"@);
    assert(h.subrange(0, 4) =~= "WARN"@);
    lemma_occurs_first(h, "WARN"@);
}

proof fn lemma_info_name()
    ensures
        ascii_upper("INFO"@),
        level_of_upper("INFO"@) == LogLevel::Info,
{
    reveal_strlit("INFO");
    reveal_strlit("CRITICAL");
    reveal_strlit("DEBUG");
    reveal_strlit("ERR");
    reveal_strlit("ERROR");
    reveal_strlit("FATAL");
    reveal_strlit("WARN");
    reveal_strlit("WARNING");
    let h = "INFO"@;
    lemma_upper_word(h);
    lemma_absent(h, "FATAL"@);
    lemma_absent(h, "CRITICAL"@);
    lemma_absent(h, "ERROR"@);
    lemma_absent(h, "ERR"@);
    lemma_absent(h, "WARN"@);
    lemma_absent(h, "WARNING"@);
    lemma_absent(h, "DEBUG"@);
    assert(h.subrange(0, 4) =~= "INFO"@);
    lemma_occurs_first(h, "INFO"@);
}

proof fn lemma_debug_name()
    ensures
        ascii_upper("DEBUG"@),
        level_of_upper("DEBUG"@) == LogLevel::Debug,
{
    reveal_strlit("DEBUG");
    reveal_strlit("CRITICAL");
    reveal_strlit("ERR");
    reveal_strlit("ERROR");
    reveal_strlit("FATAL");
    reveal_strlit("WARN");
    reveal_strlit("WARNING");
    let h = "DEBUG"@;
    lemma_upper_word(h);
    lemma_absent(h, "FATAL"@);
    lemma_absent(h, "CRITICAL"@);
    lemma_absent(h, "ERROR"@);
    lemma_absent(h, "ERR"@);
    lemma_absent(h, "WARN"@);
    lemma_absent(h, "WARNING"@);
    assert(h.subrange(0, 5) =~= "DEBUG"@);
    lemma_occurs_first(h, "DEBUG"@);
}

proof fn lemma_unknown_name()
    ensures
        ascii_upper("UNKNOWN"@),
        level_of_upper("UNKNOWN"@) == LogLevel::Unknown,
{
    reveal_strlit("UNKNOWN");
    reveal_strlit("CRITICAL");
    reveal_strlit("DEBUG");
    reveal_strlit("ERR");
    reveal_strlit("ERROR");
    reveal_strlit("FATAL");
    reveal_strlit("INFO");
    reveal_strlit("WARN");
    reveal_strlit("WARNING");
    let h = "UNKNOWN"@;
    lemma_upper_word(h);
    lemma_absent(h, "FATAL"@);
    lemma_absent(h, "CRITICAL"@);
    lemma_absent(h, "ERROR"@);
    lemma_absent(h, "ERR"@);
    lemma_absent(h, "WARN"@);
    lemma_absent(h, "WARNING"@);
    lemma_absent(h, "DEBUG"@);
    lemma_absent(h, "INFO"@);
}

/// The name of every level is written in ASCII upper-case letters, and
/// detecting the level of that name gives the level back.
pub proof fn lemma_level_name_detects_back(level: LogLevel)
    ensures
        ascii_upper(level_name(level)),
        level_of_upper(level_name(level)) == level,
{
    match level {
        LogLevel::Fatal => lemma_fatal_name(),
        LogLevel::Error => lemma_error_name(),
        LogLevel::Warning => lemma_warning_name(),
        LogLevel::Info => lemma_info_name(),
        LogLevel::Debug => lemma_debug_name(),
        LogLevel::Unknown => lemma_unknown_name(),
    }
}

} // verus!
