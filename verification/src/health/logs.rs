//! Warnings and errors in the daily logs.

use vstd::prelude::*;
use vstd::string::*;

use crate::clock::{parse_rfc3339, rfc3339_time, UtcTime};
use crate::health::model::{
    derived, env_finding, env_warning, fact_views, finding_views, named_texts, one_arg, one_text,
    push_arg, push_fact, push_finding, FactValueView, FactView, FindingView, HealthFact,
    HealthFactCategory, HealthFactValue, HealthFinding, HealthScanReport,
};
use crate::health::runtime::{is_recent, recent, shorten, shortened};
use crate::i18n::MessageId;
use crate::text::{
    after_word, chars_of, decimal, decimal_text, first_at, first_word, lemma_first_at, lemma_first_at_is, lines,
    lines_of, next_word, same, text_of, texts,
};

verus! {

/// How much of a log is read, from its end.
pub const LOG_TAIL_MAX_BYTES: u64 = 262_144;

/// More warnings than this in a day are a flood.
pub const WARN_FLOOD_THRESHOLD: u64 = 100;

/// How much of an error line is shown.
pub const LOG_SAMPLE_MAX_CHARS: usize = 200;

/// The logs.
#[derive(Clone, Copy, Debug, PartialEq, Eq, Structural)]
pub enum LogKind {
    Shell,
    Core,
}

impl LogKind {
    /// The component of each log.
    pub open spec fn component(self) -> Seq<char> {
        match self {
            LogKind::Shell => "cosh-shell"@,
            LogKind::Core => "cosh-core"@,
        }
    }

    /// The component of the log.
    pub fn stem(self) -> (res: &'static str)
        ensures
            res@ == self.component(),
    {
        match self {
            LogKind::Shell => "cosh-shell",
            LogKind::Core => "cosh-core",
        }
    }

    /// The file of the log, without its date.
    pub fn file(self) -> (res: String)
        ensures
            res@ == self.component() + ".log"@,
    {
        self.stem().to_owned().concat(".log")
    }

    /// What the log is called in a summary.
    pub open spec fn short(self) -> Seq<char> {
        match self {
            LogKind::Shell => "shell"@,
            LogKind::Core => "core"@,
        }
    }

    /// What the log is called in a summary.
    pub fn short_name(self) -> (res: &'static str)
        ensures
            res@ == self.short(),
    {
        match self {
            LogKind::Shell => "shell",
            LogKind::Core => "core",
        }
    }

    /// The file of the log on a day.
    pub fn dated_file(self, date: &str) -> (res: String)
        ensures
            res@ == self.component() + ".log"@ + "."@ + date@,
    {
        self.file().concat(".").concat(date)
    }
}

/// The end of a log as whole lines: where its start was cut off, the first line
/// goes, and with it everything if no other line follows.
pub open spec fn whole_lines(text: Seq<char>, cut: bool) -> Seq<char> {
    if !cut {
        text
    } else if first_at(text, '\n') < text.len() {
        text.skip(first_at(text, '\n') + 1)
    } else {
        Seq::empty()
    }
}

/// The end of a log as whole lines.
pub fn drop_partial_line(text: &str, cut: bool) -> (res: String)
    ensures
        res@ == whole_lines(text@, cut),
{
    if !cut {
        return text.to_owned();
    }
    let chars = chars_of(text);
    let mut n: usize = 0;
    while n < chars.len() && chars[n] != '\n'
        invariant
            n <= chars@.len(),
            chars@ == text@,
            forall|j: int| 0 <= j < n ==> text@[j] != '\n',
        decreases chars@.len() - n,
    {
        n = n + 1;
    }
    proof {
        lemma_first_at_is(text@, '\n', n as int);
    }
    if n < chars.len() {
        let rest = text_of(&chars, n + 1, chars.len());
        assert(rest@ =~= text@.skip(n + 1));
        rest
    } else {
        let none = String::new();
        assert(none@ =~= Seq::empty());
        none
    }
}

/// The milliseconds since 1970 of a point in time.
pub open spec fn millis_of(time: UtcTime) -> int {
    time.secs * 1000 + time.nanos / 1_000_000
}

/// What the head of a log line says: whether it is an error rather than a
/// warning, and when it was. Lines without a head, of other levels or from
/// before the window say nothing.
pub open spec fn header_in(line: Seq<char>, now_ms: u128) -> Option<(bool, u128)> {
    let level = first_word(after_word(line));
    if level != "WARN"@ && level != "ERROR"@ {
        None
    } else {
        match rfc3339_time(first_word(line)) {
            Some(time) => header_at(level == "ERROR"@, time, now_ms),
            None => None,
        }
    }
}

/// What the head of a log line with this level and time says.
pub open spec fn header_at(error: bool, time: UtcTime, now_ms: u128) -> Option<(bool, u128)> {
    if millis_of(time) >= 0 && recent(millis_of(time) as u128, now_ms) {
        Some((error, millis_of(time) as u128))
    } else {
        None
    }
}

/// What the head of a log line with this level and time says.
pub fn judge_header(error: bool, time: UtcTime, now_ms: u128) -> (res: Option<(bool, u128)>)
    ensures
        res == header_at(error, time, now_ms),
{
    let millis: i128 = time.secs as i128 * 1000 + (time.nanos / 1_000_000) as i128;
    if millis < 0 {
        return None;
    }
    let ts_ms: u128 = millis as u128;
    if is_recent(ts_ms, now_ms) {
        Some((error, ts_ms))
    } else {
        None
    }
}

/// What the head of a log line says.
pub fn parse_log_header(line: &str, now_ms: u128) -> (res: Option<(bool, u128)>)
    ensures
        res == header_in(line@, now_ms),
{
    let chars = chars_of(line);
    assert(chars@.skip(0) =~= line@);
    let (stamp, end) = next_word(&chars, 0);
    let (level, _) = next_word(&chars, end);
    let error: bool = same(level.as_str(), "ERROR");
    if !error && !same(level.as_str(), "WARN") {
        return None;
    }
    match parse_rfc3339(stamp.as_str()) {
        Some(time) => judge_header(error, time, now_ms),
        None => None,
    }
}

/// What was counted in a log.
#[derive(Clone, Debug)]
pub struct LogScan {
    pub warns: u64,
    pub errors: u64,
    /// The latest error, with its line.
    pub last_error: Option<(u128, String)>,
}

/// What a [`LogScan`] says.
#[verifier::ext_equal]
pub struct ScanView {
    pub warns: u64,
    pub errors: u64,
    pub last_error: Option<(u128, Seq<char>)>,
}

impl View for LogScan {
    type V = ScanView;

    open spec fn view(&self) -> ScanView {
        ScanView {
            warns: self.warns,
            errors: self.errors,
            last_error: match self.last_error {
                Some((ts, line)) => Some((ts, line@)),
                None => None,
            },
        }
    }
}

/// Nothing was counted.
pub open spec fn no_lines() -> ScanView {
    ScanView { warns: 0, errors: 0, last_error: None }
}

/// One more, as far as that can be counted.
pub open spec fn one_more(n: u64) -> u64 {
    if n < u64::MAX {
        (n + 1) as u64
    } else {
        n
    }
}

fn count(n: u64) -> (res: u64)
    ensures
        res == one_more(n),
{
    if n < u64::MAX {
        n + 1
    } else {
        n
    }
}

/// A count with one more line.
pub open spec fn counted(scan: ScanView, line: Seq<char>, now_ms: u128) -> ScanView {
    match header_in(line, now_ms) {
        None => scan,
        Some((false, _)) => ScanView { warns: one_more(scan.warns), ..scan },
        Some((true, ts)) => ScanView {
            errors: one_more(scan.errors),
            last_error: match scan.last_error {
                Some((last, _)) => if ts >= last {
                    Some((ts, line))
                } else {
                    scan.last_error
                },
                None => Some((ts, line)),
            },
            ..scan
        },
    }
}

/// A count with more lines.
pub open spec fn counted_all(scan: ScanView, all: Seq<Seq<char>>, now_ms: u128) -> ScanView
    decreases all.len(),
{
    if all.len() == 0 {
        scan
    } else {
        counted(counted_all(scan, all.drop_last(), now_ms), all.last(), now_ms)
    }
}

impl LogScan {
    /// Nothing was counted.
    pub fn new() -> (res: LogScan)
        ensures
            res@ == no_lines(),
    {
        LogScan { warns: 0, errors: 0, last_error: None }
    }

    /// The same count.
    pub fn copy(&self) -> (res: LogScan)
        ensures
            res@ == self@,
    {
        LogScan {
            warns: self.warns,
            errors: self.errors,
            last_error: match &self.last_error {
                Some((ts, line)) => Some((*ts, line.clone())),
                None => None,
            },
        }
    }

    fn count_line(&mut self, line: &str, now_ms: u128)
        ensures
            final(self)@ == counted(old(self)@, line@, now_ms),
    {
        match parse_log_header(line, now_ms) {
            None => {},
            Some((error, ts_ms)) => {
                if !error {
                    self.warns = count(self.warns);
                } else {
                    self.errors = count(self.errors);
                    let newer: bool = match &self.last_error {
                        Some((last, _)) => ts_ms >= *last,
                        None => true,
                    };
                    if newer {
                        self.last_error = Some((ts_ms, line.to_owned()));
                    }
                }
            },
        }
    }

    /// Counts the lines of a text.
    pub fn count_text(&mut self, text: &str, now_ms: u128)
        ensures
            final(self)@ == counted_all(old(self)@, lines_of(text@), now_ms),
    {
        let all = lines(text);
        let ghost views = texts(all@);
        let mut i: usize = 0;
        assert(views.take(0) =~= Seq::empty());
        while i < all.len()
            invariant
                i <= all@.len(),
                views == texts(all@),
                self@ == counted_all(old(self)@, views.take(i as int), now_ms),
            decreases all@.len() - i,
        {
            proof {
                assert(views.take(i + 1).drop_last() =~= views.take(i as int));
                assert(views.take(i + 1).last() == all@[i as int]@);
            }
            self.count_line(all[i].as_str(), now_ms);
            i = i + 1;
        }
        assert(views.take(views.len() as int) =~= views);
    }
}

/// A log file that could be read.
pub struct LogFile {
    pub kind: LogKind,
    pub text: String,
    /// When it was last written, if that is known.
    pub written_ms: Option<u128>,
}

/// What was found in the log files.
pub struct LogSummary {
    pub any_file: bool,
    pub last_write_ms: u128,
    /// The counts of each log that has a file.
    pub core: Option<LogScan>,
    pub shell: Option<LogScan>,
}

/// What a [`LogSummary`] says.
#[verifier::ext_equal]
pub struct SummaryView {
    pub any_file: bool,
    pub last_write_ms: u128,
    pub core: Option<ScanView>,
    pub shell: Option<ScanView>,
}

/// The view of a count that may be missing.
pub open spec fn maybe_scan(scan: Option<LogScan>) -> Option<ScanView> {
    match scan {
        Some(s) => Some(s@),
        None => None,
    }
}

impl View for LogSummary {
    type V = SummaryView;

    open spec fn view(&self) -> SummaryView {
        SummaryView {
            any_file: self.any_file,
            last_write_ms: self.last_write_ms,
            core: maybe_scan(self.core),
            shell: maybe_scan(self.shell),
        }
    }
}

/// A count that goes on with a text.
pub open spec fn scan_with(scan: Option<ScanView>, text: Seq<char>, now_ms: u128) -> Option<ScanView> {
    Some(
        counted_all(
            match scan {
                Some(s) => s,
                None => no_lines(),
            },
            lines_of(text),
            now_ms,
        ),
    )
}

/// A summary with one more file.
pub open spec fn summary_with(s: SummaryView, file: LogFile, now_ms: u128) -> SummaryView {
    SummaryView {
        any_file: true,
        last_write_ms: if file.written_ms is Some && file.written_ms->0 > s.last_write_ms {
            file.written_ms->0
        } else {
            s.last_write_ms
        },
        core: if file.kind is Core {
            scan_with(s.core, file.text@, now_ms)
        } else {
            s.core
        },
        shell: if file.kind is Shell {
            scan_with(s.shell, file.text@, now_ms)
        } else {
            s.shell
        },
    }
}

/// The summary of log files.
pub open spec fn summary_of(files: Seq<LogFile>, now_ms: u128) -> SummaryView
    decreases files.len(),
{
    if files.len() == 0 {
        SummaryView { any_file: false, last_write_ms: 0, core: None, shell: None }
    } else {
        summary_with(summary_of(files.drop_last(), now_ms), files.last(), now_ms)
    }
}

fn scan_more(scan: Option<LogScan>, text: &str, now_ms: u128) -> (res: Option<LogScan>)
    ensures
        maybe_scan(res) == scan_with(maybe_scan(scan), text@, now_ms),
{
    let mut out = match scan {
        Some(s) => s,
        None => LogScan::new(),
    };
    out.count_text(text, now_ms);
    Some(out)
}

/// Goes through log files.
pub fn scan_logs(files: &Vec<LogFile>, now_ms: u128) -> (res: LogSummary)
    ensures
        res@ == summary_of(files@, now_ms),
{
    let mut any_file: bool = false;
    let mut last_write_ms: u128 = 0;
    let mut core: Option<LogScan> = None;
    let mut shell: Option<LogScan> = None;
    let mut i: usize = 0;
    assert(files@.take(0) =~= Seq::empty());
    while i < files.len()
        invariant
            i <= files@.len(),
            summary_of(files@.take(i as int), now_ms) == (SummaryView {
                any_file,
                last_write_ms,
                core: maybe_scan(core),
                shell: maybe_scan(shell),
            }),
        decreases files@.len() - i,
    {
        proof {
            assert(files@.take(i + 1).drop_last() =~= files@.take(i as int));
            assert(files@.take(i + 1).last() == files@[i as int]);
        }
        any_file = true;
        if let Some(written) = files[i].written_ms {
            if written > last_write_ms {
                last_write_ms = written;
            }
        }
        match files[i].kind {
            LogKind::Core => {
                core = scan_more(core, files[i].text.as_str(), now_ms);
            },
            LogKind::Shell => {
                shell = scan_more(shell, files[i].text.as_str(), now_ms);
            },
        }
        i = i + 1;
    }
    assert(files@.take(files@.len() as int) =~= files@);
    LogSummary { any_file, last_write_ms, core, shell }
}

/// The latest error of a log.
pub open spec fn last_of(scan: Option<ScanView>) -> Option<(u128, Seq<char>)> {
    match scan {
        Some(s) => s.last_error,
        None => None,
    }
}

/// The latest error of all logs; of two at once, that of the shell.
pub open spec fn latest_error(s: SummaryView) -> Option<(u128, Seq<char>)> {
    match (last_of(s.core), last_of(s.shell)) {
        (Some(c), Some(h)) => if h.0 >= c.0 {
            Some(h)
        } else {
            Some(c)
        },
        (Some(c), None) => Some(c),
        (None, h) => h,
    }
}

fn last_error_of(scan: &Option<LogScan>) -> (res: Option<(u128, String)>)
    ensures
        match res {
            Some((ts, line)) => last_of(maybe_scan(*scan)) == Some((ts, line@)),
            None => last_of(maybe_scan(*scan)) is None,
        },
{
    match scan {
        Some(s) => match &s.last_error {
            Some((ts, line)) => Some((*ts, line.clone())),
            None => None,
        },
        None => None,
    }
}

impl LogSummary {
    /// The latest error of all logs, with its line.
    pub fn latest(&self) -> (res: Option<(u128, String)>)
        ensures
            match res {
                Some((ts, line)) => latest_error(self@) == Some((ts, line@)),
                None => latest_error(self@) is None,
            },
    {
        let core = last_error_of(&self.core);
        let shell = last_error_of(&self.shell);
        match (core, shell) {
            (Some(c), Some(h)) => {
                if h.0 >= c.0 {
                    Some(h)
                } else {
                    Some(c)
                }
            },
            (Some(c), None) => Some(c),
            (None, h) => h,
        }
    }
}

/// The counts of a log, none if it has no file.
pub open spec fn counts(scan: Option<ScanView>) -> ScanView {
    match scan {
        Some(s) => s,
        None => no_lines(),
    }
}

/// Two counts together, as far as that can be counted.
pub open spec fn together(a: u64, b: u64) -> u64 {
    if a + b <= u64::MAX {
        (a + b) as u64
    } else {
        u64::MAX
    }
}

fn put_together(a: u64, b: u64) -> (res: u64)
    ensures
        res == together(a, b),
{
    if a <= u64::MAX - b {
        a + b
    } else {
        u64::MAX
    }
}

/// A number of milliseconds as a fact holds it.
pub open spec fn as_fact(ms: u128) -> u64 {
    if ms <= u64::MAX {
        ms as u64
    } else {
        u64::MAX
    }
}

fn to_fact(ms: u128) -> (res: u64)
    ensures
        res == as_fact(ms),
{
    if ms <= u64::MAX as u128 {
        ms as u64
    } else {
        u64::MAX
    }
}

/// What is shown of the latest error, `redacted` standing for its line with
/// secrets taken out.
pub open spec fn error_sample(s: SummaryView, redacted: Seq<char>) -> Seq<char> {
    if latest_error(s) is Some {
        shortened(redacted, LOG_SAMPLE_MAX_CHARS as int)
    } else {
        Seq::empty()
    }
}

/// The logs were not written for a day.
pub open spec fn silent(s: SummaryView, now_ms: u128) -> bool {
    s.any_file && s.last_write_ms > 0 && !recent(s.last_write_ms, now_ms)
}

/// The facts about the logs.
pub open spec fn log_facts(s: SummaryView, now_ms: u128, redacted: Seq<char>, elapsed_ms: u128) -> Seq<
    FactView,
> {
    let c = HealthFactCategory::Logs;
    seq![
        derived(c, "logs.present"@, FactValueView::Bool(s.any_file), elapsed_ms),
        derived(
            c,
            "logs.warns_24h"@,
            FactValueView::Unsigned(together(counts(s.core).warns, counts(s.shell).warns)),
            elapsed_ms,
        ),
        derived(
            c,
            "logs.errors_24h"@,
            FactValueView::Unsigned(together(counts(s.core).errors, counts(s.shell).errors)),
            elapsed_ms,
        ),
        derived(
            c,
            "logs.last_write_ms"@,
            FactValueView::Unsigned(as_fact(s.last_write_ms)),
            elapsed_ms,
        ),
        derived(
            c,
            "logs.last_error_ms"@,
            FactValueView::Unsigned(
                match latest_error(s) {
                    Some((ts, _)) => as_fact(ts),
                    None => 0u64,
                },
            ),
            elapsed_ms,
        ),
        derived(c, "logs.stale_24h"@, FactValueView::Bool(silent(s, now_ms)), elapsed_ms),
        derived(
            c,
            "logs.error_sample"@,
            FactValueView::Text(error_sample(s, redacted)),
            elapsed_ms,
        ),
    ]
}

/// The finding for errors in a log.
pub open spec fn errors_finding(kind: LogKind, scan: ScanView, time: Seq<char>, sample: Seq<char>) -> FindingView {
    env_warning(
        "env-logs-errors-"@ + kind.component(),
        MessageId::HealthFindingRecentErrors,
        MessageId::HealthRemediationLogs,
        seq![
            ("count"@, decimal(scan.errors as nat)),
            ("file"@, kind.component() + ".log"@),
            ("time"@, time),
        ],
        if sample.len() > 0 {
            seq!["logs.errors_24h"@, "logs.error_sample"@]
        } else {
            seq!["logs.errors_24h"@]
        },
    )
}

/// The finding for a flood of warnings.
pub open spec fn flood_finding(kind: LogKind, scan: ScanView) -> FindingView {
    env_warning(
        "env-logs-warn-flood-"@ + kind.component(),
        MessageId::HealthFindingWarnFlood,
        MessageId::HealthRemediationLogs,
        seq![("count"@, decimal(scan.warns as nat)), ("file"@, kind.component() + ".log"@)],
        seq!["logs.warns_24h"@],
    )
}

/// The findings about one log. `time` is when its latest error was, as it is
/// shown.
pub open spec fn kind_findings(
    kind: LogKind,
    scan: Option<ScanView>,
    time: Seq<char>,
    sample: Seq<char>,
) -> Seq<FindingView> {
    (if counts(scan).errors > 0 {
        seq![errors_finding(kind, counts(scan), time, sample)]
    } else {
        Seq::empty()
    }) + (if counts(scan).warns > WARN_FLOOD_THRESHOLD {
        seq![flood_finding(kind, counts(scan))]
    } else {
        Seq::empty()
    })
}

fn push_kind(
    findings: &mut Vec<HealthFinding>,
    kind: LogKind,
    scan: &Option<LogScan>,
    time: &str,
    sample: &str,
)
    ensures
        finding_views(final(findings)@) == finding_views(old(findings)@) + kind_findings(
            kind,
            maybe_scan(*scan),
            time@,
            sample@,
        ),
{
    let ghost before = finding_views(findings@);
    let (warns, errors): (u64, u64) = match scan {
        Some(s) => (s.warns, s.errors),
        None => (0, 0),
    };
    let ghost all = counts(maybe_scan(*scan));
    let file = kind.file();
    if errors > 0 {
        let number = decimal_text(errors as u128);
        let mut args = one_arg("count", number.as_str());
        push_arg(&mut args, "file", file.as_str());
        push_arg(&mut args, "time", time);
        let mut evidence = one_text("logs.errors_24h");
        let ghost first = texts(evidence@);
        if !sample.is_empty() {
            evidence.push("logs.error_sample".to_owned());
            assert(texts(evidence@) =~= first.push("logs.error_sample"@));
        }
        let finding = env_finding(
            "env-logs-errors-".to_owned().concat(kind.stem()),
            MessageId::HealthFindingRecentErrors,
            MessageId::HealthRemediationLogs,
            args,
            evidence,
        );
        assert(finding@ =~~= errors_finding(kind, all, time@, sample@)) by {
            assert(named_texts(args@) =~= seq![
                ("count"@, decimal(all.errors as nat)),
                ("file"@, kind.component() + ".log"@),
                ("time"@, time@),
            ]);
            if sample@.len() > 0 {
                assert(texts(evidence@) =~= seq!["logs.errors_24h"@, "logs.error_sample"@]);
            } else {
                assert(texts(evidence@) =~= seq!["logs.errors_24h"@]);
            }
        }
        push_finding(findings, finding);
    }
    let ghost middle = finding_views(findings@);
    if warns > WARN_FLOOD_THRESHOLD {
        let number = decimal_text(warns as u128);
        let mut args = one_arg("count", number.as_str());
        push_arg(&mut args, "file", file.as_str());
        let finding = env_finding(
            "env-logs-warn-flood-".to_owned().concat(kind.stem()),
            MessageId::HealthFindingWarnFlood,
            MessageId::HealthRemediationLogs,
            args,
            one_text("logs.warns_24h"),
        );
        assert(finding@ =~~= flood_finding(kind, all)) by {
            assert(named_texts(args@) =~= seq![
                ("count"@, decimal(all.warns as nat)),
                ("file"@, kind.component() + ".log"@),
            ]);
        }
        push_finding(findings, finding);
    }
    assert(finding_views(findings@) =~= before + kind_findings(
        kind,
        maybe_scan(*scan),
        time@,
        sample@,
    ));
}

/// Collects what the logs say. `redacted` is the line of the latest error with
/// secrets taken out; the times are when the latest error of each log was, as
/// they are shown.
pub fn collect_logs(
    report: &mut HealthScanReport,
    summary: &LogSummary,
    now_ms: u128,
    redacted: &str,
    core_time: &str,
    shell_time: &str,
    elapsed_ms: u128,
)
    ensures
        final(report)@ == old(report)@.recorded(
            log_facts(summary@, now_ms, redacted@, elapsed_ms),
            "logs"@,
            kind_findings(
                LogKind::Core,
                summary@.core,
                core_time@,
                error_sample(summary@, redacted@),
            ) + kind_findings(
                LogKind::Shell,
                summary@.shell,
                shell_time@,
                error_sample(summary@, redacted@),
            ),
        ),
{
    let latest = summary.latest();
    let sample: String = if latest.is_some() {
        shorten(redacted, LOG_SAMPLE_MAX_CHARS)
    } else {
        let empty = String::new();
        assert(empty@ =~= Seq::empty());
        empty
    };
    assert(sample@ == error_sample(summary@, redacted@));
    let last_error_ms: u64 = match &latest {
        Some((ts, _)) => to_fact(*ts),
        None => 0,
    };
    let (core_warns, core_errors): (u64, u64) = match &summary.core {
        Some(s) => (s.warns, s.errors),
        None => (0, 0),
    };
    let (shell_warns, shell_errors): (u64, u64) = match &summary.shell {
        Some(s) => (s.warns, s.errors),
        None => (0, 0),
    };
    let stale: bool = summary.any_file && summary.last_write_ms > 0 && !is_recent(
        summary.last_write_ms,
        now_ms,
    );
    let mut facts: Vec<HealthFact> = Vec::new();
    let c = HealthFactCategory::Logs;
    assert(fact_views(facts@) =~= Seq::empty());
    push_fact(&mut facts, c, "logs.present", HealthFactValue::Bool(summary.any_file), elapsed_ms);
    push_fact(
        &mut facts,
        c,
        "logs.warns_24h",
        HealthFactValue::Unsigned(put_together(core_warns, shell_warns)),
        elapsed_ms,
    );
    push_fact(
        &mut facts,
        c,
        "logs.errors_24h",
        HealthFactValue::Unsigned(put_together(core_errors, shell_errors)),
        elapsed_ms,
    );
    push_fact(
        &mut facts,
        c,
        "logs.last_write_ms",
        HealthFactValue::Unsigned(to_fact(summary.last_write_ms)),
        elapsed_ms,
    );
    push_fact(
        &mut facts,
        c,
        "logs.last_error_ms",
        HealthFactValue::Unsigned(last_error_ms),
        elapsed_ms,
    );
    push_fact(&mut facts, c, "logs.stale_24h", HealthFactValue::Bool(stale), elapsed_ms);
    push_fact(
        &mut facts,
        c,
        "logs.error_sample",
        HealthFactValue::Text(sample.clone()),
        elapsed_ms,
    );
    assert(fact_views(facts@) =~~= log_facts(summary@, now_ms, redacted@, elapsed_ms));
    let mut findings: Vec<HealthFinding> = Vec::new();
    assert(finding_views(findings@) =~= Seq::empty());
    push_kind(&mut findings, LogKind::Core, &summary.core, core_time, sample.as_str());
    push_kind(&mut findings, LogKind::Shell, &summary.shell, shell_time, sample.as_str());
    assert(finding_views(findings@) =~= kind_findings(
        LogKind::Core,
        summary@.core,
        core_time@,
        sample@,
    ) + kind_findings(LogKind::Shell, summary@.shell, shell_time@, sample@));
    report.record(facts, "logs", findings);
}

/// What is left of a log that was cut off starts behind a line break of it: the
/// line that lost its start is never seen.
pub proof fn cut_lines_are_not_seen(text: Seq<char>)
    ensures
        ({
            let left = whole_lines(text, true);
            left.len() > 0 ==> {
                &&& left.len() < text.len()
                &&& text[text.len() - left.len() - 1] == '\n'
                &&& text.skip(text.len() - left.len()) == left
            }
        }),
{
    lemma_first_at(text, '\n');
    let left = whole_lines(text, true);
    if left.len() > 0 {
        assert(text.skip(text.len() - left.len()) =~= left);
    }
}

/// Lines from before the window are as good as not there.
pub proof fn old_lines_do_not_count(scan: ScanView, line: Seq<char>, now_ms: u128)
    requires
        rfc3339_time(first_word(line)) matches Some(time) ==> millis_of(time) < 0 || now_ms
            - millis_of(time) > crate::health::runtime::CRASH_WINDOW_MS,
    ensures
        counted(scan, line, now_ms) == scan,
{
}

} // verus!
