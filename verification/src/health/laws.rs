//! What holds of every health report: what is found, what is passed over, and how
//! it is summed up.

use vstd::prelude::*;

use crate::clock::{rfc3339_time, UtcTime};
use crate::diagnostics::registry::EntryView;
use crate::health::collect::{collected, EnvironmentScan};
use crate::health::doctor::{
    all_finding_lines, checks_lines, closing_lines, collector_name, core_parts, crash_parts,
    crashes_text, errors_part, exit_code_for,    finding_keys, finding_lines, first_shell, minute_of, opening_lines, or_missing, reason_message, remedy_for,
    report_lines, routing_text, severity_of, shell_parts, status_for, summary_of, unavailable_line,
    unavailable_lines, worst_first, CrashTime, DoctorHeader, DoctorStatus,
};
use crate::health::environment::{
    config_findings, consumable, file_status, hook_findings, meaningful, permission_findings,
    pty_findings, recognized, simple_key, ConfigFileStatus,
};
use crate::health::kernel::{
    confinement_finding, confinement_findings, fact_of, leading_number, supports, version_of,
};
use crate::health::logs::{
    counted, counted_all, counts, error_sample, header_in, kind_findings, last_of, latest_error,
    log_facts, millis_of, no_lines, summary_with, together, whole_lines, LogFile, LogKind,
    ScanView, SummaryView,
};
use crate::health::model::{
    value_of, worse, worst_finding, worst_unavailable, FactValueView, FactView, FindingView,
    HealthSeverity, HealthView, UnavailableCollector,
};
use crate::health::provider::{
    active_entry, active_provider, credentials, document_in, field_present, filled_in,
    provider_findings, readiness, toml_read, value_present, variable, AdapterKind,
    ProviderReadiness,
};
use crate::health::runtime::{
    by_pid, component, core_label, core_labels, crash_findings, crash_in, crash_keys, crash_of, crashes_in,
    is_orphan, lives, oldest_first, orphan_finding, orphan_findings, probe_keys, probe_views,
    recent, shell_label, shell_labels, shortened, stale_finding, stale_findings, CrashSighting, CrashView,
    ProbeView,
};
use crate::i18n::{catalog, filled, Language, MessageId};
use crate::login_shell::path::same_components;
use crate::order::{key_le, order_of, orders_go_up, orders_hold_every_item};
use crate::text::{
    after_word, decimal, first_at, first_word, lemma_first_at_is, lines_of, opt_view, pieces, texts,
    trimmed,
};
use crate::tree::{json_read, Tree};

verus! {

/// A line of a log counts exactly if it has a time within the last day and one of
/// two levels; then it counts at its own level and time.
pub proof fn recent_lines_count_at_their_level(line: Seq<char>, time: UtcTime, now_ms: u128)
    requires
        rfc3339_time(first_word(line)) == Some(time),
    ensures
        ({
            let level = first_word(after_word(line));
            let fits = millis_of(time) >= 0 && now_ms - millis_of(time) <= 86_400_000;
            &&& fits && level == "ERROR"@ ==> header_in(line, now_ms) == Some(
                (true, millis_of(time) as u128),
            )
            &&& fits && level == "WARN"@ ==> header_in(line, now_ms) == Some(
                (false, millis_of(time) as u128),
            )
            &&& !fits || (level != "ERROR"@ && level != "WARN"@) ==> header_in(line, now_ms) is None
        }),
{
    reveal_strlit("ERROR");
    reveal_strlit("WARN");
    assert("ERROR"@.len() == 5 && "WARN"@.len() == 4);
}

/// How many of the lines count, at this level.
pub open spec fn lines_at(all: Seq<Seq<char>>, error: bool, now_ms: u128) -> nat {
    all.filter(
        |line: Seq<char>| header_in(line, now_ms) is Some && (header_in(line, now_ms)->0).0 == error,
    ).len()
}

/// Errors and warnings are counted line by line, each for itself, and the error
/// that is kept is the latest.
pub proof fn lines_are_counted_one_by_one(scan: ScanView, all: Seq<Seq<char>>, now_ms: u128)
    requires
        scan.errors + all.len() <= u64::MAX,
        scan.warns + all.len() <= u64::MAX,
    ensures
        counted_all(scan, all, now_ms).errors == scan.errors + lines_at(all, true, now_ms),
        counted_all(scan, all, now_ms).warns == scan.warns + lines_at(all, false, now_ms),
        forall|i: int|
            0 <= i < all.len() && header_in(#[trigger] all[i], now_ms) is Some && (header_in(
                all[i],
                now_ms,
            )->0).0 ==> counted_all(scan, all, now_ms).last_error is Some && (counted_all(
                scan,
                all,
                now_ms,
            ).last_error->0).0 >= (header_in(all[i], now_ms)->0).1,
        scan.last_error matches Some((ts, _)) ==> counted_all(scan, all, now_ms).last_error is Some
            && (counted_all(scan, all, now_ms).last_error->0).0 >= ts,
    decreases all.len(),
{
    reveal(Seq::filter);
    if all.len() > 0 {
        let rest = all.drop_last();
        lines_are_counted_one_by_one(scan, rest, now_ms);
        all_lines_len(rest, true, now_ms);
        all_lines_len(rest, false, now_ms);
        let before = counted_all(scan, rest, now_ms);
        let after = counted_all(scan, all, now_ms);
        assert(after == counted(before, all.last(), now_ms));
        assert forall|i: int|
            0 <= i < all.len() && header_in(#[trigger] all[i], now_ms) is Some && (header_in(
                all[i],
                now_ms,
            )->0).0 implies after.last_error is Some && (after.last_error->0).0 >= (header_in(
            all[i],
            now_ms,
        )->0).1 by {
            if i < rest.len() {
                assert(rest[i] == all[i]);
            }
        }
    }
}

proof fn all_lines_len(all: Seq<Seq<char>>, error: bool, now_ms: u128)
    ensures
        lines_at(all, error, now_ms) <= all.len(),
{
    all.filter_lemma(
        |line: Seq<char>| header_in(line, now_ms) is Some && (header_in(line, now_ms)->0).0 == error,
    );
}

/// A log is read whole unless its start was cut off; then it is read from the first
/// line on that is whole.
pub proof fn cut_logs_start_at_a_line(head: Seq<char>, rest: Seq<char>)
    requires
        forall|i: int| 0 <= i < head.len() ==> head[i] != '\n',
    ensures
        whole_lines(rest, false) == rest,
        whole_lines(head + seq!['\n'] + rest, true) == rest,
        whole_lines(head, true).len() == 0,
{
    let text = head + seq!['\n'] + rest;
    lemma_first_at_is(text, '\n', head.len() as int);
    assert(text.skip(head.len() as int + 1) =~= rest);
    lemma_first_at_is(head, '\n', head.len() as int);
}

/// A file counts for its own log, with its own lines, and the last write of any file
/// is the last one.
pub proof fn files_count_for_their_log(s: SummaryView, file: LogFile, now_ms: u128)
    ensures
        ({
            let after = summary_with(s, file, now_ms);
            &&& after.any_file
            &&& file.kind is Core ==> after.shell == s.shell && after.core == Some(
                counted_all(counts(s.core), lines_of(file.text@), now_ms),
            )
            &&& file.kind is Shell ==> after.core == s.core && after.shell == Some(
                counted_all(counts(s.shell), lines_of(file.text@), now_ms),
            )
            &&& after.last_write_ms >= s.last_write_ms
            &&& file.written_ms is Some ==> after.last_write_ms >= file.written_ms->0
            &&& after.last_write_ms == s.last_write_ms || file.written_ms == Some(after.last_write_ms)
        }),
{
}

/// The latest error is that of one of the logs, and none is later.
pub proof fn the_latest_error_is_the_latest(s: SummaryView)
    ensures
        latest_error(s) is Some <==> last_of(s.core) is Some || last_of(s.shell) is Some,
        latest_error(s) is Some ==> latest_error(s) == last_of(s.core) || latest_error(s) == last_of(
            s.shell,
        ),
        last_of(s.core) is Some ==> (latest_error(s)->0).0 >= (last_of(s.core)->0).0,
        last_of(s.shell) is Some ==> (latest_error(s)->0).0 >= (last_of(s.shell)->0).0,
{
}

/// A log with an error is a finding, and one with more than a hundred warnings; each
/// names the log and the number. A log without is none.
pub proof fn noisy_logs_are_findings(
    kind: LogKind,
    scan: Option<ScanView>,
    time: Seq<char>,
    sample: Seq<char>,
)
    ensures
        ({
            let found = kind_findings(kind, scan, time, sample);
            let errors = counts(scan).errors;
            let warns = counts(scan).warns;
            &&& found.len() == (if errors > 0 {
                1int
            } else {
                0
            }) + (if warns > 100 {
                1int
            } else {
                0
            })
            &&& errors > 0 ==> {
                &&& found[0].title_id == MessageId::HealthFindingRecentErrors
                &&& found[0].severity == HealthSeverity::Warning
                &&& found[0].detail_args.contains(("count"@, decimal(errors as nat)))
                &&& found[0].detail_args.contains(("time"@, time))
                &&& found[0].detail_args.contains(("file"@, kind.component() + ".log"@))
            }
            &&& warns > 100 ==> {
                &&& found.last().title_id == MessageId::HealthFindingWarnFlood
                &&& found.last().severity == HealthSeverity::Warning
                &&& found.last().detail_args.contains(("count"@, decimal(warns as nat)))
                &&& found.last().detail_args.contains(("file"@, kind.component() + ".log"@))
            }
            &&& counts(None) == no_lines()
        }),
{
    let found = kind_findings(kind, scan, time, sample);
    if counts(scan).errors > 0 {
        assert(found[0].detail_args[0].0 == "count"@);
        assert(found[0].detail_args[1].0 == "file"@);
        assert(found[0].detail_args[2].0 == "time"@);
    }
    if counts(scan).warns > 100 {
        assert(found.last().detail_args[0].0 == "count"@);
        assert(found.last().detail_args[1].0 == "file"@);
    }
}

/// The facts about the logs add both logs up.
pub proof fn log_facts_add_up(s: SummaryView, now_ms: u128, redacted: Seq<char>, elapsed_ms: u128)
    ensures
        ({
            let facts = log_facts(s, now_ms, redacted, elapsed_ms);
            &&& facts.len() == 7
            &&& facts[0].key == "logs.present"@ && facts[0].value == FactValueView::Bool(s.any_file)
            &&& facts[1].key == "logs.warns_24h"@ && facts[1].value == FactValueView::Unsigned(
                together(counts(s.core).warns, counts(s.shell).warns),
            )
            &&& facts[2].key == "logs.errors_24h"@ && facts[2].value == FactValueView::Unsigned(
                together(counts(s.core).errors, counts(s.shell).errors),
            )
            &&& facts[5].key == "logs.stale_24h"@ && facts[5].value == FactValueView::Bool(
                s.any_file && s.last_write_ms > 0 && now_ms - s.last_write_ms > 86_400_000,
            )
            &&& facts[6].key == "logs.error_sample"@ && facts[6].value == FactValueView::Text(
                error_sample(s, redacted),
            )
        }),
        counts(s.core).errors + counts(s.shell).errors <= u64::MAX ==> together(
            counts(s.core).errors,
            counts(s.shell).errors,
        ) == counts(s.core).errors + counts(s.shell).errors,
        latest_error(s) is None ==> error_sample(s, redacted).len() == 0,
        latest_error(s) is Some && redacted.len() <= 200 ==> error_sample(s, redacted) == redacted,
{
}

/// A text that fits is shown whole; a longer one is cut and says so.
pub proof fn long_texts_are_cut(text: Seq<char>, limit: int)
    requires
        0 <= limit,
    ensures
        text.len() <= limit ==> shortened(text, limit) == text,
        text.len() > limit ==> shortened(text, limit).len() == limit + 1 && shortened(
            text,
            limit,
        ).take(limit) == text.take(limit) && shortened(text, limit).last() == '\u{2026}',
{
    reveal_strlit("…");
    assert("…"@.len() == 1 && "…"@[0] == '\u{2026}');
    if text.len() > limit {
        assert(shortened(text, limit).take(limit) =~= text.take(limit));
    }
}

/// A record counts exactly within the last day, with its own time and message.
pub proof fn recent_crashes_count(document: Tree, kind: Seq<char>, ts: u64, now_ms: u128)
    requires
        document.u64_at("ts"@) == Some(ts),
    ensures
        crash_of(document, kind, now_ms) is Some <==> now_ms - ts <= 86_400_000,
        crash_of(document, kind, now_ms) matches Some(c) ==> c.kind == kind && c.ts_ms == ts && (
        document.text_at("panic"@) is Some ==> c.panic == document.text_at("panic"@)->0),
        recent(ts as u128, now_ms) <==> now_ms - ts <= 86_400_000,
{
}

/// Every line of a crash log that is a recent record counts, once and in order;
/// other lines are passed over.
pub proof fn every_recent_crash_counts(all: Seq<Seq<char>>, line: Seq<char>, kind: Seq<char>, now_ms: u128)
    ensures
        crashes_in(all.push(line), kind, now_ms) == (match crash_in(line, kind, now_ms) {
            Some(c) => crashes_in(all, kind, now_ms).push(c),
            None => crashes_in(all, kind, now_ms),
        }),
        crashes_in(Seq::empty(), kind, now_ms).len() == 0,
        json_read(line) is None ==> crash_in(line, kind, now_ms) is None,
        json_read(line) matches Some(document) ==> crash_in(line, kind, now_ms) == crash_of(
            document,
            kind,
            now_ms,
        ),
{
    assert(all.push(line).drop_last() =~= all);
}

/// Crashes are told from the oldest on, and none is lost.
pub proof fn crashes_are_told_in_time(v: Seq<CrashView>, i: int, j: int)
    requires
        0 <= i < j < v.len(),
    ensures
        oldest_first(v).len() == v.len(),
        oldest_first(v)[i].ts_ms <= oldest_first(v)[j].ts_ms,
        oldest_first(v).contains(v[i]),
{
    let keys = crash_keys(v);
    orders_go_up(keys);
    orders_hold_every_item(keys, i);
    let order = order_of(keys);
    assert(key_le(keys[order[i]], keys[order[j]]));
    let at = choose|k: int| 0 <= k < order.len() && order[k] == i;
    assert(oldest_first(v)[at] == v[i]);
}

/// Processes are told by their number, and none is lost.
pub proof fn processes_are_told_by_number(v: Seq<ProbeView>, i: int, j: int)
    requires
        0 <= i < j < v.len(),
    ensures
        by_pid(v).len() == v.len(),
        by_pid(v)[i].entry.pid <= by_pid(v)[j].entry.pid,
        by_pid(v).contains(v[i]),
{
    let keys = probe_keys(v);
    orders_go_up(keys);
    orders_hold_every_item(keys, i);
    let order = order_of(keys);
    assert(key_le(keys[order[i]], keys[order[j]]));
    let at = choose|k: int| 0 <= k < order.len() && order[k] == i;
    assert(by_pid(v)[at] == v[i]);
}

/// A core that runs is an orphan exactly if it is not brokered and no shell that
/// runs owns it.
pub proof fn orphans_have_no_shell(p: ProbeView)
    ensures
        is_orphan(p) <==> p.alive && p.entry.kind == "core"@ && p.entry.mode != Some("brokered"@) && !(
        p.entry.owner_shell_pid is Some && p.owner_alive),
        lives(p, "shell"@) <==> p.alive && p.entry.kind == "shell"@,
{
}

/// One more process adds a finding exactly if it is an orphan, and another exactly
/// if it has ended; each names it.
pub proof fn processes_are_judged_one_by_one(ps: Seq<ProbeView>, p: ProbeView)
    ensures
        orphan_findings(ps.push(p)) == (if is_orphan(p) {
            orphan_findings(ps).push(orphan_finding(p))
        } else {
            orphan_findings(ps)
        }),
        stale_findings(ps.push(p)) == (if p.alive {
            stale_findings(ps)
        } else {
            stale_findings(ps).push(stale_finding(p))
        }),
        shell_labels(ps.push(p)).len() == shell_labels(ps).len() + (if p.alive && p.entry.kind
            == "shell"@ {
            1int
        } else {
            0
        }),
        core_labels(ps.push(p)).len() == core_labels(ps).len() + (if p.alive && p.entry.kind == "core"@ {
            1int
        } else {
            0
        }),
        orphan_findings(Seq::empty()).len() == 0 && stale_findings(Seq::empty()).len() == 0,
        shell_labels(Seq::empty()).len() == 0 && core_labels(Seq::empty()).len() == 0,
        orphan_finding(p).detail_args.contains(("pid"@, decimal(p.entry.pid as nat))),
        stale_finding(p).detail_args.contains(("pid"@, decimal(p.entry.pid as nat))),
        stale_finding(p).detail_args.contains(("time"@, p.started)),
        orphan_finding(p).severity == HealthSeverity::Warning,
        stale_finding(p).severity == HealthSeverity::Warning,
        orphan_finding(p).title_id == MessageId::HealthFindingOrphanCore,
        stale_finding(p).title_id == MessageId::HealthFindingStaleEntry,
{
    assert(ps.push(p).drop_last() =~= ps);
    assert(orphan_finding(p).detail_args[0].0 == "pid"@);
    assert(stale_finding(p).detail_args[1].0 == "pid"@);
    assert(stale_finding(p).detail_args[2].0 == "time"@);
}

/// Every crash is a critical finding of its own that says what crashed and when.
pub proof fn crashes_are_critical(crashes: Seq<CrashSighting>, i: int)
    requires
        0 <= i < crashes.len(),
    ensures
        crash_findings(crashes).len() == crashes.len(),
        ({
            let found = crash_findings(crashes)[i];
            &&& found.severity == HealthSeverity::Critical
            &&& found.title_id == MessageId::HealthFindingCrash
            &&& found.detail_args.contains(("kind"@, crashes[i].record.kind@))
            &&& found.detail_args.contains(("time"@, crashes[i].time@))
            &&& found.detail_args.contains(("panic"@, shortened(crashes[i].redacted@, 120)))
        }),
{
    let found = crash_findings(crashes)[i];
    assert(found.detail_args[0].0 == "kind"@);
    assert(found.detail_args[1].0 == "panic"@);
    assert(found.detail_args[2].0 == "time"@);
}

/// Only the cores are cores.
pub proof fn components_are_told_apart(kind: Seq<char>)
    ensures
        component("core"@) == "cosh-core"@,
        kind != "core"@ ==> component(kind) == "cosh-shell"@,
{
}

/// A configuration is a finding exactly if there is no home, it cannot be read or it
/// cannot be used; the first of these that holds is the remedy.
pub proof fn unusable_configurations_are_findings(home_present: bool, status: ConfigFileStatus)
    ensures
        ({
            let found = config_findings(home_present, status);
            &&& found.len() == 0 <==> home_present && status.readable && status.parseable
            &&& found.len() <= 1
            &&& !home_present ==> found[0].detail_id == Some(MessageId::HealthRemediationConfig)
            &&& home_present && !status.readable ==> found[0].detail_id == Some(
                MessageId::HealthRemediationConfigUnreadable,
            )
            &&& home_present && status.readable && !status.parseable ==> found[0].detail_id == Some(
                MessageId::HealthRemediationConfigInvalid,
            )
            &&& found.len() > 0 ==> found[0].title_id == MessageId::HealthFindingConfigUnavailable
                && found[0].severity == HealthSeverity::Warning
        }),
{
}

/// A missing configuration is in order, one that cannot be read is not, and one that
/// can is in order if it can be used.
pub proof fn configurations_are_judged_by_content(text: Seq<char>)
    ensures
        file_status(None) == (ConfigFileStatus { readable: true, parseable: true }),
        file_status(Some(None)) == (ConfigFileStatus { readable: false, parseable: false }),
        file_status(Some(Some(text))) == (ConfigFileStatus {
            readable: true,
            parseable: consumable(text),
        }),
        toml_read(text) is Some ==> consumable(text),
        (exists|i: int| 0 <= i < lines_of(text).len() && recognized(#[trigger] lines_of(text)[i]))
            ==> consumable(text),
        toml_read(text) is None && (forall|i: int|
            0 <= i < lines_of(text).len() ==> !recognized(#[trigger] lines_of(text)[i])) && (exists|
            i: int,
        |
            0 <= i < lines_of(text).len() && meaningful(#[trigger] lines_of(text)[i]))
            ==> !consumable(text),
{
}

/// A simple line is recognized by its key, whatever white space is around it;
/// comments never are.
pub proof fn lines_are_recognized_by_key(line: Seq<char>)
    ensures
        ({
            let text = trimmed(line);
            &&& text.len() == 0 || text[0] == '#' ==> !meaningful(line) && !recognized(line)
            &&& text.len() > 0 && text[0] != '#' ==> meaningful(line)
            &&& meaningful(line) && first_at(text, '=') < text.len() ==> (recognized(line)
                <==> simple_key(trimmed(text.take(first_at(text, '=')))))
            &&& first_at(text, '=') >= text.len() ==> !recognized(line)
        }),
        simple_key("shell.default"@),
        simple_key("ui.language"@),
        simple_key("health.enabled"@),
        !simple_key(Seq::empty()),
{
    reveal_strlit("shell.default");
    reveal_strlit("shell.analysis_mode");
    reveal_strlit("shell.approval_mode");
    reveal_strlit("shell.adapter_default");
    reveal_strlit("shell.trusted_command");
    reveal_strlit("shell.trusted_project_root");
    reveal_strlit("ui.language");
    reveal_strlit("ui.startup_banner");
    reveal_strlit("ui.startup_hooks");
    reveal_strlit("ui.debug");
    reveal_strlit("ui.log_level");
    reveal_strlit("health.enabled");
    reveal_strlit("health.role");
    reveal_strlit("health.memory_sensitive");
    reveal_strlit("health.verbose");
    let none = Seq::<char>::empty();
    assert("shell.default"@.len() > 0 && "shell.analysis_mode"@.len() > 0 && "shell.approval_mode"@.len()
        > 0 && "shell.adapter_default"@.len() > 0 && "shell.trusted_command"@.len() > 0
        && "shell.trusted_project_root"@.len() > 0 && "ui.language"@.len() > 0 && "ui.startup_banner"@.len()
        > 0 && "ui.startup_hooks"@.len() > 0 && "ui.debug"@.len() > 0 && "ui.log_level"@.len() > 0
        && "health.enabled"@.len() > 0 && "health.role"@.len() > 0 && "health.memory_sensitive"@.len() > 0
        && "health.verbose"@.len() > 0);
}

/// The hooks of a project are a finding exactly if the project is not trusted; the
/// finding names it.
pub proof fn untrusted_hooks_are_findings(project: Option<Seq<char>>, roots: Seq<Seq<char>>)
    ensures
        ({
            let found = hook_findings(project, roots);
            &&& found.len() == 0 <==> project is None || exists|i: int|
                0 <= i < roots.len() && same_components(#[trigger] roots[i], project->0)
            &&& found.len() > 0 ==> found[0].detail_args == seq![("path"@, project->0)]
                && found[0].title_id == MessageId::HealthFindingHooksUntrusted && found[0].severity
                == HealthSeverity::Warning
        }),
{
}

/// A missing terminal device and a directory that cannot be written are findings, and
/// nothing else about them is.
pub proof fn missing_means_are_findings(path: Seq<char>, available: bool)
    ensures
        pty_findings(available).len() == 0 <==> available,
        !available ==> pty_findings(available)[0].title_id == MessageId::HealthFindingPtyUnavailable,
        permission_findings(path, available).len() == 0 <==> available,
        !available ==> permission_findings(path, available)[0].title_id
            == MessageId::HealthFindingPermissionsUnwritable && permission_findings(
            path,
            available,
        )[0].detail_args == seq![("path"@, path)],
{
}

/// A kernel supports confinement from 5.6 on; one whose version cannot be read is
/// not judged.
pub proof fn kernels_are_judged_by_version(release: Seq<char>)
    ensures
        ({
            let fields = pieces(trimmed(release), '.');
            let major = leading_number(fields[0]);
            let minor = if fields.len() > 1 {
                leading_number(fields[1])
            } else {
                None
            };
            &&& supports(release) is None <==> major is None
            &&& major is Some && minor is Some ==> version_of(release) == Some((major->0, minor->0))
            &&& major is Some && minor is None ==> version_of(release) == Some((major->0, 0int))
            &&& version_of(release) matches Some((a, b)) ==> (supports(release) == Some(true)
                <==> a >= 6 || (a == 5 && b >= 6))
        }),
        confinement_finding(Some(release)).severity == HealthSeverity::Critical,
        confinement_finding(Some(release)).detail_args[0] == ("kernel"@, release),
{
}

/// The fake adapter is always ready, an unknown one never, and any other exactly if
/// it has credentials; what is not ready is a finding that names the adapter.
pub proof fn unready_providers_are_findings(adapter: Seq<char>, present: bool)
    ensures
        ({
            let kind = AdapterKind::named(adapter);
            let found = provider_findings(adapter, present);
            &&& kind is None ==> readiness(adapter, present) == ProviderReadiness::UnknownAdapter
            &&& kind == Some(AdapterKind::Fake) ==> readiness(adapter, present)
                == ProviderReadiness::Ready
            &&& kind is Some && kind != Some(AdapterKind::Fake) ==> readiness(adapter, present) == (
            if present {
                ProviderReadiness::Ready
            } else {
                ProviderReadiness::MissingCredentials
            })
            &&& found.len() == 0 <==> readiness(adapter, present) == ProviderReadiness::Ready
            &&& found.len() > 0 ==> found[0].title_id
                == MessageId::HealthFindingProviderUnconfigured && found[0].severity
                == HealthSeverity::Warning
            &&& found.len() > 0 && adapter.len() > 0 ==> found[0].detail_args == seq![
                ("adapter"@, adapter),
            ]
            &&& found.len() > 0 ==> found[0].detail_id == Some(
                if kind is None {
                    MessageId::HealthRemediationUnknownAdapter
                } else {
                    MessageId::HealthRemediationProvider
                },
            )
        }),
{
}

/// Credentials come from the environment or from the entry in use; an Aliyun entry
/// takes no API key, and a key alone is no credential of it.
pub proof fn credentials_fit_their_provider(
    adapter: Seq<char>,
    env: Map<Seq<char>, Seq<char>>,
    document: Tree,
    entry: Tree,
)
    requires
        AdapterKind::named(adapter) == Some(AdapterKind::CoshCore),
        active_entry(document, env) == Some(entry),
    ensures
        ({
            let found = credentials(adapter, env, Some(document));
            let kind = entry.text_at("type"@);
            let key = filled_in(variable(env, "DASHSCOPE_API_KEY"@)) || filled_in(
                variable(env, "OPENAI_API_KEY"@),
            ) || field_present(entry, "api_key"@, env);
            let pair = (filled_in(variable(env, "ALIBABA_CLOUD_ACCESS_KEY_ID"@)) && filled_in(
                variable(env, "ALIBABA_CLOUD_ACCESS_KEY_SECRET"@),
            )) || (field_present(entry, "access_key_id"@, env) && field_present(
                entry,
                "access_key_secret"@,
                env,
            )) || entry.text_at("auth_source"@) == Some("ecs_ram_role"@);
            &&& kind == Some("aliyun"@) ==> (found <==> pair)
            &&& kind == Some("mock"@) ==> found
            &&& kind != Some("aliyun"@) && kind != Some("mock"@) ==> (found <==> key)
        }),
{
    reveal_strlit("generic");
    reveal_strlit("aliyun");
    reveal_strlit("mock");
    assert("generic"@.len() == 7 && "aliyun"@.len() == 6 && "mock"@.len() == 4);
}

/// The provider in use is the one that the environment names, else the configured
/// one, else the default.
pub proof fn providers_in_use_have_an_order(document: Tree, env: Map<Seq<char>, Seq<char>>, ai: Tree)
    requires
        document.member("ai"@) == Some(ai),
    ensures
        ({
            let named = variable(env, "COSH_AI_PROVIDER"@);
            let configured = ai.text_at("active_provider"@);
            &&& filled_in(named) ==> active_provider(document, env) == named
            &&& !filled_in(named) && configured is Some ==> active_provider(document, env)
                == configured->0
            &&& !filled_in(named) && configured is None ==> active_provider(document, env)
                == "default"@
        }),
{
}

/// A configured value counts if it is not blank, and if it names a variable, only if
/// that one is not blank.
pub proof fn named_variables_count(name: Seq<char>, env: Map<Seq<char>, Seq<char>>, raw: Seq<char>)
    ensures
        !filled_in(raw) ==> !value_present(raw, env),
        trimmed(raw).len() > 0 && trimmed(raw)[0] != '$' && trimmed(trimmed(raw)).len() > 0
            ==> value_present(raw, env),
        trimmed(raw) == seq!['$'] + name && (name.len() == 0 || name[0] != '{') ==> (value_present(
            raw,
            env,
        ) <==> filled_in(variable(env, name))),
        trimmed(raw) == seq!['$', '{'] + name + seq!['}'] ==> (value_present(raw, env) <==> filled_in(
            variable(env, name),
        )),
{
    reveal_strlit("${");
    assert("${"@ =~= seq!['$', '{']);
    let t = trimmed(raw);
    if t == seq!['$'] + name {
        assert(t.skip(1) =~= name);
        if name.len() > 0 && name[0] != '{' {
            assert(t[1] == name[0]);
            assert(t.subrange(0, 2)[1] == t[1]);
        }
    }
    if t == seq!['$', '{'] + name + seq!['}'] {
        assert(t.subrange(0, 2) =~= "${"@);
        assert(t.subrange(2, t.len() - 1) =~= name);
    }
}

/// A healthy surrounding has no finding.
pub proof fn healthy_surroundings_have_no_finding(r: HealthView, s: EnvironmentScan, elapsed_ms: u128)
    requires
        readiness(
            trimmed(s.summary.adapter_default@),
            credentials(
                trimmed(s.summary.adapter_default@),
                s.env@,
                document_in(opt_view(s.config)),
            ),
        ) is Ready,
        s.home_present,
        s.config_status.readable,
        s.config_status.parseable,
        s.project is None,
        s.pty_available,
        s.state_dir_writable,
        s.probes@.len() == 0,
        s.crashes@.len() == 0,
        s.logs@.core is None,
        s.logs@.shell is None,
    ensures
        collected(r, s, elapsed_ms).findings == r.findings,
        collected(r, s, elapsed_ms).unavailable == r.unavailable,
{
    let ps = by_pid(probe_views(s.probes@));
    assert(ps =~= Seq::empty());
    assert(crash_findings(s.crashes@) =~= Seq::empty());
    assert(collected(r, s, elapsed_ms).findings =~= r.findings);
}

/// Whatever one of the checks finds is in the report, check by check.
pub proof fn findings_reach_the_report(r: HealthView, s: EnvironmentScan, elapsed_ms: u128)
    ensures
        ({
            let adapter = trimmed(s.summary.adapter_default@);
            let present = credentials(adapter, s.env@, document_in(opt_view(s.config)));
            let ps = by_pid(probe_views(s.probes@));
            let sample = error_sample(s.logs@, s.redacted_error@);
            collected(r, s, elapsed_ms).findings == r.findings + provider_findings(adapter, present)
                + config_findings(s.home_present, s.config_status) + hook_findings(
                opt_view(s.project),
                texts(s.trusted_roots@),
            ) + pty_findings(s.pty_available) + permission_findings(
                s.state_dir@,
                s.state_dir_writable,
            ) + (orphan_findings(ps) + stale_findings(ps) + crash_findings(s.crashes@)) + (
            kind_findings(LogKind::Core, s.logs@.core, s.core_error_time@, sample) + kind_findings(
                LogKind::Shell,
                s.logs@.shell,
                s.shell_error_time@,
                sample,
            ))
        }),
{
}

/// The worse of two is one of them, and neither is worse than it; critical is the
/// worst, and healthy the best.
pub proof fn severities_have_an_order(a: HealthSeverity, b: HealthSeverity)
    ensures
        worse(a, b) == a || worse(a, b) == b,
        worse(a, b).rank() >= a.rank() && worse(a, b).rank() >= b.rank(),
        worse(a, b) == worse(b, a),
        HealthSeverity::Healthy.rank() < HealthSeverity::Unavailable.rank(),
        HealthSeverity::Unavailable.rank() < HealthSeverity::Warning.rank(),
        HealthSeverity::Warning.rank() < HealthSeverity::Critical.rank(),
{
}

/// The worst of the findings is that of one of them, and a report without any is
/// healthy.
pub proof fn the_worst_finding_is_one_of_them(findings: Seq<FindingView>)
    ensures
        findings.len() == 0 ==> worst_finding(findings) == HealthSeverity::Healthy,
        worst_finding(findings) != HealthSeverity::Healthy ==> exists|i: int|
            0 <= i < findings.len() && (#[trigger] findings[i]).severity == worst_finding(findings),
    decreases findings.len(),
{
    if findings.len() > 0 {
        let rest = findings.drop_last();
        the_worst_finding_is_one_of_them(rest);
        if worst_finding(findings) != HealthSeverity::Healthy {
            if worst_finding(findings) == findings.last().severity {
                assert(findings[findings.len() - 1].severity == worst_finding(findings));
            } else {
                let i = choose|i: int|
                    0 <= i < rest.len() && (#[trigger] rest[i]).severity == worst_finding(rest);
                assert(findings[i].severity == worst_finding(findings));
            }
        }
    }
}

/// What could not be checked counts by its own severity.
pub proof fn unavailable_checks_count(items: Seq<UnavailableCollector>, item: UnavailableCollector)
    ensures
        worst_unavailable(items.push(item)) == worse(worst_unavailable(items), item.severity),
        worst_unavailable(Seq::empty()) == HealthSeverity::Healthy,
{
    assert(items.push(item).drop_last() =~= items);
}

/// A report is healthy exactly if nothing in it is worse, and an error exactly if
/// something is critical.
pub proof fn the_status_is_that_of_the_worst(report: HealthView)
    ensures
        ({
            let worst = severity_of(report);
            &&& worst.rank() >= worst_finding(report.findings).rank()
            &&& worst.rank() >= worst_unavailable(report.unavailable).rank()
            &&& status_for(worst) == DoctorStatus::Healthy <==> worst == HealthSeverity::Healthy
            &&& status_for(worst) == DoctorStatus::Error <==> worst == HealthSeverity::Critical
            &&& report.findings.len() == 0 && report.unavailable.len() == 0 ==> status_for(worst)
                == DoctorStatus::Healthy
        }),
{
}

/// The first argument of a name is its value.
pub proof fn arguments_are_found_by_name(
    args: Seq<(Seq<char>, Seq<char>)>,
    name: Seq<char>,
    value: Seq<char>,
)
    ensures
        value_of(seq![(name, value)] + args, name) == Some(value),
        (forall|i: int| 0 <= i < args.len() ==> (#[trigger] args[i]).0 != name) ==> value_of(args, name)
            is None,
    decreases args.len(),
{
    let more = seq![(name, value)] + args;
    assert(more[0] == (name, value));
    if args.len() > 0 && (forall|i: int| 0 <= i < args.len() ==> (#[trigger] args[i]).0 != name) {
        assert(args[0].0 != name);
        let rest = args.skip(1);
        assert forall|i: int| 0 <= i < rest.len() implies (#[trigger] rest[i]).0 != name by {
            assert(rest[i] == args[i + 1]);
        }
        arguments_are_found_by_name(rest, name, value);
    }
}

/// A check adds its facts and findings behind those that are there, and takes nothing
/// away.
pub proof fn checks_only_add(
    report: HealthView,
    facts: Seq<FactView>,
    check: Seq<char>,
    findings: Seq<FindingView>,
)
    ensures
        ({
            let after = report.recorded(facts, check, findings);
            &&& after.facts == report.facts + facts
            &&& after.findings == report.findings + findings
            &&& after.checks_done == report.checks_done.push(check)
            &&& after.unavailable == report.unavailable
        }),
{
}

/// The findings are told from the worst on, and none is lost.
pub proof fn the_worst_finding_comes_first(v: Seq<FindingView>, i: int, j: int)
    requires
        0 <= i < j < v.len(),
    ensures
        worst_first(v).len() == v.len(),
        worst_first(v)[i].severity.rank() >= worst_first(v)[j].severity.rank(),
        worst_first(v).contains(v[i]),
        worst_first(v).contains(v[j]),
{
    let keys = finding_keys(v);
    orders_go_up(keys);
    orders_hold_every_item(keys, i);
    orders_hold_every_item(keys, j);
    let order = order_of(keys);
    assert(key_le(keys[order[i]], keys[order[j]]));
    let at = choose|k: int| 0 <= k < order.len() && order[k] == i;
    assert(worst_first(v)[at] == v[i]);
    let to = choose|k: int| 0 <= k < order.len() && order[k] == j;
    assert(worst_first(v)[to] == v[j]);
}

/// A finding is told by its severity, its title and its remedy, if it has one.
pub proof fn findings_are_told_with_their_remedy(f: FindingView, language: Language)
    ensures
        ({
            let told = finding_lines(f, language);
            &&& told.len() == (if f.detail_id is Some {
                2int
            } else {
                1
            })
            &&& told[0] == "["@ + f.severity.name() + "] "@ + filled(
                catalog(language, f.title_id),
                f.detail_args,
            )
            &&& f.detail_id is Some ==> remedy_for(f, language) == Some(
                filled(catalog(language, f.detail_id->0), f.detail_args),
            ) && told[1] == "  "@ + catalog(language, MessageId::DoctorRemediationLabel) + ": "@
                + remedy_for(f, language)->0
            &&& f.detail_id is None ==> remedy_for(f, language) is None
        }),
{
}

/// One more finding is told behind the others.
pub proof fn every_finding_is_told(v: Seq<FindingView>, f: FindingView, language: Language)
    ensures
        all_finding_lines(v.push(f), language) == all_finding_lines(v, language) + finding_lines(
            f,
            language,
        ),
        all_finding_lines(Seq::empty(), language).len() == 0,
{
    assert(v.push(f).drop_last() =~= v);
}

/// A report begins with its status, tells every finding and what could not be
/// checked, and ends with what to do.
pub proof fn reports_tell_everything(header: DoctorHeader, report: HealthView, language: Language, i: int)
    ensures
        ({
            let told = report_lines(header, report, language);
            let opening = opening_lines(header, report, language);
            let findings = all_finding_lines(worst_first(report.findings), language);
            &&& told[0] == catalog(language, MessageId::DoctorTitle)
            &&& told[1] == catalog(language, MessageId::DoctorStatusLabel) + ": "@ + status_for(
                severity_of(report),
            ).word()
            &&& 0 <= i < findings.len() ==> told.contains(findings[i])
            &&& 0 <= i < report.unavailable.len() ==> told.contains(
                unavailable_line(report.unavailable[i], language),
            )
            &&& told.len() >= closing_lines(report, language).len()
            &&& told.last() == (if report.findings.len() == 0 && report.unavailable.len() == 0 {
                catalog(language, MessageId::DoctorAllHealthy)
            } else {
                catalog(language, MessageId::DoctorExportHint)
            })
        }),
{
    let told = report_lines(header, report, language);
    let opening = opening_lines(header, report, language);
    let checks = checks_lines(report.checks_done, language);
    let findings = all_finding_lines(worst_first(report.findings), language);
    let missing = unavailable_lines(report.unavailable, language);
    let closing = closing_lines(report, language);
    assert(told == opening + checks + findings + missing + closing);
    assert(told[0] == opening[0] && told[1] == opening[1]);
    if 0 <= i < findings.len() {
        assert(told[opening.len() + checks.len() + i] == findings[i]);
    }
    if 0 <= i < report.unavailable.len() {
        assert(told[opening.len() + checks.len() + findings.len() + i] == missing[i]);
    }
    assert(told.last() == closing.last());
}

/// What could not be checked is told by its name and the reason.
pub proof fn missing_checks_are_told(item: UnavailableCollector, language: Language)
    ensures
        unavailable_line(item, language) == "["@ + item.severity.name() + "] "@ + collector_name(
            item.collector,
        ) + ": "@ + catalog(language, reason_message(item.reason)),
{
}

/// One more process is told with the shells or with the cores exactly if it runs.
pub proof fn running_processes_are_told(ps: Seq<ProbeView>, p: ProbeView)
    ensures
        shell_parts(ps.push(p)).len() == shell_parts(ps).len() + (if p.alive && p.entry.kind
            == "shell"@ {
            1int
        } else {
            0
        }),
        core_parts(ps.push(p)).len() == core_parts(ps).len() + (if p.alive && p.entry.kind == "core"@ {
            1int
        } else {
            0
        }),
        p.alive && p.entry.kind == "shell"@ ==> shell_parts(ps.push(p)).last() == "pid "@ + decimal(
            p.entry.pid as nat,
        ),
        shell_parts(Seq::empty()).len() == 0 && core_parts(Seq::empty()).len() == 0,
        summary_of(Seq::empty()).len() == 0,
{
    assert(ps.push(p).drop_last() =~= ps);
    assert(Seq::<Seq<char>>::empty() + Seq::<Seq<char>>::empty() =~= Seq::empty());
}

/// Routing is told of the first shell that runs, and said to be unknown where there
/// is none.
pub proof fn routing_is_that_of_a_running_shell(ps: Seq<ProbeView>, language: Language)
    ensures
        match first_shell(ps) {
            Some(entry) => exists|i: int|
                0 <= i < ps.len() && #[trigger] lives(ps[i], "shell"@) && ps[i].entry == entry && forall|
                    k: int,
                |
                    0 <= k < i ==> !#[trigger] lives(ps[k], "shell"@),
            None => (forall|i: int| 0 <= i < ps.len() ==> !#[trigger] lives(ps[i], "shell"@))
                && routing_text(ps, language) == catalog(language, MessageId::DoctorRoutingUnavailable),
        },
    decreases ps.len(),
{
    if ps.len() > 0 {
        if lives(ps[0], "shell"@) {
            assert(first_shell(ps) == Some(ps[0].entry));
        } else {
            let rest = ps.skip(1);
            routing_is_that_of_a_running_shell(rest, language);
            if first_shell(rest) is Some {
                let i = choose|i: int|
                    0 <= i < rest.len() && #[trigger] lives(rest[i], "shell"@) && rest[i].entry
                        == first_shell(rest)->0 && forall|k: int|
                        0 <= k < i ==> !#[trigger] lives(rest[k], "shell"@);
                assert(rest[i] == ps[i + 1]);
                assert(lives(ps[i + 1], "shell"@));
                assert forall|k: int| 0 <= k < i + 1 implies !#[trigger] lives(ps[k], "shell"@) by {
                    if k > 0 {
                        assert(rest[k - 1] == ps[k]);
                    }
                }
            } else {
                assert forall|i: int| 0 <= i < ps.len() implies !#[trigger] lives(ps[i], "shell"@) by {
                    if i > 0 {
                        assert(rest[i - 1] == ps[i]);
                    }
                }
            }
        }
    }
}

/// The time of day is what follows the date, down to the minute.
pub proof fn times_are_told_to_the_minute(date: Seq<char>, time: Seq<char>)
    requires
        forall|i: int| 0 <= i < date.len() ==> date[i] != ' ',
    ensures
        time.len() >= 5 ==> minute_of(date + seq![' '] + time) == time.take(5),
        minute_of(date) == date,
{
    let label = date + seq![' '] + time;
    lemma_first_at_is(label, ' ', date.len() as int);
    assert(label.skip(date.len() as int + 1) =~= time);
    assert(time.len() == 5 ==> time.take(5) =~= time);
    lemma_first_at_is(date, ' ', date.len() as int);
}

/// A log is told with its number of errors, and with the time of the latest if it has
/// one; a log without a file is not told.
pub proof fn logs_are_told_with_their_errors(kind: LogKind, scan: ScanView, time: Seq<char>)
    ensures
        errors_part(kind, None, time).len() == 0,
        errors_part(kind, Some(scan), time).len() == 1,
        scan.last_error is Some ==> errors_part(kind, Some(scan), time)[0] == decimal(
            scan.errors as nat,
        ) + " ("@ + kind.short() + ", last "@ + time + ")"@,
        scan.last_error is None ==> errors_part(kind, Some(scan), time)[0] == decimal(
            scan.errors as nat,
        ) + " ("@ + kind.short() + ")"@,
{
}

/// The entry in use stands under the providers of the configuration, by its name.
pub proof fn entries_stand_under_the_providers(
    document: Tree,
    ai: Tree,
    providers: Tree,
    env: Map<Seq<char>, Seq<char>>,
)
    requires
        document.member("ai"@) == Some(ai),
        ai.member("providers"@) == Some(providers),
    ensures
        active_entry(document, env) == providers.member(active_provider(document, env)),
{
}

/// The names of the adapters; `ClaudeCode` may be written with other capitals.
pub proof fn adapters_have_their_names(name: Seq<char>)
    ensures
        AdapterKind::named("fake"@) == Some(AdapterKind::Fake),
        AdapterKind::named("cosh-core"@) == Some(AdapterKind::CoshCore),
        AdapterKind::named("qwen-cli"@) == Some(AdapterKind::QwenCli),
        AdapterKind::named("qwen"@) == Some(AdapterKind::QwenCli),
        name != "fake"@ && name != "cosh-core"@ && name != "qwen"@ && name != "qwen-cli"@ ==> (
        AdapterKind::named(name) is None || AdapterKind::named(name) == Some(AdapterKind::ClaudeCode)),
{
    reveal_strlit("fake");
    reveal_strlit("cosh-core");
    reveal_strlit("qwen");
    reveal_strlit("qwen-cli");
    assert("fake"@[0] == 'f' && "cosh-core"@[0] == 'c' && "qwen"@[0] == 'q' && "qwen-cli"@[0] == 'q');
    assert("qwen"@.len() == 4 && "qwen-cli"@.len() == 8);
}

/// Processes are labelled by their number, shells with their kind and cores with
/// their session.
pub proof fn labels_name_the_process(entry: EntryView)
    ensures
        entry.shell_kind matches Some(kind) ==> shell_label(entry) == decimal(entry.pid as nat) + " ("@
            + kind + ")"@,
        entry.session_id matches Some(id) ==> (id.len() > 0 ==> core_label(entry) == decimal(
            entry.pid as nat,
        ) + " (session "@ + id + ")"@),
        entry.session_id is None ==> core_label(entry) == decimal(entry.pid as nat),
{
}

/// What a report found out of the kernel is what its finding names.
pub proof fn kernel_findings_name_the_release(facts: Seq<FactView>, release: Seq<char>)
    requires
        fact_of(facts, "kernel.release"@) == Some(FactValueView::Text(release)),
    ensures
        fact_of(facts, "kernel.openat2_supported"@) == Some(FactValueView::Bool(false))
            ==> confinement_findings(facts) == seq![confinement_finding(Some(release))],
        fact_of(facts, "kernel.openat2_supported"@) != Some(FactValueView::Bool(false))
            ==> confinement_findings(facts).len() == 0,
{
}

/// Crashes are told by their number and, if there are any, by what and when.
pub proof fn crashes_are_told_by_number(crashes: Seq<CrashTime>, language: Language)
    ensures
        crashes.len() == 0 ==> crashes_text(crashes, language) == filled(
            catalog(language, MessageId::DoctorCrashesLine),
            seq![("count"@, decimal(0)), ("detail"@, Seq::empty())],
        ),
        crashes.len() == 1 ==> crashes_text(crashes, language) == filled(
            catalog(language, MessageId::DoctorCrashesLine),
            seq![
                ("count"@, decimal(1)),
                ("detail"@, " ("@ + (crashes[0].kind@ + ", "@ + crashes[0].time@) + ")"@),
            ],
        ),
        or_missing(None) == "n/a"@,
{
    if crashes.len() == 1 {
        assert(crash_parts(crashes)[0] == crashes[0].kind@ + ", "@ + crashes[0].time@);
    }
}

/// The status is told by its own word, and a severity by its name.
pub proof fn statuses_have_their_words()
    ensures
        DoctorStatus::Healthy.word() == "healthy"@,
        DoctorStatus::Warning.word() == "warning"@,
        DoctorStatus::Error.word() == "error"@,
        HealthSeverity::Healthy.name() == "ok"@,
        HealthSeverity::Unavailable.name() == "unavailable"@,
        HealthSeverity::Warning.name() == "warning"@,
        HealthSeverity::Critical.name() == "critical"@,
{
}

/// A healthy report ends well, a critical one worst.
pub proof fn exit_codes_tell_the_status(report: HealthView)
    ensures
        exit_code_for(status_for(severity_of(report))) == 0 <==> severity_of(report)
            == HealthSeverity::Healthy,
        exit_code_for(status_for(severity_of(report))) == 2 <==> severity_of(report)
            == HealthSeverity::Critical,
        exit_code_for(status_for(severity_of(report))) == 1 <==> severity_of(report)
            == HealthSeverity::Warning || severity_of(report) == HealthSeverity::Unavailable,
{
}

} // verus!
