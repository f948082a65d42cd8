//! What holds of the search for an upgrade, of the registry of processes and of
//! the crash log, whatever is answered and recorded.

use vstd::prelude::*;
use vstd::utf8::{decode_utf8, valid_utf8};

use crate::diagnostics::crash::{
    crash_document, kept_tail, log_after, summary_of, CrashReport, MAX_LOG_BYTES,
};
use crate::diagnostics::registry::{
    core_document, no_routing, reaped, rerouted, session_entry, EntryView, SessionFacts,
};
use crate::diagnostics::upgrade::{
    cached_notice, candidate_in, captured, check_enabled, chosen_manager, first_offer, manager_for, manager_verdict,
    maybe_notice, names_package, notice_of, offered, owner_in, path_of, reply_in, reply_verdict,
    search_advanced, search_begun, semver_read, startup_after, system_layout, text_list, user_layout,
    version_in, versions_order,
    CaptureView, DetectionMethod, NoticeView, ProbeMessage, ReplyView, SearchActionView,
    SearchEventView, SearchStage, StartupView, UpgradeCache, UpgradeSearchView, VerdictView,
    VersionOrder, CACHE_VERSION, MAX_PIPE_OUTPUT_BYTES,
};
use crate::health::provider::filled_in;
use crate::login_shell::path::{named_parts, same_components};
use crate::login_shell::table::lemma_first_of;
use crate::record::field;
use crate::text::laws::trimming_takes_the_ends;
use crate::text::{
    after_word, ascii_lowered, first_word, is_space, lines_of, pieces, trimmed, unsigned_in,
};
use crate::tree::{json_read_bytes, Tree};

verus! {

/// What the package manager finds is what the search reports, whatever it is; and
/// if it finds nothing out, nothing is reported.
pub proof fn package_managers_are_believed(s: UpgradeSearchView, verdict: VerdictView)
    ensures
        s.stage == SearchStage::Checking ==> {
            let told = search_advanced(s, SearchEventView::Judged(Some(verdict)));
            let silent = search_advanced(s, SearchEventView::Judged(None));
            &&& told is Some && (told->0).1 == SearchActionView::Finish(
                Some((DetectionMethod::Rpm, verdict)),
            )
            &&& silent is Some && (silent->0).1 == SearchActionView::Finish(None)
        },
        s.stage == SearchStage::CheckingForAnolisa ==> {
            let told = search_advanced(s, SearchEventView::Judged(Some(verdict)));
            let silent = search_advanced(s, SearchEventView::Judged(None));
            &&& told is Some && (told->0).1 == SearchActionView::Finish(
                Some((DetectionMethod::Anolisa, verdict)),
            )
            &&& silent is Some && (silent->0).1 == SearchActionView::Finish(None)
        },
{
}

/// What a component manager finds out is what the search reports. Where it cannot
/// tell, a managed executable is left at that; for a package the package manager is
/// asked, on behalf of the component manager if that gave an answer at all.
pub proof fn component_managers_come_first(s: UpgradeSearchView, verdict: VerdictView)
    requires
        s.wf(),
    ensures
        s.stage == SearchStage::AskingManaged || s.stage == SearchStage::Asking ==> {
            let told = search_advanced(s, SearchEventView::Judged(Some(verdict)));
            &&& told is Some
            &&& !(verdict is Unavailable) ==> (told->0).1 == SearchActionView::Finish(
                Some((DetectionMethod::Anolisa, verdict)),
            )
            &&& verdict is Unavailable && s.stage == SearchStage::AskingManaged ==> (told->0).1
                == SearchActionView::Finish(None)
            &&& verdict is Unavailable && s.stage == SearchStage::Asking ==> (told->0).1
                == SearchActionView::Check(s.package->0, Some("anolisa update cosh-ng"@))
                && (told->0).0.stage == SearchStage::CheckingForAnolisa
        },
        s.stage == SearchStage::AskingManaged ==> {
            let silent = search_advanced(s, SearchEventView::Judged(None));
            silent is Some && (silent->0).1 == SearchActionView::Finish(None)
        },
        s.stage == SearchStage::Asking ==> {
            let silent = search_advanced(s, SearchEventView::Judged(None));
            &&& silent is Some && (silent->0).0.stage == SearchStage::Checking
            &&& (silent->0).1 == SearchActionView::Check(s.package->0, None)
        },
{
}

/// The whole search of a package: its owner is found, no component manager is
/// there, and the package manager of that package decides.
pub proof fn packages_are_checked(executable: Seq<char>, package: Seq<char>, verdict: VerdictView)
    requires
        manager_for(executable) is None,
    ensures
        ({
            let (s0, a0) = search_begun(executable);
            let found = search_advanced(s0, SearchEventView::Owner(Some(package)));
            let alone = search_advanced((found->0).0, SearchEventView::Located(None));
            let end = search_advanced((alone->0).0, SearchEventView::Judged(Some(verdict)));
            &&& a0 is FindOwner
            &&& found is Some && (found->0).1 is Locate
            &&& alone is Some && (alone->0).1 == SearchActionView::Check(package, None)
            &&& end is Some && (end->0).1 == SearchActionView::Finish(
                Some((DetectionMethod::Rpm, verdict)),
            )
            &&& (end->0).0.stage == SearchStage::Finished
        }),
{
}

/// The whole search of a managed executable: its component manager is asked, and
/// only if there is none its owner.
pub proof fn managed_executables_ask_their_manager(
    executable: Seq<char>,
    program: Seq<char>,
    verdict: VerdictView,
)
    requires
        manager_for(executable) is Some,
        !(verdict is Unavailable),
    ensures
        ({
            let (s0, a0) = search_begun(executable);
            let there = search_advanced(s0, SearchEventView::Located(Some(program)));
            let missing = search_advanced(s0, SearchEventView::Located(None));
            let end = search_advanced((there->0).0, SearchEventView::Judged(Some(verdict)));
            &&& a0 == SearchActionView::LocateManaged(manager_for(executable)->0)
            &&& there is Some && (there->0).1 == SearchActionView::Ask(program)
            &&& missing is Some && (missing->0).1 is FindOwner
            &&& end is Some && (end->0).1 == SearchActionView::Finish(
                Some((DetectionMethod::Anolisa, verdict)),
            )
        }),
{
}

/// A component manager that was found is asked, that one and no other, and a
/// package is only checked under the name of its owner.
pub proof fn found_managers_are_asked(s: UpgradeSearchView, path: Seq<char>, package: Seq<char>)
    requires
        s.wf(),
    ensures
        s.stage == SearchStage::Locating ==> {
            let there = search_advanced(s, SearchEventView::Located(Some(path)));
            let missing = search_advanced(s, SearchEventView::Located(None));
            &&& there is Some && (there->0).1 == SearchActionView::Ask(path) && (there->0).0.package
                == s.package
            &&& missing is Some && (missing->0).1 == SearchActionView::Check(s.package->0, None)
        },
        s.stage == SearchStage::FindingOwner ==> {
            let owned = search_advanced(s, SearchEventView::Owner(Some(package)));
            let free = search_advanced(s, SearchEventView::Owner(None));
            &&& owned is Some && (owned->0).1 is Locate && (owned->0).0.package == Some(package)
            &&& free is Some && (free->0).1 == SearchActionView::Finish(None)
        },
        s.stage == SearchStage::Finished ==> search_advanced(s, SearchEventView::Owner(None)) is None
            && search_advanced(s, SearchEventView::Located(None)) is None && search_advanced(
            s,
            SearchEventView::Judged(None),
        ) is None,
{
}

/// A component manager announces exactly what is newer than what runs; what is not
/// newer is up to date, and what cannot be compared cannot be told.
pub proof fn only_newer_targets_are_announced(
    reply: ReplyView,
    component: Seq<char>,
    running: Seq<char>,
)
    ensures
        ({
            let verdict = reply_verdict(reply, component, running);
            let target = reply.to_version;
            let known = target is Some && filled_in(target->0);
            &&& verdict is None <==> !reply.good
            &&& reply.good && reply.plan.len() == 0 ==> verdict == Some(VerdictView::UpToDate)
            &&& reply.good && reply.plan.len() > 0 && known ==> {
                let order = versions_order(target->0, running);
                &&& order == Some(VersionOrder::Newer) <==> verdict->0 is Upgrade
                &&& order is None <==> verdict->0 is Unavailable
                &&& verdict->0 is Upgrade ==> {
                    let notice = verdict->0->Upgrade_0;
                    &&& notice.latest == target->0
                    &&& notice.current == running
                    &&& reply.package is Some ==> notice.package == reply.package->0
                    &&& reply.package is None ==> notice.package == component
                    &&& notice.command == "anolisa update cosh-ng"@
                }
            }
            &&& reply.good && reply.plan.len() > 0 && !known ==> verdict == Some(
                VerdictView::Unavailable,
            )
        }),
{
}

/// An answer is read from its own fields.
pub proof fn answers_are_read_by_field(text: Seq<u8>)
    requires
        reply_in(text) is Some,
    ensures
        ({
            let reply = reply_in(text)->0;
            let ok = field(text, "ok"@, 0, 2);
            let data = field(text, "data"@, 1, 2);
            &&& ok is Held && json_read_bytes(ok->Held_0) == Some(Tree::Bool(reply.good))
            &&& data is Held
            &&& ({
                let package = field(data->Held_0, "package"@, 0, 3);
                &&& !(package is Unreadable)
                &&& reply.package is Some ==> package is Held && json_read_bytes(package->Held_0)
                    == Some(Tree::Text(reply.package->0))
                &&& package is Missing ==> reply.package is None
            })
            &&& ({
                let version = field(data->Held_0, "to_version"@, 1, 3);
                &&& !(version is Unreadable)
                &&& reply.to_version is Some ==> version is Held && json_read_bytes(version->Held_0)
                    == Some(Tree::Text(reply.to_version->0))
                &&& version is Missing ==> reply.to_version is None
            })
            &&& field(data->Held_0, "plan"@, 2, 3) is Held
        }),
{
}

/// A package manager that exits with 0 has nothing newer; with 100 it names what it
/// has, and that is announced as it is; any other exit tells nothing.
pub proof fn exit_codes_decide(
    status: Option<i32>,
    stdout: Seq<u8>,
    package: Seq<char>,
    running: Seq<char>,
    manager: Seq<char>,
    command: Option<Seq<char>>,
)
    ensures
        ({
            let verdict = manager_verdict(status, stdout, package, running, manager, command);
            let offer = candidate_in(stdout, package);
            &&& status == Some(0i32) ==> verdict == Some(VerdictView::UpToDate)
            &&& status == Some(100i32) ==> (verdict is Some <==> offer is Some)
            &&& status == Some(100i32) && offer is Some ==> {
                &&& verdict->0 is Upgrade
                &&& verdict->0->Upgrade_0.latest == offer->0
                &&& verdict->0->Upgrade_0.package == package
                &&& verdict->0->Upgrade_0.current == running
                &&& command is Some ==> verdict->0->Upgrade_0.command == command->0
                &&& command is None ==> verdict->0->Upgrade_0.command == "sudo "@ + manager
                    + " update "@ + package
            }
            &&& status != Some(0i32) && status != Some(100i32) ==> verdict is None
        }),
{
}

/// The version that is offered comes from the first line that names the package,
/// with or without its architecture, and a version.
pub proof fn the_first_fitting_line_counts(all: Seq<Seq<char>>, package: Seq<char>)
    ensures
        match first_offer(all, package) {
            Some(version) => exists|i: int|
                0 <= i < all.len() && #[trigger] offered(all[i], package) == Some(version) && forall|
                    j: int,
                |
                    0 <= j < i ==> #[trigger] offered(all[j], package) is None,
            None => forall|i: int| 0 <= i < all.len() ==> #[trigger] offered(all[i], package) is None,
        },
    decreases all.len(),
{
    if all.len() > 0 {
        if offered(all[0], package) is Some {
            assert(offered(all[0], package) == first_offer(all, package));
        } else {
            let rest = all.skip(1);
            the_first_fitting_line_counts(rest, package);
            if first_offer(rest, package) is Some {
                let i = choose|i: int|
                    0 <= i < rest.len() && #[trigger] offered(rest[i], package) == first_offer(
                        rest,
                        package,
                    ) && forall|j: int| 0 <= j < i ==> #[trigger] offered(rest[j], package) is None;
                assert(rest[i] == all[i + 1]);
                assert forall|j: int| 0 <= j < i + 1 implies #[trigger] offered(all[j], package) is None by {
                    if j > 0 {
                        assert(rest[j - 1] == all[j]);
                    }
                }
                assert(offered(all[i + 1], package) == first_offer(all, package));
            } else {
                assert forall|i: int| 0 <= i < all.len() implies #[trigger] offered(all[i], package) is None by {
                    if i > 0 {
                        assert(rest[i - 1] == all[i]);
                    }
                }
            }
        }
    }
}

/// A line offers its second word for the package that its first word names.
pub proof fn lines_offer_their_second_word(line: Seq<char>, package: Seq<char>)
    ensures
        offered(line, package) is Some <==> first_word(line).len() > 0 && names_package(
            first_word(line),
            package,
        ) && first_word(after_word(line)).len() > 0,
        offered(line, package) is Some ==> offered(line, package)->0 == first_word(after_word(line)),
{
}

/// A name stands for a package with whatever architecture, but for no other package
/// whose name only begins alike.
pub proof fn names_stand_for_their_package(package: Seq<char>, rest: Seq<char>)
    ensures
        names_package(package, package),
        names_package(package + seq!['.'] + rest, package),
        rest.len() > 0 && rest[0] != '.' ==> !names_package(package + rest, package),
{
    let dotted = package + seq!['.'] + rest;
    assert(dotted.subrange(0, package.len() as int) =~= package);
    assert(dotted[package.len() as int] == '.');
    let other = package + rest;
    if rest.len() > 0 {
        assert(other[package.len() as int] == rest[0]);
        assert(other.len() != package.len());
    }
}

/// Only the one package counts as an owner.
pub proof fn only_the_own_package_counts(stdout: Seq<u8>)
    ensures
        owner_in(stdout) matches Some(name) ==> name == "cosh-ng"@,
        owner_in(stdout) is Some <==> valid_utf8(stdout) && trimmed(decode_utf8(stdout)) == "cosh-ng"@,
{
}

/// Only an executable in one of the two layouts has a component manager: in the
/// `bin` directory of the same installation.
pub proof fn managers_belong_to_their_installation(executable: Seq<char>)
    ensures
        ({
            let parts = named_parts(pieces(executable, '/'));
            let n = parts.len() as int;
            let system = n >= 6 && parts.skip(n - 6) == seq![
                "usr"@,
                "local"@,
                "libexec"@,
                "anolisa"@,
                "cosh-ng"@,
                "cosh-shell"@,
            ];
            let user = n >= 6 && parts.skip(n - 6) == seq![
                ".local"@,
                "lib"@,
                "anolisa"@,
                "libexec"@,
                "cosh-ng"@,
                "cosh-shell"@,
            ];
            &&& manager_for(executable) is Some <==> system || user
            &&& system ==> manager_for(executable) == Some(
                path_of(executable, parts.take(n - 4) + seq!["bin"@, "anolisa"@]),
            )
            &&& user ==> manager_for(executable) == Some(
                path_of(executable, parts.take(n - 5) + seq!["bin"@, "anolisa"@]),
            )
        }),
{
    reveal_strlit("usr");
    reveal_strlit(".local");
    assert(system_layout()[0] == "usr"@ && user_layout()[0] == ".local"@);
    assert("usr"@.len() == 3 && ".local"@.len() == 6);
}

/// What a search found is announced at the next start of the same executable, as
/// long as it is newer than what runs then.
pub proof fn found_upgrades_are_announced_later(
    cache: UpgradeCache,
    notice: NoticeView,
    executable: Seq<char>,
    running: Seq<char>,
)
    requires
        cache.version == CACHE_VERSION,
        same_components(cache.executable@, executable),
        maybe_notice(cache.notice) == notice_of(VerdictView::Upgrade(notice)),
        filled_in(notice.package),
        filled_in(notice.latest),
        filled_in(notice.command),
    ensures
        versions_order(notice.latest, running) == Some(VersionOrder::Newer) ==> cached_notice(
            cache,
            executable,
            running,
        ) == Some(NoticeView { current: running, ..notice }),
        versions_order(notice.latest, running) != Some(VersionOrder::Newer) ==> cached_notice(
            cache,
            executable,
            running,
        ) is None,
{
}

/// A verdict is kept as the notice that it holds, and nothing else is one.
pub proof fn only_upgrades_are_notices(verdict: VerdictView)
    ensures
        verdict matches VerdictView::Upgrade(notice) ==> notice_of(verdict) == Some(notice),
        !(verdict is Upgrade) ==> notice_of(verdict) is None,
{
}

/// A cache of another version, of another executable or without a notice announces
/// nothing.
pub proof fn foreign_caches_announce_nothing(
    cache: UpgradeCache,
    executable: Seq<char>,
    running: Seq<char>,
)
    requires
        cache.version != CACHE_VERSION || !same_components(cache.executable@, executable)
            || cache.notice is None,
    ensures
        cached_notice(cache, executable, running) is None,
{
}

/// Looking for upgrades goes on unless one of four words switched it off.
pub proof fn only_four_words_switch_the_check_off(value: Option<Seq<char>>)
    ensures
        value is None ==> check_enabled(value),
        value is Some ==> {
            let word = ascii_lowered(trimmed(value->0));
            !check_enabled(value) <==> word == "off"@ || word == "0"@ || word == "false"@ || word
                == "no"@
        },
{
}

/// A search that is under way gives the banner its answer when it comes, and none
/// if it has gone.
pub proof fn answers_reach_the_banner(s: StartupView, message: ProbeMessage)
    requires
        s.pending,
        s.resolved is None,
    ensures
        ({
            let next = startup_after(s, message);
            &&& message matches ProbeMessage::Ready(n) ==> next.resolved == Some(maybe_notice(n))
                && !next.pending
            &&& message is Nothing ==> next == s
            &&& message is Gone ==> next.resolved is None && !next.pending
            &&& next.rendered == s.rendered
        }),
        startup_after(StartupView { pending: false, ..s }, message) == (StartupView {
            pending: false,
            ..s
        }),
{
}

/// All that a command printed is kept up to the limit, and what goes beyond is
/// noticed.
pub proof fn output_is_kept_up_to_the_limit(c: CaptureView, bytes: Seq<u8>)
    requires
        c.output.len() <= MAX_PIPE_OUTPUT_BYTES,
    ensures
        ({
            let next = captured(c, bytes);
            let fits = c.output.len() + bytes.len() <= MAX_PIPE_OUTPUT_BYTES;
            &&& fits ==> next.output == c.output + bytes && next.truncated == c.truncated
            &&& !fits ==> next.truncated && next.output.len() == MAX_PIPE_OUTPUT_BYTES
            &&& next.output.take(c.output.len() as int) == c.output
        }),
{
    let next = captured(c, bytes);
    assert(next.output.take(c.output.len() as int) =~= c.output);
}

/// The entry of a session says what the session was recorded with.
pub proof fn entries_say_what_was_recorded(facts: SessionFacts)
    ensures
        ({
            let entry = session_entry(facts);
            &&& entry.kind == "shell"@
            &&& entry.pid == facts.pid && entry.ppid == Some(facts.ppid)
            &&& entry.version == facts.version@ && entry.start_ts_ms == facts.start_ts_ms
            &&& entry.shell_kind == Some(facts.shell_kind@)
            &&& entry.session_id == Some(facts.session_id@)
            &&& entry.core_pid is None && entry.owner_shell_pid is None
            &&& entry.routing is Some
            &&& entry.routing->0.ai_enabled == facts.ai_enabled
            &&& entry.routing->0.integration == facts.integration@
            &&& entry.routing->0.assistance_enabled == Some(facts.assistance_enabled)
            &&& entry.routing->0.marker_generation is None
        }),
{
}

/// An update of the routing changes what it names and nothing else, and the last
/// update of each counts.
pub proof fn routing_updates_change_what_they_name(
    entry: EntryView,
    assisted: bool,
    generation: u64,
)
    ensures
        ({
            let before = match entry.routing {
                Some(r) => r,
                None => no_routing(),
            };
            let first = rerouted(entry, Some(assisted), None).routing;
            let second = rerouted(entry, None, Some(generation)).routing;
            &&& first is Some && second is Some
            &&& first->0.assistance_enabled == Some(assisted)
            &&& first->0.marker_generation == before.marker_generation
            &&& second->0.marker_generation == Some(generation)
            &&& second->0.assistance_enabled == before.assistance_enabled
            &&& first->0.ai_enabled == before.ai_enabled && second->0.ai_enabled
                == before.ai_enabled
            &&& first->0.integration == before.integration && second->0.integration
                == before.integration
            &&& first->0.last_route == before.last_route && second->0.last_route
                == before.last_route
        }),
        rerouted(rerouted(entry, Some(assisted), None), None, Some(generation)) == rerouted(
            entry,
            Some(assisted),
            Some(generation),
        ),
        rerouted(rerouted(entry, Some(!assisted), None), Some(assisted), None) == rerouted(
            entry,
            Some(assisted),
            None,
        ),
{
}

/// The document of a core says who it is, and whose it is where that is a number.
pub proof fn core_documents_say_who_they_are(
    pid: u32,
    version: Seq<char>,
    start_ts_ms: u64,
    mode: Seq<char>,
    session_id: Seq<char>,
    owner: Option<Seq<char>>,
)
    ensures
        ({
            let tree = core_document(pid, version, start_ts_ms, mode, session_id, owner);
            &&& tree.text_at("kind"@) == Some("core"@)
            &&& tree.member("pid"@) == Some(Tree::Int(pid as int))
            &&& tree.text_at("version"@) == Some(version)
            &&& tree.member("start_ts_ms"@) == Some(Tree::Int(start_ts_ms as int))
            &&& tree.text_at("mode"@) == Some(mode)
            &&& tree.text_at("session_id"@) == Some(session_id)
            &&& owner is Some && unsigned_in(owner->0, u32::MAX as int) is Some ==> tree.member(
                "owner_shell_pid"@,
            ) == Some(Tree::Int(unsigned_in(owner->0, u32::MAX as int)->0))
            &&& owner is None || unsigned_in(owner->0, u32::MAX as int) is None ==> tree.member(
                "owner_shell_pid"@,
            ) == Some(Tree::Null)
        }),
{
    reveal_strlit("kind");
    reveal_strlit("pid");
    reveal_strlit("version");
    reveal_strlit("start_ts_ms");
    reveal_strlit("mode");
    reveal_strlit("session_id");
    reveal_strlit("owner_shell_pid");
    assert("kind"@.len() == 4 && "pid"@.len() == 3 && "version"@.len() == 7 && "start_ts_ms"@.len()
        == 11 && "mode"@.len() == 4 && "session_id"@.len() == 10 && "owner_shell_pid"@.len() == 15);
    assert("kind"@[0] == 'k' && "mode"@[0] == 'm');
}

/// A crash record says what panicked, where and when.
pub proof fn crash_records_say_what_happened(report: CrashReport)
    ensures
        ({
            let tree = crash_document(report);
            &&& tree.member("ts"@) == Some(Tree::Int(report.ts as int))
            &&& tree.text_at("version"@) == Some(report.version@)
            &&& tree.member("pid"@) == Some(Tree::Int(report.pid as int))
            &&& tree.text_at("panic"@) == Some(report.panic@)
            &&& report.location is Some ==> tree.text_at("location"@) == Some(report.location->0@)
            &&& report.location is None ==> tree.member("location"@) == Some(Tree::Null)
            &&& tree.member("backtrace"@) is Some && tree.member("backtrace"@)->0 is List
            &&& tree.member("backtrace"@)->0->List_0.len() == report.backtrace@.len()
        }),
{
    reveal_strlit("ts");
    reveal_strlit("version");
    reveal_strlit("pid");
    reveal_strlit("panic");
    reveal_strlit("location");
    reveal_strlit("backtrace");
    assert("ts"@.len() == 2 && "version"@.len() == 7 && "pid"@.len() == 3 && "panic"@.len() == 5
        && "location"@.len() == 8 && "backtrace"@.len() == 9);
}

/// A backtrace is cut behind its first eight lines.
pub proof fn backtraces_are_cut(backtrace: Seq<char>)
    ensures
        summary_of(backtrace).len() == (if lines_of(backtrace).len() < 8 {
            lines_of(backtrace).len()
        } else {
            8
        }),
        forall|i: int|
            0 <= i < summary_of(backtrace).len() ==> #[trigger] summary_of(backtrace)[i] == lines_of(
                backtrace,
            )[i],
{
}

/// Nothing of the log is lost while it fits.
pub proof fn fitting_logs_are_kept_whole(existing: Seq<u8>, line: Seq<u8>)
    requires
        existing.len() + line.len() <= MAX_LOG_BYTES,
    ensures
        log_after(existing, line) == existing + line,
{
}

/// A log that has to shrink keeps every whole line of its second half: what goes is
/// no more than one line longer than the first half.
pub proof fn shrinking_keeps_the_second_half(existing: Seq<u8>)
    requires
        valid_utf8(existing),
        existing.len() > MAX_LOG_BYTES / 2,
    ensures
        ({
            let kept = kept_tail(existing);
            let from = existing.len() - MAX_LOG_BYTES / 2;
            &&& kept.len() < MAX_LOG_BYTES / 2
            &&& forall|i: int| from <= i < existing.len() - kept.len() - 1 ==> existing[i] != 10
        }),
{
    let from = existing.len() - MAX_LOG_BYTES / 2;
    let rest = existing.skip(from);
    lemma_first_of(rest, 10);
    let kept = kept_tail(existing);
    assert forall|i: int| from <= i < existing.len() - kept.len() - 1 implies existing[i] != 10 by {
        assert(rest[i - from] == existing[i]);
    }
}

/// A version is read without the white space around it and without a leading `v`.
pub proof fn versions_may_have_a_letter(text: Seq<char>)
    requires
        text.len() > 0,
        !is_space(text[0]),
        !is_space(text.last()),
    ensures
        text[0] != 'v' ==> version_in(seq!['v'] + text) == version_in(text),
        text[0] != 'v' ==> version_in(text) == semver_read(text),
        version_in(seq![' '] + text + seq!['\n']) == version_in(text),
{
    let none = Seq::<char>::empty();
    trimming_takes_the_ends(none, text, none);
    assert(none + text + none =~= text);
    trimming_takes_the_ends(seq![' '], text, seq!['\n']);
    let marked = seq!['v'] + text;
    assert(marked.last() == text.last());
    trimming_takes_the_ends(none, marked, none);
    assert(none + marked + none =~= marked);
    assert(marked.skip(1) =~= text);
}

/// A list of texts is read whole, or not at all.
pub proof fn lists_are_read_whole(items: Seq<Tree>)
    ensures
        text_list(items) is Some <==> forall|i: int| 0 <= i < items.len() ==> #[trigger] items[i] is Text,
        text_list(items) matches Some(found) ==> found.len() == items.len() && forall|i: int|
            0 <= i < items.len() ==> #[trigger] items[i] == Tree::Text(found[i]),
    decreases items.len(),
{
    if items.len() > 0 {
        let rest = items.drop_last();
        lists_are_read_whole(rest);
        assert(forall|i: int| 0 <= i < rest.len() ==> rest[i] == items[i]);
        if text_list(rest) is None {
            let i = choose|i: int| 0 <= i < rest.len() && !(#[trigger] rest[i] is Text);
            assert(!(items[i] is Text));
        } else if !(items.last() is Text) {
            assert(!(items[items.len() - 1] is Text));
        }
    }
}

/// A configured component manager is asked, whatever else was found; without one, what
/// was found is.
pub proof fn configured_managers_win(configured: Seq<char>, found: Option<Seq<char>>)
    ensures
        chosen_manager(Some(configured), found) == Some(configured),
        chosen_manager(None, found) == found,
{
}

/// The entry of a process that runs is never removed, and that of a dead one only
/// after a week.
pub proof fn only_old_dead_entries_are_removed(start: u128, now: u128)
    ensures
        !reaped(start, true, now),
        reaped(start, false, now) <==> now - start > 604_800_000,
{
}

} // verus!
