//! What holds of management runs as a whole, whatever the system answers.

use vstd::prelude::*;

use crate::login_shell::accounts::{account_in, accounts_in, agree, AccountView};
use crate::login_shell::cli::{code_of, request_view, ErrorCode, LoginShellCommand};
use crate::login_shell::error::{ErrorView, IoKind};
use crate::login_shell::manage::{
    accepted_paths_are_entries, account_for, found_state, is_user_name, means_no_access, named,
    request_fault,
    selection, table_entry, table_outcome, users_of, AccessAnswer, Operation, ReportView,
    RequestView, SelectionView, TableStepView,
};
use crate::login_shell::manager::{
    advanced, begun, ActionView, EventView, ManagerView, Stage,
};
use crate::login_shell::path::{
    absolute, accepted, component_count, dotted, entry_for, last_separator, misread, named_parts,
    path_in, same_components, same_path_is_an_equivalence, shorn, starts_here,
};
use crate::login_shell::storage::{names_in, strays};
use crate::login_shell::table::{
    ended, entry_of, first_of, is_blank, is_entry, lemma_first_of, lemma_first_of_is, listed,
    registering_lists_the_entry, removing_nothing_changes_nothing, removing_unlists_the_entry,
    stripped_end, stripped_start, unlisted, with_entry,
};
use crate::text::{is_ascii_alnum, joined, opt_view, pieces, unsigned_in};

verus! {

/// A request that names no account never fails for want of one. A request that
/// names one is about the only account of that name: it fails where there is none,
/// and where there are several.
pub proof fn accounts_are_found_by_name(all: Seq<AccountView>, user: Option<Seq<char>>)
    ensures
        user is None ==> account_for(all, user) == Ok::<Option<AccountView>, ErrorView>(None),
        user is Some ==> {
            let fitting = all.filter(|a: AccountView| a.name == user->0);
            &&& account_for(all, user) is Ok <==> fitting.len() == 1
            &&& fitting.len() == 1 ==> account_for(all, user) == Ok::<Option<AccountView>, ErrorView>(
                Some(fitting[0]),
            )
            &&& fitting.len() == 0 ==> (account_for(all, user) matches Err(ErrorView::Invalid(_)))
            &&& fitting.len() > 1 ==> (account_for(all, user) matches Err(ErrorView::Conflict(_)))
        },
{
    if user is Some {
        lemma_named(all, user->0);
    }
}

proof fn lemma_named(all: Seq<AccountView>, user: Seq<char>)
    ensures
        named(all, user) == all.filter(|a: AccountView| a.name == user),
    decreases all.len(),
{
    reveal(Seq::filter);
    if all.len() > 0 {
        lemma_named(all.drop_last(), user);
    } else {
        assert(named(all, user) =~= all.filter(|a: AccountView| a.name == user));
    }
}

/// The accounts that use a shell are all those whose shell is the same path, and
/// no others.
pub proof fn users_are_told_by_their_shell(all: Seq<AccountView>, shell: Seq<char>)
    ensures
        users_of(all, shell) == all.filter(|a: AccountView| same_components(a.shell, shell)).map_values(
            |a: AccountView| a.name,
        ),
    decreases all.len(),
{
    reveal(Seq::filter);
    let uses = |a: AccountView| same_components(a.shell, shell);
    let name = |a: AccountView| a.name;
    if all.len() > 0 {
        users_are_told_by_their_shell(all.drop_last(), shell);
        let rest = all.drop_last().filter(uses);
        assert(rest.push(all.last()).map_values(name) =~= rest.map_values(name).push(all.last().name));
    } else {
        assert(users_of(all, shell) =~= all.filter(uses).map_values(name));
    }
}

/// The request of a registration.
pub open spec fn registration(shell: Seq<char>) -> RequestView {
    RequestView {
        operation: Operation::Register,
        shell,
        user: None,
        expect_shell: None,
        restore_shell: None,
        dry_run: false,
        if_missing: false,
    }
}

/// The request of a removal.
pub open spec fn removal(shell: Seq<char>) -> RequestView {
    RequestView { operation: Operation::Unregister, ..registration(shell) }
}

/// A run from its start over these answers to its last action.
pub open spec fn run_of(r: RequestView, root: bool, answers: Seq<EventView>) -> (
    ManagerView,
    ActionView,
)
    decreases answers.len(),
{
    if answers.len() == 0 {
        begun(r, root)
    } else {
        advanced(run_of(r, root, answers.drop_last()).0, answers.last())
    }
}

proof fn lemma_run_step(r: RequestView, root: bool, answers: Seq<EventView>, last: EventView)
    ensures
        run_of(r, root, answers.push(last)) == advanced(run_of(r, root, answers).0, last),
{
    assert(answers.push(last).drop_last() =~= answers);
}

proof fn lemma_run_up_to_the_table(
    r: RequestView,
    table: Seq<u8>,
    all: Seq<AccountView>,
    resolved: Option<Seq<char>>,
)
    ensures
        ({
            let none = Seq::<EventView>::empty();
            let locked = none.push(EventView::Locked);
            let read = locked.push(EventView::Table(table));
            let known = read.push(EventView::Accounts(all));
            let seen = known.push(EventView::Resolved(resolved));
            let done = seen.push(EventView::Replaced);
            &&& run_of(r, true, none) == begun(r, true)
            &&& run_of(r, true, locked) == advanced(begun(r, true).0, EventView::Locked)
            &&& run_of(r, true, read) == advanced(run_of(r, true, locked).0, EventView::Table(table))
            &&& run_of(r, true, known) == advanced(run_of(r, true, read).0, EventView::Accounts(all))
            &&& run_of(r, true, seen) == advanced(
                run_of(r, true, known).0,
                EventView::Resolved(resolved),
            )
            &&& run_of(r, true, done) == advanced(run_of(r, true, seen).0, EventView::Replaced)
            &&& seen == seq![
                EventView::Locked,
                EventView::Table(table),
                EventView::Accounts(all),
                EventView::Resolved(resolved),
            ]
            &&& done == seq![
                EventView::Locked,
                EventView::Table(table),
                EventView::Accounts(all),
                EventView::Resolved(resolved),
                EventView::Replaced,
            ]
        }),
{
    let none = Seq::<EventView>::empty();
    let locked = none.push(EventView::Locked);
    let read = locked.push(EventView::Table(table));
    let known = read.push(EventView::Accounts(all));
    let seen = known.push(EventView::Resolved(resolved));
    lemma_run_step(r, true, none, EventView::Locked);
    lemma_run_step(r, true, locked, EventView::Table(table));
    lemma_run_step(r, true, read, EventView::Accounts(all));
    lemma_run_step(r, true, known, EventView::Resolved(resolved));
    lemma_run_step(r, true, seen, EventView::Replaced);
    assert(seen =~= seq![
        EventView::Locked,
        EventView::Table(table),
        EventView::Accounts(all),
        EventView::Resolved(resolved),
    ]);
    assert(seen.push(EventView::Replaced) =~= seq![
        EventView::Locked,
        EventView::Table(table),
        EventView::Accounts(all),
        EventView::Resolved(resolved),
        EventView::Replaced,
    ]);
}

/// Root can register any acceptable path behind which there is an executable. The
/// new table lists it and otherwise what it listed before, and its bytes begin with
/// those of the old one; the report says so once the table is in place.
pub proof fn registrations_go_through(
    shell: Seq<char>,
    table: Seq<u8>,
    all: Seq<AccountView>,
    executable: Seq<char>,
    other: Seq<u8>,
)
    requires
        accepted(shell),
        !listed(table, table_entry(shell)),
        other.len() > 0,
        other != table_entry(shell),
    ensures
        ({
            let answers = seq![
                EventView::Locked,
                EventView::Table(table),
                EventView::Accounts(all),
                EventView::Resolved(Some(executable)),
            ];
            let write = run_of(registration(shell), true, answers).1;
            let after = run_of(registration(shell), true, answers.push(EventView::Replaced)).1;
            &&& write is ReplaceTable
            &&& listed(write->ReplaceTable_0, table_entry(shell))
            &&& listed(write->ReplaceTable_0, other) == listed(table, other)
            &&& write->ReplaceTable_0.len() > table.len()
            &&& write->ReplaceTable_0.take(table.len() as int) == table
            &&& after is Report
            &&& after->Report_0.changed && after->Report_0.registered && after->Report_0.executable
            &&& after->Report_0.shell == shell
            &&& after->Report_0.operation == "register"@
            &&& after->Report_0.resolved_executable == Some(executable)
        }),
{
    let r = registration(shell);
    lemma_run_up_to_the_table(r, table, all, Some(executable));
    accepted_paths_are_entries(shell);
    registering_lists_the_entry(table, table_entry(shell), other);
    let answers = seq![
        EventView::Locked,
        EventView::Table(table),
        EventView::Accounts(all),
        EventView::Resolved(Some(executable)),
    ];
    assert(answers.push(EventView::Replaced) =~= seq![
        EventView::Locked,
        EventView::Table(table),
        EventView::Accounts(all),
        EventView::Resolved(Some(executable)),
        EventView::Replaced,
    ]);
    let bytes = with_entry(table, table_entry(shell));
    assert(bytes == ended(table) + table_entry(shell) + seq![0x0au8]);
    assert(bytes.take(table.len() as int) =~= table);
    assert(bytes != table) by {
        assert(bytes.len() > table.len());
    }
}

/// Nothing is registered that is no executable.
pub proof fn only_executables_are_registered(
    shell: Seq<char>,
    table: Seq<u8>,
    all: Seq<AccountView>,
)
    requires
        accepted(shell),
    ensures
        run_of(
            registration(shell),
            true,
            seq![
                EventView::Locked,
                EventView::Table(table),
                EventView::Accounts(all),
                EventView::Resolved(None),
            ],
        ).1 matches ActionView::Fail(ErrorView::Invalid(_)),
{
    lemma_run_up_to_the_table(registration(shell), table, all, None);
}

/// Root can remove an entry that no account uses. The new table does not list it
/// and otherwise what it listed before. An entry in use stays, and the failure is a
/// conflict.
pub proof fn removals_go_through(
    shell: Seq<char>,
    table: Seq<u8>,
    all: Seq<AccountView>,
    resolved: Option<Seq<char>>,
    other: Seq<u8>,
)
    requires
        accepted(shell),
        listed(table, table_entry(shell)),
        other.len() > 0,
    ensures
        ({
            let answers = seq![
                EventView::Locked,
                EventView::Table(table),
                EventView::Accounts(all),
                EventView::Resolved(resolved),
            ];
            let write = run_of(removal(shell), true, answers).1;
            let after = run_of(removal(shell), true, answers.push(EventView::Replaced)).1;
            let used = exists|i: int|
                0 <= i < all.len() && same_components(#[trigger] all[i].shell, shell);
            &&& used ==> (write matches ActionView::Fail(ErrorView::Conflict(_)))
            &&& !used ==> {
                &&& write is ReplaceTable
                &&& !listed(write->ReplaceTable_0, table_entry(shell))
                &&& listed(write->ReplaceTable_0, other) == (other != table_entry(shell) && listed(
                    table,
                    other,
                ))
                &&& after is Report
                &&& after->Report_0.changed && !after->Report_0.registered
                &&& after->Report_0.operation == "unregister"@
            }
        }),
{
    let r = removal(shell);
    lemma_run_up_to_the_table(r, table, all, resolved);
    accepted_paths_are_entries(shell);
    removing_unlists_the_entry(table, table_entry(shell), table_entry(shell));
    removing_unlists_the_entry(table, table_entry(shell), other);
    let answers = seq![
        EventView::Locked,
        EventView::Table(table),
        EventView::Accounts(all),
        EventView::Resolved(resolved),
    ];
    assert(answers.push(EventView::Replaced) =~= seq![
        EventView::Locked,
        EventView::Table(table),
        EventView::Accounts(all),
        EventView::Resolved(resolved),
        EventView::Replaced,
    ]);
    lemma_in_use(all, shell);
}

proof fn lemma_in_use(all: Seq<AccountView>, shell: Seq<char>)
    ensures
        users_of(all, shell).len() > 0 <==> exists|i: int|
            0 <= i < all.len() && same_components(#[trigger] all[i].shell, shell),
    decreases all.len(),
{
    if all.len() > 0 {
        let rest = all.drop_last();
        lemma_in_use(rest, shell);
        if same_components(all.last().shell, shell) {
            assert(same_components(all[all.len() - 1].shell, shell));
        } else if users_of(rest, shell).len() > 0 {
            let i = choose|i: int| 0 <= i < rest.len() && same_components(#[trigger] rest[i].shell, shell);
            assert(all[i] == rest[i]);
        } else {
            assert forall|i: int| 0 <= i < all.len() implies !same_components(
                #[trigger] all[i].shell,
                shell,
            ) by {
                if i < rest.len() {
                    assert(rest[i] == all[i]);
                }
            }
        }
    }
}

/// With the wish to keep an entry while its executable remains, a removal changes
/// nothing as long as there is one, whoever uses it.
pub proof fn kept_executables_keep_their_entry(
    shell: Seq<char>,
    table: Seq<u8>,
    report: ReportView,
    dry_run: bool,
)
    requires
        report.executable,
    ensures
        ({
            let r = RequestView { if_missing: true, dry_run, ..removal(shell) };
            table_outcome(r, table, report) matches Ok(TableStepView::Done(after))
                && after.retained_provider && after.changed == report.changed && after.registered
                == report.registered
        }),
{
}

/// A dry run says whether it would change the table, and writes nothing.
pub proof fn dry_runs_tell_what_would_change(
    shell: Seq<char>,
    table: Seq<u8>,
    report: ReportView,
    register: bool,
)
    requires
        accepted(shell),
        report.executable || !register,
        report.using_accounts.len() == 0,
    ensures
        ({
            let r = RequestView {
                dry_run: true,
                ..if register {
                    registration(shell)
                } else {
                    removal(shell)
                }
            };
            table_outcome(r, table, report) matches Ok(TableStepView::Done(after)) && after.changed
                == (listed(table, table_entry(shell)) != register)
        }),
{
    accepted_paths_are_entries(shell);
    let e = table_entry(shell);
    if register {
        if !listed(table, e) {
            assert(with_entry(table, e).len() > table.len());
        }
    } else if listed(table, e) {
        removing_unlists_the_entry(table, e, e);
    } else {
        removing_nothing_changes_nothing(table, e);
    }
}

/// Requests that say what their operation needs are accepted, for whatever
/// acceptable path: a registration, a removal, a question, and a change of an
/// account from one shell to another.
pub proof fn complete_requests_are_accepted(
    shell: Seq<char>,
    user: Seq<char>,
    expected: Seq<char>,
    to: Seq<char>,
    dry_run: bool,
    if_missing: bool,
)
    requires
        accepted(shell),
        accepted(to),
        is_user_name(user),
        expected.len() == 0 || accepted(expected),
    ensures
        ({
            let plain = RequestView { dry_run, ..registration(shell) };
            let change = RequestView {
                operation: Operation::Select,
                user: Some(user),
                expect_shell: Some(expected),
                ..plain
            };
            &&& request_fault(plain) is None
            &&& request_fault(
                RequestView { operation: Operation::Unregister, if_missing, ..plain },
            ) is None
            &&& request_fault(RequestView { operation: Operation::Status, ..plain }) is None
            &&& request_fault(
                RequestView { operation: Operation::Status, user: Some(user), ..plain },
            ) is None
            &&& request_fault(change) is None
            &&& request_fault(
                RequestView {
                    operation: Operation::Restore,
                    restore_shell: Some(to),
                    ..change
                },
            ) is None
        }),
{
}

/// Whatever is not acceptable in a request is refused before anything is done.
pub proof fn incomplete_requests_are_refused(r: RequestView, root: bool)
    requires
        ({
            ||| !accepted(r.shell)
            ||| r.restore_shell is Some && !accepted(r.restore_shell->0)
            ||| r.expect_shell is Some && r.expect_shell->0.len() > 0 && !accepted(r.expect_shell->0)
            ||| r.user is Some && !is_user_name(r.user->0)
            ||| r.operation == Operation::Select && (r.user is None || r.expect_shell is None)
            ||| r.operation == Operation::Restore && (r.user is None || r.expect_shell is None
                || r.restore_shell is None)
            ||| r.operation != Operation::Restore && r.restore_shell is Some
            ||| r.operation != Operation::Select && r.operation != Operation::Restore
                && r.expect_shell is Some
            ||| r.operation != Operation::Unregister && r.if_missing
        }),
    ensures
        begun(r, root).1 matches ActionView::Fail(ErrorView::Invalid(_)),
        begun(r, root).0.stage == Stage::Finished,
{
}

/// Only root starts a change; a question or a dry run needs nobody's permission and
/// takes no lock.
pub proof fn changes_need_root(r: RequestView)
    requires
        request_fault(r) is None,
    ensures
        r.operation != Operation::Status && !r.dry_run ==> begun(r, false).1 == ActionView::Fail(
            ErrorView::Permission,
        ) && begun(r, true).1 is Lock,
        r.operation == Operation::Status || r.dry_run ==> begun(r, false).1 is ReadTable && begun(
            r,
            true,
        ).1 is ReadTable,
{
}

/// What a run has found before it changes anything is what the system said.
pub proof fn findings_are_reported(
    r: RequestView,
    table: Seq<u8>,
    all: Seq<AccountView>,
    account: Option<AccountView>,
    resolved: Option<Seq<char>>,
)
    ensures
        ({
            let found = found_state(r, table, all, account, resolved);
            &&& found.shell == r.shell
            &&& found.user == r.user
            &&& found.resolved_executable == resolved
            &&& found.executable <==> resolved is Some
            &&& found.registered <==> listed(table, table_entry(r.shell))
            &&& account is Some ==> found.account_shell == Some(account->0.shell)
            &&& account is None ==> found.account_shell is None
            &&& found.using_accounts == users_of(all, r.shell)
            &&& !found.changed && !found.retained_provider && !found.account_access_checked
            &&& found.previous_shell is None
        }),
{
}

/// A question is answered with what was found.
pub proof fn questions_are_answered(m: ManagerView, resolved: Option<Seq<char>>)
    requires
        m.stage == Stage::Inspecting,
        m.request.operation == Operation::Status,
    ensures
        advanced(m, EventView::Resolved(resolved)).1 == ActionView::Report(
            found_state(m.request, m.table, m.all, m.account, resolved),
        ),
{
}

/// An account goes from the expected shell to the one that was asked for: what the
/// run asks for in turn, and what it reports in the end.
pub proof fn selections_go_through(
    m: ManagerView,
    account: AccountView,
    local: AccountView,
    after: AccountView,
    all: Seq<AccountView>,
)
    requires
        m.wf(),
        m.stage == Stage::Probing,
        m.root,
        m.request.mutates(),
        m.account == Some(account),
        listed(m.table, table_entry(m.request.target())),
        agree(account, local),
        same_components(local.shell, m.request.expect_shell->0),
        !same_components(local.shell, m.request.target()),
        same_components(after.shell, m.request.target()),
        after.uid == local.uid,
        after.gid == local.gid,
    ensures
        ({
            let user = m.request.user->0;
            let target = m.request.target();
            let (m1, a1) = advanced(m, EventView::Probed(true));
            let (m2, a2) = advanced(m1, EventView::Local(local));
            let (m3, a3) = advanced(m2, EventView::Access(AccessAnswer::Checked(true)));
            let (m4, a4) = advanced(m3, EventView::Local(local));
            let (m5, a5) = advanced(m4, EventView::Changed);
            let (m6, a6) = advanced(m5, EventView::Local(after));
            let (m7, a7) = advanced(m6, EventView::Accounts(all));
            &&& a1 == ActionView::ReadLocal(user)
            &&& a2 == ActionView::CheckAccess(local, target)
            &&& a3 == ActionView::ReadLocal(user)
            &&& a4 == ActionView::ChangeShell(user, target)
            &&& a5 == ActionView::ReadLocal(user)
            &&& a6 is ListAccounts
            &&& a7 is Report
            &&& a7->Report_0.changed && a7->Report_0.account_access_checked
            &&& a7->Report_0.previous_shell == Some(local.shell)
            &&& a7->Report_0.account_shell == Some(target)
            &&& a7->Report_0.using_accounts == users_of(all, m.request.shell)
            &&& m7.stage == Stage::Finished
        }),
{
    same_path_is_an_equivalence(local.shell, local.shell, local.shell);
}

/// The target of a change is the replacement that a restoration names, and the
/// entry itself otherwise.
pub proof fn changes_have_one_target(r: RequestView)
    ensures
        r.restore_shell is Some ==> r.target() == r.restore_shell->0,
        r.restore_shell is None ==> r.target() == r.shell,
        request_fault(r) is None && r.operation == Operation::Select ==> r.target() == r.shell,
        request_fault(r) is None && r.operation == Operation::Restore ==> Some(r.target())
            == r.restore_shell,
{
}

/// No account is changed that cannot run the target, that is not the listed one, or
/// that somebody changed meanwhile; nor to a target that is not listed.
pub proof fn doubtful_accounts_stay(m: ManagerView, local: AccountView, reason: String)
    requires
        m.wf(),
    ensures
        m.stage == Stage::Probing ==> advanced(m, EventView::Probed(false)).1
            matches ActionView::Fail(ErrorView::Invalid(_)),
        m.stage == Stage::Probing && !listed(m.table, table_entry(m.request.target())) ==> advanced(
            m,
            EventView::Probed(true),
        ).1 matches ActionView::Fail(ErrorView::Invalid(_)),
        m.stage == Stage::Comparing && !(m.account is Some && agree(m.account->0, local)) ==> advanced(
            m,
            EventView::Local(local),
        ).1 matches ActionView::Fail(ErrorView::Conflict(_)),
        m.stage == Stage::Checking ==> advanced(
            m,
            EventView::Access(AccessAnswer::Checked(false)),
        ).1 matches ActionView::Fail(ErrorView::AccessDenied(_)),
        m.stage == Stage::Checking ==> advanced(
            m,
            EventView::Access(AccessAnswer::Failed(reason)),
        ).1 matches ActionView::Fail(ErrorView::Backend(_)),
        m.stage == Stage::Rechecking && !agree(local, m.local->0) ==> advanced(
            m,
            EventView::Local(local),
        ).1 matches ActionView::Fail(ErrorView::Conflict(_)),
        m.stage == Stage::Confirming && (!same_components(local.shell, m.request.target()) || local.uid
            != m.local->0.uid || local.gid != m.local->0.gid) ==> advanced(
            m,
            EventView::Local(local),
        ).1 matches ActionView::Fail(ErrorView::Conflict(_)),
{
}

/// Work that fails ends the run with that failure, wherever it is.
pub proof fn failures_end_the_run(m: ManagerView, error: ErrorView)
    requires
        m.stage != Stage::Finished,
    ensures
        advanced(m, EventView::Failed(error)).1 == ActionView::Fail(error),
        advanced(m, EventView::Failed(error)).0.stage == Stage::Finished,
{
}

/// A selection is decided by the shell that the account has: the target already,
/// the expected one, or another.
pub proof fn selections_depend_on_the_current_shell(
    r: RequestView,
    report: ReportView,
    local: AccountView,
    checked: bool,
)
    ensures
        ({
            let there = same_components(local.shell, r.target());
            let expected = same_components(local.shell, r.expect_shell->0);
            let outcome = selection(r, report, local, checked);
            &&& there ==> (outcome matches Ok(SelectionView::Done(after)) && after.changed
                == report.changed && after.previous_shell == Some(local.shell))
            &&& !there && !expected ==> (outcome matches Err(ErrorView::Conflict(_)))
            &&& !there && expected && r.dry_run ==> (outcome matches Ok(SelectionView::Done(after))
                && after.changed && after.previous_shell == Some(local.shell))
            &&& !there && expected && !r.dry_run ==> (outcome matches Ok(
                SelectionView::Change(after),
            ) && after.changed && after.previous_shell == Some(local.shell)
                && after.account_access_checked == (report.account_access_checked || checked))
        }),
{
}

/// Records of an account agree only about the same name, identity and shell.
pub proof fn agreeing_records_are_of_one_account(a: AccountView, b: AccountView)
    ensures
        agree(a, b) <==> a.name == b.name && a.uid == b.uid && a.gid == b.gid && same_components(
            a.shell,
            b.shell,
        ),
        agree(a, b) == agree(b, a),
        agree(a, a),
{
}

/// A line of the account database gives an account exactly if it has seven fields,
/// a name and two numbers; the account then has the name, the numbers and the shell
/// of their own fields.
pub proof fn account_lines_are_read_by_field(line: Seq<char>)
    ensures
        ({
            let fields = pieces(line, ':');
            let whole = fields.len() == 7 && fields[0].len() > 0 && unsigned_in(
                fields[2],
                u32::MAX as int,
            ) is Some && unsigned_in(fields[3], u32::MAX as int) is Some;
            &&& account_in(line) is Ok <==> whole
            &&& whole ==> {
                let account = account_in(line)->Ok_0;
                &&& account.name == fields[0]
                &&& account.uid == unsigned_in(fields[2], u32::MAX as int)->0 as u32
                &&& account.gid == unsigned_in(fields[3], u32::MAX as int)->0 as u32
                &&& account.shell == fields[6]
            }
            &&& !whole ==> (account_in(line) matches Err(ErrorView::Backend(_)))
        }),
{
}

/// All lines count: the database gives one account for each of its lines, in order,
/// or none at all.
pub proof fn every_account_line_counts(all: Seq<Seq<char>>)
    ensures
        accounts_in(all) is Ok <==> forall|i: int| 0 <= i < all.len() ==> account_in(#[trigger] all[i]) is Ok,
        accounts_in(all) matches Ok(found) ==> found.len() == all.len() && forall|i: int|
            0 <= i < all.len() ==> account_in(#[trigger] all[i]) == Ok::<AccountView, ErrorView>(found[i]),
    decreases all.len(),
{
    if all.len() > 0 {
        let rest = all.drop_last();
        every_account_line_counts(rest);
        assert(forall|i: int| 0 <= i < rest.len() ==> rest[i] == all[i]);
        if accounts_in(rest) is Err {
            let i = choose|i: int| 0 <= i < rest.len() && !(account_in(#[trigger] rest[i]) is Ok);
            assert(!(account_in(all[i]) is Ok));
        } else if account_in(all.last()) is Err {
            assert(!(account_in(all[all.len() - 1]) is Ok));
        }
    }
}

/// The entry of an installation is the selected path as it is, or one that ends in
/// `cosh`; either is acceptable.
pub proof fn entries_are_acceptable(cli: Seq<char>, selected: Option<Seq<char>>)
    ensures
        entry_for(cli, selected) matches Some(path) ==> accepted(path),
        selected is Some ==> (entry_for(cli, selected) is Some <==> accepted(selected->0)),
        selected is Some && accepted(selected->0) ==> entry_for(cli, selected) == selected,
        selected is None ==> (entry_for(cli, selected) matches Some(path) ==> path.len() >= 4
            && path.skip(path.len() - 4) == "cosh"@),
        selected is None && !absolute(cli) ==> entry_for(cli, selected) is None,
{
    reveal_strlit("cosh");
    reveal_strlit("/cosh");
    if selected is None && entry_for(cli, selected) is Some {
        let path = entry_for(cli, selected)->0;
        assert(path.skip(path.len() - 4) =~= "cosh"@);
    }
}

/// A file name in a directory is the directory, a separator and the name.
pub proof fn joined_paths_hold_both_parts(directory: Seq<char>, name: Seq<char>)
    requires
        !absolute(name),
        directory.len() > 0,
    ensures
        ({
            let path = path_in(directory, name);
            &&& path.take(directory.len() as int) == directory
            &&& path.skip(path.len() - name.len()) == name
            &&& path[path.len() - name.len() - 1] == '/'
            &&& path.len() <= directory.len() + 1 + name.len()
        }),
{
    reveal_strlit("/");
    let path = path_in(directory, name);
    assert(path.take(directory.len() as int) =~= directory);
    assert(path.skip(path.len() - name.len()) =~= name);
}

/// The arguments of a command are what its request asks for.
pub proof fn requests_say_what_was_typed(action: LoginShellCommand, shell: Seq<char>)
    ensures
        request_view(action, shell).shell == shell,
        match action {
            LoginShellCommand::Status(user) => {
                let r = request_view(action, shell);
                r.operation == Operation::Status && r.user == opt_view(user) && !r.dry_run
            },
            LoginShellCommand::Register(dry_run) => request_view(action, shell) == (RequestView {
                dry_run,
                ..registration(shell)
            }),
            LoginShellCommand::Unregister(dry_run, if_missing) => request_view(action, shell)
                == (RequestView { dry_run, if_missing, ..removal(shell) }),
            LoginShellCommand::Select(account) => {
                let r = request_view(action, shell);
                &&& r.operation == Operation::Select
                &&& r.user == Some(account.user@) && r.expect_shell == Some(account.expect_shell@)
                &&& r.dry_run == account.dry_run && r.target() == shell
            },
            LoginShellCommand::Restore(account, to) => {
                let r = request_view(action, shell);
                &&& r.operation == Operation::Restore
                &&& r.user == Some(account.user@) && r.expect_shell == Some(account.expect_shell@)
                &&& r.dry_run == account.dry_run && r.target() == to@
            },
        },
{
}

/// Failures of one kind are told from those of another.
pub proof fn failures_keep_their_category(message: Seq<char>)
    ensures
        code_of(ErrorView::Permission) == ErrorCode::PermissionDenied,
        code_of(ErrorView::AccessDenied(message)) == ErrorCode::LoginShellAccessDenied,
        code_of(ErrorView::Invalid(message)) == ErrorCode::InvalidInput,
        code_of(ErrorView::Unsupported) == ErrorCode::UnsupportedPlatform,
        code_of(ErrorView::Conflict(message)) == ErrorCode::LoginShellConflict,
        code_of(ErrorView::Backend(message)) == ErrorCode::LoginShellBackendError,
        code_of(ErrorView::Io(IoKind::PermissionDenied, message)) == ErrorCode::PermissionDenied,
        code_of(ErrorView::Io(IoKind::NotFound, message)) == ErrorCode::NotFound,
        code_of(ErrorView::Io(IoKind::TimedOut, message)) == ErrorCode::Timeout,
        code_of(ErrorView::Io(IoKind::Other, message)) == ErrorCode::LoginShellIoError,
{
}

/// A line with the entry that is removed keeps its comment, and any other line
/// stays as it is.
pub proof fn removals_keep_comments(line: Seq<u8>, entry: Seq<u8>)
    requires
        line.len() > 0,
        forall|i: int| 0 <= i < line.len() ==> line[i] != 0x0a,
    ensures
        entry_of(line) != entry ==> unlisted(line, entry) == line,
        entry_of(line) == entry ==> {
            let note = unlisted(line, entry);
            &&& note.len() <= line.len()
            &&& note == line.skip(line.len() - note.len())
            &&& note.len() > 0 ==> note[0] == 0x23
            &&& forall|i: int| 0 <= i < line.len() - note.len() ==> line[i] != 0x23
        },
{
    lemma_first_of(line, 0x0a);
    lemma_first_of(line, 0x23);
    let c = first_of(line, 0x23);
    if first_of(line, 0x0a) < line.len() {
        assert(line[first_of(line, 0x0a)] == 0x0a);
    }
    assert(line.skip(c).len() == line.len() - c);
}

/// An entry is what stands in front of a comment, whatever white space is around it.
pub proof fn entries_stand_alone(entry: Seq<u8>, note: Seq<u8>)
    requires
        is_entry(entry),
        note.len() > 0 ==> note[0] == 0x23,
    ensures
        entry_of(entry + note) == entry,
        entry_of(seq![0x20u8] + entry + note) == entry,
        entry_of(entry + seq![0x09u8] + note) == entry,
{
    let plain = entry + note;
    lemma_first_of_is(plain, 0x23, entry.len() as int);
    assert(plain.take(entry.len() as int) =~= entry);
    let before = seq![0x20u8] + entry + note;
    assert forall|i: int| 0 <= i < entry.len() + 1 implies before[i] != 0x23 by {
        if i > 0 {
            assert(before[i] == entry[i - 1]);
        }
    }
    lemma_first_of_is(before, 0x23, entry.len() as int + 1);
    let head = before.take(entry.len() as int + 1);
    assert(head =~= seq![0x20u8] + entry);
    assert(head.skip(1) =~= entry);
    assert(is_blank(head[0]));
    assert(stripped_start(head) == stripped_start(entry));
    assert(stripped_start(entry) == entry && stripped_end(entry) == entry);
    let behind = entry + seq![0x09u8] + note;
    assert forall|i: int| 0 <= i < entry.len() + 1 implies behind[i] != 0x23 by {
        if i < entry.len() {
            assert(behind[i] == entry[i]);
        }
    }
    lemma_first_of_is(behind, 0x23, entry.len() as int + 1);
    let tail = behind.take(entry.len() as int + 1);
    assert(tail =~= entry.push(0x09));
    assert(tail[0] == entry[0]);
    assert(tail.drop_last() =~= entry);
    assert(is_blank(tail.last()));
    assert(stripped_start(tail) == tail);
    assert(stripped_end(tail) == stripped_end(entry));
}

/// A removed attribute is one that the new file has and the old one had not.
pub proof fn strays_are_new(found: Seq<Seq<u8>>, kept: Seq<Seq<u8>>, name: Seq<u8>)
    ensures
        strays(found, kept).contains(name) <==> found.contains(name) && !kept.contains(name),
{
    let keep = |n: Seq<u8>| !kept.contains(n);
    found.filter_lemma(keep);
    if found.contains(name) && !kept.contains(name) {
        let i = choose|i: int| 0 <= i < found.len() && found[i] == name;
        assert(found.filter(keep).contains(found[i]));
    }
    if strays(found, kept).contains(name) {
        let i = choose|i: int| 0 <= i < strays(found, kept).len() && strays(found, kept)[i] == name;
        assert(keep(found.filter(keep)[i]));
        lemma_filter_within(found, keep, i);
    }
}

proof fn lemma_filter_within(s: Seq<Seq<u8>>, keep: spec_fn(Seq<u8>) -> bool, i: int)
    requires
        0 <= i < s.filter(keep).len(),
    ensures
        s.contains(s.filter(keep)[i]),
    decreases s.len(),
{
    reveal(Seq::filter);
    if s.len() > 0 {
        let rest = s.drop_last();
        if i < rest.filter(keep).len() {
            lemma_filter_within(rest, keep, i);
            let k = choose|k: int| 0 <= k < rest.len() && rest[k] == rest.filter(keep)[i];
            assert(s[k] == s.filter(keep)[i]);
        } else {
            assert(s[s.len() - 1] == s.filter(keep)[i]);
        }
    }
}

/// A list of names holds each of its names, in order, up to the next zero byte.
pub proof fn listed_names_are_found(name: Seq<u8>, rest: Seq<u8>)
    requires
        name.len() > 0,
        forall|i: int| 0 <= i < name.len() ==> name[i] != 0,
    ensures
        names_in(name + seq![0u8] + rest) == seq![name] + names_in(rest),
        names_in(seq![0u8] + rest) == names_in(rest),
        names_in(name) == seq![name],
{
    let whole = name + seq![0u8] + rest;
    lemma_first_of_is(whole, 0, name.len() as int);
    assert(whole.take(name.len() as int) =~= name);
    assert(whole.skip(name.len() as int + 1) =~= rest);
    let empty = seq![0u8] + rest;
    lemma_first_of_is(empty, 0, 0);
    assert(empty.skip(1) =~= rest);
    lemma_first_of_is(name, 0, name.len() as int);
    assert(name.take(name.len() as int) =~= name);
    assert(seq![name] + Seq::<Seq<u8>>::empty() =~= seq![name]);
}

/// Repeated and trailing separators do not make another path.
pub proof fn only_named_parts_count(parts: Seq<Seq<char>>)
    ensures
        named_parts(parts) == parts.filter(|p: Seq<char>| p.len() > 0 && p != "."@),
    decreases parts.len(),
{
    reveal(Seq::filter);
    if parts.len() > 0 {
        only_named_parts_count(parts.drop_last());
    } else {
        assert(named_parts(parts) =~= parts.filter(|p: Seq<char>| p.len() > 0 && p != "."@));
    }
}

/// An accepted path begins at the root, and holds nothing that a table could misread
/// and no part that leads elsewhere.
pub proof fn accepted_paths_begin_at_the_root(path: Seq<char>, i: int)
    ensures
        absolute(path) <==> path.len() > 0 && path[0] == '/',
        accepted(path) ==> absolute(path),
        0 <= i < path.len() && (path[i] == ' ' || path[i] == ':' || path[i] == '#' || path[i] == '\0'
            || path[i] == '\n' || path[i] == '\t') ==> !accepted(path),
        0 <= i < pieces(path, '/').len() && (pieces(path, '/')[i] == "."@ || pieces(path, '/')[i]
            == ".."@) ==> !accepted(path),
{
    if 0 <= i < path.len() && !misread(path[i]) {
        assert(path[i] != ' ' && path[i] != '\n' && path[i] != '\t');
    }
    if 0 <= i < pieces(path, '/').len() && (pieces(path, '/')[i] == "."@ || pieces(path, '/')[i] == ".."@) {
        assert(dotted(pieces(path, '/')[i]));
    }
}

proof fn lemma_last_separator(path: Seq<char>, end: int, at: int)
    requires
        0 <= at < end <= path.len(),
        path[at] == '/',
        forall|i: int| at < i < end ==> path[i] != '/',
    ensures
        last_separator(path, end) == at,
    decreases end,
{
    if end - 1 > at {
        assert(path[end - 1] != '/');
        lemma_last_separator(path, end - 1, at);
    }
}

/// The entry of an installation stands beside the tool that manages it.
pub proof fn entries_stand_beside_the_tool(directory: Seq<char>, tool: Seq<char>)
    requires
        directory.len() > 1,
        directory[0] == '/',
        directory.last() != '/',
        directory.last() != '.',
        tool.len() > 0,
        forall|i: int| 0 <= i < tool.len() ==> tool[i] != '/',
        tool.last() != '.',
        accepted(directory + "/cosh"@),
    ensures
        entry_for(directory + seq!['/'] + tool, None) == Some(directory + "/cosh"@),
{
    let cli = directory + seq!['/'] + tool;
    assert(cli.last() == tool.last());
    assert(shorn(cli) == cli);
    let n = directory.len() as int;
    assert(cli[n] == '/');
    assert forall|i: int| n < i < cli.len() implies cli[i] != '/' by {
        assert(cli[i] == tool[i - n - 1]);
    }
    lemma_last_separator(cli, cli.len() as int, n);
    let upper = cli.take(n + 1);
    assert(upper.last() == '/');
    assert(upper.drop_last() =~= directory);
    assert(shorn(upper) == shorn(directory));
    assert(shorn(directory) == directory);
}

/// A path with a directory has more than one part.
pub proof fn paths_with_a_directory_have_parts(path: Seq<char>)
    ensures
        component_count(path) == named_parts(pieces(path, '/')).len() + (if absolute(path)
            || starts_here(path) {
            1int
        } else {
            0
        }),
        absolute(path) && named_parts(pieces(path, '/')).len() > 0 ==> component_count(path) > 1,
        starts_here(path) <==> !absolute(path) && pieces(path, '/')[0] == "."@,
{
}

/// Only three refusals mean that a shell cannot be run.
pub proof fn three_refusals_mean_no_access(errno: i32)
    ensures
        means_no_access(errno) <==> errno == 13 || errno == 2 || errno == 20,
{
}

/// A user name is one or more letters, digits and three signs, and is no option.
pub proof fn user_names_are_plain(name: Seq<char>, i: int)
    ensures
        is_user_name(name) ==> name.len() > 0 && name[0] != '-',
        0 <= i < name.len() && (name[i] == ' ' || name[i] == ':' || name[i] == '/' || name[i] == '\n')
            ==> !is_user_name(name),
        is_user_name(seq!['a', '-', '_', '.', '1']),
        !is_user_name(seq!['-', 'a']),
        !is_user_name(Seq::empty()),
{
    if 0 <= i < name.len() && (name[i] == ' ' || name[i] == ':' || name[i] == '/' || name[i] == '\n') {
        assert(!is_ascii_alnum(name[i]));
    }
}

/// Each operation and each category is printed under its own name.
pub proof fn operations_have_their_names()
    ensures
        Operation::Status.label() == "status"@,
        Operation::Register.label() == "register"@,
        Operation::Unregister.label() == "unregister"@,
        Operation::Select.label() == "set"@,
        Operation::Restore.label() == "restore"@,
        ErrorCode::PermissionDenied.label() == "PermissionDenied"@,
        ErrorCode::LoginShellAccessDenied.label() == "LoginShellAccessDenied"@,
        ErrorCode::InvalidInput.label() == "InvalidInput"@,
        ErrorCode::UnsupportedPlatform.label() == "UnsupportedPlatform"@,
        ErrorCode::LoginShellConflict.label() == "LoginShellConflict"@,
        ErrorCode::LoginShellBackendError.label() == "LoginShellBackendError"@,
        ErrorCode::NotFound.label() == "NotFound"@,
        ErrorCode::Timeout.label() == "Timeout"@,
        ErrorCode::LoginShellIoError.label() == "LoginShellIoError"@,
{
}

/// A refused change says whose shell it is, what it is and what it was expected to be;
/// a refused removal who still uses the entry.
pub proof fn refusals_say_what_is_wrong(
    r: RequestView,
    report: ReportView,
    local: AccountView,
    checked: bool,
    table: Seq<u8>,
)
    ensures
        !same_components(local.shell, r.target()) && !same_components(local.shell, r.expect_shell->0)
            ==> selection(r, report, local, checked) == Err::<SelectionView, ErrorView>(
            ErrorView::Conflict(
                r.user->0 + " has shell "@ + local.shell + ", expected "@ + r.expect_shell->0
                    + "; account unchanged"@,
            ),
        ),
        r.operation == Operation::Unregister && !r.if_missing && report.using_accounts.len() > 0
            ==> table_outcome(r, table, report) == Err::<TableStepView, ErrorView>(
            ErrorView::Conflict(
                "shell is still configured for accounts: "@ + joined(report.using_accounts, ", "@),
            ),
        ),
        account_for(Seq::empty(), Some(local.name)) == Err::<Option<AccountView>, ErrorView>(
            ErrorView::Invalid("account not found: "@ + local.name),
        ),
{
}

/// A line of the account database that cannot be read says what is wrong with it.
pub proof fn unreadable_lines_say_why(line: Seq<char>)
    ensures
        ({
            let fields = pieces(line, ':');
            let whole = fields.len() == 7 && fields[0].len() > 0;
            &&& !whole ==> account_in(line) == Err::<AccountView, ErrorView>(
                ErrorView::Backend("getent returned malformed passwd data"@),
            )
            &&& whole && unsigned_in(fields[2], u32::MAX as int) is None ==> account_in(line) == Err::<
                AccountView,
                ErrorView,
            >(ErrorView::Backend("getent returned invalid UID"@))
            &&& whole && unsigned_in(fields[2], u32::MAX as int) is Some && unsigned_in(
                fields[3],
                u32::MAX as int,
            ) is None ==> account_in(line) == Err::<AccountView, ErrorView>(
                ErrorView::Backend("getent returned invalid GID"@),
            )
        }),
{
}

} // verus!
