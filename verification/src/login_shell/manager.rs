//! One management run, from the request to the report.
//!
//! The manager asks for one piece of work at a time and decides by what came
//! back what is asked for next.

use vstd::pervasive::unreached;
use vstd::prelude::*;

use crate::login_shell::accounts::{account_views, agree, Account, AccountView};
use crate::login_shell::error::{Error, ErrorView};
use crate::login_shell::manage::{
    access_result, account_for, authorize, check_agreement, check_changed, check_target,
    check_unchanged, find_account, found_state, plan_selection, plan_table, request_fault,
    selected, selection, status_report, table_entry, table_outcome, target, users_of,
    AccessAnswer, LoginShellReport, Operation, ReportView, Request, RequestView, SelectionStep,
    SelectionView, TableStep, TableStepView,
};
use crate::login_shell::path::same_components;
use crate::login_shell::table::listed;
use crate::text::opt_view;

verus! {

/// What the manager is waiting for.
#[derive(Clone, Copy, Debug, PartialEq, Eq, Structural)]
pub enum Stage {
    /// The manager lock.
    Locking,
    /// The shell table.
    Reading,
    /// All accounts.
    Listing,
    /// The executable behind the entry.
    Inspecting,
    /// The new shell table to be in place.
    Replacing,
    /// Whether the target is an executable.
    Probing,
    /// The local account.
    Comparing,
    /// Whether the account can execute the target.
    Checking,
    /// The local account once more, right before the change.
    Rechecking,
    /// The account tool.
    Changing,
    /// The local account after the change.
    Confirming,
    /// All accounts after the change.
    Relisting,
    /// Nothing.
    Finished,
}

/// A piece of work that the manager asks for.
pub enum Action {
    /// Take the manager lock.
    Lock,
    /// Read the shell table.
    ReadTable,
    /// List all accounts.
    ListAccounts,
    /// Resolve this entry if it is an executable.
    Resolve(String),
    /// Put this shell table in place.
    ReplaceTable(Vec<u8>),
    /// Look whether this path is an executable.
    Probe(String),
    /// Read this account from the local database.
    ReadLocal(String),
    /// Check that this account can execute this shell.
    CheckAccess(Account, String),
    /// Give this account this shell.
    ChangeShell(String, String),
    /// Nothing; an answer to another question came in.
    Wait,
    /// The run is over.
    Report(LoginShellReport),
    /// The run has failed.
    Fail(Error),
}

/// What an [`Action`] says.
#[verifier::ext_equal]
pub enum ActionView {
    Lock,
    ReadTable,
    ListAccounts,
    Resolve(Seq<char>),
    ReplaceTable(Seq<u8>),
    Probe(Seq<char>),
    ReadLocal(Seq<char>),
    CheckAccess(AccountView, Seq<char>),
    ChangeShell(Seq<char>, Seq<char>),
    Wait,
    Report(ReportView),
    Fail(ErrorView),
}

impl View for Action {
    type V = ActionView;

    open spec fn view(&self) -> ActionView {
        match self {
            Action::Lock => ActionView::Lock,
            Action::ReadTable => ActionView::ReadTable,
            Action::ListAccounts => ActionView::ListAccounts,
            Action::Resolve(s) => ActionView::Resolve(s@),
            Action::ReplaceTable(b) => ActionView::ReplaceTable(b@),
            Action::Probe(s) => ActionView::Probe(s@),
            Action::ReadLocal(s) => ActionView::ReadLocal(s@),
            Action::CheckAccess(a, s) => ActionView::CheckAccess(a@, s@),
            Action::ChangeShell(u, s) => ActionView::ChangeShell(u@, s@),
            Action::Wait => ActionView::Wait,
            Action::Report(r) => ActionView::Report(r@),
            Action::Fail(e) => ActionView::Fail(e@),
        }
    }
}

/// What came back.
pub enum Event {
    Locked,
    Table(Vec<u8>),
    Accounts(Vec<Account>),
    /// The executable behind the entry, if it is one.
    Resolved(Option<String>),
    Replaced,
    Probed(bool),
    Local(Account),
    Access(AccessAnswer),
    Changed,
    /// The work could not be done.
    Failed(Error),
}

/// What an [`Event`] says.
pub enum EventView {
    Locked,
    Table(Seq<u8>),
    Accounts(Seq<AccountView>),
    Resolved(Option<Seq<char>>),
    Replaced,
    Probed(bool),
    Local(AccountView),
    Access(AccessAnswer),
    Changed,
    Failed(ErrorView),
}

impl View for Event {
    type V = EventView;

    open spec fn view(&self) -> EventView {
        match self {
            Event::Locked => EventView::Locked,
            Event::Table(b) => EventView::Table(b@),
            Event::Accounts(a) => EventView::Accounts(account_views(a@)),
            Event::Resolved(r) => EventView::Resolved(opt_view(*r)),
            Event::Replaced => EventView::Replaced,
            Event::Probed(b) => EventView::Probed(*b),
            Event::Local(a) => EventView::Local(a@),
            Event::Access(a) => EventView::Access(*a),
            Event::Changed => EventView::Changed,
            Event::Failed(e) => EventView::Failed(e@),
        }
    }
}

/// A management run.
pub struct Manager {
    request: Request,
    root: bool,
    stage: Stage,
    table: Vec<u8>,
    all: Vec<Account>,
    account: Option<Account>,
    local: Option<Account>,
    report: Option<LoginShellReport>,
}

/// What a [`Manager`] holds.
#[verifier::ext_equal]
pub struct ManagerView {
    pub request: RequestView,
    pub root: bool,
    pub stage: Stage,
    pub table: Seq<u8>,
    pub all: Seq<AccountView>,
    pub account: Option<AccountView>,
    pub local: Option<AccountView>,
    pub report: Option<ReportView>,
}

/// The view of an account that may be missing.
pub open spec fn maybe_account(a: Option<Account>) -> Option<AccountView> {
    match a {
        Some(x) => Some(x@),
        None => None,
    }
}

impl View for Manager {
    type V = ManagerView;

    closed spec fn view(&self) -> ManagerView {
        ManagerView {
            request: self.request@,
            root: self.root,
            stage: self.stage,
            table: self.table@,
            all: account_views(self.all@),
            account: maybe_account(self.account),
            local: maybe_account(self.local),
            report: match self.report {
                Some(r) => Some(r@),
                None => None,
            },
        }
    }
}

impl ManagerView {
    /// Whether the report has been started.
    pub open spec fn reporting(self) -> bool {
        match self.stage {
            Stage::Replacing | Stage::Probing | Stage::Comparing | Stage::Checking
            | Stage::Rechecking | Stage::Changing | Stage::Confirming | Stage::Relisting => true,
            _ => false,
        }
    }

    /// Whether an account is being changed.
    pub open spec fn selecting(self) -> bool {
        match self.stage {
            Stage::Probing | Stage::Comparing | Stage::Checking | Stage::Rechecking
            | Stage::Changing | Stage::Confirming | Stage::Relisting => true,
            _ => false,
        }
    }

    /// Whether the local account is known to be the listed one.
    pub open spec fn compared(self) -> bool {
        match self.stage {
            Stage::Checking | Stage::Rechecking | Stage::Changing | Stage::Confirming
            | Stage::Relisting => true,
            _ => false,
        }
    }

    /// Whether the change has been decided.
    pub open spec fn decided(self) -> bool {
        match self.stage {
            Stage::Rechecking | Stage::Changing | Stage::Confirming | Stage::Relisting => true,
            _ => false,
        }
    }

    /// What holds while a run goes on.
    pub open spec fn wf(self) -> bool {
        self.stage != Stage::Finished ==> {
            &&& request_fault(self.request) is None
            &&& self.request.mutates() ==> self.root
            &&& self.reporting() ==> self.report is Some
            &&& self.selecting() ==> self.request.on_account()
            &&& self.compared() ==> self.local is Some
            &&& self.stage == Stage::Locking || self.stage == Stage::Replacing
                ==> self.request.mutates()
            &&& self.decided() ==> self.request.mutates() && same_components(
                self.local->0.shell,
                self.request.expect_shell->0,
            ) && !same_components(self.local->0.shell, self.request.target())
        }
    }
}

/// How a run ends.
pub open spec fn ended(m: ManagerView, action: ActionView) -> (ManagerView, ActionView) {
    (ManagerView { stage: Stage::Finished, ..m }, action)
}

/// How a run goes on.
pub open spec fn asked(m: ManagerView, stage: Stage, action: ActionView) -> (
    ManagerView,
    ActionView,
) {
    (ManagerView { stage, ..m }, action)
}

/// A run at its start.
pub open spec fn begun(request: RequestView, root: bool) -> (ManagerView, ActionView) {
    let fresh = ManagerView {
        request,
        root,
        stage: Stage::Reading,
        table: Seq::empty(),
        all: Seq::empty(),
        account: None,
        local: None,
        report: None,
    };
    match request_fault(request) {
        Some(fault) => ended(fresh, ActionView::Fail(fault)),
        None => if !request.mutates() {
            (fresh, ActionView::ReadTable)
        } else if root {
            asked(fresh, Stage::Locking, ActionView::Lock)
        } else {
            ended(fresh, ActionView::Fail(ErrorView::Permission))
        },
    }
}

/// After all accounts were listed.
pub open spec fn listed_accounts(m: ManagerView, all: Seq<AccountView>) -> (
    ManagerView,
    ActionView,
) {
    match account_for(all, m.request.user) {
        Ok(account) => asked(
            ManagerView { all, account, ..m },
            Stage::Inspecting,
            ActionView::Resolve(m.request.shell),
        ),
        Err(e) => ended(m, ActionView::Fail(e)),
    }
}

/// After the entry was resolved.
pub open spec fn inspected(m: ManagerView, resolved: Option<Seq<char>>) -> (
    ManagerView,
    ActionView,
) {
    let found = found_state(m.request, m.table, m.all, m.account, resolved);
    if m.request.operation == Operation::Status {
        ended(m, ActionView::Report(found))
    } else if m.request.on_account() {
        asked(
            ManagerView { report: Some(found), ..m },
            Stage::Probing,
            ActionView::Probe(m.request.target()),
        )
    } else {
        match table_outcome(m.request, m.table, found) {
            Ok(TableStepView::Done(report)) => ended(m, ActionView::Report(report)),
            Ok(TableStepView::Replace(bytes, report)) => asked(
                ManagerView { report: Some(report), ..m },
                Stage::Replacing,
                ActionView::ReplaceTable(bytes),
            ),
            Err(e) => ended(m, ActionView::Fail(e)),
        }
    }
}

/// After the target was looked at.
pub open spec fn probed(m: ManagerView, executable: bool) -> (ManagerView, ActionView) {
    if executable && listed(m.table, table_entry(m.request.target())) {
        asked(m, Stage::Comparing, ActionView::ReadLocal(m.request.user->0))
    } else {
        ended(
            m,
            ActionView::Fail(
                ErrorView::Invalid(
                    "account target must be an executable registered in /etc/shells"@,
                ),
            ),
        )
    }
}

/// Once the target is known to be in order for the account.
pub open spec fn chosen(m: ManagerView, local: AccountView, checked: bool) -> (
    ManagerView,
    ActionView,
) {
    match selection(m.request, m.report->0, local, checked) {
        Ok(SelectionView::Done(report)) => ended(m, ActionView::Report(report)),
        Ok(SelectionView::Change(report)) => asked(
            ManagerView { report: Some(report), local: Some(local), ..m },
            Stage::Rechecking,
            ActionView::ReadLocal(m.request.user->0),
        ),
        Err(e) => ended(m, ActionView::Fail(e)),
    }
}

/// After the local account was read for the first time.
pub open spec fn compared_with(m: ManagerView, local: AccountView) -> (ManagerView, ActionView) {
    if !(m.account is Some && agree(m.account->0, local)) {
        ended(m, ActionView::Fail(ErrorView::Conflict("NSS and local account state disagree"@)))
    } else if m.root {
        asked(
            ManagerView { local: Some(local), ..m },
            Stage::Checking,
            ActionView::CheckAccess(local, m.request.target()),
        )
    } else {
        chosen(m, local, false)
    }
}

/// After the account was checked.
pub open spec fn checked_access(m: ManagerView, answer: AccessAnswer) -> (ManagerView, ActionView) {
    match answer {
        AccessAnswer::Checked(true) => chosen(m, m.local->0, true),
        AccessAnswer::Checked(false) => ended(
            m,
            ActionView::Fail(
                ErrorView::AccessDenied(
                    m.local->0.name + " cannot execute "@ + m.request.target(),
                ),
            ),
        ),
        AccessAnswer::Failed(reason) => ended(
            m,
            ActionView::Fail(ErrorView::Backend("account access probe failed: "@ + reason@)),
        ),
    }
}

/// After the local account was read again.
pub open spec fn rechecked(m: ManagerView, again: AccountView) -> (ManagerView, ActionView) {
    if agree(again, m.local->0) {
        asked(
            m,
            Stage::Changing,
            ActionView::ChangeShell(m.request.user->0, m.request.target()),
        )
    } else {
        ended(
            m,
            ActionView::Fail(
                ErrorView::Conflict("account changed before usermod; account unchanged"@),
            ),
        )
    }
}

/// After the local account was read for the last time.
pub open spec fn confirmed(m: ManagerView, after: AccountView) -> (ManagerView, ActionView) {
    if same_components(after.shell, m.request.target()) && after.uid == m.local->0.uid && after.gid
        == m.local->0.gid {
        asked(m, Stage::Relisting, ActionView::ListAccounts)
    } else {
        ended(
            m,
            ActionView::Fail(
                ErrorView::Conflict(
                    "account differs after usermod; inspect administrator changes before retrying"@,
                ),
            ),
        )
    }
}

/// After all accounts were listed once more.
pub open spec fn relisted(m: ManagerView, all: Seq<AccountView>) -> (ManagerView, ActionView) {
    ended(
        m,
        ActionView::Report(
            ReportView {
                account_shell: Some(m.request.target()),
                using_accounts: users_of(all, m.request.shell),
                ..m.report->0
            },
        ),
    )
}

/// How a run goes on after what came back. A failure ends it, and an answer to
/// another question changes nothing.
pub open spec fn advanced(m: ManagerView, event: EventView) -> (ManagerView, ActionView) {
    match (m.stage, event) {
        (Stage::Finished, _) => (m, ActionView::Wait),
        (_, EventView::Failed(e)) => ended(m, ActionView::Fail(e)),
        (Stage::Locking, EventView::Locked) => asked(m, Stage::Reading, ActionView::ReadTable),
        (Stage::Reading, EventView::Table(table)) => asked(
            ManagerView { table, ..m },
            Stage::Listing,
            ActionView::ListAccounts,
        ),
        (Stage::Listing, EventView::Accounts(all)) => listed_accounts(m, all),
        (Stage::Inspecting, EventView::Resolved(resolved)) => inspected(m, resolved),
        (Stage::Replacing, EventView::Replaced) => ended(m, ActionView::Report(m.report->0)),
        (Stage::Probing, EventView::Probed(executable)) => probed(m, executable),
        (Stage::Comparing, EventView::Local(local)) => compared_with(m, local),
        (Stage::Checking, EventView::Access(answer)) => checked_access(m, answer),
        (Stage::Rechecking, EventView::Local(again)) => rechecked(m, again),
        (Stage::Changing, EventView::Changed) => asked(
            m,
            Stage::Confirming,
            ActionView::ReadLocal(m.request.user->0),
        ),
        (Stage::Confirming, EventView::Local(after)) => confirmed(m, after),
        (Stage::Relisting, EventView::Accounts(all)) => relisted(m, all),
        _ => (m, ActionView::Wait),
    }
}

impl Manager {
    /// Starts a run.
    pub fn begin(request: Request, root: bool) -> (res: (Manager, Action))
        ensures
            (res.0@, res.1@) == begun(request@, root),
            res.0@.wf(),
    {
        let mut m = Manager {
            request,
            root,
            stage: Stage::Reading,
            table: Vec::new(),
            all: Vec::new(),
            account: None,
            local: None,
            report: None,
        };
        let action = match authorize(&m.request, root) {
            Err(e) => {
                m.stage = Stage::Finished;
                Action::Fail(e)
            },
            Ok(mutation) => {
                if mutation {
                    m.stage = Stage::Locking;
                    Action::Lock
                } else {
                    Action::ReadTable
                }
            },
        };
        assert(m@ =~~= begun(request@, root).0);
        (m, action)
    }

    fn on_accounts(&mut self, all: Vec<Account>) -> (res: Action)
        requires
            old(self)@.wf(),
            old(self)@.stage == Stage::Listing,
        ensures
            (final(self)@, res@) == listed_accounts(old(self)@, account_views(all@)),
            final(self)@.wf(),
    {
        match find_account(&all, &self.request.user) {
            Ok(account) => {
                self.all = all;
                self.account = account;
                self.stage = Stage::Inspecting;
                assert(self@ =~~= listed_accounts(old(self)@, account_views(all@)).0);
                Action::Resolve(self.request.shell.clone())
            },
            Err(e) => {
                self.stage = Stage::Finished;
                assert(self@ =~~= listed_accounts(old(self)@, account_views(all@)).0);
                Action::Fail(e)
            },
        }
    }

    fn on_resolved(&mut self, resolved: Option<String>) -> (res: Action)
        requires
            old(self)@.wf(),
            old(self)@.stage == Stage::Inspecting,
        ensures
            (final(self)@, res@) == inspected(old(self)@, opt_view(resolved)),
            final(self)@.wf(),
    {
        let ghost expected = inspected(old(self)@, opt_view(resolved));
        let found = status_report(&self.request, &self.table, &self.all, &self.account, resolved);
        match self.request.operation {
            Operation::Status => {
                self.stage = Stage::Finished;
                assert(self@ =~~= expected.0);
                Action::Report(found)
            },
            Operation::Select | Operation::Restore => {
                self.report = Some(found);
                self.stage = Stage::Probing;
                assert(self@ =~~= expected.0);
                Action::Probe(target(&self.request).to_owned())
            },
            Operation::Register | Operation::Unregister => match plan_table(
                &self.request,
                &self.table,
                found,
            ) {
                Ok(TableStep::Done(report)) => {
                    self.stage = Stage::Finished;
                    assert(self@ =~~= expected.0);
                    Action::Report(report)
                },
                Ok(TableStep::Replace(bytes, report)) => {
                    self.report = Some(report);
                    self.stage = Stage::Replacing;
                    assert(self@ =~~= expected.0);
                    Action::ReplaceTable(bytes)
                },
                Err(e) => {
                    self.stage = Stage::Finished;
                    assert(self@ =~~= expected.0);
                    Action::Fail(e)
                },
            },
        }
    }

    /// The account that the request names.
    fn user(&self) -> (res: String)
        requires
            self@.request.user is Some,
        ensures
            res@ == self@.request.user->0,
    {
        match &self.request.user {
            Some(user) => user.clone(),
            None => unreached(),
        }
    }

    fn on_probed(&mut self, executable: bool) -> (res: Action)
        requires
            old(self)@.wf(),
            old(self)@.stage == Stage::Probing,
        ensures
            (final(self)@, res@) == probed(old(self)@, executable),
            final(self)@.wf(),
    {
        match check_target(&self.request, &self.table, executable) {
            Ok(_) => {
                self.stage = Stage::Comparing;
                assert(self@ =~~= probed(old(self)@, executable).0);
                Action::ReadLocal(self.user())
            },
            Err(e) => {
                self.stage = Stage::Finished;
                assert(self@ =~~= probed(old(self)@, executable).0);
                Action::Fail(e)
            },
        }
    }

    fn choose_shell(&mut self, local: Account, checked: bool) -> (res: Action)
        requires
            old(self)@.wf(),
            old(self)@.stage == Stage::Comparing || old(self)@.stage == Stage::Checking,
        ensures
            (final(self)@, res@) == chosen(old(self)@, local@, checked),
            final(self)@.wf(),
    {
        let ghost expected = chosen(old(self)@, local@, checked);
        let mut action = Action::Wait;
        if let Some(report) = self.report.take() {
            let kept = report.copy();
            match plan_selection(&self.request, report, &local, checked) {
                Ok(SelectionStep::Done(report)) => {
                    self.report = Some(kept);
                    self.stage = Stage::Finished;
                    action = Action::Report(report);
                },
                Ok(SelectionStep::Change(report)) => {
                    self.report = Some(report);
                    self.local = Some(local);
                    self.stage = Stage::Rechecking;
                    action = Action::ReadLocal(self.user());
                },
                Err(e) => {
                    self.report = Some(kept);
                    self.stage = Stage::Finished;
                    action = Action::Fail(e);
                },
            }
        }
        assert(self@ =~~= expected.0);
        action
    }

    fn on_first_local(&mut self, local: Account) -> (res: Action)
        requires
            old(self)@.wf(),
            old(self)@.stage == Stage::Comparing,
        ensures
            (final(self)@, res@) == compared_with(old(self)@, local@),
            final(self)@.wf(),
    {
        let ghost expected = compared_with(old(self)@, local@);
        if let Err(e) = check_agreement(&self.account, &local) {
            self.stage = Stage::Finished;
            assert(self@ =~~= expected.0);
            return Action::Fail(e);
        }
        if self.root {
            let copy = local.copy();
            self.local = Some(local);
            self.stage = Stage::Checking;
            assert(self@ =~~= expected.0);
            Action::CheckAccess(copy, target(&self.request).to_owned())
        } else {
            self.choose_shell(local, false)
        }
    }

    /// The local account as it was read first.
    fn first_local(&self) -> (res: Account)
        requires
            self@.local is Some,
        ensures
            res@ == self@.local->0,
    {
        match &self.local {
            Some(local) => local.copy(),
            None => unreached(),
        }
    }

    fn on_access(&mut self, answer: AccessAnswer) -> (res: Action)
        requires
            old(self)@.wf(),
            old(self)@.stage == Stage::Checking,
        ensures
            (final(self)@, res@) == checked_access(old(self)@, answer),
            final(self)@.wf(),
    {
        let local = self.first_local();
        match access_result(answer, &local, target(&self.request)) {
            Ok(_) => self.choose_shell(local, true),
            Err(e) => {
                self.stage = Stage::Finished;
                assert(self@ =~~= checked_access(old(self)@, answer).0);
                Action::Fail(e)
            },
        }
    }

    fn on_second_local(&mut self, again: Account) -> (res: Action)
        requires
            old(self)@.wf(),
            old(self)@.stage == Stage::Rechecking,
        ensures
            (final(self)@, res@) == rechecked(old(self)@, again@),
            final(self)@.wf(),
    {
        let local = self.first_local();
        match check_unchanged(&local, &again) {
            Ok(_) => {
                self.stage = Stage::Changing;
                assert(self@ =~~= rechecked(old(self)@, again@).0);
                Action::ChangeShell(self.user(), target(&self.request).to_owned())
            },
            Err(e) => {
                self.stage = Stage::Finished;
                assert(self@ =~~= rechecked(old(self)@, again@).0);
                Action::Fail(e)
            },
        }
    }

    fn on_last_local(&mut self, after: Account) -> (res: Action)
        requires
            old(self)@.wf(),
            old(self)@.stage == Stage::Confirming,
        ensures
            (final(self)@, res@) == confirmed(old(self)@, after@),
            final(self)@.wf(),
    {
        let local = self.first_local();
        match check_changed(&self.request, &local, &after) {
            Ok(_) => {
                self.stage = Stage::Relisting;
                assert(self@ =~~= confirmed(old(self)@, after@).0);
                Action::ListAccounts
            },
            Err(e) => {
                self.stage = Stage::Finished;
                assert(self@ =~~= confirmed(old(self)@, after@).0);
                Action::Fail(e)
            },
        }
    }

    /// Ends the run with the report as it stands.
    fn conclude(&mut self) -> (res: LoginShellReport)
        requires
            old(self)@.report is Some,
        ensures
            final(self)@ == (ManagerView { stage: Stage::Finished, ..old(self)@ }),
            res@ == old(self)@.report->0,
    {
        self.stage = Stage::Finished;
        assert(self@ =~~= (ManagerView { stage: Stage::Finished, ..old(self)@ }));
        match &self.report {
            Some(report) => report.copy(),
            None => unreached(),
        }
    }

    fn on_relisted(&mut self, all: Vec<Account>) -> (res: Action)
        requires
            old(self)@.wf(),
            old(self)@.stage == Stage::Relisting,
        ensures
            (final(self)@, res@) == relisted(old(self)@, account_views(all@)),
            final(self)@.wf(),
    {
        let report = self.conclude();
        Action::Report(selected(&self.request, report, &all))
    }

    /// Goes on after what came back.
    pub fn advance(&mut self, event: Event) -> (res: Action)
        requires
            old(self)@.wf(),
        ensures
            (final(self)@, res@) == advanced(old(self)@, event@),
            final(self)@.wf(),
    {
        if self.stage == Stage::Finished {
            return Action::Wait;
        }
        let ghost expected = advanced(old(self)@, event@);
        match event {
            Event::Failed(e) => {
                self.stage = Stage::Finished;
                assert(self@ =~~= expected.0);
                Action::Fail(e)
            },
            Event::Locked => {
                if self.stage != Stage::Locking {
                    return Action::Wait;
                }
                self.stage = Stage::Reading;
                assert(self@ =~~= expected.0);
                Action::ReadTable
            },
            Event::Table(table) => {
                if self.stage != Stage::Reading {
                    return Action::Wait;
                }
                self.table = table;
                self.stage = Stage::Listing;
                assert(self@ =~~= expected.0);
                Action::ListAccounts
            },
            Event::Accounts(all) => {
                if self.stage == Stage::Listing {
                    self.on_accounts(all)
                } else if self.stage == Stage::Relisting {
                    self.on_relisted(all)
                } else {
                    Action::Wait
                }
            },
            Event::Resolved(resolved) => {
                if self.stage == Stage::Inspecting {
                    self.on_resolved(resolved)
                } else {
                    Action::Wait
                }
            },
            Event::Replaced => {
                if self.stage == Stage::Replacing {
                    Action::Report(self.conclude())
                } else {
                    Action::Wait
                }
            },
            Event::Probed(executable) => {
                if self.stage == Stage::Probing {
                    self.on_probed(executable)
                } else {
                    Action::Wait
                }
            },
            Event::Local(account) => {
                if self.stage == Stage::Comparing {
                    self.on_first_local(account)
                } else if self.stage == Stage::Rechecking {
                    self.on_second_local(account)
                } else if self.stage == Stage::Confirming {
                    self.on_last_local(account)
                } else {
                    Action::Wait
                }
            },
            Event::Access(answer) => {
                if self.stage == Stage::Checking {
                    self.on_access(answer)
                } else {
                    Action::Wait
                }
            },
            Event::Changed => {
                if self.stage != Stage::Changing {
                    return Action::Wait;
                }
                self.stage = Stage::Confirming;
                assert(self@ =~~= expected.0);
                Action::ReadLocal(self.user())
            },
        }
    }
}

/// Nothing is written for status requests and dry runs, nor for anybody but
/// root.
pub proof fn only_root_writes(m: ManagerView, event: EventView)
    requires
        m.wf(),
        advanced(m, event).1 is ReplaceTable || advanced(m, event).1 is ChangeShell,
    ensures
        m.root,
        m.request.mutates(),
{
}

/// An account is changed only while it has the expected shell, right after it
/// was read again, and only to the shell that was asked for.
pub proof fn accounts_change_from_the_expected_shell(m: ManagerView, event: EventView)
    requires
        m.wf(),
        advanced(m, event).1 is ChangeShell,
    ensures
        event is Local,
        agree(event->Local_0, m.local->0),
        same_components(m.local->0.shell, m.request.expect_shell->0),
        advanced(m, event).1 == ActionView::ChangeShell(m.request.user->0, m.request.target()),
{
}

/// Whatever comes back, a run goes on well formed, and a finished run asks for
/// nothing more.
pub proof fn runs_stay_well_formed(m: ManagerView, event: EventView)
    requires
        m.wf(),
    ensures
        advanced(m, event).0.wf(),
        m.stage == Stage::Finished ==> advanced(m, event) == (m, ActionView::Wait),
{
}

} // verus!
