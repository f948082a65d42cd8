//! One management operation: what is asked, what may change, and what is
//! reported.
//!
//! Whoever carries an operation out locks, reads and writes; the decisions in
//! between are made here.

use vstd::prelude::*;
use vstd::string::*;
use vstd::utf8::encode_scalar;

use crate::login_shell::accounts::{account_views, agree, same_account, Account, AccountView};
use crate::login_shell::error::{Error, ErrorView};
use crate::login_shell::path::{
    accepted, misread, path_refusal, same_components, same_path, validate_path,
};
use crate::login_shell::storage::same_bytes;
use crate::login_shell::table::{changed, changed_table, contains, is_blank, is_entry, listed};
use crate::text::{
    ascii_alnum, chars_of, copy_texts, is_ascii_alnum, join, joined, opt_view, same, texts,
};

verus! {

/// Independently selectable operations.
#[derive(Clone, Copy, Debug, PartialEq, Eq, Structural)]
pub enum Operation {
    /// Read executable, registration, and optional account state.
    Status,
    /// Add the shell entry without selecting it for any account.
    Register,
    /// Remove the entry only when no account uses it.
    Unregister,
    /// Select the installed entry for an explicit local account.
    Select,
    /// Select an explicit replacement shell for an explicit local account.
    Restore,
}

impl Operation {
    /// The name of each operation.
    pub open spec fn label(self) -> Seq<char> {
        match self {
            Operation::Status => "status"@,
            Operation::Register => "register"@,
            Operation::Unregister => "unregister"@,
            Operation::Select => "set"@,
            Operation::Restore => "restore"@,
        }
    }

    /// The name of the operation.
    pub fn name(self) -> (res: &'static str)
        ensures
            res@ == self.label(),
    {
        match self {
            Operation::Status => "status",
            Operation::Register => "register",
            Operation::Unregister => "unregister",
            Operation::Select => "set",
            Operation::Restore => "restore",
        }
    }
}

/// Inputs to one management operation.
#[derive(Clone, Debug)]
pub struct Request {
    /// Operation to perform.
    pub operation: Operation,
    /// Public entry, not its canonicalized private executable target.
    pub shell: String,
    /// Explicit account; required for set and restore.
    pub user: Option<String>,
    /// Expected current account shell; required for set and restore.
    pub expect_shell: Option<String>,
    /// Explicit replacement shell; required for restore.
    pub restore_shell: Option<String>,
    /// Inspect and validate the proposed change without making it.
    pub dry_run: bool,
    /// Keep the registration while an executable is still present.
    pub if_missing: bool,
}

/// What a [`Request`] says.
#[verifier::ext_equal]
pub struct RequestView {
    pub operation: Operation,
    pub shell: Seq<char>,
    pub user: Option<Seq<char>>,
    pub expect_shell: Option<Seq<char>>,
    pub restore_shell: Option<Seq<char>>,
    pub dry_run: bool,
    pub if_missing: bool,
}

impl View for Request {
    type V = RequestView;

    open spec fn view(&self) -> RequestView {
        RequestView {
            operation: self.operation,
            shell: self.shell@,
            user: opt_view(self.user),
            expect_shell: opt_view(self.expect_shell),
            restore_shell: opt_view(self.restore_shell),
            dry_run: self.dry_run,
            if_missing: self.if_missing,
        }
    }
}

impl RequestView {
    /// The operations on an account.
    pub open spec fn on_account(self) -> bool {
        self.operation == Operation::Select || self.operation == Operation::Restore
    }

    /// Whether the request may change anything.
    pub open spec fn mutates(self) -> bool {
        self.operation != Operation::Status && !self.dry_run
    }

    /// The shell that an account is to get.
    pub open spec fn target(self) -> Seq<char> {
        match self.restore_shell {
            Some(path) => path,
            None => self.shell,
        }
    }
}

/// A local account name: letters, digits, `_`, `.` and `-`, not starting with a
/// dash.
pub open spec fn is_user_name(s: Seq<char>) -> bool {
    &&& s.len() > 0
    &&& s[0] != '-'
    &&& forall|i: int|
        0 <= i < s.len() ==> is_ascii_alnum(#[trigger] s[i]) || s[i] == '_' || s[i] == '.' || s[i] == '-'
}

fn user_name(s: &str) -> (res: bool)
    ensures
        res == is_user_name(s@),
{
    let chars = chars_of(s);
    if chars.len() == 0 || chars[0] == '-' {
        return false;
    }
    let mut i: usize = 0;
    while i < chars.len()
        invariant
            chars@ == s@,
            i <= chars@.len(),
            forall|j: int|
                0 <= j < i ==> is_ascii_alnum(#[trigger] s@[j]) || s@[j] == '_' || s@[j] == '.' || s@[j]
                    == '-',
        decreases chars@.len() - i,
    {
        let c: char = chars[i];
        if !(ascii_alnum(c) || c == '_' || c == '.' || c == '-') {
            assert(!(is_ascii_alnum(s@[i as int]) || s@[i as int] == '_' || s@[i as int] == '.'
                || s@[i as int] == '-'));
            return false;
        }
        i = i + 1;
    }
    true
}

/// What is wrong with a request, if anything. The account database permits an
/// empty shell, so an empty expectation is in order; a destination is not.
pub open spec fn request_fault(r: RequestView) -> Option<ErrorView> {
    if !accepted(r.shell) {
        Some(path_refusal())
    } else if r.expect_shell matches Some(p) && p.len() > 0 && !accepted(p) {
        Some(path_refusal())
    } else if r.restore_shell matches Some(p) && !accepted(p) {
        Some(path_refusal())
    } else if r.user matches Some(u) && !is_user_name(u) {
        Some(ErrorView::Invalid("user must be an explicit local account name"@))
    } else if r.on_account() && (r.user is None || r.expect_shell is None) {
        Some(ErrorView::Invalid("set and restore require --user and --expect-shell"@))
    } else if (r.operation == Operation::Restore) != (r.restore_shell is Some) {
        Some(ErrorView::Invalid("only restore requires a replacement shell"@))
    } else if !r.on_account() && r.expect_shell is Some {
        Some(ErrorView::Invalid("--expect-shell is only valid for set and restore"@))
    } else if r.if_missing && r.operation != Operation::Unregister {
        Some(ErrorView::Invalid("--if-missing is only valid for unregister"@))
    } else {
        None
    }
}

/// Checks a request.
pub fn validate(request: &Request) -> (res: Result<(), Error>)
    ensures
        match res {
            Ok(_) => request_fault(request@) is None,
            Err(e) => request_fault(request@) == Some(e@),
        },
{
    if let Err(e) = validate_path(request.shell.as_str()) {
        return Err(e);
    }
    if let Some(path) = &request.expect_shell {
        if !path.as_str().is_empty() {
            if let Err(e) = validate_path(path.as_str()) {
                return Err(e);
            }
        }
    }
    if let Some(path) = &request.restore_shell {
        if let Err(e) = validate_path(path.as_str()) {
            return Err(e);
        }
    }
    if let Some(user) = &request.user {
        if !user_name(user.as_str()) {
            return Err(Error::Invalid("user must be an explicit local account name".to_owned()));
        }
    }
    let on_account: bool = request.operation == Operation::Select || request.operation
        == Operation::Restore;
    if on_account && (request.user.is_none() || request.expect_shell.is_none()) {
        return Err(Error::Invalid("set and restore require --user and --expect-shell".to_owned()));
    }
    if (request.operation == Operation::Restore) != request.restore_shell.is_some() {
        return Err(Error::Invalid("only restore requires a replacement shell".to_owned()));
    }
    if !on_account && request.expect_shell.is_some() {
        return Err(Error::Invalid("--expect-shell is only valid for set and restore".to_owned()));
    }
    if request.if_missing && request.operation != Operation::Unregister {
        return Err(Error::Invalid("--if-missing is only valid for unregister".to_owned()));
    }
    Ok(())
}

/// Whether a request may change anything, which takes root.
pub fn authorize(request: &Request, root: bool) -> (res: Result<bool, Error>)
    ensures
        match res {
            Ok(mutation) => request_fault(request@) is None && mutation == request@.mutates()
                && (mutation ==> root),
            Err(e) => match request_fault(request@) {
                Some(fault) => e@ == fault,
                None => e@ == ErrorView::Permission && request@.mutates() && !root,
            },
        },
{
    if let Err(e) = validate(request) {
        return Err(e);
    }
    let mutation: bool = request.operation != Operation::Status && !request.dry_run;
    if mutation && !root {
        return Err(Error::Permission);
    }
    Ok(mutation)
}

/// The accounts of a name.
pub open spec fn named(all: Seq<AccountView>, user: Seq<char>) -> Seq<AccountView>
    decreases all.len(),
{
    if all.len() == 0 {
        Seq::empty()
    } else {
        let rest = named(all.drop_last(), user);
        if all.last().name == user {
            rest.push(all.last())
        } else {
            rest
        }
    }
}

/// The account that a request is about: a name must be there exactly once.
pub open spec fn account_for(all: Seq<AccountView>, user: Option<Seq<char>>) -> Result<
    Option<AccountView>,
    ErrorView,
> {
    match user {
        None => Ok(None),
        Some(u) => {
            let found = named(all, u);
            if found.len() == 0 {
                Err(ErrorView::Invalid("account not found: "@ + u))
            } else if found.len() == 1 {
                Ok(Some(found[0]))
            } else {
                Err(ErrorView::Conflict("NSS returned multiple accounts named "@ + u))
            }
        },
    }
}

/// The account that a request is about.
pub fn find_account(all: &Vec<Account>, user: &Option<String>) -> (res: Result<Option<Account>, Error>)
    ensures
        *user is None ==> res is Ok && res->Ok_0 is None,
        match res {
            Ok(None) => account_for(account_views(all@), opt_view(*user)) == Ok::<
                Option<AccountView>,
                ErrorView,
            >(None),
            Ok(Some(a)) => account_for(account_views(all@), opt_view(*user)) == Ok::<
                Option<AccountView>,
                ErrorView,
            >(Some(a@)),
            Err(e) => account_for(account_views(all@), opt_view(*user)) == Err::<
                Option<AccountView>,
                ErrorView,
            >(e@),
        },
{
    let name: &str = match user {
        Some(u) => u.as_str(),
        None => {
            return Ok(None);
        },
    };
    let ghost views = account_views(all@);
    let mut found: Option<Account> = None;
    let mut count: usize = 0;
    let mut i: usize = 0;
    assert(views.take(0) =~= Seq::empty());
    while i < all.len()
        invariant
            i <= all@.len(),
            views == account_views(all@),
            count == named(views.take(i as int), name@).len(),
            count <= i,
            count > 0 ==> found is Some && found->0@ == named(views.take(i as int), name@)[0],
        decreases all@.len() - i,
    {
        proof {
            assert(views.take(i + 1).drop_last() =~= views.take(i as int));
            assert(views.take(i + 1).last() == all@[i as int]@);
        }
        if same(all[i].name.as_str(), name) {
            if count == 0 {
                found = Some(all[i].copy());
            }
            count = count + 1;
        }
        i = i + 1;
    }
    assert(views.take(views.len() as int) =~= views);
    if count == 0 {
        Err(Error::Invalid("account not found: ".to_owned().concat(name)))
    } else if count == 1 {
        Ok(found)
    } else {
        Err(Error::Conflict("NSS returned multiple accounts named ".to_owned().concat(name)))
    }
}

/// The names of the accounts that use a shell. Spellings of the same path do
/// not hide an account.
pub open spec fn users_of(all: Seq<AccountView>, shell: Seq<char>) -> Seq<Seq<char>>
    decreases all.len(),
{
    if all.len() == 0 {
        Seq::empty()
    } else {
        let rest = users_of(all.drop_last(), shell);
        if same_components(all.last().shell, shell) {
            rest.push(all.last().name)
        } else {
            rest
        }
    }
}

fn using_names(all: &Vec<Account>, shell: &str) -> (res: Vec<String>)
    ensures
        texts(res@) == users_of(account_views(all@), shell@),
{
    let ghost views = account_views(all@);
    let mut out: Vec<String> = Vec::new();
    let mut i: usize = 0;
    proof {
        assert(views.take(0) =~= Seq::empty());
        assert(texts(out@) =~= Seq::empty());
    }
    while i < all.len()
        invariant
            i <= all@.len(),
            views == account_views(all@),
            texts(out@) == users_of(views.take(i as int), shell@),
        decreases all@.len() - i,
    {
        proof {
            assert(views.take(i + 1).drop_last() =~= views.take(i as int));
            assert(views.take(i + 1).last() == all@[i as int]@);
        }
        if same_path(all[i].shell.as_str(), shell) {
            let ghost before = texts(out@);
            out.push(all[i].name.clone());
            assert(texts(out@) =~= before.push(all@[i as int].name@));
        }
        i = i + 1;
    }
    assert(views.take(views.len() as int) =~= views);
    out
}

/// What an operation found and did.
#[derive(Clone, Debug)]
pub struct LoginShellReport {
    pub operation: String,
    pub shell: String,
    pub resolved_executable: Option<String>,
    pub executable: bool,
    pub registered: bool,
    pub user: Option<String>,
    pub account_shell: Option<String>,
    pub using_accounts: Vec<String>,
    pub changed: bool,
    pub previous_shell: Option<String>,
    pub retained_provider: bool,
    pub account_access_checked: bool,
}

/// What a [`LoginShellReport`] says.
#[verifier::ext_equal]
pub struct ReportView {
    pub operation: Seq<char>,
    pub shell: Seq<char>,
    pub resolved_executable: Option<Seq<char>>,
    pub executable: bool,
    pub registered: bool,
    pub user: Option<Seq<char>>,
    pub account_shell: Option<Seq<char>>,
    pub using_accounts: Seq<Seq<char>>,
    pub changed: bool,
    pub previous_shell: Option<Seq<char>>,
    pub retained_provider: bool,
    pub account_access_checked: bool,
}

impl View for LoginShellReport {
    type V = ReportView;

    open spec fn view(&self) -> ReportView {
        ReportView {
            operation: self.operation@,
            shell: self.shell@,
            resolved_executable: opt_view(self.resolved_executable),
            executable: self.executable,
            registered: self.registered,
            user: opt_view(self.user),
            account_shell: opt_view(self.account_shell),
            using_accounts: texts(self.using_accounts@),
            changed: self.changed,
            previous_shell: opt_view(self.previous_shell),
            retained_provider: self.retained_provider,
            account_access_checked: self.account_access_checked,
        }
    }
}

impl LoginShellReport {
    /// The same report.
    pub fn copy(&self) -> (res: LoginShellReport)
        ensures
            res@ == self@,
    {
        let res = LoginShellReport {
            operation: self.operation.clone(),
            shell: self.shell.clone(),
            resolved_executable: self.resolved_executable.clone(),
            executable: self.executable,
            registered: self.registered,
            user: self.user.clone(),
            account_shell: self.account_shell.clone(),
            using_accounts: copy_texts(&self.using_accounts),
            changed: self.changed,
            previous_shell: self.previous_shell.clone(),
            retained_provider: self.retained_provider,
            account_access_checked: self.account_access_checked,
        };
        assert(res@ =~~= self@);
        res
    }
}

/// The bytes of a text as the shell table holds them.
pub open spec fn table_entry(shell: Seq<char>) -> Seq<u8> {
    vstd::utf8::encode_utf8(shell)
}

/// A byte that means something else in the shell table than a part of an entry.
spec fn special(b: u8) -> bool {
    is_blank(b) || b == 0x23
}

proof fn lemma_char_bytes(c: char, i: int)
    requires
        !misread(c),
        0 <= i < encode_scalar(c as u32).len(),
    ensures
        !special(encode_scalar(c as u32)[i]),
{
    let scalar = c as u32;
    assert(scalar <= 0x7f ==> (scalar & 0x7f) as u8 == scalar) by (bit_vector);
    assert(0xC0 | ((scalar >> 6) & 0x1F) as u8 >= 0x80 && 0xE0 | ((scalar >> 12) & 0x0F) as u8
        >= 0x80 && 0xF0 | ((scalar >> 18) & 0x7) as u8 >= 0x80) by (bit_vector);
    assert(0x80 | (scalar & 0x3F) as u8 >= 0x80 && 0x80 | ((scalar >> 6) & 0x3F) as u8 >= 0x80 && 0x80
        | ((scalar >> 12) & 0x3F) as u8 >= 0x80) by (bit_vector);
}

proof fn lemma_no_special_byte(text: Seq<char>, i: int)
    requires
        forall|k: int| 0 <= k < text.len() ==> !misread(#[trigger] text[k]),
        0 <= i < table_entry(text).len(),
    ensures
        !special(table_entry(text)[i]),
    decreases text.len(),
{
    let first = encode_scalar(text[0] as u32);
    let rest = text.drop_first();
    assert(table_entry(text) == first + table_entry(rest));
    if i < first.len() {
        lemma_char_bytes(text[0], i);
    } else {
        assert forall|k: int| 0 <= k < rest.len() implies !misread(#[trigger] rest[k]) by {
            assert(rest[k] == text[k + 1]);
        }
        lemma_no_special_byte(rest, i - first.len());
    }
}

/// The bytes of an accepted path can stand in the shell table as an entry.
pub proof fn accepted_paths_are_entries(path: Seq<char>)
    requires
        accepted(path),
    ensures
        is_entry(table_entry(path)),
{
    let bytes = table_entry(path);
    assert forall|i: int| 0 <= i < bytes.len() implies !special(#[trigger] bytes[i]) by {
        lemma_no_special_byte(path, i);
    }
    assert(encode_scalar(path[0] as u32).len() > 0);
}

fn entry_bytes(shell: &str) -> (res: Vec<u8>)
    ensures
        res@ == table_entry(shell@),
{
    shell.as_bytes_vec()
}

/// What is found before anything is changed. `resolved` is the executable
/// behind the entry, if there is one.
pub open spec fn found_state(
    r: RequestView,
    table: Seq<u8>,
    all: Seq<AccountView>,
    account: Option<AccountView>,
    resolved: Option<Seq<char>>,
) -> ReportView {
    ReportView {
        operation: r.operation.label(),
        shell: r.shell,
        resolved_executable: resolved,
        executable: resolved is Some,
        registered: listed(table, table_entry(r.shell)),
        user: r.user,
        account_shell: match account {
            Some(a) => Some(a.shell),
            None => None,
        },
        using_accounts: users_of(all, r.shell),
        changed: false,
        previous_shell: None,
        retained_provider: false,
        account_access_checked: false,
    }
}

/// What is found before anything is changed.
pub fn status_report(
    request: &Request,
    table: &Vec<u8>,
    all: &Vec<Account>,
    account: &Option<Account>,
    resolved: Option<String>,
) -> (res: LoginShellReport)
    ensures
        res@ == found_state(
            request@,
            table@,
            account_views(all@),
            match account {
                Some(a) => Some(a@),
                None => None,
            },
            opt_view(resolved),
        ),
{
    let entry = entry_bytes(request.shell.as_str());
    let registered: bool = contains(table, &entry);
    let using_accounts = using_names(all, request.shell.as_str());
    let executable: bool = resolved.is_some();
    LoginShellReport {
        operation: request.operation.name().to_owned(),
        shell: request.shell.clone(),
        resolved_executable: resolved,
        executable,
        registered,
        user: request.user.clone(),
        account_shell: match account {
            Some(a) => Some(a.shell.clone()),
            None => None,
        },
        using_accounts,
        changed: false,
        previous_shell: None,
        retained_provider: false,
        account_access_checked: false,
    }
}

/// What a registration or removal leads to.
pub enum TableStep {
    /// Nothing has to be written.
    Done(LoginShellReport),
    /// Write this table; the report holds once it is written.
    Replace(Vec<u8>, LoginShellReport),
}

/// What a [`TableStep`] says.
pub enum TableStepView {
    Done(ReportView),
    Replace(Seq<u8>, ReportView),
}

impl View for TableStep {
    type V = TableStepView;

    open spec fn view(&self) -> TableStepView {
        match self {
            TableStep::Done(r) => TableStepView::Done(r@),
            TableStep::Replace(bytes, r) => TableStepView::Replace(bytes@, r@),
        }
    }
}

/// What a registration or removal leads to. Only an executable is registered;
/// an entry in use is not removed, nor one whose executable is to be kept.
pub open spec fn table_outcome(r: RequestView, table: Seq<u8>, report: ReportView) -> Result<
    TableStepView,
    ErrorView,
> {
    let register = r.operation == Operation::Register;
    if register && !report.executable {
        Err(ErrorView::Invalid("registration requires an existing executable shell entry"@))
    } else if !register && r.if_missing && report.executable {
        Ok(TableStepView::Done(ReportView { retained_provider: true, ..report }))
    } else if !register && report.using_accounts.len() > 0 {
        Err(
            ErrorView::Conflict(
                "shell is still configured for accounts: "@ + joined(report.using_accounts, ", "@),
            ),
        )
    } else {
        let bytes = changed_table(table, table_entry(r.shell), register);
        if bytes != table && !r.dry_run {
            Ok(
                TableStepView::Replace(
                    bytes,
                    ReportView { changed: true, registered: register, ..report },
                ),
            )
        } else {
            Ok(TableStepView::Done(ReportView { changed: bytes != table, ..report }))
        }
    }
}

/// Decides what a registration or removal leads to.
pub fn plan_table(request: &Request, table: &Vec<u8>, report: LoginShellReport) -> (res: Result<
    TableStep,
    Error,
>)
    requires
        request.operation == Operation::Register || request.operation == Operation::Unregister,
    ensures
        match res {
            Ok(step) => table_outcome(request@, table@, report@) == Ok::<TableStepView, ErrorView>(step@),
            Err(e) => table_outcome(request@, table@, report@) == Err::<TableStepView, ErrorView>(e@),
        },
{
    let ghost given = report@;
    let mut report = report;
    let register: bool = request.operation == Operation::Register;
    if register && !report.executable {
        return Err(
            Error::Invalid("registration requires an existing executable shell entry".to_owned()),
        );
    }
    if !register {
        if request.if_missing && report.executable {
            report.retained_provider = true;
            assert(report@ =~~= (ReportView { retained_provider: true, ..given }));
            return Ok(TableStep::Done(report));
        }
        if report.using_accounts.len() > 0 {
            let names = join(&report.using_accounts, ", ");
            return Err(
                Error::Conflict(
                    "shell is still configured for accounts: ".to_owned().concat(names.as_str()),
                ),
            );
        }
        assert(given.using_accounts.len() == 0);
    }
    let entry = entry_bytes(request.shell.as_str());
    let bytes = changed(table, &entry, register);
    let differs: bool = !same_bytes(&bytes, table);
    report.changed = differs;
    if differs && !request.dry_run {
        report.registered = register;
        assert(report@ =~~= (ReportView { changed: true, registered: register, ..given }));
        return Ok(TableStep::Replace(bytes, report));
    }
    assert(report@ =~~= (ReportView { changed: differs, ..given }));
    Ok(TableStep::Done(report))
}

/// The shell that an account is to get.
pub fn target(request: &Request) -> (res: &str)
    ensures
        res@ == request@.target(),
{
    match &request.restore_shell {
        Some(path) => path.as_str(),
        None => request.shell.as_str(),
    }
}

/// An account only gets a registered executable.
pub fn check_target(request: &Request, table: &Vec<u8>, executable: bool) -> (res: Result<(), Error>)
    ensures
        match res {
            Ok(_) => executable && listed(table@, table_entry(request@.target())),
            Err(e) => !(executable && listed(table@, table_entry(request@.target()))) && e@
                == ErrorView::Invalid(
                "account target must be an executable registered in /etc/shells"@,
            ),
        },
{
    let entry = entry_bytes(target(request));
    if !executable || !contains(table, &entry) {
        return Err(
            Error::Invalid("account target must be an executable registered in /etc/shells".to_owned()),
        );
    }
    Ok(())
}

/// The local account must be the one that was listed.
pub fn check_agreement(account: &Option<Account>, local: &Account) -> (res: Result<(), Error>)
    ensures
        match res {
            Ok(_) => account is Some && agree(account->0@, local@),
            Err(e) => !(account is Some && agree(account->0@, local@)) && e@ == ErrorView::Conflict(
                "NSS and local account state disagree"@,
            ),
        },
{
    let matching: bool = match account {
        Some(a) => same_account(a, local),
        None => false,
    };
    if matching {
        Ok(())
    } else {
        Err(Error::Conflict("NSS and local account state disagree".to_owned()))
    }
}

/// What a selection leads to.
pub enum SelectionStep {
    /// The account stays as it is.
    Done(LoginShellReport),
    /// Read the account once more, then change it.
    Change(LoginShellReport),
}

/// What a [`SelectionStep`] says.
pub enum SelectionView {
    Done(ReportView),
    Change(ReportView),
}

impl View for SelectionStep {
    type V = SelectionView;

    open spec fn view(&self) -> SelectionView {
        match self {
            SelectionStep::Done(r) => SelectionView::Done(r@),
            SelectionStep::Change(r) => SelectionView::Change(r@),
        }
    }
}

/// What a selection leads to: nothing if the account has the shell already, and
/// a refusal if it has another shell than expected.
pub open spec fn selection(r: RequestView, report: ReportView, local: AccountView, checked: bool) -> Result<
    SelectionView,
    ErrorView,
> {
    let seen = ReportView {
        account_access_checked: report.account_access_checked || checked,
        previous_shell: Some(local.shell),
        ..report
    };
    if same_components(local.shell, r.target()) {
        Ok(SelectionView::Done(seen))
    } else if !same_components(local.shell, r.expect_shell->0) {
        Err(
            ErrorView::Conflict(
                r.user->0 + " has shell "@ + local.shell + ", expected "@ + r.expect_shell->0
                    + "; account unchanged"@,
            ),
        )
    } else if r.dry_run {
        Ok(SelectionView::Done(ReportView { changed: true, ..seen }))
    } else {
        Ok(SelectionView::Change(ReportView { changed: true, ..seen }))
    }
}

/// Decides what a selection leads to. `checked` says that the account was shown
/// to be able to execute the target.
pub fn plan_selection(request: &Request, report: LoginShellReport, local: &Account, checked: bool) -> (res: Result<
    SelectionStep,
    Error,
>)
    requires
        request.user is Some,
        request.expect_shell is Some,
    ensures
        match res {
            Ok(step) => selection(request@, report@, local@, checked) == Ok::<SelectionView, ErrorView>(
                step@,
            ),
            Err(e) => selection(request@, report@, local@, checked) == Err::<SelectionView, ErrorView>(
                e@,
            ),
        },
{
    let ghost given = report@;
    let mut report = report;
    if checked {
        report.account_access_checked = true;
    }
    report.previous_shell = Some(local.shell.clone());
    let ghost seen = ReportView {
        account_access_checked: given.account_access_checked || checked,
        previous_shell: Some(local.shell@),
        ..given
    };
    assert(report@ =~~= seen);
    if same_path(local.shell.as_str(), target(request)) {
        return Ok(SelectionStep::Done(report));
    }
    if let Some(expected) = &request.expect_shell {
        if !same_path(local.shell.as_str(), expected.as_str()) {
            if let Some(user) = &request.user {
                return Err(
                    Error::Conflict(
                        user.clone().concat(" has shell ").concat(local.shell.as_str()).concat(
                            ", expected ",
                        ).concat(expected.as_str()).concat("; account unchanged"),
                    ),
                );
            }
        }
    }
    report.changed = true;
    assert(report@ =~~= (ReportView { changed: true, ..seen }));
    if request.dry_run {
        Ok(SelectionStep::Done(report))
    } else {
        Ok(SelectionStep::Change(report))
    }
}

/// Right before the change the account must still be as it was.
pub fn check_unchanged(local: &Account, again: &Account) -> (res: Result<(), Error>)
    ensures
        match res {
            Ok(_) => agree(again@, local@),
            Err(e) => !agree(again@, local@) && e@ == ErrorView::Conflict(
                "account changed before usermod; account unchanged"@,
            ),
        },
{
    if same_account(again, local) {
        Ok(())
    } else {
        Err(Error::Conflict("account changed before usermod; account unchanged".to_owned()))
    }
}

/// After the change the account must have the target, and be the same account.
pub fn check_changed(request: &Request, local: &Account, after: &Account) -> (res: Result<(), Error>)
    ensures
        match res {
            Ok(_) => same_components(after@.shell, request@.target()) && after.uid == local.uid
                && after.gid == local.gid,
            Err(e) => !(same_components(after@.shell, request@.target()) && after.uid == local.uid
                && after.gid == local.gid) && e@ == ErrorView::Conflict(
                "account differs after usermod; inspect administrator changes before retrying"@,
            ),
        },
{
    if !same_path(after.shell.as_str(), target(request)) || after.uid != local.uid || after.gid
        != local.gid {
        return Err(
            Error::Conflict(
                "account differs after usermod; inspect administrator changes before retrying".to_owned(),
            ),
        );
    }
    Ok(())
}

/// The report of a change that was made.
pub fn selected(request: &Request, report: LoginShellReport, all: &Vec<Account>) -> (res: LoginShellReport)
    ensures
        res@ == (ReportView {
            account_shell: Some(request@.target()),
            using_accounts: users_of(account_views(all@), request@.shell),
            ..report@
        }),
{
    let ghost given = report@;
    let mut report = report;
    report.account_shell = Some(target(request).to_owned());
    report.using_accounts = using_names(all, request.shell.as_str());
    assert(report@ =~~= (ReportView {
        account_shell: Some(request@.target()),
        using_accounts: users_of(account_views(all@), request@.shell),
        ..given
    }));
    report
}

/// Who runs the access check.
#[derive(Clone, Copy, Debug, PartialEq, Eq, Structural)]
pub struct Caller {
    pub uid: u32,
    pub euid: u32,
    pub gid: u32,
    pub egid: u32,
}

/// How the access check goes on.
#[derive(Clone, Copy, Debug, PartialEq, Eq, Structural)]
pub enum AccessStep {
    /// Adopt the account's groups and identity, then look.
    Adopt,
    /// Look with the identity at hand.
    Look,
}

/// Decides how an access check runs: root adopts the account, anybody else can
/// only check their own identity.
pub fn probe_access(caller: Caller, user: &str, uid: u32, gid: u32) -> (res: Result<AccessStep, Error>)
    ensures
        match res {
            Ok(AccessStep::Adopt) => caller.euid == 0 && !user@.contains('\0'),
            Ok(AccessStep::Look) => caller.euid != 0 && caller.uid == uid && caller.euid == uid
                && caller.gid == gid && caller.egid == gid,
            Err(e) => if caller.euid == 0 {
                user@.contains('\0') && e@ == ErrorView::Invalid("account name contains NUL"@)
            } else {
                !(caller.uid == uid && caller.euid == uid && caller.gid == gid && caller.egid == gid)
                    && e@ == ErrorView::Permission
            },
        },
{
    if caller.euid == 0 {
        let chars = chars_of(user);
        let mut i: usize = 0;
        while i < chars.len()
            invariant
                chars@ == user@,
                i <= chars@.len(),
                caller.euid == 0,
                forall|j: int| 0 <= j < i ==> user@[j] != '\0',
            decreases chars@.len() - i,
        {
            if chars[i] == '\0' {
                assert(user@[i as int] == '\0');
                return Err(Error::Invalid("account name contains NUL".to_owned()));
            }
            i = i + 1;
        }
        return Ok(AccessStep::Adopt);
    }
    if caller.uid != uid || caller.euid != uid || caller.gid != gid || caller.egid != gid {
        return Err(Error::Permission);
    }
    Ok(AccessStep::Look)
}

/// How the system answered when it was asked whether a shell can be executed.
pub enum AccessOutcome {
    /// It can; then whether it is a regular file, or why that could not be told.
    Granted(Result<bool, Error>),
    /// It refused, with this error number and its description.
    Refused(i32, Error),
}

/// Error numbers that mean that a shell cannot be executed: it or a directory on
/// the way is closed to the account, is missing, or is no directory.
pub open spec fn means_no_access(errno: i32) -> bool {
    errno == EACCES || errno == ENOENT || errno == ENOTDIR
}

/// The error number of missing permission.
pub const EACCES: i32 = 13;

/// The error number of a missing file.
pub const ENOENT: i32 = 2;

/// The error number of a path through something that is no directory.
pub const ENOTDIR: i32 = 20;

/// Whether a shell can be executed: only a regular file can, and only a refusal
/// for want of access counts as an answer.
pub fn access_answer(outcome: AccessOutcome) -> (res: Result<bool, Error>)
    ensures
        match outcome {
            AccessOutcome::Granted(regular) => res == regular,
            AccessOutcome::Refused(errno, error) => if means_no_access(errno) {
                res == Ok::<bool, Error>(false)
            } else {
                res == Err::<bool, Error>(error)
            },
        },
{
    match outcome {
        AccessOutcome::Granted(regular) => regular,
        AccessOutcome::Refused(errno, error) => {
            if errno == EACCES || errno == ENOENT || errno == ENOTDIR {
                Ok(false)
            } else {
                Err(error)
            }
        },
    }
}

/// What the access check of an account said.
pub enum AccessAnswer {
    /// The check ran; says whether the account can execute the shell.
    Checked(bool),
    /// The check failed, for this reason.
    Failed(String),
}

/// What the access check of an account means.
pub fn access_result(answer: AccessAnswer, account: &Account, shell: &str) -> (res: Result<(), Error>)
    ensures
        match answer {
            AccessAnswer::Checked(true) => res is Ok,
            AccessAnswer::Checked(false) => res is Err && res->Err_0@ == ErrorView::AccessDenied(
                account@.name + " cannot execute "@ + shell@,
            ),
            AccessAnswer::Failed(reason) => res is Err && res->Err_0@ == ErrorView::Backend(
                "account access probe failed: "@ + reason@,
            ),
        },
{
    match answer {
        AccessAnswer::Checked(allowed) => {
            if allowed {
                Ok(())
            } else {
                Err(Error::AccessDenied(account.name.clone().concat(" cannot execute ").concat(shell)))
            }
        },
        AccessAnswer::Failed(reason) => Err(
            Error::Backend("account access probe failed: ".to_owned().concat(reason.as_str())),
        ),
    }
}

/// Status and dry runs never write the table, and whoever is not root never
/// gets that far.
pub proof fn only_mutations_write(r: RequestView, table: Seq<u8>, report: ReportView)
    requires
        r.operation == Operation::Register || r.operation == Operation::Unregister,
        table_outcome(r, table, report) matches Ok(TableStepView::Replace(_, _)),
    ensures
        r.mutates(),
{
}

/// Neither do they change an account.
pub proof fn only_mutations_select(r: RequestView, report: ReportView, local: AccountView, checked: bool)
    requires
        r.on_account(),
        selection(r, report, local, checked) matches Ok(SelectionView::Change(_)),
    ensures
        r.mutates(),
{
}

/// An entry that an account uses is never removed, however the path is spelled.
pub proof fn used_entries_stay(
    r: RequestView,
    table: Seq<u8>,
    all: Seq<AccountView>,
    account: Option<AccountView>,
    resolved: Option<Seq<char>>,
    i: int,
)
    requires
        r.operation == Operation::Unregister,
        0 <= i < all.len(),
        same_components(all[i].shell, r.shell),
    ensures
        !(table_outcome(r, table, found_state(r, table, all, account, resolved)) matches Ok(
            TableStepView::Replace(_, _),
        )),
{
    lemma_users(all, r.shell, i);
}

proof fn lemma_users(all: Seq<AccountView>, shell: Seq<char>, i: int)
    requires
        0 <= i < all.len(),
        same_components(all[i].shell, shell),
    ensures
        users_of(all, shell).len() > 0,
    decreases all.len(),
{
    if i < all.len() - 1 {
        assert(all.drop_last()[i] == all[i]);
        lemma_users(all.drop_last(), shell, i);
    }
}

/// An account is only changed away from the shell that the caller expected.
pub proof fn changes_start_from_the_expected_shell(
    r: RequestView,
    report: ReportView,
    local: AccountView,
    checked: bool,
)
    requires
        selection(r, report, local, checked) matches Ok(SelectionView::Change(_)),
    ensures
        same_components(local.shell, r.expect_shell->0),
        !same_components(local.shell, r.target()),
{
}

/// Selecting the shell that an account already has changes nothing, whatever
/// was expected.
pub proof fn selecting_again_changes_nothing(
    r: RequestView,
    report: ReportView,
    local: AccountView,
    checked: bool,
)
    requires
        same_components(local.shell, r.target()),
        !report.changed,
    ensures
        selection(r, report, local, checked) matches Ok(SelectionView::Done(done)) && !done.changed,
{
}

/// Registering what is registered is reported as no change.
pub proof fn registering_again_is_no_change(
    r: RequestView,
    table: Seq<u8>,
    report: ReportView,
)
    requires
        r.operation == Operation::Register,
        report.executable,
        listed(table, table_entry(r.shell)),
    ensures
        table_outcome(r, table, report) == Ok::<TableStepView, ErrorView>(
            TableStepView::Done(ReportView { changed: false, ..report }),
        ),
{
}

} // verus!
