use std::cell::{Cell, RefCell};

use cosh::login_shell::accounts::{
    all_accounts, only_account, parse_accounts, same_account, Account,
};
use cosh::login_shell::cli::{
    cli_error, request_for, AccessProbeArgs, AccountArgs, LoginShellArgs, LoginShellCommand,
};
use cosh::login_shell::error::{Error, IoKind};
use cosh::login_shell::manage::{
    access_answer, access_result, probe_access, validate, AccessAnswer, AccessOutcome, AccessStep,
    Caller, LoginShellReport, Operation, Request, EACCES, ENOENT, ENOTDIR,
};
use cosh::login_shell::manager::{Action, Event, Manager};
use cosh::login_shell::path::{entry_path, has_directory, join_path, same_path, validate_path};
use cosh::login_shell::storage::{
    attribute_names, check_lock, check_table_file, check_table_size, check_table_unchanged,
    same_bytes, stray_attributes, Stamp, TableState,
};
use cosh::login_shell::table::{changed, contains, LIMIT};

const SHELL: &str = "/opt/cosh/bin/cosh";
const FALLBACK: &str = "/bin/bash";

/// The system that a manager runs on.
struct Fixture {
    table: RefCell<Option<Vec<u8>>>,
    executables: RefCell<Vec<String>>,
    entries: RefCell<Vec<Account>>,
    locked: Cell<bool>,
    locks: Cell<usize>,
    updates: Cell<usize>,
    reads: Cell<usize>,
    edit_on_second_read: bool,
    fail_update: bool,
    fail_enumeration: bool,
    local_uid: Option<u32>,
    access_error: bool,
    access_checks: Cell<usize>,
    checked_target: RefCell<Option<String>>,
}

impl Fixture {
    fn new() -> Self {
        Fixture {
            table: RefCell::new(Some(
                format!("# administrator comment\n{FALLBACK}\n").into_bytes(),
            )),
            executables: RefCell::new(vec![SHELL.to_string(), FALLBACK.to_string()]),
            entries: RefCell::new(vec![Account {
                name: "alice".to_string(),
                uid: 1000,
                gid: 1000,
                shell: FALLBACK.to_string(),
            }]),
            locked: Cell::new(false),
            locks: Cell::new(0),
            updates: Cell::new(0),
            reads: Cell::new(0),
            edit_on_second_read: false,
            fail_update: false,
            fail_enumeration: false,
            local_uid: None,
            access_error: false,
            access_checks: Cell::new(0),
            checked_target: RefCell::new(None),
        }
    }

    fn request(&self, operation: Operation) -> Request {
        Request {
            operation,
            shell: SHELL.to_string(),
            user: Some("alice".to_string()),
            expect_shell: None,
            restore_shell: None,
            dry_run: false,
            if_missing: false,
        }
    }

    fn bytes(&self) -> Vec<u8> {
        self.table.borrow().clone().unwrap_or_default()
    }

    fn is_executable(&self, path: &str) -> bool {
        self.executables
            .borrow()
            .iter()
            .any(|known| same_path(known, path))
    }

    fn local(&self, user: &str) -> Account {
        self.reads.set(self.reads.get() + 1);
        let mut account = self
            .entries
            .borrow()
            .iter()
            .find(|account| account.name == user)
            .expect("account")
            .clone();
        if let Some(uid) = self.local_uid {
            account.uid = uid;
        }
        if self.edit_on_second_read && self.reads.get() == 2 {
            account.shell = "/administrator/shell".to_string();
        }
        account
    }

    fn perform(&self, action: &Action) -> Event {
        match action {
            Action::Lock => {
                if self.locked.get() {
                    return Event::Failed(Error::Conflict("another manager runs".to_string()));
                }
                self.locks.set(self.locks.get() + 1);
                Event::Locked
            }
            Action::ReadTable => Event::Table(self.bytes()),
            Action::ListAccounts => {
                if self.fail_enumeration {
                    return Event::Failed(Error::Backend("fixture enumeration failed".into()));
                }
                Event::Accounts(self.entries.borrow().clone())
            }
            Action::Resolve(entry) => Event::Resolved(if self.is_executable(entry) {
                Some(entry.clone())
            } else {
                None
            }),
            Action::ReplaceTable(bytes) => {
                *self.table.borrow_mut() = Some(bytes.clone());
                Event::Replaced
            }
            Action::Probe(path) => Event::Probed(self.is_executable(path)),
            Action::ReadLocal(user) => Event::Local(self.local(user)),
            Action::CheckAccess(_, shell) => {
                self.access_checks.set(self.access_checks.get() + 1);
                *self.checked_target.borrow_mut() = Some(shell.clone());
                Event::Access(AccessAnswer::Checked(!self.access_error))
            }
            Action::ChangeShell(user, shell) => {
                if self.fail_update {
                    return Event::Failed(Error::Backend("fixture usermod failed".into()));
                }
                self.updates.set(self.updates.get() + 1);
                self.entries
                    .borrow_mut()
                    .iter_mut()
                    .find(|account| &account.name == user)
                    .expect("account")
                    .shell = shell.clone();
                Event::Changed
            }
            Action::Wait | Action::Report(_) | Action::Fail(_) => unreachable!(),
        }
    }

    fn run_as(&self, request: &Request, root: bool) -> Result<LoginShellReport, Error> {
        self.reads.set(0);
        let (mut manager, mut action) = Manager::begin(request.clone(), root);
        loop {
            match action {
                Action::Report(report) => return Ok(report),
                Action::Fail(error) => return Err(error),
                other => action = manager.advance(self.perform(&other)),
            }
        }
    }

    fn run(&self, request: &Request) -> Result<LoginShellReport, Error> {
        self.run_as(request, true)
    }

    fn listed(&self, entry: &str) -> bool {
        contains(&self.bytes(), &entry.as_bytes().to_vec())
    }
}

#[test]
fn status_and_dry_run_are_unprivileged_and_write_nothing() {
    let f = Fixture::new();
    let original = f.bytes();
    let status = f
        .run_as(&f.request(Operation::Status), false)
        .ok()
        .expect("status");
    assert!(status.executable);
    assert!(!status.registered);
    assert_eq!(status.account_shell.as_deref(), Some(FALLBACK));
    let mut request = f.request(Operation::Register);
    request.dry_run = true;
    assert!(f.run_as(&request, false).ok().expect("preview").changed);
    assert_eq!(f.bytes(), original);
    assert_eq!(f.locks.get(), 0);
    request.dry_run = false;
    assert!(matches!(
        f.run_as(&request, false),
        Err(Error::Permission)
    ));
    assert_eq!(f.locks.get(), 0);
}

#[test]
fn registration_is_idempotent_and_preserves_comments() {
    let f = Fixture::new();
    let original = f.bytes();
    assert!(f.run(&f.request(Operation::Register)).ok().unwrap().changed);
    assert_eq!(
        f.bytes(),
        format!("# administrator comment\n{FALLBACK}\n{SHELL}\n").into_bytes()
    );
    assert!(!f.run(&f.request(Operation::Register)).ok().unwrap().changed);
    assert!(
        f.run(&f.request(Operation::Unregister))
            .ok()
            .unwrap()
            .changed
    );
    assert!(
        !f.run(&f.request(Operation::Unregister))
            .ok()
            .unwrap()
            .changed
    );
    assert_eq!(f.bytes(), original);
}

#[test]
fn missing_table_and_unterminated_lines_preserve_content() {
    let f = Fixture::new();
    *f.table.borrow_mut() = Some(b"# keep without final newline".to_vec());
    f.run(&f.request(Operation::Register)).ok().unwrap();
    assert!(f.bytes().starts_with(b"# keep without final newline\n"));
    *f.table.borrow_mut() = None;
    assert!(
        !f.run(&f.request(Operation::Unregister))
            .ok()
            .unwrap()
            .changed
    );
    assert!(f.table.borrow().is_none());
    f.run(&f.request(Operation::Register)).ok().unwrap();
    assert!(f.listed(SHELL));
}

fn stamp(ino: u64) -> Option<Stamp> {
    Some(Stamp {
        dev: 1,
        ino,
        len: 3,
        mode: 0o644,
        uid: 0,
        gid: 0,
        mtime: 1,
        mtime_nsec: 2,
        ctime: 3,
        ctime_nsec: 4,
    })
}

#[test]
fn interrupted_or_conflicting_preparation_never_replaces_current_table() {
    let before = TableState {
        target: "/etc/shells".to_string(),
        bytes: b"old".to_vec(),
        stamp: stamp(1),
    };
    assert!(check_table_unchanged(&before, &before).is_ok());
    let mut edited = before.clone();
    edited.bytes = b"# administrator edited while update prepared\n".to_vec();
    assert!(matches!(
        check_table_unchanged(&before, &edited),
        Err(Error::Conflict(_))
    ));
    let mut replaced = before.clone();
    replaced.stamp = stamp(2);
    assert!(check_table_unchanged(&before, &replaced).is_err());
    let f = Fixture::new();
    let original = f.bytes();
    f.locked.set(true);
    assert!(matches!(
        f.run(&f.request(Operation::Register)),
        Err(Error::Conflict(_))
    ));
    assert_eq!(f.bytes(), original);
}

#[test]
fn changed_symlink_and_hardlink_are_not_overwritten() {
    let before = TableState {
        target: "/etc/shells".to_string(),
        bytes: b"old".to_vec(),
        stamp: stamp(1),
    };
    let mut moved = before.clone();
    moved.target = "/etc/other-shells".to_string();
    assert!(matches!(
        check_table_unchanged(&before, &moved),
        Err(Error::Conflict(_))
    ));
    assert!(check_table_file(true, 1, LIMIT).is_ok());
    assert!(matches!(
        check_table_file(true, 2, 3),
        Err(Error::Conflict(_))
    ));
    assert!(check_table_file(false, 1, 3).is_err());
    assert!(check_table_file(true, 1, LIMIT + 1).is_err());
    assert!(check_table_size(&vec![b'x'; LIMIT as usize]).is_ok());
    assert!(check_table_size(&vec![b'x'; LIMIT as usize + 1]).is_err());
    assert!(check_lock(true, 1, 7, 7).is_ok());
    assert!(check_lock(true, 2, 7, 7).is_err());
    assert!(check_lock(false, 1, 7, 7).is_err());
    assert!(matches!(check_lock(true, 1, 7, 8), Err(Error::Conflict(_))));
}

#[test]
fn explicit_set_restore_is_idempotent_and_preserves_administrator_changes() {
    let f = Fixture::new();
    f.run(&f.request(Operation::Register)).ok().unwrap();
    let mut set = f.request(Operation::Select);
    set.expect_shell = Some(FALLBACK.to_string());
    let result = f.run(&set).ok().unwrap();
    assert_eq!(result.operation, "set");
    assert_eq!(result.previous_shell.as_deref(), Some(FALLBACK));
    assert_eq!(result.account_shell.as_deref(), Some(SHELL));
    assert!(!f.run(&set).ok().unwrap().changed);
    assert!(matches!(
        f.run(&f.request(Operation::Unregister)),
        Err(Error::Conflict(_))
    ));
    let mut restore = f.request(Operation::Restore);
    restore.expect_shell = Some(SHELL.to_string());
    restore.restore_shell = Some(FALLBACK.to_string());
    assert!(f.run(&restore).ok().unwrap().changed);
    assert!(!f.run(&restore).ok().unwrap().changed);
    assert_eq!(f.updates.get(), 2);
    f.entries.borrow_mut()[0].shell = "/administrator/shell".to_string();
    assert!(matches!(f.run(&restore), Err(Error::Conflict(_))));
    assert_eq!(f.updates.get(), 2);
}

#[test]
fn replacement_provider_and_in_use_shell_block_automatic_removal() {
    let f = Fixture::new();
    f.run(&f.request(Operation::Register)).ok().unwrap();
    f.entries.borrow_mut()[0].shell = SHELL.to_string();
    let mut request = f.request(Operation::Unregister);
    request.if_missing = true;
    let preserved = f.run(&request).ok().unwrap();
    assert!(preserved.retained_provider && preserved.registered && !preserved.changed);
    f.executables.borrow_mut().retain(|path| path != SHELL);
    assert!(matches!(f.run(&request), Err(Error::Conflict(_))));
    f.entries.borrow_mut()[0].shell = FALLBACK.to_string();
    assert!(f.run(&request).ok().unwrap().changed);
}

#[test]
fn dry_run_account_change_does_not_call_usermod() {
    let f = Fixture::new();
    f.run(&f.request(Operation::Register)).ok().unwrap();
    let mut request = f.request(Operation::Select);
    request.expect_shell = Some(FALLBACK.to_string());
    request.dry_run = true;
    let report = f.run_as(&request, false).ok().unwrap();
    assert!(report.changed);
    assert_eq!(report.account_shell.as_deref(), Some(FALLBACK));
    assert_eq!(f.updates.get(), 0);
    assert!(!report.account_access_checked);
    assert_eq!(f.access_checks.get(), 0);
}

#[test]
fn account_permission_denial_prevents_set_and_restore() {
    for operation in [Operation::Select, Operation::Restore] {
        let mut f = Fixture::new();
        f.run(&f.request(Operation::Register)).ok().unwrap();
        let mut request = f.request(operation);
        let target = if operation == Operation::Restore {
            f.entries.borrow_mut()[0].shell = SHELL.to_string();
            request.expect_shell = Some(SHELL.to_string());
            request.restore_shell = Some(FALLBACK.to_string());
            FALLBACK
        } else {
            request.expect_shell = Some(FALLBACK.to_string());
            SHELL
        };
        f.access_error = true;
        let previous = f.entries.borrow()[0].clone();
        assert!(matches!(f.run(&request), Err(Error::AccessDenied(_))));
        assert_eq!(f.updates.get(), 0);
        assert!(same_account(&f.entries.borrow()[0], &previous));
        assert_eq!(f.checked_target.borrow().as_deref(), Some(target));
        request.dry_run = true;
        assert!(matches!(f.run(&request), Err(Error::AccessDenied(_))));
        f.access_error = false;
        let preview = f.run(&request).ok().unwrap();
        assert!(preview.account_access_checked && preview.changed);
        assert_eq!(f.updates.get(), 0);
    }
}

#[test]
fn repeated_separators_cannot_bypass_in_use_protection() {
    let f = Fixture::new();
    let mut request = f.request(Operation::Register);
    request.shell = "/opt/cosh/bin//cosh".to_string();
    f.run(&request).ok().unwrap();
    f.entries.borrow_mut()[0].shell = SHELL.to_string();
    request.operation = Operation::Status;
    assert_eq!(
        f.run(&request).ok().unwrap().using_accounts,
        vec!["alice"]
    );
    assert!(f.run(&request).ok().unwrap().registered);
    assert!(!f.run(&f.request(Operation::Status)).ok().unwrap().registered);
    f.executables.borrow_mut().retain(|path| path != SHELL);
    request.operation = Operation::Unregister;
    assert!(matches!(f.run(&request), Err(Error::Conflict(_))));
    assert!(f.listed("/opt/cosh/bin//cosh"));
}

#[test]
fn account_preflight_and_tool_failures_are_visible() {
    let mut f = Fixture::new();
    f.run(&f.request(Operation::Register)).ok().unwrap();
    let mut request = f.request(Operation::Select);
    request.expect_shell = Some(FALLBACK.to_string());
    f.edit_on_second_read = true;
    assert!(matches!(f.run(&request), Err(Error::Conflict(_))));
    assert_eq!(f.updates.get(), 0);
    f.edit_on_second_read = false;
    f.fail_update = true;
    assert!(matches!(f.run(&request), Err(Error::Backend(_))));
    assert_eq!(f.updates.get(), 0);
    f.fail_update = false;
    f.fail_enumeration = true;
    assert!(matches!(
        f.run(&f.request(Operation::Unregister)),
        Err(Error::Backend(_))
    ));
    assert!(f.listed(SHELL));
}

#[test]
fn entry_paths_keep_public_symlink_spelling_and_reject_ambiguous_input() {
    assert_eq!(
        entry_path("/opt/anolisa/bin/cosh-cli", None).ok().unwrap(),
        "/opt/anolisa/bin/cosh"
    );
    for path in [
        "cosh",
        "/tmp/a b",
        "/tmp/a\nb",
        "/tmp/../cosh",
        "/tmp/cosh#comment",
        "/tmp/a:b",
    ] {
        assert!(
            entry_path("/usr/bin/cosh-cli", Some(path)).is_err(),
            "{path}"
        );
    }
    let f = Fixture::new();
    let mut request = f.request(Operation::Select);
    assert!(matches!(f.run(&request), Err(Error::Invalid(_))));
    request.expect_shell = Some(FALLBACK.to_string());
    request.user = Some("-root".to_string());
    assert!(matches!(f.run(&request), Err(Error::Invalid(_))));
}

#[test]
fn empty_passwd_shell_can_be_selected_with_an_explicit_empty_expectation() {
    let f = Fixture::new();
    f.entries.borrow_mut()[0].shell = String::new();
    assert_eq!(
        f.run(&f.request(Operation::Status))
            .ok()
            .unwrap()
            .account_shell,
        Some(String::new())
    );
    f.run(&f.request(Operation::Register)).ok().unwrap();
    let mut request = f.request(Operation::Select);
    request.expect_shell = Some(String::new());
    let changed = f.run(&request).ok().unwrap();
    assert_eq!(changed.previous_shell, Some(String::new()));
    assert_eq!(changed.account_shell.as_deref(), Some(SHELL));
}

#[test]
fn account_selection_rejects_nss_local_identity_mismatch_and_duplicate_names() {
    let mut f = Fixture::new();
    f.run(&f.request(Operation::Register)).ok().unwrap();
    let mut request = f.request(Operation::Select);
    request.expect_shell = Some(FALLBACK.to_string());
    f.local_uid = Some(2000);
    assert!(matches!(f.run(&request), Err(Error::Conflict(_))));
    assert_eq!(f.updates.get(), 0);
    f.local_uid = None;
    let duplicate = f.entries.borrow()[0].clone();
    f.entries.borrow_mut().push(duplicate);
    assert!(matches!(f.run(&request), Err(Error::Conflict(_))));
    assert_eq!(f.updates.get(), 0);
}

#[test]
fn registration_drops_only_inherited_attributes() {
    let found = attribute_names(&b"user.fixture\0system.posix_acl_access\0".to_vec());
    assert_eq!(
        found,
        vec![
            b"user.fixture".to_vec(),
            b"system.posix_acl_access".to_vec()
        ]
    );
    assert_eq!(
        stray_attributes(&found, &vec![b"user.fixture".to_vec()]),
        vec![b"system.posix_acl_access".to_vec()]
    );
    assert!(attribute_names(&Vec::new()).is_empty());
    assert!(same_bytes(&b"a".to_vec(), &b"a".to_vec()));
    assert!(!same_bytes(&b"a".to_vec(), &b"ab".to_vec()));
}

#[test]
fn unregister_retains_the_comment_on_an_explicitly_removed_entry() {
    let f = Fixture::new();
    *f.table.borrow_mut() = Some(
        format!("# leading note\n {SHELL} # administrator note\n{FALLBACK}\n").into_bytes(),
    );
    assert!(
        f.run(&f.request(Operation::Unregister))
            .ok()
            .unwrap()
            .changed
    );
    assert_eq!(
        String::from_utf8(f.bytes()).unwrap(),
        format!("# leading note\n# administrator note\n{FALLBACK}\n")
    );
}

#[test]
fn tables_are_edited_line_by_line() {
    let entry = SHELL.as_bytes().to_vec();
    let with = changed(&Vec::new(), &entry, true);
    assert_eq!(with, format!("{SHELL}\n").into_bytes());
    assert!(contains(&with, &entry));
    assert!(!contains(&format!("#{SHELL}\n").into_bytes(), &entry));
    assert!(contains(&format!("\t{SHELL} #x").into_bytes(), &entry));
    assert!(!contains(&format!("{SHELL}-ng\n").into_bytes(), &entry));
    assert!(changed(&with, &entry, false).is_empty());
}

#[test]
fn login_shell_errors_preserve_machine_readable_categories() {
    for (error, code) in [
        (Error::Unsupported, "UnsupportedPlatform"),
        (Error::Permission, "PermissionDenied"),
        (Error::Invalid("relative path".into()), "InvalidInput"),
        (
            Error::AccessDenied("alice".into()),
            "LoginShellAccessDenied",
        ),
        (Error::Conflict("in use".into()), "LoginShellConflict"),
        (
            Error::Backend("usermod failed".into()),
            "LoginShellBackendError",
        ),
        (
            Error::Io(IoKind::PermissionDenied, "permission denied".into()),
            "PermissionDenied",
        ),
        (
            Error::Io(IoKind::NotFound, "entity not found".into()),
            "NotFound",
        ),
        (Error::Io(IoKind::TimedOut, "timed out".into()), "Timeout"),
        (
            Error::Io(IoKind::Other, "other error".into()),
            "LoginShellIoError",
        ),
    ] {
        let message = error.message();
        let shown = cli_error(&error);
        assert_eq!(shown.code.name(), code);
        assert_eq!(shown.message, message);
        assert!(!shown.recoverable);
    }
    assert_eq!(
        Error::Conflict("in use".into()).message(),
        "login-shell state conflict: in use"
    );
}

#[test]
fn login_shell_rejects_relative_entries_without_touching_system_configuration() {
    let error = entry_path("/usr/bin/cosh-cli", Some("relative/cosh"))
        .err()
        .expect("refused");
    assert_eq!(cli_error(&error).code.name(), "InvalidInput");
}

#[test]
fn commands_become_requests() {
    let account = || AccountArgs {
        user: "alice".to_string(),
        expect_shell: FALLBACK.to_string(),
        dry_run: true,
    };
    let args = LoginShellArgs {
        shell: None,
        action: LoginShellCommand::Restore(account(), "/bin/zsh".to_string()),
    };
    let restore = request_for(args.action, SHELL.to_string());
    assert_eq!(restore.operation, Operation::Restore);
    assert_eq!(restore.restore_shell.as_deref(), Some("/bin/zsh"));
    assert_eq!(restore.expect_shell.as_deref(), Some(FALLBACK));
    assert!(restore.dry_run);
    let set = request_for(LoginShellCommand::Select(account()), SHELL.to_string());
    assert_eq!(set.operation, Operation::Select);
    assert_eq!(set.restore_shell, None);
    let unregister = request_for(LoginShellCommand::Unregister(true, true), SHELL.to_string());
    assert!(unregister.dry_run && unregister.if_missing);
    let status = request_for(
        LoginShellCommand::Status(Some("bob".to_string())),
        SHELL.to_string(),
    );
    assert_eq!(status.user.as_deref(), Some("bob"));
    let register = request_for(LoginShellCommand::Register(false), SHELL.to_string());
    assert!(validate(&register).is_ok());
}

#[test]
fn access_probe_checks_only_an_identity_it_may_assume() {
    let args = AccessProbeArgs {
        user: "alice".to_string(),
        uid: 1000,
        gid: 1000,
        shell: SHELL.to_string(),
    };
    let own = Caller {
        uid: 1000,
        euid: 1000,
        gid: 1000,
        egid: 1000,
    };
    let root = Caller {
        uid: 0,
        euid: 0,
        gid: 0,
        egid: 0,
    };
    assert!(matches!(
        probe_access(root, &args.user, args.uid, args.gid),
        Ok(AccessStep::Adopt)
    ));
    assert!(matches!(
        probe_access(own, &args.user, args.uid, args.gid),
        Ok(AccessStep::Look)
    ));
    assert!(probe_access(own, &args.user, 1001, args.gid).is_err());
    assert!(probe_access(own, &args.user, args.uid, 1001).is_err());
    assert!(probe_access(root, "al\0ice", args.uid, args.gid).is_err());
    let account = Account {
        name: "alice".to_string(),
        uid: 1000,
        gid: 1000,
        shell: FALLBACK.to_string(),
    };
    assert!(access_result(AccessAnswer::Checked(true), &account, &args.shell).is_ok());
    assert!(matches!(
        access_result(AccessAnswer::Checked(false), &account, &args.shell),
        Err(Error::AccessDenied(message)) if message == format!("alice cannot execute {SHELL}")
    ));
    assert!(access_result(AccessAnswer::Failed("gone".into()), &account, &args.shell).is_err());
}

#[test]
fn only_a_refusal_of_access_is_an_answer() {
    let broken = || Error::Backend("broken".to_string());
    assert!(matches!(
        access_answer(AccessOutcome::Granted(Ok(true))),
        Ok(true)
    ));
    assert!(matches!(
        access_answer(AccessOutcome::Granted(Ok(false))),
        Ok(false)
    ));
    assert!(matches!(
        access_answer(AccessOutcome::Granted(Err(broken()))),
        Err(Error::Backend(message)) if message == "broken"
    ));
    for errno in [EACCES, ENOENT, ENOTDIR] {
        assert!(matches!(
            access_answer(AccessOutcome::Refused(errno, broken())),
            Ok(false)
        ));
    }
    assert!(matches!(
        access_answer(AccessOutcome::Refused(5, broken())),
        Err(Error::Backend(message)) if message == "broken"
    ));
}

#[test]
fn account_databases_are_read_strictly() {
    let accounts = parse_accounts(b"root:x:0:0:root:/root:/bin/bash\nbob:x:5:6::/home/bob:\n")
        .ok()
        .expect("accounts");
    assert_eq!(accounts.len(), 2);
    assert_eq!(accounts[1].name, "bob");
    assert_eq!((accounts[1].uid, accounts[1].gid), (5, 6));
    assert_eq!(accounts[1].shell, "");
    for bad in [
        &b"root:x:0:0:root:/root\n"[..],
        b":x:0:0:root:/root:/bin/bash\n",
        b"root:x:zero:0:root:/root:/bin/bash\n",
        b"root:x:0:4294967296:root:/root:/bin/bash\n",
        b"ro\xfft:x:0:0:root:/root:/bin/bash\n",
    ] {
        assert!(matches!(parse_accounts(bad), Err(Error::Backend(_))));
    }
    assert!(only_account(accounts.clone(), "bob").is_err());
    assert_eq!(
        only_account(accounts[1..].to_vec(), "bob").ok().unwrap().uid,
        5
    );
    assert!(only_account(accounts[1..].to_vec(), "eve").is_err());
    assert!(all_accounts(Vec::new()).is_err());
    assert_eq!(all_accounts(accounts).ok().unwrap().len(), 2);
}

#[test]
fn paths_are_compared_by_their_components() {
    assert!(same_path("/a//b/./c/", "/a/b/c"));
    assert!(!same_path("/a/b", "a/b"));
    assert!(!same_path("/a/b", "/a/b/c"));
    assert!(has_directory("a/b") && has_directory("/a") && has_directory("./a"));
    assert!(!has_directory("a"));
    assert_eq!(join_path("/a", "b"), "/a/b");
    assert_eq!(join_path("/a/", "b"), "/a/b");
    assert_eq!(join_path("/a", "/b"), "/b");
    assert_eq!(join_path("", "b"), "b");
    assert!(validate_path("/opt/cosh").is_ok());
    assert!(validate_path("opt").is_err());
}

#[test]
fn accepted_paths_can_be_listed() {
    for path in [SHELL, "/", "/opt/\u{e9}\u{e8}/\u{4e2d}\u{6587}", "/opt/a\u{1f600}/sh"] {
        assert!(validate_path(path).is_ok(), "{path}");
        let entry = path.as_bytes().to_vec();
        let table = b"# shells\n/bin/sh\n".to_vec();
        let with = changed(&table, &entry, true);
        assert!(!contains(&table, &entry));
        assert!(contains(&with, &entry), "{path}");
        assert!(!contains(&changed(&with, &entry, false), &entry), "{path}");
    }
    for path in ["/bin/a#b", "/bin/a b", "/bin/a\u{3000}b", "/bin/a\n", "bin/sh", ""] {
        assert!(validate_path(path).is_err(), "{path:?}");
    }
}
