//! Accounts as the account database lists them.

use vstd::prelude::*;
use vstd::string::*;
use vstd::utf8::*;

use crate::login_shell::error::{Error, ErrorView};
use crate::login_shell::path::{same_components, same_path};
use crate::text::{lines, lines_of, parse_unsigned, pieces, same, split, texts, unsigned_in, utf8_text};

verus! {

/// One account.
#[derive(Clone, Debug)]
pub struct Account {
    pub name: String,
    pub uid: u32,
    pub gid: u32,
    pub shell: String,
}

/// What an [`Account`] says.
#[verifier::ext_equal]
pub struct AccountView {
    pub name: Seq<char>,
    pub uid: u32,
    pub gid: u32,
    pub shell: Seq<char>,
}

impl View for Account {
    type V = AccountView;

    open spec fn view(&self) -> AccountView {
        AccountView { name: self.name@, uid: self.uid, gid: self.gid, shell: self.shell@ }
    }
}

impl Account {
    /// The same account.
    pub fn copy(&self) -> (res: Account)
        ensures
            res@ == self@,
    {
        Account {
            name: self.name.clone(),
            uid: self.uid,
            gid: self.gid,
            shell: self.shell.clone(),
        }
    }
}

/// The views of a list of accounts.
pub open spec fn account_views(v: Seq<Account>) -> Seq<AccountView> {
    Seq::new(v.len(), |i: int| v[i]@)
}

/// Two records of an account agree. Shells agree if they are the same path.
pub open spec fn agree(a: AccountView, b: AccountView) -> bool {
    a.name == b.name && a.uid == b.uid && a.gid == b.gid && same_components(a.shell, b.shell)
}

/// Whether two records of an account agree.
pub fn same_account(a: &Account, b: &Account) -> (res: bool)
    ensures
        res == agree(a@, b@),
{
    same(a.name.as_str(), b.name.as_str()) && a.uid == b.uid && a.gid == b.gid && same_path(
        a.shell.as_str(),
        b.shell.as_str(),
    )
}

/// What one line of the account database says: seven fields, a name, two
/// numbers and a shell.
pub open spec fn account_in(line: Seq<char>) -> Result<AccountView, ErrorView> {
    let fields = pieces(line, ':');
    if fields.len() != 7 || fields[0].len() == 0 {
        Err(ErrorView::Backend("getent returned malformed passwd data"@))
    } else {
        match unsigned_in(fields[2], u32::MAX as int) {
            None => Err(ErrorView::Backend("getent returned invalid UID"@)),
            Some(uid) => match unsigned_in(fields[3], u32::MAX as int) {
                None => Err(ErrorView::Backend("getent returned invalid GID"@)),
                Some(gid) => Ok(
                    AccountView {
                        name: fields[0],
                        uid: uid as u32,
                        gid: gid as u32,
                        shell: fields[6],
                    },
                ),
            },
        }
    }
}

/// What the lines of the account database say: every account, or what is wrong
/// with the first line that is wrong.
pub open spec fn accounts_in(all: Seq<Seq<char>>) -> Result<Seq<AccountView>, ErrorView>
    decreases all.len(),
{
    if all.len() == 0 {
        Ok(Seq::empty())
    } else {
        match accounts_in(all.drop_last()) {
            Err(e) => Err(e),
            Ok(rest) => match account_in(all.last()) {
                Err(e) => Err(e),
                Ok(a) => Ok(rest.push(a)),
            },
        }
    }
}

/// What the bytes of the account database say.
pub open spec fn database_in(bytes: Seq<u8>) -> Result<Seq<AccountView>, ErrorView> {
    if valid_utf8(bytes) {
        accounts_in(lines_of(decode_utf8(bytes)))
    } else {
        Err(ErrorView::Backend("getent returned non-UTF-8 account data"@))
    }
}

fn parse_account(line: &str) -> (res: Result<Account, Error>)
    ensures
        match res {
            Ok(a) => account_in(line@) == Ok::<AccountView, ErrorView>(a@),
            Err(e) => account_in(line@) == Err::<AccountView, ErrorView>(e@),
        },
{
    let fields = split(line, ':');
    let ghost parts = texts(fields@);
    assert(parts.len() == fields@.len());
    if fields.len() != 7 {
        return Err(Error::Backend("getent returned malformed passwd data".to_owned()));
    }
    proof {
        assert(parts[0] == fields@[0]@);
        assert(parts[2] == fields@[2]@);
        assert(parts[3] == fields@[3]@);
        assert(parts[6] == fields@[6]@);
    }
    if fields[0].as_str().is_empty() {
        return Err(Error::Backend("getent returned malformed passwd data".to_owned()));
    }
    let uid: u32 = match parse_unsigned(fields[2].as_str(), u32::MAX as u64) {
        Some(n) => n as u32,
        None => {
            return Err(Error::Backend("getent returned invalid UID".to_owned()));
        },
    };
    let gid: u32 = match parse_unsigned(fields[3].as_str(), u32::MAX as u64) {
        Some(n) => n as u32,
        None => {
            return Err(Error::Backend("getent returned invalid GID".to_owned()));
        },
    };
    let account = Account { name: fields[0].clone(), uid, gid, shell: fields[6].clone() };
    Ok(account)
}

/// What the bytes of the account database say.
pub fn parse_accounts(bytes: &[u8]) -> (res: Result<Vec<Account>, Error>)
    ensures
        match res {
            Ok(v) => database_in(bytes@) == Ok::<Seq<AccountView>, ErrorView>(account_views(v@)),
            Err(e) => database_in(bytes@) == Err::<Seq<AccountView>, ErrorView>(e@),
        },
{
    let text = match utf8_text(bytes) {
        Some(t) => t,
        None => {
            return Err(Error::Backend("getent returned non-UTF-8 account data".to_owned()));
        },
    };
    let all = lines(text.as_str());
    let ghost views = texts(all@);
    let mut out: Vec<Account> = Vec::new();
    let mut i: usize = 0;
    proof {
        assert(views.take(0) =~= Seq::empty());
        assert(account_views(out@) =~= Seq::empty());
    }
    while i < all.len()
        invariant
            i <= all@.len(),
            views == texts(all@),
            views == lines_of(text@),
            valid_utf8(bytes@),
            text@ == decode_utf8(bytes@),
            accounts_in(views.take(i as int)) == Ok::<Seq<AccountView>, ErrorView>(account_views(out@)),
        decreases all@.len() - i,
    {
        proof {
            assert(views.take(i + 1).drop_last() =~= views.take(i as int));
            assert(views.take(i + 1).last() == all@[i as int]@);
        }
        match parse_account(all[i].as_str()) {
            Ok(account) => {
                let ghost before = account_views(out@);
                out.push(account);
                assert(account_views(out@) =~= before.push(account@));
            },
            Err(e) => {
                proof {
                    lemma_first_error(views, i + 1);
                }
                return Err(e);
            },
        }
        i = i + 1;
    }
    assert(views.take(views.len() as int) =~= views);
    Ok(out)
}

proof fn lemma_first_error(all: Seq<Seq<char>>, n: int)
    requires
        0 <= n <= all.len(),
        accounts_in(all.take(n)) is Err,
    ensures
        accounts_in(all) == accounts_in(all.take(n)),
    decreases all.len() - n,
{
    if n < all.len() {
        assert(all.take(n + 1).drop_last() =~= all.take(n));
        lemma_first_error(all, n + 1);
    } else {
        assert(all.take(n) =~= all);
    }
}

/// The account that a lookup by name must return: exactly one, of that name.
pub fn only_account(accounts: Vec<Account>, user: &str) -> (res: Result<Account, Error>)
    ensures
        match res {
            Ok(a) => accounts@.len() == 1 && accounts@[0]@.name == user@ && a@ == accounts@[0]@,
            Err(e) => !(accounts@.len() == 1 && accounts@[0]@.name == user@) && e@ == ErrorView::Backend(
                "expected exactly one local account for "@ + user@,
            ),
        },
{
    if accounts.len() == 1 && same(accounts[0].name.as_str(), user) {
        return Ok(accounts[0].copy());
    }
    Err(Error::Backend("expected exactly one local account for ".to_owned().concat(user)))
}

/// A listing of all accounts must not be empty: then nothing could be said
/// about what is in use.
pub fn all_accounts(accounts: Vec<Account>) -> (res: Result<Vec<Account>, Error>)
    ensures
        match res {
            Ok(v) => v == accounts && accounts@.len() > 0,
            Err(e) => accounts@.len() == 0 && e@ == ErrorView::Backend(
                "getent returned no accounts; cannot establish in-use state"@,
            ),
        },
{
    if accounts.len() == 0 {
        return Err(
            Error::Backend("getent returned no accounts; cannot establish in-use state".to_owned()),
        );
    }
    Ok(accounts)
}

} // verus!
