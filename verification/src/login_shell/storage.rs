//! What the shell table and the manager lock must look like on disk.

use vstd::prelude::*;

use crate::login_shell::error::{Error, ErrorView};
use crate::login_shell::table::{first_of, lemma_first_of_is, LIMIT};
use crate::text::same;

verus! {

/// The lock must be a regular file of the manager's own, without hard links.
pub fn check_lock(is_file: bool, links: u64, owner: u32, euid: u32) -> (res: Result<(), Error>)
    ensures
        match res {
            Ok(_) => is_file && links == 1 && owner == euid,
            Err(e) => !(is_file && links == 1 && owner == euid) && e@ == ErrorView::Conflict(
                "manager lock is not an owned regular file"@,
            ),
        },
{
    if !is_file || links != 1 || owner != euid {
        return Err(Error::Conflict("manager lock is not an owned regular file".to_owned()));
    }
    Ok(())
}

/// The shell table must be a bounded regular file without hard links.
pub fn check_table_file(is_file: bool, links: u64, len: u64) -> (res: Result<(), Error>)
    ensures
        match res {
            Ok(_) => is_file && links == 1 && len <= LIMIT,
            Err(e) => !(is_file && links == 1 && len <= LIMIT) && e@ == ErrorView::Conflict(
                "shell table must be a bounded regular file without hard links"@,
            ),
        },
{
    if !is_file || links != 1 || len > LIMIT {
        return Err(
            Error::Conflict("shell table must be a bounded regular file without hard links".to_owned()),
        );
    }
    Ok(())
}

/// What was read of the shell table must be within bounds too.
pub fn check_table_size(bytes: &Vec<u8>) -> (res: Result<(), Error>)
    ensures
        match res {
            Ok(_) => bytes@.len() <= LIMIT,
            Err(e) => bytes@.len() > LIMIT && e@ == ErrorView::Conflict("shell table exceeds 1 MiB"@),
        },
{
    if bytes.len() as u64 > LIMIT {
        return Err(Error::Conflict("shell table exceeds 1 MiB".to_owned()));
    }
    Ok(())
}

/// What tells one state of a file from another.
#[derive(Clone, Copy, Debug, PartialEq, Eq, Structural)]
pub struct Stamp {
    pub dev: u64,
    pub ino: u64,
    pub len: u64,
    pub mode: u32,
    pub uid: u32,
    pub gid: u32,
    pub mtime: i64,
    pub mtime_nsec: i64,
    pub ctime: i64,
    pub ctime_nsec: i64,
}

/// The shell table as it was found.
#[derive(Clone, Debug)]
pub struct TableState {
    /// Where it is, links resolved.
    pub target: String,
    pub bytes: Vec<u8>,
    /// `None` if there was no file.
    pub stamp: Option<Stamp>,
}

/// Two findings of the shell table are the same.
pub open spec fn same_state(a: TableState, b: TableState) -> bool {
    a.target@ == b.target@ && a.bytes@ == b.bytes@ && a.stamp == b.stamp
}

/// The shell table must be as it was when the change was prepared.
pub fn check_table_unchanged(before: &TableState, now: &TableState) -> (res: Result<(), Error>)
    ensures
        match res {
            Ok(_) => same_state(*before, *now),
            Err(e) => !same_state(*before, *now) && e@ == ErrorView::Conflict(
                "shell table changed during preparation; retry after inspecting it"@,
            ),
        },
{
    let stamps: bool = match (&before.stamp, &now.stamp) {
        (Some(a), Some(b)) => *a == *b,
        (None, None) => true,
        _ => false,
    };
    if !stamps || !same(before.target.as_str(), now.target.as_str()) || !same_bytes(
        &before.bytes,
        &now.bytes,
    ) {
        return Err(
            Error::Conflict(
                "shell table changed during preparation; retry after inspecting it".to_owned(),
            ),
        );
    }
    Ok(())
}

/// Whether two byte strings are the same.
pub fn same_bytes(a: &Vec<u8>, b: &Vec<u8>) -> (res: bool)
    ensures
        res == (a@ == b@),
{
    if a.len() != b.len() {
        return false;
    }
    let mut i: usize = 0;
    while i < a.len()
        invariant
            i <= a@.len() == b@.len(),
            forall|j: int| 0 <= j < i ==> a@[j] == b@[j],
        decreases a@.len() - i,
    {
        if a[i] != b[i] {
            return false;
        }
        i = i + 1;
    }
    assert(a@ =~= b@);
    true
}

/// The names in a list where each name ends with a zero byte; empty names do
/// not count.
pub open spec fn names_in(bytes: Seq<u8>) -> Seq<Seq<u8>>
    decreases bytes.len(),
{
    if bytes.len() == 0 {
        Seq::empty()
    } else {
        let n = first_of(bytes, 0);
        let rest = if 0 <= n < bytes.len() {
            names_in(bytes.skip(n + 1))
        } else {
            Seq::empty()
        };
        if n > 0 {
            seq![bytes.take(n)] + rest
        } else {
            rest
        }
    }
}

/// The views of a list of byte strings.
pub open spec fn byte_views(v: Seq<Vec<u8>>) -> Seq<Seq<u8>> {
    Seq::new(v.len(), |i: int| v[i]@)
}

/// The names of extended attributes in the list that the system hands out.
pub fn attribute_names(bytes: &Vec<u8>) -> (res: Vec<Vec<u8>>)
    ensures
        byte_views(res@) == names_in(bytes@),
{
    let mut out: Vec<Vec<u8>> = Vec::new();
    let mut name: Vec<u8> = Vec::new();
    let mut start: usize = 0;
    let mut i: usize = 0;
    proof {
        assert(bytes@.skip(0) =~= bytes@);
        assert(byte_views(out@) =~= Seq::empty());
        assert(byte_views(out@) + names_in(bytes@.skip(0)) =~= names_in(bytes@));
    }
    while i < bytes.len()
        invariant
            start <= i <= bytes@.len(),
            name@ == bytes@.subrange(start as int, i as int),
            forall|j: int| start <= j < i ==> bytes@[j] != 0,
            byte_views(out@) + names_in(bytes@.skip(start as int)) == names_in(bytes@),
        decreases bytes@.len() - i,
    {
        let b: u8 = bytes[i];
        if b == 0 {
            let ghost rest = bytes@.skip(start as int);
            let ghost before = byte_views(out@);
            proof {
                lemma_first_of_is(rest, 0, (i - start) as int);
                assert(rest.skip((i - start) + 1) =~= bytes@.skip(i + 1));
                assert(rest.take((i - start) as int) =~= name@);
            }
            if name.len() > 0 {
                out.push(name);
                assert(byte_views(out@) =~= before.push(name@));
                name = Vec::new();
            }
            start = i + 1;
            assert(byte_views(out@) + names_in(bytes@.skip(start as int)) =~= before + names_in(rest));
        } else {
            name.push(b);
        }
        i = i + 1;
        assert(name@ =~= bytes@.subrange(start as int, i as int));
    }
    let ghost rest = bytes@.skip(start as int);
    let ghost before = byte_views(out@);
    proof {
        lemma_first_of_is(rest, 0, rest.len() as int);
        assert(rest.take(rest.len() as int) =~= rest);
        assert(name@ =~= rest);
    }
    if name.len() > 0 {
        out.push(name);
        assert(byte_views(out@) =~= before.push(name@));
        assert(names_in(rest) =~= seq![rest]);
    }
    assert(byte_views(out@) =~= names_in(bytes@));
    out
}

/// Which names of `found` are not in `kept`: what a new file took over from its
/// directory, and the old one did not have.
pub open spec fn strays(found: Seq<Seq<u8>>, kept: Seq<Seq<u8>>) -> Seq<Seq<u8>> {
    found.filter(|name: Seq<u8>| !kept.contains(name))
}

/// Which attributes of the new file have to go.
pub fn stray_attributes(found: &Vec<Vec<u8>>, kept: &Vec<Vec<u8>>) -> (res: Vec<Vec<u8>>)
    ensures
        byte_views(res@) == strays(byte_views(found@), byte_views(kept@)),
{
    let ghost all = byte_views(found@);
    let ghost keep = byte_views(kept@);
    let ghost stray = |name: Seq<u8>| !keep.contains(name);
    let mut out: Vec<Vec<u8>> = Vec::new();
    let mut i: usize = 0;
    proof {
        reveal(Seq::filter);
        assert(all.take(0) =~= Seq::empty());
        assert(byte_views(out@) =~= Seq::empty());
    }
    while i < found.len()
        invariant
            i <= found@.len(),
            all == byte_views(found@),
            keep == byte_views(kept@),
            stray == (|name: Seq<u8>| !keep.contains(name)),
            byte_views(out@) == all.take(i as int).filter(stray),
        decreases found@.len() - i,
    {
        let ghost before = byte_views(out@);
        proof {
            reveal(Seq::filter);
            assert(all.take(i + 1).drop_last() =~= all.take(i as int));
            assert(all.take(i + 1).last() == found@[i as int]@);
        }
        if !holds(kept, &found[i]) {
            out.push(found[i].clone());
            assert(byte_views(out@) =~= before.push(found@[i as int]@));
        }
        i = i + 1;
    }
    assert(all.take(all.len() as int) =~= all);
    out
}

fn holds(v: &Vec<Vec<u8>>, name: &Vec<u8>) -> (res: bool)
    ensures
        res == byte_views(v@).contains(name@),
{
    let mut i: usize = 0;
    while i < v.len()
        invariant
            i <= v@.len(),
            forall|j: int| 0 <= j < i ==> v@[j]@ != name@,
        decreases v@.len() - i,
    {
        if same_bytes(&v[i], name) {
            assert(byte_views(v@)[i as int] == name@);
            return true;
        }
        i = i + 1;
    }
    false
}

} // verus!
