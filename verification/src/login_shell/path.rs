//! Shell paths: what is accepted, where the entry is, and when two paths are
//! the same.

use vstd::prelude::*;
use vstd::string::*;

use crate::login_shell::error::{Error, ErrorView};
use crate::text::{chars_of, is_space, pieces, same, space, split, text_of, texts};

verus! {

/// Whether a path starts at the root.
pub open spec fn absolute(path: Seq<char>) -> bool {
    path.len() > 0 && path[0] == '/'
}

/// A character that a shell table or account database could misread.
pub open spec fn misread(c: char) -> bool {
    is_space(c) || c == ':' || c == '#' || c == '\0'
}

/// A dot component.
pub open spec fn dotted(part: Seq<char>) -> bool {
    part == "."@ || part == ".."@
}

/// The paths that are accepted: absolute, without characters that could be
/// misread and without dot components.
pub open spec fn accepted(path: Seq<char>) -> bool {
    &&& absolute(path)
    &&& forall|i: int| 0 <= i < path.len() ==> !misread(#[trigger] path[i])
    &&& forall|i: int| 0 <= i < pieces(path, '/').len() ==> !dotted(#[trigger] pieces(path, '/')[i])
}

/// What a path that is not accepted is told.
pub open spec fn path_refusal() -> ErrorView {
    ErrorView::Invalid(
        "shell path must be absolute without whitespace, #, colon, or dot components"@,
    )
}

/// Accepts a shell path.
pub fn validate_path(path: &str) -> (res: Result<(), Error>)
    ensures
        match res {
            Ok(_) => accepted(path@),
            Err(e) => !accepted(path@) && e@ == path_refusal(),
        },
{
    let chars = chars_of(path);
    let mut fine: bool = chars.len() > 0 && chars[0] == '/';
    let mut i: usize = 0;
    while i < chars.len() && fine
        invariant
            chars@ == path@,
            i <= chars@.len(),
            fine ==> absolute(path@) && forall|j: int| 0 <= j < i ==> !misread(#[trigger] path@[j]),
            !fine ==> !accepted(path@),
        decreases chars@.len() - i,
    {
        let c: char = chars[i];
        if space(c) || c == ':' || c == '#' || c == '\0' {
            assert(misread(path@[i as int]));
            fine = false;
        }
        i = i + 1;
    }
    let parts = split(path, '/');
    let mut k: usize = 0;
    while k < parts.len() && fine
        invariant
            texts(parts@) == pieces(path@, '/'),
            k <= parts@.len(),
            fine ==> absolute(path@) && forall|j: int| 0 <= j < path@.len() ==> !misread(#[trigger] path@[j]),
            fine ==> forall|j: int| 0 <= j < k ==> !dotted(#[trigger] pieces(path@, '/')[j]),
            !fine ==> !accepted(path@),
        decreases parts@.len() - k,
    {
        assert(texts(parts@)[k as int] == parts@[k as int]@);
        if same(parts[k].as_str(), ".") || same(parts[k].as_str(), "..") {
            assert(dotted(pieces(path@, '/')[k as int]));
            fine = false;
        }
        k = k + 1;
    }
    if fine {
        assert(texts(parts@).len() == parts@.len());
        Ok(())
    } else {
        Err(
            Error::Invalid(
                "shell path must be absolute without whitespace, #, colon, or dot components".to_owned(),
            ),
        )
    }
}

/// A path without separators and current-directory components at its end.
pub open spec fn shorn(path: Seq<char>) -> Seq<char>
    decreases path.len(),
{
    if path.len() > 1 && path.last() == '/' {
        shorn(path.drop_last())
    } else if path.len() > 1 && path.last() == '.' && path[path.len() - 2] == '/' {
        shorn(path.drop_last())
    } else {
        path
    }
}

/// The position of the last separator in front of `end`, or -1.
pub open spec fn last_separator(path: Seq<char>, end: int) -> int
    decreases end,
{
    if end <= 0 || end > path.len() {
        -1
    } else if path[end - 1] == '/' {
        end - 1
    } else {
        last_separator(path, end - 1)
    }
}

/// The directory of an absolute path; the root has none.
pub open spec fn directory_of(path: Seq<char>) -> Option<Seq<char>> {
    let whole = shorn(path);
    if whole.len() <= 1 {
        None
    } else {
        Some(shorn(whole.take(last_separator(whole, whole.len() as int) + 1)))
    }
}

/// The entry `cosh` in a directory.
pub open spec fn entry_in(directory: Seq<char>) -> Seq<char> {
    if directory.len() > 0 && directory.last() == '/' {
        directory + "cosh"@
    } else {
        directory + "/cosh"@
    }
}

/// The entry of an installation: the selected one, else `cosh` beside the
/// management tool. A tool without an absolute directory has no acceptable
/// entry.
pub open spec fn entry_for(cli: Seq<char>, selected: Option<Seq<char>>) -> Option<Seq<char>> {
    match selected {
        Some(path) => if accepted(path) {
            Some(path)
        } else {
            None
        },
        None => if absolute(cli) && directory_of(cli) is Some && accepted(
            entry_in(directory_of(cli)->0),
        ) {
            Some(entry_in(directory_of(cli)->0))
        } else {
            None
        },
    }
}

fn shear(chars: &Vec<char>, end: usize) -> (res: usize)
    requires
        end <= chars@.len(),
    ensures
        res <= end,
        chars@.take(res as int) == shorn(chars@.take(end as int)),
        end >= 1 ==> res >= 1,
{
    let mut n: usize = end;
    while n > 1 && (chars[n - 1] == '/' || (chars[n - 1] == '.' && chars[n - 2] == '/'))
        invariant
            n <= end <= chars@.len(),
            shorn(chars@.take(n as int)) == shorn(chars@.take(end as int)),
            end >= 1 ==> n >= 1,
        decreases n,
    {
        proof {
            let cut = chars@.take(n as int);
            assert(cut.last() == chars@[n - 1]);
            assert(cut[cut.len() - 2] == chars@[n - 2]);
            assert(cut.drop_last() =~= chars@.take(n - 1));
        }
        n = n - 1;
    }
    proof {
        let cut = chars@.take(n as int);
        if n > 1 {
            assert(cut.last() == chars@[n - 1]);
            assert(cut[cut.len() - 2] == chars@[n - 2]);
        }
    }
    n
}

/// The entry of an installation.
pub fn entry_path(cli: &str, selected: Option<&str>) -> (res: Result<String, Error>)
    ensures
        match res {
            Ok(path) => entry_for(
                cli@,
                match selected {
                    Some(s) => Some(s@),
                    None => None,
                },
            ) == Some(path@),
            Err(e) => entry_for(
                cli@,
                match selected {
                    Some(s) => Some(s@),
                    None => None,
                },
            ) is None && e@ == path_refusal(),
        },
{
    if let Some(path) = selected {
        return match validate_path(path) {
            Ok(_) => Ok(path.to_owned()),
            Err(e) => Err(e),
        };
    }
    let refusal = Error::Invalid(
        "shell path must be absolute without whitespace, #, colon, or dot components".to_owned(),
    );
    let chars = chars_of(cli);
    if chars.len() == 0 || chars[0] != '/' {
        return Err(refusal);
    }
    let total: usize = chars.len();
    let end: usize = shear(&chars, total);
    assert(chars@.take(total as int) =~= cli@);
    let ghost whole = shorn(cli@);
    assert(whole =~= cli@.take(end as int));
    if end <= 1 {
        return Err(refusal);
    }
    let mut k: usize = end;
    while k > 0 && chars[k - 1] != '/'
        invariant
            k <= end <= chars@.len(),
            chars@ == cli@,
            whole == cli@.take(end as int),
            last_separator(whole, end as int) == last_separator(whole, k as int),
        decreases k,
    {
        assert(whole[k - 1] == chars@[k - 1]);
        k = k - 1;
    }
    proof {
        if k > 0 {
            assert(whole[k - 1] == chars@[k - 1]);
        }
        assert(last_separator(whole, end as int) == k - 1);
        assert(whole.take(k as int) =~= cli@.take(k as int));
    }
    let stop: usize = shear(&chars, k);
    let directory = text_of(&chars, 0, stop);
    assert(directory@ =~= chars@.take(stop as int));
    assert(directory_of(cli@) == Some(directory@));
    let slashed: bool = stop > 0 && chars[stop - 1] == '/';
    assert(slashed == (directory@.len() > 0 && directory@.last() == '/'));
    let entry: String = if slashed {
        directory.concat("cosh")
    } else {
        directory.concat("/cosh")
    };
    match validate_path(entry.as_str()) {
        Ok(_) => Ok(entry),
        Err(e) => Err(e),
    }
}

/// The parts of a path that name something.
pub open spec fn named_parts(parts: Seq<Seq<char>>) -> Seq<Seq<char>>
    decreases parts.len(),
{
    if parts.len() == 0 {
        Seq::empty()
    } else {
        let rest = named_parts(parts.drop_last());
        if parts.last().len() == 0 || parts.last() == "."@ {
            rest
        } else {
            rest.push(parts.last())
        }
    }
}

/// A relative path that starts with the current directory.
pub open spec fn starts_here(path: Seq<char>) -> bool {
    !absolute(path) && pieces(path, '/')[0] == "."@
}

/// Two paths are the same if they have the same components: repeated
/// separators and current-directory components inside do not count.
pub open spec fn same_components(a: Seq<char>, b: Seq<char>) -> bool {
    &&& absolute(a) == absolute(b)
    &&& starts_here(a) == starts_here(b)
    &&& named_parts(pieces(a, '/')) == named_parts(pieces(b, '/'))
}

proof fn lemma_pieces_nonempty(s: Seq<char>, sep: char)
    ensures
        pieces(s, sep).len() > 0,
    decreases s.len(),
{
}

/// Whether a path is absolute, whether it starts with the current directory, and
/// its parts that name something.
pub fn components(path: &str) -> (res: (bool, bool, Vec<String>))
    ensures
        res.0 == absolute(path@),
        res.1 == starts_here(path@),
        texts(res.2@) == named_parts(pieces(path@, '/')),
{
    let chars = chars_of(path);
    let rooted: bool = chars.len() > 0 && chars[0] == '/';
    let parts = split(path, '/');
    let ghost all = texts(parts@);
    proof {
        lemma_pieces_nonempty(path@, '/');
        assert(all[0] == parts@[0]@);
    }
    let here: bool = !rooted && same(parts[0].as_str(), ".");
    let mut out: Vec<String> = Vec::new();
    let mut i: usize = 0;
    proof {
        assert(all.take(0) =~= Seq::empty());
        assert(texts(out@) =~= Seq::empty());
    }
    while i < parts.len()
        invariant
            i <= parts@.len(),
            all == texts(parts@),
            texts(out@) == named_parts(all.take(i as int)),
        decreases parts@.len() - i,
    {
        proof {
            assert(all.take(i + 1).drop_last() =~= all.take(i as int));
            assert(all.take(i + 1).last() == parts@[i as int]@);
        }
        if !parts[i].as_str().is_empty() && !same(parts[i].as_str(), ".") {
            let ghost before = texts(out@);
            out.push(parts[i].clone());
            assert(texts(out@) =~= before.push(parts@[i as int]@));
        }
        i = i + 1;
    }
    assert(all.take(all.len() as int) =~= all);
    (rooted, here, out)
}

/// Whether two paths have the same components.
pub fn same_path(a: &str, b: &str) -> (res: bool)
    ensures
        res == same_components(a@, b@),
{
    let (rooted_a, here_a, parts_a) = components(a);
    let (rooted_b, here_b, parts_b) = components(b);
    if rooted_a != rooted_b || here_a != here_b {
        return false;
    }
    if parts_a.len() != parts_b.len() {
        assert(texts(parts_a@).len() != texts(parts_b@).len());
        return false;
    }
    let mut i: usize = 0;
    while i < parts_a.len()
        invariant
            i <= parts_a@.len() == parts_b@.len(),
            texts(parts_a@) == named_parts(pieces(a@, '/')),
            texts(parts_b@) == named_parts(pieces(b@, '/')),
            forall|j: int| 0 <= j < i ==> parts_a@[j]@ == parts_b@[j]@,
        decreases parts_a@.len() - i,
    {
        if !same(parts_a[i].as_str(), parts_b[i].as_str()) {
            assert(texts(parts_a@)[i as int] != texts(parts_b@)[i as int]);
            return false;
        }
        i = i + 1;
    }
    assert(texts(parts_a@) =~= texts(parts_b@));
    true
}

/// Being the same path is an equivalence.
pub proof fn same_path_is_an_equivalence(a: Seq<char>, b: Seq<char>, c: Seq<char>)
    ensures
        same_components(a, a),
        same_components(a, b) == same_components(b, a),
        same_components(a, b) && same_components(b, c) ==> same_components(a, c),
{
}

/// How many components a path has.
pub open spec fn component_count(path: Seq<char>) -> int {
    (if absolute(path) || starts_here(path) {
        1int
    } else {
        0
    }) + named_parts(pieces(path, '/')).len()
}

/// Whether a path has more than one component.
pub fn has_directory(path: &str) -> (res: bool)
    ensures
        res == (component_count(path@) > 1),
{
    let (rooted, here, parts) = components(path);
    assert(parts@.len() == texts(parts@).len());
    if rooted || here {
        parts.len() > 0
    } else {
        parts.len() > 1
    }
}

/// A path inside a directory. An absolute path stands for itself.
pub open spec fn path_in(directory: Seq<char>, path: Seq<char>) -> Seq<char> {
    if absolute(path) {
        path
    } else if directory.len() == 0 || directory.last() == '/' {
        directory + path
    } else {
        directory + "/"@ + path
    }
}

/// A path inside a directory.
pub fn join_path(directory: &str, path: &str) -> (res: String)
    ensures
        res@ == path_in(directory@, path@),
{
    let chars = chars_of(path);
    if chars.len() > 0 && chars[0] == '/' {
        return path.to_owned();
    }
    let outer = chars_of(directory);
    if outer.len() == 0 || outer[outer.len() - 1] == '/' {
        directory.to_owned().concat(path)
    } else {
        directory.to_owned().concat("/").concat(path)
    }
}

} // verus!
