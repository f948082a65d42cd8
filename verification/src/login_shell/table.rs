//! The shell table: one entry per line, `#` starts a comment.

use vstd::prelude::*;

verus! {

/// The largest shell table that is accepted.
pub const LIMIT: u64 = 1_048_576;

/// White space of ASCII.
pub open spec fn is_blank(b: u8) -> bool {
    b == 0x20 || b == 0x09 || b == 0x0a || b == 0x0c || b == 0x0d
}

fn blank(b: u8) -> (res: bool)
    ensures
        res == is_blank(b),
{
    b == 0x20 || b == 0x09 || b == 0x0a || b == 0x0c || b == 0x0d
}

/// The position of the first `b`, or the length.
pub open spec fn first_of(s: Seq<u8>, b: u8) -> int
    decreases s.len(),
{
    if s.len() == 0 || s[0] == b {
        0
    } else {
        1 + first_of(s.skip(1), b)
    }
}

/// `first_of` is the least position of `b`.
pub proof fn lemma_first_of(s: Seq<u8>, b: u8)
    ensures
        0 <= first_of(s, b) <= s.len(),
        first_of(s, b) < s.len() ==> s[first_of(s, b)] == b,
        forall|i: int| 0 <= i < first_of(s, b) ==> s[i] != b,
    decreases s.len(),
{
    if s.len() > 0 && s[0] != b {
        lemma_first_of(s.skip(1), b);
        assert forall|i: int| 0 <= i < first_of(s, b) implies s[i] != b by {
            if i > 0 {
                assert(s.skip(1)[i - 1] == s[i]);
            }
        }
    }
}

/// Whatever is a least position of `b` is `first_of`.
pub proof fn lemma_first_of_is(s: Seq<u8>, b: u8, n: int)
    requires
        0 <= n <= s.len(),
        n < s.len() ==> s[n] == b,
        forall|i: int| 0 <= i < n ==> s[i] != b,
    ensures
        first_of(s, b) == n,
{
    lemma_first_of(s, b);
    let m = first_of(s, b);
    if m < n {
        assert(s[m] != b);
    }
    if n < m {
        assert(s[n] != b);
    }
}

/// `s` without white space in front.
pub open spec fn stripped_start(s: Seq<u8>) -> Seq<u8>
    decreases s.len(),
{
    if s.len() > 0 && is_blank(s[0]) {
        stripped_start(s.skip(1))
    } else {
        s
    }
}

/// `s` without white space at the end.
pub open spec fn stripped_end(s: Seq<u8>) -> Seq<u8>
    decreases s.len(),
{
    if s.len() > 0 && is_blank(s.last()) {
        stripped_end(s.drop_last())
    } else {
        s
    }
}

/// The entry of a line: what stands in front of a comment, without white space
/// at either end.
pub open spec fn entry_of(line: Seq<u8>) -> Seq<u8> {
    stripped_end(stripped_start(line.take(first_of(line, 0x23))))
}

fn find_byte(s: &Vec<u8>, b: u8, from: usize, to: usize) -> (res: usize)
    requires
        from <= to <= s@.len(),
    ensures
        from <= res <= to,
        res - from == first_of(s@.subrange(from as int, to as int), b),
{
    let mut i: usize = from;
    while i < to && s[i] != b
        invariant
            from <= i <= to <= s@.len(),
            forall|j: int| from <= j < i ==> s@[j] != b,
        decreases to - i,
    {
        i = i + 1;
    }
    proof {
        let part = s@.subrange(from as int, to as int);
        assert forall|j: int| 0 <= j < i - from implies part[j] != b by {
            assert(part[j] == s@[from + j]);
        }
        lemma_first_of_is(part, b, i - from);
    }
    i
}

/// Whether the entry of `s[from..to]` is `entry`.
fn active_entry_is(s: &Vec<u8>, from: usize, to: usize, entry: &Vec<u8>) -> (res: bool)
    requires
        from <= to <= s@.len(),
    ensures
        res == (entry_of(s@.subrange(from as int, to as int)) == entry@),
{
    let ghost line = s@.subrange(from as int, to as int);
    let end: usize = find_byte(s, 0x23, from, to);
    let ghost text = line.take(end - from);
    assert(text =~= s@.subrange(from as int, end as int));
    let mut a: usize = from;
    while a < end && blank(s[a])
        invariant
            from <= a <= end <= s@.len(),
            stripped_start(text) == stripped_start(s@.subrange(a as int, end as int)),
        decreases end - a,
    {
        assert(s@.subrange(a as int, end as int).skip(1) =~= s@.subrange(a + 1, end as int));
        a = a + 1;
    }
    let ghost front = s@.subrange(a as int, end as int);
    assert(stripped_start(front) == front);
    let mut b: usize = end;
    while b > a && blank(s[b - 1])
        invariant
            from <= a <= b <= end <= s@.len(),
            stripped_end(front) == stripped_end(s@.subrange(a as int, b as int)),
        decreases b,
    {
        assert(s@.subrange(a as int, b as int).drop_last() =~= s@.subrange(a as int, b - 1));
        b = b - 1;
    }
    let ghost found = s@.subrange(a as int, b as int);
    assert(entry_of(line) == found);
    if b - a != entry.len() {
        return false;
    }
    let mut i: usize = 0;
    while i < entry.len()
        invariant
            a <= b <= s@.len(),
            b - a == entry@.len(),
            found == s@.subrange(a as int, b as int),
            i <= entry@.len(),
            forall|j: int| 0 <= j < i ==> s@[a + j] == entry@[j],
            entry_of(line) == found,
            line == s@.subrange(from as int, to as int),
        decreases entry@.len() - i,
    {
        if s[a + i] != entry[i] {
            assert(found[i as int] != entry@[i as int]);
            return false;
        }
        i = i + 1;
    }
    assert(found =~= entry@);
    true
}

/// Whether a line of the table has the entry `entry`.
pub open spec fn listed(bytes: Seq<u8>, entry: Seq<u8>) -> bool
    decreases bytes.len(),
{
    let n = first_of(bytes, 0x0a);
    if n < 0 || n >= bytes.len() {
        entry_of(bytes) == entry
    } else {
        entry_of(bytes.take(n)) == entry || listed(bytes.skip(n + 1), entry)
    }
}

/// What is left of a line when `entry` is taken out of the table: a line with
/// that entry keeps only its comment.
pub open spec fn kept(line: Seq<u8>, entry: Seq<u8>) -> Seq<u8> {
    if entry_of(line) != entry {
        line
    } else {
        line.skip(first_of(line, 0x23))
    }
}

/// The table without `entry`.
pub open spec fn unlisted(bytes: Seq<u8>, entry: Seq<u8>) -> Seq<u8>
    decreases bytes.len(),
{
    if bytes.len() == 0 {
        Seq::empty()
    } else {
        let n = first_of(bytes, 0x0a);
        if n < 0 || n >= bytes.len() {
            kept(bytes, entry)
        } else {
            kept(bytes.take(n + 1), entry) + unlisted(bytes.skip(n + 1), entry)
        }
    }
}

/// The table with its last line ended.
pub open spec fn ended(bytes: Seq<u8>) -> Seq<u8> {
    if bytes.len() > 0 && bytes.last() != 0x0a {
        bytes.push(0x0a)
    } else {
        bytes
    }
}

/// The table with `entry`: on a line of its own at the end, unless it is there
/// already.
pub open spec fn with_entry(bytes: Seq<u8>, entry: Seq<u8>) -> Seq<u8> {
    if listed(bytes, entry) {
        bytes
    } else {
        ended(bytes) + entry + seq![0x0au8]
    }
}

/// The table after a registration or removal.
pub open spec fn changed_table(bytes: Seq<u8>, entry: Seq<u8>, register: bool) -> Seq<u8> {
    if register {
        with_entry(bytes, entry)
    } else {
        unlisted(bytes, entry)
    }
}

/// Whether the table lists `entry`.
pub fn contains(bytes: &Vec<u8>, entry: &Vec<u8>) -> (res: bool)
    ensures
        res == listed(bytes@, entry@),
{
    let total: usize = bytes.len();
    let mut from: usize = 0;
    assert(bytes@.skip(0) =~= bytes@);
    loop
        invariant
            total == bytes@.len(),
            from <= total,
            listed(bytes@, entry@) == listed(bytes@.skip(from as int), entry@),
        decreases total - from,
    {
        let end: usize = find_byte(bytes, 0x0a, from, total);
        let ghost rest = bytes@.skip(from as int);
        proof {
            assert(bytes@.subrange(from as int, total as int) =~= rest);
            assert(bytes@.subrange(from as int, end as int) =~= rest.take(end - from));
        }
        if active_entry_is(bytes, from, end, entry) {
            proof {
                if end >= total {
                    assert(rest.take(rest.len() as int) =~= rest);
                }
            }
            return true;
        }
        if end >= total {
            assert(rest.take(rest.len() as int) =~= rest);
            return false;
        }
        assert(rest.skip(end - from + 1) =~= bytes@.skip(end + 1));
        from = end + 1;
    }
}

fn push_range(out: &mut Vec<u8>, s: &Vec<u8>, from: usize, to: usize)
    requires
        from <= to <= s@.len(),
    ensures
        final(out)@ == old(out)@ + s@.subrange(from as int, to as int),
{
    let ghost start = out@;
    let mut i: usize = from;
    while i < to
        invariant
            from <= i <= to <= s@.len(),
            out@ == start + s@.subrange(from as int, i as int),
        decreases to - i,
    {
        out.push(s[i]);
        assert(start + s@.subrange(from as int, i + 1) =~= (start + s@.subrange(from as int, i as int)).push(
            s@[i as int],
        ));
        i = i + 1;
    }
}

fn remove_entry(bytes: &Vec<u8>, entry: &Vec<u8>) -> (res: Vec<u8>)
    ensures
        res@ == unlisted(bytes@, entry@),
{
    let total: usize = bytes.len();
    let mut out: Vec<u8> = Vec::new();
    let mut from: usize = 0;
    proof {
        assert(bytes@.skip(0) =~= bytes@);
        assert(out@ + unlisted(bytes@, entry@) =~= unlisted(bytes@, entry@));
    }
    while from < total
        invariant
            total == bytes@.len(),
            from <= total,
            out@ + unlisted(bytes@.skip(from as int), entry@) == unlisted(bytes@, entry@),
        decreases total - from,
    {
        let found: usize = find_byte(bytes, 0x0a, from, total);
        let ghost rest = bytes@.skip(from as int);
        assert(bytes@.subrange(from as int, total as int) =~= rest);
        let end: usize = if found < total {
            found + 1
        } else {
            total
        };
        let ghost line = bytes@.subrange(from as int, end as int);
        let ghost before = out@;
        if active_entry_is(bytes, from, end, entry) {
            let comment: usize = find_byte(bytes, 0x23, from, end);
            push_range(&mut out, bytes, comment, end);
            assert(bytes@.subrange(comment as int, end as int) =~= line.skip(comment - from));
        } else {
            push_range(&mut out, bytes, from, end);
        }
        proof {
            assert(out@ == before + kept(line, entry@));
            if found < total {
                assert(line =~= rest.take(found - from + 1));
                assert(rest.skip(found - from + 1) =~= bytes@.skip(end as int));
                assert(before + (kept(line, entry@) + unlisted(bytes@.skip(end as int), entry@)) =~= out@
                    + unlisted(bytes@.skip(end as int), entry@));
            } else {
                assert(line =~= rest);
                assert(bytes@.skip(end as int) =~= Seq::empty());
                assert(out@ + unlisted(bytes@.skip(end as int), entry@) =~= out@);
            }
        }
        from = end;
    }
    proof {
        assert(bytes@.skip(total as int) =~= Seq::empty());
        assert(out@ + Seq::<u8>::empty() =~= out@);
    }
    out
}

/// The table after a registration or removal.
pub fn changed(bytes: &Vec<u8>, entry: &Vec<u8>, register: bool) -> (res: Vec<u8>)
    ensures
        res@ == changed_table(bytes@, entry@, register),
{
    if !register {
        return remove_entry(bytes, entry);
    }
    let mut out: Vec<u8> = Vec::new();
    let n: usize = bytes.len();
    push_range(&mut out, bytes, 0, n);
    assert(out@ =~= bytes@);
    if contains(bytes, entry) {
        return out;
    }
    if n > 0 && bytes[n - 1] != 0x0a {
        out.push(0x0a);
    }
    assert(out@ =~= ended(bytes@));
    let m: usize = entry.len();
    push_range(&mut out, entry, 0, m);
    out.push(0x0a);
    assert(entry@.subrange(0, m as int) =~= entry@);
    assert(out@ =~= ended(bytes@) + entry@ + seq![0x0au8]);
    out
}

/// What can be an entry: not empty, and without line feeds, comments or white
/// space at either end.
pub open spec fn is_entry(e: Seq<u8>) -> bool {
    &&& e.len() > 0
    &&& !is_blank(e[0])
    &&& !is_blank(e.last())
    &&& forall|i: int| 0 <= i < e.len() ==> e[i] != 0x0a && e[i] != 0x23
}

proof fn lemma_entry_of_itself(e: Seq<u8>)
    requires
        is_entry(e),
    ensures
        entry_of(e) == e,
{
    lemma_first_of_is(e, 0x23, e.len() as int);
    assert(e.take(e.len() as int) =~= e);
}

proof fn lemma_entry_ignores_newline(line: Seq<u8>)
    ensures
        entry_of(line.push(0x0a)) == entry_of(line),
{
    let long = line.push(0x0a);
    lemma_first_of(line, 0x23);
    lemma_first_of(long, 0x23);
    let n = first_of(line, 0x23);
    if n < line.len() {
        assert(long[n] == line[n]);
        lemma_first_of_is(long, 0x23, n);
        assert(long.take(n) =~= line.take(n));
    } else {
        assert forall|i: int| 0 <= i < long.len() implies long[i] != 0x23 by {
            if i < line.len() {
                assert(line[i] != 0x23);
            }
        }
        lemma_first_of_is(long, 0x23, long.len() as int);
        assert(long.take(long.len() as int) =~= long);
        assert(line.take(n) =~= line);
        lemma_strip_newline(line);
    }
}

proof fn lemma_strip_newline(text: Seq<u8>)
    ensures
        stripped_end(stripped_start(text.push(0x0a))) == stripped_end(stripped_start(text)),
    decreases text.len(),
{
    let long = text.push(0x0a);
    if text.len() == 0 {
        assert(long.skip(1) =~= Seq::empty());
        assert(stripped_start(long) == stripped_start(long.skip(1)));
        assert(text =~= Seq::empty());
    } else if is_blank(text[0]) {
        lemma_strip_newline(text.skip(1));
        assert(long.skip(1) =~= text.skip(1).push(0x0a));
    } else {
        assert(long[0] == text[0]);
        assert(stripped_start(long) == long);
        assert(long.drop_last() =~= text);
    }
}

proof fn lemma_comment_has_no_entry(line: Seq<u8>)
    requires
        line.len() > 0,
        line[0] == 0x23,
    ensures
        entry_of(line) == Seq::<u8>::empty(),
{
    assert(line.take(0) =~= Seq::empty());
}

proof fn lemma_listed_append(a: Seq<u8>, b: Seq<u8>, e: Seq<u8>)
    requires
        a.len() > 0,
        a.last() == 0x0a,
        e.len() > 0,
    ensures
        listed(a + b, e) == (listed(a, e) || listed(b, e)),
    decreases a.len(),
{
    lemma_first_of(a, 0x0a);
    let n = first_of(a, 0x0a);
    assert(n < a.len()) by {
        if n >= a.len() {
            assert(a[a.len() - 1] != 0x0a);
        }
    }
    let whole = a + b;
    assert forall|i: int| 0 <= i < n implies whole[i] != 0x0a by {
        assert(a[i] != 0x0a);
    }
    lemma_first_of_is(whole, 0x0a, n);
    assert(whole.take(n) =~= a.take(n));
    assert(whole.skip(n + 1) =~= a.skip(n + 1) + b);
    if n + 1 < a.len() {
        assert(a.skip(n + 1).last() == a.last());
        lemma_listed_append(a.skip(n + 1), b, e);
    } else {
        assert(a.skip(n + 1) =~= Seq::empty());
        assert(a.skip(n + 1) + b =~= b);
        lemma_empty_lists_nothing(e);
    }
}

proof fn lemma_empty_lists_nothing(e: Seq<u8>)
    requires
        e.len() > 0,
    ensures
        !listed(Seq::<u8>::empty(), e),
{
    let none = Seq::<u8>::empty();
    assert(none.take(0) =~= none);
    assert(entry_of(none) =~= none);
}

proof fn lemma_listed_ended(bytes: Seq<u8>, e: Seq<u8>)
    requires
        e.len() > 0,
    ensures
        listed(ended(bytes), e) == listed(bytes, e),
    decreases bytes.len(),
{
    if bytes.len() > 0 && bytes.last() != 0x0a {
        let long = bytes.push(0x0a);
        lemma_first_of(bytes, 0x0a);
        let n = first_of(bytes, 0x0a);
        if n < bytes.len() {
            assert(n < bytes.len() - 1);
            assert forall|i: int| 0 <= i < n implies long[i] != 0x0a by {
                assert(bytes[i] != 0x0a);
            }
            lemma_first_of_is(long, 0x0a, n);
            assert(long.take(n) =~= bytes.take(n));
            assert(bytes.skip(n + 1).last() == bytes.last());
            assert(long.skip(n + 1) =~= bytes.skip(n + 1).push(0x0a));
            lemma_listed_ended(bytes.skip(n + 1), e);
        } else {
            assert forall|i: int| 0 <= i < bytes.len() implies long[i] != 0x0a by {
                assert(bytes[i] != 0x0a);
            }
            lemma_first_of_is(long, 0x0a, bytes.len() as int);
            assert(long.take(bytes.len() as int) =~= bytes);
            assert(long.skip((bytes.len() + 1) as int) =~= Seq::empty());
            lemma_empty_lists_nothing(e);
        }
    }
}

proof fn lemma_line_lists(e: Seq<u8>, x: Seq<u8>)
    requires
        is_entry(e),
        x.len() > 0,
    ensures
        listed(e + seq![0x0au8], x) == (e == x),
{
    let line = e + seq![0x0au8];
    assert forall|i: int| 0 <= i < e.len() implies line[i] != 0x0a by {
        assert(e[i] != 0x0a);
    }
    lemma_first_of_is(line, 0x0a, e.len() as int);
    assert(line.take(e.len() as int) =~= e);
    assert(line.skip((e.len() + 1) as int) =~= Seq::empty());
    lemma_entry_of_itself(e);
    lemma_empty_lists_nothing(x);
}

/// Registering lists the entry, and no other entry comes or goes.
pub proof fn registering_lists_the_entry(bytes: Seq<u8>, e: Seq<u8>, x: Seq<u8>)
    requires
        is_entry(e),
        x.len() > 0,
    ensures
        listed(with_entry(bytes, e), e),
        x != e ==> listed(with_entry(bytes, e), x) == listed(bytes, x),
{
    if !listed(bytes, e) {
        let base = ended(bytes);
        let line = e + seq![0x0au8];
        assert(base + e + seq![0x0au8] =~= base + line);
        lemma_line_lists(e, e);
        lemma_line_lists(e, x);
        lemma_listed_ended(bytes, e);
        lemma_listed_ended(bytes, x);
        if base.len() > 0 {
            assert(base.last() == 0x0a);
            lemma_listed_append(base, line, e);
            lemma_listed_append(base, line, x);
        } else {
            assert(base + line =~= line);
            assert(bytes =~= Seq::empty());
            lemma_empty_lists_nothing(x);
        }
    }
}

/// Registering again changes nothing.
pub proof fn registering_is_idempotent(bytes: Seq<u8>, e: Seq<u8>)
    requires
        is_entry(e),
    ensures
        with_entry(with_entry(bytes, e), e) == with_entry(bytes, e),
{
    registering_lists_the_entry(bytes, e, e);
}

/// What a removal leaves of one line has no such entry, and the entry of any
/// other line stays.
proof fn lemma_kept_line(text: Seq<u8>, e: Seq<u8>, x: Seq<u8>)
    requires
        e.len() > 0,
        x.len() > 0,
        forall|i: int| 0 <= i < text.len() ==> text[i] != 0x0a,
    ensures
        kept(text.push(0x0a), e).len() > 0 ==> kept(text.push(0x0a), e).last() == 0x0a,
        listed(kept(text.push(0x0a), e), x) == (x != e && entry_of(text) == x),
{
    let line = text.push(0x0a);
    lemma_entry_ignores_newline(text);
    lemma_first_of(line, 0x23);
    let c = first_of(line, 0x23);
    if entry_of(line) == e {
        let note = line.skip(c);
        if note.len() > 0 {
            assert(note[0] == 0x23);
            assert(note.last() == 0x0a);
            let n = note.len() - 1;
            assert forall|i: int| 0 <= i < n implies note[i] != 0x0a by {
                assert(note[i] == text[c + i]);
            }
            lemma_first_of_is(note, 0x0a, n);
            assert(note.skip(n + 1) =~= Seq::empty());
            lemma_empty_lists_nothing(x);
            if n > 0 {
                assert(note.take(n)[0] == 0x23);
                lemma_comment_has_no_entry(note.take(n));
            }
        } else {
            assert(note =~= Seq::empty());
            lemma_empty_lists_nothing(x);
        }
    } else {
        assert forall|i: int| 0 <= i < text.len() implies line[i] != 0x0a by {
            assert(text[i] != 0x0a);
        }
        lemma_first_of_is(line, 0x0a, text.len() as int);
        assert(line.take(text.len() as int) =~= text);
        assert(line.skip((text.len() + 1) as int) =~= Seq::empty());
        lemma_empty_lists_nothing(x);
    }
}

/// Removing takes the entry out, and no other entry comes or goes.
pub proof fn removing_unlists_the_entry(bytes: Seq<u8>, e: Seq<u8>, x: Seq<u8>)
    requires
        e.len() > 0,
        x.len() > 0,
    ensures
        listed(unlisted(bytes, e), x) == (x != e && listed(bytes, x)),
    decreases bytes.len(),
{
    if bytes.len() == 0 {
        assert(bytes =~= Seq::empty());
        lemma_empty_lists_nothing(x);
    } else {
        lemma_first_of(bytes, 0x0a);
        let n = first_of(bytes, 0x0a);
        if n >= bytes.len() {
            lemma_first_of(bytes, 0x23);
            let c = first_of(bytes, 0x23);
            if entry_of(bytes) == e {
                let note = bytes.skip(c);
                if note.len() > 0 {
                    assert forall|i: int| 0 <= i < note.len() implies note[i] != 0x0a by {
                        assert(note[i] == bytes[c + i]);
                    }
                    lemma_first_of_is(note, 0x0a, note.len() as int);
                    assert(note[0] == 0x23);
                    lemma_comment_has_no_entry(note);
                } else {
                    assert(note =~= Seq::empty());
                    lemma_empty_lists_nothing(x);
                }
            }
        } else {
            let text = bytes.take(n);
            let line = bytes.take(n + 1);
            let rest = bytes.skip(n + 1);
            assert(line =~= text.push(0x0a));
            assert forall|i: int| 0 <= i < text.len() implies text[i] != 0x0a by {
                assert(bytes[i] != 0x0a);
            }
            lemma_kept_line(text, e, x);
            removing_unlists_the_entry(rest, e, x);
            let head = kept(line, e);
            let tail = unlisted(rest, e);
            if head.len() > 0 {
                lemma_listed_append(head, tail, x);
            } else {
                assert(head + tail =~= tail);
                assert(head =~= Seq::empty());
                lemma_empty_lists_nothing(x);
            }
        }
    }
}

/// A table without the entry is left as it is.
pub proof fn removing_nothing_changes_nothing(bytes: Seq<u8>, e: Seq<u8>)
    requires
        e.len() > 0,
        !listed(bytes, e),
    ensures
        unlisted(bytes, e) == bytes,
    decreases bytes.len(),
{
    if bytes.len() > 0 {
        lemma_first_of(bytes, 0x0a);
        let n = first_of(bytes, 0x0a);
        if n < bytes.len() {
            assert(bytes.take(n + 1) =~= bytes.take(n).push(0x0a));
            lemma_entry_ignores_newline(bytes.take(n));
            removing_nothing_changes_nothing(bytes.skip(n + 1), e);
            assert(bytes.take(n + 1) + bytes.skip(n + 1) =~= bytes);
        }
    } else {
        assert(bytes =~= Seq::empty());
    }
}

/// Removing again changes nothing.
pub proof fn removing_is_idempotent(bytes: Seq<u8>, e: Seq<u8>)
    requires
        e.len() > 0,
    ensures
        unlisted(unlisted(bytes, e), e) == unlisted(bytes, e),
{
    removing_unlists_the_entry(bytes, e, e);
    removing_nothing_changes_nothing(unlisted(bytes, e), e);
}

proof fn lemma_unlisted_append(a: Seq<u8>, b: Seq<u8>, e: Seq<u8>)
    requires
        a.len() > 0 ==> a.last() == 0x0a,
    ensures
        unlisted(a + b, e) == unlisted(a, e) + unlisted(b, e),
    decreases a.len(),
{
    if a.len() == 0 {
        assert(a + b =~= b);
        assert(unlisted(a, e) + unlisted(b, e) =~= unlisted(b, e));
    } else {
        lemma_first_of(a, 0x0a);
        let n = first_of(a, 0x0a);
        assert(n < a.len()) by {
            if n >= a.len() {
                assert(a[a.len() - 1] != 0x0a);
            }
        }
        let whole = a + b;
        assert forall|i: int| 0 <= i < n implies whole[i] != 0x0a by {
            assert(a[i] != 0x0a);
        }
        lemma_first_of_is(whole, 0x0a, n);
        assert(whole.take(n + 1) =~= a.take(n + 1));
        assert(whole.skip(n + 1) =~= a.skip(n + 1) + b);
        if n + 1 < a.len() {
            assert(a.skip(n + 1).last() == a.last());
        }
        lemma_unlisted_append(a.skip(n + 1), b, e);
        assert(kept(a.take(n + 1), e) + (unlisted(a.skip(n + 1), e) + unlisted(b, e)) =~= kept(
            a.take(n + 1),
            e,
        ) + unlisted(a.skip(n + 1), e) + unlisted(b, e));
    }
}

/// Removing what was just registered gives the table back, with its last line
/// ended.
pub proof fn removal_undoes_registration(bytes: Seq<u8>, e: Seq<u8>)
    requires
        is_entry(e),
        !listed(bytes, e),
    ensures
        unlisted(with_entry(bytes, e), e) == ended(bytes),
{
    let base = ended(bytes);
    let line = e + seq![0x0au8];
    assert(base + e + seq![0x0au8] =~= base + line);
    lemma_unlisted_append(base, line, e);
    lemma_listed_ended(bytes, e);
    removing_nothing_changes_nothing(base, e);
    assert forall|i: int| 0 <= i < e.len() implies line[i] != 0x0a by {
        assert(e[i] != 0x0a);
    }
    lemma_first_of_is(line, 0x0a, e.len() as int);
    assert(line.take((e.len() + 1) as int) =~= line);
    assert(line.skip((e.len() + 1) as int) =~= Seq::empty());
    assert(line =~= e.push(0x0a));
    lemma_entry_ignores_newline(e);
    lemma_entry_of_itself(e);
    assert forall|i: int| 0 <= i < line.len() implies line[i] != 0x23 by {
        if i < e.len() {
            assert(e[i] != 0x23);
        }
    }
    lemma_first_of_is(line, 0x23, line.len() as int);
    assert(line.skip(line.len() as int) =~= Seq::empty());
    assert(kept(line, e) + unlisted(line.skip((e.len() + 1) as int), e) =~= Seq::empty());
    assert(unlisted(line, e) =~= Seq::empty());
    assert(base + Seq::<u8>::empty() =~= base);
}

} // verus!
