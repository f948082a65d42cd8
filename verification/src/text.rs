//! Text primitives over `Seq<char>`: comparison, trimming, splitting and
//! decimal rendering.

use vstd::prelude::*;
use vstd::string::*;
use vstd::utf8::*;

pub mod laws;

verus! {

/// The characters with the Unicode `White_Space` property.
pub open spec fn is_space(c: char) -> bool {
    ||| 0x9 <= c as u32 <= 0xd
    ||| c as u32 == 0x20
    ||| c as u32 == 0x85
    ||| c as u32 == 0xa0
    ||| c as u32 == 0x1680
    ||| 0x2000 <= c as u32 <= 0x200a
    ||| c as u32 == 0x2028
    ||| c as u32 == 0x2029
    ||| c as u32 == 0x202f
    ||| c as u32 == 0x205f
    ||| c as u32 == 0x3000
}

/// Whether `c` is white space.
pub fn space(c: char) -> (res: bool)
    ensures
        res == is_space(c),
{
    let u: u32 = c as u32;
    (0x9 <= u && u <= 0xd) || u == 0x20 || u == 0x85 || u == 0xa0 || u == 0x1680 || (0x2000 <= u
        && u <= 0x200a) || u == 0x2028 || u == 0x2029 || u == 0x202f || u == 0x205f || u == 0x3000
}

/// Whether two texts hold the same characters.
pub fn same(a: &str, b: &str) -> (res: bool)
    ensures
        res == (a@ == b@),
{
    let x: String = a.to_owned();
    let y: String = b.to_owned();
    x == y
}

/// Whether an optional text is present and equal to `b`.
pub fn is_text(a: &Option<String>, b: &str) -> (res: bool)
    ensures
        res == (a is Some && a->0@ == b@),
{
    match a {
        Some(x) => same(x.as_str(), b),
        None => false,
    }
}

/// The view of an optional text.
pub open spec fn opt_view(a: Option<String>) -> Option<Seq<char>> {
    match a {
        Some(x) => Some(x@),
        None => None,
    }
}

/// The characters of `s` in order.
pub fn chars_of(s: &str) -> (res: Vec<char>)
    ensures
        res@ == s@,
{
    let mut out: Vec<char> = Vec::new();
    for c in it: s.chars()
        invariant
            out@.len() == it.index(),
            it.seq() == s@,
            forall|i: int| 0 <= i < out@.len() ==> out@[i] == it.seq()[i],
    {
        out.push(c);
    }
    out
}

/// `String::push` appends one character to the end of the text.
#[verifier::external_body]
pub(crate) fn push_char(s: &mut String, c: char)
    ensures
        final(s)@ == old(s)@.push(c),
{
    s.push(c);
}

/// The text made of `v[from..to]`.
pub fn text_of(v: &Vec<char>, from: usize, to: usize) -> (res: String)
    requires
        from <= to <= v@.len(),
    ensures
        res@ == v@.subrange(from as int, to as int),
{
    let mut out = String::new();
    let mut i: usize = from;
    while i < to
        invariant
            from <= i <= to <= v@.len(),
            out@ == v@.subrange(from as int, i as int),
        decreases to - i,
    {
        push_char(&mut out, v[i]);
        assert(v@.subrange(from as int, i + 1) =~= v@.subrange(from as int, i as int).push(v@[i as int]));
        i = i + 1;
    }
    out
}

/// Whether `pat` stands in `s` at position `at`.
pub open spec fn found_at(s: Seq<char>, pat: Seq<char>, at: int) -> bool {
    &&& 0 <= at
    &&& at + pat.len() <= s.len()
    &&& s.subrange(at, at + pat.len()) == pat
}

/// `s` with every occurrence of a non-empty `pat`, from left to right and
/// without overlap, replaced by `value`.
pub open spec fn replaced(s: Seq<char>, pat: Seq<char>, value: Seq<char>) -> Seq<char>
    decreases s.len(),
{
    if s.len() == 0 || pat.len() == 0 {
        s
    } else if found_at(s, pat, 0) {
        value + replaced(s.skip(pat.len() as int), pat, value)
    } else {
        seq![s[0]] + replaced(s.skip(1), pat, value)
    }
}

/// Whether `pat` stands in `s` at position `at`.
pub fn stands_at(s: &Vec<char>, pat: &Vec<char>, at: usize) -> (res: bool)
    requires
        at <= s@.len(),
    ensures
        res == found_at(s@, pat@, at as int),
{
    if pat.len() > s.len() - at {
        return false;
    }
    let mut i: usize = 0;
    while i < pat.len()
        invariant
            i <= pat@.len(),
            at + pat.len() <= s.len(),
            forall|j: int| 0 <= j < i ==> s@[at + j] == pat@[j],
        decreases pat@.len() - i,
    {
        if s[at + i] != pat[i] {
            proof {
                let sub = s@.subrange(at as int, at + pat@.len());
                assert(sub[i as int] == s@[at + i]);
            }
            return false;
        }
        i = i + 1;
    }
    assert(s@.subrange(at as int, at + pat@.len()) =~= pat@);
    true
}

/// `s` with every occurrence of `pat` replaced by `value`.
pub fn replace_all(s: &str, pat: &str, value: &str) -> (res: String)
    ensures
        res@ == replaced(s@, pat@, value@),
{
    let chars = chars_of(s);
    let pattern = chars_of(pat);
    if pattern.len() == 0 {
        return s.to_owned();
    }
    let mut out = String::new();
    let mut i: usize = 0;
    proof {
        assert(s@.skip(0) =~= s@);
        assert(out@ + replaced(s@, pat@, value@) =~= replaced(s@, pat@, value@));
    }
    while i < chars.len()
        invariant
            chars@ == s@,
            pattern@ == pat@,
            pattern@.len() > 0,
            i <= chars@.len(),
            out@ + replaced(s@.skip(i as int), pat@, value@) == replaced(s@, pat@, value@),
        decreases chars@.len() - i,
    {
        let ghost rest = s@.skip(i as int);
        proof {
            assert(rest.len() > 0);
            if i + pat@.len() <= s@.len() {
                assert(rest.subrange(0, pat@.len() as int) =~= s@.subrange(i as int, i + pat@.len()));
            }
            assert(found_at(rest, pat@, 0) == found_at(s@, pat@, i as int));
        }
        if stands_at(&chars, &pattern, i) {
            let ghost before = out@;
            out.append(value);
            i = i + pattern.len();
            proof {
                assert(rest.skip(pat@.len() as int) =~= s@.skip(i as int));
                assert(before + (value@ + replaced(s@.skip(i as int), pat@, value@)) =~= out@
                    + replaced(s@.skip(i as int), pat@, value@));
            }
        } else {
            let ghost before = out@;
            push_char(&mut out, chars[i]);
            proof {
                assert(rest.skip(1) =~= s@.skip(i + 1));
                assert(before + (seq![s@[i as int]] + replaced(s@.skip(i + 1), pat@, value@)) =~= out@
                    + replaced(s@.skip(i + 1), pat@, value@));
            }
            i = i + 1;
        }
    }
    assert(s@.skip(s@.len() as int) =~= Seq::empty());
    out
}

/// `s` without white space in front.
pub open spec fn trimmed_start(s: Seq<char>) -> Seq<char>
    decreases s.len(),
{
    if s.len() > 0 && is_space(s[0]) {
        trimmed_start(s.skip(1))
    } else {
        s
    }
}

/// `s` without white space at the end.
pub open spec fn trimmed_end(s: Seq<char>) -> Seq<char>
    decreases s.len(),
{
    if s.len() > 0 && is_space(s.last()) {
        trimmed_end(s.drop_last())
    } else {
        s
    }
}

/// `s` without white space at either end.
pub open spec fn trimmed(s: Seq<char>) -> Seq<char> {
    trimmed_end(trimmed_start(s))
}

/// `s` without white space at either end.
pub fn trim(s: &str) -> (res: String)
    ensures
        res@ == trimmed(s@),
{
    let chars = chars_of(s);
    let mut from: usize = 0;
    assert(s@.skip(0) =~= s@);
    while from < chars.len() && space(chars[from])
        invariant
            chars@ == s@,
            from <= chars@.len(),
            trimmed_start(s@) == trimmed_start(s@.skip(from as int)),
        decreases chars@.len() - from,
    {
        assert(s@.skip(from as int).skip(1) =~= s@.skip(from + 1));
        from = from + 1;
    }
    let ghost front = s@.skip(from as int);
    assert(trimmed_start(front) == front);
    let mut to: usize = chars.len();
    assert(s@.subrange(from as int, to as int) =~= front);
    while to > from && space(chars[to - 1])
        invariant
            chars@ == s@,
            from <= to <= chars@.len(),
            trimmed_end(front) == trimmed_end(s@.subrange(from as int, to as int)),
        decreases to,
    {
        assert(s@.subrange(from as int, to as int).drop_last() =~= s@.subrange(from as int, to - 1));
        to = to - 1;
    }
    text_of(&chars, from, to)
}

/// `std::str::from_utf8` accepts exactly the bytes that are valid UTF-8, and
/// decodes them.
#[verifier::external_body]
pub(crate) fn utf8_text(bytes: &[u8]) -> (res: Option<String>)
    ensures
        match res {
            Some(s) => valid_utf8(bytes@) && s@ == decode_utf8(bytes@),
            None => !valid_utf8(bytes@),
        },
{
    std::str::from_utf8(bytes).ok().map(|s| s.to_string())
}

/// A letter or digit of ASCII.
pub open spec fn is_ascii_alnum(c: char) -> bool {
    ('a' <= c && c <= 'z') || ('A' <= c && c <= 'Z') || ('0' <= c && c <= '9')
}

/// Whether `c` is a letter or digit of ASCII.
pub fn ascii_alnum(c: char) -> (res: bool)
    ensures
        res == is_ascii_alnum(c),
{
    ('a' <= c && c <= 'z') || ('A' <= c && c <= 'Z') || ('0' <= c && c <= '9')
}

/// The character of a decimal digit.
pub open spec fn digit_char(d: int) -> char {
    (48 + d) as char
}

/// `n` in decimal, without leading zeros.
pub open spec fn decimal(n: nat) -> Seq<char>
    decreases n,
{
    if n < 10 {
        seq![digit_char(n as int)]
    } else {
        decimal(n / 10).push(digit_char((n % 10) as int))
    }
}

/// `n` in decimal.
pub fn decimal_text(n: u128) -> (res: String)
    ensures
        res@ == decimal(n as nat),
    decreases n,
{
    let d: u8 = (n % 10) as u8;
    let c: char = (48u8 + d) as char;
    if n < 10 {
        let mut out = String::new();
        push_char(&mut out, c);
        assert(out@ =~= decimal(n as nat));
        out
    } else {
        let mut out = decimal_text(n / 10);
        push_char(&mut out, c);
        out
    }
}

/// Whether `s` begins with `prefix`.
pub open spec fn begins_with(s: Seq<char>, prefix: Seq<char>) -> bool {
    found_at(s, prefix, 0)
}

/// Whether `s` begins with `prefix`.
pub fn starts_with(s: &str, prefix: &str) -> (res: bool)
    ensures
        res == begins_with(s@, prefix@),
{
    let chars = chars_of(s);
    let head = chars_of(prefix);
    stands_at(&chars, &head, 0)
}

/// The position of the first `sep`, or the length.
pub open spec fn first_at(s: Seq<char>, sep: char) -> int
    decreases s.len(),
{
    if s.len() == 0 || s[0] == sep {
        0
    } else {
        1 + first_at(s.skip(1), sep)
    }
}

/// `first_at` is the least position of `sep`.
pub proof fn lemma_first_at(s: Seq<char>, sep: char)
    ensures
        0 <= first_at(s, sep) <= s.len(),
        first_at(s, sep) < s.len() ==> s[first_at(s, sep)] == sep,
        forall|i: int| 0 <= i < first_at(s, sep) ==> s[i] != sep,
    decreases s.len(),
{
    if s.len() > 0 && s[0] != sep {
        lemma_first_at(s.skip(1), sep);
        assert forall|i: int| 0 <= i < first_at(s, sep) implies s[i] != sep by {
            if i > 0 {
                assert(s.skip(1)[i - 1] == s[i]);
            }
        }
    }
}

/// A position with `sep`, and none before it, is the first.
pub proof fn lemma_first_at_is(s: Seq<char>, sep: char, n: int)
    requires
        0 <= n <= s.len(),
        n < s.len() ==> s[n] == sep,
        forall|i: int| 0 <= i < n ==> s[i] != sep,
    ensures
        first_at(s, sep) == n,
{
    lemma_first_at(s, sep);
    let m = first_at(s, sep);
    if m < n {
        assert(s[m] != sep);
    }
    if n < m {
        assert(s[n] != sep);
    }
}

/// The parts of `s` between separators; there is always at least one.
pub open spec fn pieces(s: Seq<char>, sep: char) -> Seq<Seq<char>>
    decreases s.len(),
{
    let n = first_at(s, sep);
    if n < 0 || n >= s.len() {
        seq![s]
    } else {
        seq![s.take(n)] + pieces(s.skip(n + 1), sep)
    }
}

/// The views of a list of texts.
pub open spec fn texts(v: Seq<String>) -> Seq<Seq<char>> {
    Seq::new(v.len(), |i: int| v[i]@)
}

fn find_from(v: &Vec<char>, sep: char, from: usize) -> (res: usize)
    requires
        from <= v@.len(),
    ensures
        from <= res <= v@.len(),
        res - from == first_at(v@.skip(from as int), sep),
{
    let mut i: usize = from;
    while i < v.len() && v[i] != sep
        invariant
            from <= i <= v@.len(),
            forall|j: int| from <= j < i ==> v@[j] != sep,
        decreases v@.len() - i,
    {
        i = i + 1;
    }
    proof {
        let rest = v@.skip(from as int);
        assert forall|j: int| 0 <= j < i - from implies rest[j] != sep by {
            assert(rest[j] == v@[from + j]);
        }
        lemma_first_at_is(rest, sep, i - from);
    }
    i
}

/// The parts of `s` between separators.
pub fn split(s: &str, sep: char) -> (res: Vec<String>)
    ensures
        texts(res@) == pieces(s@, sep),
{
    let chars = chars_of(s);
    let mut out: Vec<String> = Vec::new();
    let mut from: usize = 0;
    proof {
        assert(s@.skip(0) =~= s@);
        assert(texts(out@) + pieces(s@, sep) =~= pieces(s@, sep));
    }
    loop
        invariant
            chars@ == s@,
            from <= chars@.len(),
            texts(out@) + pieces(s@.skip(from as int), sep) == pieces(s@, sep),
        decreases chars@.len() - from,
    {
        let end: usize = find_from(&chars, sep, from);
        let ghost rest = s@.skip(from as int);
        let piece = text_of(&chars, from, end);
        let ghost before = texts(out@);
        out.push(piece);
        proof {
            assert(piece@ =~= rest.take(end - from));
            assert(texts(out@) =~= before.push(piece@));
        }
        if end >= chars.len() {
            proof {
                assert(rest.take(rest.len() as int) =~= rest);
                assert(before + seq![rest] =~= texts(out@));
            }
            return out;
        }
        proof {
            assert(rest.skip(end - from + 1) =~= s@.skip(end + 1));
            assert(before + (seq![piece@] + pieces(s@.skip(end + 1), sep)) =~= texts(out@) + pieces(
                s@.skip(end + 1),
                sep,
            ));
        }
        from = end + 1;
    }
}

/// A line without the carriage return in front of its line feed.
pub open spec fn without_return(s: Seq<char>) -> Seq<char> {
    if s.len() > 0 && s.last() == '\r' {
        s.drop_last()
    } else {
        s
    }
}

/// The lines of `s`. A line feed, with or without a carriage return in front of
/// it, ends a line.
pub open spec fn lines_of(s: Seq<char>) -> Seq<Seq<char>>
    decreases s.len(),
{
    if s.len() == 0 {
        Seq::empty()
    } else {
        let n = first_at(s, '\n');
        if n < 0 || n >= s.len() {
            seq![s]
        } else {
            seq![without_return(s.take(n))] + lines_of(s.skip(n + 1))
        }
    }
}

/// The lines of `s`.
pub fn lines(s: &str) -> (res: Vec<String>)
    ensures
        texts(res@) == lines_of(s@),
{
    let chars = chars_of(s);
    let mut out: Vec<String> = Vec::new();
    let mut from: usize = 0;
    proof {
        assert(s@.skip(0) =~= s@);
        assert(texts(out@) + lines_of(s@) =~= lines_of(s@));
    }
    while from < chars.len()
        invariant
            chars@ == s@,
            from <= chars@.len(),
            texts(out@) + lines_of(s@.skip(from as int)) == lines_of(s@),
        decreases chars@.len() - from,
    {
        let end: usize = find_from(&chars, '\n', from);
        let ghost rest = s@.skip(from as int);
        let ghost before = texts(out@);
        if end >= chars.len() {
            let line = text_of(&chars, from, end);
            out.push(line);
            proof {
                assert(line@ =~= rest);
                assert(texts(out@) =~= before + seq![rest]);
                assert(s@.skip(s@.len() as int) =~= Seq::empty());
                assert(texts(out@) + lines_of(s@.skip(s@.len() as int)) =~= texts(out@));
            }
            from = chars.len();
        } else {
            let stop: usize = if end > from && chars[end - 1] == '\r' {
                end - 1
            } else {
                end
            };
            let line = text_of(&chars, from, stop);
            out.push(line);
            proof {
                let whole = rest.take(end - from);
                if end > from {
                    assert(whole.last() == s@[end - 1]);
                }
                assert(line@ =~= without_return(whole));
                assert(texts(out@) =~= before.push(line@));
                assert(rest.skip(end - from + 1) =~= s@.skip(end + 1));
                assert(before + (seq![line@] + lines_of(s@.skip(end + 1))) =~= texts(out@) + lines_of(
                    s@.skip(end + 1),
                ));
            }
            from = end + 1;
        }
    }
    proof {
        assert(s@.skip(s@.len() as int) =~= Seq::empty());
        assert(texts(out@) + Seq::<Seq<char>>::empty() =~= texts(out@));
    }
    out
}

/// A decimal digit.
pub open spec fn is_digit(c: char) -> bool {
    '0' <= c && c <= '9'
}

/// The value of a digit.
pub open spec fn digit_value(c: char) -> int {
    c as u32 - 48
}

/// All characters are digits.
pub open spec fn all_digits(s: Seq<char>) -> bool {
    forall|i: int| 0 <= i < s.len() ==> is_digit(#[trigger] s[i])
}

/// The number that digits spell.
pub open spec fn number_of(s: Seq<char>) -> int
    decreases s.len(),
{
    if s.len() == 0 {
        0
    } else {
        10 * number_of(s.drop_last()) + digit_value(s.last())
    }
}

/// The digits of an unsigned number, which may have a plus sign in front.
pub open spec fn unsigned_digits(s: Seq<char>) -> Seq<char> {
    if s.len() > 0 && s[0] == '+' {
        s.skip(1)
    } else {
        s
    }
}

/// The unsigned number up to `max` that `s` spells, if it spells one.
pub open spec fn unsigned_in(s: Seq<char>, max: int) -> Option<int> {
    let digits = unsigned_digits(s);
    if digits.len() > 0 && all_digits(digits) && number_of(digits) <= max {
        Some(number_of(digits))
    } else {
        None
    }
}

proof fn lemma_number_grows(s: Seq<char>, n: int)
    requires
        0 <= n <= s.len(),
        all_digits(s),
    ensures
        0 <= number_of(s.take(n)) <= number_of(s),
    decreases s.len() - n, n,
{
    if n < s.len() {
        lemma_number_grows(s, n + 1);
        assert(s.take(n + 1).drop_last() =~= s.take(n));
        assert(is_digit(s[n]));
        lemma_number_nonneg(s.take(n));
    } else {
        assert(s.take(n) =~= s);
        lemma_number_nonneg(s);
    }
}

proof fn lemma_number_nonneg(s: Seq<char>)
    requires
        all_digits(s),
    ensures
        0 <= number_of(s),
    decreases s.len(),
{
    if s.len() > 0 {
        assert(is_digit(s.last()));
        assert(all_digits(s.drop_last())) by {
            assert forall|i: int| 0 <= i < s.drop_last().len() implies is_digit(
                #[trigger] s.drop_last()[i],
            ) by {
                assert(is_digit(s[i]));
            }
        }
        lemma_number_nonneg(s.drop_last());
    }
}

/// The unsigned number up to `max` that `s` spells, if it spells one.
pub fn parse_unsigned(s: &str, max: u64) -> (res: Option<u64>)
    ensures
        match res {
            Some(n) => unsigned_in(s@, max as int) == Some(n as int),
            None => unsigned_in(s@, max as int) is None,
        },
{
    let chars = chars_of(s);
    let from: usize = if chars.len() > 0 && chars[0] == '+' {
        1
    } else {
        0
    };
    let ghost digits = unsigned_digits(s@);
    assert(digits =~= s@.skip(from as int));
    if from >= chars.len() {
        return None;
    }
    let mut value: u64 = 0;
    let mut i: usize = from;
    assert(digits.take(0) =~= Seq::empty());
    while i < chars.len()
        invariant
            chars@ == s@,
            from <= i <= chars@.len(),
            digits == s@.skip(from as int),
            digits == unsigned_digits(s@),
            value == number_of(digits.take(i - from)),
            value <= max,
            forall|j: int| 0 <= j < i - from ==> is_digit(#[trigger] digits[j]),
        decreases chars@.len() - i,
    {
        let c: char = chars[i];
        assert(digits[i - from] == c);
        if !('0' <= c && c <= '9') {
            assert(!is_digit(digits[i - from]));
            return None;
        }
        let d: u64 = (c as u32 - 48) as u64;
        proof {
            assert(digits.take(i - from + 1).drop_last() =~= digits.take(i - from));
            assert(number_of(digits.take(i - from + 1)) == 10 * value + d);
            if all_digits(digits) {
                lemma_number_grows(digits, i - from + 1);
            }
        }
        if value > max / 10 {
            proof {
                assert(10 * value + d > max) by (nonlinear_arith)
                    requires
                        value > max / 10,
                        d >= 0,
                ;
            }
            return None;
        }
        let shifted: u64 = value * 10;
        if d > max - shifted {
            return None;
        }
        value = shifted + d;
        i = i + 1;
    }
    assert(digits.take(i - from) =~= digits);
    Some(value)
}

/// The texts with `sep` between them.
pub open spec fn joined(parts: Seq<Seq<char>>, sep: Seq<char>) -> Seq<char>
    decreases parts.len(),
{
    if parts.len() == 0 {
        Seq::empty()
    } else if parts.len() == 1 {
        parts[0]
    } else {
        joined(parts.drop_last(), sep) + sep + parts.last()
    }
}

/// The texts with `sep` between them.
pub fn join(parts: &Vec<String>, sep: &str) -> (res: String)
    ensures
        res@ == joined(texts(parts@), sep@),
{
    let mut out = String::new();
    let ghost all = texts(parts@);
    let mut i: usize = 0;
    assert(all.take(0) =~= Seq::empty());
    while i < parts.len()
        invariant
            i <= parts@.len(),
            all == texts(parts@),
            out@ == joined(all.take(i as int), sep@),
        decreases parts@.len() - i,
    {
        proof {
            assert(all.take(i + 1).drop_last() =~= all.take(i as int));
            assert(all.take(i + 1).last() == parts@[i as int]@);
        }
        if i > 0 {
            out.append(sep);
            out.append(parts[i].as_str());
        } else {
            assert(all.take(1)[0] == parts@[0]@);
            out = parts[0].clone();
        }
        i = i + 1;
    }
    assert(all.take(all.len() as int) =~= all);
    out
}

/// The same texts.
pub fn copy_texts(v: &Vec<String>) -> (res: Vec<String>)
    ensures
        texts(res@) == texts(v@),
{
    let mut out: Vec<String> = Vec::new();
    let mut i: usize = 0;
    while i < v.len()
        invariant
            i <= v@.len(),
            out@.len() == i,
            forall|j: int| 0 <= j < i ==> (#[trigger] out@[j])@ == v@[j]@,
        decreases v@.len() - i,
    {
        out.push(v[i].clone());
        i = i + 1;
    }
    assert(texts(out@) =~= texts(v@));
    out
}

/// How long the word at the start of a text is.
pub open spec fn word_len(s: Seq<char>) -> int
    decreases s.len(),
{
    if s.len() == 0 || is_space(s[0]) {
        0
    } else {
        1 + word_len(s.skip(1))
    }
}

/// The first word of a text.
pub open spec fn first_word(s: Seq<char>) -> Seq<char> {
    trimmed_start(s).take(word_len(trimmed_start(s)))
}

/// A text behind its first word.
pub open spec fn after_word(s: Seq<char>) -> Seq<char> {
    trimmed_start(s).skip(word_len(trimmed_start(s)))
}

proof fn lemma_word_len(s: Seq<char>, n: int)
    requires
        0 <= n <= s.len(),
        forall|i: int| 0 <= i < n ==> !is_space(#[trigger] s[i]),
        n < s.len() ==> is_space(s[n]),
    ensures
        word_len(s) == n,
    decreases s.len(),
{
    if n > 0 {
        assert(!is_space(s[0]));
        let rest = s.skip(1);
        assert forall|i: int| 0 <= i < n - 1 implies !is_space(#[trigger] rest[i]) by {
            assert(rest[i] == s[i + 1]);
        }
        lemma_word_len(rest, n - 1);
    }
}

/// The word at or after a position, and where it ends.
pub fn next_word(chars: &Vec<char>, from: usize) -> (res: (String, usize))
    requires
        from <= chars@.len(),
    ensures
        res.0@ == first_word(chars@.skip(from as int)),
        from <= res.1 <= chars@.len(),
        chars@.skip(res.1 as int) == after_word(chars@.skip(from as int)),
{
    let ghost rest = chars@.skip(from as int);
    let mut start: usize = from;
    while start < chars.len() && space(chars[start])
        invariant
            from <= start <= chars@.len(),
            trimmed_start(chars@.skip(start as int)) == trimmed_start(chars@.skip(from as int)),
        decreases chars@.len() - start,
    {
        proof {
            let here = chars@.skip(start as int);
            assert(here[0] == chars@[start as int]);
            assert(here.skip(1) =~= chars@.skip(start + 1));
        }
        start = start + 1;
    }
    let ghost word = chars@.skip(start as int);
    proof {
        if start < chars@.len() {
            assert(word[0] == chars@[start as int]);
        }
        assert(trimmed_start(word) == word);
    }
    let mut end: usize = start;
    while end < chars.len() && !space(chars[end])
        invariant
            start <= end <= chars@.len(),
            word == chars@.skip(start as int),
            forall|i: int| 0 <= i < end - start ==> !is_space(#[trigger] word[i]),
        decreases chars@.len() - end,
    {
        assert(word[end - start] == chars@[end as int]);
        end = end + 1;
    }
    proof {
        if end < chars@.len() {
            assert(word[end - start] == chars@[end as int]);
        }
        lemma_word_len(word, end - start);
        assert(word.take(end - start) =~= chars@.subrange(start as int, end as int));
        assert(word.skip(end - start) =~= chars@.skip(end as int));
    }
    (text_of(chars, start, end), end)
}

/// Text with the capital letters of ASCII made small.
pub open spec fn ascii_lowered(s: Seq<char>) -> Seq<char> {
    Seq::new(s.len(), |i: int| small(s[i]))
}

/// A capital letter of ASCII made small.
pub open spec fn small(c: char) -> char {
    if 'A' <= c <= 'Z' {
        (c as u8 + 32) as char
    } else {
        c
    }
}

fn make_small(c: char) -> (res: char)
    ensures
        res == small(c),
{
    if 'A' <= c && c <= 'Z' {
        let b: u8 = c as u8 + 32;
        b as char
    } else {
        c
    }
}

/// Text with the capital letters of ASCII made small.
pub fn to_ascii_lower(s: &str) -> (res: String)
    ensures
        res@ == ascii_lowered(s@),
{
    let chars = chars_of(s);
    let mut out = String::new();
    let mut i: usize = 0;
    assert(out@ =~= ascii_lowered(s@).take(0));
    while i < chars.len()
        invariant
            chars@ == s@,
            i <= chars@.len(),
            out@ == ascii_lowered(s@).take(i as int),
        decreases chars@.len() - i,
    {
        push_char(&mut out, make_small(chars[i]));
        i = i + 1;
        assert(out@ =~= ascii_lowered(s@).take(i as int));
    }
    assert(ascii_lowered(s@).take(s@.len() as int) =~= ascii_lowered(s@));
    out
}

} // verus!
