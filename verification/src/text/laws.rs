//! What holds of every text that is taken apart or put together.

use vstd::prelude::*;

use crate::text::{
    after_word, all_digits, ascii_lowered, begins_with, decimal, digit_char, first_at,
    first_word, found_at, is_digit, is_space, joined, lemma_first_at, lemma_first_at_is, lines_of,
    number_of, pieces, replaced, trimmed, trimmed_end, trimmed_start, unsigned_digits, unsigned_in,
    word_len,
};

verus! {

/// Nothing but white space.
pub open spec fn all_space(s: Seq<char>) -> bool {
    forall|i: int| 0 <= i < s.len() ==> is_space(#[trigger] s[i])
}

/// No white space at all.
pub open spec fn no_space(s: Seq<char>) -> bool {
    forall|i: int| 0 <= i < s.len() ==> !is_space(#[trigger] s[i])
}

proof fn lemma_start(pad: Seq<char>, rest: Seq<char>)
    requires
        all_space(pad),
        rest.len() > 0 ==> !is_space(rest[0]),
    ensures
        trimmed_start(pad + rest) == rest,
    decreases pad.len(),
{
    if pad.len() == 0 {
        assert(pad + rest =~= rest);
    } else {
        assert(is_space(pad[0]));
        assert((pad + rest).skip(1) =~= pad.skip(1) + rest);
        assert forall|i: int| 0 <= i < pad.skip(1).len() implies is_space(#[trigger] pad.skip(1)[i]) by {
            assert(pad.skip(1)[i] == pad[i + 1]);
        }
        lemma_start(pad.skip(1), rest);
    }
}

proof fn lemma_end(rest: Seq<char>, pad: Seq<char>)
    requires
        all_space(pad),
        rest.len() > 0 ==> !is_space(rest.last()),
    ensures
        trimmed_end(rest + pad) == rest,
    decreases pad.len(),
{
    if pad.len() == 0 {
        assert(rest + pad =~= rest);
    } else {
        assert(is_space(pad[pad.len() - 1]));
        assert((rest + pad).last() == pad.last());
        assert((rest + pad).drop_last() =~= rest + pad.drop_last());
        assert forall|i: int| 0 <= i < pad.drop_last().len() implies is_space(
            #[trigger] pad.drop_last()[i],
        ) by {
            assert(pad.drop_last()[i] == pad[i]);
        }
        lemma_end(rest, pad.drop_last());
    }
}

/// Trimming takes the white space from both ends, and nothing else.
pub proof fn trimming_takes_the_ends(before: Seq<char>, body: Seq<char>, behind: Seq<char>)
    requires
        all_space(before),
        all_space(behind),
        body.len() > 0,
        !is_space(body[0]),
        !is_space(body.last()),
    ensures
        trimmed(before + body + behind) == body,
        trimmed(before).len() == 0,
{
    assert(before + body + behind =~= before + (body + behind));
    assert((body + behind)[0] == body[0]);
    lemma_start(before, body + behind);
    lemma_end(body, behind);
    assert(before + Seq::<char>::empty() =~= before);
    lemma_start(before, Seq::empty());
}

/// Up to its first separator a text is a piece, and so is the rest if there is none.
pub proof fn pieces_end_at_separators(head: Seq<char>, sep: char, rest: Seq<char>)
    requires
        forall|i: int| 0 <= i < head.len() ==> head[i] != sep,
    ensures
        pieces(head + seq![sep] + rest, sep) == seq![head] + pieces(rest, sep),
        pieces(head, sep) == seq![head],
{
    let whole = head + seq![sep] + rest;
    lemma_first_at_is(whole, sep, head.len() as int);
    assert(whole.take(head.len() as int) =~= head);
    assert(whole.skip(head.len() as int + 1) =~= rest);
    lemma_first_at_is(head, sep, head.len() as int);
}

proof fn lemma_join_front(first: Seq<char>, rest: Seq<Seq<char>>, sep: Seq<char>)
    requires
        rest.len() > 0,
    ensures
        joined(seq![first] + rest, sep) == first + sep + joined(rest, sep),
    decreases rest.len(),
{
    let whole = seq![first] + rest;
    assert(whole.last() == rest.last());
    assert(whole.drop_last() =~= seq![first] + rest.drop_last());
    if rest.len() == 1 {
        assert(whole.drop_last() =~= seq![first]);
        assert(joined(seq![first], sep) == first);
        assert(joined(rest, sep) == rest[0]);
    } else {
        lemma_join_front(first, rest.drop_last(), sep);
        assert(first + sep + joined(rest.drop_last(), sep) + sep + rest.last() =~= first + sep + (joined(
            rest.drop_last(),
            sep,
        ) + sep + rest.last()));
    }
}

/// The pieces of a text, put together again, are the text; and none of them holds the
/// separator.
pub proof fn pieces_make_the_text(s: Seq<char>, sep: char)
    ensures
        joined(pieces(s, sep), seq![sep]) == s,
        pieces(s, sep).len() > 0,
        forall|i: int, j: int|
            0 <= i < pieces(s, sep).len() && 0 <= j < pieces(s, sep)[i].len() ==> #[trigger] pieces(
                s,
                sep,
            )[i][j] != sep,
    decreases s.len(),
{
    lemma_first_at(s, sep);
    let n = first_at(s, sep);
    if n < s.len() {
        let rest = s.skip(n + 1);
        pieces_make_the_text(rest, sep);
        lemma_join_front(s.take(n), pieces(rest, sep), seq![sep]);
        assert(s.take(n) + seq![sep] + rest =~= s);
        assert forall|i: int, j: int|
            0 <= i < pieces(s, sep).len() && 0 <= j < pieces(s, sep)[i].len() implies #[trigger] pieces(
            s,
            sep,
        )[i][j] != sep by {
            if i > 0 {
                assert(pieces(s, sep)[i] == pieces(rest, sep)[i - 1]);
                assert(pieces(rest, sep)[i - 1][j] != sep);
            }
        }
    }
}

/// A line ends at its line break, with or without a carriage return, and a last line
/// needs none.
pub proof fn lines_end_at_breaks(head: Seq<char>, rest: Seq<char>)
    requires
        forall|i: int| 0 <= i < head.len() ==> head[i] != '\n',
        head.len() > 0 ==> head.last() != '\r',
    ensures
        lines_of(head + seq!['\n'] + rest) == seq![head] + lines_of(rest),
        lines_of(head + seq!['\r', '\n'] + rest) == seq![head] + lines_of(rest),
        head.len() > 0 ==> lines_of(head) == seq![head],
        lines_of(Seq::empty()).len() == 0,
{
    let whole = head + seq!['\n'] + rest;
    lemma_first_at_is(whole, '\n', head.len() as int);
    assert(whole.take(head.len() as int) =~= head);
    assert(whole.skip(head.len() as int + 1) =~= rest);
    let other = head + seq!['\r', '\n'] + rest;
    assert forall|i: int| 0 <= i < head.len() + 1 implies other[i] != '\n' by {
        if i < head.len() {
            assert(other[i] == head[i]);
        }
    }
    lemma_first_at_is(other, '\n', head.len() as int + 1);
    let line = other.take(head.len() as int + 1);
    assert(line.last() == '\r');
    assert(line.drop_last() =~= head);
    assert(other.skip(head.len() as int + 2) =~= rest);
    lemma_first_at_is(head, '\n', head.len() as int);
}

/// Texts that are put together stand in order, with the separator between two of
/// them.
pub proof fn joined_texts_stand_in_order(parts: Seq<Seq<char>>, last: Seq<char>, sep: Seq<char>)
    ensures
        parts.len() > 0 ==> joined(parts.push(last), sep) == joined(parts, sep) + sep + last,
        joined(seq![last], sep) == last,
        joined(Seq::empty(), sep).len() == 0,
{
    assert(parts.push(last).drop_last() =~= parts);
}

proof fn lemma_decimal(n: nat)
    ensures
        decimal(n).len() > 0,
        all_digits(decimal(n)),
        number_of(decimal(n)) == n,
    decreases n,
{
    if n < 10 {
        let one = seq![digit_char(n as int)];
        assert(one.drop_last() =~= Seq::empty());
        assert(number_of(one.drop_last()) == 0);
        assert(one.last() == digit_char(n as int));
    } else {
        lemma_decimal(n / 10);
        let head = decimal(n / 10);
        let d = (n % 10) as int;
        let whole = head.push(digit_char(d));
        assert(whole.drop_last() =~= head);
        assert(whole.last() == digit_char(d));
        assert forall|i: int| 0 <= i < whole.len() implies is_digit(#[trigger] whole[i]) by {
            if i < head.len() {
                assert(is_digit(head[i]));
            }
        }
    }
}

/// A number that is written down is read back as it was, if it fits.
pub proof fn numbers_are_read_back(n: nat, max: int)
    ensures
        n <= max ==> unsigned_in(decimal(n), max) == Some(n as int),
        n > max ==> unsigned_in(decimal(n), max) is None,
        n <= max ==> unsigned_in(seq!['+'] + decimal(n), max) == Some(n as int),
        unsigned_in(Seq::empty(), max) is None,
{
    lemma_decimal(n);
    assert(is_digit(decimal(n)[0]));
    assert((seq!['+'] + decimal(n)).skip(1) =~= decimal(n));
}

/// A text with anything but digits in it is no number.
pub proof fn only_digits_are_numbers(s: Seq<char>, i: int, max: int)
    requires
        1 <= i < s.len(),
        !is_digit(s[i]),
    ensures
        unsigned_in(s, max) is None,
{
    let digits = unsigned_digits(s);
    if s[0] == '+' {
        assert(digits[i - 1] == s[i]);
    } else {
        assert(digits[i] == s[i]);
    }
}

proof fn lemma_word(word: Seq<char>, rest: Seq<char>)
    requires
        no_space(word),
        rest.len() > 0 ==> is_space(rest[0]),
    ensures
        word_len(word + rest) == word.len(),
    decreases word.len(),
{
    if word.len() == 0 {
        assert(word + rest =~= rest);
    } else {
        assert(!is_space(word[0]));
        assert((word + rest).skip(1) =~= word.skip(1) + rest);
        assert forall|i: int| 0 <= i < word.skip(1).len() implies !is_space(#[trigger] word.skip(1)[i]) by {
            assert(word.skip(1)[i] == word[i + 1]);
        }
        lemma_word(word.skip(1), rest);
    }
}

/// The first word of a text goes from its first character that is no white space to
/// the next white space, and what is behind it is kept.
pub proof fn words_end_at_white_space(before: Seq<char>, word: Seq<char>, rest: Seq<char>)
    requires
        all_space(before),
        no_space(word),
        word.len() > 0,
        rest.len() > 0 ==> is_space(rest[0]),
    ensures
        first_word(before + word + rest) == word,
        after_word(before + word + rest) == rest,
{
    assert(before + word + rest =~= before + (word + rest));
    assert(!is_space(word[0]));
    assert((word + rest)[0] == word[0]);
    lemma_start(before, word + rest);
    lemma_word(word, rest);
    assert((word + rest).take(word.len() as int) =~= word);
    assert((word + rest).skip(word.len() as int) =~= rest);
}

/// A text begins with whatever it was put together from first.
pub proof fn texts_begin_with_their_first_part(prefix: Seq<char>, rest: Seq<char>)
    ensures
        begins_with(prefix + rest, prefix),
        rest.len() > 0 ==> !begins_with(prefix, prefix + rest),
{
    assert((prefix + rest).subrange(0, prefix.len() as int) =~= prefix);
}

/// Lower case changes the capital letters of ASCII and nothing else.
pub proof fn only_capitals_are_lowered(s: Seq<char>, i: int)
    requires
        0 <= i < s.len(),
    ensures
        ascii_lowered(s).len() == s.len(),
        !('A' <= s[i] && s[i] <= 'Z') ==> ascii_lowered(s)[i] == s[i],
        s[i] == 'A' ==> ascii_lowered(s)[i] == 'a',
        s[i] == 'O' ==> ascii_lowered(s)[i] == 'o',
        s[i] == 'Z' ==> ascii_lowered(s)[i] == 'z',
        'A' <= s[i] && s[i] <= 'Z' ==> ascii_lowered(s)[i] as u32 == s[i] as u32 + 32,
{
}

/// Each occurrence of a pattern is replaced where it stands, and the rest stays.
pub proof fn occurrences_are_replaced(pat: Seq<char>, value: Seq<char>, rest: Seq<char>)
    requires
        pat.len() > 0,
    ensures
        replaced(pat + rest, pat, value) == value + replaced(rest, pat, value),
        replaced(Seq::empty(), pat, value).len() == 0,
{
    assert((pat + rest).subrange(0, pat.len() as int) =~= pat);
    assert((pat + rest).skip(pat.len() as int) =~= rest);
}

/// A text without the pattern stays as it is.
pub proof fn other_texts_are_not_replaced(s: Seq<char>, pat: Seq<char>, value: Seq<char>)
    requires
        forall|i: int| !#[trigger] found_at(s, pat, i),
    ensures
        replaced(s, pat, value) == s,
    decreases s.len(),
{
    if s.len() > 0 && pat.len() > 0 {
        assert(!found_at(s, pat, 0));
        let rest = s.skip(1);
        assert forall|i: int| !#[trigger] found_at(rest, pat, i) by {
            if found_at(rest, pat, i) {
                assert(s.subrange(i + 1, i + 1 + pat.len()) =~= rest.subrange(i, i + pat.len()));
                assert(found_at(s, pat, i + 1));
            }
        }
        other_texts_are_not_replaced(rest, pat, value);
        assert(seq![s[0]] + rest =~= s);
    }
}

/// Blanks, tabs, line ends and the wide blank are white space; what is written is not.
pub proof fn white_space_is_what_is_blank(c: char)
    ensures
        is_space(' ') && is_space('\t') && is_space('\n') && is_space('\r') && is_space('\u{3000}')
            && is_space('\u{a0}') && is_space('\u{85}') && is_space('\u{2003}'),
        '!' <= c && c <= '~' ==> !is_space(c),
        '\u{4e00}' <= c && c <= '\u{9fff}' ==> !is_space(c),
        c as u32 > 0x3000 ==> !is_space(c),
{
}

/// The first place of a character is where it stands first.
pub proof fn first_places_are_first(before: Seq<char>, c: char, rest: Seq<char>)
    requires
        forall|i: int| 0 <= i < before.len() ==> before[i] != c,
    ensures
        first_at(before + seq![c] + rest, c) == before.len(),
        first_at(before, c) == before.len(),
{
    lemma_first_at_is(before + seq![c] + rest, c, before.len() as int);
    lemma_first_at_is(before, c, before.len() as int);
}

} // verus!
