//! Records in JSON text: fields that stand in it under their names, or one after
//! the other in a list. No named field may be given twice.

use vstd::prelude::*;
use vstd::slice::slice_subrange;

use crate::text::same;
use crate::tree::{
    json_as_str, json_parse_bytes, json_read_bytes, json_value_end, json_value_len, Tree,
};

verus! {

/// Whether a byte is white space between the parts of a JSON text.
pub open spec fn is_space(b: u8) -> bool {
    b == 0x20 || b == 0x0A || b == 0x09 || b == 0x0D
}

/// The first position from `p` on that is not white space.
pub open spec fn after_space(text: Seq<u8>, p: int) -> int
    decreases text.len() - p,
{
    if 0 <= p < text.len() && is_space(text[p]) {
        after_space(text, p + 1)
    } else {
        p
    }
}

/// Whether `b` stands at position `p`.
pub open spec fn has_byte(text: Seq<u8>, p: int, b: u8) -> bool {
    0 <= p < text.len() && text[p] == b
}

/// The value that begins after the white space at `p`, as it is written, and
/// where it ends.
pub open spec fn value_at(text: Seq<u8>, p: int) -> Option<(Seq<u8>, int)> {
    let q = after_space(text, p);
    if 0 <= q < text.len() {
        match json_value_len(text.subrange(q, text.len() as int)) {
            Some(n) => if 0 < n <= text.len() - q {
                Some((text.subrange(q, q + n), q + n))
            } else {
                None
            },
            None => None,
        }
    } else {
        None
    }
}

/// The member that begins after the white space at `p`: its name, its value as it
/// is written, and where it ends.
pub open spec fn member_at(text: Seq<u8>, p: int) -> Option<((Seq<char>, Seq<u8>), int)> {
    match value_at(text, p) {
        Some((name, q)) => match json_read_bytes(name) {
            Some(Tree::Text(key)) => {
                let colon = after_space(text, q);
                if has_byte(text, colon, 0x3A) {
                    match value_at(text, colon + 1) {
                        Some((value, end)) => Some(((key, value), end)),
                        None => None,
                    }
                } else {
                    None
                }
            },
            _ => None,
        },
        None => None,
    }
}

/// Where the next part begins after `p`: behind a comma, unless it is the first.
pub open spec fn part_start(text: Seq<u8>, p: int, first: bool) -> Option<int> {
    let q = after_space(text, p);
    if first {
        Some(q)
    } else if has_byte(text, q, 0x2C) {
        Some(q + 1)
    } else {
        None
    }
}

/// Whether the text ends with `close` and white space from `p` on.
pub open spec fn closes(text: Seq<u8>, p: int, close: u8) -> bool {
    let q = after_space(text, p);
    has_byte(text, q, close) && after_space(text, q + 1) == text.len()
}

/// The members of an object from `p` on, to the end of the text.
pub open spec fn members_from(text: Seq<u8>, p: int, first: bool) -> Option<
    Seq<(Seq<char>, Seq<u8>)>,
>
    decreases text.len() - p,
{
    if has_byte(text, after_space(text, p), 0x7D) {
        if closes(text, p, 0x7D) {
            Some(Seq::empty())
        } else {
            None
        }
    } else {
        match part_start(text, p, first) {
            Some(q) => match member_at(text, q) {
                Some((member, end)) => if p < end <= text.len() {
                    match members_from(text, end, false) {
                        Some(rest) => Some(seq![member] + rest),
                        None => None,
                    }
                } else {
                    None
                },
                None => None,
            },
            None => None,
        }
    }
}

/// The items of a list from `p` on, to the end of the text.
pub open spec fn items_from(text: Seq<u8>, p: int, first: bool) -> Option<Seq<Seq<u8>>>
    decreases text.len() - p,
{
    if has_byte(text, after_space(text, p), 0x5D) {
        if closes(text, p, 0x5D) {
            Some(Seq::empty())
        } else {
            None
        }
    } else {
        match part_start(text, p, first) {
            Some(q) => match value_at(text, q) {
                Some((item, end)) => if p < end <= text.len() {
                    match items_from(text, end, false) {
                        Some(rest) => Some(seq![item] + rest),
                        None => None,
                    }
                } else {
                    None
                },
                None => None,
            },
            None => None,
        }
    }
}

/// A field of a record.
pub enum Field<'a> {
    /// It is left out.
    Missing,
    /// Its value, as it is written.
    Held(&'a [u8]),
    /// It is given twice, or the text holds no such record.
    Unreadable,
}

/// What a [`Field`] says.
#[verifier::ext_equal]
pub enum FieldView {
    Missing,
    Held(Seq<u8>),
    Unreadable,
}

impl View for Field<'_> {
    type V = FieldView;

    open spec fn view(&self) -> FieldView {
        match self {
            Field::Missing => FieldView::Missing,
            Field::Held(value) => FieldView::Held(value@),
            Field::Unreadable => FieldView::Unreadable,
        }
    }
}

/// The value of the one member of this name.
pub open spec fn only(members: Seq<(Seq<char>, Seq<u8>)>, key: Seq<char>) -> FieldView
    decreases members.len(),
{
    if members.len() == 0 {
        FieldView::Missing
    } else {
        let found = only(members.drop_last(), key);
        if members.last().0 != key {
            found
        } else if found is Missing {
            FieldView::Held(members.last().1)
        } else {
            FieldView::Unreadable
        }
    }
}

/// The field `key` of the record in `text`. A record may also be a list of all of
/// its `count` fields, of which this one stands at `at`.
pub open spec fn field(text: Seq<u8>, key: Seq<char>, at: int, count: int) -> FieldView {
    let start = after_space(text, 0);
    if has_byte(text, start, 0x7B) {
        match members_from(text, start + 1, true) {
            Some(members) => only(members, key),
            None => FieldView::Unreadable,
        }
    } else if has_byte(text, start, 0x5B) {
        match items_from(text, start + 1, true) {
            Some(items) => if items.len() == count {
                FieldView::Held(items[at])
            } else {
                FieldView::Unreadable
            },
            None => FieldView::Unreadable,
        }
    } else {
        FieldView::Unreadable
    }
}

fn skip_space(text: &[u8], p: usize) -> (res: usize)
    requires
        p <= text@.len(),
    ensures
        res == after_space(text@, p as int),
        p <= res <= text@.len(),
{
    let mut q: usize = p;
    while q < text.len() && (text[q] == 0x20 || text[q] == 0x0A || text[q] == 0x09 || text[q] == 0x0D)
        invariant
            p <= q <= text@.len(),
            after_space(text@, q as int) == after_space(text@, p as int),
        decreases text@.len() - q,
    {
        q = q + 1;
    }
    q
}

fn byte_at(text: &[u8], p: usize, b: u8) -> (res: bool)
    ensures
        res == has_byte(text@, p as int, b),
        res ==> p < usize::MAX,
{
    p < text.len() && text[p] == b
}

fn read_value<'a>(text: &'a [u8], p: usize) -> (res: Option<(&'a [u8], usize)>)
    requires
        p <= text@.len(),
    ensures
        match res {
            Some((value, end)) => value_at(text@, p as int) == Some((value@, end as int)) && p < end
                <= text@.len(),
            None => value_at(text@, p as int) is None,
        },
{
    let q: usize = skip_space(text, p);
    if q == text.len() {
        return None;
    }
    match json_value_end(slice_subrange(text, q, text.len())) {
        Some(n) => Some((slice_subrange(text, q, q + n), q + n)),
        None => None,
    }
}

fn read_member<'a>(text: &'a [u8], p: usize) -> (res: Option<((String, &'a [u8]), usize)>)
    requires
        p <= text@.len(),
    ensures
        match res {
            Some((member, end)) => member_at(text@, p as int) == Some(
                ((member.0@, member.1@), end as int),
            ) && p < end <= text@.len(),
            None => member_at(text@, p as int) is None,
        },
{
    let (name, q) = match read_value(text, p) {
        Some(found) => found,
        None => {
            return None;
        },
    };
    let document = match json_parse_bytes(name) {
        Some(document) => document,
        None => {
            return None;
        },
    };
    let key: String = match json_as_str(&document) {
        Some(key) => key.to_owned(),
        None => {
            return None;
        },
    };
    let colon: usize = skip_space(text, q);
    if !byte_at(text, colon, 0x3A) {
        return None;
    }
    match read_value(text, colon + 1) {
        Some((value, end)) => Some(((key, value), end)),
        None => None,
    }
}

fn read_part_start(text: &[u8], p: usize, first: bool) -> (res: Option<usize>)
    requires
        p <= text@.len(),
    ensures
        match res {
            Some(q) => part_start(text@, p as int, first) == Some(q as int) && p <= q <= text@.len(),
            None => part_start(text@, p as int, first) is None,
        },
{
    let q: usize = skip_space(text, p);
    if first {
        Some(q)
    } else if byte_at(text, q, 0x2C) {
        Some(q + 1)
    } else {
        None
    }
}

fn read_close(text: &[u8], p: usize, close: u8) -> (res: bool)
    requires
        p <= text@.len(),
    ensures
        res == closes(text@, p as int, close),
{
    let q: usize = skip_space(text, p);
    byte_at(text, q, close) && skip_space(text, q + 1) == text.len()
}

/// What `members` hold.
spec fn member_views(members: Seq<(String, &[u8])>) -> Seq<(Seq<char>, Seq<u8>)> {
    Seq::new(members.len(), |i: int| (members[i].0@, members[i].1@))
}

fn read_members<'a>(text: &'a [u8], start: usize) -> (res: Option<Vec<(String, &'a [u8])>>)
    requires
        start <= text@.len(),
    ensures
        match res {
            Some(members) => members_from(text@, start as int, true) == Some(member_views(members@)),
            None => members_from(text@, start as int, true) is None,
        },
{
    let mut members: Vec<(String, &'a [u8])> = Vec::new();
    let mut p: usize = start;
    let mut first: bool = true;
    let ghost whole = members_from(text@, start as int, true);
    assert(whole is Some ==> whole->0 =~= member_views(members@) + whole->0);
    loop
        invariant
            start <= p <= text@.len(),
            whole == members_from(text@, start as int, true),
            match members_from(text@, p as int, first) {
                Some(rest) => whole == Some(member_views(members@) + rest),
                None => whole is None,
            },
        decreases text@.len() - p,
    {
        let q: usize = skip_space(text, p);
        if byte_at(text, q, 0x7D) {
            if read_close(text, p, 0x7D) {
                assert(member_views(members@) + Seq::empty() =~= member_views(members@));
                return Some(members);
            }
            return None;
        }
        let next: usize = match read_part_start(text, p, first) {
            Some(next) => next,
            None => {
                return None;
            },
        };
        match read_member(text, next) {
            Some((member, end)) => {
                let ghost before = member_views(members@);
                let ghost one = (member.0@, member.1@);
                members.push(member);
                proof {
                    assert(member_views(members@) =~= before.push(one));
                    if let Some(rest) = members_from(text@, end as int, false) {
                        assert(before + (seq![one] + rest) =~= member_views(members@) + rest);
                    }
                }
                p = end;
                first = false;
            },
            None => {
                return None;
            },
        }
    }
}

/// What `items` hold.
spec fn item_views(items: Seq<&[u8]>) -> Seq<Seq<u8>> {
    Seq::new(items.len(), |i: int| items[i]@)
}

fn read_items<'a>(text: &'a [u8], start: usize) -> (res: Option<Vec<&'a [u8]>>)
    requires
        start <= text@.len(),
    ensures
        match res {
            Some(items) => items_from(text@, start as int, true) == Some(item_views(items@)),
            None => items_from(text@, start as int, true) is None,
        },
{
    let mut items: Vec<&'a [u8]> = Vec::new();
    let mut p: usize = start;
    let mut first: bool = true;
    let ghost whole = items_from(text@, start as int, true);
    assert(whole is Some ==> whole->0 =~= item_views(items@) + whole->0);
    loop
        invariant
            start <= p <= text@.len(),
            whole == items_from(text@, start as int, true),
            match items_from(text@, p as int, first) {
                Some(rest) => whole == Some(item_views(items@) + rest),
                None => whole is None,
            },
        decreases text@.len() - p,
    {
        let q: usize = skip_space(text, p);
        if byte_at(text, q, 0x5D) {
            if read_close(text, p, 0x5D) {
                assert(item_views(items@) + Seq::empty() =~= item_views(items@));
                return Some(items);
            }
            return None;
        }
        let next: usize = match read_part_start(text, p, first) {
            Some(next) => next,
            None => {
                return None;
            },
        };
        match read_value(text, next) {
            Some((item, end)) => {
                let ghost before = item_views(items@);
                items.push(item);
                proof {
                    assert(item_views(items@) =~= before.push(item@));
                    if let Some(rest) = items_from(text@, end as int, false) {
                        assert(before + (seq![item@] + rest) =~= item_views(items@) + rest);
                    }
                }
                p = end;
                first = false;
            },
            None => {
                return None;
            },
        }
    }
}

fn find_only<'a>(members: &Vec<(String, &'a [u8])>, key: &str) -> (res: Field<'a>)
    ensures
        res@ == only(member_views(members@), key@),
{
    let mut found: Field<'a> = Field::Missing;
    let mut i: usize = 0;
    let ghost all = member_views(members@);
    assert(all.take(0) =~= Seq::empty());
    while i < members.len()
        invariant
            i <= members@.len(),
            all == member_views(members@),
            found@ == only(all.take(i as int), key@),
        decreases members@.len() - i,
    {
        proof {
            assert(all.take(i + 1).drop_last() =~= all.take(i as int));
            assert(all.take(i + 1).last() == all[i as int]);
        }
        if same(members[i].0.as_str(), key) {
            found = match found {
                Field::Missing => Field::Held(members[i].1),
                _ => Field::Unreadable,
            };
        }
        i = i + 1;
    }
    assert(all.take(all.len() as int) =~= all);
    found
}

/// The field `key` of the record in `text`, which stands at `at` where the record
/// is a list of its `count` fields.
pub fn read_field<'a>(text: &'a [u8], key: &str, at: usize, count: usize) -> (res: Field<'a>)
    requires
        at < count,
    ensures
        res@ == field(text@, key@, at as int, count as int),
{
    let start: usize = skip_space(text, 0);
    if byte_at(text, start, 0x7B) {
        match read_members(text, start + 1) {
            Some(members) => find_only(&members, key),
            None => Field::Unreadable,
        }
    } else if byte_at(text, start, 0x5B) {
        match read_items(text, start + 1) {
            Some(items) => {
                if items.len() == count {
                    assert(item_views(items@)[at as int] == items@[at as int]@);
                    Field::Held(items[at])
                } else {
                    Field::Unreadable
                }
            },
            None => Field::Unreadable,
        }
    } else {
        Field::Unreadable
    }
}

/// A name that two members have is no field of the record.
pub proof fn repeated_fields_are_unreadable(
    members: Seq<(Seq<char>, Seq<u8>)>,
    key: Seq<char>,
    i: int,
    j: int,
)
    requires
        0 <= i < j < members.len(),
        members[i].0 == key,
        members[j].0 == key,
    ensures
        only(members, key) is Unreadable,
    decreases members.len(),
{
    let rest = members.drop_last();
    if j < rest.len() {
        repeated_fields_are_unreadable(rest, key, i, j);
    } else {
        lemma_held(rest, key, i);
    }
}

proof fn lemma_held(members: Seq<(Seq<char>, Seq<u8>)>, key: Seq<char>, i: int)
    requires
        0 <= i < members.len(),
        members[i].0 == key,
    ensures
        !(only(members, key) is Missing),
    decreases members.len(),
{
    if i < members.len() - 1 {
        lemma_held(members.drop_last(), key, i);
    }
}

/// A field is the value of the one member of its name, wherever that stands among the
/// others; a name that no member has is missing.
pub proof fn fields_are_found_by_name(members: Seq<(Seq<char>, Seq<u8>)>, key: Seq<char>, i: int)
    requires
        forall|k: int| 0 <= k < members.len() && k != i ==> (#[trigger] members[k]).0 != key,
    ensures
        0 <= i < members.len() && members[i].0 == key ==> only(members, key) == FieldView::Held(
            members[i].1,
        ),
        !(0 <= i < members.len()) || members[i].0 != key ==> only(members, key) == FieldView::Missing,
    decreases members.len(),
{
    if members.len() > 0 {
        let rest = members.drop_last();
        assert forall|k: int| 0 <= k < rest.len() && k != i implies (#[trigger] rest[k]).0 != key by {
            assert(rest[k] == members[k]);
        }
        fields_are_found_by_name(rest, key, i);
        if i < rest.len() && 0 <= i {
            assert(rest[i] == members[i]);
        }
        if i != members.len() - 1 {
            assert(members[members.len() - 1].0 != key);
        }
    }
}

} // verus!
