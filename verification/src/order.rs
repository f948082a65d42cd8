//! Putting items in order, equal ones staying as they were.

use vstd::prelude::*;

use crate::text::{chars_of, texts};

verus! {

/// What an item is ordered by: a number, then a text.
#[derive(Clone, Debug)]
pub struct SortKey {
    pub rank: u128,
    pub text: String,
}

/// What a [`SortKey`] says.
#[verifier::ext_equal]
pub struct KeyView {
    pub rank: u128,
    pub text: Seq<char>,
}

impl View for SortKey {
    type V = KeyView;

    open spec fn view(&self) -> KeyView {
        KeyView { rank: self.rank, text: self.text@ }
    }
}

/// The views of a list of keys.
pub open spec fn key_views(v: Seq<SortKey>) -> Seq<KeyView> {
    Seq::new(v.len(), |i: int| v[i]@)
}

/// A text comes before another one, or is the same: the first character that
/// differs decides, and what is shorter comes first.
pub open spec fn text_le(a: Seq<char>, b: Seq<char>) -> bool
    decreases a.len(),
{
    if a.len() == 0 {
        true
    } else if b.len() == 0 {
        false
    } else if a[0] != b[0] {
        a[0] < b[0]
    } else {
        text_le(a.skip(1), b.skip(1))
    }
}

/// A key comes before another one, or is the same.
pub open spec fn key_le(a: KeyView, b: KeyView) -> bool {
    a.rank < b.rank || (a.rank == b.rank && text_le(a.text, b.text))
}

fn is_text_le(a: &str, b: &str) -> (res: bool)
    ensures
        res == text_le(a@, b@),
{
    let x = chars_of(a);
    let y = chars_of(b);
    let mut i: usize = 0;
    proof {
        assert(a@.skip(0) =~= a@);
        assert(b@.skip(0) =~= b@);
    }
    while i < x.len() && i < y.len()
        invariant
            x@ == a@,
            y@ == b@,
            i <= x@.len(),
            i <= y@.len(),
            text_le(a@.skip(i as int), b@.skip(i as int)) == text_le(a@, b@),
        decreases x@.len() - i,
    {
        proof {
            assert(a@.skip(i as int)[0] == a@[i as int]);
            assert(b@.skip(i as int)[0] == b@[i as int]);
            assert(a@.skip(i as int).skip(1) =~= a@.skip(i + 1));
            assert(b@.skip(i as int).skip(1) =~= b@.skip(i + 1));
        }
        if x[i] != y[i] {
            return x[i] < y[i];
        }
        i = i + 1;
    }
    i == x.len()
}

fn is_key_le(a: &SortKey, b: &SortKey) -> (res: bool)
    ensures
        res == key_le(a@, b@),
{
    a.rank < b.rank || (a.rank == b.rank && is_text_le(a.text.as_str(), b.text.as_str()))
}

/// The order of items with one more item put in, behind those that are not
/// after it.
pub open spec fn with_item(order: Seq<int>, keys: Seq<KeyView>, item: int) -> Seq<int>
    decreases order.len(),
{
    if order.len() == 0 || key_le(keys[order.last()], keys[item]) {
        order.push(item)
    } else {
        with_item(order.drop_last(), keys, item).push(order.last())
    }
}

/// The order of the first `n` items, as their positions.
pub open spec fn order_upto(keys: Seq<KeyView>, n: nat) -> Seq<int>
    decreases n,
{
    if n == 0 {
        Seq::empty()
    } else {
        with_item(order_upto(keys, (n - 1) as nat), keys, n - 1)
    }
}

/// The order of items, as their positions.
pub open spec fn order_of(keys: Seq<KeyView>) -> Seq<int> {
    order_upto(keys, keys.len())
}

/// Positions as whole numbers.
pub open spec fn positions(v: Seq<usize>) -> Seq<int> {
    Seq::new(v.len(), |i: int| v[i] as int)
}

proof fn lemma_with_item(order: Seq<int>, keys: Seq<KeyView>, item: int)
    requires
        forall|i: int| 0 <= i < order.len() ==> 0 <= #[trigger] order[i] < item,
        0 <= item < keys.len(),
    ensures
        with_item(order, keys, item).len() == order.len() + 1,
        forall|i: int|
            0 <= i < with_item(order, keys, item).len() ==> 0 <= #[trigger] with_item(
                order,
                keys,
                item,
            )[i] <= item,
        with_item(order, keys, item).contains(item),
        forall|x: int| #[trigger]
            order.contains(x) ==> with_item(order, keys, item).contains(x),
    decreases order.len(),
{
    let all = with_item(order, keys, item);
    if order.len() == 0 || key_le(keys[order.last()], keys[item]) {
        assert(all[order.len() as int] == item);
        assert forall|x: int| #[trigger] order.contains(x) implies all.contains(x) by {
            let i = choose|i: int| 0 <= i < order.len() && order[i] == x;
            assert(all[i] == x);
        }
    } else {
        let rest = order.drop_last();
        lemma_with_item(rest, keys, item);
        let inner = with_item(rest, keys, item);
        assert(all =~= inner.push(order.last()));
        let at = choose|i: int| 0 <= i < inner.len() && inner[i] == item;
        assert(all[at] == item);
        assert forall|x: int| #[trigger] order.contains(x) implies all.contains(x) by {
            let i = choose|i: int| 0 <= i < order.len() && order[i] == x;
            if i == order.len() - 1 {
                assert(all[inner.len() as int] == x);
            } else {
                assert(rest[i] == x);
                assert(rest.contains(x));
                let j = choose|j: int| 0 <= j < inner.len() && inner[j] == x;
                assert(all[j] == x);
            }
        }
        assert forall|i: int| 0 <= i < all.len() implies 0 <= #[trigger] all[i] <= item by {
            if i < inner.len() {
                assert(all[i] == inner[i]);
            }
        }
    }
}

proof fn lemma_order_upto(keys: Seq<KeyView>, n: nat)
    requires
        n <= keys.len(),
    ensures
        order_upto(keys, n).len() == n,
        forall|i: int| 0 <= i < n ==> 0 <= #[trigger] order_upto(keys, n)[i] < n,
        forall|x: int| 0 <= x < n ==> #[trigger] order_upto(keys, n).contains(x),
    decreases n,
{
    if n > 0 {
        let before = order_upto(keys, (n - 1) as nat);
        lemma_order_upto(keys, (n - 1) as nat);
        lemma_with_item(before, keys, n - 1);
        assert forall|x: int| 0 <= x < n implies #[trigger] order_upto(keys, n).contains(x) by {
            if x < n - 1 {
                assert(before.contains(x));
            }
        }
    }
}

/// An order has every item exactly once: as many positions as items, and every
/// position.
pub proof fn orders_hold_every_item(keys: Seq<KeyView>, item: int)
    requires
        0 <= item < keys.len(),
    ensures
        order_of(keys).len() == keys.len(),
        order_of(keys).contains(item),
        forall|i: int| 0 <= i < keys.len() ==> 0 <= #[trigger] order_of(keys)[i] < keys.len(),
{
    lemma_order_upto(keys, keys.len());
}

proof fn lemma_text_total(a: Seq<char>, b: Seq<char>)
    ensures
        text_le(a, b) || text_le(b, a),
    decreases a.len(),
{
    if a.len() > 0 && b.len() > 0 && a[0] == b[0] {
        lemma_text_total(a.skip(1), b.skip(1));
    }
}

proof fn lemma_text_transitive(a: Seq<char>, b: Seq<char>, c: Seq<char>)
    requires
        text_le(a, b),
        text_le(b, c),
    ensures
        text_le(a, c),
    decreases a.len(),
{
    if a.len() > 0 && b.len() > 0 && c.len() > 0 && a[0] == b[0] && b[0] == c[0] {
        lemma_text_transitive(a.skip(1), b.skip(1), c.skip(1));
    }
}

proof fn lemma_key_total(a: KeyView, b: KeyView)
    ensures
        key_le(a, b) || key_le(b, a),
{
    lemma_text_total(a.text, b.text);
}

proof fn lemma_key_transitive(a: KeyView, b: KeyView, c: KeyView)
    requires
        key_le(a, b),
        key_le(b, c),
    ensures
        key_le(a, c),
{
    if a.rank == b.rank && b.rank == c.rank {
        lemma_text_transitive(a.text, b.text, c.text);
    }
}

/// The keys of an order go up.
pub open spec fn goes_up(order: Seq<int>, keys: Seq<KeyView>) -> bool {
    forall|i: int, j: int|
        0 <= i < j < order.len() ==> key_le(keys[#[trigger] order[i]], keys[#[trigger] order[j]])
}

proof fn lemma_with_item_goes_up(order: Seq<int>, keys: Seq<KeyView>, item: int)
    requires
        goes_up(order, keys),
    ensures
        goes_up(with_item(order, keys, item), keys),
        forall|i: int|
            0 <= i < with_item(order, keys, item).len() ==> (#[trigger] with_item(
                order,
                keys,
                item,
            )[i] == item || order.contains(with_item(order, keys, item)[i])),
    decreases order.len(),
{
    let all = with_item(order, keys, item);
    if order.len() == 0 || key_le(keys[order.last()], keys[item]) {
        assert forall|i: int, j: int| 0 <= i < j < all.len() implies key_le(
            keys[#[trigger] all[i]],
            keys[#[trigger] all[j]],
        ) by {
            if j == order.len() {
                if i < order.len() - 1 {
                    assert(key_le(keys[order[i]], keys[order[order.len() - 1]]));
                    lemma_key_transitive(keys[order[i]], keys[order.last()], keys[item]);
                }
            } else {
                assert(key_le(keys[order[i]], keys[order[j]]));
            }
        }
        assert forall|i: int| 0 <= i < all.len() implies (#[trigger] all[i] == item
            || order.contains(all[i])) by {
            if i < order.len() {
                assert(order[i] == all[i]);
            }
        }
    } else {
        let rest = order.drop_last();
        assert(goes_up(rest, keys)) by {
            assert forall|i: int, j: int| 0 <= i < j < rest.len() implies key_le(
                keys[#[trigger] rest[i]],
                keys[#[trigger] rest[j]],
            ) by {
                assert(rest[i] == order[i] && rest[j] == order[j]);
            }
        }
        lemma_with_item_goes_up(rest, keys, item);
        let inner = with_item(rest, keys, item);
        assert(all =~= inner.push(order.last()));
        assert forall|i: int| 0 <= i < inner.len() implies key_le(
            keys[#[trigger] inner[i]],
            keys[order.last()],
        ) by {
            if inner[i] == item {
                lemma_key_total(keys[order.last()], keys[item]);
            } else {
                assert(rest.contains(inner[i]));
                let k = choose|k: int| 0 <= k < rest.len() && rest[k] == inner[i];
                assert(order[k] == rest[k]);
                assert(key_le(keys[order[k]], keys[order[order.len() - 1]]));
            }
        }
        assert forall|i: int, j: int| 0 <= i < j < all.len() implies key_le(
            keys[#[trigger] all[i]],
            keys[#[trigger] all[j]],
        ) by {
            if j < inner.len() {
                assert(all[i] == inner[i] && all[j] == inner[j]);
            } else {
                assert(all[i] == inner[i]);
            }
        }
        assert forall|i: int| 0 <= i < all.len() implies (#[trigger] all[i] == item
            || order.contains(all[i])) by {
            if i < inner.len() {
                assert(all[i] == inner[i]);
                if inner[i] != item {
                    assert(rest.contains(inner[i]));
                    let k = choose|k: int| 0 <= k < rest.len() && rest[k] == inner[i];
                    assert(order[k] == all[i]);
                }
            } else {
                assert(order[order.len() - 1] == all[i]);
            }
        }
    }
}

proof fn lemma_order_goes_up(keys: Seq<KeyView>, n: nat)
    ensures
        goes_up(order_upto(keys, n), keys),
    decreases n,
{
    if n > 0 {
        lemma_order_goes_up(keys, (n - 1) as nat);
        lemma_with_item_goes_up(order_upto(keys, (n - 1) as nat), keys, n - 1);
    }
}

/// In the order of items, keys go up.
pub proof fn orders_go_up(keys: Seq<KeyView>)
    ensures
        goes_up(order_of(keys), keys),
{
    lemma_order_goes_up(keys, keys.len());
}

/// Equal items stand in an order as they stood before.
pub open spec fn keeps_equals(order: Seq<int>, keys: Seq<KeyView>) -> bool {
    forall|i: int, j: int|
        0 <= i < j < order.len() && key_le(keys[order[j]], keys[order[i]]) ==> #[trigger] order[i]
            < #[trigger] order[j]
}

proof fn lemma_with_item_keeps_equals(order: Seq<int>, keys: Seq<KeyView>, item: int)
    requires
        goes_up(order, keys),
        keeps_equals(order, keys),
        forall|i: int| 0 <= i < order.len() ==> #[trigger] order[i] < item,
    ensures
        keeps_equals(with_item(order, keys, item), keys),
    decreases order.len(),
{
    let all = with_item(order, keys, item);
    if order.len() == 0 || key_le(keys[order.last()], keys[item]) {
        assert forall|i: int, j: int|
            0 <= i < j < all.len() && key_le(keys[all[j]], keys[all[i]]) implies #[trigger] all[i]
            < #[trigger] all[j] by {
            if j < order.len() {
                assert(all[i] == order[i] && all[j] == order[j]);
            } else {
                assert(all[i] == order[i]);
            }
        }
    } else {
        let rest = order.drop_last();
        assert(goes_up(rest, keys) && keeps_equals(rest, keys)) by {
            assert forall|i: int, j: int| 0 <= i < j < rest.len() implies key_le(
                keys[#[trigger] rest[i]],
                keys[#[trigger] rest[j]],
            ) by {
                assert(rest[i] == order[i] && rest[j] == order[j]);
            }
            assert forall|i: int, j: int|
                0 <= i < j < rest.len() && key_le(keys[rest[j]], keys[rest[i]]) implies
            #[trigger] rest[i] < #[trigger] rest[j] by {
                assert(rest[i] == order[i] && rest[j] == order[j]);
            }
        }
        assert forall|i: int| 0 <= i < rest.len() implies #[trigger] rest[i] < item by {
            assert(rest[i] == order[i]);
        }
        lemma_with_item_keeps_equals(rest, keys, item);
        lemma_with_item_goes_up(rest, keys, item);
        let inner = with_item(rest, keys, item);
        assert(all =~= inner.push(order.last()));
        assert forall|i: int, j: int|
            0 <= i < j < all.len() && key_le(keys[all[j]], keys[all[i]]) implies #[trigger] all[i]
            < #[trigger] all[j] by {
            assert(all[i] == inner[i]);
            if j < inner.len() {
                assert(all[j] == inner[j]);
            } else if inner[i] != item {
                assert(rest.contains(inner[i]));
                let k = choose|k: int| 0 <= k < rest.len() && rest[k] == inner[i];
                assert(order[k] == rest[k]);
                assert(order[k] < order[order.len() - 1]);
            }
        }
    }
}

proof fn lemma_order_keeps_equals(keys: Seq<KeyView>, n: nat)
    requires
        n <= keys.len(),
    ensures
        keeps_equals(order_upto(keys, n), keys),
    decreases n,
{
    if n > 0 {
        lemma_order_keeps_equals(keys, (n - 1) as nat);
        lemma_order_goes_up(keys, (n - 1) as nat);
        lemma_order_upto(keys, (n - 1) as nat);
        lemma_with_item_keeps_equals(order_upto(keys, (n - 1) as nat), keys, n - 1);
    }
}

/// Ordering leaves equal items as they stood.
pub proof fn orders_keep_equals(keys: Seq<KeyView>)
    ensures
        keeps_equals(order_of(keys), keys),
{
    lemma_order_keeps_equals(keys, keys.len());
}

/// The order of items, as their positions.
pub fn order(keys: &Vec<SortKey>) -> (res: Vec<usize>)
    ensures
        positions(res@) == order_of(key_views(keys@)),
        res@.len() == keys@.len(),
        forall|i: int| 0 <= i < res@.len() ==> #[trigger] res@[i] < keys@.len(),
{
    let ghost views = key_views(keys@);
    let mut out: Vec<usize> = Vec::new();
    let mut i: usize = 0;
    assert(positions(out@) =~= Seq::empty());
    while i < keys.len()
        invariant
            i <= keys@.len(),
            views == key_views(keys@),
            out@.len() == i,
            positions(out@) == order_upto(views, i as nat),
            forall|j: int| 0 <= j < out@.len() ==> #[trigger] out@[j] < i,
        decreases keys@.len() - i,
    {
        put_in(&mut out, keys, i);
        proof {
            let before = order_upto(views, i as nat);
            lemma_order_upto(views, i as nat);
            lemma_with_item(before, views, i as int);
            lemma_order_upto(views, (i + 1) as nat);
            assert forall|j: int| 0 <= j < out@.len() implies #[trigger] out@[j] < i + 1 by {
                assert(positions(out@)[j] == out@[j]);
                assert(0 <= order_upto(views, (i + 1) as nat)[j] < i + 1);
            }
            assert(positions(out@).len() == out@.len());
        }
        i = i + 1;
    }
    out
}

fn put_in(order: &mut Vec<usize>, keys: &Vec<SortKey>, item: usize)
    requires
        item < keys@.len(),
        forall|j: int| 0 <= j < old(order)@.len() ==> #[trigger] old(order)@[j] < keys@.len(),
    ensures
        positions(final(order)@) == with_item(positions(old(order)@), key_views(keys@), item as int),
    decreases old(order)@.len(),
{
    let ghost views = key_views(keys@);
    let ghost before = positions(order@);
    let n: usize = order.len();
    if n == 0 {
        order.push(item);
        assert(positions(order@) =~= before.push(item as int));
        return;
    }
    let last: usize = order[n - 1];
    assert(before.last() == last);
    if is_key_le(&keys[last], &keys[item]) {
        order.push(item);
        assert(positions(order@) =~= before.push(item as int));
        return;
    }
    let _ = order.pop();
    assert(positions(order@) =~= before.drop_last());
    put_in(order, keys, item);
    let ghost inner = positions(order@);
    order.push(last);
    assert(positions(order@) =~= inner.push(last as int));
}

/// Texts in order.
pub open spec fn ordered_texts(v: Seq<Seq<char>>) -> Seq<Seq<char>> {
    let keys = Seq::new(v.len(), |i: int| KeyView { rank: 0, text: v[i] });
    Seq::new(v.len(), |i: int| v[order_of(keys)[i]])
}

/// Without texts that follow themselves.
pub open spec fn without_repeats(v: Seq<Seq<char>>) -> Seq<Seq<char>>
    decreases v.len(),
{
    if v.len() == 0 {
        Seq::empty()
    } else {
        let rest = without_repeats(v.drop_last());
        if v.len() > 1 && v[v.len() - 2] == v.last() {
            rest
        } else {
            rest.push(v.last())
        }
    }
}

/// Texts in order, each once.
pub fn sorted_once(v: &Vec<String>) -> (res: Vec<String>)
    ensures
        texts(res@) == without_repeats(ordered_texts(texts(v@))),
{
    let ghost all = texts(v@);
    let mut keys: Vec<SortKey> = Vec::new();
    let mut i: usize = 0;
    while i < v.len()
        invariant
            i <= v@.len(),
            keys@.len() == i,
            forall|j: int|
                0 <= j < i ==> (#[trigger] keys@[j])@ == (KeyView { rank: 0, text: v@[j]@ }),
        decreases v@.len() - i,
    {
        keys.push(SortKey { rank: 0, text: v[i].clone() });
        i = i + 1;
    }
    let ghost views = Seq::new(all.len(), |i: int| KeyView { rank: 0, text: all[i] });
    assert(key_views(keys@) =~= views);
    let at = order(&keys);
    let ghost sorted = ordered_texts(all);
    let mut out: Vec<String> = Vec::new();
    let mut k: usize = 0;
    proof {
        assert(sorted.take(0) =~= Seq::empty());
        assert(texts(out@) =~= Seq::empty());
    }
    while k < at.len()
        invariant
            k <= at@.len(),
            at@.len() == v@.len(),
            all == texts(v@),
            sorted == ordered_texts(all),
            positions(at@) == order_of(views),
            views == Seq::new(all.len(), |i: int| KeyView { rank: 0, text: all[i] }),
            forall|j: int| 0 <= j < at@.len() ==> #[trigger] at@[j] < v@.len(),
            texts(out@) == without_repeats(sorted.take(k as int)),
        decreases at@.len() - k,
    {
        let ghost next = sorted.take(k + 1);
        proof {
            assert(positions(at@)[k as int] == at@[k as int]);
            assert(next.drop_last() =~= sorted.take(k as int));
            assert(next.last() == v@[at@[k as int] as int]@);
        }
        let mut repeated: bool = false;
        if k > 0 {
            proof {
                assert(positions(at@)[k - 1] == at@[k - 1]);
                assert(next[next.len() - 2] == v@[at@[k - 1] as int]@);
            }
            repeated = crate::text::same(v[at[k - 1]].as_str(), v[at[k]].as_str());
        }
        if !repeated {
            let ghost before = texts(out@);
            out.push(v[at[k]].clone());
            assert(texts(out@) =~= before.push(v@[at@[k as int] as int]@));
        }
        k = k + 1;
    }
    assert(sorted.take(sorted.len() as int) =~= sorted);
    out
}

/// Texts are ordered by their characters: of any two one comes first, and both only if
/// they are the same; and what begins alike comes behind what it begins with.
pub proof fn texts_have_one_order(a: Seq<char>, b: Seq<char>, c: Seq<char>)
    ensures
        text_le(a, b) || text_le(b, a),
        text_le(a, b) && text_le(b, a) ==> a == b,
        text_le(a, b) && text_le(b, c) ==> text_le(a, c),
        text_le(a, a + b),
{
    lemma_text_total(a, b);
    lemma_text_same(a, b);
    if text_le(a, b) && text_le(b, c) {
        lemma_text_transitive(a, b, c);
    }
    lemma_text_prefix(a, b);
}

proof fn lemma_text_same(a: Seq<char>, b: Seq<char>)
    ensures
        text_le(a, b) && text_le(b, a) ==> a == b,
    decreases a.len(),
{
    if a.len() > 0 && b.len() > 0 {
        lemma_text_same(a.skip(1), b.skip(1));
        if text_le(a, b) && text_le(b, a) {
            assert(a =~= seq![a[0]] + a.skip(1));
            assert(b =~= seq![b[0]] + b.skip(1));
        }
    } else if text_le(a, b) && text_le(b, a) {
        assert(a =~= b);
    }
}

proof fn lemma_text_prefix(a: Seq<char>, b: Seq<char>)
    ensures
        text_le(a, a + b),
    decreases a.len(),
{
    if a.len() > 0 {
        assert((a + b).skip(1) =~= a.skip(1) + b);
        lemma_text_prefix(a.skip(1), b);
    }
}

/// Texts in order hold every text, and each comes before those behind it.
pub proof fn ordered_texts_go_up(v: Seq<Seq<char>>, i: int, j: int)
    requires
        0 <= i < j < v.len(),
    ensures
        ordered_texts(v).len() == v.len(),
        text_le(ordered_texts(v)[i], ordered_texts(v)[j]),
        ordered_texts(v).contains(v[i]),
        ordered_texts(v).contains(v[j]),
{
    let keys = Seq::new(v.len(), |i: int| KeyView { rank: 0, text: v[i] });
    orders_go_up(keys);
    orders_hold_every_item(keys, i);
    orders_hold_every_item(keys, j);
    let order = order_of(keys);
    assert(key_le(keys[order[i]], keys[order[j]]));
    let at = choose|k: int| 0 <= k < order.len() && order[k] == i;
    assert(ordered_texts(v)[at] == v[i]);
    let to = choose|k: int| 0 <= k < order.len() && order[k] == j;
    assert(ordered_texts(v)[to] == v[j]);
}

/// Without repeats every text is still there, and no text follows itself.
pub proof fn repeats_are_dropped(v: Seq<Seq<char>>, i: int)
    ensures
        0 <= i < v.len() ==> without_repeats(v).contains(v[i]),
        0 < i < without_repeats(v).len() ==> without_repeats(v)[i - 1] != without_repeats(v)[i],
        v.len() > 0 ==> without_repeats(v).len() > 0 && without_repeats(v).last() == v.last(),
    decreases v.len(),
{
    if v.len() > 0 {
        let head = v.drop_last();
        let rest = without_repeats(head);
        repeats_are_dropped(head, i);
        repeats_are_dropped(head, head.len() - 1);
        let whole = without_repeats(v);
        if v.len() > 1 && v[v.len() - 2] == v.last() {
            assert(head.last() == v.last());
            if i == v.len() - 1 {
                assert(rest[rest.len() - 1] == v[i]);
            } else if 0 <= i < v.len() - 1 {
                assert(head[i] == v[i]);
            }
        } else {
            assert(whole[rest.len() as int] == v.last());
            if 0 <= i < head.len() {
                assert(head[i] == v[i]);
                let k = choose|k: int| 0 <= k < rest.len() && rest[k] == v[i];
                assert(whole[k] == v[i]);
            }
            if v.len() > 1 {
                assert(head.last() == v[v.len() - 2]);
            }
        }
    }
}

} // verus!
