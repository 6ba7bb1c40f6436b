use vstd::prelude::*;

use crate::common::text::views;

verus! {

/// Lexicographic order on text by code point, which is the byte order of the UTF-8 encoding
/// that `str`'s own comparison uses.
pub open spec fn text_lt(a: Seq<char>, b: Seq<char>) -> bool
    decreases a.len(),
{
    if b.len() == 0 {
        false
    } else if a.len() == 0 {
        true
    } else if a[0] != b[0] {
        (a[0] as int) < (b[0] as int)
    } else {
        text_lt(a.drop_first(), b.drop_first())
    }
}

/// The order is a strict total order: of two texts exactly one comes first, unless they are
/// equal.
pub proof fn lemma_text_lt_trichotomy(a: Seq<char>, b: Seq<char>)
    ensures
        text_lt(a, b) || a == b || text_lt(b, a),
        !(text_lt(a, b) && text_lt(b, a)),
        !text_lt(a, a),
    decreases a.len(),
{
    if a.len() > 0 && b.len() > 0 && a[0] == b[0] {
        lemma_text_lt_trichotomy(a.drop_first(), b.drop_first());
        if a.drop_first() == b.drop_first() {
            assert(a =~= seq![a[0]] + a.drop_first());
            assert(b =~= seq![b[0]] + b.drop_first());
        }
    } else if a.len() == 0 && b.len() == 0 {
        assert(a =~= b);
    } else if a.len() > 0 && b.len() > 0 {
        let x = a[0];
        let y = b[0];
        assert(x != y ==> (x as int) != (y as int));
    }
    if a.len() > 0 {
        lemma_text_lt_trichotomy(a.drop_first(), a.drop_first());
    }
}

/// The order is transitive.
pub proof fn lemma_text_lt_transitive(a: Seq<char>, b: Seq<char>, c: Seq<char>)
    requires
        text_lt(a, b),
        text_lt(b, c),
    ensures
        text_lt(a, c),
    decreases a.len(),
{
    if a.len() > 0 && b.len() > 0 && c.len() > 0 && a[0] == b[0] && b[0] == c[0] {
        lemma_text_lt_transitive(a.drop_first(), b.drop_first(), c.drop_first());
    }
}

/// Compares two texts in the order of [`text_lt`].
pub fn str_lt(a: &str, b: &str) -> (r: bool)
    ensures
        r == text_lt(a@, b@),
{
    let n = a.unicode_len();
    let m = b.unicode_len();
    let mut i: usize = 0;
    assert(a@.skip(0) =~= a@);
    assert(b@.skip(0) =~= b@);
    while i < n && i < m
        invariant
            n == a@.len(),
            m == b@.len(),
            i <= n,
            i <= m,
            text_lt(a@, b@) == text_lt(a@.skip(i as int), b@.skip(i as int)),
        decreases n - i,
    {
        let x = a.get_char(i);
        let y = b.get_char(i);
        assert(a@.skip(i as int)[0] == x);
        assert(b@.skip(i as int)[0] == y);
        if x != y {
            assert((x as u32) as int == x as int);
            return (x as u32) < (y as u32);
        }
        assert(a@.skip(i as int).drop_first() =~= a@.skip(i + 1));
        assert(b@.skip(i as int).drop_first() =~= b@.skip(i + 1));
        i = i + 1;
    }
    i < m
}

/// Index `i` comes before index `j` in the stable ascending order of the keys: a smaller key,
/// or an equal key and an earlier position.
pub open spec fn comes_before(keys: Seq<Seq<char>>, i: int, j: int) -> bool {
    text_lt(keys[i], keys[j]) || (keys[i] == keys[j] && i < j)
}

/// `p` lists every index of the keys once, in stable ascending order of the keys.
pub open spec fn stable_ascending(keys: Seq<Seq<char>>, p: Seq<usize>) -> bool {
    &&& p.len() == keys.len()
    &&& forall|i: int| 0 <= i < p.len() ==> p[i] < keys.len()
    &&& forall|i: int, j: int| 0 <= i < j < p.len() ==> comes_before(keys, p[i] as int, p[j] as int)
}

/// Some entry of `p` is `v`.
pub open spec fn lists_index(p: Seq<usize>, v: int) -> bool {
    exists|j: int| 0 <= j < p.len() && p[j] as int == v
}

/// An order lists every index: its entries are distinct indices, as many as there are keys.
proof fn lemma_stable_ascending_covers(keys: Seq<Seq<char>>, p: Seq<usize>)
    requires
        stable_ascending(keys, p),
    ensures
        forall|v: int| 0 <= v < keys.len() ==> #[trigger] lists_index(p, v),
{
    let n = keys.len() as int;
    let pi = p.map_values(|x: usize| x as int);
    assert forall|i: int, j: int| 0 <= i < pi.len() && 0 <= j < pi.len() && i != j implies pi[i]
        != pi[j] by {
        let (a, b) = if i < j { (i, j) } else { (j, i) };
        assert(comes_before(keys, p[a] as int, p[b] as int));
        lemma_text_lt_trichotomy(keys[p[a] as int], keys[p[a] as int]);
    }
    assert(pi.no_duplicates());
    pi.unique_seq_to_set();
    vstd::set_lib::lemma_int_range(0, n);
    let range = vstd::set_lib::set_int_range(0, n);
    assert(pi.to_set().subset_of(range));
    vstd::set_lib::lemma_len_subset(pi.to_set(), range);
    vstd::set_lib::lemma_subset_equality(pi.to_set(), range);
    assert forall|v: int| 0 <= v < n implies #[trigger] lists_index(p, v) by {
        assert(range.contains(v));
        assert(pi.to_set().contains(v));
        let j = choose|j: int| 0 <= j < pi.len() && pi[j] == v;
        assert(p[j] as int == v);
    }
}

/// `comes_before` orders distinct indices totally and strictly.
proof fn lemma_comes_before_total(keys: Seq<Seq<char>>, a: int, b: int)
    ensures
        a != b ==> comes_before(keys, a, b) || comes_before(keys, b, a),
        !(comes_before(keys, a, b) && comes_before(keys, b, a)),
        !comes_before(keys, a, a),
{
    lemma_text_lt_trichotomy(keys[a], keys[b]);
    lemma_text_lt_trichotomy(keys[a], keys[a]);
}

/// Two stable ascending orders agree on their first `k` entries.
proof fn lemma_agree_upto(keys: Seq<Seq<char>>, p: Seq<usize>, q: Seq<usize>, k: nat)
    requires
        stable_ascending(keys, p),
        stable_ascending(keys, q),
        k <= p.len(),
        forall|v: int| 0 <= v < keys.len() ==> #[trigger] lists_index(p, v),
        forall|v: int| 0 <= v < keys.len() ==> #[trigger] lists_index(q, v),
    ensures
        forall|m: int| 0 <= m < k ==> p[m] == q[m],
    decreases k,
{
    if k > 0 {
        lemma_agree_upto(keys, p, q, (k - 1) as nat);
        let i = k - 1;
        let x = p[i] as int;
        let y = q[i] as int;
        if x != y {
            lemma_comes_before_total(keys, x, y);
            lemma_comes_before_total(keys, x, x);
            lemma_comes_before_total(keys, y, y);
            if comes_before(keys, x, y) {
                assert(lists_index(q, x));
                let j = choose|j: int| 0 <= j < q.len() && q[j] as int == x;
                if j > i {
                    assert(comes_before(keys, q[i] as int, q[j] as int));
                } else if j < i {
                    assert(p[j] == q[j]);
                    assert(comes_before(keys, p[j] as int, p[i] as int));
                }
            } else {
                assert(lists_index(p, y));
                let j = choose|j: int| 0 <= j < p.len() && p[j] as int == y;
                if j > i {
                    assert(comes_before(keys, p[i] as int, p[j] as int));
                } else if j < i {
                    assert(p[j] == q[j]);
                    assert(comes_before(keys, q[j] as int, q[i] as int));
                }
            }
        }
    }
}

/// The stable ascending order of a list of keys is unique: two orders that both list every
/// index in that order are the same.
pub proof fn lemma_stable_ascending_unique(keys: Seq<Seq<char>>, p: Seq<usize>, q: Seq<usize>)
    requires
        stable_ascending(keys, p),
        stable_ascending(keys, q),
    ensures
        p == q,
{
    lemma_stable_ascending_covers(keys, p);
    lemma_stable_ascending_covers(keys, q);
    lemma_agree_upto(keys, p, q, p.len());
    assert(p =~= q);
}

/// The stable ascending order of the keys, reversed where `descending`, cut to `max_items`.
pub open spec fn arranged(p: Seq<usize>, descending: bool, max_items: usize) -> Seq<usize> {
    let q = if descending {
        p.reverse()
    } else {
        p
    };
    if max_items < q.len() {
        q.take(max_items as int)
    } else {
        q
    }
}

/// The positions of the items in stable ascending order of their keys.
pub fn stable_key_order(keys: &Vec<String>) -> (r: Vec<usize>)
    ensures
        stable_ascending(views(keys@), r@),
{
    let ghost ks = views(keys@);
    let mut order: Vec<usize> = Vec::new();
    let mut k: usize = 0;
    while k < keys.len()
        invariant
            ks == views(keys@),
            k <= keys@.len(),
            order@.len() == k,
            forall|i: int| 0 <= i < order@.len() ==> order@[i] < k,
            forall|i: int, j: int|
                0 <= i < j < order@.len() ==> comes_before(ks, order@[i] as int, order@[j] as int),
        decreases keys@.len() - k,
    {
        let key = keys[k].as_str();
        let mut p: usize = 0;
        while p < order.len() && !str_lt(key, keys[order[p]].as_str())
            invariant
                ks == views(keys@),
                k < keys@.len(),
                key@ == ks[k as int],
                p <= order@.len(),
                forall|i: int| 0 <= i < order@.len() ==> order@[i] < k,
                forall|i: int| 0 <= i < p ==> !text_lt(ks[k as int], #[trigger] ks[order@[i] as int]),
            decreases order@.len() - p,
        {
            p = p + 1;
        }
        let ghost old_order = order@;
        order.insert(p, k);
        proof {
            assert(order@ =~= old_order.subrange(0, p as int).push(k).add(
                old_order.subrange(p as int, old_order.len() as int),
            ));
            assert forall|i: int, j: int| 0 <= i < j < order@.len() implies comes_before(
                ks,
                order@[i] as int,
                order@[j] as int,
            ) by {
                if j < p {
                    assert(order@[i] == old_order[i] && order@[j] == old_order[j]);
                } else if i > p {
                    assert(order@[i] == old_order[i - 1] && order@[j] == old_order[j - 1]);
                } else if i < p && j > p {
                    assert(order@[i] == old_order[i] && order@[j] == old_order[j - 1]);
                } else if i == p {
                    // the new index against a later one: its key is smaller than the key at `p`
                    let x = old_order[p as int] as int;
                    let y = old_order[j - 1] as int;
                    assert(order@[j] == old_order[j - 1]);
                    assert(text_lt(ks[k as int], ks[x]));
                    if j - 1 > p {
                        assert(comes_before(ks, x, y));
                        if text_lt(ks[x], ks[y]) {
                            lemma_text_lt_transitive(ks[k as int], ks[x], ks[y]);
                        }
                    }
                } else {
                    // an earlier index against the new one: its key is not larger
                    assert(j == p);
                    let x = old_order[i] as int;
                    assert(order@[i] == old_order[i]);
                    assert(!text_lt(ks[k as int], ks[x]));
                    lemma_text_lt_trichotomy(ks[x], ks[k as int]);
                    assert(x < k);
                }
            }
        }
        k = k + 1;
    }
    order
}

/// The order in which corporate actions are returned: stably sorted by process date (an action
/// without one sorts first, under the empty text), reversed for a descending request, and cut
/// to the requested number of items.
pub fn corporate_action_order(process_dates: &Vec<String>, descending: bool, max_items: usize) -> (r: Vec<
    usize,
>)
    ensures
        exists|p: Seq<usize>|
            stable_ascending(views(process_dates@), p) && r@ == #[trigger] arranged(p, descending, max_items),
        forall|p: Seq<usize>|
            #[trigger] stable_ascending(views(process_dates@), p) ==> r@ == arranged(p, descending, max_items),
{
    let order = stable_key_order(process_dates);
    let ghost p = order@;
    let mut out: Vec<usize> = Vec::new();
    let n = order.len();
    let count = if max_items < n {
        max_items
    } else {
        n
    };
    let ghost q = if descending {
        p.reverse()
    } else {
        p
    };
    let mut i: usize = 0;
    while i < count
        invariant
            n == order@.len(),
            p == order@,
            count <= n,
            count == (if max_items < n { max_items as int } else { n as int }),
            q == (if descending { p.reverse() } else { p }),
            i <= count,
            out@ == q.take(i as int),
        decreases count - i,
    {
        let idx = if descending {
            order[n - 1 - i]
        } else {
            order[i]
        };
        assert(idx == q[i as int]);
        out.push(idx);
        assert(q.take(i + 1) =~= q.take(i as int).push(q[i as int]));
        i = i + 1;
    }
    proof {
        if max_items >= n {
            assert(q.take(n as int) =~= q);
        }
        assert(out@ == arranged(p, descending, max_items));
        assert forall|p2: Seq<usize>| #[trigger] stable_ascending(views(process_dates@), p2) implies out@
            == arranged(p2, descending, max_items) by {
            lemma_stable_ascending_unique(views(process_dates@), p, p2);
        }
    }
    out
}

} // verus!
