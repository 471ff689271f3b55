//! Ordering the rows of a report table: by a group key (a rank, then texts compared
//! lexicographically, the order of `str`), then by a day, keeping the given order among equal
//! keys; and splitting the ordered rows into runs of one group each.
use vstd::prelude::*;

verus! {

/// A sort key as plain values.
pub struct KeyView {
    pub rank: int,
    pub texts: Seq<Seq<char>>,
    pub day: int,
}

/// A sort key: a rank, then texts, then a day.
pub struct SortKey {
    pub rank: u32,
    pub texts: Vec<String>,
    pub day: i64,
}

impl View for SortKey {
    type V = KeyView;

    open spec fn view(&self) -> KeyView {
        KeyView {
            rank: self.rank as int,
            texts: self.texts@.map_values(|s: String| s@),
            day: self.day as int,
        }
    }
}

pub open spec fn keys_view(k: Seq<SortKey>) -> Seq<KeyView> {
    k.map_values(|x: SortKey| x@)
}

/// Lexicographic comparison of two texts by character (the order of `str`): -1, 0 or 1.
pub open spec fn text_order(a: Seq<char>, b: Seq<char>) -> int
    decreases a.len(),
{
    if a.len() == 0 {
        if b.len() == 0 {
            0
        } else {
            -1
        }
    } else if b.len() == 0 {
        1
    } else if (a[0] as u32) < (b[0] as u32) {
        -1
    } else if (a[0] as u32) > (b[0] as u32) {
        1
    } else {
        text_order(a.drop_first(), b.drop_first())
    }
}

/// Lexicographic comparison of two lists of texts.
pub open spec fn texts_order(a: Seq<Seq<char>>, b: Seq<Seq<char>>) -> int
    decreases a.len(),
{
    if a.len() == 0 {
        if b.len() == 0 {
            0
        } else {
            -1
        }
    } else if b.len() == 0 {
        1
    } else if text_order(a[0], b[0]) != 0 {
        text_order(a[0], b[0])
    } else {
        texts_order(a.drop_first(), b.drop_first())
    }
}

/// The order of groups: by rank, then by texts.
pub open spec fn group_order(a: KeyView, b: KeyView) -> int {
    if a.rank < b.rank {
        -1
    } else if a.rank > b.rank {
        1
    } else {
        texts_order(a.texts, b.texts)
    }
}

/// `a` sorts strictly after `b`.
pub open spec fn key_gt(a: KeyView, b: KeyView) -> bool {
    group_order(a, b) > 0 || (group_order(a, b) == 0 && a.day > b.day)
}

/// `i` inserted into `order` after every index whose key is not greater than its own.
pub open spec fn insert_stable(order: Seq<int>, keys: Seq<KeyView>, i: int) -> Seq<int>
    decreases order.len(),
{
    if order.len() == 0 {
        seq![i]
    } else if key_gt(keys[order.last()], keys[i]) {
        insert_stable(order.drop_last(), keys, i).push(order.last())
    } else {
        order.push(i)
    }
}

/// The indices `0..n` ordered by key, equal keys in index order (a stable sort).
pub open spec fn sorted_order(keys: Seq<KeyView>, n: nat) -> Seq<int>
    decreases n,
{
    if n == 0 {
        seq![]
    } else {
        insert_stable(sorted_order(keys, (n - 1) as nat), keys, n - 1)
    }
}

fn text_compare(a: &str, b: &str) -> (r: i8)
    ensures
        r as int == text_order(a@, b@),
{
    let n = a.unicode_len();
    let m = b.unicode_len();
    let mut i: usize = 0;
    assert(a@.skip(0) =~= a@);
    assert(b@.skip(0) =~= b@);
    while i < n && i < m
        invariant
            n == a@.len(),
            m == b@.len(),
            i <= n,
            i <= m,
            text_order(a@, b@) == text_order(a@.skip(i as int), b@.skip(i as int)),
        decreases n - i,
    {
        let x = a.get_char(i);
        let y = b.get_char(i);
        proof {
            assert(a@.skip(i as int)[0] == x);
            assert(b@.skip(i as int)[0] == y);
            assert(a@.skip(i as int).drop_first() =~= a@.skip(i + 1));
            assert(b@.skip(i as int).drop_first() =~= b@.skip(i + 1));
        }
        if (x as u32) < (y as u32) {
            return -1;
        }
        if (x as u32) > (y as u32) {
            return 1;
        }
        i = i + 1;
    }
    proof {
        assert(a@.skip(i as int).len() == n - i);
        assert(b@.skip(i as int).len() == m - i);
    }
    if i < m {
        -1
    } else if i < n {
        1
    } else {
        0
    }
}

fn texts_compare(a: &Vec<String>, b: &Vec<String>) -> (r: i8)
    ensures
        r as int == texts_order(a@.map_values(|s: String| s@), b@.map_values(|s: String| s@)),
{
    let ghost av = a@.map_values(|s: String| s@);
    let ghost bv = b@.map_values(|s: String| s@);
    let n = a.len();
    let m = b.len();
    let mut i: usize = 0;
    assert(av.skip(0) =~= av);
    assert(bv.skip(0) =~= bv);
    while i < n && i < m
        invariant
            n == a@.len(),
            m == b@.len(),
            av == a@.map_values(|s: String| s@),
            bv == b@.map_values(|s: String| s@),
            i <= n,
            i <= m,
            texts_order(av, bv) == texts_order(av.skip(i as int), bv.skip(i as int)),
        decreases n - i,
    {
        let c = text_compare(a[i].as_str(), b[i].as_str());
        proof {
            assert(av.skip(i as int)[0] == a@[i as int]@);
            assert(bv.skip(i as int)[0] == b@[i as int]@);
            assert(av.skip(i as int).drop_first() =~= av.skip(i + 1));
            assert(bv.skip(i as int).drop_first() =~= bv.skip(i + 1));
        }
        if c != 0 {
            return c;
        }
        i = i + 1;
    }
    proof {
        assert(av.skip(i as int).len() == n - i);
        assert(bv.skip(i as int).len() == m - i);
    }
    if i < m {
        -1
    } else if i < n {
        1
    } else {
        0
    }
}

/// The order of the groups of two keys: -1, 0 or 1.
pub fn group_compare(a: &SortKey, b: &SortKey) -> (r: i8)
    ensures
        r as int == group_order(a@, b@),
{
    if a.rank < b.rank {
        -1
    } else if a.rank > b.rank {
        1
    } else {
        texts_compare(&a.texts, &b.texts)
    }
}

fn greater(a: &SortKey, b: &SortKey) -> (r: bool)
    ensures
        r == key_gt(a@, b@),
{
    let c = group_compare(a, b);
    c > 0 || (c == 0 && a.day > b.day)
}

/// The indices of `keys` ordered by key, equal keys in index order.
pub fn sort_order(keys: &Vec<SortKey>) -> (r: Vec<usize>)
    ensures
        r@.map_values(|i: usize| i as int) == sorted_order(keys_view(keys@), keys@.len()),
        forall|p: int| 0 <= p < r@.len() ==> r@[p] < keys@.len(),
        r@.len() == keys@.len(),
{
    let ghost kv = keys_view(keys@);
    let mut order: Vec<usize> = Vec::new();
    let mut i: usize = 0;
    while i < keys.len()
        invariant
            kv == keys_view(keys@),
            i <= keys@.len(),
            order@.map_values(|x: usize| x as int) == sorted_order(kv, i as nat),
            forall|p: int| 0 <= p < order@.len() ==> order@[p] < i,
            order@.len() == i,
        decreases keys@.len() - i,
    {
        let ghost ov = order@.map_values(|x: usize| x as int);
        let mut j: usize = order.len();
        assert(ov.take(j as int) =~= ov);
        assert(ov.skip(j as int) =~= Seq::<int>::empty());
        assert(insert_stable(ov, kv, i as int) =~= insert_stable(ov.take(j as int), kv, i as int) + ov.skip(j as int));
        while j > 0 && greater(&keys[order[j - 1]], &keys[i])
            invariant
                kv == keys_view(keys@),
                i < keys@.len(),
                j <= order@.len(),
                ov == order@.map_values(|x: usize| x as int),
                forall|p: int| 0 <= p < order@.len() ==> order@[p] < i,
                insert_stable(ov, kv, i as int) == insert_stable(ov.take(j as int), kv, i as int) + ov.skip(
                    j as int,
                ),
            decreases j,
        {
            proof {
                let t = ov.take(j as int);
                assert(t.last() == order@[j - 1] as int);
                assert(kv[t.last()] == keys@[order@[j - 1] as int]@);
                assert(t.drop_last() =~= ov.take(j - 1));
                assert(ov.skip(j - 1) =~= seq![t.last()] + ov.skip(j as int));
                assert(insert_stable(t, kv, i as int) == insert_stable(ov.take(j - 1), kv, i as int).push(t.last()));
                assert(insert_stable(ov.take(j - 1), kv, i as int).push(t.last()) + ov.skip(j as int)
                    =~= insert_stable(ov.take(j - 1), kv, i as int) + ov.skip(j - 1));
            }
            j = j - 1;
        }
        proof {
            let t = ov.take(j as int);
            if j > 0 {
                assert(t.last() == order@[j - 1] as int);
                assert(kv[t.last()] == keys@[order@[j - 1] as int]@);
                assert(insert_stable(t, kv, i as int) == t.push(i as int));
            } else {
                assert(t =~= Seq::<int>::empty());
            }
        }
        let ghost prev = order@;
        order.insert(j, i);
        proof {
            assert forall|p: int| 0 <= p < order@.len() implies order@[p] < i + 1 by {
                if p < j {
                    assert(order@[p] == prev[p]);
                } else if p > j {
                    assert(order@[p] == prev[p - 1]);
                }
            }
            assert(order@.map_values(|x: usize| x as int) =~= ov.take(j as int).push(i as int) + ov.skip(j as int));
            assert(sorted_order(kv, (i + 1) as nat) == insert_stable(sorted_order(kv, i as nat), kv, i as int));
        }
        i = i + 1;
    }
    order
}

/// The ordered indices split into maximal runs of equal group.
pub open spec fn runs(order: Seq<int>, keys: Seq<KeyView>) -> Seq<Seq<int>>
    decreases order.len(),
{
    if order.len() == 0 {
        seq![]
    } else {
        let r = runs(order.drop_last(), keys);
        let i = order.last();
        if r.len() > 0 && group_order(keys[r.last().last()], keys[i]) == 0 {
            r.update(r.len() - 1, r.last().push(i))
        } else {
            r.push(seq![i])
        }
    }
}

pub open spec fn index_view(v: Seq<usize>) -> Seq<int> {
    v.map_values(|i: usize| i as int)
}

pub open spec fn runs_view(v: Seq<Vec<usize>>) -> Seq<Seq<int>> {
    v.map_values(|r: Vec<usize>| index_view(r@))
}

/// The ordered indices split into maximal runs of one group each.
pub fn split_runs(order: &Vec<usize>, keys: &Vec<SortKey>) -> (r: Vec<Vec<usize>>)
    requires
        forall|p: int| 0 <= p < order@.len() ==> order@[p] < keys@.len(),
    ensures
        runs_view(r@) == runs(index_view(order@), keys_view(keys@)),
        forall|g: int| 0 <= g < r@.len() ==> (#[trigger] r@[g])@.len() > 0 && r@[g]@.len() <= order@.len(),
        forall|g: int, p: int| 0 <= g < r@.len() && 0 <= p < r@[g]@.len() ==> #[trigger] r@[g]@[p] < keys@.len(),
{
    let ghost ov = index_view(order@);
    let ghost kv = keys_view(keys@);
    let mut out: Vec<Vec<usize>> = Vec::new();
    let mut i: usize = 0;
    while i < order.len()
        invariant
            ov == index_view(order@),
            kv == keys_view(keys@),
            forall|p: int| 0 <= p < order@.len() ==> order@[p] < keys@.len(),
            i <= order@.len(),
            runs_view(out@) == runs(ov.take(i as int), kv),
            forall|g: int| 0 <= g < out@.len() ==> (#[trigger] out@[g])@.len() > 0 && out@[g]@.len() <= i,
            forall|g: int, p: int| 0 <= g < out@.len() && 0 <= p < out@[g]@.len() ==> #[trigger] out@[g]@[p] < keys@.len(),
        decreases order@.len() - i,
    {
        let x = order[i];
        proof {
            assert(ov.take(i + 1).drop_last() =~= ov.take(i as int));
            assert(ov.take(i + 1).last() == x as int);
        }
        let n = out.len();
        let same = if n > 0 {
            let last_run = &out[n - 1];
            let y = last_run[last_run.len() - 1];
            proof {
                assert(runs_view(out@)[n - 1] == index_view(out@[n - 1]@));
                assert(index_view(out@[n - 1]@).last() == y as int);
                assert(kv[y as int] == keys@[y as int]@);
                assert(kv[x as int] == keys@[x as int]@);
            }
            group_compare(&keys[y], &keys[x]) == 0
        } else {
            false
        };
        let ghost before = runs_view(out@);
        if same {
            let mut last_run = out.pop().unwrap();
            let ghost popped = index_view(last_run@);
            last_run.push(x);
            out.push(last_run);
            proof {
                assert(index_view(last_run@) =~= popped.push(x as int));
                assert(runs_view(out@) =~= before.update(before.len() - 1, before.last().push(x as int)));
            }
        } else {
            let mut run: Vec<usize> = Vec::new();
            run.push(x);
            out.push(run);
            proof {
                assert(index_view(run@) =~= seq![x as int]);
                assert(runs_view(out@) =~= before.push(seq![x as int]));
            }
        }
        i = i + 1;
    }
    proof {
        assert(ov.take(i as int) =~= ov);
    }
    out
}


/// The number of items in all the groups together.
pub open spec fn total_len<T>(s: Seq<Seq<T>>) -> int
    decreases s.len(),
{
    if s.len() == 0 {
        0
    } else {
        total_len(s.drop_last()) + s.last().len()
    }
}

/// Splitting into runs neither loses nor adds an index.
pub proof fn lemma_runs_total(order: Seq<int>, keys: Seq<KeyView>)
    ensures
        total_len(runs(order, keys)) == order.len(),
    decreases order.len(),
{
    if order.len() > 0 {
        lemma_runs_total(order.drop_last(), keys);
        let r = runs(order.drop_last(), keys);
        let i = order.last();
        if r.len() > 0 && group_order(keys[r.last().last()], keys[i]) == 0 {
            let u = r.update(r.len() - 1, r.last().push(i));
            assert(u.drop_last() =~= r.drop_last());
        } else {
            assert(r.push(seq![i]).drop_last() =~= r);
        }
    }
}

/// Groups mapped item by item keep their sizes.
pub proof fn lemma_total_len_map<T, U>(s: Seq<Seq<T>>, t: Seq<Seq<U>>)
    requires
        s.len() == t.len(),
        forall|i: int| 0 <= i < s.len() ==> (#[trigger] s[i]).len() == t[i].len(),
    ensures
        total_len(s) == total_len(t),
    decreases s.len(),
{
    if s.len() > 0 {
        lemma_total_len_map(s.drop_last(), t.drop_last());
    }
}

/// The first groups hold no more items than all of them.
pub proof fn lemma_total_len_take<T>(s: Seq<Seq<T>>, k: int)
    requires
        0 <= k <= s.len(),
    ensures
        total_len(s.take(k)) <= total_len(s),
        k < s.len() ==> total_len(s.take(k + 1)) == total_len(s.take(k)) + s[k].len(),
    decreases s.len() - k,
{
    if k < s.len() {
        lemma_total_len_take(s, k + 1);
        assert(s.take(k + 1).drop_last() =~= s.take(k));
    } else {
        assert(s.take(k) =~= s);
    }
}


/// `s` holds each of `0..n` exactly once.
pub open spec fn is_permutation(s: Seq<int>, n: nat) -> bool {
    &&& s.len() == n
    &&& forall|p: int| 0 <= p < s.len() ==> 0 <= #[trigger] s[p] < n
    &&& forall|p: int, q: int| 0 <= p < q < s.len() ==> #[trigger] s[p] != #[trigger] s[q]
}

pub open spec fn distinct(s: Seq<int>) -> bool {
    forall|p: int, q: int| 0 <= p < q < s.len() ==> #[trigger] s[p] != #[trigger] s[q]
}

/// The groups read one after another.
pub open spec fn flatten(s: Seq<Seq<int>>) -> Seq<int>
    decreases s.len(),
{
    if s.len() == 0 {
        Seq::empty()
    } else {
        flatten(s.drop_last()) + s.last()
    }
}

/// Inserting an index adds it and keeps every other.
proof fn lemma_insert_stable(o: Seq<int>, keys: Seq<KeyView>, i: int)
    ensures
        insert_stable(o, keys, i).len() == o.len() + 1,
        forall|x: int| #[trigger] insert_stable(o, keys, i).contains(x) <==> (o.contains(x) || x == i),
        distinct(o) && !o.contains(i) ==> distinct(insert_stable(o, keys, i)),
    decreases o.len(),
{
    let r = insert_stable(o, keys, i);
    if o.len() == 0 {
        assert(r =~= seq![i]);
        assert forall|x: int| #[trigger] r.contains(x) <==> (o.contains(x) || x == i) by {
            if r.contains(x) {
                assert(r[0] == x);
            }
            if x == i {
                assert(r[0] == x);
            }
        }
    } else if key_gt(keys[o.last()], keys[i]) {
        let o2 = o.drop_last();
        lemma_insert_stable(o2, keys, i);
        let r2 = insert_stable(o2, keys, i);
        assert(r == r2.push(o.last()));
        assert forall|x: int| #[trigger] r.contains(x) <==> (o.contains(x) || x == i) by {
            if r.contains(x) {
                let p = choose|p: int| 0 <= p < r.len() && r[p] == x;
                if p < r2.len() {
                    assert(r2[p] == x);
                    assert(r2.contains(x));
                    if o2.contains(x) {
                        let q = choose|q: int| 0 <= q < o2.len() && o2[q] == x;
                        assert(o[q] == x);
                    }
                } else {
                    assert(o[o.len() - 1] == x);
                }
            }
            if o.contains(x) {
                let q = choose|q: int| 0 <= q < o.len() && o[q] == x;
                if q < o.len() - 1 {
                    assert(o2[q] == x);
                    assert(r2.contains(x));
                    let p = choose|p: int| 0 <= p < r2.len() && r2[p] == x;
                    assert(r[p] == x);
                } else {
                    assert(r[r.len() - 1] == x);
                }
            }
            if x == i {
                assert(r2.contains(x));
                let p = choose|p: int| 0 <= p < r2.len() && r2[p] == x;
                assert(r[p] == x);
            }
        }
        if distinct(o) && !o.contains(i) {
            assert(!o2.contains(i)) by {
                if o2.contains(i) {
                    let q = choose|q: int| 0 <= q < o2.len() && o2[q] == i;
                    assert(o[q] == i);
                }
            }
            assert(distinct(o2)) by {
                assert forall|p: int, q: int| 0 <= p < q < o2.len() implies #[trigger] o2[p] != #[trigger] o2[q] by {
                    assert(o[p] != o[q]);
                }
            }
            assert(!r2.contains(o.last())) by {
                if r2.contains(o.last()) {
                    if o2.contains(o.last()) {
                        let q = choose|q: int| 0 <= q < o2.len() && o2[q] == o.last();
                        assert(o[q] != o[o.len() - 1]);
                    } else {
                        assert(o.contains(i));
                    }
                }
            }
            assert forall|p: int, q: int| 0 <= p < q < r.len() implies #[trigger] r[p] != #[trigger] r[q] by {
                if q == r.len() - 1 {
                    assert(r[q] == o.last());
                    assert(r[p] == r2[p]);
                    if r2[p] == o.last() {
                        assert(r2.contains(o.last()));
                    }
                } else {
                    assert(r[p] == r2[p] && r[q] == r2[q]);
                }
            }
        }
    } else {
        assert(r == o.push(i));
        assert forall|x: int| #[trigger] r.contains(x) <==> (o.contains(x) || x == i) by {
            if r.contains(x) {
                let p = choose|p: int| 0 <= p < r.len() && r[p] == x;
                if p < o.len() {
                    assert(o[p] == x);
                }
            }
            if o.contains(x) {
                let q = choose|q: int| 0 <= q < o.len() && o[q] == x;
                assert(r[q] == x);
            }
            if x == i {
                assert(r[o.len() as int] == x);
            }
        }
        if distinct(o) && !o.contains(i) {
            assert forall|p: int, q: int| 0 <= p < q < r.len() implies #[trigger] r[p] != #[trigger] r[q] by {
                if q == o.len() {
                    assert(r[p] == o[p]);
                    if o[p] == i {
                        assert(o.contains(i));
                    }
                } else {
                    assert(r[p] == o[p] && r[q] == o[q]);
                }
            }
        }
    }
}

/// The sort neither loses nor repeats an index.
pub proof fn lemma_sorted_order_is_permutation(keys: Seq<KeyView>, n: nat)
    ensures
        is_permutation(sorted_order(keys, n), n),
    decreases n,
{
    if n > 0 {
        let prev = sorted_order(keys, (n - 1) as nat);
        lemma_sorted_order_is_permutation(keys, (n - 1) as nat);
        lemma_insert_stable(prev, keys, n - 1);
        let r = sorted_order(keys, n);
        assert(r == insert_stable(prev, keys, n - 1));
        assert(!prev.contains(n - 1)) by {
            if prev.contains(n - 1) {
                let q = choose|q: int| 0 <= q < prev.len() && prev[q] == n - 1;
                assert(prev[q] < n - 1);
            }
        }
        assert(distinct(prev));
        assert forall|p: int| 0 <= p < r.len() implies 0 <= #[trigger] r[p] < n by {
            assert(r.contains(r[p]));
            if prev.contains(r[p]) {
                let q = choose|q: int| 0 <= q < prev.len() && prev[q] == r[p];
                assert(0 <= prev[q] < n - 1);
            }
        }
    }
}

/// Splitting into runs keeps the indices and their order.
pub proof fn lemma_runs_flatten(order: Seq<int>, keys: Seq<KeyView>)
    ensures
        flatten(runs(order, keys)) == order,
    decreases order.len(),
{
    if order.len() > 0 {
        lemma_runs_flatten(order.drop_last(), keys);
        let r = runs(order.drop_last(), keys);
        let i = order.last();
        if r.len() > 0 && group_order(keys[r.last().last()], keys[i]) == 0 {
            let u = r.update(r.len() - 1, r.last().push(i));
            assert(u.drop_last() =~= r.drop_last());
            assert(flatten(u) =~= flatten(r).push(i));
        } else {
            let u = r.push(seq![i]);
            assert(u.drop_last() =~= r);
            assert(flatten(u) =~= flatten(r).push(i));
        }
        assert(order =~= order.drop_last().push(i));
    }
}

/// Comparing the other way round gives the opposite answer.
proof fn lemma_text_order_antisymmetric(a: Seq<char>, b: Seq<char>)
    ensures
        text_order(a, b) == -text_order(b, a),
        -1 <= text_order(a, b) <= 1,
    decreases a.len(),
{
    if a.len() > 0 && b.len() > 0 && (a[0] as u32) == (b[0] as u32) {
        lemma_text_order_antisymmetric(a.drop_first(), b.drop_first());
    }
}

/// Not after, then not after, is not after.
proof fn lemma_text_order_transitive(a: Seq<char>, b: Seq<char>, c: Seq<char>)
    requires
        text_order(a, b) <= 0,
        text_order(b, c) <= 0,
    ensures
        text_order(a, c) <= 0,
    decreases a.len(),
{
    if a.len() > 0 && b.len() > 0 && c.len() > 0 {
        if (a[0] as u32) == (b[0] as u32) && (b[0] as u32) == (c[0] as u32) {
            lemma_text_order_transitive(a.drop_first(), b.drop_first(), c.drop_first());
        }
    }
}

/// Every chain of "not after" among three texts, either way round.
proof fn lemma_text_order_chains(a: Seq<char>, b: Seq<char>, c: Seq<char>)
    ensures
        text_order(a, b) <= 0 && text_order(b, c) <= 0 ==> text_order(a, c) <= 0,
        text_order(a, c) <= 0 && text_order(c, b) <= 0 ==> text_order(a, b) <= 0,
        text_order(b, a) <= 0 && text_order(a, c) <= 0 ==> text_order(b, c) <= 0,
        text_order(b, c) <= 0 && text_order(c, a) <= 0 ==> text_order(b, a) <= 0,
        text_order(c, a) <= 0 && text_order(a, b) <= 0 ==> text_order(c, b) <= 0,
        text_order(c, b) <= 0 && text_order(b, a) <= 0 ==> text_order(c, a) <= 0,
        text_order(a, b) == -text_order(b, a),
        text_order(b, c) == -text_order(c, b),
        text_order(a, c) == -text_order(c, a),
        -1 <= text_order(a, b) <= 1 && -1 <= text_order(b, c) <= 1 && -1 <= text_order(a, c) <= 1,
{
    lemma_text_order_antisymmetric(a, b);
    lemma_text_order_antisymmetric(b, c);
    lemma_text_order_antisymmetric(a, c);
    if text_order(a, b) <= 0 && text_order(b, c) <= 0 {
        lemma_text_order_transitive(a, b, c);
    }
    if text_order(a, c) <= 0 && text_order(c, b) <= 0 {
        lemma_text_order_transitive(a, c, b);
    }
    if text_order(b, a) <= 0 && text_order(a, c) <= 0 {
        lemma_text_order_transitive(b, a, c);
    }
    if text_order(b, c) <= 0 && text_order(c, a) <= 0 {
        lemma_text_order_transitive(b, c, a);
    }
    if text_order(c, a) <= 0 && text_order(a, b) <= 0 {
        lemma_text_order_transitive(c, a, b);
    }
    if text_order(c, b) <= 0 && text_order(b, a) <= 0 {
        lemma_text_order_transitive(c, b, a);
    }
}

proof fn lemma_texts_order_antisymmetric(a: Seq<Seq<char>>, b: Seq<Seq<char>>)
    ensures
        texts_order(a, b) == -texts_order(b, a),
        -1 <= texts_order(a, b) <= 1,
    decreases a.len(),
{
    if a.len() > 0 && b.len() > 0 {
        lemma_text_order_antisymmetric(a[0], b[0]);
        if text_order(a[0], b[0]) == 0 {
            lemma_texts_order_antisymmetric(a.drop_first(), b.drop_first());
        }
    }
}

proof fn lemma_texts_order_transitive(a: Seq<Seq<char>>, b: Seq<Seq<char>>, c: Seq<Seq<char>>)
    requires
        texts_order(a, b) <= 0,
        texts_order(b, c) <= 0,
    ensures
        texts_order(a, c) <= 0,
    decreases a.len(),
{
    if a.len() > 0 && b.len() > 0 && c.len() > 0 {
        lemma_text_order_chains(a[0], b[0], c[0]);
        if text_order(a[0], b[0]) == 0 && text_order(b[0], c[0]) == 0 {
            lemma_texts_order_transitive(a.drop_first(), b.drop_first(), c.drop_first());
        }
    }
}

proof fn lemma_group_order_antisymmetric(a: KeyView, b: KeyView)
    ensures
        group_order(a, b) == -group_order(b, a),
        -1 <= group_order(a, b) <= 1,
{
    lemma_texts_order_antisymmetric(a.texts, b.texts);
}

proof fn lemma_group_order_transitive(a: KeyView, b: KeyView, c: KeyView)
    ensures
        group_order(a, b) <= 0 && group_order(b, c) <= 0 ==> group_order(a, c) <= 0,
{
    if group_order(a, b) <= 0 && group_order(b, c) <= 0 && a.rank == b.rank && b.rank == c.rank {
        lemma_texts_order_transitive(a.texts, b.texts, c.texts);
    }
}

/// `key_gt` is a strict weak order: never both ways, and "not after" chains.
proof fn lemma_key_order(a: KeyView, b: KeyView, c: KeyView)
    ensures
        key_gt(a, b) ==> !key_gt(b, a),
        !key_gt(a, b) && !key_gt(b, c) ==> !key_gt(a, c),
{
    lemma_group_order_antisymmetric(a, b);
    lemma_group_order_antisymmetric(b, c);
    lemma_group_order_antisymmetric(a, c);
    lemma_group_order_transitive(a, b, c);
    lemma_group_order_transitive(a, c, b);
    lemma_group_order_transitive(b, a, c);
    lemma_group_order_transitive(b, c, a);
    lemma_group_order_transitive(c, a, b);
    lemma_group_order_transitive(c, b, a);
}

/// In key order: no index sorts after a later one.
pub open spec fn ordered(s: Seq<int>, keys: Seq<KeyView>) -> bool {
    forall|p: int, q: int| 0 <= p < q < s.len() ==> !key_gt(keys[#[trigger] s[p]], keys[#[trigger] s[q]])
}

proof fn lemma_insert_ordered(o: Seq<int>, keys: Seq<KeyView>, i: int)
    requires
        ordered(o, keys),
    ensures
        ordered(insert_stable(o, keys, i), keys),
    decreases o.len(),
{
    let r = insert_stable(o, keys, i);
    if o.len() == 0 {
        assert(r =~= seq![i]);
    } else if key_gt(keys[o.last()], keys[i]) {
        let o2 = o.drop_last();
        assert(ordered(o2, keys)) by {
            assert forall|p: int, q: int| 0 <= p < q < o2.len() implies !key_gt(keys[#[trigger] o2[p]], keys[#[trigger] o2[q]]) by {
                assert(o2[p] == o[p] && o2[q] == o[q]);
            }
        }
        lemma_insert_ordered(o2, keys, i);
        lemma_insert_stable(o2, keys, i);
        let r2 = insert_stable(o2, keys, i);
        assert(r == r2.push(o.last()));
        lemma_key_order(keys[o.last()], keys[i], keys[i]);
        assert forall|p: int, q: int| 0 <= p < q < r.len() implies !key_gt(keys[#[trigger] r[p]], keys[#[trigger] r[q]]) by {
            if q == r.len() - 1 {
                assert(r[q] == o.last());
                assert(r[p] == r2[p]);
                assert(r2.contains(r2[p]));
                if o2.contains(r2[p]) {
                    let k = choose|k: int| 0 <= k < o2.len() && o2[k] == r2[p];
                    assert(o[k] == r2[p]);
                    assert(!key_gt(keys[o[k]], keys[o[o.len() - 1]]));
                } else {
                    assert(r2[p] == i);
                }
            } else {
                assert(r[p] == r2[p] && r[q] == r2[q]);
            }
        }
    } else {
        assert(r == o.push(i));
        assert forall|p: int, q: int| 0 <= p < q < r.len() implies !key_gt(keys[#[trigger] r[p]], keys[#[trigger] r[q]]) by {
            if q == o.len() {
                assert(r[q] == i);
                assert(r[p] == o[p]);
                if p < o.len() - 1 {
                    assert(!key_gt(keys[o[p]], keys[o[o.len() - 1]]));
                }
                lemma_key_order(keys[o[p]], keys[o.last()], keys[i]);
            } else {
                assert(r[p] == o[p] && r[q] == o[q]);
            }
        }
    }
}

/// The sort puts the indices in key order.
pub proof fn lemma_sorted_order_is_ordered(keys: Seq<KeyView>, n: nat)
    ensures
        ordered(sorted_order(keys, n), keys),
    decreases n,
{
    if n > 0 {
        lemma_sorted_order_is_ordered(keys, (n - 1) as nat);
        lemma_insert_ordered(sorted_order(keys, (n - 1) as nat), keys, n - 1);
    }
}


/// Indices whose keys are equal (neither after the other) stay in the order given.
pub open spec fn stable(s: Seq<int>, keys: Seq<KeyView>) -> bool {
    forall|p: int, q: int|
        0 <= p < q < s.len() && !key_gt(keys[#[trigger] s[p]], keys[#[trigger] s[q]]) && !key_gt(keys[s[q]], keys[s[p]])
            ==> s[p] < s[q]
}

proof fn lemma_insert_stable_keeps_order(o: Seq<int>, keys: Seq<KeyView>, i: int)
    requires
        stable(o, keys),
        forall|p: int| 0 <= p < o.len() ==> #[trigger] o[p] < i,
    ensures
        stable(insert_stable(o, keys, i), keys),
    decreases o.len(),
{
    let r = insert_stable(o, keys, i);
    if o.len() == 0 {
        assert(r =~= seq![i]);
    } else if key_gt(keys[o.last()], keys[i]) {
        let o2 = o.drop_last();
        assert(stable(o2, keys)) by {
            assert forall|p: int, q: int|
                0 <= p < q < o2.len() && !key_gt(keys[#[trigger] o2[p]], keys[#[trigger] o2[q]]) && !key_gt(keys[o2[q]], keys[o2[p]])
                implies o2[p] < o2[q] by {
                assert(o2[p] == o[p] && o2[q] == o[q]);
            }
        }
        assert forall|p: int| 0 <= p < o2.len() implies #[trigger] o2[p] < i by {
            assert(o2[p] == o[p]);
        }
        lemma_insert_stable_keeps_order(o2, keys, i);
        lemma_insert_stable(o2, keys, i);
        let r2 = insert_stable(o2, keys, i);
        assert(r == r2.push(o.last()));
        assert forall|p: int, q: int|
            0 <= p < q < r.len() && !key_gt(keys[#[trigger] r[p]], keys[#[trigger] r[q]]) && !key_gt(keys[r[q]], keys[r[p]])
            implies r[p] < r[q] by {
            if q == r.len() - 1 {
                assert(r[q] == o.last());
                assert(r[p] == r2[p]);
                assert(r2.contains(r2[p]));
                if o2.contains(r2[p]) {
                    let k = choose|k: int| 0 <= k < o2.len() && o2[k] == r2[p];
                    assert(o[k] == r2[p]);
                    assert(o[k] < o[o.len() - 1]);
                }
            } else {
                assert(r[p] == r2[p] && r[q] == r2[q]);
            }
        }
    } else {
        assert(r == o.push(i));
        assert forall|p: int, q: int|
            0 <= p < q < r.len() && !key_gt(keys[#[trigger] r[p]], keys[#[trigger] r[q]]) && !key_gt(keys[r[q]], keys[r[p]])
            implies r[p] < r[q] by {
            if q == o.len() {
                assert(r[p] == o[p]);
            } else {
                assert(r[p] == o[p] && r[q] == o[q]);
            }
        }
    }
}

/// The sort is stable: indices of equal keys keep their order.
pub proof fn lemma_sorted_order_is_stable(keys: Seq<KeyView>, n: nat)
    ensures
        stable(sorted_order(keys, n), keys),
    decreases n,
{
    if n > 0 {
        let prev = sorted_order(keys, (n - 1) as nat);
        lemma_sorted_order_is_stable(keys, (n - 1) as nat);
        lemma_sorted_order_is_permutation(keys, (n - 1) as nat);
        assert forall|p: int| 0 <= p < prev.len() implies #[trigger] prev[p] < n - 1 by {}
        lemma_insert_stable_keeps_order(prev, keys, n - 1);
    }
}

/// The groups of a report are its rows sorted by key, each once, those with equal keys in the
/// order given, and cut where the group changes.
pub proof fn lemma_grouping_laws(keys: Seq<KeyView>)
    ensures
        is_permutation(sorted_order(keys, keys.len()), keys.len()),
        ordered(sorted_order(keys, keys.len()), keys),
        stable(sorted_order(keys, keys.len()), keys),
        flatten(runs(sorted_order(keys, keys.len()), keys)) == sorted_order(keys, keys.len()),
{
    lemma_sorted_order_is_permutation(keys, keys.len());
    lemma_sorted_order_is_ordered(keys, keys.len());
    lemma_sorted_order_is_stable(keys, keys.len());
    lemma_runs_flatten(sorted_order(keys, keys.len()), keys);
}

} // verus!
