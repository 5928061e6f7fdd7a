use vstd::prelude::*;

verus! {

/// A contiguous run of dataset items: `count` items from item `start` on.
#[derive(Clone, Copy, Debug, PartialEq, Eq, Structural)]
pub struct ItemRange {
    pub start: u64,
    pub count: u64,
}

/// Items each worker gets before the remainder is placed.
pub open spec fn base_size(item_count: u64, thread_count: u8) -> int
    recommends
        thread_count >= 1,
{
    item_count as int / thread_count as int
}

/// Items that do not divide evenly; they all go to the last worker.
pub open spec fn remainder(item_count: u64, thread_count: u8) -> int
    recommends
        thread_count >= 1,
{
    item_count as int % thread_count as int
}

/// The range of worker `i` out of `thread_count`: `base` items each, laid
/// end to end from item 0, with the remainder appended to the last one.
pub open spec fn part(item_count: u64, thread_count: u8, i: int) -> (int, int) {
    let base = base_size(item_count, thread_count);
    let count = if i == thread_count - 1 {
        base + remainder(item_count, thread_count)
    } else {
        base
    };
    (i * base, count)
}

/// Whether `r` is the range of worker `i`.
pub open spec fn is_part(r: ItemRange, item_count: u64, thread_count: u8, i: int) -> bool {
    r.start as int == part(item_count, thread_count, i).0 && r.count as int == part(
        item_count,
        thread_count,
        i,
    ).1
}

/// Whether `v` holds the ranges of all `thread_count` workers, in order.
pub open spec fn is_partition(v: Seq<ItemRange>, item_count: u64, thread_count: u8) -> bool {
    &&& v.len() == thread_count as int
    &&& forall|i: int| 0 <= i < v.len() ==> is_part(#[trigger] v[i], item_count, thread_count, i)
}

/// Whether item `j` lies in `r`.
pub open spec fn in_range(r: ItemRange, j: int) -> bool {
    r.start <= j < r.start as int + r.count as int
}

/// Whether item `j` lies in some range of `v`.
pub open spec fn covered(v: Seq<ItemRange>, j: int) -> bool {
    exists|i: int| 0 <= i < v.len() && #[trigger] in_range(v[i], j)
}

/// Sum of the sizes of the first `n` ranges of `v`.
pub open spec fn total_count(v: Seq<ItemRange>, n: int) -> int
    decreases n,
{
    if n <= 0 {
        0
    } else {
        total_count(v, n - 1) + v[n - 1].count as int
    }
}

proof fn lemma_base_bounds(item_count: u64, thread_count: u8, i: int)
    requires
        thread_count >= 1,
        0 <= i < thread_count,
    ensures
        0 <= base_size(item_count, thread_count),
        0 <= remainder(item_count, thread_count) < thread_count,
        base_size(item_count, thread_count) * thread_count + remainder(item_count, thread_count)
            == item_count,
        0 <= i * base_size(item_count, thread_count),
        (i + 1) * base_size(item_count, thread_count) <= base_size(item_count, thread_count)
            * thread_count,
{
    let n = item_count as int;
    let t = thread_count as int;
    let b = base_size(item_count, thread_count);
    vstd::arithmetic::div_mod::lemma_fundamental_div_mod(n, t);
    assert(0 <= b) by (nonlinear_arith)
        requires
            b == n / t,
            n >= 0,
            t >= 1,
    ;
    assert(0 <= i * b && (i + 1) * b <= b * t) by (nonlinear_arith)
        requires
            0 <= b,
            0 <= i < t,
    ;
}

/// Splits the items `[0, item_count)` among `thread_count` workers: each
/// gets `item_count / thread_count` items, and the last one gets the
/// `item_count % thread_count` items left over as well.
pub fn partition(item_count: u64, thread_count: u8) -> (r: Vec<ItemRange>)
    requires
        thread_count >= 1,
    ensures
        is_partition(r@, item_count, thread_count),
{
    let base = item_count / thread_count as u64;
    let last = item_count % thread_count as u64;
    let mut ranges: Vec<ItemRange> = Vec::new();
    let mut start: u64 = 0;
    let mut i: u8 = 0;
    while i < thread_count
        invariant
            i <= thread_count,
            thread_count >= 1,
            base as int == base_size(item_count, thread_count),
            last as int == remainder(item_count, thread_count),
            i < thread_count ==> start as int == i * base,
            ranges@.len() == i as int,
            forall|k: int| 0 <= k < i ==> is_part(#[trigger] ranges@[k], item_count, thread_count, k),
        decreases thread_count - i,
    {
        proof {
            lemma_base_bounds(item_count, thread_count, i as int);
        }
        assert(i * base + base <= base * thread_count) by (nonlinear_arith)
            requires
                (i + 1) * base <= base * thread_count,
        ;
        let mut this_size: u64 = base;
        if i == thread_count - 1 {
            assert(i * base + base + last == item_count) by (nonlinear_arith)
                requires
                    i + 1 == thread_count,
                    base * thread_count + last == item_count,
            ;
            this_size = base + last;
        }
        ranges.push(ItemRange { start, count: this_size });
        assert((i + 1) * base == i * base + base) by (nonlinear_arith);
        start = start + this_size;
        i = i + 1;
    }
    ranges
}

proof fn lemma_prefix_total(v: Seq<ItemRange>, item_count: u64, thread_count: u8, n: int)
    requires
        thread_count >= 1,
        is_partition(v, item_count, thread_count),
        0 <= n < thread_count,
    ensures
        total_count(v, n) == n * base_size(item_count, thread_count),
    decreases n,
{
    let b = base_size(item_count, thread_count);
    if n > 0 {
        lemma_prefix_total(v, item_count, thread_count, n - 1);
        assert(is_part(v[n - 1], item_count, thread_count, n - 1));
        assert(v[n - 1].count as int == b);
        assert((n - 1) * b + b == n * b) by (nonlinear_arith);
        assert(total_count(v, n) == total_count(v, n - 1) + v[n - 1].count as int);
    } else {
        assert(n * b == 0) by (nonlinear_arith)
            requires
                n == 0,
        ;
    }
}

/// The sizes of the ranges add up to `item_count`; every range but the last
/// holds `item_count / thread_count` items, and the last holds that many
/// plus `item_count % thread_count`.
pub proof fn lemma_partition_sizes(v: Seq<ItemRange>, item_count: u64, thread_count: u8)
    requires
        thread_count >= 1,
        is_partition(v, item_count, thread_count),
    ensures
        total_count(v, v.len() as int) == item_count,
        forall|i: int|
            0 <= i < v.len() - 1 ==> #[trigger] v[i].count as int == base_size(
                item_count,
                thread_count,
            ),
        v[v.len() - 1].count as int == base_size(item_count, thread_count) + remainder(
            item_count,
            thread_count,
        ),
{
    let t = thread_count as int;
    lemma_prefix_total(v, item_count, thread_count, t - 1);
    lemma_base_bounds(item_count, thread_count, t - 1);
    assert(is_part(v[t - 1], item_count, thread_count, t - 1));
    let b = base_size(item_count, thread_count);
    assert((t - 1) * b + b == b * t) by (nonlinear_arith);
    assert forall|i: int| 0 <= i < v.len() - 1 implies #[trigger] v[i].count as int == b by {
        assert(is_part(v[i], item_count, thread_count, i));
    }
}

/// The ranges lie end to end from item 0 to `item_count`, no two of them
/// share an item, and every item below `item_count` lies in one of them:
/// populating all the ranges populates exactly `[0, item_count)`.
pub proof fn lemma_partition_covers(v: Seq<ItemRange>, item_count: u64, thread_count: u8)
    requires
        thread_count >= 1,
        is_partition(v, item_count, thread_count),
    ensures
        v[0].start == 0,
        forall|i: int|
            0 <= i < v.len() - 1 ==> #[trigger] v[i + 1].start as int == v[i].start as int
                + v[i].count as int,
        v[v.len() - 1].start as int + v[v.len() - 1].count as int == item_count,
        forall|i: int, k: int|
            0 <= i < k < v.len() ==> #[trigger] v[i].start as int + v[i].count as int
                <= #[trigger] v[k].start as int,
        forall|j: int| 0 <= j < item_count ==> #[trigger] covered(v, j),
{
    let t = thread_count as int;
    let b = base_size(item_count, thread_count);
    let rem = remainder(item_count, thread_count);
    lemma_base_bounds(item_count, thread_count, t - 1);
    assert(is_part(v[0], item_count, thread_count, 0));
    assert(is_part(v[t - 1], item_count, thread_count, t - 1));
    assert((t - 1) * b + b == b * t) by (nonlinear_arith);
    assert forall|i: int| 0 <= i < v.len() - 1 implies #[trigger] v[i + 1].start as int
        == v[i].start as int + v[i].count as int by {
        assert(is_part(v[i], item_count, thread_count, i));
        assert(is_part(v[i + 1], item_count, thread_count, i + 1));
        assert((i + 1) * b == i * b + b) by (nonlinear_arith);
    }
    assert forall|i: int, k: int| 0 <= i < k < v.len() implies #[trigger] v[i].start as int
        + v[i].count as int <= #[trigger] v[k].start as int by {
        assert(is_part(v[i], item_count, thread_count, i));
        assert(is_part(v[k], item_count, thread_count, k));
        assert(i * b + b <= k * b) by (nonlinear_arith)
            requires
                0 <= i < k,
                0 <= b,
        ;
    }
    assert forall|j: int| 0 <= j < item_count implies #[trigger] covered(v, j) by {
        if b == 0 {
            assert(v[t - 1].start <= j < v[t - 1].start as int + v[t - 1].count as int) by (
            nonlinear_arith)
                requires
                    b == 0,
                    v[t - 1].start as int == (t - 1) * b,
                    v[t - 1].count as int == b + rem,
                    b * t + rem == item_count,
                    0 <= j < item_count,
            ;
            assert(in_range(v[t - 1], j));
        } else {
            let q = j / b;
            vstd::arithmetic::div_mod::lemma_fundamental_div_mod(j, b);
            assert(0 <= q) by (nonlinear_arith)
                requires
                    q == j / b,
                    j >= 0,
                    b > 0,
            ;
            if q < t - 1 {
                assert(is_part(v[q], item_count, thread_count, q));
                assert(q * b <= j < q * b + b) by (nonlinear_arith)
                    requires
                        j == b * q + j % b,
                        0 <= j % b < b,
                ;
                assert(in_range(v[q], j));
            } else {
                assert((t - 1) * b <= j) by (nonlinear_arith)
                    requires
                        q >= t - 1,
                        j == b * q + j % b,
                        0 <= j % b,
                        b > 0,
                ;
                assert(in_range(v[t - 1], j));
            }
        }
    }
}

} // verus!
