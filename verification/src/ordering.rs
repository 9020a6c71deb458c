use vstd::prelude::*;

verus! {

/// Row `i` comes before row `j` when it opens earlier, or opens at the same
/// time and stood earlier in the input.
pub open spec fn opens_before(times: Seq<i64>, i: int, j: int) -> bool {
    times[i] < times[j] || (times[i] == times[j] && i < j)
}

/// `order` lists every row index of `times` once, by open time, keeping the
/// input order among rows that open at the same time.
pub open spec fn is_time_order(times: Seq<i64>, order: Seq<usize>) -> bool {
    &&& order.len() == times.len()
    &&& forall|k: int| 0 <= k < order.len() ==> #[trigger] order[k] < times.len()
    &&& forall|a: int, b: int|
        0 <= a < b < order.len() ==> opens_before(times, #[trigger] order[a] as int, #[trigger] order[b] as int)
}

pub open spec fn is_nondecreasing(times: Seq<i64>) -> bool {
    forall|i: int, j: int| 0 <= i <= j < times.len() ==> times[i] <= times[j]
}

/// The row indices of `times` in stable order of open time: applying the
/// order to the rows sorts them by open time, and rows with equal open times
/// keep their input order.
pub fn sorted_order(times: &[i64]) -> (order: Vec<usize>)
    ensures
        is_time_order(times@, order@),
{
    let n = times.len();
    let mut order: Vec<usize> = Vec::new();
    let mut i: usize = 0;
    while i < n
        invariant
            i <= n,
            n == times@.len(),
            order@.len() == i,
            forall|k: int| 0 <= k < order@.len() ==> #[trigger] order@[k] < i,
            forall|a: int, b: int|
                0 <= a < b < order@.len() ==> opens_before(times@, #[trigger] order@[a] as int, #[trigger] order@[b] as int),
        decreases n - i,
    {
        let t = times[i];
        let mut pos: usize = order.len();
        while pos > 0 && times[order[pos - 1]] > t
            invariant
                pos <= order@.len(),
                order@.len() == i,
                i < n,
                n == times@.len(),
                t == times@[i as int],
                forall|k: int| 0 <= k < order@.len() ==> #[trigger] order@[k] < i,
                forall|k: int| pos <= k < order@.len() ==> times@[#[trigger] order@[k] as int] > t,
            decreases pos,
        {
            pos = pos - 1;
        }
        proof {
            // every row placed before `pos` opens no later than row `i`
            assert forall|k: int| 0 <= k < pos implies times@[#[trigger] order@[k] as int] <= t by {
                if k < pos - 1 {
                    assert(opens_before(times@, order@[k] as int, order@[pos - 1] as int));
                }
            }
        }
        let ghost old_order = order@;
        order.insert(pos, i);
        proof {
            assert forall|k: int| 0 <= k < order@.len() implies #[trigger] order@[k] < i + 1 by {
                if k < pos {
                    assert(order@[k] == old_order[k]);
                } else if k > pos {
                    assert(order@[k] == old_order[k - 1]);
                }
            }
            assert forall|a: int, b: int| 0 <= a < b < order@.len() implies opens_before(
                times@,
                #[trigger] order@[a] as int,
                #[trigger] order@[b] as int,
            ) by {
                if b < pos {
                    assert(order@[a] == old_order[a] && order@[b] == old_order[b]);
                } else if b == pos {
                    assert(order@[a] == old_order[a]);
                } else if a < pos {
                    assert(order@[a] == old_order[a] && order@[b] == old_order[b - 1]);
                    assert(times@[old_order[b - 1] as int] > t);
                } else if a == pos {
                    assert(order@[b] == old_order[b - 1]);
                    assert(times@[old_order[b - 1] as int] > t);
                } else {
                    assert(order@[a] == old_order[a - 1] && order@[b] == old_order[b - 1]);
                }
            }
        }
        i = i + 1;
    }
    order
}

/// Start of the rows kept when only the latest `limit` rows of `len` rows
/// are analysed: all rows are kept when there is no limit or no more rows
/// than the limit.
pub fn latest_rows_start(len: usize, limit: Option<usize>) -> (start: usize)
    ensures
        start == (match limit {
            Some(l) => if len > l {
                (len - l) as int
            } else {
                0
            },
            None => 0,
        }),
{
    match limit {
        Some(l) => if len > l {
            len - l
        } else {
            0
        },
        None => 0,
    }
}

proof fn lemma_increasing_is_identity(order: Seq<usize>, n: nat)
    requires
        order.len() == n,
        forall|k: int| 0 <= k < n ==> #[trigger] order[k] < n,
        forall|a: int, b: int| 0 <= a < b < n ==> #[trigger] order[a] < #[trigger] order[b],
    ensures
        forall|k: int| 0 <= k < n ==> #[trigger] order[k] == k,
{
    assert forall|k: int| 0 <= k < n implies #[trigger] order[k] >= k by {
        lemma_at_least_index(order, n, k);
    }
    assert forall|k: int| 0 <= k < n implies #[trigger] order[k] <= k by {
        lemma_at_most_index(order, n, k);
    }
}

proof fn lemma_at_least_index(order: Seq<usize>, n: nat, k: int)
    requires
        order.len() == n,
        0 <= k < n,
        forall|a: int, b: int| 0 <= a < b < n ==> #[trigger] order[a] < #[trigger] order[b],
    ensures
        order[k] >= k,
    decreases k,
{
    if k > 0 {
        lemma_at_least_index(order, n, k - 1);
        assert(order[k - 1] < order[k]);
    }
}

proof fn lemma_at_most_index(order: Seq<usize>, n: nat, k: int)
    requires
        order.len() == n,
        0 <= k < n,
        forall|k: int| 0 <= k < n ==> #[trigger] order[k] < n,
        forall|a: int, b: int| 0 <= a < b < n ==> #[trigger] order[a] < #[trigger] order[b],
    ensures
        order[k] <= k,
    decreases n - k,
{
    if k < n - 1 {
        lemma_at_most_index(order, n, k + 1);
        assert(order[k] < order[k + 1]);
    }
}

/// Rows that already come in order of open time keep their order: the only
/// time order of non-decreasing open times is the identity, so sorting an
/// already sorted input changes nothing.
pub proof fn lemma_sorted_input_keeps_order(times: Seq<i64>, order: Seq<usize>)
    requires
        is_nondecreasing(times),
        is_time_order(times, order),
    ensures
        forall|k: int| 0 <= k < order.len() ==> #[trigger] order[k] == k,
{
    assert forall|a: int, b: int| 0 <= a < b < order.len() implies #[trigger] order[a] < #[trigger] order[b] by {
        let i = order[a] as int;
        let j = order[b] as int;
        assert(opens_before(times, i, j));
        if j <= i {
            assert(times[j] <= times[i]);
        }
    }
    lemma_increasing_is_identity(order, times.len());
}

/// Applying a time order to the rows sorts their open times.
pub proof fn lemma_time_order_sorts(times: Seq<i64>, order: Seq<usize>)
    requires
        is_time_order(times, order),
    ensures
        forall|a: int, b: int|
            0 <= a <= b < order.len() ==> times[#[trigger] order[a] as int] <= times[#[trigger] order[b] as int],
{
    assert forall|a: int, b: int| 0 <= a <= b < order.len() implies times[#[trigger] order[a] as int]
        <= times[#[trigger] order[b] as int] by {
        if a < b {
            assert(opens_before(times, order[a] as int, order[b] as int));
        }
    }
}

/// A time order lists every row exactly once.
pub proof fn lemma_time_order_is_permutation(times: Seq<i64>, order: Seq<usize>)
    requires
        is_time_order(times, order),
        times.len() <= usize::MAX,
    ensures
        forall|a: int, b: int| 0 <= a < b < order.len() ==> #[trigger] order[a] != #[trigger] order[b],
        forall|r: usize| r < times.len() ==> #[trigger] order.contains(r),
{
    assert forall|a: int, b: int| 0 <= a < b < order.len() implies #[trigger] order[a] != #[trigger] order[b] by {
        assert(opens_before(times, order[a] as int, order[b] as int));
    }
    assert forall|r: usize| r < times.len() implies #[trigger] order.contains(r) by {
        lemma_covers(times, order, r);
    }
}

proof fn lemma_covers(times: Seq<i64>, order: Seq<usize>, r: usize)
    requires
        is_time_order(times, order),
        times.len() <= usize::MAX,
        r < times.len(),
    ensures
        order.contains(r),
{
    // the distinct entries of `order` form a set of `n` indices below `n`
    let n = order.len();
    let s = order.to_set();
    assert forall|a: int, b: int| 0 <= a < b < order.len() implies #[trigger] order[a] != #[trigger] order[b] by {
        assert(opens_before(times, order[a] as int, order[b] as int));
    }
    assert(order.no_duplicates());
    order.unique_seq_to_set();
    let full = Set::new(|x: usize| x < n);
    assert(s.subset_of(full));
    lemma_usize_range_len(n);
    vstd::set_lib::lemma_len_subset(s, full);
    vstd::set_lib::lemma_subset_equality(s, full);
    assert(full.contains(r));
    assert(s.contains(r));
}

proof fn lemma_usize_range_len(n: nat)
    requires
        n <= usize::MAX + 1,
    ensures
        Set::new(|x: usize| x < n).finite(),
        Set::new(|x: usize| x < n).len() == n,
    decreases n,
{
    if n == 0 {
        assert(Set::new(|x: usize| x < n) =~= Set::<usize>::empty());
    } else {
        lemma_usize_range_len((n - 1) as nat);
        assert(Set::new(|x: usize| x < n) =~= Set::new(|x: usize| x < (n - 1) as nat).insert((n - 1) as usize));
    }
}

/// In a time order, every earlier entry opens strictly earlier, or at the
/// same time with a smaller input index: equal open times keep input order.
pub proof fn lemma_time_order_is_stable(times: Seq<i64>, order: Seq<usize>)
    requires
        is_time_order(times, order),
    ensures
        order.len() == times.len(),
        forall|a: int, b: int|
            0 <= a < b < order.len() ==> times[#[trigger] order[a] as int] < times[#[trigger] order[b] as int]
                || (times[order[a] as int] == times[order[b] as int] && order[a] < order[b]),
{
    assert forall|a: int, b: int| 0 <= a < b < order.len() implies times[#[trigger] order[a] as int]
        < times[#[trigger] order[b] as int] || (times[order[a] as int] == times[order[b] as int]
        && order[a] < order[b]) by {
        assert(opens_before(times, order[a] as int, order[b] as int));
    }
}

} // verus!
