use vstd::prelude::*;
use vstd::arithmetic::div_mod::{lemma_div_is_ordered, lemma_div_multiples_vanish};

use crate::error::ProfileError;

verus! {

/// Sum of `s[lo..hi]`.
pub open spec fn range_sum(s: Seq<i64>, lo: int, hi: int) -> int
    decreases hi - lo,
{
    if hi <= lo {
        0
    } else {
        range_sum(s, lo, hi - 1) + s[hi - 1]
    }
}

/// First index of the trailing window of size `w` that ends just before `end`.
pub open spec fn window_start(w: nat, end: int) -> int {
    if end > w {
        end - w
    } else {
        0
    }
}

/// The trailing mean at index `i`: the mean of `s[i]` and up to `w - 1`
/// samples before it, rounded down.
pub open spec fn trailing_mean(s: Seq<i64>, w: nat, i: int) -> int {
    let lo = window_start(w, i + 1);
    range_sum(s, lo, i + 1) / (i + 1 - lo)
}

/// `r` is `s` smoothed with a trailing window of size `w`.
pub open spec fn is_smoothing(r: Seq<i64>, s: Seq<i64>, w: nat) -> bool {
    &&& r.len() == s.len()
    &&& forall|i: int| 0 <= i < s.len() ==> r[i] == trailing_mean(s, w, i)
}

/// The mean of all of `s`, rounded down.
pub open spec fn mean(s: Seq<i64>) -> int {
    range_sum(s, 0, s.len() as int) / (s.len() as int)
}

proof fn lemma_range_sum_front(s: Seq<i64>, lo: int, hi: int)
    requires
        lo < hi,
    ensures
        range_sum(s, lo, hi) == s[lo] + range_sum(s, lo + 1, hi),
    decreases hi - lo,
{
    if lo + 1 < hi {
        lemma_range_sum_front(s, lo, hi - 1);
    } else {
        assert(range_sum(s, lo + 1, hi) == 0);
        assert(range_sum(s, lo, hi - 1) == 0);
    }
}

proof fn lemma_range_sum_bounds(s: Seq<i64>, lo: int, hi: int)
    requires
        0 <= lo <= hi <= s.len(),
    ensures
        (hi - lo) * (i64::MIN as int) <= range_sum(s, lo, hi) <= (hi - lo) * (i64::MAX as int),
    decreases hi - lo,
{
    if lo < hi {
        lemma_range_sum_bounds(s, lo, hi - 1);
        assert((hi - lo) * (i64::MIN as int) == (hi - 1 - lo) * (i64::MIN as int) + i64::MIN)
            by (nonlinear_arith);
        assert((hi - lo) * (i64::MAX as int) == (hi - 1 - lo) * (i64::MAX as int) + i64::MAX)
            by (nonlinear_arith);
    }
}

proof fn lemma_mean_in_range(sum: int, n: int)
    requires
        n > 0,
        n * (i64::MIN as int) <= sum <= n * (i64::MAX as int),
    ensures
        i64::MIN <= sum / n <= i64::MAX,
{
    lemma_div_is_ordered(n * (i64::MIN as int), sum, n);
    lemma_div_is_ordered(sum, n * (i64::MAX as int), n);
    lemma_div_multiples_vanish(i64::MIN as int, n);
    lemma_div_multiples_vanish(i64::MAX as int, n);
    assert(n * (i64::MIN as int) == (i64::MIN as int) * n) by (nonlinear_arith);
    assert(n * (i64::MAX as int) == (i64::MAX as int) * n) by (nonlinear_arith);
}

/// Trailing moving average of `data` over windows of `order` samples: output
/// `i` is the mean of `data[i]` and the up to `order - 1` samples before it,
/// kept as an exact running sum over the window.
pub fn lowpass_filter(data: &Vec<i64>, order: usize) -> (r: Vec<i64>)
    requires
        order >= 1,
    ensures
        is_smoothing(r@, data@, order as nat),
{
    let mut res: Vec<i64> = Vec::new();
    let mut accumulator: i128 = 0;
    let mut elems_count: usize = 0;
    let n = data.len();
    let mut i: usize = 0;
    while i < n
        invariant
            n == data.len(),
            order >= 1,
            i <= n,
            res.len() == i,
            forall|k: int| 0 <= k < i ==> res@[k] == trailing_mean(data@, order as nat, k),
            elems_count as int == i - window_start(order as nat, i as int),
            accumulator as int == range_sum(data@, window_start(order as nat, i as int), i as int),
        decreases n - i,
    {
        proof {
            lemma_range_sum_bounds(data@, window_start(order as nat, i as int), i as int);
        }
        if i >= order {
            proof {
                lemma_range_sum_front(data@, (i - order) as int, i as int);
                lemma_range_sum_bounds(data@, (i - order + 1) as int, i as int);
            }
            accumulator = accumulator - data[i - order] as i128;
            elems_count = elems_count - 1;
        }
        let ghost lo = window_start(order as nat, i + 1);
        proof {
            lemma_range_sum_bounds(data@, lo, i + 1);
            assert((i + 1 - lo) * (i64::MIN as int) >= (usize::MAX as int) * (i64::MIN as int))
                by (nonlinear_arith)
                requires
                    0 < i + 1 - lo <= usize::MAX,
            ;
            assert((i + 1 - lo) * (i64::MAX as int) <= (usize::MAX as int) * (i64::MAX as int))
                by (nonlinear_arith)
                requires
                    0 < i + 1 - lo <= usize::MAX,
            ;
        }
        elems_count = elems_count + 1;
        accumulator = accumulator + data[i] as i128;
        assert(accumulator as int == range_sum(data@, lo, i + 1));
        let q = accumulator.checked_div_euclid(elems_count as i128);
        proof {
            lemma_mean_in_range(accumulator as int, elems_count as int);
        }
        match q {
            Some(m) => {
                res.push(m as i64);
            },
            None => {
                assert(false);
            },
        }
        i = i + 1;
    }
    res
}

/// Smooths `data` with a trailing moving average over `window` samples;
/// a zero window is rejected.
pub fn smooth(data: &Vec<i64>, window: usize) -> (r: Result<Vec<i64>, ProfileError>)
    ensures
        window == 0 <==> r == Err::<Vec<i64>, ProfileError>(ProfileError::InvalidParameter),
        window >= 1 ==> r is Ok && is_smoothing(r->Ok_0@, data@, window as nat),
{
    if window == 0 {
        Err(ProfileError::InvalidParameter)
    } else {
        Ok(lowpass_filter(data, window))
    }
}

/// A window of one sample leaves every series unchanged.
pub proof fn lemma_unit_window_is_identity(d: Seq<i64>)
    ensures
        is_smoothing(d, d, 1),
{
    assert forall|i: int| 0 <= i < d.len() implies d[i] == trailing_mean(d, 1, i) by {
        assert(window_start(1, i + 1) == i);
        assert(range_sum(d, i, i) == 0);
        assert(range_sum(d, i, i + 1) == d[i]);
        assert(range_sum(d, i, i + 1) / 1 == d[i]);
    }
}

/// With a window at least as long as the series, the last smoothed value is
/// the mean of the whole series.
pub proof fn lemma_full_window_ends_at_mean(d: Seq<i64>, r: Seq<i64>, w: nat)
    requires
        d.len() > 0,
        w >= d.len(),
        is_smoothing(r, d, w),
    ensures
        r[r.len() - 1] == mean(d),
{
    assert(window_start(w, d.len() as int) == 0);
}

/// Smoothing keeps the length of the series, for every window size.
pub proof fn lemma_smoothing_keeps_length(d: Seq<i64>, r: Seq<i64>, w: nat)
    requires
        is_smoothing(r, d, w),
    ensures
        r.len() == d.len(),
{
}

} // verus!
