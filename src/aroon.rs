//! The extreme-recency (Aroon) indicator.
//!
//! Prices enter as `i64` keys whose order is the order of the prices; the
//! kernel only compares them. For each position `i` from `timeperiod` on,
//! the window is `i - timeperiod ..= i`, and the kernel measures how many
//! samples ago the window's highest high and lowest low occurred, the most
//! recent occurrence winning a tie.
use vstd::prelude::*;
use crate::packing::pack;
use crate::params::{aroon_lookback_of, ArronKwargs, IndicatorError};

verus! {

/// Index of the most recent highest value of `s` over positions `lo..=hi`.
pub open spec fn latest_max(s: Seq<i64>, lo: int, hi: int) -> int
    decreases hi - lo,
{
    if hi <= lo {
        lo
    } else {
        let j = latest_max(s, lo, hi - 1);
        if s[hi] >= s[j] {
            hi
        } else {
            j
        }
    }
}

/// Index of the most recent lowest value of `s` over positions `lo..=hi`.
pub open spec fn latest_min(s: Seq<i64>, lo: int, hi: int) -> int
    decreases hi - lo,
{
    if hi <= lo {
        lo
    } else {
        let j = latest_min(s, lo, hi - 1);
        if s[hi] <= s[j] {
            hi
        } else {
            j
        }
    }
}

/// Samples since the highest high of the window that ends at `i`.
pub open spec fn days_since_high(high: Seq<i64>, timeperiod: int, i: int) -> int {
    i - latest_max(high, i - timeperiod, i)
}

/// Samples since the lowest low of the window that ends at `i`.
pub open spec fn days_since_low(low: Seq<i64>, timeperiod: int, i: int) -> int {
    i - latest_min(low, i - timeperiod, i)
}

/// An Aroon value multiplied by `timeperiod`: the value itself is
/// `100 * (timeperiod - days) / timeperiod`.
pub open spec fn aroon_score(timeperiod: int, days: int) -> int {
    100 * (timeperiod - days)
}

/// The aligned up column: undefined over the warm-up, then the score of
/// the samples since each window's highest high.
pub open spec fn aroon_up_column(high: Seq<i64>, timeperiod: int) -> Seq<Option<u64>> {
    Seq::new(
        high.len(),
        |i: int|
            if i < timeperiod {
                None
            } else {
                Some(aroon_score(timeperiod, days_since_high(high, timeperiod, i)) as u64)
            },
    )
}

/// The aligned down column: undefined over the warm-up, then the score of
/// the samples since each window's lowest low.
pub open spec fn aroon_down_column(low: Seq<i64>, timeperiod: int) -> Seq<Option<u64>> {
    Seq::new(
        low.len(),
        |i: int|
            if i < timeperiod {
                None
            } else {
                Some(aroon_score(timeperiod, days_since_low(low, timeperiod, i)) as u64)
            },
    )
}

proof fn lemma_latest_max_bounds(s: Seq<i64>, lo: int, hi: int)
    requires
        lo <= hi,
    ensures
        lo <= latest_max(s, lo, hi) <= hi,
    decreases hi - lo,
{
    if hi > lo {
        lemma_latest_max_bounds(s, lo, hi - 1);
    }
}

proof fn lemma_latest_min_bounds(s: Seq<i64>, lo: int, hi: int)
    requires
        lo <= hi,
    ensures
        lo <= latest_min(s, lo, hi) <= hi,
    decreases hi - lo,
{
    if hi > lo {
        lemma_latest_min_bounds(s, lo, hi - 1);
    }
}

/// The chosen index holds the window's highest value, and every later
/// position of the window holds a strictly lower one: among positions that
/// tie for the maximum, the most recent is chosen.
pub proof fn lemma_latest_max_is_most_recent(s: Seq<i64>, lo: int, hi: int)
    requires
        0 <= lo <= hi < s.len(),
    ensures
        lo <= latest_max(s, lo, hi) <= hi,
        forall|m: int| lo <= m <= hi ==> #[trigger] s[m] <= s[latest_max(s, lo, hi)],
        forall|m: int| latest_max(s, lo, hi) < m <= hi ==> #[trigger] s[m] < s[latest_max(s, lo, hi)],
    decreases hi - lo,
{
    lemma_latest_max_bounds(s, lo, hi);
    if hi > lo {
        lemma_latest_max_is_most_recent(s, lo, hi - 1);
    }
}

/// The chosen index holds the window's lowest value, and every later
/// position of the window holds a strictly higher one: among positions
/// that tie for the minimum, the most recent is chosen.
pub proof fn lemma_latest_min_is_most_recent(s: Seq<i64>, lo: int, hi: int)
    requires
        0 <= lo <= hi < s.len(),
    ensures
        lo <= latest_min(s, lo, hi) <= hi,
        forall|m: int| lo <= m <= hi ==> s[latest_min(s, lo, hi)] <= #[trigger] s[m],
        forall|m: int| latest_min(s, lo, hi) < m <= hi ==> s[latest_min(s, lo, hi)] < #[trigger] s[m],
    decreases hi - lo,
{
    lemma_latest_min_bounds(s, lo, hi);
    if hi > lo {
        lemma_latest_min_is_most_recent(s, lo, hi - 1);
    }
}

/// Most recent index of the highest value of `s` over `lo..=hi`.
fn latest_max_index(s: &Vec<i64>, lo: usize, hi: usize) -> (r: usize)
    requires
        lo <= hi < s.len(),
    ensures
        r == latest_max(s@, lo as int, hi as int),
{
    let mut best: usize = lo;
    let mut m: usize = lo;
    while m < hi
        invariant
            lo <= best <= m <= hi < s.len(),
            best == latest_max(s@, lo as int, m as int),
        decreases hi - m,
    {
        m = m + 1;
        if s[m] >= s[best] {
            best = m;
        }
    }
    best
}

/// Most recent index of the lowest value of `s` over `lo..=hi`.
fn latest_min_index(s: &Vec<i64>, lo: usize, hi: usize) -> (r: usize)
    requires
        lo <= hi < s.len(),
    ensures
        r == latest_min(s@, lo as int, hi as int),
{
    let mut best: usize = lo;
    let mut m: usize = lo;
    while m < hi
        invariant
            lo <= best <= m <= hi < s.len(),
            best == latest_min(s@, lo as int, m as int),
        decreases hi - m,
    {
        m = m + 1;
        if s[m] <= s[best] {
            best = m;
        }
    }
    best
}

/// Samples since the lowest low and since the highest high of one window.
#[derive(Debug, Clone, Copy, PartialEq, Eq, Structural)]
pub struct AroonRecency {
    pub days_since_low: usize,
    pub days_since_high: usize,
}

/// The aligned Aroon columns, in their declared field order. Each defined
/// entry is an Aroon value multiplied by `denominator` (the `timeperiod`),
/// so that it stays exact; `None` marks an undefined position.
#[derive(Debug, PartialEq, Eq)]
pub struct AroonOutput {
    pub aroondown: Vec<Option<u64>>,
    pub aroonup: Vec<Option<u64>>,
    pub denominator: u64,
}

/// Runs the kernel over every full window: entry `k` describes the window
/// that ends at position `k + timeperiod`. A series no longer than
/// `timeperiod` has no full window and gives nothing.
pub fn aroon_kernel(high: &Vec<i64>, low: &Vec<i64>, timeperiod: usize) -> (out: Vec<AroonRecency>)
    requires
        high.len() == low.len(),
        timeperiod >= 1,
    ensures
        out.len() == if high.len() > timeperiod { high.len() - timeperiod } else { 0 },
        forall|k: int|
            0 <= k < out.len() ==> {
                &&& out@[k].days_since_high == days_since_high(high@, timeperiod as int, k + timeperiod)
                &&& out@[k].days_since_low == days_since_low(low@, timeperiod as int, k + timeperiod)
            },
{
    let n = high.len();
    let mut out: Vec<AroonRecency> = Vec::new();
    if n > timeperiod {
        let mut i: usize = timeperiod;
        while i < n
            invariant
                timeperiod <= i <= n,
                n == high.len(),
                n == low.len(),
                out.len() == i - timeperiod,
                forall|k: int|
                    0 <= k < out.len() ==> {
                        &&& out@[k].days_since_high == days_since_high(high@, timeperiod as int, k + timeperiod)
                        &&& out@[k].days_since_low == days_since_low(low@, timeperiod as int, k + timeperiod)
                    },
            decreases n - i,
        {
            let h = latest_max_index(high, i - timeperiod, i);
            let l = latest_min_index(low, i - timeperiod, i);
            proof {
                lemma_latest_max_bounds(high@, (i - timeperiod) as int, i as int);
                lemma_latest_min_bounds(low@, (i - timeperiod) as int, i as int);
            }
            out.push(AroonRecency { days_since_low: i - l, days_since_high: i - h });
            i = i + 1;
        }
    }
    out
}

/// Evaluates the extreme-recency indicator over aligned high and low
/// columns: a configuration error when `timeperiod` is not positive, else
/// both columns, of the input length, undefined over the warm-up.
pub fn aroon_columns(high: &Vec<i64>, low: &Vec<i64>, kwargs: &ArronKwargs) -> (r: Result<AroonOutput, IndicatorError>)
    requires
        high.len() == low.len(),
    ensures
        !kwargs.valid() ==> r == Err::<AroonOutput, IndicatorError>(
            IndicatorError::Configuration { timeperiod: kwargs.timeperiod },
        ),
        kwargs.valid() ==> r is Ok,
        r is Ok ==> {
            &&& r->Ok_0.denominator == kwargs.timeperiod
            &&& r->Ok_0.aroondown@ == aroon_down_column(low@, kwargs.timeperiod as int)
            &&& r->Ok_0.aroonup@ == aroon_up_column(high@, kwargs.timeperiod as int)
        },
{
    let lookback = match kwargs.lookback() {
        Ok(l) => l,
        Err(e) => {
            return Err(e);
        },
    };
    let tp = lookback;
    let ghost t = tp as int;
    let n = high.len();
    let recency = aroon_kernel(high, low, tp);
    let mut down_raw: Vec<u64> = Vec::new();
    let mut up_raw: Vec<u64> = Vec::new();
    let mut k: usize = 0;
    while k < recency.len()
        invariant
            t == tp,
            1 <= tp <= i32::MAX,
            k <= recency.len(),
            recency.len() == if n > tp { n - tp } else { 0 },
            n == high.len(),
            n == low.len(),
            forall|j: int|
                0 <= j < recency.len() ==> {
                    &&& recency@[j].days_since_high == days_since_high(high@, t, j + t)
                    &&& recency@[j].days_since_low == days_since_low(low@, t, j + t)
                },
            down_raw.len() == k,
            up_raw.len() == k,
            forall|j: int|
                0 <= j < k ==> {
                    &&& down_raw@[j] == aroon_score(t, days_since_low(low@, t, j + t)) as u64
                    &&& up_raw@[j] == aroon_score(t, days_since_high(high@, t, j + t)) as u64
                },
        decreases recency.len() - k,
    {
        let rec = recency[k];
        proof {
            lemma_latest_max_bounds(high@, k as int, k + t);
            lemma_latest_min_bounds(low@, k as int, k + t);
        }
        down_raw.push(100 * ((tp - rec.days_since_low) as u64));
        up_raw.push(100 * ((tp - rec.days_since_high) as u64));
        k = k + 1;
    }
    let aroondown = pack(&down_raw, tp, n);
    let aroonup = pack(&up_raw, tp, n);
    assert(aroondown@ =~= aroon_down_column(low@, t));
    assert(aroonup@ =~= aroon_up_column(high@, t));
    Ok(AroonOutput { aroondown, aroonup, denominator: tp as u64 })
}

/// Every defined Aroon value lies in `[0, 100]`: its score, the value
/// multiplied by `timeperiod`, lies in `[0, 100 * timeperiod]`.
pub proof fn lemma_aroon_values_bounded(high: Seq<i64>, low: Seq<i64>, timeperiod: int)
    requires
        timeperiod >= 1,
        high.len() == low.len(),
    ensures
        forall|i: int|
            timeperiod <= i < high.len() ==> 0 <= aroon_score(
                timeperiod,
                #[trigger] days_since_high(high, timeperiod, i),
            ) <= 100 * timeperiod,
        forall|i: int|
            timeperiod <= i < low.len() ==> 0 <= aroon_score(
                timeperiod,
                #[trigger] days_since_low(low, timeperiod, i),
            ) <= 100 * timeperiod,
{
    assert forall|i: int| timeperiod <= i < high.len() implies 0 <= aroon_score(
        timeperiod,
        #[trigger] days_since_high(high, timeperiod, i),
    ) <= 100 * timeperiod by {
        lemma_latest_max_bounds(high, i - timeperiod, i);
    }
    assert forall|i: int| timeperiod <= i < low.len() implies 0 <= aroon_score(
        timeperiod,
        #[trigger] days_since_low(low, timeperiod, i),
    ) <= 100 * timeperiod by {
        lemma_latest_min_bounds(low, i - timeperiod, i);
    }
}

/// On a strictly rising high series every defined up value is 100: its
/// score is `100 * timeperiod`.
pub proof fn lemma_rising_high_gives_full_up(high: Seq<i64>, timeperiod: int)
    requires
        timeperiod >= 1,
        forall|a: int, b: int| 0 <= a < b < high.len() ==> high[a] < high[b],
    ensures
        forall|i: int|
            timeperiod <= i < high.len() ==> aroon_up_column(high, timeperiod)[i] == Some(
                (100 * timeperiod) as u64,
            ),
{
    assert forall|i: int| timeperiod <= i < high.len() implies aroon_up_column(high, timeperiod)[i]
        == Some((100 * timeperiod) as u64) by {
        lemma_latest_max_bounds(high, i - timeperiod, i - 1);
        assert(latest_max(high, i - timeperiod, i) == i);
    }
}

/// When exactly two positions of a window share its highest high, the
/// samples since the high are counted from the more recent of the two.
pub proof fn lemma_high_tie_goes_to_most_recent(high: Seq<i64>, timeperiod: int, i: int, a: int, b: int)
    requires
        1 <= timeperiod <= i < high.len(),
        i - timeperiod <= a < b <= i,
        high[a] == high[b],
        forall|m: int| i - timeperiod <= m <= i && m != a && m != b ==> high[m] < high[b],
    ensures
        days_since_high(high, timeperiod, i) == i - b,
{
    lemma_latest_max_is_most_recent(high, i - timeperiod, i);
    let j = latest_max(high, i - timeperiod, i);
    assert(high[b] <= high[j]);
    if j < b {
        assert(high[b] < high[j]);
    }
}

/// When exactly two positions of a window share its lowest low, the
/// samples since the low are counted from the more recent of the two.
pub proof fn lemma_low_tie_goes_to_most_recent(low: Seq<i64>, timeperiod: int, i: int, a: int, b: int)
    requires
        1 <= timeperiod <= i < low.len(),
        i - timeperiod <= a < b <= i,
        low[a] == low[b],
        forall|m: int| i - timeperiod <= m <= i && m != a && m != b ==> low[b] < low[m],
    ensures
        days_since_low(low, timeperiod, i) == i - b,
{
    lemma_latest_min_is_most_recent(low, i - timeperiod, i);
    let j = latest_min(low, i - timeperiod, i);
    assert(low[j] <= low[b]);
    if j < b {
        assert(low[j] < low[b]);
    }
}

/// Both Aroon columns have the input length; positions before the lookback
/// are undefined and every later one holds a value; an input no longer
/// than the lookback gives columns that are undefined throughout.
pub proof fn lemma_aroon_columns_shape(high: Seq<i64>, low: Seq<i64>, timeperiod: int)
    requires
        timeperiod >= 1,
        high.len() == low.len(),
    ensures
        aroon_up_column(high, timeperiod).len() == high.len(),
        aroon_down_column(low, timeperiod).len() == low.len(),
        forall|i: int|
            0 <= i < high.len() ==> (#[trigger] aroon_up_column(high, timeperiod)[i] is None <==> i
                < aroon_lookback_of(timeperiod)),
        forall|i: int|
            0 <= i < low.len() ==> (#[trigger] aroon_down_column(low, timeperiod)[i] is None <==> i
                < aroon_lookback_of(timeperiod)),
        high.len() <= aroon_lookback_of(timeperiod) ==> forall|i: int|
            0 <= i < high.len() ==> {
                &&& aroon_up_column(high, timeperiod)[i] is None
                &&& aroon_down_column(low, timeperiod)[i] is None
            },
{
}

} // verus!
