//! Sliding-window statistics over a day-keyed series.

use crate::event::DayKey;
use crate::plotly::Ratio;
use vstd::prelude::*;

verus! {

/// What is known of a run of values: how many, their sum, the least and the greatest.
pub struct Summary {
    pub count: int,
    pub sum: Option<int>,
    pub min: Option<int>,
    pub max: Option<int>,
}

impl Summary {
    /// The summary of no values at all.
    pub open spec fn empty() -> Summary {
        Summary { count: 0, sum: None, min: None, max: None }
    }

    /// The summary after one more value.
    pub open spec fn record(self, x: int) -> Summary {
        Summary {
            count: self.count + 1,
            sum: Some(
                match self.sum {
                    Some(s) => s + x,
                    None => x,
                },
            ),
            min: match self.min {
                Some(m) => if x < m {
                    Some(x)
                } else {
                    Some(m)
                },
                None => Some(x),
            },
            max: match self.max {
                Some(m) => if x > m {
                    Some(x)
                } else {
                    Some(m)
                },
                None => Some(x),
            },
        }
    }

    /// The summary of `values`, recorded one after another.
    pub open spec fn of(values: Seq<i64>) -> Summary
        decreases values.len(),
    {
        if values.len() == 0 {
            Summary::empty()
        } else {
            Summary::of(values.drop_last()).record(values.last() as int)
        }
    }

    /// The mean lies between the least and the greatest: with `count` values,
    /// `count * min <= sum <= count * max`.
    pub open spec fn mean_between_extremes(self) -> bool {
        &&& self.sum is Some
        &&& self.min is Some
        &&& self.max is Some
        &&& self.min->Some_0 <= self.max->Some_0
        &&& self.count * self.min->Some_0 <= self.sum->Some_0 <= self.count * self.max->Some_0
    }

    /// The summary fits the machine integers of [`MinMeanMax`].
    pub open spec fn representable(self) -> bool {
        &&& 0 <= self.count <= u64::MAX
        &&& match self.sum {
            Some(s) => i128::MIN <= s <= i128::MAX,
            None => true,
        }
        &&& match self.min {
            Some(m) => i64::MIN <= m <= i64::MAX,
            None => true,
        }
        &&& match self.max {
            Some(m) => i64::MIN <= m <= i64::MAX,
            None => true,
        }
    }
}

/// The sum of `values`.
pub open spec fn total(values: Seq<i64>) -> int
    decreases values.len(),
{
    if values.len() == 0 {
        0
    } else {
        total(values.drop_last()) + values.last()
    }
}

/// A summary counts its values; of no values it knows nothing more, and of
/// some it knows their sum, a least and a greatest among them.
pub proof fn lemma_summary_meaning(values: Seq<i64>)
    ensures
        Summary::of(values).count == values.len(),
        values.len() == 0 ==> Summary::of(values) == Summary::empty(),
        values.len() > 0 ==> {
            let s = Summary::of(values);
            &&& s.sum == Some(total(values))
            &&& s.min is Some
            &&& s.max is Some
            &&& forall|k: int| 0 <= k < values.len() ==> s.min->Some_0 <= #[trigger] values[k] <= s.max->Some_0
            &&& exists|k: int| 0 <= k < values.len() && #[trigger] values[k] == s.min->Some_0
            &&& exists|k: int| 0 <= k < values.len() && #[trigger] values[k] == s.max->Some_0
        },
    decreases values.len(),
{
    if values.len() > 0 {
        let shorter = values.drop_last();
        let last = values.last();
        let s = Summary::of(values);
        lemma_summary_meaning(shorter);
        if shorter.len() == 0 {
            assert(total(shorter) == 0);
            assert(values[0] == last);
        } else {
            let t = Summary::of(shorter);
            assert forall|k: int| 0 <= k < values.len() implies s.min->Some_0 <= #[trigger] values[k]
                <= s.max->Some_0 by {
                if k < shorter.len() {
                    assert(values[k] == shorter[k]);
                }
            }
            let kmin = choose|k: int| 0 <= k < shorter.len() && #[trigger] shorter[k] == t.min->Some_0;
            let kmax = choose|k: int| 0 <= k < shorter.len() && #[trigger] shorter[k] == t.max->Some_0;
            assert(values[kmin] == shorter[kmin]);
            assert(values[kmax] == shorter[kmax]);
            assert(values[values.len() - 1] == last);
        }
    }
}

/// The mean of some values lies between the least and the greatest of them:
/// with `n` values, `n * min <= sum <= n * max`.
pub proof fn lemma_mean_between_extremes(values: Seq<i64>)
    requires
        values.len() > 0,
    ensures
        Summary::of(values).mean_between_extremes(),
    decreases values.len(),
{
    let shorter = values.drop_last();
    let x = values.last() as int;
    let s = Summary::of(values);
    let t = Summary::of(shorter);
    assert(s == t.record(x));
    lemma_summary_meaning(shorter);
    if shorter.len() == 0 {
        assert(t == Summary::empty());
        assert(s.count == 1 && s.sum == Some(x) && s.min == Some(x) && s.max == Some(x));
    } else {
        lemma_mean_between_extremes(shorter);
        let n = t.count;
        let (lo, hi, sum) = (t.min->Some_0, t.max->Some_0, t.sum->Some_0);
        let lo2 = if x < lo { x } else { lo };
        let hi2 = if x > hi { x } else { hi };
        assert(s.count == n + 1 && s.sum == Some(sum + x) && s.min == Some(lo2) && s.max == Some(hi2));
        assert((n + 1) * lo2 <= sum + x) by (nonlinear_arith)
            requires
                n >= 0,
                lo2 <= lo,
                lo2 <= x,
                n * lo <= sum,
        ;
        assert(sum + x <= (n + 1) * hi2) by (nonlinear_arith)
            requires
                n >= 0,
                hi2 >= hi,
                hi2 >= x,
                sum <= n * hi,
        ;
    }
}

/// The sum of `n` values is within `n` times the largest magnitude of one.
pub proof fn lemma_total_bounded(values: Seq<i64>)
    ensures
        -values.len() * 0x8000_0000_0000_0000 <= total(values) <= values.len() * 0x8000_0000_0000_0000,
    decreases values.len(),
{
    if values.len() > 0 {
        lemma_total_bounded(values.drop_last());
    }
}

/// A running minimum, mean and maximum.
#[derive(Clone, Copy, Debug, PartialEq, Eq)]
pub struct MinMeanMax {
    pub ct: u64,
    pub sm: Option<i128>,
    pub mn: Option<i64>,
    pub mx: Option<i64>,
}

impl View for MinMeanMax {
    type V = Summary;

    open spec fn view(&self) -> Summary {
        Summary {
            count: self.ct as int,
            sum: match self.sm {
                Some(s) => Some(s as int),
                None => None,
            },
            min: match self.mn {
                Some(m) => Some(m as int),
                None => None,
            },
            max: match self.mx {
                Some(m) => Some(m as int),
                None => None,
            },
        }
    }
}

impl MinMeanMax {
    /// Nothing recorded yet.
    pub fn new() -> (s: MinMeanMax)
        ensures
            s@ == Summary::empty(),
    {
        MinMeanMax { ct: 0, sm: None, mn: None, mx: None }
    }

    /// Records one more value.
    pub fn record(&mut self, x: i64)
        requires
            old(self)@.record(x as int).representable(),
        ensures
            final(self)@ == old(self)@.record(x as int),
    {
        self.ct = self.ct + 1;
        let wide: i128 = x as i128;
        self.sm = match self.sm {
            Some(s) => Some(s + wide),
            None => Some(wide),
        };
        self.mn = match self.mn {
            Some(m) => if x < m {
                Some(x)
            } else {
                Some(m)
            },
            None => Some(x),
        };
        self.mx = match self.mx {
            Some(m) => if x > m {
                Some(x)
            } else {
                Some(m)
            },
            None => Some(x),
        };
    }

    /// The mean of what was recorded, as the sum over the count; `None` where
    /// nothing was.
    pub fn mean(&self) -> (r: Option<Ratio>)
        ensures
            r == match self.sm {
                Some(sum) => Some(Ratio { num: sum, den: self.ct as u128 }),
                None => None,
            },
    {
        if let Some(sum) = self.sm {
            Some(Ratio { num: sum, den: self.ct as u128 })
        } else {
            None
        }
    }

    /// The greatest value recorded.
    pub fn max(&self) -> (r: Option<i64>)
        ensures
            r == self.mx,
    {
        self.mx
    }

    /// The least value recorded.
    pub fn min(&self) -> (r: Option<i64>)
        ensures
            r == self.mn,
    {
        self.mn
    }
}

/// The `n` values of `series` from position `start` on.
pub open spec fn window_values(series: Seq<(DayKey, i64)>, start: int, n: int) -> Seq<i64> {
    Seq::new(n as nat, |k: int| series[start + k].1)
}

/// Each entry's day is later than the one before it.
pub open spec fn days_ascend<T>(series: Seq<(DayKey, T)>) -> bool {
    forall|i: int, j: int|
        0 <= i < j < series.len() ==> (#[trigger] series[i]).0 < (#[trigger] series[j]).0
}

/// How many windows of `n` entries a series of `len` entries has.
pub open spec fn window_count(len: int, n: int) -> int {
    if len >= n {
        len - n + 1
    } else {
        0
    }
}

/// Computes the statistics of every run of `window` consecutive entries of
/// `series`, each filed under the day of the run's last entry.
///
/// Windows run over positions in the series, not over calendar days. A
/// series shorter than the window gives nothing; no partial window is made.
/// In every window the mean lies between the least and the greatest value,
/// and where the series' days ascend, so do the days that come out.
pub fn rolling_stats(series: &[(DayKey, i64)], window: usize) -> (out: Vec<(DayKey, MinMeanMax)>)
    requires
        window > 0,
    ensures
        out@.len() == window_count(series@.len() as int, window as int),
        forall|i: int|
            0 <= i < out@.len() ==> {
                &&& (#[trigger] out@[i]).0 == series@[i + window - 1].0
                &&& out@[i].1@ == Summary::of(window_values(series@, i, window as int))
                &&& out@[i].1@.count == window
                &&& out@[i].1@.mean_between_extremes()
            },
        days_ascend(series@) ==> days_ascend(out@),
{
    let mut out: Vec<(DayKey, MinMeanMax)> = Vec::new();
    if series.len() < window {
        assert(days_ascend(out@));
        return out;
    }
    let last_start: usize = series.len() - window;
    let mut start: usize = 0;
    while start <= last_start
        invariant
            window > 0,
            last_start + window == series@.len(),
            series@.len() <= usize::MAX,
            start <= last_start + 1,
            out@.len() == start,
            forall|i: int|
                0 <= i < out@.len() ==> {
                    &&& (#[trigger] out@[i]).0 == series@[i + window - 1].0
                    &&& out@[i].1@ == Summary::of(window_values(series@, i, window as int))
                    &&& out@[i].1@.count == window
                    &&& out@[i].1@.mean_between_extremes()
                },
        decreases last_start + 1 - start,
    {
        let mut stat = MinMeanMax::new();
        let mut k: usize = 0;
        proof {
            assert(window_values(series@, start as int, 0) =~= Seq::<i64>::empty());
        }
        while k < window
            invariant
                k <= window,
                start + window <= series@.len(),
                series@.len() <= usize::MAX,
                stat@ == Summary::of(window_values(series@, start as int, k as int)),
            decreases window - k,
        {
            let x: i64 = series[start + k].1;
            proof {
                let sofar = window_values(series@, start as int, k as int);
                let next = window_values(series@, start as int, k + 1);
                assert(next.drop_last() =~= sofar);
                assert(next.last() == x);
                lemma_summary_meaning(sofar);
                lemma_summary_meaning(next);
                lemma_total_bounded(next);
            }
            stat.record(x);
            k += 1;
        }
        proof {
            let values = window_values(series@, start as int, window as int);
            lemma_summary_meaning(values);
            lemma_mean_between_extremes(values);
        }
        out.push((series[start + window - 1].0, stat));
        start += 1;
    }
    proof {
        if days_ascend(series@) {
            assert forall|i: int, j: int| 0 <= i < j < out@.len() implies (#[trigger] out@[i]).0 < (
            #[trigger] out@[j]).0 by {
                assert(series@[i + window - 1].0 < series@[j + window - 1].0);
            }
        }
    }
    out
}

} // verus!
