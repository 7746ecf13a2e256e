//! The chart kinds, and the pipeline each one runs.

use crate::aggregate::{
    aggregate_by_day, classify_spec, is_aggregate, lemma_aggregate_order_free,
    lemma_aggregate_unique, lemma_nothing_counted_no_days, Category, DayBucket,
};
use crate::event::{
    DayKey, Event, Timestamp, MILLIS_PER_HOUR, MILLIS_PER_MINUTE, VOLUME_UNITS_PER_OUNCE,
};
use crate::plotly::{
    chart_view, Axis, AxisModel, Data, Hints, Layout, LayoutModel, Ratio, Trace, TraceModel,
};
use crate::rolling::{
    lemma_mean_between_extremes, lemma_summary_meaning, lemma_total_bounded, rolling_stats,
    window_count, window_values, MinMeanMax, Summary,
};
use vstd::prelude::*;

verus! {

/// The charts that can be asked for.
#[derive(Clone, Copy, Debug, PartialEq, Eq, Structural)]
pub enum GraphType {
    Bottle,
    MaxSleep,
    Pumping,
}

/// A chart was asked for under a name that is none of the known ones.
#[derive(Clone, Debug, PartialEq, Eq)]
pub struct UnknownChartKind {
    /// The name as it was given.
    pub token: String,
}

impl UnknownChartKind {
    /// A sentence for the person who asked.
    pub fn message(&self) -> (m: String)
        ensures
            m@ == "unknown graph type: "@ + self.token@,
    {
        "unknown graph type: ".to_owned().concat(self.token.as_str())
    }
}

/// The chart kind that a name stands for, if any.
pub open spec fn parse_token(s: Seq<char>) -> Option<GraphType> {
    if s == "bottle"@ {
        Some(GraphType::Bottle)
    } else if s == "maxsleep"@ {
        Some(GraphType::MaxSleep)
    } else if s == "pumping"@ {
        Some(GraphType::Pumping)
    } else {
        None
    }
}

/// The layout of the bottle chart.
pub open spec fn bottle_layout_model() -> LayoutModel {
    LayoutModel {
        title: "Bottles per day"@,
        xaxis: None,
        yaxis: Some(AxisModel { title: "Ounces"@, side: None, overlaying: None }),
        yaxis2: Some(
            AxisModel {
                title: "Minutes Breast Feeding"@,
                side: Some("right"@),
                overlaying: Some("y"@),
            },
        ),
        barmode: Some("stack"@),
    }
}

/// The layout of the pumping chart.
pub open spec fn pumping_layout_model() -> LayoutModel {
    LayoutModel {
        title: "Pumped per day"@,
        xaxis: None,
        yaxis: Some(AxisModel { title: "milliliters"@, side: None, overlaying: None }),
        yaxis2: None,
        barmode: None,
    }
}

/// The layout of the longest-sleep chart.
pub open spec fn max_sleep_layout_model() -> LayoutModel {
    LayoutModel {
        title: "Max sleep duration per night"@,
        xaxis: None,
        yaxis: Some(AxisModel { title: "Hours"@, side: None, overlaying: None }),
        yaxis2: None,
        barmode: None,
    }
}

/// How many days one point of the sleep chart looks back over.
pub const SLEEP_WINDOW: usize = 5;

/// The midnights of the bucketed days, in order.
pub open spec fn midnights(buckets: Seq<DayBucket>) -> Seq<Timestamp> {
    Seq::new(buckets.len(), |i: int| Timestamp::midnight_of(buckets[i].day))
}

/// One category's total of each bucketed day, over `den`.
pub open spec fn column(buckets: Seq<DayBucket>, c: Category, den: u128) -> Seq<Ratio> {
    Seq::new(buckets.len(), |i: int| Ratio { num: buckets[i].totals.total(c), den })
}

/// The traces of the bottle chart: ounces of breast milk, formula and
/// unknown milk as bars on the first axis, minutes at the breast as a line on
/// the second. Every trace has a point for every bucketed day.
pub open spec fn bottle_chart(buckets: Seq<DayBucket>) -> Seq<TraceModel<Ratio>> {
    seq![
        TraceModel {
            x: midnights(buckets),
            y: column(buckets, Category::BreastMilk, VOLUME_UNITS_PER_OUNCE),
            hints: Hints {
                yaxis: Some("y1"@),
                mode: None,
                name: Some("Breast Milk"@),
                typ: Some("bar"@),
            },
        },
        TraceModel {
            x: midnights(buckets),
            y: column(buckets, Category::Formula, VOLUME_UNITS_PER_OUNCE),
            hints: Hints {
                yaxis: Some("y1"@),
                mode: None,
                name: Some("Formula"@),
                typ: Some("bar"@),
            },
        },
        TraceModel {
            x: midnights(buckets),
            y: column(buckets, Category::Unknown, VOLUME_UNITS_PER_OUNCE),
            hints: Hints {
                yaxis: Some("y1"@),
                mode: None,
                name: Some("Unknown"@),
                typ: Some("bar"@),
            },
        },
        TraceModel {
            x: midnights(buckets),
            y: column(buckets, Category::BreastFeeding, MILLIS_PER_MINUTE),
            hints: Hints {
                yaxis: Some("y2"@),
                mode: None,
                name: Some("BreastFeed"@),
                typ: Some("line"@),
            },
        },
    ]
}

/// The trace of the pumping chart: millilitres per day, as a line.
pub open spec fn pumping_chart(buckets: Seq<DayBucket>) -> Seq<TraceModel<Ratio>> {
    seq![
        TraceModel {
            x: midnights(buckets),
            y: column(buckets, Category::Pumped, 1),
            hints: Hints { yaxis: None, mode: None, name: Some("Pumped Milk"@), typ: Some("line"@) },
        },
    ]
}

/// Each bucketed day with its longest sleep, in milliseconds.
pub open spec fn sleep_series(buckets: Seq<DayBucket>) -> Seq<(DayKey, i64)> {
    Seq::new(buckets.len(), |i: int| (buckets[i].day, buckets[i].totals.longest_sleep))
}

/// The midnight of the last day of each window of `n` entries.
pub open spec fn rolling_days(series: Seq<(DayKey, i64)>, n: int) -> Seq<Timestamp> {
    Seq::new(
        window_count(series.len() as int, n) as nat,
        |i: int| Timestamp::midnight_of(series[i + n - 1].0),
    )
}

/// The least value of each window of `n` entries, in hours.
pub open spec fn rolling_min(series: Seq<(DayKey, i64)>, n: int) -> Seq<Ratio> {
    Seq::new(
        window_count(series.len() as int, n) as nat,
        |i: int|
            Ratio {
                num: Summary::of(window_values(series, i, n)).min->Some_0 as i128,
                den: MILLIS_PER_HOUR,
            },
    )
}

/// The greatest value of each window of `n` entries, in hours.
pub open spec fn rolling_max(series: Seq<(DayKey, i64)>, n: int) -> Seq<Ratio> {
    Seq::new(
        window_count(series.len() as int, n) as nat,
        |i: int|
            Ratio {
                num: Summary::of(window_values(series, i, n)).max->Some_0 as i128,
                den: MILLIS_PER_HOUR,
            },
    )
}

/// The mean of each window of `n` entries, in hours: the window's sum over
/// `n` times the milliseconds of an hour.
pub open spec fn rolling_mean(series: Seq<(DayKey, i64)>, n: int) -> Seq<Ratio> {
    Seq::new(
        window_count(series.len() as int, n) as nat,
        |i: int|
            Ratio {
                num: Summary::of(window_values(series, i, n)).sum->Some_0 as i128,
                den: (n * MILLIS_PER_HOUR) as u128,
            },
    )
}

/// The traces of the longest-sleep chart: the rolling minimum, mean and
/// maximum of each day's longest sleep, as lines.
pub open spec fn max_sleep_chart(buckets: Seq<DayBucket>) -> Seq<TraceModel<Ratio>> {
    let series = sleep_series(buckets);
    let n = SLEEP_WINDOW as int;
    seq![
        TraceModel {
            x: rolling_days(series, n),
            y: rolling_min(series, n),
            hints: Hints { yaxis: None, mode: Some("lines"@), name: Some("min"@), typ: None },
        },
        TraceModel {
            x: rolling_days(series, n),
            y: rolling_mean(series, n),
            hints: Hints { yaxis: None, mode: Some("lines"@), name: Some("mean"@), typ: None },
        },
        TraceModel {
            x: rolling_days(series, n),
            y: rolling_max(series, n),
            hints: Hints { yaxis: None, mode: Some("lines"@), name: Some("max"@), typ: None },
        },
    ]
}

/// A sleep that is still going on.
pub open spec fn is_unended_sleep(e: Event) -> bool {
    match e {
        Event::SleepInterval { end, .. } => end is None,
        _ => false,
    }
}

/// Whether `data` is the chart of kind `kind` over `events`: what
/// [`GraphType::data`] promises of its result.
pub open spec fn is_chart_of(kind: GraphType, events: Seq<Event>, data: Seq<Trace<Ratio>>) -> bool {
    exists|buckets: Seq<DayBucket>|
        is_aggregate(kind, events, buckets) && chart_view(data) == kind.chart(buckets)
}

/// A log that holds nothing but sleeps still going on gives a longest-sleep
/// chart without a single point.
pub proof fn lemma_unended_sleep_charts_nothing(events: Seq<Event>, data: Seq<Trace<Ratio>>)
    requires
        forall|j: int| 0 <= j < events.len() ==> is_unended_sleep(#[trigger] events[j]),
        is_chart_of(GraphType::MaxSleep, events, data),
    ensures
        data.len() == 3,
        forall|k: int|
            0 <= k < data.len() ==> (#[trigger] data[k]).x@.len() == 0 && data[k].y@.len() == 0,
{
    let buckets = choose|buckets: Seq<DayBucket>|
        is_aggregate(GraphType::MaxSleep, events, buckets) && chart_view(data)
            == GraphType::MaxSleep.chart(buckets);
    assert forall|j: int| 0 <= j < events.len() implies classify_spec(
        GraphType::MaxSleep,
        #[trigger] events[j],
    ) is None by {
        assert(is_unended_sleep(events[j]));
    }
    lemma_nothing_counted_no_days(GraphType::MaxSleep, events, buckets);
    assert(chart_view(data).len() == data.len());
    assert forall|k: int| 0 <= k < data.len() implies (#[trigger] data[k]).x@.len() == 0
        && data[k].y@.len() == 0 by {
        assert(chart_view(data)[k] == data[k]@);
    }
}

/// A log without events gives every chart its traces, each without a point.
pub proof fn lemma_no_events_no_points(kind: GraphType, data: Seq<Trace<Ratio>>)
    requires
        is_chart_of(kind, Seq::<Event>::empty(), data),
    ensures
        data.len() == kind.trace_count(),
        forall|k: int|
            0 <= k < data.len() ==> (#[trigger] data[k]).x@.len() == 0 && data[k].y@.len() == 0,
{
    let buckets = choose|buckets: Seq<DayBucket>|
        is_aggregate(kind, Seq::<Event>::empty(), buckets) && chart_view(data) == kind.chart(
            buckets,
        );
    lemma_nothing_counted_no_days(kind, Seq::<Event>::empty(), buckets);
    assert(chart_view(data).len() == data.len());
    assert forall|k: int| 0 <= k < data.len() implies (#[trigger] data[k]).x@.len() == 0
        && data[k].y@.len() == 0 by {
        assert(chart_view(data)[k] == data[k]@);
    }
}

/// At every point of the longest-sleep chart the mean lies between the
/// minimum and the maximum: the three share a day, the minimum is at most the
/// maximum, and the mean's numerator lies between theirs once all three stand
/// over the mean's denominator.
pub proof fn lemma_sleep_mean_between_extremes(buckets: Seq<DayBucket>, i: int)
    requires
        0 <= i < max_sleep_chart(buckets)[0].x.len(),
    ensures
        ({
            let chart = max_sleep_chart(buckets);
            let (least, mean, greatest) = (chart[0].y[i], chart[1].y[i], chart[2].y[i]);
            &&& chart[0].x[i] == chart[1].x[i]
            &&& chart[1].x[i] == chart[2].x[i]
            &&& least.den == greatest.den
            &&& mean.den == SLEEP_WINDOW * least.den
            &&& least.num <= greatest.num
            &&& SLEEP_WINDOW * least.num <= mean.num <= SLEEP_WINDOW * greatest.num
        }),
{
    let values = window_values(sleep_series(buckets), i, SLEEP_WINDOW as int);
    lemma_summary_meaning(values);
    lemma_total_bounded(values);
    lemma_mean_between_extremes(values);
}

/// A chart is determined by the events and the kind: two runs over the same
/// events give the same traces, point for point and hint for hint.
pub proof fn lemma_chart_determined(
    kind: GraphType,
    events: Seq<Event>,
    first: Seq<Trace<Ratio>>,
    second: Seq<Trace<Ratio>>,
)
    requires
        is_chart_of(kind, events, first),
        is_chart_of(kind, events, second),
    ensures
        chart_view(first) == chart_view(second),
        first.len() == second.len(),
{
    let a = choose|buckets: Seq<DayBucket>|
        is_aggregate(kind, events, buckets) && chart_view(first) == kind.chart(buckets);
    let b = choose|buckets: Seq<DayBucket>|
        is_aggregate(kind, events, buckets) && chart_view(second) == kind.chart(buckets);
    lemma_aggregate_unique(kind, events, a, b);
    assert(chart_view(first).len() == first.len());
    assert(chart_view(second).len() == second.len());
}

/// The order of the events does not matter to a chart.
pub proof fn lemma_chart_order_free(
    kind: GraphType,
    events: Seq<Event>,
    shuffled: Seq<Event>,
    data: Seq<Trace<Ratio>>,
)
    requires
        events.to_multiset() == shuffled.to_multiset(),
        is_chart_of(kind, events, data),
    ensures
        is_chart_of(kind, shuffled, data),
{
    let buckets = choose|buckets: Seq<DayBucket>|
        is_aggregate(kind, events, buckets) && chart_view(data) == kind.chart(buckets);
    lemma_aggregate_order_free(kind, events, shuffled, buckets);
}

/// The midnight of each bucketed day.
fn day_axis(buckets: &[DayBucket]) -> (x: Vec<Timestamp>)
    ensures
        x@ == midnights(buckets@),
{
    let mut x: Vec<Timestamp> = Vec::new();
    let mut i: usize = 0;
    while i < buckets.len()
        invariant
            i <= buckets@.len(),
            x@.len() == i,
            forall|k: int| 0 <= k < i ==> x@[k] == Timestamp::midnight_of(buckets@[k].day),
        decreases buckets@.len() - i,
    {
        x.push(Timestamp::at_midnight(buckets[i].day));
        i += 1;
    }
    proof {
        assert(x@ =~= midnights(buckets@));
    }
    x
}

/// One category's total of each bucketed day, over `den`.
fn day_column(buckets: &[DayBucket], c: Category, den: u128) -> (y: Vec<Ratio>)
    ensures
        y@ == column(buckets@, c, den),
{
    let mut y: Vec<Ratio> = Vec::new();
    let mut i: usize = 0;
    while i < buckets.len()
        invariant
            i <= buckets@.len(),
            y@.len() == i,
            forall|k: int| 0 <= k < i ==> y@[k] == (Ratio { num: buckets@[k].totals.total(c), den }),
        decreases buckets@.len() - i,
    {
        y.push(Ratio { num: buckets[i].totals.get(c), den });
        i += 1;
    }
    proof {
        assert(y@ =~= column(buckets@, c, den));
    }
    y
}

/// The traces of the bottle chart.
fn bottle_traces(buckets: &[DayBucket]) -> (data: Data<Ratio>)
    ensures
        chart_view(data@) == bottle_chart(buckets@),
        data@.len() == 4,
        forall|k: int| 0 <= k < data@.len() ==> (#[trigger] data@[k]).well_formed(),
{
    let mut data: Vec<Trace<Ratio>> = Vec::new();
    data.push(
        Trace {
            x: day_axis(buckets),
            y: day_column(buckets, Category::BreastMilk, VOLUME_UNITS_PER_OUNCE),
            yaxis: Some("y1".to_owned()),
            mode: None,
            name: Some("Breast Milk".to_owned()),
            typ: Some("bar".to_owned()),
        },
    );
    data.push(
        Trace {
            x: day_axis(buckets),
            y: day_column(buckets, Category::Formula, VOLUME_UNITS_PER_OUNCE),
            yaxis: Some("y1".to_owned()),
            mode: None,
            name: Some("Formula".to_owned()),
            typ: Some("bar".to_owned()),
        },
    );
    data.push(
        Trace {
            x: day_axis(buckets),
            y: day_column(buckets, Category::Unknown, VOLUME_UNITS_PER_OUNCE),
            yaxis: Some("y1".to_owned()),
            mode: None,
            name: Some("Unknown".to_owned()),
            typ: Some("bar".to_owned()),
        },
    );
    data.push(
        Trace {
            x: day_axis(buckets),
            y: day_column(buckets, Category::BreastFeeding, MILLIS_PER_MINUTE),
            yaxis: Some("y2".to_owned()),
            mode: None,
            name: Some("BreastFeed".to_owned()),
            typ: Some("line".to_owned()),
        },
    );
    proof {
        assert(chart_view(data@) =~= bottle_chart(buckets@));
    }
    data
}

/// The trace of the pumping chart.
fn pumping_traces(buckets: &[DayBucket]) -> (data: Data<Ratio>)
    ensures
        chart_view(data@) == pumping_chart(buckets@),
        data@.len() == 1,
        forall|k: int| 0 <= k < data@.len() ==> (#[trigger] data@[k]).well_formed(),
{
    let mut data: Vec<Trace<Ratio>> = Vec::new();
    data.push(
        Trace {
            x: day_axis(buckets),
            y: day_column(buckets, Category::Pumped, 1),
            yaxis: None,
            mode: None,
            name: Some("Pumped Milk".to_owned()),
            typ: Some("line".to_owned()),
        },
    );
    proof {
        assert(chart_view(data@) =~= pumping_chart(buckets@));
    }
    data
}

/// The traces of the longest-sleep chart.
fn max_sleep_traces(buckets: &[DayBucket]) -> (data: Data<Ratio>)
    ensures
        chart_view(data@) == max_sleep_chart(buckets@),
        data@.len() == 3,
        forall|k: int| 0 <= k < data@.len() ==> (#[trigger] data@[k]).well_formed(),
{
    let mut series: Vec<(DayKey, i64)> = Vec::new();
    let mut i: usize = 0;
    while i < buckets.len()
        invariant
            i <= buckets@.len(),
            series@.len() == i,
            forall|k: int| 0 <= k < i ==> series@[k] == sleep_series(buckets@)[k],
        decreases buckets@.len() - i,
    {
        series.push((buckets[i].day, buckets[i].totals.longest_sleep));
        i += 1;
    }
    proof {
        assert(series@ =~= sleep_series(buckets@));
    }
    let rolling = rolling_stats(series.as_slice(), SLEEP_WINDOW);
    let ghost n = SLEEP_WINDOW as int;
    let mut x: Vec<Timestamp> = Vec::new();
    let mut mins: Vec<Ratio> = Vec::new();
    let mut means: Vec<Ratio> = Vec::new();
    let mut maxs: Vec<Ratio> = Vec::new();
    let mut j: usize = 0;
    while j < rolling.len()
        invariant
            j <= rolling@.len(),
            n == 5,
            rolling@.len() == window_count(series@.len() as int, n),
            forall|i: int|
                0 <= i < rolling@.len() ==> {
                    &&& (#[trigger] rolling@[i]).0 == series@[i + n - 1].0
                    &&& rolling@[i].1@ == Summary::of(window_values(series@, i, n))
                },
            x@.len() == j,
            mins@.len() == j,
            means@.len() == j,
            maxs@.len() == j,
            forall|k: int| 0 <= k < j ==> x@[k] == rolling_days(series@, n)[k],
            forall|k: int| 0 <= k < j ==> mins@[k] == rolling_min(series@, n)[k],
            forall|k: int| 0 <= k < j ==> means@[k] == rolling_mean(series@, n)[k],
            forall|k: int| 0 <= k < j ==> maxs@[k] == rolling_max(series@, n)[k],
        decreases rolling@.len() - j,
    {
        let day: DayKey = rolling[j].0;
        let stat: MinMeanMax = rolling[j].1;
        proof {
            let w = window_values(series@, j as int, n);
            assert(rolling@[j as int].1@ == Summary::of(w));
            lemma_summary_meaning(w);
            lemma_total_bounded(w);
        }
        let least: i64 = stat.min().unwrap();
        let mean: Ratio = stat.mean().unwrap();
        let greatest: i64 = stat.max().unwrap();
        x.push(Timestamp::at_midnight(day));
        mins.push(Ratio { num: least as i128, den: MILLIS_PER_HOUR });
        means.push(Ratio { num: mean.num, den: mean.den * MILLIS_PER_HOUR });
        maxs.push(Ratio { num: greatest as i128, den: MILLIS_PER_HOUR });
        j += 1;
    }
    proof {
        assert(x@ =~= rolling_days(series@, n));
        assert(mins@ =~= rolling_min(series@, n));
        assert(means@ =~= rolling_mean(series@, n));
        assert(maxs@ =~= rolling_max(series@, n));
    }
    let mut data: Vec<Trace<Ratio>> = Vec::new();
    data.push(
        Trace {
            x: x.clone(),
            y: mins,
            yaxis: None,
            mode: Some("lines".to_owned()),
            name: Some("min".to_owned()),
            typ: None,
        },
    );
    data.push(
        Trace {
            x: x.clone(),
            y: means,
            yaxis: None,
            mode: Some("lines".to_owned()),
            name: Some("mean".to_owned()),
            typ: None,
        },
    );
    data.push(
        Trace {
            x,
            y: maxs,
            yaxis: None,
            mode: Some("lines".to_owned()),
            name: Some("max".to_owned()),
            typ: None,
        },
    );
    proof {
        assert(chart_view(data@) =~= max_sleep_chart(buckets@));
    }
    data
}

impl GraphType {
    /// The traces that go with each kind of chart, given the days' totals.
    pub open spec fn chart(self, buckets: Seq<DayBucket>) -> Seq<TraceModel<Ratio>> {
        match self {
            GraphType::Bottle => bottle_chart(buckets),
            GraphType::MaxSleep => max_sleep_chart(buckets),
            GraphType::Pumping => pumping_chart(buckets),
        }
    }

    /// How many traces each kind of chart has.
    pub open spec fn trace_count(self) -> nat {
        match self {
            GraphType::Bottle => 4,
            GraphType::MaxSleep => 3,
            GraphType::Pumping => 1,
        }
    }

    /// Lays the days' totals out as the traces of this kind of chart.
    pub fn build_series(&self, buckets: &[DayBucket]) -> (data: Data<Ratio>)
        ensures
            chart_view(data@) == self.chart(buckets@),
            data@.len() == self.trace_count(),
            forall|k: int| 0 <= k < data@.len() ==> (#[trigger] data@[k]).well_formed(),
    {
        match *self {
            GraphType::Bottle => bottle_traces(buckets),
            GraphType::MaxSleep => max_sleep_traces(buckets),
            GraphType::Pumping => pumping_traces(buckets),
        }
    }

    /// The traces of this kind of chart over `events`: the events are grouped
    /// by day, and the days' totals are laid out as the kind's traces.
    pub fn data(&self, events: &[Event]) -> (data: Data<Ratio>)
        ensures
            is_chart_of(*self, events@, data@),
            data@.len() == self.trace_count(),
            forall|k: int| 0 <= k < data@.len() ==> (#[trigger] data@[k]).well_formed(),
    {
        let buckets = aggregate_by_day(*self, events);
        let data = self.build_series(buckets.as_slice());
        proof {
            assert(is_aggregate(*self, events@, buckets@) && chart_view(data@) == self.chart(
                buckets@,
            ));
        }
        data
    }

    /// The bottle chart over `events`.
    pub fn bottle_data(&self, events: &[Event]) -> (data: Data<Ratio>)
        ensures
            is_chart_of(GraphType::Bottle, events@, data@),
            data@.len() == 4,
            forall|k: int| 0 <= k < data@.len() ==> (#[trigger] data@[k]).well_formed(),
    {
        let buckets = aggregate_by_day(GraphType::Bottle, events);
        let data = bottle_traces(buckets.as_slice());
        proof {
            assert(is_aggregate(GraphType::Bottle, events@, buckets@) && chart_view(data@)
                == GraphType::Bottle.chart(buckets@));
        }
        data
    }

    /// The pumping chart over `events`.
    pub fn pumping_data(&self, events: &[Event]) -> (data: Data<Ratio>)
        ensures
            is_chart_of(GraphType::Pumping, events@, data@),
            data@.len() == 1,
            forall|k: int| 0 <= k < data@.len() ==> (#[trigger] data@[k]).well_formed(),
    {
        let buckets = aggregate_by_day(GraphType::Pumping, events);
        let data = pumping_traces(buckets.as_slice());
        proof {
            assert(is_aggregate(GraphType::Pumping, events@, buckets@) && chart_view(data@)
                == GraphType::Pumping.chart(buckets@));
        }
        data
    }

    /// The longest-sleep chart over `events`.
    ///
    /// A sleep counts on the day it ended; one that has not ended does not
    /// count. The first point stands on the fifth day that has a sleep.
    pub fn max_sleep_data(&self, events: &[Event]) -> (data: Data<Ratio>)
        ensures
            is_chart_of(GraphType::MaxSleep, events@, data@),
            data@.len() == 3,
            forall|k: int| 0 <= k < data@.len() ==> (#[trigger] data@[k]).well_formed(),
    {
        let buckets = aggregate_by_day(GraphType::MaxSleep, events);
        let data = max_sleep_traces(buckets.as_slice());
        proof {
            assert(is_aggregate(GraphType::MaxSleep, events@, buckets@) && chart_view(data@)
                == GraphType::MaxSleep.chart(buckets@));
        }
        data
    }

    /// The layout that goes with each kind of chart.
    pub open spec fn layout_model(self) -> LayoutModel {
        match self {
            GraphType::Bottle => bottle_layout_model(),
            GraphType::MaxSleep => max_sleep_layout_model(),
            GraphType::Pumping => pumping_layout_model(),
        }
    }

    /// Reads a chart's name. The known names are `bottle`, `maxsleep` and
    /// `pumping`; any other comes back inside the error, unchanged.
    pub fn from_param(param: &str) -> (r: Result<GraphType, UnknownChartKind>)
        ensures
            match r {
                Ok(kind) => parse_token(param@) == Some(kind),
                Err(e) => parse_token(param@) is None && e.token@ == param@,
            },
    {
        let token = param.to_owned();
        if token == "bottle".to_owned() {
            Ok(GraphType::Bottle)
        } else if token == "maxsleep".to_owned() {
            Ok(GraphType::MaxSleep)
        } else if token == "pumping".to_owned() {
            Ok(GraphType::Pumping)
        } else {
            Err(UnknownChartKind { token })
        }
    }

    /// The layout of this kind of chart. It does not depend on any data.
    pub fn layout(&self) -> (l: Layout)
        ensures
            l@ == self.layout_model(),
    {
        match *self {
            GraphType::Bottle => self.bottle_layout(),
            GraphType::MaxSleep => self.max_sleep_layout(),
            GraphType::Pumping => self.pumping_layout(),
        }
    }

    /// Stacked bars of ounces on the left axis, minutes at the breast on the right.
    pub fn bottle_layout(&self) -> (l: Layout)
        ensures
            l@ == bottle_layout_model(),
    {
        Layout {
            title: "Bottles per day".to_owned(),
            xaxis: None,
            yaxis: Some(Axis { title: "Ounces".to_owned(), side: None, overlaying: None }),
            yaxis2: Some(
                Axis {
                    title: "Minutes Breast Feeding".to_owned(),
                    side: Some("right".to_owned()),
                    overlaying: Some("y".to_owned()),
                },
            ),
            barmode: Some("stack".to_owned()),
        }
    }

    /// A single axis of millilitres.
    pub fn pumping_layout(&self) -> (l: Layout)
        ensures
            l@ == pumping_layout_model(),
    {
        Layout {
            title: "Pumped per day".to_owned(),
            xaxis: None,
            yaxis: Some(Axis { title: "milliliters".to_owned(), side: None, overlaying: None }),
            yaxis2: None,
            barmode: None,
        }
    }

    /// A single axis of hours.
    pub fn max_sleep_layout(&self) -> (l: Layout)
        ensures
            l@ == max_sleep_layout_model(),
    {
        Layout {
            title: "Max sleep duration per night".to_owned(),
            xaxis: None,
            yaxis: Some(Axis { title: "Hours".to_owned(), side: None, overlaying: None }),
            yaxis2: None,
            barmode: None,
        }
    }
}

} // verus!
