//! Grouping events by calendar day and folding them into per-day totals.

use crate::day_map::buckets_in_order;
use crate::event::{DayKey, Event, MilkKind};
use crate::graph::GraphType;
use std::collections::BTreeMap;
use vstd::prelude::*;
use vstd::seq_lib::{to_multiset_build, to_multiset_contains, to_multiset_len, to_multiset_remove};

verus! {

/// What an amount counts towards.
#[derive(Clone, Copy, Debug, PartialEq, Eq, Structural)]
pub enum Category {
    BreastMilk,
    Formula,
    Unknown,
    BreastFeeding,
    Pumped,
    Sleep,
}

/// What one event contributes to one chart: a day, a category and an amount.
#[derive(Clone, Copy, Debug, PartialEq, Eq, Structural)]
pub struct Sample {
    pub day: DayKey,
    pub category: Category,
    pub amount: i64,
}

/// The category a bottle counts towards.
pub open spec fn milk_category(milk: MilkKind) -> Category {
    match milk {
        MilkKind::BreastMilk => Category::BreastMilk,
        MilkKind::Formula => Category::Formula,
        MilkKind::Unknown => Category::Unknown,
    }
}

/// What `e` contributes to a chart of kind `kind`, or `None` where it does not
/// belong on that chart. A feeding counts on the day it was given, a pumping
/// session on the day it began, a sleep on the day it ended; a sleep that has
/// not ended counts nowhere.
pub open spec fn classify_spec(kind: GraphType, e: Event) -> Option<Sample> {
    match kind {
        GraphType::Bottle => match e {
            Event::BottleFeeding { time, volume, milk } => Some(
                Sample { day: time.day, category: milk_category(milk), amount: volume as i64 },
            ),
            Event::BreastFeeding { start, duration, .. } => Some(
                Sample { day: start.day, category: Category::BreastFeeding, amount: duration },
            ),
            _ => None,
        },
        GraphType::MaxSleep => match e {
            Event::SleepInterval { end: Some(end), duration, .. } => Some(
                Sample { day: end.day, category: Category::Sleep, amount: duration },
            ),
            _ => None,
        },
        GraphType::Pumping => match e {
            Event::PumpingInterval { start, milliliters } => Some(
                Sample { day: start.day, category: Category::Pumped, amount: milliliters as i64 },
            ),
            _ => None,
        },
    }
}

/// Extracts what `e` contributes to a chart of kind `kind`.
pub fn classify(kind: GraphType, e: &Event) -> (s: Option<Sample>)
    ensures
        s == classify_spec(kind, *e),
{
    match kind {
        GraphType::Bottle => match *e {
            Event::BottleFeeding { time, volume, milk } => {
                let category = match milk {
                    MilkKind::BreastMilk => Category::BreastMilk,
                    MilkKind::Formula => Category::Formula,
                    MilkKind::Unknown => Category::Unknown,
                };
                Some(Sample { day: time.day, category, amount: volume as i64 })
            },
            Event::BreastFeeding { start, duration, .. } => Some(
                Sample { day: start.day, category: Category::BreastFeeding, amount: duration },
            ),
            _ => None,
        },
        GraphType::MaxSleep => match *e {
            Event::SleepInterval { end: Some(end), duration, .. } => Some(
                Sample { day: end.day, category: Category::Sleep, amount: duration },
            ),
            _ => None,
        },
        GraphType::Pumping => match *e {
            Event::PumpingInterval { start, milliliters } => Some(
                Sample { day: start.day, category: Category::Pumped, amount: milliliters as i64 },
            ),
            _ => None,
        },
    }
}

/// The largest magnitude a single amount can have.
pub open spec fn amount_limit() -> int {
    0x8000_0000_0000_0000
}

/// A day's totals as unbounded integers.
pub struct TotalsModel {
    pub breast_milk: int,
    pub formula: int,
    pub unknown: int,
    pub breast_feeding: int,
    pub pumped: int,
    pub longest_sleep: int,
}

impl TotalsModel {
    /// The totals of a day on which nothing has been counted yet.
    pub open spec fn zero() -> TotalsModel {
        TotalsModel {
            breast_milk: 0,
            formula: 0,
            unknown: 0,
            breast_feeding: 0,
            pumped: 0,
            longest_sleep: 0,
        }
    }

    /// The totals after one more sample: its amount is added to its category's
    /// total, except for sleep, of which the longest is kept.
    pub open spec fn merge(self, s: Sample) -> TotalsModel {
        match s.category {
            Category::BreastMilk => TotalsModel { breast_milk: self.breast_milk + s.amount, ..self },
            Category::Formula => TotalsModel { formula: self.formula + s.amount, ..self },
            Category::Unknown => TotalsModel { unknown: self.unknown + s.amount, ..self },
            Category::BreastFeeding => TotalsModel {
                breast_feeding: self.breast_feeding + s.amount,
                ..self
            },
            Category::Pumped => TotalsModel { pumped: self.pumped + s.amount, ..self },
            Category::Sleep => TotalsModel {
                longest_sleep: if self.longest_sleep < s.amount {
                    s.amount as int
                } else {
                    self.longest_sleep
                },
                ..self
            },
        }
    }

    /// Every total is what at most `n` amounts can add up to.
    pub open spec fn within(self, n: int) -> bool {
        let bound = n * amount_limit();
        &&& -bound <= self.breast_milk <= bound
        &&& -bound <= self.formula <= bound
        &&& -bound <= self.unknown <= bound
        &&& -bound <= self.breast_feeding <= bound
        &&& -bound <= self.pumped <= bound
        &&& -bound <= self.longest_sleep <= bound
    }

    /// Every total fits the machine integers of [`DayTotals`].
    pub open spec fn representable(self) -> bool {
        &&& i128::MIN <= self.breast_milk <= i128::MAX
        &&& i128::MIN <= self.formula <= i128::MAX
        &&& i128::MIN <= self.unknown <= i128::MAX
        &&& i128::MIN <= self.breast_feeding <= i128::MAX
        &&& i128::MIN <= self.pumped <= i128::MAX
        &&& i64::MIN <= self.longest_sleep <= i64::MAX
    }
}

/// The running totals of one day. A day that exists has every total, zero
/// where nothing was counted.
#[derive(Clone, Copy, Debug, PartialEq, Eq)]
pub struct DayTotals {
    pub breast_milk: i128,
    pub formula: i128,
    pub unknown: i128,
    pub breast_feeding: i128,
    pub pumped: i128,
    pub longest_sleep: i64,
}

impl View for DayTotals {
    type V = TotalsModel;

    open spec fn view(&self) -> TotalsModel {
        TotalsModel {
            breast_milk: self.breast_milk as int,
            formula: self.formula as int,
            unknown: self.unknown as int,
            breast_feeding: self.breast_feeding as int,
            pumped: self.pumped as int,
            longest_sleep: self.longest_sleep as int,
        }
    }
}

impl DayTotals {
    /// The total of one category.
    pub open spec fn total(self, c: Category) -> i128 {
        match c {
            Category::BreastMilk => self.breast_milk,
            Category::Formula => self.formula,
            Category::Unknown => self.unknown,
            Category::BreastFeeding => self.breast_feeding,
            Category::Pumped => self.pumped,
            Category::Sleep => self.longest_sleep as i128,
        }
    }

    /// The total of one category.
    pub fn get(&self, c: Category) -> (r: i128)
        ensures
            r == self.total(c),
    {
        match c {
            Category::BreastMilk => self.breast_milk,
            Category::Formula => self.formula,
            Category::Unknown => self.unknown,
            Category::BreastFeeding => self.breast_feeding,
            Category::Pumped => self.pumped,
            Category::Sleep => self.longest_sleep as i128,
        }
    }

    /// Totals with nothing counted.
    pub fn new() -> (t: DayTotals)
        ensures
            t@ == TotalsModel::zero(),
    {
        DayTotals {
            breast_milk: 0,
            formula: 0,
            unknown: 0,
            breast_feeding: 0,
            pumped: 0,
            longest_sleep: 0,
        }
    }

    /// Counts one more sample.
    pub fn merge(&mut self, s: &Sample)
        requires
            old(self)@.merge(*s).representable(),
        ensures
            final(self)@ == old(self)@.merge(*s),
    {
        let amount: i128 = s.amount as i128;
        match s.category {
            Category::BreastMilk => {
                self.breast_milk = self.breast_milk + amount;
            },
            Category::Formula => {
                self.formula = self.formula + amount;
            },
            Category::Unknown => {
                self.unknown = self.unknown + amount;
            },
            Category::BreastFeeding => {
                self.breast_feeding = self.breast_feeding + amount;
            },
            Category::Pumped => {
                self.pumped = self.pumped + amount;
            },
            Category::Sleep => {
                if self.longest_sleep < s.amount {
                    self.longest_sleep = s.amount;
                }
            },
        }
    }
}

/// One day of an aggregation: the day and what was counted on it.
#[derive(Clone, Copy, Debug, PartialEq, Eq)]
pub struct DayBucket {
    pub day: DayKey,
    pub totals: DayTotals,
}

/// Whether `e` counts on `day` in a chart of kind `kind`.
pub open spec fn sample_on(kind: GraphType, e: Event, day: DayKey) -> bool {
    match classify_spec(kind, e) {
        Some(s) => s.day == day,
        None => false,
    }
}

/// Whether any of `events` counts on `day`.
pub open spec fn day_present(kind: GraphType, events: Seq<Event>, day: DayKey) -> bool {
    exists|j: int| 0 <= j < events.len() && #[trigger] sample_on(kind, events[j], day)
}

/// The totals of `day`: the samples that `events` give for that day, merged in order.
pub open spec fn day_totals(kind: GraphType, events: Seq<Event>, day: DayKey) -> TotalsModel
    decreases events.len(),
{
    if events.len() == 0 {
        TotalsModel::zero()
    } else {
        let before = day_totals(kind, events.drop_last(), day);
        match classify_spec(kind, events.last()) {
            Some(s) => if s.day == day {
                before.merge(s)
            } else {
                before
            },
            None => before,
        }
    }
}

/// Whether `buckets` has an entry for `day`.
pub open spec fn has_day(buckets: Seq<DayBucket>, day: DayKey) -> bool {
    exists|i: int| 0 <= i < buckets.len() && (#[trigger] buckets[i]).day == day
}

/// Each bucket's day is later than the one before it.
pub open spec fn strictly_ascending(buckets: Seq<DayBucket>) -> bool {
    forall|i: int, j: int|
        0 <= i < j < buckets.len() ==> (#[trigger] buckets[i]).day < (#[trigger] buckets[j]).day
}

/// `buckets` is the aggregation of `events` for a chart of kind `kind`: its
/// days ascend, it has exactly the days on which something counts, and each
/// day carries that day's totals.
pub open spec fn is_aggregate(kind: GraphType, events: Seq<Event>, buckets: Seq<DayBucket>) -> bool {
    &&& strictly_ascending(buckets)
    &&& forall|d: DayKey|
        #![trigger has_day(buckets, d)]
        #![trigger day_present(kind, events, d)]
        has_day(buckets, d) <==> day_present(kind, events, d)
    &&& forall|i: int|
        0 <= i < buckets.len() ==> (#[trigger] buckets[i]).totals@ == day_totals(
            kind,
            events,
            buckets[i].day,
        )
}

/// One more event adds its own day to the days present, and no other.
pub proof fn lemma_present_step(kind: GraphType, events: Seq<Event>, e: Event, day: DayKey)
    ensures
        day_present(kind, events.push(e), day) <==> (day_present(kind, events, day) || sample_on(
            kind,
            e,
            day,
        )),
{
    let longer = events.push(e);
    if day_present(kind, events, day) {
        let j = choose|j: int| 0 <= j < events.len() && #[trigger] sample_on(kind, events[j], day);
        assert(longer[j] == events[j]);
        assert(sample_on(kind, longer[j], day));
    }
    if sample_on(kind, e, day) {
        assert(longer[events.len() as int] == e);
        assert(sample_on(kind, longer[events.len() as int], day));
    }
    if day_present(kind, longer, day) {
        let j = choose|j: int| 0 <= j < longer.len() && #[trigger] sample_on(kind, longer[j], day);
        if j < events.len() {
            assert(longer[j] == events[j]);
            assert(sample_on(kind, events[j], day));
        } else {
            assert(longer[j] == e);
        }
    }
}

/// One more event changes the totals of its own day, by its sample, and of no other.
pub proof fn lemma_totals_step(kind: GraphType, events: Seq<Event>, e: Event, day: DayKey)
    ensures
        day_totals(kind, events.push(e), day) == if sample_on(kind, e, day) {
            day_totals(kind, events, day).merge(classify_spec(kind, e)->Some_0)
        } else {
            day_totals(kind, events, day)
        },
{
    let longer = events.push(e);
    assert(longer.drop_last() =~= events);
    assert(longer.last() == e);
}

/// A day on which nothing counts has all totals at zero.
pub proof fn lemma_absent_day_is_zero(kind: GraphType, events: Seq<Event>, day: DayKey)
    requires
        !day_present(kind, events, day),
    ensures
        day_totals(kind, events, day) == TotalsModel::zero(),
    decreases events.len(),
{
    if events.len() > 0 {
        let shorter = events.drop_last();
        assert(shorter.push(events.last()) =~= events);
        lemma_present_step(kind, shorter, events.last(), day);
        lemma_absent_day_is_zero(kind, shorter, day);
    }
}

/// No total exceeds what the events so far can add up to.
pub proof fn lemma_totals_within(kind: GraphType, events: Seq<Event>, day: DayKey)
    ensures
        day_totals(kind, events, day).within(events.len() as int),
    decreases events.len(),
{
    if events.len() > 0 {
        lemma_totals_within(kind, events.drop_last(), day);
    }
}

/// What one event does to the totals of `day`.
pub open spec fn count_event(kind: GraphType, t: TotalsModel, e: Event, day: DayKey) -> TotalsModel {
    if sample_on(kind, e, day) {
        t.merge(classify_spec(kind, e)->Some_0)
    } else {
        t
    }
}

/// Merging is commutative: two samples give the same totals in either order.
pub proof fn lemma_merge_commutes(t: TotalsModel, a: Sample, b: Sample)
    ensures
        t.merge(a).merge(b) == t.merge(b).merge(a),
{
}

/// Taking any one event out of the list and counting it last gives the same totals.
pub proof fn lemma_totals_count_any_last(kind: GraphType, events: Seq<Event>, k: int, day: DayKey)
    requires
        0 <= k < events.len(),
    ensures
        day_totals(kind, events, day) == count_event(
            kind,
            day_totals(kind, events.remove(k), day),
            events[k],
            day,
        ),
    decreases events.len(),
{
    let init = events.drop_last();
    let last = events.last();
    assert(init.push(last) =~= events);
    lemma_totals_step(kind, init, last, day);
    if k == events.len() - 1 {
        assert(events.remove(k) =~= init);
    } else {
        let rest = init.remove(k);
        assert(rest.push(last) =~= events.remove(k));
        lemma_totals_step(kind, rest, last, day);
        lemma_totals_count_any_last(kind, init, k, day);
        assert(init[k] == events[k]);
        if sample_on(kind, last, day) && sample_on(kind, events[k], day) {
            lemma_merge_commutes(
                day_totals(kind, rest, day),
                classify_spec(kind, events[k])->Some_0,
                classify_spec(kind, last)->Some_0,
            );
        }
    }
}

/// The order of the events does not matter to a day's totals: two lists that
/// hold the same events, each as often, give the same totals.
pub proof fn lemma_totals_order_free(kind: GraphType, a: Seq<Event>, b: Seq<Event>, day: DayKey)
    requires
        a.to_multiset() == b.to_multiset(),
    ensures
        day_totals(kind, a, day) == day_totals(kind, b, day),
    decreases a.len(),
{
    broadcast use vstd::multiset::group_multiset_axioms;

    to_multiset_len(a);
    to_multiset_len(b);
    if a.len() > 0 {
        let init = a.drop_last();
        let last = a.last();
        assert(init.push(last) =~= a);
        to_multiset_build(init, last);
        to_multiset_contains(b, last);
        assert(b.contains(last));
        let k = choose|k: int| 0 <= k < b.len() && b[k] == last;
        to_multiset_remove(b, k);
        assert(b.remove(k).to_multiset() =~= init.to_multiset());
        lemma_totals_order_free(kind, init, b.remove(k), day);
        lemma_totals_step(kind, init, last, day);
        lemma_totals_count_any_last(kind, b, k, day);
    }
}

/// The order of the events does not matter to their aggregation.
pub proof fn lemma_aggregate_order_free(
    kind: GraphType,
    a: Seq<Event>,
    b: Seq<Event>,
    buckets: Seq<DayBucket>,
)
    requires
        a.to_multiset() == b.to_multiset(),
        is_aggregate(kind, a, buckets),
    ensures
        is_aggregate(kind, b, buckets),
{
    assert forall|d: DayKey|
        #![trigger has_day(buckets, d)]
        #![trigger day_present(kind, b, d)]
        has_day(buckets, d) <==> day_present(kind, b, d) by {
        assert(has_day(buckets, d) <==> day_present(kind, a, d));
        if day_present(kind, a, d) {
            let j = choose|j: int| 0 <= j < a.len() && #[trigger] sample_on(kind, a[j], d);
            assert(a.contains(a[j]));
            to_multiset_contains(a, a[j]);
            to_multiset_contains(b, a[j]);
            let k = choose|k: int| 0 <= k < b.len() && b[k] == a[j];
            assert(sample_on(kind, b[k], d));
        }
        if day_present(kind, b, d) {
            let j = choose|j: int| 0 <= j < b.len() && #[trigger] sample_on(kind, b[j], d);
            assert(b.contains(b[j]));
            to_multiset_contains(b, b[j]);
            to_multiset_contains(a, b[j]);
            let k = choose|k: int| 0 <= k < a.len() && a[k] == b[j];
            assert(sample_on(kind, a[k], d));
        }
    }
    assert forall|i: int| 0 <= i < buckets.len() implies (#[trigger] buckets[i]).totals@
        == day_totals(kind, b, buckets[i].day) by {
        lemma_totals_order_free(kind, a, b, buckets[i].day);
    }
}

/// Days that ascend strictly are all different: no day has two buckets.
pub proof fn lemma_ascending_days_differ(buckets: Seq<DayBucket>)
    requires
        strictly_ascending(buckets),
    ensures
        forall|i: int, j: int|
            0 <= i < buckets.len() && 0 <= j < buckets.len() && i != j ==> (#[trigger] buckets[i]).day
                != (#[trigger] buckets[j]).day,
{
    assert forall|i: int, j: int|
        0 <= i < buckets.len() && 0 <= j < buckets.len() && i != j implies (#[trigger] buckets[i]).day
        != (#[trigger] buckets[j]).day by {
        if i < j {
            assert(buckets[i].day < buckets[j].day);
        } else {
            assert(buckets[j].day < buckets[i].day);
        }
    }
}

/// Two ascending runs of buckets over the same days have those days at the
/// same positions.
pub proof fn lemma_same_days_same_order(a: Seq<DayBucket>, b: Seq<DayBucket>)
    requires
        strictly_ascending(a),
        strictly_ascending(b),
        forall|d: DayKey|
            #![trigger has_day(a, d)]
            #![trigger has_day(b, d)]
            has_day(a, d) <==> has_day(b, d),
    ensures
        a.len() == b.len(),
        forall|i: int| 0 <= i < a.len() ==> (#[trigger] a[i]).day == b[i].day,
    decreases a.len(),
{
    if a.len() == 0 {
        if b.len() > 0 {
            assert(has_day(b, b[0].day));
            assert(has_day(a, b[0].day));
        }
    } else if b.len() == 0 {
        assert(has_day(a, a[0].day));
        assert(has_day(b, a[0].day));
    } else {
        let la = a.len() - 1;
        let lb = b.len() - 1;
        assert(has_day(a, a[la].day));
        assert(has_day(b, b[lb].day));
        assert(has_day(b, a[la].day));
        assert(has_day(a, b[lb].day));
        let ia = choose|i: int| 0 <= i < a.len() && (#[trigger] a[i]).day == b[lb].day;
        let ib = choose|i: int| 0 <= i < b.len() && (#[trigger] b[i]).day == a[la].day;
        if ia < la {
            assert(a[ia].day < a[la].day);
        }
        if ib < lb {
            assert(b[ib].day < b[lb].day);
        }
        assert(a[la].day == b[lb].day);
        let a2 = a.drop_last();
        let b2 = b.drop_last();
        assert forall|i: int, j: int| 0 <= i < j < a2.len() implies (#[trigger] a2[i]).day < (
        #[trigger] a2[j]).day by {
            assert(a[i].day < a[j].day);
        }
        assert forall|i: int, j: int| 0 <= i < j < b2.len() implies (#[trigger] b2[i]).day < (
        #[trigger] b2[j]).day by {
            assert(b[i].day < b[j].day);
        }
        assert forall|d: DayKey|
            #![trigger has_day(a2, d)]
            #![trigger has_day(b2, d)]
            has_day(a2, d) <==> has_day(b2, d) by {
            if has_day(a2, d) {
                let i = choose|i: int| 0 <= i < a2.len() && (#[trigger] a2[i]).day == d;
                assert(a[i].day == d);
                assert(a[i].day < a[la].day);
                assert(has_day(a, d));
                assert(has_day(b, d));
                let j = choose|j: int| 0 <= j < b.len() && (#[trigger] b[j]).day == d;
                assert(j != lb);
                assert(b2[j].day == d);
            }
            if has_day(b2, d) {
                let i = choose|i: int| 0 <= i < b2.len() && (#[trigger] b2[i]).day == d;
                assert(b[i].day == d);
                assert(b[i].day < b[lb].day);
                assert(has_day(b, d));
                assert(has_day(a, d));
                let j = choose|j: int| 0 <= j < a.len() && (#[trigger] a[j]).day == d;
                assert(j != la);
                assert(a2[j].day == d);
            }
        }
        lemma_same_days_same_order(a2, b2);
        assert forall|i: int| 0 <= i < a.len() implies (#[trigger] a[i]).day == b[i].day by {
            if i < la {
                assert(a2[i].day == b2[i].day);
            }
        }
    }
}

/// The aggregation of a list of events is determined by the list: whatever
/// is an aggregation of it is the same run of buckets.
pub proof fn lemma_aggregate_unique(
    kind: GraphType,
    events: Seq<Event>,
    a: Seq<DayBucket>,
    b: Seq<DayBucket>,
)
    requires
        is_aggregate(kind, events, a),
        is_aggregate(kind, events, b),
    ensures
        a == b,
{
    assert forall|d: DayKey|
        #![trigger has_day(a, d)]
        #![trigger has_day(b, d)]
        has_day(a, d) <==> has_day(b, d) by {
        assert(has_day(a, d) <==> day_present(kind, events, d));
        assert(has_day(b, d) <==> day_present(kind, events, d));
    }
    lemma_same_days_same_order(a, b);
    assert forall|i: int| 0 <= i < a.len() implies a[i] == b[i] by {
        assert(a[i].day == b[i].day);
        assert(a[i].totals@ == day_totals(kind, events, a[i].day));
        assert(b[i].totals@ == day_totals(kind, events, b[i].day));
    }
    assert(a =~= b);
}

/// Where no event counts on the chart, the aggregation has no day.
pub proof fn lemma_nothing_counted_no_days(
    kind: GraphType,
    events: Seq<Event>,
    buckets: Seq<DayBucket>,
)
    requires
        forall|j: int| 0 <= j < events.len() ==> classify_spec(kind, #[trigger] events[j]) is None,
        is_aggregate(kind, events, buckets),
    ensures
        buckets.len() == 0,
{
    if buckets.len() > 0 {
        let d = buckets[0].day;
        assert(has_day(buckets, d));
        assert(day_present(kind, events, d));
        let j = choose|j: int| 0 <= j < events.len() && #[trigger] sample_on(kind, events[j], d);
        assert(classify_spec(kind, events[j]) is None);
    }
}

/// `m` maps exactly the days on which something of `events` counts, each to
/// that day's totals.
pub open spec fn is_day_map(kind: GraphType, events: Seq<Event>, m: Map<DayKey, DayTotals>) -> bool {
    &&& forall|d: DayKey|
        #![trigger m.contains_key(d)]
        #![trigger day_present(kind, events, d)]
        m.contains_key(d) <==> day_present(kind, events, d)
    &&& forall|d: DayKey| #[trigger] m.contains_key(d) ==> m[d]@ == day_totals(kind, events, d)
}

proof fn lemma_day_map_skip(kind: GraphType, seen: Seq<Event>, e: Event, m: Map<DayKey, DayTotals>)
    requires
        is_day_map(kind, seen, m),
        classify_spec(kind, e) is None,
    ensures
        is_day_map(kind, seen.push(e), m),
{
    let longer = seen.push(e);
    assert forall|d: DayKey|
        #![trigger m.contains_key(d)]
        #![trigger day_present(kind, longer, d)]
        m.contains_key(d) <==> day_present(kind, longer, d) by {
        lemma_present_step(kind, seen, e, d);
    }
    assert forall|d: DayKey| #[trigger] m.contains_key(d) implies m[d]@ == day_totals(
        kind,
        longer,
        d,
    ) by {
        lemma_totals_step(kind, seen, e, d);
    }
}

proof fn lemma_day_map_merge(
    kind: GraphType,
    seen: Seq<Event>,
    e: Event,
    m: Map<DayKey, DayTotals>,
    totals: DayTotals,
)
    requires
        is_day_map(kind, seen, m),
        classify_spec(kind, e) is Some,
        totals@ == day_totals(kind, seen, classify_spec(kind, e)->Some_0.day).merge(
            classify_spec(kind, e)->Some_0,
        ),
    ensures
        is_day_map(kind, seen.push(e), m.insert(classify_spec(kind, e)->Some_0.day, totals)),
{
    let longer = seen.push(e);
    let s = classify_spec(kind, e)->Some_0;
    let after = m.insert(s.day, totals);
    assert forall|d: DayKey|
        #![trigger after.contains_key(d)]
        #![trigger day_present(kind, longer, d)]
        after.contains_key(d) <==> day_present(kind, longer, d) by {
        lemma_present_step(kind, seen, e, d);
        assert(m.contains_key(d) <==> day_present(kind, seen, d));
    }
    assert forall|d: DayKey| #[trigger] after.contains_key(d) implies after[d]@ == day_totals(
        kind,
        longer,
        d,
    ) by {
        lemma_totals_step(kind, seen, e, d);
        if d != s.day {
            assert(m.contains_key(d));
        }
    }
}

/// Groups `events` by day for a chart of kind `kind`.
///
/// Events that do not belong on the chart are passed over. Every day on which
/// at least one event counts comes out once, with that day's totals; no other
/// day comes out; and the days come out in ascending order.
pub fn aggregate_by_day(kind: GraphType, events: &[Event]) -> (buckets: Vec<DayBucket>)
    ensures
        is_aggregate(kind, events@, buckets@),
        strictly_ascending(buckets@),
{
    let mut by_day: BTreeMap<DayKey, DayTotals> = BTreeMap::new();
    let mut i: usize = 0;
    while i < events.len()
        invariant
            0 <= i <= events@.len(),
            is_day_map(kind, events@.take(i as int), by_day@),
        decreases events@.len() - i,
    {
        let ghost seen = events@.take(i as int);
        let ghost before = by_day@;
        proof {
            assert(events@.take(i + 1) =~= seen.push(events@[i as int]));
        }
        match classify(kind, &events[i]) {
            None => {
                proof {
                    lemma_day_map_skip(kind, seen, events@[i as int], before);
                }
            },
            Some(s) => {
                let mut totals = match by_day.get(&s.day) {
                    Some(known) => *known,
                    None => DayTotals::new(),
                };
                proof {
                    lemma_totals_within(kind, seen, s.day);
                    if before.contains_key(s.day) {
                        assert(before[s.day]@ == day_totals(kind, seen, s.day));
                    } else {
                        assert(!day_present(kind, seen, s.day));
                        lemma_absent_day_is_zero(kind, seen, s.day);
                    }
                    assert(seen.len() < usize::MAX);
                }
                totals.merge(&s);
                by_day.insert(s.day, totals);
                proof {
                    lemma_day_map_merge(kind, seen, events@[i as int], before, totals);
                }
            },
        }
        i += 1;
    }
    proof {
        assert(events@.take(events@.len() as int) =~= events@);
    }
    let buckets = buckets_in_order(&by_day);
    proof {
        assert forall|d: DayKey|
            #![trigger has_day(buckets@, d)]
            #![trigger day_present(kind, events@, d)]
            has_day(buckets@, d) <==> day_present(kind, events@, d) by {
            assert(has_day(buckets@, d) <==> by_day@.contains_key(d));
        }
        assert forall|k: int| 0 <= k < buckets@.len() implies (#[trigger] buckets@[k]).totals@
            == day_totals(kind, events@, buckets@[k].day) by {
            assert(by_day@.contains_key(buckets@[k].day));
        }
    }
    buckets
}

} // verus!
