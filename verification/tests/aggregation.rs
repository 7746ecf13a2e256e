use baby_charts::aggregate::{aggregate_by_day, classify, Category, DayBucket, DayTotals, Sample};
use baby_charts::event::{BreastSide, Event, MilkKind, Timestamp};
use baby_charts::graph::GraphType;

fn at(day: i32, millis: u32) -> Timestamp {
    Timestamp { day, millis }
}

fn bottle(day: i32, volume: u32, milk: MilkKind) -> Event {
    Event::BottleFeeding { time: at(day, 1_000), volume, milk }
}

fn sleep(start_day: i32, end_day: Option<i32>, duration: i64) -> Event {
    Event::SleepInterval { start: at(start_day, 80_000_000), end: end_day.map(|d| at(d, 20_000_000)), duration }
}

fn days(buckets: &[DayBucket]) -> Vec<i32> {
    buckets.iter().map(|b| b.day).collect()
}

#[test]
fn timestamp_accessors() {
    let t = at(7, 123);
    assert_eq!(t.day_key(), 7);
    assert_eq!(Timestamp::at_midnight(7), Timestamp { day: 7, millis: 0 });
    assert!(Timestamp::at_midnight(7).is_before(&t));
    assert!(!t.is_before(&t));
    assert!(at(6, 999).is_before(&at(7, 0)));
    assert!(!at(8, 0).is_before(&at(7, 999)));
}

#[test]
fn event_time_is_the_variants_own_instant() {
    assert_eq!(bottle(3, 10, MilkKind::Formula).time(), at(3, 1_000));
    let feed = Event::BreastFeeding { side: BreastSide::Left, start: at(4, 5), duration: 60_000 };
    assert_eq!(feed.time(), at(4, 5));
    assert_eq!(sleep(5, Some(6), 1).time(), at(5, 80_000_000));
    assert_eq!(sleep(5, None, 1).time(), at(5, 80_000_000));
    let pump = Event::PumpingInterval { start: at(9, 77), milliliters: 120 };
    assert_eq!(pump.time(), at(9, 77));
}

#[test]
fn classify_bottle_chart() {
    assert_eq!(
        classify(GraphType::Bottle, &bottle(3, 4000, MilkKind::BreastMilk)),
        Some(Sample { day: 3, category: Category::BreastMilk, amount: 4000 })
    );
    assert_eq!(
        classify(GraphType::Bottle, &bottle(3, 2000, MilkKind::Formula)),
        Some(Sample { day: 3, category: Category::Formula, amount: 2000 })
    );
    assert_eq!(
        classify(GraphType::Bottle, &bottle(3, 500, MilkKind::Unknown)),
        Some(Sample { day: 3, category: Category::Unknown, amount: 500 })
    );
    let right = Event::BreastFeeding { side: BreastSide::Right, start: at(8, 0), duration: 900_000 };
    assert_eq!(
        classify(GraphType::Bottle, &right),
        Some(Sample { day: 8, category: Category::BreastFeeding, amount: 900_000 })
    );
    assert_eq!(classify(GraphType::Bottle, &sleep(1, Some(2), 5)), None);
    assert_eq!(classify(GraphType::Bottle, &Event::PumpingInterval { start: at(1, 0), milliliters: 5 }), None);
}

#[test]
fn classify_sleep_counts_on_the_day_it_ended() {
    assert_eq!(
        classify(GraphType::MaxSleep, &sleep(10, Some(11), 3_600_000)),
        Some(Sample { day: 11, category: Category::Sleep, amount: 3_600_000 })
    );
    assert_eq!(classify(GraphType::MaxSleep, &sleep(10, None, 3_600_000)), None);
    assert_eq!(classify(GraphType::MaxSleep, &bottle(10, 1, MilkKind::Formula)), None);
}

#[test]
fn classify_pumping() {
    let pump = Event::PumpingInterval { start: at(9, 77), milliliters: 120 };
    assert_eq!(
        classify(GraphType::Pumping, &pump),
        Some(Sample { day: 9, category: Category::Pumped, amount: 120 })
    );
    assert_eq!(classify(GraphType::Pumping, &bottle(9, 1, MilkKind::Formula)), None);
    assert_eq!(classify(GraphType::MaxSleep, &pump), None);
}

#[test]
fn totals_start_at_zero_and_merge_by_category() {
    let mut t = DayTotals::new();
    assert_eq!(
        t,
        DayTotals { breast_milk: 0, formula: 0, unknown: 0, breast_feeding: 0, pumped: 0, longest_sleep: 0 }
    );
    t.merge(&Sample { day: 1, category: Category::BreastMilk, amount: 4 });
    t.merge(&Sample { day: 1, category: Category::BreastMilk, amount: 6 });
    t.merge(&Sample { day: 1, category: Category::Formula, amount: 2 });
    t.merge(&Sample { day: 1, category: Category::Unknown, amount: 1 });
    t.merge(&Sample { day: 1, category: Category::BreastFeeding, amount: -5 });
    t.merge(&Sample { day: 1, category: Category::Pumped, amount: 9 });
    t.merge(&Sample { day: 1, category: Category::Sleep, amount: 7 });
    t.merge(&Sample { day: 1, category: Category::Sleep, amount: 3 });
    assert_eq!(
        t,
        DayTotals { breast_milk: 10, formula: 2, unknown: 1, breast_feeding: -5, pumped: 9, longest_sleep: 7 }
    );
    assert_eq!(t.get(Category::BreastMilk), 10);
    assert_eq!(t.get(Category::Formula), 2);
    assert_eq!(t.get(Category::Unknown), 1);
    assert_eq!(t.get(Category::BreastFeeding), -5);
    assert_eq!(t.get(Category::Pumped), 9);
    assert_eq!(t.get(Category::Sleep), 7);
}

#[test]
fn totals_hold_sums_beyond_sixty_four_bits() {
    let mut t = DayTotals::new();
    t.merge(&Sample { day: 1, category: Category::BreastFeeding, amount: i64::MAX });
    t.merge(&Sample { day: 1, category: Category::BreastFeeding, amount: i64::MAX });
    assert_eq!(t.breast_feeding, 2 * (i64::MAX as i128));
}

#[test]
fn aggregate_of_nothing_is_empty() {
    assert!(aggregate_by_day(GraphType::Bottle, &[]).is_empty());
    assert!(aggregate_by_day(GraphType::MaxSleep, &[]).is_empty());
    assert!(aggregate_by_day(GraphType::Pumping, &[]).is_empty());
}

#[test]
fn aggregate_keys_ascend_whatever_the_input_order() {
    let events = vec![
        bottle(9, 1, MilkKind::Formula),
        bottle(2, 1, MilkKind::Formula),
        bottle(5, 1, MilkKind::Formula),
        bottle(2, 1, MilkKind::BreastMilk),
        bottle(-4, 1, MilkKind::Unknown),
        bottle(9, 1, MilkKind::Formula),
        bottle(i32::MAX, 1, MilkKind::Formula),
        bottle(i32::MIN, 1, MilkKind::Formula),
    ];
    let buckets = aggregate_by_day(GraphType::Bottle, &events);
    assert_eq!(days(&buckets), vec![i32::MIN, -4, 2, 5, 9, i32::MAX]);
    for pair in buckets.windows(2) {
        assert!(pair[0].day < pair[1].day);
    }
}

#[test]
fn aggregate_is_sparse_and_zero_filled() {
    let events = vec![
        bottle(1, 4000, MilkKind::BreastMilk),
        sleep(2, Some(2), 100),
        bottle(4, 2000, MilkKind::Formula),
        bottle(1, 1500, MilkKind::BreastMilk),
    ];
    let buckets = aggregate_by_day(GraphType::Bottle, &events);
    assert_eq!(days(&buckets), vec![1, 4]);
    assert_eq!(
        buckets[0].totals,
        DayTotals { breast_milk: 5500, formula: 0, unknown: 0, breast_feeding: 0, pumped: 0, longest_sleep: 0 }
    );
    assert_eq!(
        buckets[1].totals,
        DayTotals { breast_milk: 0, formula: 2000, unknown: 0, breast_feeding: 0, pumped: 0, longest_sleep: 0 }
    );
}

#[test]
fn aggregate_sums_both_breasts_into_one_duration() {
    let events = vec![
        Event::BreastFeeding { side: BreastSide::Left, start: at(3, 0), duration: 600_000 },
        Event::BreastFeeding { side: BreastSide::Right, start: at(3, 700_000), duration: 300_000 },
    ];
    let buckets = aggregate_by_day(GraphType::Bottle, &events);
    assert_eq!(buckets.len(), 1);
    assert_eq!(buckets[0].totals.breast_feeding, 900_000);
}

#[test]
fn aggregate_keeps_the_longest_sleep_of_a_day() {
    let events = vec![
        sleep(1, Some(2), 3_000),
        sleep(2, Some(2), 9_000),
        sleep(2, Some(2), 4_000),
        sleep(2, None, 99_000),
        sleep(2, Some(3), -50),
    ];
    let buckets = aggregate_by_day(GraphType::MaxSleep, &events);
    assert_eq!(days(&buckets), vec![2, 3]);
    assert_eq!(buckets[0].totals.longest_sleep, 9_000);
    assert_eq!(buckets[1].totals.longest_sleep, 0);
}

#[test]
fn aggregate_skips_sleeps_that_have_not_ended() {
    let events = vec![sleep(1, None, 5), sleep(2, None, 6), sleep(3, None, 7)];
    assert!(aggregate_by_day(GraphType::MaxSleep, &events).is_empty());
}

#[test]
fn aggregate_sums_pumping_per_day() {
    let events = vec![
        Event::PumpingInterval { start: at(6, 0), milliliters: 100 },
        Event::PumpingInterval { start: at(5, 0), milliliters: 30 },
        Event::PumpingInterval { start: at(6, 9), milliliters: u32::MAX },
    ];
    let buckets = aggregate_by_day(GraphType::Pumping, &events);
    assert_eq!(days(&buckets), vec![5, 6]);
    assert_eq!(buckets[0].totals.pumped, 30);
    assert_eq!(buckets[1].totals.pumped, 100 + u32::MAX as i128);
}

#[test]
fn aggregate_does_not_depend_on_order_within_a_day() {
    let a = vec![bottle(1, 10, MilkKind::Formula), bottle(1, 20, MilkKind::Formula), bottle(1, 5, MilkKind::Unknown)];
    let b = vec![bottle(1, 5, MilkKind::Unknown), bottle(1, 20, MilkKind::Formula), bottle(1, 10, MilkKind::Formula)];
    assert_eq!(aggregate_by_day(GraphType::Bottle, &a), aggregate_by_day(GraphType::Bottle, &b));
}

#[test]
fn aggregate_twice_gives_the_same() {
    let events = vec![bottle(3, 10, MilkKind::Formula), sleep(1, Some(2), 7), bottle(1, 20, MilkKind::BreastMilk)];
    for kind in [GraphType::Bottle, GraphType::MaxSleep, GraphType::Pumping] {
        assert_eq!(aggregate_by_day(kind, &events), aggregate_by_day(kind, &events));
    }
}

#[test]
fn map_entries_come_out_in_day_order() {
    let mut by_day = std::collections::BTreeMap::new();
    for day in [5, -1, 3, 12, 0] {
        let mut totals = DayTotals::new();
        totals.merge(&Sample { day, category: Category::Pumped, amount: 10 * day as i64 });
        by_day.insert(day, totals);
    }
    let buckets = baby_charts::day_map::buckets_in_order(&by_day);
    assert_eq!(days(&buckets), vec![-1, 0, 3, 5, 12]);
    for bucket in &buckets {
        assert_eq!(bucket.totals.pumped, 10 * bucket.day as i128);
        assert_eq!(bucket.totals, by_day[&bucket.day]);
    }
    assert!(baby_charts::day_map::buckets_in_order(&std::collections::BTreeMap::new()).is_empty());
}

#[test]
fn aggregate_does_not_depend_on_the_order_of_the_log() {
    let forward = vec![
        bottle(1, 10, MilkKind::Formula),
        sleep(1, Some(2), 700),
        bottle(3, 20, MilkKind::BreastMilk),
        Event::PumpingInterval { start: at(2, 0), milliliters: 30 },
        sleep(1, Some(2), 900),
        bottle(1, 5, MilkKind::Formula),
    ];
    let mut backward = forward.clone();
    backward.reverse();
    for kind in [GraphType::Bottle, GraphType::MaxSleep, GraphType::Pumping] {
        assert_eq!(aggregate_by_day(kind, &forward), aggregate_by_day(kind, &backward));
        assert_eq!(kind.data(&forward), kind.data(&backward));
    }
}
