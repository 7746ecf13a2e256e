//! Reading a day-keyed map out in calendar order.

use crate::aggregate::{has_day, strictly_ascending, DayBucket, DayTotals};
use crate::event::DayKey;
use std::collections::BTreeMap;
use vstd::prelude::*;
use vstd::std_specs::btree::{increasing_seq, spec_btree_map_iter};
use vstd::std_specs::cmp::OrdSpec;
use vstd::std_specs::iter::IteratorSpec;

verus! {

/// The entries of `by_day` as buckets, earliest day first: every key once,
/// with its value.
pub fn buckets_in_order(by_day: &BTreeMap<DayKey, DayTotals>) -> (buckets: Vec<DayBucket>)
    ensures
        strictly_ascending(buckets@),
        buckets@.len() == by_day@.dom().len(),
        forall|d: DayKey| has_day(buckets@, d) <==> by_day@.contains_key(d),
        forall|i: int|
            0 <= i < buckets@.len() ==> {
                &&& by_day@.contains_key((#[trigger] buckets@[i]).day)
                &&& by_day@[buckets@[i].day] == buckets@[i].totals
            },
{
    let mut buckets: Vec<DayBucket> = Vec::new();
    for entry in it: by_day.iter()
        invariant
            buckets@.len() == it.index(),
            it.seq() == spec_btree_map_iter(by_day).remaining(),
            forall|i: int|
                0 <= i < buckets@.len() ==> {
                    &&& (#[trigger] buckets@[i]).day == *it.seq()[i].0
                    &&& buckets@[i].totals == *it.seq()[i].1
                },
    {
        buckets.push(DayBucket { day: *entry.0, totals: *entry.1 });
    }
    proof {
        let pairs = spec_btree_map_iter(by_day).remaining();
        let keys = pairs.map_values(|kv: (&DayKey, &DayTotals)| *kv.0);
        assert(buckets@.len() == pairs.len());
        assert(increasing_seq(keys));
        assert forall|i: int, j: int| 0 <= i < j < buckets@.len() implies (#[trigger] buckets@[i]).day
            < (#[trigger] buckets@[j]).day by {
            assert(keys[i].cmp_spec(&keys[j]) is Less);
        }
        assert forall|d: DayKey| has_day(buckets@, d) <==> by_day@.contains_key(d) by {
            if by_day@.contains_key(d) {
                assert(pairs.contains((&d, &by_day@[d])));
                let i = choose|i: int| 0 <= i < pairs.len() && pairs[i] == (&d, &by_day@[d]);
                assert(buckets@[i].day == d);
            }
            if has_day(buckets@, d) {
                let i = choose|i: int| 0 <= i < buckets@.len() && (#[trigger] buckets@[i]).day == d;
                assert(by_day@.contains_key(*pairs[i].0));
            }
        }
    }
    buckets
}

} // verus!
