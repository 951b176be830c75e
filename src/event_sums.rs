//! Sums of the attractor points recorded for the events in the window.

use crate::fixed_circular_buffer::FixedCircularBuffer;
use crate::process_event::{EventId, EventInfo};
use std::collections::HashMap;
use vstd::prelude::*;

verus! {

broadcast use vstd::std_specs::hash::group_hash_axioms;

/// The flee point of `e` when `flee` holds, else its follow point.
pub open spec fn info_point(e: EventInfo, flee: bool) -> (int, int) {
    if flee {
        (e.flee_x as int, e.flee_y as int)
    } else {
        (e.follow_x as int, e.follow_y as int)
    }
}

/// Per-axis sums of the chosen point over the identifiers in `ids` that have
/// a record in `map`; identifiers without one add nothing.
pub open spec fn point_sums(map: Map<EventId, EventInfo>, ids: Seq<EventId>, flee: bool) -> (int, int)
    decreases ids.len(),
{
    if ids.len() == 0 {
        (0, 0)
    } else {
        let s = point_sums(map, ids.drop_last(), flee);
        if map.contains_key(ids.last()) {
            let p = info_point(map[ids.last()], flee);
            (s.0 + p.0, s.1 + p.1)
        } else {
            s
        }
    }
}

proof fn lemma_point_sums_bounded(map: Map<EventId, EventInfo>, ids: Seq<EventId>, flee: bool)
    ensures
        0 <= point_sums(map, ids, flee).0 <= ids.len() * 0xffff_ffff,
        0 <= point_sums(map, ids, flee).1 <= ids.len() * 0xffff_ffff,
    decreases ids.len(),
{
    if ids.len() > 0 {
        lemma_point_sums_bounded(map, ids.drop_last(), flee);
    }
}

fn sum_points(buffer: &FixedCircularBuffer<EventId>, map: &HashMap<EventId, EventInfo>, flee: bool) -> (r: (u64, u64))
    requires
        buffer@.len() <= u32::MAX,
    ensures
        r.0 == point_sums(map@, buffer@, flee).0,
        r.1 == point_sums(map@, buffer@, flee).1,
{
    let n = buffer.len();
    let mut sum_x: u64 = 0;
    let mut sum_y: u64 = 0;
    let mut i: usize = 0;
    while i < n
        invariant
            n == buffer@.len(),
            n <= u32::MAX,
            i <= n,
            sum_x == point_sums(map@, buffer@.take(i as int), flee).0,
            sum_y == point_sums(map@, buffer@.take(i as int), flee).1,
        decreases n - i,
    {
        let id: EventId = *buffer.get(i);
        proof {
            assert(buffer@.take(i + 1).drop_last() =~= buffer@.take(i as int));
            lemma_point_sums_bounded(map@, buffer@.take(i as int), flee);
        }
        match map.get(&id) {
            Some(info) => {
                if flee {
                    sum_x = sum_x + info.flee_x as u64;
                    sum_y = sum_y + info.flee_y as u64;
                } else {
                    sum_x = sum_x + info.follow_x as u64;
                    sum_y = sum_y + info.follow_y as u64;
                }
            },
            None => {},
        }
        i = i + 1;
    }
    assert(buffer@.take(n as int) =~= buffer@);
    (sum_x, sum_y)
}

/// Per-axis sums of the flee points recorded for the identifiers in the
/// buffer, each occurrence counted.
pub fn sum_event_info_flees(buffer: &FixedCircularBuffer<EventId>, map: &HashMap<EventId, EventInfo>) -> (r: (u64, u64))
    requires
        buffer@.len() <= u32::MAX,
    ensures
        r.0 == point_sums(map@, buffer@, true).0,
        r.1 == point_sums(map@, buffer@, true).1,
{
    sum_points(buffer, map, true)
}

/// Per-axis sums of the follow points recorded for the identifiers in the
/// buffer, each occurrence counted.
pub fn sum_event_info_follows(buffer: &FixedCircularBuffer<EventId>, map: &HashMap<EventId, EventInfo>) -> (r: (u64, u64))
    requires
        buffer@.len() <= u32::MAX,
    ensures
        r.0 == point_sums(map@, buffer@, false).0,
        r.1 == point_sums(map@, buffer@, false).1,
{
    sum_points(buffer, map, false)
}

} // verus!
