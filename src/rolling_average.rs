//! The average flee point of the events in the window, maintained in
//! constant time per event from the previous average.

use crate::fixed_circular_buffer::{evicted_by_push, push_step, FixedCircularBuffer};
use crate::process_event::{EventId, EventInfo};
use std::collections::HashMap;
use vstd::prelude::*;

verus! {

broadcast use vstd::std_specs::hash::group_hash_axioms;

/// Which update rule applies to the window as it stands.
#[derive(PartialEq, Eq, Structural, Debug, Clone, Copy)]
pub enum WindowPhase {
    /// Nothing in the window: there is no average.
    Empty,
    /// No previous average: the newest flee point is the average.
    FirstElement,
    /// The newest push found room, so the window has only grown: the newest
    /// point joins the mean.
    Growing,
    /// The window is full and its newest push evicted the oldest item: the
    /// newest point replaces the evicted one.
    SteadyState,
}

pub open spec fn phase_of(len: nat, cap: nat, has_previous: bool, evicted: bool) -> WindowPhase {
    if len == 0 {
        WindowPhase::Empty
    } else if !has_previous {
        WindowPhase::FirstElement
    } else if len == cap && evicted {
        WindowPhase::SteadyState
    } else {
        WindowPhase::Growing
    }
}

/// The phase of a window holding `len` items out of `capacity`, given
/// whether a previous average exists and whether the newest push evicted an
/// item.
pub fn window_phase(len: usize, capacity: usize, has_previous: bool, evicted: bool) -> (r: WindowPhase)
    ensures
        r == phase_of(len as nat, capacity as nat, has_previous, evicted),
{
    if len == 0 {
        WindowPhase::Empty
    } else if !has_previous {
        WindowPhase::FirstElement
    } else if len == capacity && evicted {
        WindowPhase::SteadyState
    } else {
        WindowPhase::Growing
    }
}

/// The mean of `n` values whose first `n - 1` averaged `prev`, the last
/// being `latest` (truncated).
pub open spec fn growing_mean(prev: int, latest: int, n: int) -> int {
    (prev * (n - 1) + latest) / n
}

/// One axis of the growing-phase update; the result never leaves `u32`.
pub fn growing_average(prev: u32, latest: u32, n: usize) -> (r: u32)
    requires
        n >= 1,
    ensures
        r == growing_mean(prev as int, latest as int, n as int),
{
    let m: u128 = (n - 1) as u128;
    let p: u128 = prev as u128;
    assert(p * m <= 0xffff_ffff * m) by (nonlinear_arith)
        requires p <= 0xffff_ffff;
    assert(m < 0x1_0000_0000_0000_0000);
    let num: u128 = p * m + latest as u128;
    let d: u128 = n as u128;
    assert(num / d <= 0xffff_ffff) by (nonlinear_arith)
        requires num <= 0xffff_ffff * m + 0xffff_ffff, d == m + 1, m >= 0;
    (num / d) as u32
}

/// The full-window update: `prev` scaled by `n - 1`, less the oldest value,
/// plus the newest, divided by `n - 1` (truncated). Absent where that divisor
/// is zero or the result is not a coordinate.
pub open spec fn steady_mean(prev: int, oldest: int, latest: int, n: int) -> Option<u32> {
    if n <= 1 {
        None
    } else {
        let num = prev * (n - 1) - oldest + latest;
        if num < 0 || num / (n - 1) > u32::MAX {
            None
        } else {
            Some((num / (n - 1)) as u32)
        }
    }
}

/// One axis of the full-window update.
pub fn steady_average(prev: u32, oldest: u32, latest: u32, n: usize) -> (r: Option<u32>)
    ensures
        r == steady_mean(prev as int, oldest as int, latest as int, n as int),
{
    if n <= 1 {
        return None;
    }
    let m: u128 = (n - 1) as u128;
    let p: u128 = prev as u128;
    assert(p * m <= 0xffff_ffff * m) by (nonlinear_arith)
        requires p <= 0xffff_ffff;
    assert(m < 0x1_0000_0000_0000_0000);
    let plus: u128 = p * m + latest as u128;
    if plus < oldest as u128 {
        return None;
    }
    let q: u128 = (plus - oldest as u128) / m;
    if q > u32::MAX as u128 {
        None
    } else {
        Some(q as u32)
    }
}

/// Both axes of the full-window update, present only where both are.
pub open spec fn steady_point(prev: (u32, u32), oldest: EventInfo, latest: EventInfo, n: int) -> Option<(u32, u32)> {
    match (
        steady_mean(prev.0 as int, oldest.flee_x as int, latest.flee_x as int, n),
        steady_mean(prev.1 as int, oldest.flee_y as int, latest.flee_y as int, n),
    ) {
        (Some(x), Some(y)) => Some((x, y)),
        _ => None,
    }
}

/// The rolling flee average of `window` (front first) over the records in
/// `map`, given the identifier that the newest push evicted and the previous
/// average. Absent when the window is empty, when the newest identifier has
/// no record, or, after an eviction from a full window, when the evicted
/// identifier has none or the update is undefined.
pub open spec fn rolling_flee_average(
    map: Map<EventId, EventInfo>,
    window: Seq<EventId>,
    cap: nat,
    evicted: Option<EventId>,
    prev: Option<(u32, u32)>,
) -> Option<(u32, u32)> {
    let n = window.len();
    let phase = phase_of(n, cap, prev is Some, evicted is Some);
    if phase == WindowPhase::Empty || !map.contains_key(window[0]) {
        None
    } else {
        let latest = map[window[0]];
        match prev {
            None => Some((latest.flee_x, latest.flee_y)),
            Some(p) => if phase == WindowPhase::Growing {
                Some(
                    (
                        growing_mean(p.0 as int, latest.flee_x as int, n as int) as u32,
                        growing_mean(p.1 as int, latest.flee_y as int, n as int) as u32,
                    ),
                )
            } else if map.contains_key(evicted->Some_0) {
                steady_point(p, map[evicted->Some_0], latest, n as int)
            } else {
                None
            },
        }
    }
}

/// The average flee point of the events in the buffer, updated from the
/// previous average in constant time. When the newest push evicted an item
/// from the full buffer, the newest point takes the evicted one's place;
/// otherwise it joins the mean.
pub fn toroidal_rolling_flee_average(
    event_map: &HashMap<EventId, EventInfo>,
    event_buffer: &FixedCircularBuffer<EventId>,
    previous_average: &Option<(u32, u32)>,
) -> (r: Option<(u32, u32)>)
    ensures
        r == rolling_flee_average(
            event_map@,
            event_buffer@,
            event_buffer.cap(),
            event_buffer.evicted_item(),
            *previous_average,
        ),
{
    let n = event_buffer.len();
    let evicted = event_buffer.last_evicted();
    let phase = window_phase(n, event_buffer.capacity(), previous_average.is_some(), evicted.is_some());
    if phase == WindowPhase::Empty {
        return None;
    }
    let latest_id: EventId = *event_buffer.get(0);
    let latest: EventInfo = match event_map.get(&latest_id) {
        Some(info) => *info,
        None => {
            return None;
        },
    };
    match previous_average {
        None => Some((latest.flee_x, latest.flee_y)),
        Some(p) => {
            if phase == WindowPhase::Growing {
                Some((growing_average(p.0, latest.flee_x, n), growing_average(p.1, latest.flee_y, n)))
            } else {
                let oldest_id: EventId = match evicted {
                    Some(id) => *id,
                    None => {
                        return None;
                    },
                };
                match event_map.get(&oldest_id) {
                    Some(oldest) => {
                        match (
                            steady_average(p.0, oldest.flee_x, latest.flee_x, n),
                            steady_average(p.1, oldest.flee_y, latest.flee_y, n),
                        ) {
                            (Some(x), Some(y)) => Some((x, y)),
                            _ => None,
                        }
                    },
                    None => None,
                }
            }
        },
    }
}

/// Growing from nothing: pushing one event onto an empty window, with no
/// previous average, makes its flee point the average; pushing a second into
/// a window with room for at least two, and feeding that average back, gives
/// the truncated mean of the two points.
pub proof fn lemma_growing_phase(map: Map<EventId, EventInfo>, first: EventId, second: EventId, cap: nat)
    requires
        map.contains_key(first),
        map.contains_key(second),
        cap >= 2,
    ensures
        ({
            let a = map[first];
            let b = map[second];
            let empty = Seq::<EventId>::empty();
            let w1 = push_step(empty, first, cap);
            let one = rolling_flee_average(map, w1, cap, evicted_by_push(empty, cap), None);
            let w2 = push_step(w1, second, cap);
            &&& one == Some((a.flee_x, a.flee_y))
            &&& rolling_flee_average(map, w2, cap, evicted_by_push(w1, cap), one) == Some(
                (
                    ((a.flee_x as int + b.flee_x as int) / 2) as u32,
                    ((a.flee_y as int + b.flee_y as int) / 2) as u32,
                ),
            )
        }),
{
    let empty = Seq::<EventId>::empty();
    let w1 = push_step(empty, first, cap);
    assert(w1 =~= seq![first]);
    assert(push_step(w1, second, cap) =~= seq![second, first]);
}

} // verus!
