//! Ingestion of one event: seed a new event's follow point opposite the
//! current flee average, record it, and push it into the window.

use crate::fixed_circular_buffer::{evicted_by_push, push_step, FixedCircularBuffer};
use crate::rolling_average::{rolling_flee_average, toroidal_rolling_flee_average};
use crate::toroidal::{antipode, furthest_coordinates_toroidal};
use std::collections::HashMap;
use vstd::prelude::*;

verus! {

broadcast use vstd::std_specs::hash::group_hash_axioms;

/// A 128-bit identifier that the caller guarantees to be unique per event.
pub type EventId = u128;

/// An incoming event, known by its identifier alone.
pub struct Event {
    pub id: EventId,
}

/// The two attractor points of an event.
#[derive(PartialEq, Eq, Structural, Debug, Clone, Copy)]
pub struct EventInfo {
    pub follow_x: u32,
    pub follow_y: u32,
    pub flee_x: u32,
    pub flee_y: u32,
}

/// The point a new event is placed opposite to: the current flee average, or
/// the origin when there is none.
pub open spec fn seed_point(average: Option<(u32, u32)>) -> (int, int) {
    match average {
        Some(a) => (a.0 as int, a.1 as int),
        None => (0, 0),
    }
}

/// The record of a new event: its follow point opposite the seed point, its
/// flee point at the origin.
pub open spec fn new_event_info(average: Option<(u32, u32)>) -> EventInfo {
    let f = antipode(seed_point(average).0, seed_point(average).1);
    EventInfo { follow_x: f.0 as u32, follow_y: f.1 as u32, flee_x: 0, flee_y: 0 }
}

/// Takes in one event. The flee average of the window as it stands is
/// computed first; an identifier seen for the first time gets a record whose
/// follow point lies opposite that average, while a known one keeps its
/// record; then the identifier is pushed into the window, known or not.
/// Returns the average, to be handed in as the previous one on the next call.
pub fn process_event(
    event: &Event,
    buffer: &mut FixedCircularBuffer<EventId>,
    map: &mut HashMap<EventId, EventInfo>,
    previous_flee_average: &Option<(u32, u32)>,
) -> (r: Result<Option<(u32, u32)>, EventId>)
    requires
        old(buffer).well_formed(),
    ensures
        ({
            let average = rolling_flee_average(
                old(map)@,
                old(buffer)@,
                old(buffer).cap(),
                old(buffer).evicted_item(),
                *previous_flee_average,
            );
            &&& r == Result::<Option<(u32, u32)>, EventId>::Ok(average)
            &&& old(map)@.contains_key(event.id) ==> final(map)@ == old(map)@
            &&& !old(map)@.contains_key(event.id) ==> final(map)@ == old(map)@.insert(
                event.id,
                new_event_info(average),
            )
        }),
        final(buffer).well_formed(),
        final(buffer).cap() == old(buffer).cap(),
        final(buffer)@ == push_step(old(buffer)@, event.id, old(buffer).cap()),
        final(buffer).evicted_item() == evicted_by_push(old(buffer)@, old(buffer).cap()),
{
    let average = toroidal_rolling_flee_average(map, buffer, previous_flee_average);
    if !map.contains_key(&event.id) {
        let seed: (u32, u32) = match average {
            Some(a) => a,
            None => (0, 0),
        };
        let (follow_x, follow_y) = furthest_coordinates_toroidal(seed.0, seed.1);
        let info = EventInfo { follow_x, follow_y, flee_x: 0, flee_y: 0 };
        map.insert(event.id, info);
    }
    buffer.push_front(event.id);
    Ok(average)
}

} // verus!
