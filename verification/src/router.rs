//! The real-time event path.
//!
//! Each processing cycle delivers a batch of performance events and one
//! transport snapshot. Every event carries a three-byte payload whose second
//! byte is a numeric code; a fixed table maps nine codes to the modes
//! `0 ..= 8`, and any other code is ignored. After the batch, the transport
//! position — rendered to decimal text by the caller that queried the host —
//! is written into the holder; a failed host query skips the update and the
//! last-known position is retained.

use vstd::prelude::*;

use crate::state::SharedState;

verus! {

/// The fixed decoding table: the mode selected by a performance-event code,
/// or `None` for a code outside the defined set.
pub open spec fn mode_for_code(code: u8) -> Option<u8> {
    if code == 69 {
        Some(0u8)
    } else if code == 71 {
        Some(1u8)
    } else if code == 72 {
        Some(2u8)
    } else if code == 74 {
        Some(3u8)
    } else if code == 76 {
        Some(4u8)
    } else if code == 77 {
        Some(5u8)
    } else if code == 79 {
        Some(6u8)
    } else if code == 81 {
        Some(7u8)
    } else if code == 83 {
        Some(8u8)
    } else {
        None
    }
}

/// The mode after one event with payload `data`, starting from mode `m`:
/// the mapped value of `data[1]` if that code is defined, else `m` unchanged.
pub open spec fn step_mode(m: u8, data: [u8; 3]) -> u8 {
    match mode_for_code(data[1]) {
        Some(v) => v,
        None => m,
    }
}

/// The mode after a whole batch of events, applied in order from mode `m`.
pub open spec fn mode_after(m: u8, events: Seq<[u8; 3]>) -> u8
    decreases events.len(),
{
    if events.len() == 0 {
        m
    } else {
        step_mode(mode_after(m, events.drop_last()), events.last())
    }
}

/// Decode a three-byte event payload and write the selected mode, if any,
/// into the holder. An unrecognized code changes nothing; the position is
/// never touched.
pub fn process_midi_event(state: &mut SharedState, data: [u8; 3])
    ensures
        final(state).mode == step_mode(old(state).mode, data),
        final(state).position == old(state).position,
{
    match data[1] {
        69 => state.set_mode(0),
        71 => state.set_mode(1),
        72 => state.set_mode(2),
        74 => state.set_mode(3),
        76 => state.set_mode(4),
        77 => state.set_mode(5),
        79 => state.set_mode(6),
        81 => state.set_mode(7),
        83 => state.set_mode(8),
        _ => (),
    }
}

/// Process one batch of event payloads in order.
pub fn process_events(state: &mut SharedState, events: &Vec<[u8; 3]>)
    ensures
        final(state).mode == mode_after(old(state).mode, events@),
        final(state).position == old(state).position,
{
    let n = events.len();
    let mut i: usize = 0;
    while i < n
        invariant
            i <= n,
            n == events@.len(),
            state.mode == mode_after(old(state).mode, events@.take(i as int)),
            state.position == old(state).position,
        decreases n - i,
    {
        assert(events@.take(i + 1).drop_last() =~= events@.take(i as int));
        assert(events@.take(i + 1).last() == events@[i as int]);
        process_midi_event(state, events[i]);
        i = i + 1;
    }
    assert(events@.take(n as int) =~= events@);
}

/// Apply the once-per-cycle transport snapshot. `None` means the host could
/// not supply a position this cycle: the update is skipped and the
/// last-known position is retained.
pub fn apply_transport(state: &mut SharedState, snapshot: Option<String>)
    ensures
        final(state).mode == old(state).mode,
        snapshot is Some ==> final(state).position == snapshot.unwrap(),
        snapshot is None ==> final(state).position == old(state).position,
{
    match snapshot {
        Some(p) => state.set_position(p),
        None => (),
    }
}

/// One whole processing cycle: the event batch in order, then the transport
/// snapshot.
pub fn process_cycle(state: &mut SharedState, events: &Vec<[u8; 3]>, snapshot: Option<String>)
    ensures
        final(state).mode == mode_after(old(state).mode, events@),
        snapshot is Some ==> final(state).position == snapshot.unwrap(),
        snapshot is None ==> final(state).position == old(state).position,
{
    process_events(state, events);
    apply_transport(state, snapshot);
}

/// Law: an event whose code is in the table sets the mode to exactly the
/// mapped value, whatever the mode was; one whose code is outside the table
/// leaves the mode unchanged.
pub proof fn lemma_event_decoding(m: u8, data: [u8; 3])
    ensures
        mode_for_code(data[1]) is Some ==> step_mode(m, data) == mode_for_code(data[1]).unwrap(),
        mode_for_code(data[1]) is None ==> step_mode(m, data) == m,
{
}

/// Law: no mode outside `0 ..= 8` is reachable through events. Starting from
/// a mode in the defined set (or the initial default `0`), any batch of
/// events leaves the mode in `0 ..= 8`.
pub proof fn lemma_modes_reachable_by_events(m: u8, events: Seq<[u8; 3]>)
    requires
        m <= 8,
    ensures
        mode_after(m, events) <= 8,
    decreases events.len(),
{
    if events.len() > 0 {
        lemma_modes_reachable_by_events(m, events.drop_last());
    }
}

} // verus!
