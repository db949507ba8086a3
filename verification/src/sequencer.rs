//! The event sequencer: the ordered, timestamped batch of output events for
//! one translated note, with the modifier change placed before a press and
//! after a release.

use vstd::prelude::*;

use crate::keys::LogicalKey;

verus! {

/// The synthetic-clock step between consecutive output events, in
/// microseconds. Strictly positive, so timestamps within a batch strictly
/// increase.
pub const TICK_USEC: u64 = 10000;

/// One event handed to the virtual keyboard sink: a key state change, or the
/// marker telling the sink to report the changes so far.
#[derive(Clone, Copy, Debug, PartialEq, Eq, Structural)]
pub enum OutputEvent {
    KeyChange { key: LogicalKey, pressed: bool, time: u64 },
    SyncMarker { time: u64 },
}

/// The timestamp an event carries.
pub open spec fn event_time(e: OutputEvent) -> u64 {
    match e {
        OutputEvent::KeyChange { key: _, pressed: _, time } => time,
        OutputEvent::SyncMarker { time } => time,
    }
}

/// True for a state change of the shift key in the given direction.
pub open spec fn is_shift_event(e: OutputEvent, pressed: bool) -> bool {
    e matches OutputEvent::KeyChange { key: LogicalKey::LeftShift, pressed: p, time: _ }
        && p == pressed
}

/// How many shift-key changes in the given direction a batch holds.
pub open spec fn count_shift_events(s: Seq<OutputEvent>, pressed: bool) -> int
    decreases s.len(),
{
    if s.len() == 0 {
        0
    } else {
        count_shift_events(s.drop_last(), pressed) + if is_shift_event(s.last(), pressed) {
            1int
        } else {
            0int
        }
    }
}

/// Shift-change counts distribute over concatenation of batches.
pub proof fn lemma_count_shift_events_append(a: Seq<OutputEvent>, b: Seq<OutputEvent>, pressed: bool)
    ensures
        count_shift_events(a + b, pressed) == count_shift_events(a, pressed) + count_shift_events(
            b,
            pressed,
        ),
    decreases b.len(),
{
    if b.len() == 0 {
        assert(a + b =~= a);
    } else {
        lemma_count_shift_events_append(a, b.drop_last(), pressed);
        assert((a + b).drop_last() =~= a + b.drop_last());
        assert((a + b).last() == b.last());
    }
}

/// The batch of output events for one translated note.
///
/// A modifier change demanded by the note (`shift_changed`) is emitted ahead
/// of a press, so the key goes down under the right modifier state, and
/// after a release, so the released key still reports under the state it was
/// pressed with. Every key change is followed by a sync marker, and each
/// event sits one clock tick after the one before it.
pub open spec fn sequence_spec(
    key: LogicalKey,
    pressed: bool,
    shift_changed: bool,
    desired_shift: bool,
    base: u64,
) -> Seq<OutputEvent> {
    if shift_changed && pressed {
        seq![
            OutputEvent::KeyChange { key: LogicalKey::LeftShift, pressed: desired_shift, time: base },
            OutputEvent::SyncMarker { time: (base + TICK_USEC) as u64 },
            OutputEvent::KeyChange { key, pressed, time: (base + 2 * TICK_USEC) as u64 },
            OutputEvent::SyncMarker { time: (base + 3 * TICK_USEC) as u64 },
        ]
    } else if shift_changed {
        seq![
            OutputEvent::KeyChange { key, pressed, time: base },
            OutputEvent::SyncMarker { time: (base + TICK_USEC) as u64 },
            OutputEvent::KeyChange {
                key: LogicalKey::LeftShift,
                pressed: false,
                time: (base + 2 * TICK_USEC) as u64,
            },
            OutputEvent::SyncMarker { time: (base + 3 * TICK_USEC) as u64 },
        ]
    } else {
        seq![
            OutputEvent::KeyChange { key, pressed, time: base },
            OutputEvent::SyncMarker { time: (base + TICK_USEC) as u64 },
        ]
    }
}

/// Build the batch of output events for one translated note.
pub fn sequence(
    key: LogicalKey,
    pressed: bool,
    shift_changed: bool,
    desired_shift: bool,
    base: u64,
) -> (evs: Vec<OutputEvent>)
    requires
        base <= u64::MAX - 3 * TICK_USEC,
    ensures
        evs@ == sequence_spec(key, pressed, shift_changed, desired_shift, base),
{
    let mut evs: Vec<OutputEvent> = Vec::new();
    if shift_changed && pressed {
        evs.push(
            OutputEvent::KeyChange { key: LogicalKey::LeftShift, pressed: desired_shift, time: base },
        );
        evs.push(OutputEvent::SyncMarker { time: base + TICK_USEC });
        evs.push(OutputEvent::KeyChange { key, pressed, time: base + 2 * TICK_USEC });
        evs.push(OutputEvent::SyncMarker { time: base + 3 * TICK_USEC });
    } else if shift_changed {
        evs.push(OutputEvent::KeyChange { key, pressed, time: base });
        evs.push(OutputEvent::SyncMarker { time: base + TICK_USEC });
        evs.push(
            OutputEvent::KeyChange {
                key: LogicalKey::LeftShift,
                pressed: false,
                time: base + 2 * TICK_USEC,
            },
        );
        evs.push(OutputEvent::SyncMarker { time: base + 3 * TICK_USEC });
    } else {
        evs.push(OutputEvent::KeyChange { key, pressed, time: base });
        evs.push(OutputEvent::SyncMarker { time: base + TICK_USEC });
    }
    proof {
        assert(evs@ =~= sequence_spec(key, pressed, shift_changed, desired_shift, base));
    }
    evs
}

/// Timestamps within one batch strictly increase.
pub proof fn lemma_sequence_timestamps_strictly_increase(
    key: LogicalKey,
    pressed: bool,
    shift_changed: bool,
    desired_shift: bool,
    base: u64,
)
    requires
        base <= u64::MAX - 3 * TICK_USEC,
    ensures
        ({
            let s = sequence_spec(key, pressed, shift_changed, desired_shift, base);
            forall|i: int, j: int|
                0 <= i < j < s.len() ==> event_time(s[i]) < event_time(s[j])
        }),
{
}

/// The exact shift-key changes a batch holds: at most one, in the direction
/// the decision demands, and none when the modifier state is unchanged.
pub proof fn lemma_sequence_shift_counts(
    key: LogicalKey,
    pressed: bool,
    shift_changed: bool,
    desired_shift: bool,
    base: u64,
)
    requires
        key != LogicalKey::LeftShift,
    ensures
        ({
            let s = sequence_spec(key, pressed, shift_changed, desired_shift, base);
            &&& count_shift_events(s, true) == if shift_changed && pressed && desired_shift {
                1int
            } else {
                0int
            }
            &&& count_shift_events(s, false) == if shift_changed && !(pressed && desired_shift) {
                1int
            } else {
                0int
            }
        }),
{
    let s = sequence_spec(key, pressed, shift_changed, desired_shift, base);
    reveal_with_fuel(count_shift_events, 5);
    if shift_changed {
        assert(s.len() == 4);
        assert(s.drop_last() =~= s.subrange(0, 3));
        assert(s.drop_last().drop_last() =~= s.subrange(0, 2));
        assert(s.drop_last().drop_last().drop_last() =~= s.subrange(0, 1));
        assert(s.drop_last().drop_last().drop_last().drop_last() =~= s.subrange(0, 0));
    } else {
        assert(s.len() == 2);
        assert(s.drop_last() =~= s.subrange(0, 1));
        assert(s.drop_last().drop_last() =~= s.subrange(0, 0));
    }
}

} // verus!
