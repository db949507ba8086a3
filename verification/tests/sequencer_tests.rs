use midihid::keys::LogicalKey;
use midihid::sequencer::OutputEvent;
use midihid::sequencer::sequence;

#[test]
fn unchanged_shift_emits_key_and_sync_only() {
    let evs = sequence(LogicalKey::A, true, false, false, 0);
    assert_eq!(
        evs,
        vec![
            OutputEvent::KeyChange { key: LogicalKey::A, pressed: true, time: 0 },
            OutputEvent::SyncMarker { time: 10000 },
        ]
    );
}

#[test]
fn shift_change_on_press_leads_the_key_event() {
    let evs = sequence(LogicalKey::B, true, true, true, 0);
    assert_eq!(
        evs,
        vec![
            OutputEvent::KeyChange { key: LogicalKey::LeftShift, pressed: true, time: 0 },
            OutputEvent::SyncMarker { time: 10000 },
            OutputEvent::KeyChange { key: LogicalKey::B, pressed: true, time: 20000 },
            OutputEvent::SyncMarker { time: 30000 },
        ]
    );
}

#[test]
fn shift_change_on_release_trails_the_key_event() {
    let evs = sequence(LogicalKey::B, false, true, false, 50000);
    assert_eq!(
        evs,
        vec![
            OutputEvent::KeyChange { key: LogicalKey::B, pressed: false, time: 50000 },
            OutputEvent::SyncMarker { time: 60000 },
            OutputEvent::KeyChange { key: LogicalKey::LeftShift, pressed: false, time: 70000 },
            OutputEvent::SyncMarker { time: 80000 },
        ]
    );
}

#[test]
fn timestamps_strictly_increase_within_a_batch() {
    for (pressed, changed, desired) in
        [(true, true, true), (true, false, false), (false, true, false), (false, false, false)]
    {
        let evs = sequence(LogicalKey::C, pressed, changed, desired, 12345);
        let times: Vec<u64> = evs
            .iter()
            .map(|e| match e {
                OutputEvent::KeyChange { time, .. } => *time,
                OutputEvent::SyncMarker { time } => *time,
            })
            .collect();
        for w in times.windows(2) {
            assert!(w[0] < w[1]);
        }
    }
}
