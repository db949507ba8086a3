//! The translation engine: per incoming note event, resolve the key, decide
//! the shift transition, sequence the output batch, and persist the modifier
//! state. A ghost log of everything emitted carries the no-stuck-key
//! invariant: shift presses and releases in the log balance the current
//! modifier state exactly.

use vstd::prelude::*;

use crate::keymap::KeyMap;
use crate::keys::LogicalKey;
use crate::midi::MidiMessage;
use crate::midi::classify;
use crate::midi::spec_classify;
use crate::sequencer::OutputEvent;
use crate::sequencer::TICK_USEC;
use crate::sequencer::count_shift_events;
use crate::sequencer::event_time;
use crate::sequencer::lemma_count_shift_events_append;
use crate::sequencer::lemma_sequence_shift_counts;
use crate::sequencer::lemma_sequence_timestamps_strictly_increase;
use crate::sequencer::sequence;
use crate::sequencer::sequence_spec;
use crate::shift::SHIFT_VELOCITY_THRESHOLD;
use crate::shift::decide;
use crate::shift::spec_decide;

verus! {

/// The base timestamp for the next batch: the synthetic clock, wrapped to
/// zero when a batch could no longer fit below the counter's maximum. Only
/// relative order within one batch matters to the sink.
pub open spec fn wrapped_base(clock: u64) -> u64 {
    if clock <= u64::MAX - 4 * TICK_USEC {
        clock
    } else {
        0
    }
}

/// The engine owning the key map, the persisted shift state, and the
/// synthetic clock. Created once at startup; driven once per note event.
pub struct TranslationEngine {
    keymap: KeyMap,
    was_shift: bool,
    clock: u64,
    log: Ghost<Seq<OutputEvent>>,
}

impl TranslationEngine {
    /// The key map the engine resolves notes through.
    pub closed spec fn keymap(self) -> KeyMap {
        self.keymap
    }

    /// The persisted shift-modifier state.
    pub closed spec fn was_shift(self) -> bool {
        self.was_shift
    }

    /// The synthetic clock: the base timestamp of the next batch.
    pub closed spec fn clock(self) -> u64 {
        self.clock
    }

    /// Everything the engine has emitted, oldest first.
    pub closed spec fn log(self) -> Seq<OutputEvent> {
        self.log@
    }

    /// Engine invariant: the key map is well formed, and the emitted shift
    /// presses exceed the shift releases by one exactly when the modifier is
    /// currently asserted.
    pub open spec fn wf(self) -> bool {
        &&& self.keymap().wf()
        &&& count_shift_events(self.log(), true) == count_shift_events(self.log(), false) + (
        if self.was_shift() {
            1int
        } else {
            0int
        })
    }

    /// A fresh engine over the given key map: shift clear, clock at zero,
    /// nothing emitted.
    pub fn new(keymap: KeyMap) -> (e: TranslationEngine)
        requires
            keymap.wf(),
        ensures
            e.wf(),
            e.keymap() == keymap,
            !e.was_shift(),
            e.clock() == 0,
            e.log() == Seq::<OutputEvent>::empty(),
    {
        TranslationEngine { keymap, was_shift: false, clock: 0, log: Ghost(Seq::empty()) }
    }

    /// Whether the shift modifier is currently asserted.
    pub fn shift_active(&self) -> (b: bool)
        ensures
            b == self.was_shift(),
    {
        self.was_shift
    }

    /// Resolve a note through the engine's key map.
    pub fn resolve(&self, note: u8) -> (r: Option<LogicalKey>)
        requires
            self.wf(),
        ensures
            r == self.keymap().spec_resolve(note),
    {
        self.keymap.resolve(note)
    }

    /// Translate one note event into its batch of output events.
    ///
    /// An unconfigured note produces nothing and changes nothing. A
    /// configured note produces the sequenced batch for the resolved key and
    /// the shift decision, appends it to the log, persists the desired shift
    /// state, and advances the clock past the batch.
    pub fn handle(&mut self, note: u8, pressed: bool, velocity: u8) -> (evs: Vec<OutputEvent>)
        requires
            old(self).wf(),
        ensures
            final(self).wf(),
            final(self).keymap() == old(self).keymap(),
            translation_post(*old(self), *final(self), evs@, note, pressed, velocity),
            (old(self).keymap().spec_resolve(note) is Some && !pressed)
                ==> !final(self).was_shift(),
            forall|i: int, j: int|
                0 <= i < j < evs@.len() ==> event_time(evs@[i]) < event_time(evs@[j]),
    {
        let key_opt = self.keymap.resolve(note);
        match key_opt {
            None => Vec::new(),
            Some(key) => {
                let (desired, changed) = decide(pressed, velocity, self.was_shift);
                let base: u64 = if self.clock <= u64::MAX - 4 * TICK_USEC {
                    self.clock
                } else {
                    0
                };
                let evs = sequence(key, pressed, changed, desired, base);
                proof {
                    old(self).keymap().lemma_resolve_not_shift(note);
                    lemma_sequence_shift_counts(key, pressed, changed, desired, base);
                    lemma_count_shift_events_append(self.log@, evs@, true);
                    lemma_count_shift_events_append(self.log@, evs@, false);
                    lemma_sequence_timestamps_strictly_increase(
                        key,
                        pressed,
                        changed,
                        desired,
                        base,
                    );
                }
                let batch_len: u64 = evs.len() as u64;
                self.was_shift = desired;
                self.clock = base + batch_len * TICK_USEC;
                self.log = Ghost(self.log@ + evs@);
                evs
            }
        }
    }

    /// Translate one raw MIDI message: note-on and note-off events are
    /// handled; the timing clock and unrecognized messages produce nothing
    /// and change nothing.
    pub fn handle_raw(&mut self, bytes: &[u8]) -> (evs: Vec<OutputEvent>)
        requires
            old(self).wf(),
        ensures
            final(self).wf(),
            final(self).keymap() == old(self).keymap(),
            (spec_classify(bytes@) matches MidiMessage::NoteOn { note, velocity }
                ==> translation_post(*old(self), *final(self), evs@, note, true, velocity)),
            (spec_classify(bytes@) matches MidiMessage::NoteOff { note, velocity }
                ==> translation_post(*old(self), *final(self), evs@, note, false, velocity)),
            (spec_classify(bytes@) is TimingClock || spec_classify(bytes@) is Unrecognized)
                ==> (evs@.len() == 0 && *final(self) == *old(self)),
    {
        match classify(bytes) {
            MidiMessage::NoteOn { note, velocity } => self.handle(note, true, velocity),
            MidiMessage::NoteOff { note, velocity } => self.handle(note, false, velocity),
            MidiMessage::TimingClock => Vec::new(),
            MidiMessage::Unrecognized => Vec::new(),
        }
    }
}

/// What one `handle` call does: the relation between the engine before and
/// after, the batch it returns, and the note event it was given.
pub open spec fn translation_post(
    pre: TranslationEngine,
    post: TranslationEngine,
    evs: Seq<OutputEvent>,
    note: u8,
    pressed: bool,
    velocity: u8,
) -> bool {
    match pre.keymap().spec_resolve(note) {
        None => evs.len() == 0 && post == pre,
        Some(key) => {
            let desired = spec_decide(pressed, velocity, pre.was_shift()).0;
            let changed = spec_decide(pressed, velocity, pre.was_shift()).1;
            let base = wrapped_base(pre.clock());
            &&& evs == sequence_spec(key, pressed, changed, desired, base)
            &&& post.keymap() == pre.keymap()
            &&& post.was_shift() == desired
            &&& post.clock() == base + evs.len() * TICK_USEC
            &&& post.log() == pre.log() + evs
        },
    }
}

/// Shift idempotence: across two consecutive note-on events above the
/// velocity threshold, only the first emits a shift press — the second call
/// observes an unchanged decision and emits no shift event at all.
pub proof fn lemma_shift_idempotent(
    e0: TranslationEngine,
    e1: TranslationEngine,
    e2: TranslationEngine,
    evs1: Seq<OutputEvent>,
    evs2: Seq<OutputEvent>,
    n1: u8,
    v1: u8,
    n2: u8,
    v2: u8,
)
    requires
        e0.wf(),
        !e0.was_shift(),
        v1 > SHIFT_VELOCITY_THRESHOLD,
        v2 > SHIFT_VELOCITY_THRESHOLD,
        e0.keymap().spec_resolve(n1) is Some,
        e0.keymap().spec_resolve(n2) is Some,
        translation_post(e0, e1, evs1, n1, true, v1),
        translation_post(e1, e2, evs2, n2, true, v2),
    ensures
        count_shift_events(evs1, true) == 1,
        count_shift_events(evs1, false) == 0,
        count_shift_events(evs2, true) == 0,
        count_shift_events(evs2, false) == 0,
        !spec_decide(true, v2, e1.was_shift()).1,
        e1.was_shift(),
        e2.was_shift(),
{
    let k1 = e0.keymap().spec_resolve(n1).unwrap();
    let d1 = spec_decide(true, v1, e0.was_shift());
    e0.keymap().lemma_resolve_not_shift(n1);
    lemma_sequence_shift_counts(k1, true, d1.1, d1.0, wrapped_base(e0.clock()));
    let k2 = e1.keymap().spec_resolve(n2).unwrap();
    let d2 = spec_decide(true, v2, e1.was_shift());
    e0.keymap().lemma_resolve_not_shift(n2);
    lemma_sequence_shift_counts(k2, true, d2.1, d2.0, wrapped_base(e1.clock()));
}

/// No stuck key: whenever the shift modifier is clear, the sink has received
/// equal counts of shift presses and shift releases over the engine's whole
/// history.
pub proof fn lemma_no_stuck_shift(e: TranslationEngine)
    requires
        e.wf(),
        !e.was_shift(),
    ensures
        count_shift_events(e.log(), true) == count_shift_events(e.log(), false),
{
}

/// A release of a configured note always leaves the shift modifier clear,
/// whatever velocity the release reports.
pub proof fn lemma_release_clears_engine_shift(
    pre: TranslationEngine,
    post: TranslationEngine,
    evs: Seq<OutputEvent>,
    note: u8,
    velocity: u8,
)
    requires
        pre.keymap().spec_resolve(note) is Some,
        translation_post(pre, post, evs, note, false, velocity),
    ensures
        !post.was_shift(),
{
}

} // verus!
