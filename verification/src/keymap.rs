//! The key map: the table resolving a MIDI note to a logical key, either
//! directly (a fixed entry) or through the active layout (a positional
//! entry).

use vstd::prelude::*;

use crate::keys::LogicalKey;
use crate::keys::is_letter;
use crate::layout::Layout;

verus! {

/// How one MIDI note maps to a key: straight to a fixed key, or to the slot
/// with the given index in the active layout.
#[derive(Clone, Copy, Debug, PartialEq, Eq, Structural)]
pub enum Mapping {
    Fixed(LogicalKey),
    Positional(u8),
}

/// A configuration fault detected while a key map is built. Construction
/// rejects bad entries up front, so resolution never meets one.
#[derive(Clone, Copy, Debug, PartialEq, Eq, Structural)]
pub enum ConfigError {
    /// The note is outside the MIDI range `[0, 127]`.
    NoteOutOfRange,
    /// A positional entry names a layout slot at or beyond 26.
    SlotOutOfRange,
    /// The note already has an entry.
    DuplicateNote,
    /// A fixed entry names `LeftShift`, which only the shift-modifier logic
    /// may emit.
    ReservedKey,
}

/// A mapping a key map may hold: positional indices stay inside the layout,
/// and no entry names the reserved `LeftShift` key.
pub open spec fn mapping_admissible(m: Mapping) -> bool {
    match m {
        Mapping::Positional(i) => i < 26,
        Mapping::Fixed(k) => k != LogicalKey::LeftShift,
    }
}

/// The table from MIDI note to mapping entry, paired with the one active
/// layout. Built at startup, looked up per event, never mutated afterwards.
#[derive(Debug)]
pub struct KeyMap {
    table: Vec<Option<Mapping>>,
    layout: Layout,
}

impl KeyMap {
    /// The active layout.
    pub closed spec fn layout(self) -> Layout {
        self.layout
    }

    /// The entry configured for `note`, if any. Notes outside the MIDI range
    /// `[0, 127]` never have one.
    pub closed spec fn entry(self, note: u8) -> Option<Mapping> {
        if note < 128 {
            self.table@[note as int]
        } else {
            None
        }
    }

    /// Key-map invariant: a full 128-slot table over a well-formed layout,
    /// every present entry admissible.
    pub closed spec fn wf(self) -> bool {
        &&& self.table@.len() == 128
        &&& self.layout.wf()
        &&& forall|n: int|
            0 <= n < 128 ==> (#[trigger] self.table@[n] matches Some(m) ==> mapping_admissible(m))
    }

    /// What resolution returns: the fixed key, the layout's key for the
    /// slot, or nothing for an unconfigured note.
    pub open spec fn spec_resolve(self, note: u8) -> Option<LogicalKey> {
        match self.entry(note) {
            Some(Mapping::Fixed(k)) => Some(k),
            Some(Mapping::Positional(i)) => Some(self.layout()@[i as int]),
            None => None,
        }
    }

    /// A well-formed key map never resolves a note to the reserved
    /// `LeftShift` key.
    pub proof fn lemma_resolve_not_shift(self, note: u8)
        requires
            self.wf(),
        ensures
            self.spec_resolve(note) != Some(LogicalKey::LeftShift),
    {
        if note < 128 {
            match self.entry(note) {
                Some(Mapping::Positional(i)) => {
                    assert(is_letter(self.layout()@[i as int]));
                }
                _ => {}
            }
        }
    }

    /// A key map with no entries yet, over the given layout.
    pub fn empty(layout: Layout) -> (m: KeyMap)
        requires
            layout.wf(),
        ensures
            m.wf(),
            m.layout() == layout,
            forall|n: u8| #[trigger] m.entry(n) is None,
    {
        let mut table: Vec<Option<Mapping>> = Vec::new();
        let mut i: usize = 0;
        while i < 128
            invariant
                i <= 128,
                table@.len() == i,
                forall|j: int| 0 <= j < i ==> #[trigger] table@[j] is None,
            decreases 128 - i,
        {
            table.push(None);
            i = i + 1;
        }
        KeyMap { table, layout }
    }

    /// Add an entry for `note`. Rejects, in this order of checks: a note
    /// outside the MIDI range, a positional index beyond the layout, a fixed
    /// entry on the reserved `LeftShift` key, and a note bound twice. On
    /// rejection the map is unchanged.
    pub fn insert(&mut self, note: u8, entry: Mapping) -> (r: Result<(), ConfigError>)
        requires
            old(self).wf(),
        ensures
            final(self).wf(),
            final(self).layout() == old(self).layout(),
            r is Ok <==> (note < 128 && mapping_admissible(entry) && old(self).entry(note) is None),
            r is Ok ==> final(self).entry(note) == Some(entry),
            r is Ok ==> forall|n: u8| n != note ==> final(self).entry(n) == old(self).entry(n),
            r is Err ==> *final(self) == *old(self),
            note >= 128 ==> r == Err::<(), ConfigError>(ConfigError::NoteOutOfRange),
            note < 128 && (entry matches Mapping::Positional(i) && i >= 26) ==> r == Err::<
                (),
                ConfigError,
            >(ConfigError::SlotOutOfRange),
            note < 128 && entry == Mapping::Fixed(LogicalKey::LeftShift) ==> r == Err::<
                (),
                ConfigError,
            >(ConfigError::ReservedKey),
            note < 128 && mapping_admissible(entry) && old(self).entry(note) is Some ==> r == Err::<
                (),
                ConfigError,
            >(ConfigError::DuplicateNote),
    {
        if note >= 128 {
            return Err(ConfigError::NoteOutOfRange);
        }
        match entry {
            Mapping::Positional(i) => {
                if i >= 26 {
                    return Err(ConfigError::SlotOutOfRange);
                }
            }
            Mapping::Fixed(k) => {
                if k == LogicalKey::LeftShift {
                    return Err(ConfigError::ReservedKey);
                }
            }
        }
        if self.table[note as usize].is_some() {
            return Err(ConfigError::DuplicateNote);
        }
        self.table.set(note as usize, Some(entry));
        Ok(())
    }

    /// Some note of this map resolves to `k`.
    pub open spec fn emits(self, k: LogicalKey) -> bool {
        exists|n: u8| #[trigger] self.spec_resolve(n) == Some(k)
    }

    /// Every logical key this map can ever emit: each key some note
    /// resolves to, and the shift modifier. The sink declares these as its
    /// capabilities before the first write.
    pub fn capability_keys(&self) -> (keys: Vec<LogicalKey>)
        requires
            self.wf(),
        ensures
            keys@.contains(LogicalKey::LeftShift),
            forall|n: u8|
                (#[trigger] self.spec_resolve(n)) matches Some(k) ==> keys@.contains(k),
            forall|i: int|
                0 <= i < keys@.len() ==> (keys@[i] == LogicalKey::LeftShift || self.emits(
                    #[trigger] keys@[i],
                )),
    {
        let mut keys: Vec<LogicalKey> = Vec::new();
        let mut note: u8 = 0;
        while note < 128
            invariant
                self.wf(),
                note <= 128,
                forall|n: u8|
                    n < note ==> ((#[trigger] self.spec_resolve(n)) matches Some(k)
                        ==> keys@.contains(k)),
                forall|i: int| 0 <= i < keys@.len() ==> self.emits(#[trigger] keys@[i]),
            decreases 128 - note,
        {
            let ghost prior = keys@;
            match self.resolve(note) {
                Some(k) => {
                    keys.push(k);
                    proof {
                        lemma_push_keeps_contents(prior, k);
                        assert(keys@.contains(k)) by {
                            assert(keys@[keys@.len() - 1] == k);
                        }
                        assert(self.emits(k)) by {
                            assert(self.spec_resolve(note) == Some(k));
                        }
                    }
                }
                None => {}
            }
            note = note + 1;
        }
        let ghost prior = keys@;
        keys.push(LogicalKey::LeftShift);
        proof {
            lemma_push_keeps_contents(prior, LogicalKey::LeftShift);
            assert(keys@.contains(LogicalKey::LeftShift)) by {
                assert(keys@[keys@.len() - 1] == LogicalKey::LeftShift);
            }
        }
        keys
    }

    /// Resolve a MIDI note to the logical key it is configured to emit, or
    /// nothing if the note is unconfigured.
    pub fn resolve(&self, note: u8) -> (r: Option<LogicalKey>)
        requires
            self.wf(),
        ensures
            r == self.spec_resolve(note),
    {
        if note >= 128 {
            return None;
        }
        match self.table[note as usize] {
            Some(Mapping::Fixed(k)) => Some(k),
            Some(Mapping::Positional(i)) => Some(self.layout.key_at(i as usize)),
            None => None,
        }
    }
}

/// Pushing onto a key list keeps everything it already contains.
proof fn lemma_push_keeps_contents(s: Seq<LogicalKey>, x: LogicalKey)
    ensures
        forall|k: LogicalKey| s.contains(k) ==> #[trigger] s.push(x).contains(k),
{
    assert forall|k: LogicalKey| s.contains(k) implies #[trigger] s.push(x).contains(k) by {
        let j = choose|j: int| 0 <= j < s.len() && s[j] == k;
        assert(s.push(x)[j] == k);
    }
}

/// A note with a fixed entry resolves to that entry's key in every key map
/// that binds it so, whatever layout is active.
pub proof fn lemma_fixed_independent_of_layout(m1: KeyMap, m2: KeyMap, note: u8, k: LogicalKey)
    requires
        m1.wf(),
        m2.wf(),
        m1.entry(note) == Some(Mapping::Fixed(k)),
        m2.entry(note) == m1.entry(note),
    ensures
        m1.spec_resolve(note) == Some(k),
        m2.spec_resolve(note) == Some(k),
{
}

/// A note with a positional entry resolves through whichever layout is
/// active: two key maps with the same note-to-slot binding but different
/// layouts each return their own layout's key for that slot.
pub proof fn lemma_positional_follows_layout(m1: KeyMap, m2: KeyMap, note: u8, i: u8)
    requires
        m1.wf(),
        m2.wf(),
        m1.entry(note) == Some(Mapping::Positional(i)),
        m2.entry(note) == m1.entry(note),
    ensures
        i < 26,
        m1.spec_resolve(note) == Some(m1.layout()@[i as int]),
        m2.spec_resolve(note) == Some(m2.layout()@[i as int]),
{
}

/// An unconfigured note resolves to nothing.
pub proof fn lemma_unconfigured_resolves_to_nothing(m: KeyMap, note: u8)
    requires
        m.entry(note) is None,
    ensures
        m.spec_resolve(note) is None,
{
}

} // verus!
