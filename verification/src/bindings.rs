//! The built-in note bindings: which MIDI note carries which mapping entry.
//! This is the controller's pad assignment — letters on the plain pads,
//! modifiers, digits, arrows and control keys interleaved between them.

use vstd::prelude::*;

use crate::keymap::ConfigError;
use crate::keymap::KeyMap;
use crate::keymap::Mapping;
use crate::keymap::mapping_admissible;
use crate::keys::LogicalKey;
use crate::layout::Layout;

verus! {

/// The built-in entry for `note`, or none for a note the controller does not
/// use.
pub open spec fn standard_entry(note: u8) -> Option<Mapping> {
    match note {
        36u8 => Some(Mapping::Positional(0)),
        37u8 => Some(Mapping::Fixed(LogicalKey::LeftCtrl)),
        38u8 => Some(Mapping::Positional(1)),
        39u8 => Some(Mapping::Fixed(LogicalKey::LeftAlt)),
        40u8 => Some(Mapping::Positional(2)),
        41u8 => Some(Mapping::Positional(3)),
        42u8 => Some(Mapping::Fixed(LogicalKey::CapsLock)),
        43u8 => Some(Mapping::Positional(4)),
        44u8 => Some(Mapping::Fixed(LogicalKey::Esc)),
        45u8 => Some(Mapping::Positional(5)),
        47u8 => Some(Mapping::Positional(6)),
        48u8 => Some(Mapping::Positional(7)),
        49u8 => Some(Mapping::Fixed(LogicalKey::Num1)),
        50u8 => Some(Mapping::Positional(8)),
        51u8 => Some(Mapping::Fixed(LogicalKey::Num2)),
        52u8 => Some(Mapping::Positional(9)),
        53u8 => Some(Mapping::Positional(10)),
        54u8 => Some(Mapping::Fixed(LogicalKey::Num3)),
        55u8 => Some(Mapping::Positional(11)),
        56u8 => Some(Mapping::Fixed(LogicalKey::Num4)),
        57u8 => Some(Mapping::Positional(12)),
        58u8 => Some(Mapping::Fixed(LogicalKey::Num5)),
        59u8 => Some(Mapping::Positional(13)),
        60u8 => Some(Mapping::Positional(14)),
        61u8 => Some(Mapping::Fixed(LogicalKey::Num6)),
        62u8 => Some(Mapping::Positional(15)),
        63u8 => Some(Mapping::Fixed(LogicalKey::Num7)),
        64u8 => Some(Mapping::Positional(16)),
        65u8 => Some(Mapping::Positional(17)),
        66u8 => Some(Mapping::Fixed(LogicalKey::Num8)),
        67u8 => Some(Mapping::Positional(18)),
        68u8 => Some(Mapping::Fixed(LogicalKey::Num9)),
        69u8 => Some(Mapping::Positional(19)),
        70u8 => Some(Mapping::Fixed(LogicalKey::Num0)),
        71u8 => Some(Mapping::Positional(20)),
        72u8 => Some(Mapping::Positional(21)),
        73u8 => Some(Mapping::Fixed(LogicalKey::Left)),
        74u8 => Some(Mapping::Positional(22)),
        75u8 => Some(Mapping::Fixed(LogicalKey::Down)),
        76u8 => Some(Mapping::Positional(23)),
        77u8 => Some(Mapping::Positional(24)),
        78u8 => Some(Mapping::Fixed(LogicalKey::Up)),
        79u8 => Some(Mapping::Positional(25)),
        80u8 => Some(Mapping::Fixed(LogicalKey::Right)),
        81u8 => Some(Mapping::Fixed(LogicalKey::Backspace)),
        82u8 => Some(Mapping::Fixed(LogicalKey::Break)),
        83u8 => Some(Mapping::Fixed(LogicalKey::Space)),
        84u8 => Some(Mapping::Fixed(LogicalKey::Enter)),
        _ => None,
    }
}

/// Every built-in entry is admissible: slots stay below 26 and no fixed
/// entry names `LeftShift`.
pub proof fn lemma_standard_entry_admissible(note: u8)
    ensures
        standard_entry(note) matches Some(m) ==> mapping_admissible(m),
{
}

/// The built-in entry for `note`, as an executable lookup.
pub fn standard_entry_at(note: u8) -> (r: Option<Mapping>)
    ensures
        r == standard_entry(note),
{
    match note {
        36u8 => Some(Mapping::Positional(0)),
        37u8 => Some(Mapping::Fixed(LogicalKey::LeftCtrl)),
        38u8 => Some(Mapping::Positional(1)),
        39u8 => Some(Mapping::Fixed(LogicalKey::LeftAlt)),
        40u8 => Some(Mapping::Positional(2)),
        41u8 => Some(Mapping::Positional(3)),
        42u8 => Some(Mapping::Fixed(LogicalKey::CapsLock)),
        43u8 => Some(Mapping::Positional(4)),
        44u8 => Some(Mapping::Fixed(LogicalKey::Esc)),
        45u8 => Some(Mapping::Positional(5)),
        47u8 => Some(Mapping::Positional(6)),
        48u8 => Some(Mapping::Positional(7)),
        49u8 => Some(Mapping::Fixed(LogicalKey::Num1)),
        50u8 => Some(Mapping::Positional(8)),
        51u8 => Some(Mapping::Fixed(LogicalKey::Num2)),
        52u8 => Some(Mapping::Positional(9)),
        53u8 => Some(Mapping::Positional(10)),
        54u8 => Some(Mapping::Fixed(LogicalKey::Num3)),
        55u8 => Some(Mapping::Positional(11)),
        56u8 => Some(Mapping::Fixed(LogicalKey::Num4)),
        57u8 => Some(Mapping::Positional(12)),
        58u8 => Some(Mapping::Fixed(LogicalKey::Num5)),
        59u8 => Some(Mapping::Positional(13)),
        60u8 => Some(Mapping::Positional(14)),
        61u8 => Some(Mapping::Fixed(LogicalKey::Num6)),
        62u8 => Some(Mapping::Positional(15)),
        63u8 => Some(Mapping::Fixed(LogicalKey::Num7)),
        64u8 => Some(Mapping::Positional(16)),
        65u8 => Some(Mapping::Positional(17)),
        66u8 => Some(Mapping::Fixed(LogicalKey::Num8)),
        67u8 => Some(Mapping::Positional(18)),
        68u8 => Some(Mapping::Fixed(LogicalKey::Num9)),
        69u8 => Some(Mapping::Positional(19)),
        70u8 => Some(Mapping::Fixed(LogicalKey::Num0)),
        71u8 => Some(Mapping::Positional(20)),
        72u8 => Some(Mapping::Positional(21)),
        73u8 => Some(Mapping::Fixed(LogicalKey::Left)),
        74u8 => Some(Mapping::Positional(22)),
        75u8 => Some(Mapping::Fixed(LogicalKey::Down)),
        76u8 => Some(Mapping::Positional(23)),
        77u8 => Some(Mapping::Positional(24)),
        78u8 => Some(Mapping::Fixed(LogicalKey::Up)),
        79u8 => Some(Mapping::Positional(25)),
        80u8 => Some(Mapping::Fixed(LogicalKey::Right)),
        81u8 => Some(Mapping::Fixed(LogicalKey::Backspace)),
        82u8 => Some(Mapping::Fixed(LogicalKey::Break)),
        83u8 => Some(Mapping::Fixed(LogicalKey::Space)),
        84u8 => Some(Mapping::Fixed(LogicalKey::Enter)),
        _ => None,
    }
}

/// The key map carrying the built-in bindings over the given layout.
pub fn standard_keymap(layout: Layout) -> (m: KeyMap)
    requires
        layout.wf(),
    ensures
        m.wf(),
        m.layout() == layout,
        forall|n: u8| #[trigger] m.entry(n) == standard_entry(n),
{
    let mut m = KeyMap::empty(layout);
    let mut note: u8 = 0;
    while note < 128
        invariant
            m.wf(),
            m.layout() == layout,
            note <= 128,
            forall|n: u8| n < note ==> #[trigger] m.entry(n) == standard_entry(n),
            forall|n: u8| n >= note ==> #[trigger] m.entry(n) is None,
        decreases 128 - note,
    {
        match standard_entry_at(note) {
            Some(entry) => {
                proof {
                    lemma_standard_entry_admissible(note);
                }
                let r = m.insert(note, entry);
                proof {
                    assert(r is Ok);
                }
            }
            None => {}
        }
        note = note + 1;
    }
    m
}

} // verus!
