//! Layouts: the ordered table of 26 letter keys through which positional
//! mapping entries are resolved.

use vstd::prelude::*;

use crate::keys::LogicalKey;
use crate::keys::is_letter;

verus! {

/// The letter keys in alphabetical order, the order of the "Alphabet" layout.
pub open spec fn alphabet_order() -> Seq<LogicalKey> {
    seq![
        LogicalKey::A,
        LogicalKey::B,
        LogicalKey::C,
        LogicalKey::D,
        LogicalKey::E,
        LogicalKey::F,
        LogicalKey::G,
        LogicalKey::H,
        LogicalKey::I,
        LogicalKey::J,
        LogicalKey::K,
        LogicalKey::L,
        LogicalKey::M,
        LogicalKey::N,
        LogicalKey::O,
        LogicalKey::P,
        LogicalKey::Q,
        LogicalKey::R,
        LogicalKey::S,
        LogicalKey::T,
        LogicalKey::U,
        LogicalKey::V,
        LogicalKey::W,
        LogicalKey::X,
        LogicalKey::Y,
        LogicalKey::Z,
    ]
}

/// The letter keys in physical-row order, the order of the "Qwerty" layout.
pub open spec fn qwerty_order() -> Seq<LogicalKey> {
    seq![
        LogicalKey::Q,
        LogicalKey::W,
        LogicalKey::E,
        LogicalKey::R,
        LogicalKey::T,
        LogicalKey::Y,
        LogicalKey::U,
        LogicalKey::I,
        LogicalKey::O,
        LogicalKey::P,
        LogicalKey::A,
        LogicalKey::S,
        LogicalKey::D,
        LogicalKey::F,
        LogicalKey::G,
        LogicalKey::H,
        LogicalKey::J,
        LogicalKey::K,
        LogicalKey::L,
        LogicalKey::Z,
        LogicalKey::X,
        LogicalKey::C,
        LogicalKey::V,
        LogicalKey::B,
        LogicalKey::N,
        LogicalKey::M,
    ]
}

/// A fixed, ordered table of 26 distinct letter keys. Positional mapping
/// entries name a slot in the active layout; the slot's key is what the
/// translation emits.
#[derive(Debug)]
pub struct Layout {
    slots: Vec<LogicalKey>,
}

impl Layout {
    /// The ordered keys of this layout.
    pub closed spec fn view(self) -> Seq<LogicalKey> {
        self.slots@
    }

    /// Layout invariant: exactly 26 slots, each a distinct letter key.
    pub open spec fn wf(self) -> bool {
        &&& self@.len() == 26
        &&& forall|i: int| 0 <= i < 26 ==> is_letter(#[trigger] self@[i])
        &&& forall|i: int, j: int| 0 <= i < j < 26 ==> self@[i] != self@[j]
    }

    /// The "Alphabet" layout: slot `i` holds the `i`-th letter of the
    /// alphabet.
    pub fn alphabet() -> (l: Layout)
        ensures
            l@ == alphabet_order(),
            l.wf(),
    {
        let slots: Vec<LogicalKey> = vec![
            LogicalKey::A,
            LogicalKey::B,
            LogicalKey::C,
            LogicalKey::D,
            LogicalKey::E,
            LogicalKey::F,
            LogicalKey::G,
            LogicalKey::H,
            LogicalKey::I,
            LogicalKey::J,
            LogicalKey::K,
            LogicalKey::L,
            LogicalKey::M,
            LogicalKey::N,
            LogicalKey::O,
            LogicalKey::P,
            LogicalKey::Q,
            LogicalKey::R,
            LogicalKey::S,
            LogicalKey::T,
            LogicalKey::U,
            LogicalKey::V,
            LogicalKey::W,
            LogicalKey::X,
            LogicalKey::Y,
            LogicalKey::Z,
        ];
        let l = Layout { slots };
        proof {
            assert(l@ =~= alphabet_order());
            lemma_alphabet_order_wf();
        }
        l
    }

    /// The "Qwerty" layout: slot `i` holds the letter at position `i` of the
    /// physical key rows.
    pub fn qwerty() -> (l: Layout)
        ensures
            l@ == qwerty_order(),
            l.wf(),
    {
        let slots: Vec<LogicalKey> = vec![
            LogicalKey::Q,
            LogicalKey::W,
            LogicalKey::E,
            LogicalKey::R,
            LogicalKey::T,
            LogicalKey::Y,
            LogicalKey::U,
            LogicalKey::I,
            LogicalKey::O,
            LogicalKey::P,
            LogicalKey::A,
            LogicalKey::S,
            LogicalKey::D,
            LogicalKey::F,
            LogicalKey::G,
            LogicalKey::H,
            LogicalKey::J,
            LogicalKey::K,
            LogicalKey::L,
            LogicalKey::Z,
            LogicalKey::X,
            LogicalKey::C,
            LogicalKey::V,
            LogicalKey::B,
            LogicalKey::N,
            LogicalKey::M,
        ];
        let l = Layout { slots };
        proof {
            assert(l@ =~= qwerty_order());
            lemma_qwerty_order_wf();
        }
        l
    }

    /// The key in slot `i`.
    pub fn key_at(&self, i: usize) -> (k: LogicalKey)
        requires
            self.wf(),
            i < 26,
        ensures
            k == self@[i as int],
    {
        self.slots[i]
    }
}

/// Which of the two built-in layouts to use; chosen once at startup.
#[derive(Clone, Copy, Debug, PartialEq, Eq, Structural)]
pub enum LayoutChoice {
    Alphabet,
    Qwerty,
}

/// The slot order of the chosen built-in layout.
pub open spec fn choice_order(c: LayoutChoice) -> Seq<LogicalKey> {
    match c {
        LayoutChoice::Alphabet => alphabet_order(),
        LayoutChoice::Qwerty => qwerty_order(),
    }
}

impl LayoutChoice {
    /// Build the chosen built-in layout.
    pub fn layout(&self) -> (l: Layout)
        ensures
            l.wf(),
            l@ == choice_order(*self),
    {
        match self {
            LayoutChoice::Alphabet => Layout::alphabet(),
            LayoutChoice::Qwerty => Layout::qwerty(),
        }
    }
}

/// The alphabetical order has 26 slots, all letters, pairwise distinct.
proof fn lemma_alphabet_order_wf()
    ensures
        alphabet_order().len() == 26,
        forall|i: int| 0 <= i < 26 ==> is_letter(#[trigger] alphabet_order()[i]),
        forall|i: int, j: int| 0 <= i < j < 26 ==> alphabet_order()[i] != alphabet_order()[j],
{
}

/// The physical-row order has 26 slots, all letters, pairwise distinct.
proof fn lemma_qwerty_order_wf()
    ensures
        qwerty_order().len() == 26,
        forall|i: int| 0 <= i < 26 ==> is_letter(#[trigger] qwerty_order()[i]),
        forall|i: int, j: int| 0 <= i < j < 26 ==> qwerty_order()[i] != qwerty_order()[j],
{
}

} // verus!
