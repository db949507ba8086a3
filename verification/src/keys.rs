//! Logical keyboard keys: the abstract key identities the translation engine
//! can emit, independent of any physical device encoding.

use vstd::prelude::*;

verus! {

/// An abstract keyboard key: a letter, a modifier, or a control key.
///
/// `LeftShift` is reserved for the engine's velocity-driven modifier logic;
/// key maps never resolve a note to it directly.
#[derive(Clone, Copy, Debug, PartialEq, Eq, Structural)]
pub enum LogicalKey {
    A,
    B,
    C,
    D,
    E,
    F,
    G,
    H,
    I,
    J,
    K,
    L,
    M,
    N,
    O,
    P,
    Q,
    R,
    S,
    T,
    U,
    V,
    W,
    X,
    Y,
    Z,
    LeftShift,
    LeftCtrl,
    LeftAlt,
    CapsLock,
    Esc,
    Num1,
    Num2,
    Num3,
    Num4,
    Num5,
    Num6,
    Num7,
    Num8,
    Num9,
    Num0,
    Left,
    Down,
    Up,
    Right,
    Backspace,
    Break,
    Space,
    Enter,
}

/// True exactly for the 26 letter keys `A` through `Z`.
pub open spec fn is_letter(k: LogicalKey) -> bool {
    match k {
        LogicalKey::A => true,
        LogicalKey::B => true,
        LogicalKey::C => true,
        LogicalKey::D => true,
        LogicalKey::E => true,
        LogicalKey::F => true,
        LogicalKey::G => true,
        LogicalKey::H => true,
        LogicalKey::I => true,
        LogicalKey::J => true,
        LogicalKey::K => true,
        LogicalKey::L => true,
        LogicalKey::M => true,
        LogicalKey::N => true,
        LogicalKey::O => true,
        LogicalKey::P => true,
        LogicalKey::Q => true,
        LogicalKey::R => true,
        LogicalKey::S => true,
        LogicalKey::T => true,
        LogicalKey::U => true,
        LogicalKey::V => true,
        LogicalKey::W => true,
        LogicalKey::X => true,
        LogicalKey::Y => true,
        LogicalKey::Z => true,
        _ => false,
    }
}

} // verus!
