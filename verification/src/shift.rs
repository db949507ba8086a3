//! The shift-modifier state machine: a pure decision from one note event and
//! the current modifier state to the desired modifier state.

use vstd::prelude::*;

verus! {

/// Velocity policy constant: a note-on with velocity above this asserts
/// shift; at or below it, the note is un-shifted.
pub const SHIFT_VELOCITY_THRESHOLD: u8 = 100;

/// The shift state a note event asks for: asserted only by a press above the
/// velocity threshold. A release always asks for shift to be clear, whatever
/// its velocity, so a release can never leave the modifier stuck.
pub open spec fn spec_desired_shift(pressed: bool, velocity: u8) -> bool {
    pressed && velocity > SHIFT_VELOCITY_THRESHOLD
}

/// The full decision: the desired shift state, and whether it differs from
/// the persisted one (only then is a modifier event emitted, which keeps the
/// modifier sticky across a run of shifted notes).
pub open spec fn spec_decide(pressed: bool, velocity: u8, was_shift: bool) -> (bool, bool) {
    let desired = spec_desired_shift(pressed, velocity);
    (desired, desired != was_shift)
}

/// Decide the shift-modifier transition for one note event. Pure; the caller
/// persists the desired state for the next call.
pub fn decide(pressed: bool, velocity: u8, was_shift: bool) -> (r: (bool, bool))
    ensures
        r == spec_decide(pressed, velocity, was_shift),
        r.0 == spec_desired_shift(pressed, velocity),
        r.1 == (r.0 != was_shift),
{
    let desired = pressed && velocity > SHIFT_VELOCITY_THRESHOLD;
    (desired, desired != was_shift)
}

/// A release never asks for shift, whatever velocity it reports.
pub proof fn lemma_release_clears_shift(velocity: u8, was_shift: bool)
    ensures
        !spec_decide(false, velocity, was_shift).0,
        spec_decide(false, velocity, was_shift).1 == was_shift,
{
}

} // verus!
