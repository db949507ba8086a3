use midihid::shift::decide;

#[test]
fn press_above_threshold_asserts_shift() {
    assert_eq!(decide(true, 101, false), (true, true));
    assert_eq!(decide(true, 120, false), (true, true));
    assert_eq!(decide(true, 127, false), (true, true));
}

#[test]
fn press_at_or_below_threshold_stays_unshifted() {
    assert_eq!(decide(true, 100, false), (false, false));
    assert_eq!(decide(true, 50, false), (false, false));
    assert_eq!(decide(true, 0, false), (false, false));
}

#[test]
fn shift_is_sticky_across_shifted_presses() {
    // A second shifted press observes no change.
    assert_eq!(decide(true, 110, true), (true, false));
}

#[test]
fn unshifted_press_clears_an_asserted_shift() {
    assert_eq!(decide(true, 80, true), (false, true));
}

#[test]
fn release_always_clears_shift_whatever_its_velocity() {
    assert_eq!(decide(false, 0, true), (false, true));
    assert_eq!(decide(false, 127, true), (false, true));
    assert_eq!(decide(false, 0, false), (false, false));
    assert_eq!(decide(false, 127, false), (false, false));
}
