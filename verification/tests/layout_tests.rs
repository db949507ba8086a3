use midihid::keys::LogicalKey;
use midihid::layout::Layout;
use midihid::layout::LayoutChoice;

#[test]
fn alphabet_layout_is_identity_over_letters() {
    let l = Layout::alphabet();
    assert_eq!(l.key_at(0), LogicalKey::A);
    assert_eq!(l.key_at(1), LogicalKey::B);
    assert_eq!(l.key_at(13), LogicalKey::N);
    assert_eq!(l.key_at(25), LogicalKey::Z);
}

#[test]
fn qwerty_layout_follows_physical_rows() {
    let l = Layout::qwerty();
    assert_eq!(l.key_at(0), LogicalKey::Q);
    assert_eq!(l.key_at(9), LogicalKey::P);
    assert_eq!(l.key_at(10), LogicalKey::A);
    assert_eq!(l.key_at(19), LogicalKey::Z);
    assert_eq!(l.key_at(25), LogicalKey::M);
}

#[test]
fn layout_slots_are_distinct() {
    for choice in [LayoutChoice::Alphabet, LayoutChoice::Qwerty] {
        let l = choice.layout();
        for i in 0..26usize {
            for j in 0..i {
                assert_ne!(l.key_at(i), l.key_at(j));
            }
        }
    }
}

#[test]
fn layout_choice_builds_the_matching_layout() {
    let alpha = LayoutChoice::Alphabet.layout();
    let qwerty = LayoutChoice::Qwerty.layout();
    assert_eq!(alpha.key_at(0), LogicalKey::A);
    assert_eq!(qwerty.key_at(0), LogicalKey::Q);
}
