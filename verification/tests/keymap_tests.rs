use midihid::bindings::standard_keymap;
use midihid::keymap::ConfigError;
use midihid::keymap::KeyMap;
use midihid::keymap::Mapping;
use midihid::keys::LogicalKey;
use midihid::layout::Layout;

#[test]
fn fixed_entries_resolve_independent_of_layout() {
    let alpha = standard_keymap(Layout::alphabet());
    let qwerty = standard_keymap(Layout::qwerty());
    for m in [&alpha, &qwerty] {
        assert_eq!(m.resolve(37), Some(LogicalKey::LeftCtrl));
        assert_eq!(m.resolve(39), Some(LogicalKey::LeftAlt));
        assert_eq!(m.resolve(42), Some(LogicalKey::CapsLock));
        assert_eq!(m.resolve(44), Some(LogicalKey::Esc));
        assert_eq!(m.resolve(49), Some(LogicalKey::Num1));
        assert_eq!(m.resolve(70), Some(LogicalKey::Num0));
        assert_eq!(m.resolve(73), Some(LogicalKey::Left));
        assert_eq!(m.resolve(75), Some(LogicalKey::Down));
        assert_eq!(m.resolve(78), Some(LogicalKey::Up));
        assert_eq!(m.resolve(80), Some(LogicalKey::Right));
        assert_eq!(m.resolve(81), Some(LogicalKey::Backspace));
        assert_eq!(m.resolve(82), Some(LogicalKey::Break));
        assert_eq!(m.resolve(83), Some(LogicalKey::Space));
        assert_eq!(m.resolve(84), Some(LogicalKey::Enter));
    }
}

#[test]
fn positional_entries_follow_the_active_layout() {
    let alpha = standard_keymap(Layout::alphabet());
    let qwerty = standard_keymap(Layout::qwerty());
    // Note 36 is slot 0, note 79 is slot 25; the bindings are the same, the
    // layout changes the key.
    assert_eq!(alpha.resolve(36), Some(LogicalKey::A));
    assert_eq!(qwerty.resolve(36), Some(LogicalKey::Q));
    assert_eq!(alpha.resolve(79), Some(LogicalKey::Z));
    assert_eq!(qwerty.resolve(79), Some(LogicalKey::M));
    assert_eq!(alpha.resolve(59), Some(LogicalKey::N));
    assert_eq!(qwerty.resolve(59), Some(LogicalKey::F));
}

#[test]
fn unconfigured_notes_resolve_to_nothing() {
    let m = standard_keymap(Layout::alphabet());
    assert_eq!(m.resolve(46), None);
    assert_eq!(m.resolve(0), None);
    assert_eq!(m.resolve(35), None);
    assert_eq!(m.resolve(85), None);
    assert_eq!(m.resolve(127), None);
    assert_eq!(m.resolve(200), None);
}

#[test]
fn insert_builds_a_resolvable_map() {
    let mut m = KeyMap::empty(Layout::qwerty());
    assert_eq!(m.insert(10, Mapping::Positional(2)), Ok(()));
    assert_eq!(m.insert(11, Mapping::Fixed(LogicalKey::Space)), Ok(()));
    assert_eq!(m.resolve(10), Some(LogicalKey::E));
    assert_eq!(m.resolve(11), Some(LogicalKey::Space));
    assert_eq!(m.resolve(12), None);
}

#[test]
fn insert_rejects_notes_outside_the_midi_range() {
    let mut m = KeyMap::empty(Layout::alphabet());
    assert_eq!(m.insert(128, Mapping::Positional(0)), Err(ConfigError::NoteOutOfRange));
    assert_eq!(m.insert(255, Mapping::Fixed(LogicalKey::Esc)), Err(ConfigError::NoteOutOfRange));
}

#[test]
fn insert_rejects_dangling_positional_slots() {
    let mut m = KeyMap::empty(Layout::alphabet());
    assert_eq!(m.insert(40, Mapping::Positional(26)), Err(ConfigError::SlotOutOfRange));
    assert_eq!(m.insert(40, Mapping::Positional(255)), Err(ConfigError::SlotOutOfRange));
    // The slot just inside the layout is accepted.
    assert_eq!(m.insert(40, Mapping::Positional(25)), Ok(()));
}

#[test]
fn insert_rejects_a_note_bound_twice() {
    let mut m = KeyMap::empty(Layout::alphabet());
    assert_eq!(m.insert(50, Mapping::Positional(3)), Ok(()));
    assert_eq!(m.insert(50, Mapping::Fixed(LogicalKey::Enter)), Err(ConfigError::DuplicateNote));
    // The first binding stays.
    assert_eq!(m.resolve(50), Some(LogicalKey::D));
}

#[test]
fn insert_rejects_the_reserved_shift_key() {
    let mut m = KeyMap::empty(Layout::alphabet());
    assert_eq!(m.insert(60, Mapping::Fixed(LogicalKey::LeftShift)), Err(ConfigError::ReservedKey));
    assert_eq!(m.resolve(60), None);
}

#[test]
fn capability_keys_cover_everything_the_map_emits() {
    let m = standard_keymap(Layout::alphabet());
    let keys = m.capability_keys();
    assert!(keys.contains(&LogicalKey::LeftShift));
    for note in 0..=255u8 {
        if let Some(k) = m.resolve(note) {
            assert!(keys.contains(&k), "missing capability for note {note}");
        }
    }
    // Nothing in the standard map emits these, so only LeftShift stands
    // beside the resolved keys.
    for k in &keys {
        let emitted = (0..=255u8).any(|n| m.resolve(n) == Some(*k));
        assert!(emitted || *k == LogicalKey::LeftShift);
    }
}
