use keyboarder::phys::PhysKeyCode;
use keyboarder::types::{is_ascii_control, GroupIndex, KeyCode, KeyEvent, Modifiers};

#[test]
fn normalize_shift_uppercases_letters() {
    let e = KeyEvent {
        key: KeyCode::Char('c'),
        press: true,
        modifiers: Modifiers::SHIFT() | Modifiers::CTRL(),
        raw_event: None,
    };
    let n = e.normalize_shift();
    assert_eq!(n.key, KeyCode::Char('C'));
    assert_eq!(n.modifiers, Modifiers::CTRL());

    let e = KeyEvent {
        key: KeyCode::Char('1'),
        press: true,
        modifiers: Modifiers::SHIFT(),
        raw_event: None,
    };
    let n = e.clone().normalize_shift();
    assert_eq!(n, e);
}

#[test]
fn normalize_ctrl_decodes_control_chars() {
    let e = KeyEvent {
        key: KeyCode::Char('\u{3}'),
        press: true,
        modifiers: Modifiers::LEFT_CTRL(),
        raw_event: None,
    };
    assert_eq!(e.normalize_ctrl().key, KeyCode::Char('c'));
    assert_eq!(is_ascii_control('\u{1b}'), Some('['));
    assert_eq!(is_ascii_control('a'), None);
}

#[test]
fn physical_key_tags_round_trip() {
    assert_eq!(PhysKeyCode::from_tag(PhysKeyCode::Menu.tag()), Some(PhysKeyCode::Menu));
    assert_eq!(PhysKeyCode::AltLeft.tag(), 0);
    assert_eq!(PhysKeyCode::from_tag(118), None);
    assert!(PhysKeyCode::MetaRight.is_modifier());
    assert!(!PhysKeyCode::CapsLock.is_modifier());
}

#[test]
fn group_index_saturates() {
    assert_eq!(GroupIndex::from(1u32), GroupIndex::N2);
    assert_eq!(GroupIndex::from(9u32), GroupIndex::N4);
    assert_eq!(GroupIndex::N3.index(), 2);
    assert_eq!(u32::from(GroupIndex::N4), 3);
}

#[test]
fn default_event_is_raw_zero_release() {
    let e = KeyEvent::default();
    assert_eq!(e.key, KeyCode::RawCode(0));
    assert!(!e.press);
}
