use keyboarder::deadkey::DeadKeyTable;
use keyboarder::layout::{
    get_active_group_index, layout_action, GroupKeysyms, KeyInfo, Layout, LayoutAction, LayoutEvent,
};
use keyboarder::listener::{alt_gr_present, KeyListener, ListenStep, Translation, SC_FAKE_LCTRL};
use keyboarder::types::{GroupIndex, KeyCode, KeyEvent, Modifiers, PhysKeyCode, RawKeyEvent};

fn french_dead_keys() -> DeadKeyTable {
    let mut t = DeadKeyTable::new();
    t.add_dead_key(Modifiers::NONE(), 0xDD, '^');
    t.add_combination(Modifiers::NONE(), 0xDD, Modifiers::NONE(), 0x41, 'â', 'a');
    t
}

#[test]
fn held_modifier_repeats_are_dropped() {
    let t = DeadKeyTable::new();
    let mut l = KeyListener::new();
    let first = l.on_raw_key(&t, 0x2A, 0xA0, Some(PhysKeyCode::ShiftLeft), true, Modifiers::LEFT_SHIFT());
    assert_eq!(
        first,
        ListenStep::Report(KeyEvent {
            key: KeyCode::Physical(PhysKeyCode::ShiftLeft),
            press: true,
            modifiers: Modifiers::LEFT_SHIFT(),
            raw_event: Some(RawKeyEvent {
                key: PhysKeyCode::ShiftLeft,
                press: true,
                modifiers: Modifiers::LEFT_SHIFT(),
                raw_code: 0xA0,
                scan_code: 0x2A,
            }),
        })
    );
    assert!(l.is_long_press(PhysKeyCode::ShiftLeft, true));
    let again = l.on_raw_key(&t, 0x2A, 0xA0, Some(PhysKeyCode::ShiftLeft), true, Modifiers::LEFT_SHIFT());
    assert_eq!(again, ListenStep::Skip);
    let up = l.on_raw_key(&t, 0x2A, 0xA0, Some(PhysKeyCode::ShiftLeft), false, Modifiers::NONE());
    assert!(matches!(up, ListenStep::Report(_)));
    assert!(!l.is_long_press(PhysKeyCode::ShiftLeft, true));
}

#[test]
fn fake_left_control_is_dropped() {
    let t = DeadKeyTable::new();
    let mut l = KeyListener::new();
    let step = l.on_raw_key(&t, SC_FAKE_LCTRL, 0xA2, Some(PhysKeyCode::ControlLeft), true, Modifiers::NONE());
    assert_eq!(step, ListenStep::Skip);
}

#[test]
fn dead_key_then_letter_reports_the_composition() {
    let t = french_dead_keys();
    let mut l = KeyListener::new();
    assert_eq!(l.on_raw_key(&t, 0x1A, 0xDD, Some(PhysKeyCode::LeftBracket), true, Modifiers::NONE()), ListenStep::Skip);
    assert_eq!(l.on_raw_key(&t, 0x1A, 0xDD, Some(PhysKeyCode::LeftBracket), false, Modifiers::NONE()), ListenStep::Skip);
    match l.on_raw_key(&t, 0x10, 0x41, Some(PhysKeyCode::KeyQ), true, Modifiers::NONE()) {
        ListenStep::Report(e) => assert_eq!(e.key, KeyCode::Char('â')),
        other => panic!("unexpected {:?}", other),
    }
    assert_eq!(l.on_raw_key(&t, 0x10, 0x41, Some(PhysKeyCode::KeyQ), false, Modifiers::NONE()), ListenStep::Translate);
}

#[test]
fn translation_results() {
    let l = KeyListener::new();
    let e = l.finish(Translation::Char('\u{3}'), 0x43, 0, Some(PhysKeyCode::KeyC), true, Modifiers::LEFT_CTRL()).unwrap();
    assert_eq!(e.key, KeyCode::Char('c'));
    let e = l.finish(Translation::Nothing, 0x70, 0, Some(PhysKeyCode::F1), true, Modifiers::NONE()).unwrap();
    assert_eq!(e.key, KeyCode::Physical(PhysKeyCode::F1));
    assert_eq!(l.finish(Translation::Nothing, 0xFF, 0, None, true, Modifiers::NONE()), None);
    assert_eq!(l.finish(Translation::Ambiguous, 0x41, 0, Some(PhysKeyCode::KeyA), true, Modifiers::NONE()), None);
}

#[test]
fn alt_gr_detection() {
    let mut lens = vec![0i32; 256];
    lens[0xE7] = 1;
    assert!(!alt_gr_present(&lens, 0xE7));
    lens[0x45] = 1;
    assert!(alt_gr_present(&lens, 0xE7));
}

#[test]
fn single_group_keys_fill_every_group() {
    let keys = vec![(24u32, vec![0x71u32]), (38, vec![0x61, 0x6c1]), (9, vec![])];
    let t = GroupKeysyms::create_keysym_map(3, &keys);
    assert_eq!(t.get_keycode(GroupIndex::N1, 0x71), Some(24));
    assert_eq!(t.get_keycode(GroupIndex::N3, 0x71), Some(24));
    assert_eq!(t.get_keycode(GroupIndex::N1, 0x61), Some(38));
    assert_eq!(t.get_keycode(GroupIndex::N2, 0x6c1), Some(38));
    assert_eq!(t.get_keycode(GroupIndex::N2, 0x61), None);
    assert_eq!(t.get_keycode(GroupIndex::N3, 0x6c1), None);
}

#[test]
fn layout_from_keys() {
    let mut l = Layout::new();
    l.add_keys(&vec![
        KeyInfo { keycode: 10, base_sym: 0x26, base_char: '&' as u32, levels: vec![0x26, 0x31] },
        KeyInfo { keycode: 93, base_sym: 0, base_char: 0, levels: vec![] },
    ]);
    assert_eq!(l.get_keycode_by_keysym(0x26), Some(10));
    assert_eq!(l.get_keysym_by_char('&'), Some(0x26));
    assert_eq!(l.get_key_event_by_keysym(0x31), Some((10, Modifiers::SHIFT())));
    assert_eq!(l.take_unused(), Some(93));
    assert_eq!(l.take_unused(), None);
}

#[test]
fn active_group_and_layout_events() {
    assert_eq!(get_active_group_index(&vec![false, true, false]), GroupIndex::N2);
    assert_eq!(get_active_group_index(&vec![]), GroupIndex::N1);
    assert_eq!(
        layout_action(GroupIndex::N1, LayoutEvent::StateNotify(GroupIndex::N1)),
        LayoutAction::UpdateState
    );
    assert_eq!(
        layout_action(GroupIndex::N1, LayoutEvent::StateNotify(GroupIndex::N2)),
        LayoutAction::RebuildTables
    );
    assert_eq!(layout_action(GroupIndex::N2, LayoutEvent::MapNotify), LayoutAction::ReloadKeymap);
}
