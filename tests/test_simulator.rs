use keyboarder::layout::{build_phys_keycode_map, level_to_modifiers, Layout};
use keyboarder::simulator::{NativeOp, SimError, Simulator};
use keyboarder::types::{KeyCode, KeyEvent, Modifiers, PhysKeyCode, RawKeyEvent, ServerMode};

fn key(keycode: u8, press: bool) -> NativeOp {
    NativeOp::Key { keycode, press }
}

/// A French layout in part: `&` and `1` on one key, `1` needing Shift.
fn french() -> Layout {
    let mut l = Layout::new();
    l.add_phys(PhysKeyCode::ShiftLeft, 50);
    l.add_phys(PhysKeyCode::ShiftRight, 62);
    l.add_phys(PhysKeyCode::Num1, 10);
    l.add_phys(PhysKeyCode::Delete, 119);
    l.add_key(10, 0x26, '&' as u32);
    l.add_levels(10, &vec![0x26, 0x31]);
    l.add_key(22, 0xff08, 8);
    l.add_key(200, 0, 0);
    l
}

#[test]
fn translate_char_needing_shift_presses_shift_first() {
    let mut sim = Simulator::new(french());
    sim.set_mode(ServerMode::Translate);
    let mut ops = Vec::new();
    let e = KeyEvent::with_keycode(KeyCode::Char('1'), true);
    assert_eq!(sim.simulate_server(&e, Modifiers::NONE(), 0x31, &mut ops), Ok(()));
    assert_eq!(ops, vec![key(50, true), key(10, true), key(10, false)]);
}

#[test]
fn map_mode_replays_the_physical_key() {
    let mut sim = Simulator::new(french());
    sim.set_mode(ServerMode::Mapping);
    let mut ops = Vec::new();
    let e = KeyEvent {
        key: KeyCode::Char('.'),
        press: true,
        modifiers: Modifiers::SHIFT(),
        raw_event: Some(RawKeyEvent {
            key: PhysKeyCode::Delete,
            press: true,
            modifiers: Modifiers::SHIFT(),
            raw_code: 0xffff,
            scan_code: 0,
        }),
    };
    assert_eq!(sim.simulate_server(&e, Modifiers::NONE(), 0x2e, &mut ops), Ok(()));
    assert_eq!(ops, vec![key(119, true)]);
}

#[test]
fn teardown_releases_every_held_key() {
    let mut sim = Simulator::new(french());
    let mut ops = Vec::new();
    sim.simulate_phys(PhysKeyCode::ShiftLeft, true, &mut ops).unwrap();
    sim.simulate_keycode(30, true, &mut ops).unwrap();
    sim.simulate_keycode(30, true, &mut ops).unwrap();
    sim.simulate_keycode(40, true, &mut ops).unwrap();
    sim.simulate_keycode(40, false, &mut ops).unwrap();
    let mut end = Vec::new();
    sim.release_pressed_keys(&mut end);
    end.sort_by_key(|op| match op {
        NativeOp::Key { keycode, .. } => *keycode,
        NativeOp::Rebind { .. } => 0,
    });
    assert_eq!(end, vec![key(30, false), key(50, false)]);
    let mut again = Vec::new();
    sim.release_pressed_keys(&mut again);
    assert!(again.is_empty());
}

#[test]
fn keycodes_out_of_range_are_refused() {
    let mut sim = Simulator::new(french());
    let mut ops = Vec::new();
    assert_eq!(sim.simulate_keycode(7, true, &mut ops), Err(SimError::InvalidKeycode(7)));
    assert_eq!(sim.simulate_keycode(256, true, &mut ops), Err(SimError::InvalidKeycode(256)));
    assert_eq!(
        sim.simulate_phys(PhysKeyCode::F20, true, &mut ops),
        Err(SimError::UnmappedPhysicalKey(PhysKeyCode::F20))
    );
    assert_eq!(sim.simulate_keysym(0x61, true, &mut ops), Err(SimError::UnmappedKeysym(0x61)));
    assert!(ops.is_empty());
}

#[test]
fn unknown_char_is_bound_to_a_free_keycode_once() {
    let mut sim = Simulator::new(french());
    let mut ops = Vec::new();
    assert_eq!(sim.simulate_char('€', 0x20ac, Modifiers::SHIFT(), &mut ops), Ok(()));
    assert_eq!(
        ops,
        vec![
            NativeOp::Rebind { keycode: 200, keysym: 0x20ac },
            key(50, false),
            key(62, false),
            key(200, true),
            key(200, false),
        ]
    );
    let mut ops = Vec::new();
    assert_eq!(sim.simulate_char('€', 0x20ac, Modifiers::NONE(), &mut ops), Ok(()));
    assert_eq!(ops, vec![key(200, true), key(200, false)]);
    let mut ops = Vec::new();
    assert_eq!(
        sim.simulate_char('ß', 0xdf, Modifiers::NONE(), &mut ops),
        Err(SimError::NoUnusedKeycode('ß'))
    );
    assert!(ops.is_empty());
}

#[test]
fn key_event_reconciles_modifiers_first() {
    let mut sim = Simulator::new(french());
    let mut ops = Vec::new();
    let e = KeyEvent {
        key: KeyCode::Physical(PhysKeyCode::Num1),
        press: true,
        modifiers: Modifiers::SHIFT(),
        raw_event: None,
    };
    assert_eq!(sim.simulate_key_event(&e, Modifiers::NONE(), 0, &mut ops), Ok(()));
    assert_eq!(ops, vec![key(50, true), key(10, true)]);
}

#[test]
fn translate_control_char_uses_its_keysym() {
    let mut sim = Simulator::new(french());
    sim.set_mode(ServerMode::Translate);
    let mut ops = Vec::new();
    let e = KeyEvent::with_keycode(KeyCode::Char('\u{8}'), true);
    assert_eq!(sim.simulate_server(&e, Modifiers::SHIFT(), 0, &mut ops), Ok(()));
    assert_eq!(ops, vec![key(50, false), key(62, false), key(22, true), key(22, false)]);
}

#[test]
fn server_without_mode_or_with_auto_fails() {
    let mut sim = Simulator::new(french());
    let mut ops = Vec::new();
    let e = KeyEvent::with_phys(PhysKeyCode::Num1, true);
    assert_eq!(sim.simulate_server(&e, Modifiers::NONE(), 0, &mut ops), Err(SimError::NoServerMode));
    sim.set_mode(ServerMode::Auto);
    assert_eq!(sim.simulate_server(&e, Modifiers::NONE(), 0, &mut ops), Err(SimError::UnsupportedMode));
}

#[test]
fn levels_keep_the_lowest() {
    let mut l = Layout::new();
    l.add_levels(38, &vec![0x61, 0x41, 0x61, 0]);
    assert_eq!(l.get_key_event_by_keysym(0x61), Some((38, Modifiers::NONE())));
    assert_eq!(l.get_key_event_by_keysym(0x41), Some((38, level_to_modifiers(1))));
    assert_eq!(level_to_modifiers(3), Modifiers::SHIFT() | Modifiers::ALT_GR());
    assert_eq!(level_to_modifiers(7), Modifiers::NONE());
}

#[test]
fn windows_scan_table() {
    let l = build_phys_keycode_map();
    assert_eq!(l.get_keycode_by_phys(PhysKeyCode::Delete), Some(0xE053));
    assert_eq!(l.get_phys_by_keycode(0xE053), Some(PhysKeyCode::KpDelete));
    assert_eq!(l.get_phys_by_keycode(0x10), Some(PhysKeyCode::KeyQ));
    assert_eq!(l.get_keycode_by_phys(PhysKeyCode::F13), None);
}

#[test]
fn translate_errors_for_unknown_control_char_and_raw_codes() {
    let mut sim = Simulator::new(french());
    sim.set_mode(ServerMode::Translate);
    let mut ops = Vec::new();
    let tab = KeyEvent::with_keycode(KeyCode::Char('\t'), true);
    assert_eq!(
        sim.simulate_server(&tab, Modifiers::NONE(), 0xff09, &mut ops),
        Err(SimError::UnmappedControlChar('\t'))
    );
    let raw = KeyEvent::with_keycode(KeyCode::RawCode(38), true);
    assert_eq!(
        sim.simulate_server(&raw, Modifiers::NONE(), 0, &mut ops),
        Err(SimError::UnexpectedKey)
    );
    let composed = KeyEvent::with_keycode(KeyCode::Composed("ab".to_string()), true);
    assert_eq!(
        sim.simulate_key_event(&composed, Modifiers::NONE(), 0, &mut ops),
        Err(SimError::UnexpectedKey)
    );
    assert!(ops.is_empty());
}

#[test]
fn char_event_reconciles_to_its_modifiers_first() {
    let mut sim = Simulator::new(french());
    let mut ops = Vec::new();
    let e = KeyEvent {
        key: KeyCode::Char('&'),
        press: true,
        modifiers: Modifiers::SHIFT(),
        raw_event: None,
    };
    assert_eq!(sim.simulate_key_event(&e, Modifiers::NONE(), 0x26, &mut ops), Ok(()));
    assert_eq!(
        ops,
        vec![key(50, true), key(50, false), key(62, false), key(10, true), key(10, false)]
    );
}
