use keyboarder::types::{KeyCode, KeyEvent, Modifiers, PhysKeyCode};

#[test]
fn test_mod_try_from() {
    let mods = Modifiers::try_from("SHIFT".to_string()).unwrap();
    assert_eq!(mods, Modifiers::SHIFT(), "modifier try from error");

    let mods = Modifiers::try_from("SHIFT | ALT".to_string()).unwrap();
    assert_eq!(
        mods,
        Modifiers::SHIFT() | Modifiers::ALT(),
        "modifier try from error"
    );
}

#[test]
fn test_diff_mod() {
    let modifiers = Modifiers::NONE();
    let target_mod = Modifiers::SHIFT();

    let v = modifiers.diff_modifiers(&target_mod);

    assert_eq!(
        v,
        [KeyEvent {
            key: KeyCode::Physical(PhysKeyCode::ShiftLeft,),
            press: true,
            modifiers: Modifiers::NONE(),
            raw_event: None,
        },]
    );
}

#[test]
fn test_trans_mod() {
    let modifiers = Modifiers::LEFT_CTRL();

    let v = modifiers.trans_positional_mods();

    assert_eq!(v, Modifiers::CTRL());
}

#[test]
fn diff_releases_both_sides_and_taps_locks() {
    let observed = Modifiers::CTRL() | Modifiers::CAPS();
    let target = Modifiers::NUM();
    let v = observed.diff_modifiers(&target);
    assert_eq!(
        v,
        vec![
            KeyEvent::with_phys(PhysKeyCode::CapsLock, true),
            KeyEvent::with_phys(PhysKeyCode::CapsLock, false),
            KeyEvent::with_phys(PhysKeyCode::NumLock, true),
            KeyEvent::with_phys(PhysKeyCode::NumLock, false),
            KeyEvent::with_phys(PhysKeyCode::ControlLeft, false),
            KeyEvent::with_phys(PhysKeyCode::ControlRight, false),
        ]
    );
}

#[test]
fn diff_alt_gr_uses_right_alt_once() {
    let v = Modifiers::NONE().diff_modifiers(&Modifiers::ALT_GR());
    assert_eq!(v, vec![KeyEvent::with_phys(PhysKeyCode::AltRight, true)]);
    let v = Modifiers::ALT_GR().diff_modifiers(&Modifiers::NONE());
    assert_eq!(v, vec![KeyEvent::with_phys(PhysKeyCode::AltRight, false)]);
}

#[test]
fn diff_of_equal_sets_is_empty() {
    let m = Modifiers::SHIFT() | Modifiers::META() | Modifiers::NUM();
    assert!(m.diff_modifiers(&m).is_empty());
}

#[test]
fn diff_presses_every_missing_held_modifier() {
    let target = Modifiers::SHIFT() | Modifiers::CTRL() | Modifiers::ALT() | Modifiers::META();
    let v = Modifiers::NONE().diff_modifiers(&target);
    assert_eq!(
        v,
        vec![
            KeyEvent::with_phys(PhysKeyCode::ShiftLeft, true),
            KeyEvent::with_phys(PhysKeyCode::ControlLeft, true),
            KeyEvent::with_phys(PhysKeyCode::AltLeft, true),
            KeyEvent::with_phys(PhysKeyCode::MetaLeft, true),
        ]
    );
}

#[test]
fn trans_positional_is_idempotent() {
    let m = Modifiers::RIGHT_SHIFT() | Modifiers::LEFT_ALT() | Modifiers::CAPS();
    let once = m.trans_positional_mods();
    assert_eq!(once, Modifiers::SHIFT() | Modifiers::ALT() | Modifiers::CAPS());
    assert_eq!(once.trans_positional_mods(), once);
}

#[test]
fn remove_positional_keeps_logical_bits() {
    let m = Modifiers::LEFT_CTRL() | Modifiers::CTRL() | Modifiers::RIGHT_SHIFT();
    assert_eq!(m.remove_positional_mods(), Modifiers::CTRL());
}

#[test]
fn shortcut_needs_ctrl_alt_or_meta() {
    assert!(Modifiers::LEFT_CTRL().is_shortcut());
    assert!(Modifiers::META().is_shortcut());
    assert!(!(Modifiers::SHIFT() | Modifiers::CAPS()).is_shortcut());
}

#[test]
fn modifiers_text_form() {
    assert_eq!(Modifiers::NONE().to_string(), "NONE");
    assert_eq!((Modifiers::SHIFT() | Modifiers::ALT_GR()).to_string(), "SHIFT|ALT_GR");
    let m = Modifiers::try_from(" LEFT_CTRL|bogus| NUM ".to_string()).unwrap();
    assert_eq!(m, Modifiers::LEFT_CTRL() | Modifiers::NUM());
    assert_eq!(Modifiers::try_from("NONE".to_string()).unwrap(), Modifiers::NONE());
}

#[test]
fn modifier_of_physical_key() {
    assert_eq!(Modifiers::from(PhysKeyCode::ShiftRight), Modifiers::SHIFT());
    assert_eq!(Modifiers::from(PhysKeyCode::AltLeft), Modifiers::ALT());
    assert_eq!(Modifiers::from(PhysKeyCode::KeyA), Modifiers::NONE());
}
