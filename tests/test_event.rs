use keyboarder::event::{Action, Code, CodeState, ModifierState, State};
use keyboarder::phys::{x11_key_names, PhysKeyCode};
use keyboarder::types::{KeyEvent, Modifiers};
use keyboarder::winkeys::{apply_mods, get_current_modifiers, is_press_message, scan_with_extension};

#[test]
fn code_state_holds_its_parts() {
    let c = CodeState::new(Code::KeySym(65106), State::Press);
    assert_eq!(c.code, Code::KeySym(65106));
    assert_eq!(c.state, State::Press);
    assert_eq!(State::from(false), State::Release);
    assert_eq!(Action::Sync(c), Action::Sync(CodeState::new(Code::KeySym(65106), State::Press)));
}

#[test]
fn modifier_state_from_core_mask() {
    let s = ModifierState::new(1 | 8 | 16);
    assert!(s.shift && s.alt && !s.ctrl && !s.meta);
}

#[test]
fn compare_modifiers_syncs_left_keys() {
    let s = ModifierState::new(4 | 64);
    let v = s.compare_modifers(&vec![PhysKeyCode::ShiftRight, PhysKeyCode::MetaLeft]);
    assert_eq!(
        v,
        vec![
            KeyEvent::with_phys(PhysKeyCode::ShiftLeft, true),
            KeyEvent::with_phys(PhysKeyCode::ControlLeft, false),
        ]
    );
}

#[test]
fn windows_scan_codes_and_messages() {
    assert_eq!(scan_with_extension(0x1D, 1), 0xE01D);
    assert_eq!(scan_with_extension(0x1D, 0), 0x1D);
    assert_eq!(scan_with_extension(0x36, 1), 0x36);
    assert!(is_press_message(0x0104));
    assert!(!is_press_message(0x0101));
}

#[test]
fn windows_key_state_modifiers() {
    let mut state = [0u8; 256];
    state[0xA1] = 0x81;
    state[0x5C] = 0x80;
    state[0xA2] = 0x01;
    assert_eq!(get_current_modifiers(&state), Modifiers::RIGHT_SHIFT() | Modifiers::META());
    let mut probe = [0u8; 256];
    apply_mods(Modifiers::SHIFT() | Modifiers::ALT_GR(), &mut probe);
    assert_eq!((probe[0x10], probe[0x11], probe[0x12]), (0x80, 0x80, 0x80));
}

#[test]
fn x11_names_cover_the_main_keys() {
    let names = x11_key_names();
    assert!(names.contains(&("AC01", PhysKeyCode::KeyA)));
    assert!(names.contains(&("KPEN", PhysKeyCode::KpReturn)));
    assert_eq!(names.len(), 107);
}
