use keyboarder::codec::{decode_event, encode_event, CodecError, KeyEventBin};
use keyboarder::types::{KeyCode, KeyEvent, Modifiers, PhysKeyCode, RawKeyEvent};

fn round_trip(e: &KeyEvent) {
    let bytes = e.to_u8_vec();
    assert_eq!(KeyEventBin::new(bytes).to_key_event(), Ok(e.clone()));
}

#[test]
fn round_trip_every_key_kind() {
    round_trip(&KeyEvent::with_phys(PhysKeyCode::Delete, true));
    round_trip(&KeyEvent::with_keycode(KeyCode::Char('â'), false));
    round_trip(&KeyEvent::with_keycode(KeyCode::Composed("ếx".to_string()), true));
    round_trip(&KeyEvent::with_keycode(KeyCode::Composed(String::new()), true));
    round_trip(&KeyEvent::with_keycode(KeyCode::RawCode(u32::MAX), true));
    round_trip(&KeyEvent {
        key: KeyCode::KeySym(65106),
        press: true,
        modifiers: Modifiers::SHIFT() | Modifiers::ALT_GR(),
        raw_event: Some(RawKeyEvent {
            key: PhysKeyCode::LeftBracket,
            press: true,
            modifiers: Modifiers::RIGHT_ALT(),
            raw_code: 0xdead_beef,
            scan_code: 0xE01A,
        }),
    });
}

#[test]
fn encoding_layout() {
    let e = KeyEvent {
        key: KeyCode::RawCode(0x0102_0304),
        press: true,
        modifiers: Modifiers::SHIFT(),
        raw_event: None,
    };
    assert_eq!(
        encode_event(&e),
        vec![2, 0, 0, 0, 4, 3, 2, 1, 1, 2, 0, 0]
    );
}

#[test]
fn malformed_bytes_are_rejected() {
    let good = KeyEvent::with_phys(PhysKeyCode::KeyQ, true).to_u8_vec();
    assert_eq!(decode_event(&good[..good.len() - 1]), Err(CodecError::Malformed));
    assert_eq!(decode_event(&[]), Err(CodecError::Malformed));
    let mut bad_tag = good.clone();
    bad_tag[0] = 9;
    assert_eq!(decode_event(&bad_tag), Err(CodecError::Malformed));
    let mut bad_char = KeyEvent::with_keycode(KeyCode::Char('a'), true).to_u8_vec();
    bad_char[4] = 0x00;
    bad_char[5] = 0xd8;
    assert_eq!(decode_event(&bad_char), Err(CodecError::Malformed));
    let mut bad_flag = good;
    bad_flag[8] = 2;
    assert_eq!(decode_event(&bad_flag), Err(CodecError::Malformed));
}

#[test]
fn bytes_after_an_event_are_ignored() {
    let e = KeyEvent::with_keycode(KeyCode::RawCode(0), true);
    let mut buf = e.to_u8_vec();
    buf.push(0);
    assert_eq!(decode_event(&buf), Ok(e.clone()));
    let mut padded = vec![0u8; 64];
    let bytes = e.to_u8_vec();
    padded[..bytes.len()].copy_from_slice(&bytes);
    assert_eq!(KeyEventBin::new(padded).to_key_event(), Ok(e));
    let raw = KeyEvent {
        key: KeyCode::Char('x'),
        press: false,
        modifiers: Modifiers::NONE(),
        raw_event: Some(RawKeyEvent {
            key: PhysKeyCode::KeyX,
            press: false,
            modifiers: Modifiers::NONE(),
            raw_code: 0x58,
            scan_code: 0x2D,
        }),
    };
    let mut buf = raw.to_u8_vec();
    buf.extend_from_slice(&[7, 7, 7]);
    assert_eq!(decode_event(&buf), Ok(raw));
}
