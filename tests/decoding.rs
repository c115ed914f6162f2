use ps2_keyboard::{Key, KeyState, Reader, ReaderMode, ScanType};

fn decode_one(code: u8) -> Result<Option<Key>, &'static str> {
    let mut reader = Reader::new(ReaderMode::Set1);
    reader.input_scan_code(code)
}

#[test]
fn break_codes_mirror_make_codes() {
    for code in 0x01u8..=0x58 {
        let make = decode_one(code).unwrap();
        let brk = decode_one(code + 0x80).unwrap();
        match make {
            Some(k) => {
                let b = brk.unwrap();
                assert_eq!(b.scan_type(), k.scan_type());
                assert_eq!(b.state(), KeyState::Released);
                assert_eq!(k.state(), KeyState::Pressed);
                assert_eq!(b, k.inverted_state());
            }
            None => assert!(brk.is_none()),
        }
    }
}

#[test]
fn unlisted_make_codes_give_nothing() {
    for code in [0x00u8, 0x54, 0x55, 0x56, 0x59, 0xd4, 0xd5, 0xd6] {
        assert_eq!(decode_one(code), Ok(None));
    }
}

#[test]
fn close_bracket_has_its_own_code() {
    assert_eq!(decode_one(0x1a).unwrap().unwrap(), Key::new(ScanType::SymbolOpenSquareBracket, KeyState::Pressed));
    assert_eq!(decode_one(0x1b).unwrap().unwrap(), Key::new(ScanType::SymbolCloseSquareBracket, KeyState::Pressed));
    assert_eq!(decode_one(0x9b).unwrap().unwrap(), Key::new(ScanType::SymbolCloseSquareBracket, KeyState::Released));
}

#[test]
fn keypad_keys_carry_the_flag() {
    let k = decode_one(0x47).unwrap().unwrap();
    assert_eq!(k, Key::new_keypad(ScanType::Num7, KeyState::Pressed));
    assert!(k.keypad());
    let k = decode_one(0xc7).unwrap().unwrap();
    assert_eq!(k, Key::new_keypad(ScanType::Num7, KeyState::Released));
    let k = decode_one(0x08).unwrap().unwrap();
    assert_eq!(k, Key::new(ScanType::Num7, KeyState::Pressed));
    assert!(!k.keypad());
}

#[test]
fn extended_keypad_enter_and_slash() {
    let mut reader = Reader::new(ReaderMode::Set1);
    assert_eq!(reader.input_scan_code(0xe0), Ok(None));
    assert_eq!(reader.input_scan_code(0x1c).unwrap().unwrap(), Key::new_keypad(ScanType::Enter, KeyState::Pressed));
    assert_eq!(reader.input_scan_code(0xe0), Ok(None));
    assert_eq!(reader.input_scan_code(0xb5).unwrap().unwrap(), Key::new_keypad(ScanType::SymbolForwardSlash, KeyState::Released));
}

#[test]
fn unlisted_extended_code_gives_nothing() {
    let mut reader = Reader::new(ReaderMode::Set1);
    assert_eq!(reader.input_scan_code(0xe0), Ok(None));
    assert_eq!(reader.input_scan_code(0x11), Ok(None));
    assert_eq!(reader.input_scan_code(0x1e).unwrap().unwrap(), Key::new(ScanType::CharA, KeyState::Pressed));
}

#[test]
fn double_extended_prefix_then_single_byte() {
    let mut reader = Reader::new(ReaderMode::Set1);
    assert_eq!(reader.input_scan_code(0xe0), Ok(None));
    assert_eq!(reader.input_scan_code(0xe0), Ok(None));
    assert_eq!(reader.input_scan_code(0x22).unwrap().unwrap(), Key::new(ScanType::CharG, KeyState::Pressed));
}

#[test]
fn pause_sequence_gives_one_event() {
    let mut reader = Reader::new(ReaderMode::Set1);
    let mut events = 0;
    let mut last = None;
    for b in [0xe1u8, 0x1d, 0x45, 0xe1, 0x9d, 0xc5] {
        if let Some(k) = reader.input_scan_code(b).unwrap() {
            events += 1;
            last = Some(k);
        }
    }
    assert_eq!(events, 1);
    assert_eq!(last, Some(Key::new(ScanType::Pause, KeyState::Pressed)));
}

#[test]
fn print_screen_second_byte_does_not_decide_state() {
    let mut reader = Reader::new(ReaderMode::Set1);
    for b in [0xe0u8, 0xb7, 0xe0] {
        assert_eq!(reader.input_scan_code(b), Ok(None));
    }
    assert_eq!(reader.input_scan_code(0x37).unwrap().unwrap(), Key::new(ScanType::PrintScreen, KeyState::Pressed));
}

fn feed_then_error(prefix: &[u8], bad: u8, message: &str) {
    let mut reader = Reader::new(ReaderMode::Set1);
    for b in prefix {
        assert_eq!(reader.input_scan_code(*b), Ok(None));
    }
    assert_eq!(reader.input_scan_code(bad), Err(message));
    assert_eq!(reader.input_scan_code(0x22).unwrap().unwrap(), Key::new(ScanType::CharG, KeyState::Pressed));
}

#[test]
fn error_after_e1() {
    feed_then_error(&[0xe1], 0x22, "Invalid follow-up code for 0xE1.");
}

#[test]
fn error_after_e1_1d() {
    feed_then_error(&[0xe1, 0x1d], 0x46, "Invalid scan code expected 0x45.");
}

#[test]
fn error_after_e0_2a() {
    feed_then_error(&[0xe0, 0x2a], 0x37, "Invalid scan code expected 0xe0.");
}

#[test]
fn error_after_e0_2a_e0() {
    feed_then_error(&[0xe0, 0x2a, 0xe0], 0x38, "Invalid scan code expected 0x37 or 0xaa.");
}

#[test]
fn error_after_e1_1d_45() {
    feed_then_error(&[0xe1, 0x1d, 0x45], 0xe0, "Invalid scan code expected 0xe1.");
}

#[test]
fn error_after_e1_1d_45_e1() {
    feed_then_error(&[0xe1, 0x1d, 0x45, 0xe1], 0x1d, "Invalid scan code expected 0x9d.");
}

#[test]
fn error_after_e1_1d_45_e1_9d() {
    feed_then_error(&[0xe1, 0x1d, 0x45, 0xe1, 0x9d], 0x45, "Invalid scan code expected 0xc5.");
}

#[test]
fn ignored_byte_then_single_byte() {
    let mut reader = Reader::new(ReaderMode::Set1);
    assert_eq!(reader.input_scan_code(0xde), Ok(None));
    assert_eq!(reader.input_scan_code(0x22).unwrap().unwrap(), Key::new(ScanType::CharG, KeyState::Pressed));
}

#[test]
fn other_modes_use_set_one() {
    for mode in [ReaderMode::Set2, ReaderMode::Set3] {
        let mut reader = Reader::new(mode);
        assert_eq!(reader.input_scan_code(0x22).unwrap().unwrap(), Key::new(ScanType::CharG, KeyState::Pressed));
    }
}

#[test]
fn switching_mode_drops_pending_sequence() {
    let mut reader = Reader::new(ReaderMode::Set1);
    assert_eq!(reader.input_scan_code(0xe1), Ok(None));
    reader.switch_scan_mode(ReaderMode::Set2);
    assert_eq!(reader.input_scan_code(0x22).unwrap().unwrap(), Key::new(ScanType::CharG, KeyState::Pressed));
    assert_eq!(reader.input_scan_code(0xe0), Ok(None));
    reader.zero_scan_codes();
    assert_eq!(reader.input_scan_code(0x49).unwrap().unwrap(), Key::new_keypad(ScanType::Num9, KeyState::Pressed));
}

#[test]
fn scan_type_ranges() {
    assert_eq!(ScanType::Num0.as_u8(), 0);
    assert_eq!(ScanType::Num9.as_u8(), 9);
    assert_eq!(ScanType::CharA.as_u8(), 10);
    assert_eq!(ScanType::CharZ.as_u8(), 35);
    assert_eq!(ScanType::Pause.as_u8(), 110);
    assert_eq!(ScanType::Unknown.as_u8(), 0xff);
    assert!(ScanType::CharA.is_letter());
    assert!(ScanType::CharZ.is_letter());
    assert!(!ScanType::Num9.is_letter());
    assert!(!ScanType::SymbolPlus.is_letter());
    assert!(ScanType::Num0.is_num());
    assert!(ScanType::Num9.is_num());
    assert!(!ScanType::CharA.is_num());
    assert!(!ScanType::Unknown.is_num());
}

#[test]
fn key_accessors() {
    let k = Key::new(ScanType::Tab, KeyState::Pressed);
    assert_eq!(k.scan_type(), ScanType::Tab);
    assert_eq!(k.state(), KeyState::Pressed);
    assert!(k.is_pressed());
    assert!(!k.keypad());
    let r = k.inverted_state();
    assert_eq!(r.state(), KeyState::Released);
    assert!(!r.is_pressed());
    assert_eq!(r.inverted_state(), k);
    assert!(Key::new_keypad(ScanType::Tab, KeyState::Pressed).keypad());
}

#[test]
fn extended_home_key() {
    let mut reader = Reader::new(ReaderMode::Set1);
    assert_eq!(reader.input_scan_code(0xe0), Ok(None));
    assert_eq!(reader.input_scan_code(0x47).unwrap().unwrap(), Key::new(ScanType::Home, KeyState::Pressed));
    assert_eq!(reader.input_scan_code(0xe0), Ok(None));
    assert_eq!(reader.input_scan_code(0xc7).unwrap().unwrap(), Key::new(ScanType::Home, KeyState::Released));
}
