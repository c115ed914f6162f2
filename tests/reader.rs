use ps2_keyboard::{Key, KeyState, Reader, ReaderMode, ScanType};

#[test]
fn test_simple_scan_1() {
    let mut reader = Reader::new(ReaderMode::Set1);

    assert_eq!(reader.input_scan_code(0x22).unwrap().unwrap(), Key::new(ScanType::CharG, KeyState::Pressed));
}

#[test]
fn test_simple_scan_2() {
    let mut reader = Reader::new(ReaderMode::Set1);

    assert_eq!(reader.input_scan_code(0x57).unwrap().unwrap(), Key::new(ScanType::F11, KeyState::Pressed));
}

#[test]
fn test_simple_scan_3() {
    let mut reader = Reader::new(ReaderMode::Set1);

    assert_eq!(reader.input_scan_code(0x57 + 0x80).unwrap().unwrap(), Key::new(ScanType::F11, KeyState::Released));
}

#[test]
fn test_simple_scan_4() {
    let mut reader = Reader::new(ReaderMode::Set1);

    assert_eq!(reader.input_scan_code(0xa0).unwrap().unwrap(), Key::new(ScanType::CharD, KeyState::Released));
}

#[test]
fn test_simple_scan_5() {
    let mut reader = Reader::new(ReaderMode::Set1);

    assert!(reader.input_scan_code(0xe0).unwrap().is_none());
}

#[test]
fn test_simple_scan_6() {
    let mut reader = Reader::new(ReaderMode::Set1);

    assert!(reader.input_scan_code(0xe1).unwrap().is_none());
}

#[test]
fn test_failed_scan_1() {
    let mut reader = Reader::new(ReaderMode::Set1);

    assert!(reader.input_scan_code(0xde).unwrap().is_none());
}

#[test]
fn test_failed_scan_2() {
    let mut reader = Reader::new(ReaderMode::Set1);

    assert!(reader.input_scan_code(0xe0).unwrap().is_none());
    assert!(reader.input_scan_code(0xe0).unwrap().is_none());
}

#[test]
fn test_media_scan_1() {
    let mut reader = Reader::new(ReaderMode::Set1);

    assert!(reader.input_scan_code(0xe0).unwrap().is_none());
    assert_eq!(reader.input_scan_code(0xe8).unwrap().unwrap(), Key::new(ScanType::WWWStop, KeyState::Released));
}

#[test]
fn test_media_scan_2() {
    let mut reader = Reader::new(ReaderMode::Set1);

    assert!(reader.input_scan_code(0xe0).unwrap().is_none());
    assert_eq!(reader.input_scan_code(0x68).unwrap().unwrap(), Key::new(ScanType::WWWStop, KeyState::Pressed));
}

#[test]
fn test_media_scan_3() {
    let mut reader = Reader::new(ReaderMode::Set1);

    assert!(reader.input_scan_code(0xe0).unwrap().is_none());
    assert_eq!(reader.input_scan_code(0x49).unwrap().unwrap(), Key::new(ScanType::PageUp, KeyState::Pressed));
}

#[test]
fn test_media_scan_4() {
    let mut reader = Reader::new(ReaderMode::Set1);

    assert!(reader.input_scan_code(0xe0).unwrap().is_none());
    assert_eq!(reader.input_scan_code(0xc9).unwrap().unwrap(), Key::new(ScanType::PageUp, KeyState::Released));
}

#[test]
fn test_print_screen_pressed() {
    let mut reader = Reader::new(ReaderMode::Set1);

    assert!(reader.input_scan_code(0xe0).unwrap().is_none());
    assert!(reader.input_scan_code(0x2a).unwrap().is_none());
    assert!(reader.input_scan_code(0xe0).unwrap().is_none());
    assert_eq!(reader.input_scan_code(0x37).unwrap().unwrap(), Key::new(ScanType::PrintScreen, KeyState::Pressed));
}

#[test]
fn test_print_screen_released() {
    let mut reader = Reader::new(ReaderMode::Set1);

    assert!(reader.input_scan_code(0xe0).unwrap().is_none());
    assert!(reader.input_scan_code(0xb7).unwrap().is_none());
    assert!(reader.input_scan_code(0xe0).unwrap().is_none());
    assert_eq!(reader.input_scan_code(0xaa).unwrap().unwrap(), Key::new(ScanType::PrintScreen, KeyState::Released));
}

#[test]
fn test_pause_pressed() {
    let mut reader = Reader::new(ReaderMode::Set1);

    assert!(reader.input_scan_code(0xe1).unwrap().is_none());
    assert!(reader.input_scan_code(0x1d).unwrap().is_none());
    assert!(reader.input_scan_code(0x45).unwrap().is_none());
    assert!(reader.input_scan_code(0xe1).unwrap().is_none());
    assert!(reader.input_scan_code(0x9d).unwrap().is_none());
    assert_eq!(reader.input_scan_code(0xc5).unwrap().unwrap(), Key::new(ScanType::Pause, KeyState::Pressed));
}

#[test]
fn test_combination_1() {
    let mut reader = Reader::new(ReaderMode::Set1);

    assert!(reader.input_scan_code(0xe1).unwrap().is_none());
    assert!(reader.input_scan_code(0x1d).unwrap().is_none());
    assert!(reader.input_scan_code(0x45).unwrap().is_none());
    assert!(reader.input_scan_code(0xe1).unwrap().is_none());
    assert!(reader.input_scan_code(0x9d).unwrap().is_none());
    assert_eq!(reader.input_scan_code(0xc5).unwrap().unwrap(), Key::new(ScanType::Pause, KeyState::Pressed));

    assert!(reader.input_scan_code(0xe0).unwrap().is_none());
    assert!(reader.input_scan_code(0xb7).unwrap().is_none());
    assert!(reader.input_scan_code(0xe0).unwrap().is_none());
    assert_eq!(reader.input_scan_code(0xaa).unwrap().unwrap(), Key::new(ScanType::PrintScreen, KeyState::Released));
}

#[test]
fn test_combination_2() {
    let mut reader = Reader::new(ReaderMode::Set1);

    assert_eq!(reader.input_scan_code(0x14).unwrap().unwrap(), Key::new(ScanType::CharT, KeyState::Pressed));
    assert_eq!(reader.input_scan_code(0x94).unwrap().unwrap(), Key::new(ScanType::CharT, KeyState::Released));

    assert_eq!(reader.input_scan_code(0x12).unwrap().unwrap(), Key::new(ScanType::CharE, KeyState::Pressed));
    assert_eq!(reader.input_scan_code(0x92).unwrap().unwrap(), Key::new(ScanType::CharE, KeyState::Released));

    assert_eq!(reader.input_scan_code(0x1f).unwrap().unwrap(), Key::new(ScanType::CharS, KeyState::Pressed));
    assert_eq!(reader.input_scan_code(0x9f).unwrap().unwrap(), Key::new(ScanType::CharS, KeyState::Released));

    assert_eq!(reader.input_scan_code(0x14).unwrap().unwrap(), Key::new(ScanType::CharT, KeyState::Pressed));
    assert_eq!(reader.input_scan_code(0x94).unwrap().unwrap(), Key::new(ScanType::CharT, KeyState::Released));
}
