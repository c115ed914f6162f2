use vstd::prelude::*;

use crate::scan_code_set::{key_view, keypad_view, Key, KeyState, KeyView, ScanType};

verus! {

/// Which scan-code set the controller speaks. Every mode decodes with the
/// set 1 tables.
#[derive(Debug, Clone, Copy, PartialEq, Eq, Structural)]
pub enum ReaderMode {
    Set1,
    Set2,
    Set3,
}

/// A key pressed on the main block.
pub open spec fn down(scan_type: ScanType) -> Option<KeyView> {
    Some(key_view(scan_type, KeyState::Pressed))
}

/// A key pressed on the numeric keypad.
pub open spec fn keypad_down(scan_type: ScanType) -> Option<KeyView> {
    Some(keypad_view(scan_type, KeyState::Pressed))
}

pub open spec fn invert_opt(k: Option<KeyView>) -> Option<KeyView> {
    match k {
        Some(k) => Some(k.inverted()),
        None => None,
    }
}

/// The set 1 single-byte make codes.
pub open spec fn press_table(code: u8) -> Option<KeyView> {
    match code {
        0x01 => down(ScanType::Escape),
        0x02 => down(ScanType::Num1),
        0x03 => down(ScanType::Num2),
        0x04 => down(ScanType::Num3),
        0x05 => down(ScanType::Num4),
        0x06 => down(ScanType::Num5),
        0x07 => down(ScanType::Num6),
        0x08 => down(ScanType::Num7),
        0x09 => down(ScanType::Num8),
        0x0a => down(ScanType::Num9),
        0x0b => down(ScanType::Num0),
        0x0c => down(ScanType::SymbolMinus),
        0x0d => down(ScanType::SymbolEquals),
        0x0e => down(ScanType::Backspace),
        0x0f => down(ScanType::Tab),
        0x10 => down(ScanType::CharQ),
        0x11 => down(ScanType::CharW),
        0x12 => down(ScanType::CharE),
        0x13 => down(ScanType::CharR),
        0x14 => down(ScanType::CharT),
        0x15 => down(ScanType::CharY),
        0x16 => down(ScanType::CharU),
        0x17 => down(ScanType::CharI),
        0x18 => down(ScanType::CharO),
        0x19 => down(ScanType::CharP),
        0x1a => down(ScanType::SymbolOpenSquareBracket),
        0x1b => down(ScanType::SymbolCloseSquareBracket),
        0x1c => down(ScanType::Enter),
        0x1d => down(ScanType::LeftCtrl),
        0x1e => down(ScanType::CharA),
        0x1f => down(ScanType::CharS),
        0x20 => down(ScanType::CharD),
        0x21 => down(ScanType::CharF),
        0x22 => down(ScanType::CharG),
        0x23 => down(ScanType::CharH),
        0x24 => down(ScanType::CharJ),
        0x25 => down(ScanType::CharK),
        0x26 => down(ScanType::CharL),
        0x27 => down(ScanType::SymbolSemicolon),
        0x28 => down(ScanType::SymbolSingleQuote),
        0x29 => down(ScanType::SymbolBacktick),
        0x2a => down(ScanType::LeftShift),
        0x2b => down(ScanType::SymbolBackslash),
        0x2c => down(ScanType::CharZ),
        0x2d => down(ScanType::CharX),
        0x2e => down(ScanType::CharC),
        0x2f => down(ScanType::CharV),
        0x30 => down(ScanType::CharB),
        0x31 => down(ScanType::CharN),
        0x32 => down(ScanType::CharM),
        0x33 => down(ScanType::SymbolComma),
        0x34 => down(ScanType::SymbolPeriod),
        0x35 => down(ScanType::SymbolForwardSlash),
        0x36 => down(ScanType::RightShift),
        0x37 => keypad_down(ScanType::SymbolAsterisk),
        0x38 => down(ScanType::LeftAlt),
        0x39 => down(ScanType::Space),
        0x3a => down(ScanType::CapsLock),
        0x3b => down(ScanType::F1),
        0x3c => down(ScanType::F2),
        0x3d => down(ScanType::F3),
        0x3e => down(ScanType::F4),
        0x3f => down(ScanType::F5),
        0x40 => down(ScanType::F6),
        0x41 => down(ScanType::F7),
        0x42 => down(ScanType::F8),
        0x43 => down(ScanType::F9),
        0x44 => down(ScanType::F10),
        0x45 => down(ScanType::NumLock),
        0x46 => down(ScanType::ScrollLock),
        0x47 => keypad_down(ScanType::Num7),
        0x48 => keypad_down(ScanType::Num8),
        0x49 => keypad_down(ScanType::Num9),
        0x4a => keypad_down(ScanType::SymbolMinus),
        0x4b => keypad_down(ScanType::Num4),
        0x4c => keypad_down(ScanType::Num5),
        0x4d => keypad_down(ScanType::Num6),
        0x4e => keypad_down(ScanType::SymbolPlus),
        0x4f => keypad_down(ScanType::Num1),
        0x50 => keypad_down(ScanType::Num2),
        0x51 => keypad_down(ScanType::Num3),
        0x52 => keypad_down(ScanType::Num0),
        0x53 => keypad_down(ScanType::SymbolPeriod),
        0x57 => down(ScanType::F11),
        0x58 => down(ScanType::F12),
        _ => None,
    }
}

/// The key that a single byte reports, when no escape sequence is pending.
/// A break code is its make code plus 0x80; F11 and F12 have break codes of
/// their own.
pub open spec fn simple_key(code: u8) -> Option<KeyView> {
    if 0x81 <= code <= 0xd3 {
        invert_opt(press_table((code - 0x80) as u8))
    } else if code == 0xd7 {
        Some(key_view(ScanType::F11, KeyState::Released))
    } else if code == 0xd8 {
        Some(key_view(ScanType::F12, KeyState::Released))
    } else {
        press_table(code)
    }
}

/// The set 1 make codes that follow 0xE0.
pub open spec fn media_press_table(code: u8) -> Option<KeyView> {
    match code {
        0x10 => down(ScanType::PreviousTrack),
        0x19 => down(ScanType::NextTrack),
        0x1c => keypad_down(ScanType::Enter),
        0x1d => down(ScanType::RightCtrl),
        0x20 => down(ScanType::Mute),
        0x21 => down(ScanType::Calculator),
        0x22 => down(ScanType::Play),
        0x24 => down(ScanType::Stop),
        0x2e => down(ScanType::VolumeDown),
        0x30 => down(ScanType::VolumeUp),
        0x32 => down(ScanType::WWWHome),
        0x35 => keypad_down(ScanType::SymbolForwardSlash),
        0x38 => down(ScanType::RightAlt),
        0x47 => down(ScanType::Home),
        0x48 => down(ScanType::CursorUp),
        0x49 => down(ScanType::PageUp),
        0x4b => down(ScanType::CursorLeft),
        0x4d => down(ScanType::CursorRight),
        0x4f => down(ScanType::End),
        0x50 => down(ScanType::CursorDown),
        0x51 => down(ScanType::PageDown),
        0x52 => down(ScanType::Insert),
        0x53 => down(ScanType::Delete),
        0x5b => down(ScanType::LeftGUI),
        0x5c => down(ScanType::RightGUI),
        0x5d => down(ScanType::Apps),
        0x5e => down(ScanType::ACPIPower),
        0x5f => down(ScanType::ACPISleep),
        0x63 => down(ScanType::ACPIWake),
        0x65 => down(ScanType::WWWSearch),
        0x66 => down(ScanType::WWWFavorites),
        0x67 => down(ScanType::WWWRefresh),
        0x68 => down(ScanType::WWWStop),
        0x69 => down(ScanType::WWWForward),
        0x6a => down(ScanType::WWWBack),
        0x6b => down(ScanType::MyComputer),
        0x6c => down(ScanType::Email),
        0x6d => down(ScanType::MediaSelect),
        _ => None,
    }
}

/// The key that the byte after 0xE0 reports; break codes are make codes plus 0x80.
pub open spec fn media_key(code: u8) -> Option<KeyView> {
    if 0x90 <= code <= 0xed {
        invert_opt(media_press_table((code - 0x80) as u8))
    } else {
        media_press_table(code)
    }
}

pub open spec fn opt_view(k: Option<Key>) -> Option<KeyView> {
    match k {
        Some(k) => Some(k@),
        None => None,
    }
}

/// What a decoding call returns, with keys and messages taken to their views.
pub open spec fn outcome_view(r: Result<Option<Key>, &'static str>) -> Result<Option<KeyView>, Seq<char>> {
    match r {
        Ok(k) => Ok(opt_view(k)),
        Err(e) => Err(e@),
    }
}

/// The Pause key's one encoding.
pub open spec fn pause_sequence() -> Seq<u8> {
    seq![0xe1u8, 0x1du8, 0x45u8, 0xe1u8, 0x9du8, 0xc5u8]
}

/// Print Screen: pressed with 0xE0 0x2A 0xE0 0x37, released with 0xE0 0xB7 0xE0 0xAA.
pub open spec fn print_screen_sequence(released: bool) -> Seq<u8> {
    if released {
        seq![0xe0u8, 0xb7u8, 0xe0u8, 0xaau8]
    } else {
        seq![0xe0u8, 0x2au8, 0xe0u8, 0x37u8]
    }
}

/// `h` is empty, or a strict prefix of an escape sequence that still awaits a byte.
pub open spec fn is_escape_prefix(h: Seq<u8>) -> bool {
    ||| h.len() == 0
    ||| (h.len() < 4 && h == print_screen_sequence(false).take(h.len() as int))
    ||| (h.len() < 4 && h == print_screen_sequence(true).take(h.len() as int))
    ||| (h.len() < 6 && h == pause_sequence().take(h.len() as int))
}

/// One decoding step: from the bytes of the pending escape sequence `h` and a
/// new byte, the pending bytes afterwards and what the call reports. The
/// position of the new byte is the length of `h`.
pub open spec fn decode_step(h: Seq<u8>, code: u8) -> (Seq<u8>, Result<Option<KeyView>, Seq<char>>) {
    let empty = Seq::<u8>::empty();
    if h.len() == 0 {
        if code <= 0xd8 {
            (empty, Ok(simple_key(code)))
        } else if code == 0xe0 || code == 0xe1 {
            (seq![code], Ok(None))
        } else {
            (empty, Ok(None))
        }
    } else if h.len() == 1 {
        if h[0] == 0xe1 {
            if code == 0x1d {
                (h.push(code), Ok(None))
            } else {
                (empty, Err("Invalid follow-up code for 0xE1."@))
            }
        } else if code == 0x2a || code == 0xb7 {
            (h.push(code), Ok(None))
        } else {
            (empty, Ok(media_key(code)))
        }
    } else if h.len() == 2 {
        if h[1] == 0x1d {
            if code == 0x45 {
                (h.push(code), Ok(None))
            } else {
                (empty, Err("Invalid scan code expected 0x45."@))
            }
        } else if code == 0xe0 {
            (h.push(code), Ok(None))
        } else {
            (empty, Err("Invalid scan code expected 0xe0."@))
        }
    } else if h.len() == 3 {
        if h[2] == 0x45 {
            if code == 0xe1 {
                (h.push(code), Ok(None))
            } else {
                (empty, Err("Invalid scan code expected 0xe1."@))
            }
        } else if code == 0x37 {
            (empty, Ok(Some(key_view(ScanType::PrintScreen, KeyState::Pressed))))
        } else if code == 0xaa {
            (empty, Ok(Some(key_view(ScanType::PrintScreen, KeyState::Released))))
        } else {
            (empty, Err("Invalid scan code expected 0x37 or 0xaa."@))
        }
    } else if h.len() == 4 {
        if code == 0x9d {
            (h.push(code), Ok(None))
        } else {
            (empty, Err("Invalid scan code expected 0x9d."@))
        }
    } else {
        if code == 0xc5 {
            (empty, Ok(Some(key_view(ScanType::Pause, KeyState::Pressed))))
        } else {
            (empty, Err("Invalid scan code expected 0xc5."@))
        }
    }
}

/// The escape sequence received so far. `released` tells 0xB7 from 0x2A
/// as the second byte of a Print Screen sequence.
#[derive(Debug, Clone, Copy, PartialEq, Eq, Structural)]
enum Pending {
    Nothing,
    Extended,
    PrintScreenStart { released: bool },
    PrintScreenMiddle { released: bool },
    PauseAfterE1,
    PauseAfter1D,
    PauseAfter45,
    PauseAfterSecondE1,
    PauseAfter9D,
}

impl Pending {
    spec fn bytes(self) -> Seq<u8> {
        match self {
            Pending::Nothing => seq![],
            Pending::Extended => seq![0xe0u8],
            Pending::PrintScreenStart { released } => print_screen_sequence(released).take(2),
            Pending::PrintScreenMiddle { released } => print_screen_sequence(released).take(3),
            Pending::PauseAfterE1 => pause_sequence().take(1),
            Pending::PauseAfter1D => pause_sequence().take(2),
            Pending::PauseAfter45 => pause_sequence().take(3),
            Pending::PauseAfterSecondE1 => pause_sequence().take(4),
            Pending::PauseAfter9D => pause_sequence().take(5),
        }
    }
}

/// Turns a stream of bytes into keys, one byte per call.
#[derive(Debug, Clone, Copy, PartialEq, Eq, Structural)]
pub struct Reader {
    mode: ReaderMode,
    pending: Pending,
}

impl Reader {
    /// The bytes of the escape sequence that is in progress.
    pub closed spec fn history(&self) -> Seq<u8> {
        self.pending.bytes()
    }

    pub closed spec fn mode(&self) -> ReaderMode {
        self.mode
    }

    pub fn new(mode: ReaderMode) -> (r: Reader)
        ensures
            r.history() == Seq::<u8>::empty(),
            r.mode() == mode,
    {
        Reader { mode, pending: Pending::Nothing }
    }

    /// Drops any escape sequence in progress.
    pub fn zero_scan_codes(&mut self)
        ensures
            final(self).history() == Seq::<u8>::empty(),
            final(self).mode() == old(self).mode(),
    {
        self.pending = Pending::Nothing;
    }

    pub fn switch_scan_mode(&mut self, mode: ReaderMode)
        ensures
            final(self).history() == Seq::<u8>::empty(),
            final(self).mode() == mode,
    {
        self.zero_scan_codes();
        self.mode = mode;
    }

    /// Consumes one byte: `Ok(None)` while a sequence is incomplete or for a
    /// byte that names no key, `Ok(Some(key))` when a key is complete, and an
    /// error when the byte cannot continue the pending sequence. Any result
    /// but a pending `Ok(None)` leaves no sequence in progress.
    pub fn input_scan_code(&mut self, code: u8) -> (r: Result<Option<Key>, &'static str>)
        ensures
            final(self).history() == decode_step(old(self).history(), code).0,
            outcome_view(r) == decode_step(old(self).history(), code).1,
            final(self).mode() == old(self).mode(),
    {
        match self.mode {
            ReaderMode::Set1 => self.input_scan_code_s1(code),
            ReaderMode::Set2 => self.input_scan_code_s1(code),
            ReaderMode::Set3 => self.input_scan_code_s1(code),
        }
    }

    fn input_scan_code_s1(&mut self, code: u8) -> (r: Result<Option<Key>, &'static str>)
        ensures
            final(self).history() == decode_step(old(self).history(), code).0,
            outcome_view(r) == decode_step(old(self).history(), code).1,
            final(self).mode() == old(self).mode(),
    {
        let ghost h = self.history();
        match self.pending {
            Pending::Nothing => {
                if code <= 0xd8 {
                    Ok(Self::map_simple_scan_code_s1(code))
                } else if code == 0xe0 {
                    self.pending = Pending::Extended;
                    assert(self.history() =~= seq![code]);
                    Ok(None)
                } else if code == 0xe1 {
                    self.pending = Pending::PauseAfterE1;
                    assert(self.history() =~= seq![code]);
                    Ok(None)
                } else {
                    Ok(None)
                }
            },
            Pending::Extended => {
                if code == 0x2a || code == 0xb7 {
                    self.pending = Pending::PrintScreenStart { released: code == 0xb7 };
                    assert(self.history() =~= h.push(code));
                    Ok(None)
                } else {
                    self.pending = Pending::Nothing;
                    Ok(Self::map_media_scan_code_s1(code))
                }
            },
            Pending::PrintScreenStart { released } => {
                assert(h[1] != 0x1d);
                if code == 0xe0 {
                    self.pending = Pending::PrintScreenMiddle { released };
                    assert(self.history() =~= h.push(code));
                    Ok(None)
                } else {
                    self.pending = Pending::Nothing;
                    Err("Invalid scan code expected 0xe0.")
                }
            },
            Pending::PrintScreenMiddle { .. } => {
                assert(h[2] != 0x45);
                self.pending = Pending::Nothing;
                if code == 0x37 {
                    Ok(Some(Key::new(ScanType::PrintScreen, KeyState::Pressed)))
                } else if code == 0xaa {
                    Ok(Some(Key::new(ScanType::PrintScreen, KeyState::Released)))
                } else {
                    Err("Invalid scan code expected 0x37 or 0xaa.")
                }
            },
            Pending::PauseAfterE1 => {
                if code == 0x1d {
                    self.pending = Pending::PauseAfter1D;
                    assert(self.history() =~= h.push(code));
                    Ok(None)
                } else {
                    self.pending = Pending::Nothing;
                    Err("Invalid follow-up code for 0xE1.")
                }
            },
            Pending::PauseAfter1D => {
                if code == 0x45 {
                    self.pending = Pending::PauseAfter45;
                    assert(self.history() =~= h.push(code));
                    Ok(None)
                } else {
                    self.pending = Pending::Nothing;
                    Err("Invalid scan code expected 0x45.")
                }
            },
            Pending::PauseAfter45 => {
                if code == 0xe1 {
                    self.pending = Pending::PauseAfterSecondE1;
                    assert(self.history() =~= h.push(code));
                    Ok(None)
                } else {
                    self.pending = Pending::Nothing;
                    Err("Invalid scan code expected 0xe1.")
                }
            },
            Pending::PauseAfterSecondE1 => {
                if code == 0x9d {
                    self.pending = Pending::PauseAfter9D;
                    assert(self.history() =~= h.push(code));
                    Ok(None)
                } else {
                    self.pending = Pending::Nothing;
                    Err("Invalid scan code expected 0x9d.")
                }
            },
            Pending::PauseAfter9D => {
                self.pending = Pending::Nothing;
                if code == 0xc5 {
                    Ok(Some(Key::new(ScanType::Pause, KeyState::Pressed)))
                } else {
                    Err("Invalid scan code expected 0xc5.")
                }
            },
        }
    }

    fn map_simple_scan_code_s1(code: u8) -> (r: Option<Key>)
        ensures
            opt_view(r) == simple_key(code),
        decreases code,
    {
        match code {
            0x01 => Some(Key::new(ScanType::Escape, KeyState::Pressed)),
            0x02 => Some(Key::new(ScanType::Num1, KeyState::Pressed)),
            0x03 => Some(Key::new(ScanType::Num2, KeyState::Pressed)),
            0x04 => Some(Key::new(ScanType::Num3, KeyState::Pressed)),
            0x05 => Some(Key::new(ScanType::Num4, KeyState::Pressed)),
            0x06 => Some(Key::new(ScanType::Num5, KeyState::Pressed)),
            0x07 => Some(Key::new(ScanType::Num6, KeyState::Pressed)),
            0x08 => Some(Key::new(ScanType::Num7, KeyState::Pressed)),
            0x09 => Some(Key::new(ScanType::Num8, KeyState::Pressed)),
            0x0a => Some(Key::new(ScanType::Num9, KeyState::Pressed)),
            0x0b => Some(Key::new(ScanType::Num0, KeyState::Pressed)),
            0x0c => Some(Key::new(ScanType::SymbolMinus, KeyState::Pressed)),
            0x0d => Some(Key::new(ScanType::SymbolEquals, KeyState::Pressed)),
            0x0e => Some(Key::new(ScanType::Backspace, KeyState::Pressed)),
            0x0f => Some(Key::new(ScanType::Tab, KeyState::Pressed)),
            0x10 => Some(Key::new(ScanType::CharQ, KeyState::Pressed)),
            0x11 => Some(Key::new(ScanType::CharW, KeyState::Pressed)),
            0x12 => Some(Key::new(ScanType::CharE, KeyState::Pressed)),
            0x13 => Some(Key::new(ScanType::CharR, KeyState::Pressed)),
            0x14 => Some(Key::new(ScanType::CharT, KeyState::Pressed)),
            0x15 => Some(Key::new(ScanType::CharY, KeyState::Pressed)),
            0x16 => Some(Key::new(ScanType::CharU, KeyState::Pressed)),
            0x17 => Some(Key::new(ScanType::CharI, KeyState::Pressed)),
            0x18 => Some(Key::new(ScanType::CharO, KeyState::Pressed)),
            0x19 => Some(Key::new(ScanType::CharP, KeyState::Pressed)),
            0x1a => Some(Key::new(ScanType::SymbolOpenSquareBracket, KeyState::Pressed)),
            0x1b => Some(Key::new(ScanType::SymbolCloseSquareBracket, KeyState::Pressed)),
            0x1c => Some(Key::new(ScanType::Enter, KeyState::Pressed)),
            0x1d => Some(Key::new(ScanType::LeftCtrl, KeyState::Pressed)),
            0x1e => Some(Key::new(ScanType::CharA, KeyState::Pressed)),
            0x1f => Some(Key::new(ScanType::CharS, KeyState::Pressed)),
            0x20 => Some(Key::new(ScanType::CharD, KeyState::Pressed)),
            0x21 => Some(Key::new(ScanType::CharF, KeyState::Pressed)),
            0x22 => Some(Key::new(ScanType::CharG, KeyState::Pressed)),
            0x23 => Some(Key::new(ScanType::CharH, KeyState::Pressed)),
            0x24 => Some(Key::new(ScanType::CharJ, KeyState::Pressed)),
            0x25 => Some(Key::new(ScanType::CharK, KeyState::Pressed)),
            0x26 => Some(Key::new(ScanType::CharL, KeyState::Pressed)),
            0x27 => Some(Key::new(ScanType::SymbolSemicolon, KeyState::Pressed)),
            0x28 => Some(Key::new(ScanType::SymbolSingleQuote, KeyState::Pressed)),
            0x29 => Some(Key::new(ScanType::SymbolBacktick, KeyState::Pressed)),
            0x2a => Some(Key::new(ScanType::LeftShift, KeyState::Pressed)),
            0x2b => Some(Key::new(ScanType::SymbolBackslash, KeyState::Pressed)),
            0x2c => Some(Key::new(ScanType::CharZ, KeyState::Pressed)),
            0x2d => Some(Key::new(ScanType::CharX, KeyState::Pressed)),
            0x2e => Some(Key::new(ScanType::CharC, KeyState::Pressed)),
            0x2f => Some(Key::new(ScanType::CharV, KeyState::Pressed)),
            0x30 => Some(Key::new(ScanType::CharB, KeyState::Pressed)),
            0x31 => Some(Key::new(ScanType::CharN, KeyState::Pressed)),
            0x32 => Some(Key::new(ScanType::CharM, KeyState::Pressed)),
            0x33 => Some(Key::new(ScanType::SymbolComma, KeyState::Pressed)),
            0x34 => Some(Key::new(ScanType::SymbolPeriod, KeyState::Pressed)),
            0x35 => Some(Key::new(ScanType::SymbolForwardSlash, KeyState::Pressed)),
            0x36 => Some(Key::new(ScanType::RightShift, KeyState::Pressed)),
            0x37 => Some(Key::new_keypad(ScanType::SymbolAsterisk, KeyState::Pressed)),
            0x38 => Some(Key::new(ScanType::LeftAlt, KeyState::Pressed)),
            0x39 => Some(Key::new(ScanType::Space, KeyState::Pressed)),
            0x3a => Some(Key::new(ScanType::CapsLock, KeyState::Pressed)),
            0x3b => Some(Key::new(ScanType::F1, KeyState::Pressed)),
            0x3c => Some(Key::new(ScanType::F2, KeyState::Pressed)),
            0x3d => Some(Key::new(ScanType::F3, KeyState::Pressed)),
            0x3e => Some(Key::new(ScanType::F4, KeyState::Pressed)),
            0x3f => Some(Key::new(ScanType::F5, KeyState::Pressed)),
            0x40 => Some(Key::new(ScanType::F6, KeyState::Pressed)),
            0x41 => Some(Key::new(ScanType::F7, KeyState::Pressed)),
            0x42 => Some(Key::new(ScanType::F8, KeyState::Pressed)),
            0x43 => Some(Key::new(ScanType::F9, KeyState::Pressed)),
            0x44 => Some(Key::new(ScanType::F10, KeyState::Pressed)),
            0x45 => Some(Key::new(ScanType::NumLock, KeyState::Pressed)),
            0x46 => Some(Key::new(ScanType::ScrollLock, KeyState::Pressed)),
            0x47 => Some(Key::new_keypad(ScanType::Num7, KeyState::Pressed)),
            0x48 => Some(Key::new_keypad(ScanType::Num8, KeyState::Pressed)),
            0x49 => Some(Key::new_keypad(ScanType::Num9, KeyState::Pressed)),
            0x4a => Some(Key::new_keypad(ScanType::SymbolMinus, KeyState::Pressed)),
            0x4b => Some(Key::new_keypad(ScanType::Num4, KeyState::Pressed)),
            0x4c => Some(Key::new_keypad(ScanType::Num5, KeyState::Pressed)),
            0x4d => Some(Key::new_keypad(ScanType::Num6, KeyState::Pressed)),
            0x4e => Some(Key::new_keypad(ScanType::SymbolPlus, KeyState::Pressed)),
            0x4f => Some(Key::new_keypad(ScanType::Num1, KeyState::Pressed)),
            0x50 => Some(Key::new_keypad(ScanType::Num2, KeyState::Pressed)),
            0x51 => Some(Key::new_keypad(ScanType::Num3, KeyState::Pressed)),
            0x52 => Some(Key::new_keypad(ScanType::Num0, KeyState::Pressed)),
            0x53 => Some(Key::new_keypad(ScanType::SymbolPeriod, KeyState::Pressed)),
            0x57 => Some(Key::new(ScanType::F11, KeyState::Pressed)),
            0x58 => Some(Key::new(ScanType::F12, KeyState::Pressed)),
            0x81..=0xd3 => match Self::map_simple_scan_code_s1(code - 0x80) {
                Some(n) => Some(n.inverted_state()),
                None => None,
            },
            0xd7 => Some(Key::new(ScanType::F11, KeyState::Released)),
            0xd8 => Some(Key::new(ScanType::F12, KeyState::Released)),
            _ => None,
        }
    }

    fn map_media_scan_code_s1(code: u8) -> (r: Option<Key>)
        ensures
            opt_view(r) == media_key(code),
        decreases code,
    {
        match code {
            0x10 => Some(Key::new(ScanType::PreviousTrack, KeyState::Pressed)),
            0x19 => Some(Key::new(ScanType::NextTrack, KeyState::Pressed)),
            0x1c => Some(Key::new_keypad(ScanType::Enter, KeyState::Pressed)),
            0x1d => Some(Key::new(ScanType::RightCtrl, KeyState::Pressed)),
            0x20 => Some(Key::new(ScanType::Mute, KeyState::Pressed)),
            0x21 => Some(Key::new(ScanType::Calculator, KeyState::Pressed)),
            0x22 => Some(Key::new(ScanType::Play, KeyState::Pressed)),
            0x24 => Some(Key::new(ScanType::Stop, KeyState::Pressed)),
            0x2e => Some(Key::new(ScanType::VolumeDown, KeyState::Pressed)),
            0x30 => Some(Key::new(ScanType::VolumeUp, KeyState::Pressed)),
            0x32 => Some(Key::new(ScanType::WWWHome, KeyState::Pressed)),
            0x35 => Some(Key::new_keypad(ScanType::SymbolForwardSlash, KeyState::Pressed)),
            0x38 => Some(Key::new(ScanType::RightAlt, KeyState::Pressed)),
            0x47 => Some(Key::new(ScanType::Home, KeyState::Pressed)),
            0x48 => Some(Key::new(ScanType::CursorUp, KeyState::Pressed)),
            0x49 => Some(Key::new(ScanType::PageUp, KeyState::Pressed)),
            0x4b => Some(Key::new(ScanType::CursorLeft, KeyState::Pressed)),
            0x4d => Some(Key::new(ScanType::CursorRight, KeyState::Pressed)),
            0x4f => Some(Key::new(ScanType::End, KeyState::Pressed)),
            0x50 => Some(Key::new(ScanType::CursorDown, KeyState::Pressed)),
            0x51 => Some(Key::new(ScanType::PageDown, KeyState::Pressed)),
            0x52 => Some(Key::new(ScanType::Insert, KeyState::Pressed)),
            0x53 => Some(Key::new(ScanType::Delete, KeyState::Pressed)),
            0x5b => Some(Key::new(ScanType::LeftGUI, KeyState::Pressed)),
            0x5c => Some(Key::new(ScanType::RightGUI, KeyState::Pressed)),
            0x5d => Some(Key::new(ScanType::Apps, KeyState::Pressed)),
            0x5e => Some(Key::new(ScanType::ACPIPower, KeyState::Pressed)),
            0x5f => Some(Key::new(ScanType::ACPISleep, KeyState::Pressed)),
            0x63 => Some(Key::new(ScanType::ACPIWake, KeyState::Pressed)),
            0x65 => Some(Key::new(ScanType::WWWSearch, KeyState::Pressed)),
            0x66 => Some(Key::new(ScanType::WWWFavorites, KeyState::Pressed)),
            0x67 => Some(Key::new(ScanType::WWWRefresh, KeyState::Pressed)),
            0x68 => Some(Key::new(ScanType::WWWStop, KeyState::Pressed)),
            0x69 => Some(Key::new(ScanType::WWWForward, KeyState::Pressed)),
            0x6a => Some(Key::new(ScanType::WWWBack, KeyState::Pressed)),
            0x6b => Some(Key::new(ScanType::MyComputer, KeyState::Pressed)),
            0x6c => Some(Key::new(ScanType::Email, KeyState::Pressed)),
            0x6d => Some(Key::new(ScanType::MediaSelect, KeyState::Pressed)),
            0x90..=0xed => match Self::map_media_scan_code_s1(code - 0x80) {
                Some(n) => Some(n.inverted_state()),
                None => None,
            },
            _ => None,
        }
    }
}

/// The pending bytes of a reader are always empty or a strict prefix of an
/// escape sequence.
pub proof fn lemma_history_is_escape_prefix(r: Reader)
    ensures
        is_escape_prefix(r.history()),
{
    assert(pause_sequence().take(1) =~= seq![0xe1u8]);
    assert(print_screen_sequence(false).take(1) =~= seq![0xe0u8]);
}

/// A decoding step from empty or a strict prefix of an escape sequence leads
/// to empty or a strict prefix again.
pub proof fn lemma_step_keeps_escape_prefix(h: Seq<u8>, code: u8)
    requires
        is_escape_prefix(h),
    ensures
        is_escape_prefix(decode_step(h, code).0),
{
    let p = pause_sequence();
    let s0 = print_screen_sequence(false);
    let s1 = print_screen_sequence(true);
    assert(p.take(1) =~= seq![0xe1u8]);
    assert(s0.take(1) =~= seq![0xe0u8]);
    if h.len() == 1 && h[0] == 0xe1 {
        assert(h.push(0x1d) =~= p.take(2));
    } else if h.len() == 1 {
        assert(h.push(0x2a) =~= s0.take(2));
        assert(h.push(0xb7) =~= s1.take(2));
    } else if h.len() == 2 && h[1] == 0x1d {
        assert(h.push(0x45) =~= p.take(3));
    } else if h.len() == 2 {
        assert(h.push(0xe0) =~= s0.take(3) || h.push(0xe0) =~= s1.take(3));
    } else if h.len() == 3 && h[2] == 0x45 {
        assert(h.push(0xe1) =~= p.take(4));
    } else if h.len() == 4 {
        assert(h.push(0x9d) =~= p.take(5));
    }
}

/// Press and release mirror each other: for each make code from 0x01 to
/// 0x58, the code plus 0x80 decodes, from an idle reader, to the same key
/// with the opposite state, and no code names a key that the other does not.
pub proof fn lemma_break_code_mirrors_make_code(code: u8)
    requires
        0x01 <= code <= 0x58,
    ensures
        simple_key((code + 0x80) as u8) == invert_opt(simple_key(code)),
        decode_step(Seq::<u8>::empty(), code) == (Seq::<u8>::empty(), Ok::<Option<KeyView>, Seq<char>>(simple_key(code))),
        decode_step(Seq::<u8>::empty(), (code + 0x80) as u8) == (Seq::<u8>::empty(), Ok::<Option<KeyView>, Seq<char>>(invert_opt(simple_key(code)))),
{
}

/// 0xE0 twice from an idle reader names no key: both bytes report `Ok(None)`
/// and the reader is idle after the second, so the byte after them is
/// decoded as a fresh start.
pub proof fn lemma_double_extended_prefix_is_dropped(next: u8)
    ensures
        decode_step(Seq::<u8>::empty(), 0xe0) == (seq![0xe0u8], Ok::<Option<KeyView>, Seq<char>>(None)),
        decode_step(seq![0xe0u8], 0xe0) == (Seq::<u8>::empty(), Ok::<Option<KeyView>, Seq<char>>(None)),
        next <= 0xd8 ==> decode_step(decode_step(seq![0xe0u8], 0xe0).0, next) == (Seq::<u8>::empty(), Ok::<Option<KeyView>, Seq<char>>(simple_key(next))),
{
}

/// The six bytes of the Pause sequence, fed to an idle reader, report
/// nothing five times and then Pause pressed, leaving the reader idle.
pub proof fn lemma_pause_sequence_decodes()
    ensures
        forall|i: int| 0 <= i < 5 ==> #[trigger] decode_step(pause_sequence().take(i), pause_sequence()[i]) == (pause_sequence().take(i + 1), Ok::<Option<KeyView>, Seq<char>>(None)),
        decode_step(pause_sequence().take(5), pause_sequence()[5]) == (Seq::<u8>::empty(), Ok::<Option<KeyView>, Seq<char>>(Some(key_view(ScanType::Pause, KeyState::Pressed)))),
{
    let p = pause_sequence();
    assert(p.take(0) =~= Seq::<u8>::empty());
    assert forall|i: int| 0 <= i < 5 implies #[trigger] decode_step(p.take(i), p[i]) == (p.take(i + 1), Ok::<Option<KeyView>, Seq<char>>(None)) by {
        assert(p.take(i + 1) =~= p.take(i).push(p[i]));
        if i == 0 {
            assert(p.take(1) =~= seq![0xe1u8]);
        }
    }
}

/// The four bytes of a Print Screen sequence, fed to an idle reader, report
/// nothing three times and then Print Screen, pressed or released as the
/// sequence says, leaving the reader idle.
pub proof fn lemma_print_screen_sequence_decodes(released: bool)
    ensures
        forall|i: int| 0 <= i < 3 ==> #[trigger] decode_step(print_screen_sequence(released).take(i), print_screen_sequence(released)[i]) == (print_screen_sequence(released).take(i + 1), Ok::<Option<KeyView>, Seq<char>>(None)),
        decode_step(print_screen_sequence(released).take(3), print_screen_sequence(released)[3]) == (Seq::<u8>::empty(), Ok::<Option<KeyView>, Seq<char>>(Some(key_view(ScanType::PrintScreen, if released { KeyState::Released } else { KeyState::Pressed })))),
{
    let s = print_screen_sequence(released);
    assert(s.take(0) =~= Seq::<u8>::empty());
    assert forall|i: int| 0 <= i < 3 implies #[trigger] decode_step(s.take(i), s[i]) == (s.take(i + 1), Ok::<Option<KeyView>, Seq<char>>(None)) by {
        assert(s.take(i + 1) =~= s.take(i).push(s[i]));
        if i == 0 {
            assert(s.take(1) =~= seq![0xe0u8]);
        }
    }
}

/// A rejected byte leaves no sequence in progress: whatever was pending, the
/// next byte is decoded as a fresh start, and a single-byte code gives its key.
pub proof fn lemma_error_resets_decoder(h: Seq<u8>, bad: u8, next: u8)
    requires
        decode_step(h, bad).1 is Err,
    ensures
        decode_step(h, bad).0 == Seq::<u8>::empty(),
        next <= 0xd8 ==> decode_step(decode_step(h, bad).0, next) == (Seq::<u8>::empty(), Ok::<Option<KeyView>, Seq<char>>(simple_key(next))),
{
}

} // verus!
