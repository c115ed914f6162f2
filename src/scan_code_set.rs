use vstd::prelude::*;

verus! {

/// The symbolic identity of a key, independent of the bytes that encode it.
///
/// Variants of one category stand next to each other, so that a category is a
/// contiguous range of `as_u8` values: digits, then letters, and so on.
#[derive(Debug, Clone, Copy, PartialEq, Eq, Structural, PartialOrd, Ord)]
pub enum ScanType {
    // Digits
    Num0,
    Num1,
    Num2,
    Num3,
    Num4,
    Num5,
    Num6,
    Num7,
    Num8,
    Num9,

    // Letters
    CharA,
    CharB,
    CharC,
    CharD,
    CharE,
    CharF,
    CharG,
    CharH,
    CharI,
    CharJ,
    CharK,
    CharL,
    CharM,
    CharN,
    CharO,
    CharP,
    CharQ,
    CharR,
    CharS,
    CharT,
    CharU,
    CharV,
    CharW,
    CharX,
    CharY,
    CharZ,

    // Symbols
    SymbolPlus,
    SymbolMinus,
    SymbolEquals,
    SymbolOpenSquareBracket,
    SymbolCloseSquareBracket,
    SymbolSemicolon,
    SymbolSingleQuote,
    SymbolBacktick,
    SymbolBackslash,
    SymbolComma,
    SymbolPeriod,
    SymbolForwardSlash,
    SymbolAsterisk,

    // Control keys
    Escape,
    Backspace,
    Tab,
    Enter,
    LeftCtrl,
    RightCtrl,
    LeftShift,
    RightShift,
    LeftAlt,
    RightAlt,
    LeftGUI,
    RightGUI,
    Space,

    // Function keys
    F1,
    F2,
    F3,
    F4,
    F5,
    F6,
    F7,
    F8,
    F9,
    F10,
    F11,
    F12,

    // Lock keys
    NumLock,
    ScrollLock,
    CapsLock,

    // Navigation keys
    Home,
    PageUp,
    PageDown,
    CursorUp,
    CursorLeft,
    CursorRight,
    CursorDown,
    Insert,
    Delete,
    End,

    // Power keys
    ACPIPower,
    ACPISleep,
    ACPIWake,

    // Multimedia keys
    PreviousTrack,
    NextTrack,
    Mute,
    Calculator,
    Stop,
    Play,
    WWWHome,
    VolumeUp,
    VolumeDown,
    Apps,
    WWWSearch,
    WWWFavorites,
    WWWRefresh,
    WWWStop,
    WWWForward,
    WWWBack,
    MyComputer,
    Email,
    MediaSelect,

    // Keys with their own escape sequence
    PrintScreen,
    Pause,

    // Any key this library does not know
    Unknown,
}

impl ScanType {
    /// The position of the variant in the enumeration; `Unknown` is 0xFF.
    pub open spec fn ordinal(self) -> u8 {
        match self {
            ScanType::Num0 => 0,
            ScanType::Num1 => 1,
            ScanType::Num2 => 2,
            ScanType::Num3 => 3,
            ScanType::Num4 => 4,
            ScanType::Num5 => 5,
            ScanType::Num6 => 6,
            ScanType::Num7 => 7,
            ScanType::Num8 => 8,
            ScanType::Num9 => 9,
            ScanType::CharA => 10,
            ScanType::CharB => 11,
            ScanType::CharC => 12,
            ScanType::CharD => 13,
            ScanType::CharE => 14,
            ScanType::CharF => 15,
            ScanType::CharG => 16,
            ScanType::CharH => 17,
            ScanType::CharI => 18,
            ScanType::CharJ => 19,
            ScanType::CharK => 20,
            ScanType::CharL => 21,
            ScanType::CharM => 22,
            ScanType::CharN => 23,
            ScanType::CharO => 24,
            ScanType::CharP => 25,
            ScanType::CharQ => 26,
            ScanType::CharR => 27,
            ScanType::CharS => 28,
            ScanType::CharT => 29,
            ScanType::CharU => 30,
            ScanType::CharV => 31,
            ScanType::CharW => 32,
            ScanType::CharX => 33,
            ScanType::CharY => 34,
            ScanType::CharZ => 35,
            ScanType::SymbolPlus => 36,
            ScanType::SymbolMinus => 37,
            ScanType::SymbolEquals => 38,
            ScanType::SymbolOpenSquareBracket => 39,
            ScanType::SymbolCloseSquareBracket => 40,
            ScanType::SymbolSemicolon => 41,
            ScanType::SymbolSingleQuote => 42,
            ScanType::SymbolBacktick => 43,
            ScanType::SymbolBackslash => 44,
            ScanType::SymbolComma => 45,
            ScanType::SymbolPeriod => 46,
            ScanType::SymbolForwardSlash => 47,
            ScanType::SymbolAsterisk => 48,
            ScanType::Escape => 49,
            ScanType::Backspace => 50,
            ScanType::Tab => 51,
            ScanType::Enter => 52,
            ScanType::LeftCtrl => 53,
            ScanType::RightCtrl => 54,
            ScanType::LeftShift => 55,
            ScanType::RightShift => 56,
            ScanType::LeftAlt => 57,
            ScanType::RightAlt => 58,
            ScanType::LeftGUI => 59,
            ScanType::RightGUI => 60,
            ScanType::Space => 61,
            ScanType::F1 => 62,
            ScanType::F2 => 63,
            ScanType::F3 => 64,
            ScanType::F4 => 65,
            ScanType::F5 => 66,
            ScanType::F6 => 67,
            ScanType::F7 => 68,
            ScanType::F8 => 69,
            ScanType::F9 => 70,
            ScanType::F10 => 71,
            ScanType::F11 => 72,
            ScanType::F12 => 73,
            ScanType::NumLock => 74,
            ScanType::ScrollLock => 75,
            ScanType::CapsLock => 76,
            ScanType::Home => 77,
            ScanType::PageUp => 78,
            ScanType::PageDown => 79,
            ScanType::CursorUp => 80,
            ScanType::CursorLeft => 81,
            ScanType::CursorRight => 82,
            ScanType::CursorDown => 83,
            ScanType::Insert => 84,
            ScanType::Delete => 85,
            ScanType::End => 86,
            ScanType::ACPIPower => 87,
            ScanType::ACPISleep => 88,
            ScanType::ACPIWake => 89,
            ScanType::PreviousTrack => 90,
            ScanType::NextTrack => 91,
            ScanType::Mute => 92,
            ScanType::Calculator => 93,
            ScanType::Stop => 94,
            ScanType::Play => 95,
            ScanType::WWWHome => 96,
            ScanType::VolumeUp => 97,
            ScanType::VolumeDown => 98,
            ScanType::Apps => 99,
            ScanType::WWWSearch => 100,
            ScanType::WWWFavorites => 101,
            ScanType::WWWRefresh => 102,
            ScanType::WWWStop => 103,
            ScanType::WWWForward => 104,
            ScanType::WWWBack => 105,
            ScanType::MyComputer => 106,
            ScanType::Email => 107,
            ScanType::MediaSelect => 108,
            ScanType::PrintScreen => 109,
            ScanType::Pause => 110,
            ScanType::Unknown => 0xff,
        }
    }

    pub open spec fn spec_is_letter(self) -> bool {
        ScanType::CharA.ordinal() <= self.ordinal() <= ScanType::CharZ.ordinal()
    }

    pub open spec fn spec_is_num(self) -> bool {
        ScanType::Num0.ordinal() <= self.ordinal() <= ScanType::Num9.ordinal()
    }

    pub fn as_u8(self) -> (r: u8)
        ensures
            r == self.ordinal(),
    {
        match self {
            ScanType::Num0 => 0,
            ScanType::Num1 => 1,
            ScanType::Num2 => 2,
            ScanType::Num3 => 3,
            ScanType::Num4 => 4,
            ScanType::Num5 => 5,
            ScanType::Num6 => 6,
            ScanType::Num7 => 7,
            ScanType::Num8 => 8,
            ScanType::Num9 => 9,
            ScanType::CharA => 10,
            ScanType::CharB => 11,
            ScanType::CharC => 12,
            ScanType::CharD => 13,
            ScanType::CharE => 14,
            ScanType::CharF => 15,
            ScanType::CharG => 16,
            ScanType::CharH => 17,
            ScanType::CharI => 18,
            ScanType::CharJ => 19,
            ScanType::CharK => 20,
            ScanType::CharL => 21,
            ScanType::CharM => 22,
            ScanType::CharN => 23,
            ScanType::CharO => 24,
            ScanType::CharP => 25,
            ScanType::CharQ => 26,
            ScanType::CharR => 27,
            ScanType::CharS => 28,
            ScanType::CharT => 29,
            ScanType::CharU => 30,
            ScanType::CharV => 31,
            ScanType::CharW => 32,
            ScanType::CharX => 33,
            ScanType::CharY => 34,
            ScanType::CharZ => 35,
            ScanType::SymbolPlus => 36,
            ScanType::SymbolMinus => 37,
            ScanType::SymbolEquals => 38,
            ScanType::SymbolOpenSquareBracket => 39,
            ScanType::SymbolCloseSquareBracket => 40,
            ScanType::SymbolSemicolon => 41,
            ScanType::SymbolSingleQuote => 42,
            ScanType::SymbolBacktick => 43,
            ScanType::SymbolBackslash => 44,
            ScanType::SymbolComma => 45,
            ScanType::SymbolPeriod => 46,
            ScanType::SymbolForwardSlash => 47,
            ScanType::SymbolAsterisk => 48,
            ScanType::Escape => 49,
            ScanType::Backspace => 50,
            ScanType::Tab => 51,
            ScanType::Enter => 52,
            ScanType::LeftCtrl => 53,
            ScanType::RightCtrl => 54,
            ScanType::LeftShift => 55,
            ScanType::RightShift => 56,
            ScanType::LeftAlt => 57,
            ScanType::RightAlt => 58,
            ScanType::LeftGUI => 59,
            ScanType::RightGUI => 60,
            ScanType::Space => 61,
            ScanType::F1 => 62,
            ScanType::F2 => 63,
            ScanType::F3 => 64,
            ScanType::F4 => 65,
            ScanType::F5 => 66,
            ScanType::F6 => 67,
            ScanType::F7 => 68,
            ScanType::F8 => 69,
            ScanType::F9 => 70,
            ScanType::F10 => 71,
            ScanType::F11 => 72,
            ScanType::F12 => 73,
            ScanType::NumLock => 74,
            ScanType::ScrollLock => 75,
            ScanType::CapsLock => 76,
            ScanType::Home => 77,
            ScanType::PageUp => 78,
            ScanType::PageDown => 79,
            ScanType::CursorUp => 80,
            ScanType::CursorLeft => 81,
            ScanType::CursorRight => 82,
            ScanType::CursorDown => 83,
            ScanType::Insert => 84,
            ScanType::Delete => 85,
            ScanType::End => 86,
            ScanType::ACPIPower => 87,
            ScanType::ACPISleep => 88,
            ScanType::ACPIWake => 89,
            ScanType::PreviousTrack => 90,
            ScanType::NextTrack => 91,
            ScanType::Mute => 92,
            ScanType::Calculator => 93,
            ScanType::Stop => 94,
            ScanType::Play => 95,
            ScanType::WWWHome => 96,
            ScanType::VolumeUp => 97,
            ScanType::VolumeDown => 98,
            ScanType::Apps => 99,
            ScanType::WWWSearch => 100,
            ScanType::WWWFavorites => 101,
            ScanType::WWWRefresh => 102,
            ScanType::WWWStop => 103,
            ScanType::WWWForward => 104,
            ScanType::WWWBack => 105,
            ScanType::MyComputer => 106,
            ScanType::Email => 107,
            ScanType::MediaSelect => 108,
            ScanType::PrintScreen => 109,
            ScanType::Pause => 110,
            ScanType::Unknown => 0xff,
        }
    }

    pub fn is_letter(&self) -> (r: bool)
        ensures
            r == self.spec_is_letter(),
    {
        let v = self.as_u8();
        ScanType::CharA.as_u8() <= v && v <= ScanType::CharZ.as_u8()
    }

    pub fn is_num(&self) -> (r: bool)
        ensures
            r == self.spec_is_num(),
    {
        let v = self.as_u8();
        ScanType::Num0.as_u8() <= v && v <= ScanType::Num9.as_u8()
    }
}

#[derive(Debug, Clone, Copy, PartialEq, Eq, Structural, PartialOrd, Ord)]
pub enum KeyState {
    Pressed,
    Released,
}

impl KeyState {
    pub open spec fn inverted(self) -> KeyState {
        match self {
            KeyState::Pressed => KeyState::Released,
            KeyState::Released => KeyState::Pressed,
        }
    }
}

/// What a `Key` holds, for use in contracts.
pub struct KeyView {
    pub scan_type: ScanType,
    pub state: KeyState,
    pub keypad: bool,
}

impl KeyView {
    /// The same key with the opposite state.
    pub open spec fn inverted(self) -> KeyView {
        KeyView { scan_type: self.scan_type, state: self.state.inverted(), keypad: self.keypad }
    }

    pub open spec fn is_pressed(self) -> bool {
        self.state == KeyState::Pressed
    }
}

/// A main-block key in the given state.
pub open spec fn key_view(scan_type: ScanType, state: KeyState) -> KeyView {
    KeyView { scan_type, state, keypad: false }
}

/// A numeric-keypad key in the given state.
pub open spec fn keypad_view(scan_type: ScanType, state: KeyState) -> KeyView {
    KeyView { scan_type, state, keypad: true }
}

/// One decoded key event. The keypad flag is fixed when the key is made.
#[derive(Debug, Clone, Copy, PartialEq, Eq, Structural)]
pub struct Key {
    scan_type: ScanType,
    state: KeyState,
    keypad: bool,
}

impl View for Key {
    type V = KeyView;

    closed spec fn view(&self) -> KeyView {
        KeyView { scan_type: self.scan_type, state: self.state, keypad: self.keypad }
    }
}

impl Key {
    pub fn new(scan_type: ScanType, state: KeyState) -> (r: Self)
        ensures
            r@ == key_view(scan_type, state),
    {
        Self { scan_type, state, keypad: false }
    }

    pub fn new_keypad(scan_type: ScanType, state: KeyState) -> (r: Self)
        ensures
            r@ == keypad_view(scan_type, state),
    {
        Self { scan_type, state, keypad: true }
    }

    pub fn scan_type(&self) -> (r: ScanType)
        ensures
            r == self@.scan_type,
    {
        self.scan_type
    }

    pub fn state(&self) -> (r: KeyState)
        ensures
            r == self@.state,
    {
        self.state
    }

    pub fn keypad(&self) -> (r: bool)
        ensures
            r == self@.keypad,
    {
        self.keypad
    }

    /// The same key with its state flipped between pressed and released.
    pub fn inverted_state(self) -> (r: Self)
        ensures
            r@ == self@.inverted(),
    {
        let state = if self.state == KeyState::Pressed {
            KeyState::Released
        } else {
            KeyState::Pressed
        };
        Self { scan_type: self.scan_type, state, keypad: self.keypad }
    }

    pub fn is_pressed(&self) -> (r: bool)
        ensures
            r == self@.is_pressed(),
    {
        self.state == KeyState::Pressed
    }
}

} // verus!
