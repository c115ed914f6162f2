use vstd::prelude::*;

use crate::scan_code_set::{Key, KeyView, ScanType};

verus! {

/// The modifier and lock keys. Shift, Ctrl, Alt and GUI follow their key;
/// the three locks flip on each press.
#[derive(Debug, Clone, Copy, PartialEq, Eq, Structural)]
pub struct KeyModifierState {
    pub left_shift: bool,
    pub left_alt: bool,
    pub left_ctrl: bool,
    pub left_gui: bool,
    pub right_shift: bool,
    pub right_alt: bool,
    pub right_ctrl: bool,
    pub right_gui: bool,
    pub caps_lock: bool,
    pub num_lock: bool,
    pub scroll_lock: bool,
}

/// No modifier held and no lock on.
pub open spec fn released_modifiers() -> KeyModifierState {
    KeyModifierState {
        left_shift: false,
        left_alt: false,
        left_ctrl: false,
        left_gui: false,
        right_shift: false,
        right_alt: false,
        right_ctrl: false,
        right_gui: false,
        caps_lock: false,
        num_lock: false,
        scroll_lock: false,
    }
}

impl KeyModifierState {
    pub open spec fn spec_shift_down(self) -> bool {
        self.left_shift || self.right_shift
    }

    pub fn new() -> (r: Self)
        ensures
            r == released_modifiers(),
    {
        KeyModifierState {
            left_shift: false,
            left_alt: false,
            left_ctrl: false,
            left_gui: false,
            right_shift: false,
            right_alt: false,
            right_ctrl: false,
            right_gui: false,
            caps_lock: false,
            num_lock: false,
            scroll_lock: false,
        }
    }

    pub fn shift_down(&self) -> (r: bool)
        ensures
            r == self.spec_shift_down(),
    {
        self.left_shift || self.right_shift
    }

    pub fn ctrl_down(&self) -> (r: bool)
        ensures
            r == (self.left_ctrl || self.right_ctrl),
    {
        self.left_ctrl || self.right_ctrl
    }

    pub fn alt_down(&self) -> (r: bool)
        ensures
            r == (self.left_alt || self.right_alt),
    {
        self.left_alt || self.right_alt
    }

    pub fn gui_down(&self) -> (r: bool)
        ensures
            r == (self.left_gui || self.right_gui),
    {
        self.left_gui || self.right_gui
    }
}

/// Turns a key and the modifiers into a character, for one regional layout.
pub trait Layout {
    /// The character that `key` gives under `modifiers`, if any.
    spec fn char_of(&self, modifiers: KeyModifierState, key: KeyView) -> Option<char>;

    fn key_into_char(&self, modifiers: &KeyModifierState, key: Key) -> (r: Option<char>)
        ensures
            r == self.char_of(*modifiers, key@),
    ;
}

/// A letter key's character, in upper or lower case.
pub open spec fn letter_char_of(t: ScanType, upper: bool) -> Option<char> {
    match t {
        ScanType::CharA => Some(if upper { 'A' } else { 'a' }),
        ScanType::CharB => Some(if upper { 'B' } else { 'b' }),
        ScanType::CharC => Some(if upper { 'C' } else { 'c' }),
        ScanType::CharD => Some(if upper { 'D' } else { 'd' }),
        ScanType::CharE => Some(if upper { 'E' } else { 'e' }),
        ScanType::CharF => Some(if upper { 'F' } else { 'f' }),
        ScanType::CharG => Some(if upper { 'G' } else { 'g' }),
        ScanType::CharH => Some(if upper { 'H' } else { 'h' }),
        ScanType::CharI => Some(if upper { 'I' } else { 'i' }),
        ScanType::CharJ => Some(if upper { 'J' } else { 'j' }),
        ScanType::CharK => Some(if upper { 'K' } else { 'k' }),
        ScanType::CharL => Some(if upper { 'L' } else { 'l' }),
        ScanType::CharM => Some(if upper { 'M' } else { 'm' }),
        ScanType::CharN => Some(if upper { 'N' } else { 'n' }),
        ScanType::CharO => Some(if upper { 'O' } else { 'o' }),
        ScanType::CharP => Some(if upper { 'P' } else { 'p' }),
        ScanType::CharQ => Some(if upper { 'Q' } else { 'q' }),
        ScanType::CharR => Some(if upper { 'R' } else { 'r' }),
        ScanType::CharS => Some(if upper { 'S' } else { 's' }),
        ScanType::CharT => Some(if upper { 'T' } else { 't' }),
        ScanType::CharU => Some(if upper { 'U' } else { 'u' }),
        ScanType::CharV => Some(if upper { 'V' } else { 'v' }),
        ScanType::CharW => Some(if upper { 'W' } else { 'w' }),
        ScanType::CharX => Some(if upper { 'X' } else { 'x' }),
        ScanType::CharY => Some(if upper { 'Y' } else { 'y' }),
        ScanType::CharZ => Some(if upper { 'Z' } else { 'z' }),
        _ => None,
    }
}

/// What a key gives on the US layout with no shift held, letters aside.
pub open spec fn plain_char_of(t: ScanType) -> Option<char> {
    match t {
        ScanType::Num0 => Some('0'),
        ScanType::Num1 => Some('1'),
        ScanType::Num2 => Some('2'),
        ScanType::Num3 => Some('3'),
        ScanType::Num4 => Some('4'),
        ScanType::Num5 => Some('5'),
        ScanType::Num6 => Some('6'),
        ScanType::Num7 => Some('7'),
        ScanType::Num8 => Some('8'),
        ScanType::Num9 => Some('9'),
        ScanType::SymbolPlus => Some('+'),
        ScanType::SymbolMinus => Some('-'),
        ScanType::SymbolEquals => Some('='),
        ScanType::SymbolOpenSquareBracket => Some('['),
        ScanType::SymbolCloseSquareBracket => Some(']'),
        ScanType::SymbolSemicolon => Some(';'),
        ScanType::SymbolSingleQuote => Some('\''),
        ScanType::SymbolBacktick => Some('`'),
        ScanType::SymbolBackslash => Some('\\'),
        ScanType::SymbolComma => Some(','),
        ScanType::SymbolPeriod => Some('.'),
        ScanType::SymbolForwardSlash => Some('/'),
        ScanType::SymbolAsterisk => Some('*'),
        ScanType::Space => Some(' '),
        ScanType::Tab => Some('\t'),
        _ => None,
    }
}

/// What a digit key of the main block gives with shift held.
pub open spec fn shifted_digit_of(t: ScanType) -> Option<char> {
    match t {
        ScanType::Num0 => Some(')'),
        ScanType::Num1 => Some('!'),
        ScanType::Num2 => Some('@'),
        ScanType::Num3 => Some('#'),
        ScanType::Num4 => Some('$'),
        ScanType::Num5 => Some('%'),
        ScanType::Num6 => Some('^'),
        ScanType::Num7 => Some('&'),
        ScanType::Num8 => Some('*'),
        ScanType::Num9 => Some('('),
        _ => None,
    }
}

/// What a key gives on the US layout with shift held, letters aside. Keypad
/// digits give nothing.
pub open spec fn shifted_char_of(t: ScanType, keypad: bool) -> Option<char> {
    match t {
        ScanType::SymbolPlus => Some('+'),
        ScanType::SymbolMinus => Some('_'),
        ScanType::SymbolEquals => Some('+'),
        ScanType::SymbolOpenSquareBracket => Some('{'),
        ScanType::SymbolCloseSquareBracket => Some('}'),
        ScanType::SymbolSemicolon => Some(':'),
        ScanType::SymbolSingleQuote => Some('"'),
        ScanType::SymbolBacktick => Some('~'),
        ScanType::SymbolBackslash => Some('|'),
        ScanType::SymbolComma => Some('<'),
        ScanType::SymbolPeriod => Some('>'),
        ScanType::SymbolForwardSlash => Some('?'),
        ScanType::SymbolAsterisk => Some('*'),
        ScanType::Space => Some(' '),
        ScanType::Tab => Some('\t'),
        _ => if keypad {
            None
        } else {
            shifted_digit_of(t)
        },
    }
}

/// The US layout. A letter is upper case when exactly one of shift and caps
/// lock is on: caps lock inverts the case that shift gives, and only for
/// letters. Keys other than letters, digits, symbols, space and tab give nothing.
pub open spec fn us_char(m: KeyModifierState, k: KeyView) -> Option<char> {
    if k.scan_type.spec_is_letter() {
        letter_char_of(k.scan_type, m.spec_shift_down() != m.caps_lock)
    } else if m.spec_shift_down() {
        shifted_char_of(k.scan_type, k.keypad)
    } else {
        plain_char_of(k.scan_type)
    }
}

fn letter_char(t: ScanType, upper: bool) -> (r: Option<char>)
    ensures
        r == letter_char_of(t, upper),
{
    match t {
        ScanType::CharA => Some(if upper { 'A' } else { 'a' }),
        ScanType::CharB => Some(if upper { 'B' } else { 'b' }),
        ScanType::CharC => Some(if upper { 'C' } else { 'c' }),
        ScanType::CharD => Some(if upper { 'D' } else { 'd' }),
        ScanType::CharE => Some(if upper { 'E' } else { 'e' }),
        ScanType::CharF => Some(if upper { 'F' } else { 'f' }),
        ScanType::CharG => Some(if upper { 'G' } else { 'g' }),
        ScanType::CharH => Some(if upper { 'H' } else { 'h' }),
        ScanType::CharI => Some(if upper { 'I' } else { 'i' }),
        ScanType::CharJ => Some(if upper { 'J' } else { 'j' }),
        ScanType::CharK => Some(if upper { 'K' } else { 'k' }),
        ScanType::CharL => Some(if upper { 'L' } else { 'l' }),
        ScanType::CharM => Some(if upper { 'M' } else { 'm' }),
        ScanType::CharN => Some(if upper { 'N' } else { 'n' }),
        ScanType::CharO => Some(if upper { 'O' } else { 'o' }),
        ScanType::CharP => Some(if upper { 'P' } else { 'p' }),
        ScanType::CharQ => Some(if upper { 'Q' } else { 'q' }),
        ScanType::CharR => Some(if upper { 'R' } else { 'r' }),
        ScanType::CharS => Some(if upper { 'S' } else { 's' }),
        ScanType::CharT => Some(if upper { 'T' } else { 't' }),
        ScanType::CharU => Some(if upper { 'U' } else { 'u' }),
        ScanType::CharV => Some(if upper { 'V' } else { 'v' }),
        ScanType::CharW => Some(if upper { 'W' } else { 'w' }),
        ScanType::CharX => Some(if upper { 'X' } else { 'x' }),
        ScanType::CharY => Some(if upper { 'Y' } else { 'y' }),
        ScanType::CharZ => Some(if upper { 'Z' } else { 'z' }),
        _ => None,
    }
}

fn plain_char(t: ScanType) -> (r: Option<char>)
    ensures
        r == plain_char_of(t),
{
    match t {
        ScanType::Num0 => Some('0'),
        ScanType::Num1 => Some('1'),
        ScanType::Num2 => Some('2'),
        ScanType::Num3 => Some('3'),
        ScanType::Num4 => Some('4'),
        ScanType::Num5 => Some('5'),
        ScanType::Num6 => Some('6'),
        ScanType::Num7 => Some('7'),
        ScanType::Num8 => Some('8'),
        ScanType::Num9 => Some('9'),
        ScanType::SymbolPlus => Some('+'),
        ScanType::SymbolMinus => Some('-'),
        ScanType::SymbolEquals => Some('='),
        ScanType::SymbolOpenSquareBracket => Some('['),
        ScanType::SymbolCloseSquareBracket => Some(']'),
        ScanType::SymbolSemicolon => Some(';'),
        ScanType::SymbolSingleQuote => Some('\''),
        ScanType::SymbolBacktick => Some('`'),
        ScanType::SymbolBackslash => Some('\\'),
        ScanType::SymbolComma => Some(','),
        ScanType::SymbolPeriod => Some('.'),
        ScanType::SymbolForwardSlash => Some('/'),
        ScanType::SymbolAsterisk => Some('*'),
        ScanType::Space => Some(' '),
        ScanType::Tab => Some('\t'),
        _ => None,
    }
}

fn shifted_digit(t: ScanType) -> (r: Option<char>)
    ensures
        r == shifted_digit_of(t),
{
    match t {
        ScanType::Num0 => Some(')'),
        ScanType::Num1 => Some('!'),
        ScanType::Num2 => Some('@'),
        ScanType::Num3 => Some('#'),
        ScanType::Num4 => Some('$'),
        ScanType::Num5 => Some('%'),
        ScanType::Num6 => Some('^'),
        ScanType::Num7 => Some('&'),
        ScanType::Num8 => Some('*'),
        ScanType::Num9 => Some('('),
        _ => None,
    }
}

fn shifted_char(t: ScanType, keypad: bool) -> (r: Option<char>)
    ensures
        r == shifted_char_of(t, keypad),
{
    match t {
        ScanType::SymbolPlus => Some('+'),
        ScanType::SymbolMinus => Some('_'),
        ScanType::SymbolEquals => Some('+'),
        ScanType::SymbolOpenSquareBracket => Some('{'),
        ScanType::SymbolCloseSquareBracket => Some('}'),
        ScanType::SymbolSemicolon => Some(':'),
        ScanType::SymbolSingleQuote => Some('"'),
        ScanType::SymbolBacktick => Some('~'),
        ScanType::SymbolBackslash => Some('|'),
        ScanType::SymbolComma => Some('<'),
        ScanType::SymbolPeriod => Some('>'),
        ScanType::SymbolForwardSlash => Some('?'),
        ScanType::SymbolAsterisk => Some('*'),
        ScanType::Space => Some(' '),
        ScanType::Tab => Some('\t'),
        _ => if keypad {
            None
        } else {
            shifted_digit(t)
        },
    }
}

/// The standard United States keyboard layout.
#[derive(Debug, Clone, Copy, PartialEq, Eq, Structural)]
pub struct USStandardLayout;

impl Layout for USStandardLayout {
    open spec fn char_of(&self, modifiers: KeyModifierState, key: KeyView) -> Option<char> {
        us_char(modifiers, key)
    }

    fn key_into_char(&self, modifiers: &KeyModifierState, key: Key) -> (r: Option<char>) {
        let t = key.scan_type();
        let shift = modifiers.shift_down();
        if t.is_letter() {
            letter_char(t, shift != modifiers.caps_lock)
        } else if shift {
            shifted_char(t, key.keypad())
        } else {
            plain_char(t)
        }
    }
}

} // verus!
