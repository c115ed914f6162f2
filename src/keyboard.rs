use vstd::prelude::*;

use crate::layout::{letter_char_of, us_char, KeyModifierState, Layout};
use crate::reader::{decode_step, opt_view, outcome_view, Reader, ReaderMode};
use crate::scan_code_set::{key_view, Key, KeyState, KeyView, ScanType};

verus! {

/// The modifiers after `k`: Shift, Ctrl, Alt and GUI take the key's state;
/// Caps, Num and Scroll Lock flip when their key is pressed and stay as they
/// are when it is released; other keys change nothing.
pub open spec fn apply_key(m: KeyModifierState, k: KeyView) -> KeyModifierState {
    let p = k.is_pressed();
    match k.scan_type {
        ScanType::LeftGUI => KeyModifierState { left_gui: p, ..m },
        ScanType::RightGUI => KeyModifierState { right_gui: p, ..m },
        ScanType::LeftAlt => KeyModifierState { left_alt: p, ..m },
        ScanType::RightAlt => KeyModifierState { right_alt: p, ..m },
        ScanType::LeftShift => KeyModifierState { left_shift: p, ..m },
        ScanType::RightShift => KeyModifierState { right_shift: p, ..m },
        ScanType::LeftCtrl => KeyModifierState { left_ctrl: p, ..m },
        ScanType::RightCtrl => KeyModifierState { right_ctrl: p, ..m },
        ScanType::NumLock => KeyModifierState { num_lock: m.num_lock != p, ..m },
        ScanType::CapsLock => KeyModifierState { caps_lock: m.caps_lock != p, ..m },
        ScanType::ScrollLock => KeyModifierState { scroll_lock: m.scroll_lock != p, ..m },
        _ => m,
    }
}

/// The modifiers after a decoding step that reported `out`.
pub open spec fn modifiers_after(m: KeyModifierState, out: Result<Option<KeyView>, Seq<char>>) -> KeyModifierState {
    match out {
        Ok(Some(k)) => apply_key(m, k),
        _ => m,
    }
}

/// A keyboard session: decodes bytes, keeps the modifier state, and turns
/// keys into characters through a layout.
pub struct Keyboard<T> where T: Layout {
    reader: Reader,
    modifiers: KeyModifierState,
    layout: T,
}

impl<T: Layout> Keyboard<T> {
    pub closed spec fn history(&self) -> Seq<u8> {
        self.reader.history()
    }

    pub closed spec fn mode(&self) -> ReaderMode {
        self.reader.mode()
    }

    pub closed spec fn modifiers(&self) -> KeyModifierState {
        self.modifiers
    }

    pub closed spec fn layout(&self) -> T {
        self.layout
    }

    /// The session after a byte: the state that follows `old` when `byte` is
    /// decoded, with the modifiers updated by the key it completes.
    pub open spec fn steps_to(&self, old: &Self, byte: u8) -> bool {
        let (h, out) = decode_step(old.history(), byte);
        &&& self.history() == h
        &&& self.modifiers() == modifiers_after(old.modifiers(), out)
        &&& self.mode() == old.mode()
        &&& self.layout() == old.layout()
    }

    pub fn new(mode: ReaderMode, layout: T) -> (r: Self)
        ensures
            r.history() == Seq::<u8>::empty(),
            r.mode() == mode,
            r.modifiers() == crate::layout::released_modifiers(),
            r.layout() == layout,
    {
        Self { reader: Reader::new(mode), modifiers: KeyModifierState::new(), layout }
    }

    /// A copy of the modifier state.
    pub fn current_state(&self) -> (r: KeyModifierState)
        ensures
            r == self.modifiers(),
    {
        self.modifiers
    }

    /// Decodes `byte` and gives the character of the key it completes, if the
    /// layout has one; a decoding error gives `None` too.
    pub fn input_byte(&mut self, byte: u8) -> (r: Option<char>)
        ensures
            final(self).steps_to(old(self), byte),
            r == match decode_step(old(self).history(), byte).1 {
                Ok(Some(k)) => old(self).layout().char_of(final(self).modifiers(), k),
                _ => None,
            },
    {
        match self.raw_input_byte(byte) {
            Some(k) => self.layout.key_into_char(&self.modifiers, k),
            None => None,
        }
    }

    /// Decodes `byte`; a decoding error gives `None`.
    pub fn raw_input_byte(&mut self, byte: u8) -> (r: Option<Key>)
        ensures
            final(self).steps_to(old(self), byte),
            opt_view(r) == match decode_step(old(self).history(), byte).1 {
                Ok(k) => k,
                Err(_) => None,
            },
    {
        match self.try_raw_input_byte(byte) {
            Ok(v) => v,
            Err(_) => None,
        }
    }

    /// Decodes `byte` as `Reader::input_scan_code` does, and updates the
    /// modifiers with the key that it completes.
    pub fn try_raw_input_byte(&mut self, byte: u8) -> (r: Result<Option<Key>, &str>)
        ensures
            final(self).steps_to(old(self), byte),
            outcome_view(r) == decode_step(old(self).history(), byte).1,
    {
        let res = self.reader.input_scan_code(byte);
        match res {
            Ok(Some(k)) => {
                self.check_apply_modifiers(&k);
                Ok(Some(k))
            },
            _ => res,
        }
    }

    fn check_apply_modifiers(&mut self, key: &Key)
        ensures
            final(self).modifiers() == apply_key(old(self).modifiers(), key@),
            final(self).reader == old(self).reader,
            final(self).layout == old(self).layout,
    {
        let pressed = key.is_pressed();
        let mut m = self.modifiers;
        match key.scan_type() {
            ScanType::LeftGUI => m.left_gui = pressed,
            ScanType::RightGUI => m.right_gui = pressed,
            ScanType::LeftAlt => m.left_alt = pressed,
            ScanType::RightAlt => m.right_alt = pressed,
            ScanType::LeftShift => m.left_shift = pressed,
            ScanType::RightShift => m.right_shift = pressed,
            ScanType::LeftCtrl => m.left_ctrl = pressed,
            ScanType::RightCtrl => m.right_ctrl = pressed,
            // The locks toggle on press only.
            ScanType::NumLock => {
                if pressed {
                    m.num_lock = !m.num_lock;
                }
            },
            ScanType::CapsLock => {
                if pressed {
                    m.caps_lock = !m.caps_lock;
                }
            },
            ScanType::ScrollLock => {
                if pressed {
                    m.scroll_lock = !m.scroll_lock;
                }
            },
            _ => {},
        }
        self.modifiers = m;
    }
}

/// Caps Lock flips on press only. Starting with no shift held and caps lock
/// off, a letter typed after a caps lock press is upper case; after the
/// release that follows it is still upper case; after a second press and
/// release it is lower case again. The bytes 0x3A and 0xBA are that press
/// and release.
pub proof fn lemma_caps_lock_toggles_on_press(m: KeyModifierState, letter: KeyView)
    requires
        !m.caps_lock,
        !m.spec_shift_down(),
        letter.scan_type.spec_is_letter(),
    ensures
        decode_step(Seq::<u8>::empty(), 0x3a) == (Seq::<u8>::empty(), Ok::<Option<KeyView>, Seq<char>>(Some(key_view(ScanType::CapsLock, KeyState::Pressed)))),
        decode_step(Seq::<u8>::empty(), 0xba) == (Seq::<u8>::empty(), Ok::<Option<KeyView>, Seq<char>>(Some(key_view(ScanType::CapsLock, KeyState::Released)))),
        ({
            let down = key_view(ScanType::CapsLock, KeyState::Pressed);
            let up = key_view(ScanType::CapsLock, KeyState::Released);
            let m1 = apply_key(apply_key(m, down), letter);
            let m2 = apply_key(apply_key(m1, up), letter);
            let m3 = apply_key(apply_key(apply_key(m2, down), up), letter);
            &&& us_char(m1, letter) == letter_char_of(letter.scan_type, true)
            &&& us_char(m2, letter) == letter_char_of(letter.scan_type, true)
            &&& us_char(m3, letter) == letter_char_of(letter.scan_type, false)
        }),
{
}

} // verus!
