//! Decoding of PS/2 scan-code set 1 byte streams into key events, with
//! tracking of the modifier and lock keys.
pub mod keyboard;
pub mod layout;
pub mod reader;
pub mod scan_code_set;

pub use keyboard::Keyboard;
pub use layout::{KeyModifierState, Layout, USStandardLayout};
pub use reader::{Reader, ReaderMode};
pub use scan_code_set::{Key, KeyState, KeyView, ScanType};
