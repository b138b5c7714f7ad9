//! Pasting text into the focused application: the clipboard is loaded with
//! the text, the paste shortcut is typed, and the clipboard is put back.

use vstd::prelude::*;
use crate::config::Platform;

verus! {

/// Pause after loading the clipboard, before the shortcut, in milliseconds.
pub const CLIPBOARD_SETTLE_MS: u64 = 50;

/// Pause between the keystrokes of the shortcut, in milliseconds.
pub const KEYSTROKE_GAP_MS: u64 = 20;

/// Pause before the previous clipboard content is put back, in milliseconds.
pub const CLIPBOARD_RESTORE_MS: u64 = 400;

/// The keys of the paste shortcut.
#[derive(Clone, Copy, Debug, PartialEq, Eq, Structural)]
pub enum PasteKey {
    MetaLeft,
    ControlLeft,
    KeyV,
}

/// A key going down (`press`) or up.
#[derive(Clone, Copy, Debug, PartialEq, Eq, Structural)]
pub struct KeyStroke {
    pub key: PasteKey,
    pub press: bool,
}

/// The modifier of the paste shortcut: Command on macOS, Control elsewhere.
pub open spec fn paste_modifier(platform: Platform) -> PasteKey {
    match platform {
        Platform::MacOs => PasteKey::MetaLeft,
        Platform::Other => PasteKey::ControlLeft,
    }
}

/// Modifier down, V down, V up, modifier up.
pub open spec fn paste_sequence(platform: Platform) -> Seq<KeyStroke> {
    let m = paste_modifier(platform);
    seq![
        KeyStroke { key: m, press: true },
        KeyStroke { key: PasteKey::KeyV, press: true },
        KeyStroke { key: PasteKey::KeyV, press: false },
        KeyStroke { key: m, press: false },
    ]
}

/// On every platform the shortcut holds one modifier down (Command on macOS,
/// Control elsewhere) while V is pressed and released, and lets it go last.
pub proof fn lemma_paste_types_v(platform: Platform)
    ensures
        paste_sequence(platform).len() == 4,
        paste_sequence(platform)[1] == (KeyStroke { key: PasteKey::KeyV, press: true }),
        paste_sequence(platform)[2] == (KeyStroke { key: PasteKey::KeyV, press: false }),
        paste_sequence(platform)[0].press,
        !paste_sequence(platform)[3].press,
        paste_sequence(platform)[0].key == paste_sequence(platform)[3].key,
        platform == Platform::MacOs ==> paste_sequence(platform)[0].key == PasteKey::MetaLeft,
        platform == Platform::Other ==> paste_sequence(platform)[0].key == PasteKey::ControlLeft,
{
}

/// Pastes text through the clipboard and a simulated paste shortcut.
pub struct TextInjector;

impl TextInjector {
    pub fn new() -> (t: TextInjector) {
        TextInjector
    }

    /// The keystrokes that type the paste shortcut on `platform`.
    pub fn paste_keystrokes(&self, platform: Platform) -> (v: Vec<KeyStroke>)
        ensures
            v@ == paste_sequence(platform),
    {
        let m = match platform {
            Platform::MacOs => PasteKey::MetaLeft,
            Platform::Other => PasteKey::ControlLeft,
        };
        let mut v: Vec<KeyStroke> = Vec::new();
        v.push(KeyStroke { key: m, press: true });
        v.push(KeyStroke { key: PasteKey::KeyV, press: true });
        v.push(KeyStroke { key: PasteKey::KeyV, press: false });
        v.push(KeyStroke { key: m, press: false });
        assert(v@ =~= paste_sequence(platform));
        v
    }

    /// What the clipboard holds again after the paste: its previous text, or
    /// nothing when it held no text.
    pub fn restored_clipboard(&self, previous: Option<String>) -> (s: String)
        ensures
            match previous {
                Some(p) => s@ == p@,
                None => s@ == Seq::<char>::empty(),
            },
    {
        match previous {
            Some(p) => p,
            None => String::new(),
        }
    }
}

impl Default for TextInjector {
    fn default() -> (t: Self) {
        TextInjector::new()
    }
}

} // verus!
