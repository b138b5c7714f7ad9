//! Push-to-talk hotkey: key names, key events and the listener flag.

use vstd::prelude::*;
use std::sync::Arc;
use std::sync::atomic::AtomicBool;
use std::sync::atomic::Ordering;
use crate::text::{has_prefix, str_eq};

verus! {

/// A key that can serve as the push-to-talk hotkey. `Unknown` carries a
/// platform scan code, as the keyboard hook reports keys it has no name for.
#[derive(Clone, Copy, Debug, PartialEq, Eq, Structural)]
pub enum HotkeyKey {
    F1,
    F2,
    F3,
    F4,
    F5,
    F6,
    F7,
    F8,
    F9,
    F10,
    F11,
    F12,
    Unknown(u32),
    ControlRight,
    ControlLeft,
    AltGr,
    Alt,
    ShiftRight,
    ShiftLeft,
    CapsLock,
    Tab,
    Escape,
}

/// The key that a hotkey name denotes, if the name is known. F13 to F20 are
/// platform scan codes 91 to 98.
pub open spec fn key_named(name: Seq<char>) -> Option<HotkeyKey> {
    if name == "F1"@ {
        Some(HotkeyKey::F1)
    } else if name == "F2"@ {
        Some(HotkeyKey::F2)
    } else if name == "F3"@ {
        Some(HotkeyKey::F3)
    } else if name == "F4"@ {
        Some(HotkeyKey::F4)
    } else if name == "F5"@ {
        Some(HotkeyKey::F5)
    } else if name == "F6"@ {
        Some(HotkeyKey::F6)
    } else if name == "F7"@ {
        Some(HotkeyKey::F7)
    } else if name == "F8"@ {
        Some(HotkeyKey::F8)
    } else if name == "F9"@ {
        Some(HotkeyKey::F9)
    } else if name == "F10"@ {
        Some(HotkeyKey::F10)
    } else if name == "F11"@ {
        Some(HotkeyKey::F11)
    } else if name == "F12"@ {
        Some(HotkeyKey::F12)
    } else if name == "F13"@ {
        Some(HotkeyKey::Unknown(91))
    } else if name == "F14"@ {
        Some(HotkeyKey::Unknown(92))
    } else if name == "F15"@ {
        Some(HotkeyKey::Unknown(93))
    } else if name == "F16"@ {
        Some(HotkeyKey::Unknown(94))
    } else if name == "F17"@ {
        Some(HotkeyKey::Unknown(95))
    } else if name == "F18"@ {
        Some(HotkeyKey::Unknown(96))
    } else if name == "F19"@ {
        Some(HotkeyKey::Unknown(97))
    } else if name == "F20"@ {
        Some(HotkeyKey::Unknown(98))
    } else if name == "RightCtrl"@ {
        Some(HotkeyKey::ControlRight)
    } else if name == "ControlRight"@ {
        Some(HotkeyKey::ControlRight)
    } else if name == "LeftCtrl"@ {
        Some(HotkeyKey::ControlLeft)
    } else if name == "ControlLeft"@ {
        Some(HotkeyKey::ControlLeft)
    } else if name == "RightAlt"@ {
        Some(HotkeyKey::AltGr)
    } else if name == "AltGr"@ {
        Some(HotkeyKey::AltGr)
    } else if name == "LeftAlt"@ {
        Some(HotkeyKey::Alt)
    } else if name == "Alt"@ {
        Some(HotkeyKey::Alt)
    } else if name == "RightShift"@ {
        Some(HotkeyKey::ShiftRight)
    } else if name == "ShiftRight"@ {
        Some(HotkeyKey::ShiftRight)
    } else if name == "LeftShift"@ {
        Some(HotkeyKey::ShiftLeft)
    } else if name == "ShiftLeft"@ {
        Some(HotkeyKey::ShiftLeft)
    } else if name == "CapsLock"@ {
        Some(HotkeyKey::CapsLock)
    } else if name == "Tab"@ {
        Some(HotkeyKey::Tab)
    } else if name == "Escape"@ {
        Some(HotkeyKey::Escape)
    } else {
        None
    }
}

/// `s` ends with `suffix`.
pub open spec fn has_suffix(s: Seq<char>, suffix: Seq<char>) -> bool {
    suffix.len() <= s.len() && s.subrange(s.len() - suffix.len(), s.len() as int) == suffix
}

/// The left-hand Control, Alt and Shift keys.
pub open spec fn is_left_modifier(k: HotkeyKey) -> bool {
    k == HotkeyKey::ControlLeft || k == HotkeyKey::Alt || k == HotkeyKey::ShiftLeft
}

/// The right-hand Control, Alt and Shift keys.
pub open spec fn is_right_modifier(k: HotkeyKey) -> bool {
    k == HotkeyKey::ControlRight || k == HotkeyKey::AltGr || k == HotkeyKey::ShiftRight
}

/// A name that says `Left` (as prefix or suffix) denotes a left-hand key and
/// one that says `Right` a right-hand key; the short and long names of a key
/// (`LeftAlt` and `Alt`, `RightAlt` and `AltGr`, `RightCtrl` and
/// `ControlRight`, ...) denote the same key; F13 to F20 are scan codes that
/// count up by one from 91.
pub proof fn lemma_key_sides(name: Seq<char>)
    ensures
        key_named(name) is Some && (has_prefix(name, "Left"@) || has_suffix(name, "Left"@))
            ==> is_left_modifier(key_named(name)->0),
        key_named(name) is Some && (has_prefix(name, "Right"@) || has_suffix(name, "Right"@))
            ==> is_right_modifier(key_named(name)->0),
        key_named("LeftAlt"@) == key_named("Alt"@),
        key_named("RightAlt"@) == key_named("AltGr"@),
        key_named("LeftCtrl"@) == key_named("ControlLeft"@),
        key_named("RightCtrl"@) == key_named("ControlRight"@),
        key_named("LeftShift"@) == key_named("ShiftLeft"@),
        key_named("RightShift"@) == key_named("ShiftRight"@),
        key_named("Alt"@) is Some && is_left_modifier(key_named("Alt"@)->0),
        key_named("AltGr"@) is Some && is_right_modifier(key_named("AltGr"@)->0),
        key_named("F13"@) == Some(HotkeyKey::Unknown(91)),
        key_named("F14"@) == (match key_named("F13"@) {
            Some(HotkeyKey::Unknown(c)) => Some(HotkeyKey::Unknown((c + 1) as u32)),
            _ => None,
        }),
        key_named("F15"@) == (match key_named("F14"@) {
            Some(HotkeyKey::Unknown(c)) => Some(HotkeyKey::Unknown((c + 1) as u32)),
            _ => None,
        }),
        key_named("F16"@) == (match key_named("F15"@) {
            Some(HotkeyKey::Unknown(c)) => Some(HotkeyKey::Unknown((c + 1) as u32)),
            _ => None,
        }),
        key_named("F17"@) == (match key_named("F16"@) {
            Some(HotkeyKey::Unknown(c)) => Some(HotkeyKey::Unknown((c + 1) as u32)),
            _ => None,
        }),
        key_named("F18"@) == (match key_named("F17"@) {
            Some(HotkeyKey::Unknown(c)) => Some(HotkeyKey::Unknown((c + 1) as u32)),
            _ => None,
        }),
        key_named("F19"@) == (match key_named("F18"@) {
            Some(HotkeyKey::Unknown(c)) => Some(HotkeyKey::Unknown((c + 1) as u32)),
            _ => None,
        }),
        key_named("F20"@) == (match key_named("F19"@) {
            Some(HotkeyKey::Unknown(c)) => Some(HotkeyKey::Unknown((c + 1) as u32)),
            _ => None,
        }),
{
    reveal_strlit("Alt");
    reveal_strlit("AltGr");
    reveal_strlit("CapsLock");
    reveal_strlit("ControlLeft");
    reveal_strlit("ControlRight");
    reveal_strlit("Escape");
    reveal_strlit("F1");
    reveal_strlit("F10");
    reveal_strlit("F11");
    reveal_strlit("F12");
    reveal_strlit("F13");
    reveal_strlit("F14");
    reveal_strlit("F15");
    reveal_strlit("F16");
    reveal_strlit("F17");
    reveal_strlit("F18");
    reveal_strlit("F19");
    reveal_strlit("F2");
    reveal_strlit("F20");
    reveal_strlit("F3");
    reveal_strlit("F4");
    reveal_strlit("F5");
    reveal_strlit("F6");
    reveal_strlit("F7");
    reveal_strlit("F8");
    reveal_strlit("F9");
    reveal_strlit("LeftAlt");
    reveal_strlit("LeftCtrl");
    reveal_strlit("LeftShift");
    reveal_strlit("RightAlt");
    reveal_strlit("RightCtrl");
    reveal_strlit("RightShift");
    reveal_strlit("ShiftLeft");
    reveal_strlit("ShiftRight");
    reveal_strlit("Tab");
    reveal_strlit("Left");
    reveal_strlit("Right");
    assert("Alt"@[0] == 'A');
    assert("Alt"@[1] == 'l');
    assert("Alt"@[2] == 't');
    assert("AltGr"@[0] == 'A');
    assert("AltGr"@[1] == 'l');
    assert("AltGr"@[2] == 't');
    assert("AltGr"@[3] == 'G');
    assert("AltGr"@[4] == 'r');
    assert("CapsLock"@[0] == 'C');
    assert("CapsLock"@[1] == 'a');
    assert("CapsLock"@[2] == 'p');
    assert("CapsLock"@[3] == 's');
    assert("CapsLock"@[4] == 'L');
    assert("CapsLock"@[5] == 'o');
    assert("CapsLock"@[6] == 'c');
    assert("CapsLock"@[7] == 'k');
    assert("ControlLeft"@[0] == 'C');
    assert("ControlLeft"@[1] == 'o');
    assert("ControlLeft"@[2] == 'n');
    assert("ControlLeft"@[3] == 't');
    assert("ControlLeft"@[4] == 'r');
    assert("ControlLeft"@[5] == 'o');
    assert("ControlLeft"@[6] == 'l');
    assert("ControlLeft"@[7] == 'L');
    assert("ControlLeft"@[8] == 'e');
    assert("ControlLeft"@[9] == 'f');
    assert("ControlLeft"@[10] == 't');
    assert("ControlRight"@[0] == 'C');
    assert("ControlRight"@[1] == 'o');
    assert("ControlRight"@[2] == 'n');
    assert("ControlRight"@[3] == 't');
    assert("ControlRight"@[4] == 'r');
    assert("ControlRight"@[5] == 'o');
    assert("ControlRight"@[6] == 'l');
    assert("ControlRight"@[7] == 'R');
    assert("ControlRight"@[8] == 'i');
    assert("ControlRight"@[9] == 'g');
    assert("ControlRight"@[10] == 'h');
    assert("ControlRight"@[11] == 't');
    assert("Escape"@[0] == 'E');
    assert("Escape"@[1] == 's');
    assert("Escape"@[2] == 'c');
    assert("Escape"@[3] == 'a');
    assert("Escape"@[4] == 'p');
    assert("Escape"@[5] == 'e');
    assert("F1"@[0] == 'F');
    assert("F1"@[1] == '1');
    assert("F10"@[0] == 'F');
    assert("F10"@[1] == '1');
    assert("F10"@[2] == '0');
    assert("F11"@[0] == 'F');
    assert("F11"@[1] == '1');
    assert("F11"@[2] == '1');
    assert("F12"@[0] == 'F');
    assert("F12"@[1] == '1');
    assert("F12"@[2] == '2');
    assert("F13"@[0] == 'F');
    assert("F13"@[1] == '1');
    assert("F13"@[2] == '3');
    assert("F14"@[0] == 'F');
    assert("F14"@[1] == '1');
    assert("F14"@[2] == '4');
    assert("F15"@[0] == 'F');
    assert("F15"@[1] == '1');
    assert("F15"@[2] == '5');
    assert("F16"@[0] == 'F');
    assert("F16"@[1] == '1');
    assert("F16"@[2] == '6');
    assert("F17"@[0] == 'F');
    assert("F17"@[1] == '1');
    assert("F17"@[2] == '7');
    assert("F18"@[0] == 'F');
    assert("F18"@[1] == '1');
    assert("F18"@[2] == '8');
    assert("F19"@[0] == 'F');
    assert("F19"@[1] == '1');
    assert("F19"@[2] == '9');
    assert("F2"@[0] == 'F');
    assert("F2"@[1] == '2');
    assert("F20"@[0] == 'F');
    assert("F20"@[1] == '2');
    assert("F20"@[2] == '0');
    assert("F3"@[0] == 'F');
    assert("F3"@[1] == '3');
    assert("F4"@[0] == 'F');
    assert("F4"@[1] == '4');
    assert("F5"@[0] == 'F');
    assert("F5"@[1] == '5');
    assert("F6"@[0] == 'F');
    assert("F6"@[1] == '6');
    assert("F7"@[0] == 'F');
    assert("F7"@[1] == '7');
    assert("F8"@[0] == 'F');
    assert("F8"@[1] == '8');
    assert("F9"@[0] == 'F');
    assert("F9"@[1] == '9');
    assert("LeftAlt"@[0] == 'L');
    assert("LeftAlt"@[1] == 'e');
    assert("LeftAlt"@[2] == 'f');
    assert("LeftAlt"@[3] == 't');
    assert("LeftAlt"@[4] == 'A');
    assert("LeftAlt"@[5] == 'l');
    assert("LeftAlt"@[6] == 't');
    assert("LeftCtrl"@[0] == 'L');
    assert("LeftCtrl"@[1] == 'e');
    assert("LeftCtrl"@[2] == 'f');
    assert("LeftCtrl"@[3] == 't');
    assert("LeftCtrl"@[4] == 'C');
    assert("LeftCtrl"@[5] == 't');
    assert("LeftCtrl"@[6] == 'r');
    assert("LeftCtrl"@[7] == 'l');
    assert("LeftShift"@[0] == 'L');
    assert("LeftShift"@[1] == 'e');
    assert("LeftShift"@[2] == 'f');
    assert("LeftShift"@[3] == 't');
    assert("LeftShift"@[4] == 'S');
    assert("LeftShift"@[5] == 'h');
    assert("LeftShift"@[6] == 'i');
    assert("LeftShift"@[7] == 'f');
    assert("LeftShift"@[8] == 't');
    assert("RightAlt"@[0] == 'R');
    assert("RightAlt"@[1] == 'i');
    assert("RightAlt"@[2] == 'g');
    assert("RightAlt"@[3] == 'h');
    assert("RightAlt"@[4] == 't');
    assert("RightAlt"@[5] == 'A');
    assert("RightAlt"@[6] == 'l');
    assert("RightAlt"@[7] == 't');
    assert("RightCtrl"@[0] == 'R');
    assert("RightCtrl"@[1] == 'i');
    assert("RightCtrl"@[2] == 'g');
    assert("RightCtrl"@[3] == 'h');
    assert("RightCtrl"@[4] == 't');
    assert("RightCtrl"@[5] == 'C');
    assert("RightCtrl"@[6] == 't');
    assert("RightCtrl"@[7] == 'r');
    assert("RightCtrl"@[8] == 'l');
    assert("RightShift"@[0] == 'R');
    assert("RightShift"@[1] == 'i');
    assert("RightShift"@[2] == 'g');
    assert("RightShift"@[3] == 'h');
    assert("RightShift"@[4] == 't');
    assert("RightShift"@[5] == 'S');
    assert("RightShift"@[6] == 'h');
    assert("RightShift"@[7] == 'i');
    assert("RightShift"@[8] == 'f');
    assert("RightShift"@[9] == 't');
    assert("ShiftLeft"@[0] == 'S');
    assert("ShiftLeft"@[1] == 'h');
    assert("ShiftLeft"@[2] == 'i');
    assert("ShiftLeft"@[3] == 'f');
    assert("ShiftLeft"@[4] == 't');
    assert("ShiftLeft"@[5] == 'L');
    assert("ShiftLeft"@[6] == 'e');
    assert("ShiftLeft"@[7] == 'f');
    assert("ShiftLeft"@[8] == 't');
    assert("ShiftRight"@[0] == 'S');
    assert("ShiftRight"@[1] == 'h');
    assert("ShiftRight"@[2] == 'i');
    assert("ShiftRight"@[3] == 'f');
    assert("ShiftRight"@[4] == 't');
    assert("ShiftRight"@[5] == 'R');
    assert("ShiftRight"@[6] == 'i');
    assert("ShiftRight"@[7] == 'g');
    assert("ShiftRight"@[8] == 'h');
    assert("ShiftRight"@[9] == 't');
    assert("Tab"@[0] == 'T');
    assert("Tab"@[1] == 'a');
    assert("Tab"@[2] == 'b');
    assert("Left"@[0] == 'L');
    assert("Left"@[1] == 'e');
    assert("Left"@[2] == 'f');
    assert("Left"@[3] == 't');
    assert("Right"@[0] == 'R');
    assert("Right"@[1] == 'i');
    assert("Right"@[2] == 'g');
    assert("Right"@[3] == 'h');
    assert("Right"@[4] == 't');
    assert("Alt"@.len() == 3);
    assert("AltGr"@.len() == 5);
    assert("CapsLock"@.len() == 8);
    assert("ControlLeft"@.len() == 11);
    assert("ControlRight"@.len() == 12);
    assert("Escape"@.len() == 6);
    assert("F1"@.len() == 2);
    assert("F10"@.len() == 3);
    assert("F11"@.len() == 3);
    assert("F12"@.len() == 3);
    assert("F13"@.len() == 3);
    assert("F14"@.len() == 3);
    assert("F15"@.len() == 3);
    assert("F16"@.len() == 3);
    assert("F17"@.len() == 3);
    assert("F18"@.len() == 3);
    assert("F19"@.len() == 3);
    assert("F2"@.len() == 2);
    assert("F20"@.len() == 3);
    assert("F3"@.len() == 2);
    assert("F4"@.len() == 2);
    assert("F5"@.len() == 2);
    assert("F6"@.len() == 2);
    assert("F7"@.len() == 2);
    assert("F8"@.len() == 2);
    assert("F9"@.len() == 2);
    assert("LeftAlt"@.len() == 7);
    assert("LeftCtrl"@.len() == 8);
    assert("LeftShift"@.len() == 9);
    assert("RightAlt"@.len() == 8);
    assert("RightCtrl"@.len() == 9);
    assert("RightShift"@.len() == 10);
    assert("ShiftLeft"@.len() == 9);
    assert("ShiftRight"@.len() == 10);
    assert("Tab"@.len() == 3);
    assert("Left"@.len() == 4);
    assert("Right"@.len() == 5);
    if key_named(name) is Some {
        if has_prefix(name, "Left"@) || has_suffix(name, "Left"@) || has_prefix(name, "Right"@)
            || has_suffix(name, "Right"@) {
            assert(name.len() >= 4);
        }
    }
}

/// Parse a hotkey string into a key.
pub fn parse_key(hotkey_str: &str) -> (k: Option<HotkeyKey>)
    ensures
        k == key_named(hotkey_str@),
{
    if str_eq(hotkey_str, "F1") {
        return Some(HotkeyKey::F1);
    }
    if str_eq(hotkey_str, "F2") {
        return Some(HotkeyKey::F2);
    }
    if str_eq(hotkey_str, "F3") {
        return Some(HotkeyKey::F3);
    }
    if str_eq(hotkey_str, "F4") {
        return Some(HotkeyKey::F4);
    }
    if str_eq(hotkey_str, "F5") {
        return Some(HotkeyKey::F5);
    }
    if str_eq(hotkey_str, "F6") {
        return Some(HotkeyKey::F6);
    }
    if str_eq(hotkey_str, "F7") {
        return Some(HotkeyKey::F7);
    }
    if str_eq(hotkey_str, "F8") {
        return Some(HotkeyKey::F8);
    }
    if str_eq(hotkey_str, "F9") {
        return Some(HotkeyKey::F9);
    }
    if str_eq(hotkey_str, "F10") {
        return Some(HotkeyKey::F10);
    }
    if str_eq(hotkey_str, "F11") {
        return Some(HotkeyKey::F11);
    }
    if str_eq(hotkey_str, "F12") {
        return Some(HotkeyKey::F12);
    }
    if str_eq(hotkey_str, "F13") {
        return Some(HotkeyKey::Unknown(91));
    }
    if str_eq(hotkey_str, "F14") {
        return Some(HotkeyKey::Unknown(92));
    }
    if str_eq(hotkey_str, "F15") {
        return Some(HotkeyKey::Unknown(93));
    }
    if str_eq(hotkey_str, "F16") {
        return Some(HotkeyKey::Unknown(94));
    }
    if str_eq(hotkey_str, "F17") {
        return Some(HotkeyKey::Unknown(95));
    }
    if str_eq(hotkey_str, "F18") {
        return Some(HotkeyKey::Unknown(96));
    }
    if str_eq(hotkey_str, "F19") {
        return Some(HotkeyKey::Unknown(97));
    }
    if str_eq(hotkey_str, "F20") {
        return Some(HotkeyKey::Unknown(98));
    }
    if str_eq(hotkey_str, "RightCtrl") {
        return Some(HotkeyKey::ControlRight);
    }
    if str_eq(hotkey_str, "ControlRight") {
        return Some(HotkeyKey::ControlRight);
    }
    if str_eq(hotkey_str, "LeftCtrl") {
        return Some(HotkeyKey::ControlLeft);
    }
    if str_eq(hotkey_str, "ControlLeft") {
        return Some(HotkeyKey::ControlLeft);
    }
    if str_eq(hotkey_str, "RightAlt") {
        return Some(HotkeyKey::AltGr);
    }
    if str_eq(hotkey_str, "AltGr") {
        return Some(HotkeyKey::AltGr);
    }
    if str_eq(hotkey_str, "LeftAlt") {
        return Some(HotkeyKey::Alt);
    }
    if str_eq(hotkey_str, "Alt") {
        return Some(HotkeyKey::Alt);
    }
    if str_eq(hotkey_str, "RightShift") {
        return Some(HotkeyKey::ShiftRight);
    }
    if str_eq(hotkey_str, "ShiftRight") {
        return Some(HotkeyKey::ShiftRight);
    }
    if str_eq(hotkey_str, "LeftShift") {
        return Some(HotkeyKey::ShiftLeft);
    }
    if str_eq(hotkey_str, "ShiftLeft") {
        return Some(HotkeyKey::ShiftLeft);
    }
    if str_eq(hotkey_str, "CapsLock") {
        return Some(HotkeyKey::CapsLock);
    }
    if str_eq(hotkey_str, "Tab") {
        return Some(HotkeyKey::Tab);
    }
    if str_eq(hotkey_str, "Escape") {
        return Some(HotkeyKey::Escape);
    }
    None
}

/// A keyboard event as the hook reports it; keys that cannot be a hotkey
/// come as `Other`.
#[derive(Clone, Copy, Debug, PartialEq, Eq, Structural)]
pub enum KeyEvent {
    Press(HotkeyKey),
    Release(HotkeyKey),
    Other,
}

/// What the listener announces.
#[derive(Clone, Copy, Debug, PartialEq, Eq, Structural)]
pub enum HotkeySignal {
    Pressed,
    Released,
}

/// The signal that `event` raises for the hotkey `target`.
pub open spec fn spec_signal(target: HotkeyKey, event: KeyEvent) -> Option<HotkeySignal> {
    match event {
        KeyEvent::Press(k) => if k == target {
            Some(HotkeySignal::Pressed)
        } else {
            None
        },
        KeyEvent::Release(k) => if k == target {
            Some(HotkeySignal::Released)
        } else {
            None
        },
        KeyEvent::Other => None,
    }
}

/// The signal, if any, that `event` raises for the hotkey `target`.
pub fn signal_for(target: HotkeyKey, event: KeyEvent) -> (s: Option<HotkeySignal>)
    ensures
        s == spec_signal(target, event),
{
    match event {
        KeyEvent::Press(k) => if k == target {
            Some(HotkeySignal::Pressed)
        } else {
            None
        },
        KeyEvent::Release(k) => if k == target {
            Some(HotkeySignal::Released)
        } else {
            None
        },
        KeyEvent::Other => None,
    }
}

impl HotkeySignal {
    /// The name of the application event that announces this signal.
    pub fn event_name(&self) -> (n: &'static str)
        ensures
            n@ == (match *self {
                HotkeySignal::Pressed => "hotkey_pressed"@,
                HotkeySignal::Released => "hotkey_released"@,
            }),
    {
        match self {
            HotkeySignal::Pressed => "hotkey_pressed",
            HotkeySignal::Released => "hotkey_released",
        }
    }
}

/// Calls `Arc::clone`, which gives a second handle to the same flag.
#[verifier::external_body]
fn share_flag(flag: &Arc<AtomicBool>) -> (r: Arc<AtomicBool>)
    ensures
        r == *flag,
{
    Arc::clone(flag)
}

/// Owns the flag that says whether a hotkey listener runs. The flag is
/// shared with the listener thread, which clears it when it stops, so its
/// value at any moment is not a function of the calls made here.
pub struct GlobalHotkeyManager {
    listening: Arc<AtomicBool>,
}

impl GlobalHotkeyManager {
    /// The shared listening flag.
    pub closed spec fn flag(&self) -> Arc<AtomicBool> {
        self.listening
    }

    /// A manager with no listener running.
    pub fn new() -> (m: GlobalHotkeyManager) {
        GlobalHotkeyManager { listening: Arc::new(AtomicBool::new(false)) }
    }

    /// Marks a listener as running; true when none was running before, so
    /// the caller is to start one.
    pub fn try_begin_listening(&self) -> (start: bool) {
        !self.listening.swap(true, Ordering::SeqCst)
    }

    /// A handle to the listening flag, for the listener thread.
    pub fn listening_flag(&self) -> (f: Arc<AtomicBool>)
        ensures
            f == self.flag(),
    {
        share_flag(&self.listening)
    }

    /// Marks the listener as stopped.
    pub fn stop_listening(&self) {
        self.listening.store(false, Ordering::SeqCst);
    }
}

impl Default for GlobalHotkeyManager {
    fn default() -> (m: Self) {
        GlobalHotkeyManager::new()
    }
}

} // verus!
