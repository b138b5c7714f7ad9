use typeless::hotkey::{parse_key, signal_for, GlobalHotkeyManager, HotkeyKey, HotkeySignal, KeyEvent};

#[test]
fn parse_known_names() {
    assert_eq!(parse_key("F1"), Some(HotkeyKey::F1));
    assert_eq!(parse_key("F12"), Some(HotkeyKey::F12));
    assert_eq!(parse_key("F13"), Some(HotkeyKey::Unknown(91)));
    assert_eq!(parse_key("F20"), Some(HotkeyKey::Unknown(98)));
    assert_eq!(parse_key("RightCtrl"), Some(HotkeyKey::ControlRight));
    assert_eq!(parse_key("ControlRight"), Some(HotkeyKey::ControlRight));
    assert_eq!(parse_key("LeftCtrl"), Some(HotkeyKey::ControlLeft));
    assert_eq!(parse_key("AltGr"), Some(HotkeyKey::AltGr));
    assert_eq!(parse_key("RightAlt"), Some(HotkeyKey::AltGr));
    assert_eq!(parse_key("Alt"), Some(HotkeyKey::Alt));
    assert_eq!(parse_key("LeftShift"), Some(HotkeyKey::ShiftLeft));
    assert_eq!(parse_key("ShiftRight"), Some(HotkeyKey::ShiftRight));
    assert_eq!(parse_key("CapsLock"), Some(HotkeyKey::CapsLock));
    assert_eq!(parse_key("Tab"), Some(HotkeyKey::Tab));
    assert_eq!(parse_key("Escape"), Some(HotkeyKey::Escape));
}

#[test]
fn parse_unknown_names() {
    assert_eq!(parse_key("f1"), None);
    assert_eq!(parse_key("F21"), None);
    assert_eq!(parse_key(""), None);
    assert_eq!(parse_key("Space"), None);
}

#[test]
fn signals_only_for_target() {
    let t = HotkeyKey::Unknown(91);
    assert_eq!(signal_for(t, KeyEvent::Press(HotkeyKey::Unknown(91))), Some(HotkeySignal::Pressed));
    assert_eq!(signal_for(t, KeyEvent::Release(HotkeyKey::Unknown(91))), Some(HotkeySignal::Released));
    assert_eq!(signal_for(t, KeyEvent::Press(HotkeyKey::Unknown(92))), None);
    assert_eq!(signal_for(t, KeyEvent::Release(HotkeyKey::F1)), None);
    assert_eq!(signal_for(t, KeyEvent::Other), None);
    assert_eq!(HotkeySignal::Pressed.event_name(), "hotkey_pressed");
    assert_eq!(HotkeySignal::Released.event_name(), "hotkey_released");
}

#[test]
fn listener_flag_claims_once() {
    let m = GlobalHotkeyManager::new();
    assert!(m.try_begin_listening());
    assert!(!m.try_begin_listening());
    m.stop_listening();
    assert!(m.try_begin_listening());
    let flag = m.listening_flag();
    flag.store(false, std::sync::atomic::Ordering::SeqCst);
    assert!(m.try_begin_listening());
}
