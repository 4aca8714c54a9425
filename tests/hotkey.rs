use leadrscribe::hotkey::{HotkeyAction, HotkeySession, KeyEvent};

#[test]
fn hotkey_push_to_talk_start_stop() {
    let mut s = HotkeySession::new();
    assert_eq!(s.on_key_event(true, KeyEvent::KeyDown), HotkeyAction::Start);
    assert_eq!(s.on_key_event(true, KeyEvent::KeyDown), HotkeyAction::Nothing);
    assert_eq!(s.on_key_event(true, KeyEvent::KeyDown), HotkeyAction::Nothing);
    assert_eq!(s.on_key_event(true, KeyEvent::KeyUp), HotkeyAction::Stop);
    assert_eq!(s.on_key_event(true, KeyEvent::KeyUp), HotkeyAction::Nothing);
    assert!(!s.active);
}

#[test]
fn hotkey_toggle_alternates() {
    let mut s = HotkeySession::new();
    let mut fired = Vec::new();
    let events = [
        KeyEvent::KeyDown,
        KeyEvent::KeyDown,
        KeyEvent::KeyUp,
        KeyEvent::KeyUp,
        KeyEvent::KeyDown,
        KeyEvent::KeyUp,
        KeyEvent::KeyDown,
        KeyEvent::KeyUp,
    ];
    for ev in events {
        let a = s.on_key_event(false, ev);
        if a != HotkeyAction::Nothing {
            fired.push(a);
        }
    }
    assert_eq!(fired, vec![HotkeyAction::Start, HotkeyAction::Stop, HotkeyAction::Start]);
    assert!(s.active);
}

#[test]
fn hotkey_held_key_down_changes_nothing() {
    for ptt in [true, false] {
        let mut s = HotkeySession { active: true, key_held: true };
        assert_eq!(s.on_key_event(ptt, KeyEvent::KeyDown), HotkeyAction::Nothing);
        assert_eq!(s, HotkeySession { active: true, key_held: true });
    }
}
