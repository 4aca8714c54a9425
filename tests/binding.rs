use leadrscribe::binding::{
    binding_change_outcome, check_registration, plan_binding_change, BindingChange,
};
use leadrscribe::settings::ShortcutBinding;

fn transcribe_binding() -> ShortcutBinding {
    ShortcutBinding {
        id: "transcribe".to_string(),
        name: "Transcribe".to_string(),
        description: "Converts your speech into text.".to_string(),
        default_binding: "ctrl+space".to_string(),
        current_binding: "ctrl+space".to_string(),
    }
}

#[test]
fn change_unknown_binding() {
    match plan_binding_change("nope", None, "ctrl+k") {
        BindingChange::NotFound(resp) => {
            assert!(!resp.success);
            assert!(resp.binding.is_none());
            assert_eq!(resp.error, Some("Binding with id 'nope' not found".to_string()));
        }
        _ => panic!("expected NotFound"),
    }
}

#[test]
fn change_to_modifier_only_refused() {
    match plan_binding_change("transcribe", Some(transcribe_binding()), "ctrl+shift") {
        BindingChange::Invalid(e) => {
            assert_eq!(e, "Shortcut must contain at least one non-modifier key")
        }
        _ => panic!("expected Invalid"),
    }
}

#[test]
fn change_then_register() {
    let updated = match plan_binding_change("transcribe", Some(transcribe_binding()), "alt+k") {
        BindingChange::Register(b) => b,
        _ => panic!("expected Register"),
    };
    assert_eq!(updated.current_binding, "alt+k");
    assert_eq!(updated.default_binding, "ctrl+space");
    let ok = binding_change_outcome(updated.clone(), Ok(()));
    assert!(ok.success);
    assert_eq!(ok.binding.unwrap().current_binding, "alt+k");
    let failed = binding_change_outcome(updated, Err("Shortcut 'alt+k' is already in use".to_string()));
    assert!(!failed.success);
    assert_eq!(
        failed.error,
        Some("Failed to register shortcut: Shortcut 'alt+k' is already in use".to_string())
    );
}

#[test]
fn registration_checks_in_order() {
    assert_eq!(
        check_registration("shift", Some("bad".to_string()), true),
        Err("Shortcut must contain at least one non-modifier key".to_string())
    );
    assert_eq!(
        check_registration("ctrl+zz", Some("unknown key".to_string()), true),
        Err("Failed to parse shortcut 'ctrl+zz': unknown key".to_string())
    );
    assert_eq!(
        check_registration("ctrl+space", None, true),
        Err("Shortcut 'ctrl+space' is already in use".to_string())
    );
    assert_eq!(check_registration("ctrl+space", None, false), Ok(()));
}
