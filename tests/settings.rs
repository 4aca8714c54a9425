use leadrscribe::settings::{
    default_custom_instructions, default_history_limit, default_model,
    default_overlay_position, default_paste_method, default_selected_language,
    default_sound_theme, ClipboardHandling, ModelUnloadTimeout, OutputMode, OverlayPosition,
    PasteMethod, SoundTheme,
};
use leadrscribe::text::validate_shortcut_string;

#[test]
fn unload_timeout_units() {
    assert_eq!(ModelUnloadTimeout::Never.to_minutes(), None);
    assert_eq!(ModelUnloadTimeout::Never.to_seconds(), None);
    assert_eq!(ModelUnloadTimeout::Immediately.to_seconds(), Some(0));
    assert_eq!(ModelUnloadTimeout::Min2.to_seconds(), Some(120));
    assert_eq!(ModelUnloadTimeout::Min15.to_minutes(), Some(15));
    assert_eq!(ModelUnloadTimeout::Hour1.to_seconds(), Some(3600));
    assert_eq!(ModelUnloadTimeout::Sec5.to_minutes(), Some(0));
    assert_eq!(ModelUnloadTimeout::Sec5.to_seconds(), Some(5));
}

#[test]
fn sound_theme_paths() {
    assert_eq!(SoundTheme::Marimba.as_str(), "marimba");
    assert_eq!(SoundTheme::Pop.to_start_path(), "resources/pop_start.wav");
    assert_eq!(SoundTheme::Custom.to_stop_path(), "resources/custom_stop.wav");
}

#[test]
fn defaults() {
    assert_eq!(ModelUnloadTimeout::default(), ModelUnloadTimeout::Immediately);
    assert_eq!(ClipboardHandling::default(), ClipboardHandling::CopyToClipboard);
    assert_eq!(OutputMode::default(), OutputMode::Transcript);
    assert_eq!(default_paste_method(true), PasteMethod::Direct);
    assert_eq!(default_paste_method(false), PasteMethod::CtrlV);
    assert_eq!(default_overlay_position(true), OverlayPosition::Off);
    assert_eq!(default_overlay_position(false), OverlayPosition::Bottom);
    assert_eq!(default_model(), "");
    assert_eq!(default_selected_language(), "auto");
    assert_eq!(default_history_limit(), 10000);
    assert_eq!(default_sound_theme(), SoundTheme::Marimba);
    assert!(default_custom_instructions().starts_with("Improve grammar, spelling"));
}

#[test]
fn shortcut_validation() {
    assert!(validate_shortcut_string("ctrl+space").is_ok());
    assert!(validate_shortcut_string("space").is_ok());
    assert!(validate_shortcut_string("Ctrl + Shift + K").is_ok());
    assert_eq!(
        validate_shortcut_string("ctrl+shift"),
        Err("Shortcut must contain at least one non-modifier key".to_string())
    );
    assert!(validate_shortcut_string(" CMD + Option ").is_err());
    assert!(validate_shortcut_string("win+windows+super+meta").is_err());
    // an empty piece is not a modifier name
    assert!(validate_shortcut_string("ctrl+").is_ok());
}
