//! User settings that the core reads, with their defaults.
use vstd::prelude::*;
use crate::chars::{to_chars, from_chars};
use crate::samples::append_copy;

verus! {

/// A configured shortcut.
#[derive(Clone, Debug)]
pub struct ShortcutBinding {
    pub id: String,
    pub name: String,
    pub description: String,
    pub default_binding: String,
    pub current_binding: String,
}

/// Where the recording overlay appears.
#[derive(Clone, Copy, Debug, PartialEq, Eq, Structural)]
pub enum OverlayPosition {
    Off,
    Top,
    Bottom,
    FollowCursor,
}

/// How long an idle speech model stays loaded.
#[derive(Clone, Copy, Debug, PartialEq, Eq, Structural)]
pub enum ModelUnloadTimeout {
    Never,
    Immediately,
    Min2,
    Min5,
    Min10,
    Min15,
    Hour1,
    Sec5,
}

/// How text reaches the focused application.
#[derive(Clone, Copy, Debug, PartialEq, Eq, Structural)]
pub enum PasteMethod {
    CtrlV,
    Direct,
}

/// Whether pasting leaves the text on the clipboard.
#[derive(Clone, Copy, Debug, PartialEq, Eq, Structural)]
pub enum ClipboardHandling {
    DontModify,
    CopyToClipboard,
}

/// The chimes played at start and stop.
#[derive(Clone, Copy, Debug, PartialEq, Eq, Structural)]
pub enum SoundTheme {
    Marimba,
    Pop,
    Custom,
}

/// Whether a transcript is pasted as is or rewritten first.
#[derive(Clone, Copy, Debug, PartialEq, Eq, Structural)]
pub enum OutputMode {
    Transcript,
    Ghostwriter,
}

impl Default for ModelUnloadTimeout {
    fn default() -> (r: Self)
        ensures
            r == ModelUnloadTimeout::Immediately,
    {
        ModelUnloadTimeout::Immediately
    }
}

impl Default for ClipboardHandling {
    fn default() -> (r: Self)
        ensures
            r == ClipboardHandling::CopyToClipboard,
    {
        ClipboardHandling::CopyToClipboard
    }
}

impl Default for OutputMode {
    fn default() -> (r: Self)
        ensures
            r == OutputMode::Transcript,
    {
        OutputMode::Transcript
    }
}

pub open spec fn unload_minutes(t: ModelUnloadTimeout) -> Option<u64> {
    match t {
        ModelUnloadTimeout::Never => None,
        ModelUnloadTimeout::Immediately => Some(0),
        ModelUnloadTimeout::Min2 => Some(2),
        ModelUnloadTimeout::Min5 => Some(5),
        ModelUnloadTimeout::Min10 => Some(10),
        ModelUnloadTimeout::Min15 => Some(15),
        ModelUnloadTimeout::Hour1 => Some(60),
        ModelUnloadTimeout::Sec5 => Some(0),
    }
}

impl ModelUnloadTimeout {
    /// The timeout in whole minutes; `Immediately` and the five-second debug
    /// setting give 0, `Never` gives none.
    pub fn to_minutes(self) -> (r: Option<u64>)
        ensures
            r == unload_minutes(self),
    {
        match self {
            ModelUnloadTimeout::Never => None,
            ModelUnloadTimeout::Immediately => Some(0),
            ModelUnloadTimeout::Min2 => Some(2),
            ModelUnloadTimeout::Min5 => Some(5),
            ModelUnloadTimeout::Min10 => Some(10),
            ModelUnloadTimeout::Min15 => Some(15),
            ModelUnloadTimeout::Hour1 => Some(60),
            ModelUnloadTimeout::Sec5 => Some(0),
        }
    }

    /// The timeout in seconds; `Never` gives none.
    pub fn to_seconds(self) -> (r: Option<u64>)
        ensures
            r == (match self {
                ModelUnloadTimeout::Never => None,
                ModelUnloadTimeout::Sec5 => Some(5u64),
                _ => Some((unload_minutes(self)->0 * 60) as u64),
            }),
    {
        match self {
            ModelUnloadTimeout::Never => None,
            ModelUnloadTimeout::Immediately => Some(0),
            ModelUnloadTimeout::Sec5 => Some(5),
            _ => match self.to_minutes() {
                Some(m) => Some(m * 60),
                None => None,
            },
        }
    }
}

pub open spec fn theme_name(t: SoundTheme) -> Seq<char> {
    match t {
        SoundTheme::Marimba => "marimba"@,
        SoundTheme::Pop => "pop"@,
        SoundTheme::Custom => "custom"@,
    }
}

impl SoundTheme {
    pub fn as_str(&self) -> (r: &'static str)
        ensures
            r@ == theme_name(*self),
    {
        match self {
            SoundTheme::Marimba => "marimba",
            SoundTheme::Pop => "pop",
            SoundTheme::Custom => "custom",
        }
    }

    fn resource_path(&self, suffix: &str) -> (r: String)
        ensures
            r@ == "resources/"@ + theme_name(*self) + suffix@,
    {
        let mut out = to_chars("resources/");
        append_copy(&mut out, to_chars(self.as_str()).as_slice());
        append_copy(&mut out, to_chars(suffix).as_slice());
        from_chars(out.as_slice())
    }

    /// The theme's start chime, `resources/<theme>_start.wav`.
    pub fn to_start_path(&self) -> (r: String)
        ensures
            r@ == "resources/"@ + theme_name(*self) + "_start.wav"@,
    {
        self.resource_path("_start.wav")
    }

    /// The theme's stop chime, `resources/<theme>_stop.wav`.
    pub fn to_stop_path(&self) -> (r: String)
        ensures
            r@ == "resources/"@ + theme_name(*self) + "_stop.wav"@,
    {
        self.resource_path("_stop.wav")
    }
}

/// Pasting by key stroke, except on Linux where text is typed directly.
pub fn default_paste_method(is_linux: bool) -> (r: PasteMethod)
    ensures
        r == (if is_linux {
            PasteMethod::Direct
        } else {
            PasteMethod::CtrlV
        }),
{
    if is_linux {
        PasteMethod::Direct
    } else {
        PasteMethod::CtrlV
    }
}

/// The overlay sits at the bottom, except on Linux where it is off.
pub fn default_overlay_position(is_linux: bool) -> (r: OverlayPosition)
    ensures
        r == (if is_linux {
            OverlayPosition::Off
        } else {
            OverlayPosition::Bottom
        }),
{
    if is_linux {
        OverlayPosition::Off
    } else {
        OverlayPosition::Bottom
    }
}

/// No speech model is chosen at first.
pub fn default_model() -> (r: String)
    ensures
        r@.len() == 0,
{
    String::new()
}

pub fn default_always_on_microphone() -> (r: bool)
    ensures
        !r,
{
    false
}

pub fn default_translate_to_english() -> (r: bool)
    ensures
        !r,
{
    false
}

pub fn default_start_hidden() -> (r: bool)
    ensures
        !r,
{
    false
}

pub fn default_autostart_enabled() -> (r: bool)
    ensures
        !r,
{
    false
}

/// The language is detected automatically.
pub fn default_selected_language() -> (r: String)
    ensures
        r@ == "auto"@,
{
    from_chars(to_chars("auto").as_slice())
}

pub fn default_debug_mode() -> (r: bool)
    ensures
        !r,
{
    false
}

/// History is kept in practice without limit.
pub fn default_history_limit() -> (r: usize)
    ensures
        r == 10000,
{
    10000
}

pub fn default_sound_theme() -> (r: SoundTheme)
    ensures
        r == SoundTheme::Marimba,
{
    SoundTheme::Marimba
}

pub fn default_custom_instructions() -> (r: String)
    ensures
        r@ == "Improve grammar, spelling, clarity, and flow while preserving the original meaning and tone."@,
{
    from_chars(
        to_chars(
            "Improve grammar, spelling, clarity, and flow while preserving the original meaning and tone.",
        ).as_slice(),
    )
}

} // verus!
