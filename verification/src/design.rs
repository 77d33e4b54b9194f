//! Visual foundation of the studio: colour tokens and themes, and the
//! component gallery's state.

use vstd::prelude::*;

verus! {

/// Appearance theme: follow the system, light or dark.
#[derive(Debug, Clone, Copy, PartialEq, Eq, Structural)]
pub enum Theme {
    /// Follows the system when it can be detected.
    System,
    Light,
    Dark,
}

/// Effective theme after resolution.
#[derive(Debug, Clone, Copy, PartialEq, Eq, Structural)]
pub enum ResolvedTheme {
    Light,
    Dark,
}

impl Theme {
    /// Display name in the preferences.
    pub open spec fn title(self) -> Seq<char> {
        match self {
            Theme::System => "Sistema"@,
            Theme::Light => "Claro"@,
            Theme::Dark => "Escuro"@,
        }
    }

    /// The effective theme: the one chosen, or for the system choice dark
    /// only when the system is known to be dark.
    pub open spec fn resolved(self, system_dark: Option<bool>) -> ResolvedTheme {
        match self {
            Theme::Dark => ResolvedTheme::Dark,
            Theme::Light => ResolvedTheme::Light,
            Theme::System => if system_dark == Some(true) {
                ResolvedTheme::Dark
            } else {
                ResolvedTheme::Light
            },
        }
    }

    /// Display name in the preferences.
    pub fn label(self) -> (r: &'static str)
        ensures
            r@ == self.title(),
    {
        match self {
            Theme::System => "Sistema",
            Theme::Light => "Claro",
            Theme::Dark => "Escuro",
        }
    }

    /// Resolves the effective theme (light when the system is unknown).
    pub fn resolve(self, system_dark: Option<bool>) -> (r: ResolvedTheme)
        ensures
            r == self.resolved(system_dark),
    {
        match self {
            Theme::Dark => ResolvedTheme::Dark,
            Theme::Light => ResolvedTheme::Light,
            Theme::System => match system_dark {
                Some(true) => ResolvedTheme::Dark,
                _ => ResolvedTheme::Light,
            },
        }
    }
}

impl Default for Theme {
    fn default() -> (r: Self)
        ensures
            r == Theme::System,
    {
        Theme::System
    }
}

/// An RGB colour, 8 bits per channel (independent of any toolkit).
#[derive(Debug, Clone, Copy, PartialEq, Eq, Structural)]
pub struct Rgb(pub u8, pub u8, pub u8);

/// A text/background pair whose contrast is checked.
#[derive(Debug, Clone, Copy, PartialEq, Eq, Structural)]
pub struct TextPair {
    pub text: Rgb,
    pub background: Rgb,
}

/// Semantic colour tokens.
#[derive(Debug, Clone, Copy, PartialEq, Eq, Structural)]
pub struct Palette {
    pub background: Rgb,
    pub surface: Rgb,
    pub surface_raised: Rgb,
    pub text_primary: Rgb,
    pub text_secondary: Rgb,
    pub border_subtle: Rgb,
    pub border_control: Rgb,
    pub accent: Rgb,
    pub on_accent: Rgb,
    pub success_text: Rgb,
    pub warning_text: Rgb,
    pub danger_text: Rgb,
}

/// The palette of each resolved theme.
pub open spec fn palette_of(theme: ResolvedTheme) -> Palette {
    match theme {
        ResolvedTheme::Dark => Palette {
            background: Rgb(0x11, 0x13, 0x18),
            surface: Rgb(0x19, 0x1D, 0x25),
            surface_raised: Rgb(0x21, 0x27, 0x33),
            text_primary: Rgb(0xF2, 0xF4, 0xF8),
            text_secondary: Rgb(0xAD, 0xB8, 0xC9),
            border_subtle: Rgb(0x34, 0x3E, 0x4E),
            border_control: Rgb(0x6B, 0x78, 0x8C),
            accent: Rgb(0x79, 0xA9, 0xFF),
            on_accent: Rgb(0x11, 0x13, 0x18),
            success_text: Rgb(0x78, 0xD4, 0xAA),
            warning_text: Rgb(0xF2, 0xC6, 0x6D),
            danger_text: Rgb(0xFF, 0x94, 0x9C),
        },
        ResolvedTheme::Light => Palette {
            background: Rgb(0xF4, 0xF6, 0xFA),
            surface: Rgb(0xFF, 0xFF, 0xFF),
            surface_raised: Rgb(0xEA, 0xF0, 0xF8),
            text_primary: Rgb(0x18, 0x20, 0x2D),
            text_secondary: Rgb(0x4D, 0x5C, 0x70),
            border_subtle: Rgb(0xD6, 0xDE, 0xE9),
            border_control: Rgb(0x72, 0x7F, 0x92),
            accent: Rgb(0x20, 0x5A, 0xD2),
            on_accent: Rgb(0xFF, 0xFF, 0xFF),
            success_text: Rgb(0x19, 0x6B, 0x45),
            warning_text: Rgb(0x80, 0x58, 0x00),
            danger_text: Rgb(0xB4, 0x23, 0x3B),
        },
    }
}

/// The effective palette of the resolved theme.
pub fn palette(theme: ResolvedTheme) -> (r: Palette)
    ensures
        r == palette_of(theme),
{
    match theme {
        ResolvedTheme::Dark => Palette {
            background: Rgb(0x11, 0x13, 0x18),
            surface: Rgb(0x19, 0x1D, 0x25),
            surface_raised: Rgb(0x21, 0x27, 0x33),
            text_primary: Rgb(0xF2, 0xF4, 0xF8),
            text_secondary: Rgb(0xAD, 0xB8, 0xC9),
            border_subtle: Rgb(0x34, 0x3E, 0x4E),
            border_control: Rgb(0x6B, 0x78, 0x8C),
            accent: Rgb(0x79, 0xA9, 0xFF),
            on_accent: Rgb(0x11, 0x13, 0x18),
            success_text: Rgb(0x78, 0xD4, 0xAA),
            warning_text: Rgb(0xF2, 0xC6, 0x6D),
            danger_text: Rgb(0xFF, 0x94, 0x9C),
        },
        ResolvedTheme::Light => Palette {
            background: Rgb(0xF4, 0xF6, 0xFA),
            surface: Rgb(0xFF, 0xFF, 0xFF),
            surface_raised: Rgb(0xEA, 0xF0, 0xF8),
            text_primary: Rgb(0x18, 0x20, 0x2D),
            text_secondary: Rgb(0x4D, 0x5C, 0x70),
            border_subtle: Rgb(0xD6, 0xDE, 0xE9),
            border_control: Rgb(0x72, 0x7F, 0x92),
            accent: Rgb(0x20, 0x5A, 0xD2),
            on_accent: Rgb(0xFF, 0xFF, 0xFF),
            success_text: Rgb(0x19, 0x6B, 0x45),
            warning_text: Rgb(0x80, 0x58, 0x00),
            danger_text: Rgb(0xB4, 0x23, 0x3B),
        },
    }
}

/// State of the component gallery: the theme shown.
#[derive(Debug, Clone, Copy, PartialEq, Eq, Structural)]
pub struct GalleryState {
    pub theme: ResolvedTheme,
}

impl GalleryState {
    /// A gallery showing `theme`.
    pub fn new(theme: ResolvedTheme) -> (r: Self)
        ensures
            r.theme == theme,
    {
        GalleryState { theme }
    }
}

} // verus!
