//! The look of the help output: an accent colour and the skin that carries
//! it through headers, bold text and the scrollbar.
use vstd::prelude::*;

verus! {

/// The colour type of the terminal library; opaque here.
#[verifier::external_type_specification]
#[verifier::external_body]
pub struct ExColor(termimad::crossterm::style::Color);

/// The skin type of the markdown renderer; opaque here.
#[verifier::external_type_specification]
#[verifier::external_body]
pub struct ExMadSkin(termimad::MadSkin);

/// Copying a colour gives the same colour.
///
/// Trusted: this is the derived `Clone` of `crossterm::style::Color`, a
/// `Copy` type.
pub assume_specification[ <termimad::crossterm::style::Color as std::clone::Clone>::clone ](
    color: &termimad::crossterm::style::Color,
) -> (copy: termimad::crossterm::style::Color)
    ensures
        copy == *color,
;

/// Copying a skin; nothing is claimed of the copy.
///
/// Trusted: this is the derived `Clone` of `termimad::MadSkin`.
pub assume_specification[ <termimad::MadSkin as std::clone::Clone>::clone ](
    skin: &termimad::MadSkin,
) -> termimad::MadSkin
;

/// An accent-aware theme: the accent, and a skin that already carries it.
#[derive(Debug, Clone)]
pub struct HelpTheme {
    pub accent: termimad::crossterm::style::Color,
    pub skin: termimad::MadSkin,
}

/// The renderer's preset for light terminals.
///
/// Trusted: this is `termimad::MadSkin::default_light`; nothing is claimed
/// of the skin it returns.
#[verifier::external_body]
pub(crate) fn light_skin() -> termimad::MadSkin {
    termimad::MadSkin::default_light()
}

/// The renderer's preset for dark terminals.
///
/// Trusted: this is `termimad::MadSkin::default_dark`; nothing is claimed
/// of the skin it returns.
#[verifier::external_body]
pub(crate) fn dark_skin() -> termimad::MadSkin {
    termimad::MadSkin::default_dark()
}

/// Carries the accent through a skin in place: headers, bold text,
/// strikeout and the scrollbar thumb take the accent, italics turn dark
/// grey, the first header is centred and tables get rounded borders.
///
/// Trusted: the body only sets fields of `termimad::MadSkin` and calls its
/// setters; the skin is opaque here, so nothing is claimed of it.
#[verifier::external_body]
pub fn apply_accent(skin: &mut termimad::MadSkin, accent: termimad::crossterm::style::Color) {
    skin.set_headers_fg(accent);
    skin.headers[0].align = termimad::Alignment::Center;
    skin.bold.set_fg(accent);
    skin.italic.set_fg(termimad::crossterm::style::Color::DarkGrey);
    skin.strikeout = termimad::CompoundStyle::with_fg(accent);
    skin.scrollbar.thumb.set_fg(accent);
    skin.table_border_chars = termimad::ROUNDED_TABLE_BORDER_CHARS;
}

impl HelpTheme {
    /// Applies an accent to an existing skin.
    pub fn new(skin: termimad::MadSkin, accent: termimad::crossterm::style::Color) -> (theme: Self)
        ensures
            theme.accent == accent,
    {
        let mut skin = skin;
        apply_accent(&mut skin, accent);
        HelpTheme { accent, skin }
    }

    /// The light preset, with the accent.
    pub fn light(accent: termimad::crossterm::style::Color) -> (theme: Self)
        ensures
            theme.accent == accent,
    {
        Self::new(light_skin(), accent)
    }

    /// The dark preset, with the accent.
    pub fn dark(accent: termimad::crossterm::style::Color) -> (theme: Self)
        ensures
            theme.accent == accent,
    {
        Self::new(dark_skin(), accent)
    }

    /// The preset for a terminal whose background is light or dark.
    pub fn for_background(light: bool, accent: termimad::crossterm::style::Color) -> (theme: Self)
        ensures
            theme.accent == accent,
    {
        if light {
            Self::light(accent)
        } else {
            Self::dark(accent)
        }
    }
}

} // verus!
