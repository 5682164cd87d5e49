//! The interface palette: a background, a foreground, four colours for
//! elements and four for messages.

use vstd::prelude::*;
use super::ansi::{
    graphics_requirement, graphics_requirement_of, main_target_of, text_requirement,
    text_requirement_of, MainSlot,
};
use super::ExtrapolateError;
use crate::color::accessibility::{correct_contrast, correction_of, Requirement};
use crate::color::extraction::{
    closest_by, delta_keys, discrete_keys, first_greatest, first_least, highest_by,
    lemma_first_greatest_unique, lemma_first_least_unique, lowest_by, Channel,
};
use crate::color::Rgba;
use crate::config::AccessibilityConfig;

verus! {

/// A derived interface palette.
#[derive(Debug, Clone, Copy, PartialEq, Eq, Structural)]
pub struct Palette {
    pub background: Rgba,
    pub foreground: Rgba,
    pub primary: Rgba,
    pub secondary: Rgba,
    pub ternary: Rgba,
    pub accent: Rgba,
    pub debug: Rgba,
    pub info: Rgba,
    pub warning: Rgba,
    pub error: Rgba,
}

/// Number of colours that the derivation asks an extractor for, to choose
/// the background, the foreground and the message colours from.
pub const PROMINENT_COUNT: u8 = 16;

/// Number of colours that the derivation asks an extractor for, to take the
/// element colours from.
pub const ELEMENT_COUNT: u8 = 4;

/// The first colour of `palette` closest in hue to the target of `slot`.
pub open spec fn signal_of(slot: MainSlot, palette: Seq<Rgba>) -> Rgba {
    palette[first_least(delta_keys(Channel::Hue, main_target_of(slot), palette))]
}

/// The interface palette derived from the sixteen colours `palette` and the
/// four colours `elements`.
///
/// The background is the first darkest colour. The foreground, the first
/// brightest colour, and the message colours, each the colour closest in
/// hue to cyan, green, yellow and red, are corrected as text; the four
/// elements, as graphics.
pub open spec fn palette_of(
    accessibility: AccessibilityConfig,
    palette: Seq<Rgba>,
    elements: Seq<Rgba>,
) -> Palette {
    let background = palette[first_least(discrete_keys(Channel::Lightness, palette))];
    let text = text_requirement_of(accessibility);
    let graphics = graphics_requirement_of(accessibility);
    Palette {
        background,
        foreground: correction_of(
            text,
            background,
            palette[first_greatest(discrete_keys(Channel::Lightness, palette))],
        ),
        primary: correction_of(graphics, background, elements[0]),
        secondary: correction_of(graphics, background, elements[1]),
        ternary: correction_of(graphics, background, elements[2]),
        accent: correction_of(graphics, background, elements[3]),
        debug: correction_of(text, background, signal_of(MainSlot::Cyan, palette)),
        info: correction_of(text, background, signal_of(MainSlot::Green, palette)),
        warning: correction_of(text, background, signal_of(MainSlot::Yellow, palette)),
        error: correction_of(text, background, signal_of(MainSlot::Red, palette)),
    }
}

/// What a derivation gives: an error for an empty palette, then for fewer
/// than four elements, else the derived palette.
pub open spec fn derivation_of(
    accessibility: AccessibilityConfig,
    palette: Seq<Rgba>,
    elements: Seq<Rgba>,
) -> Result<Palette, ExtrapolateError> {
    if palette.len() == 0 {
        Err(ExtrapolateError::EmptyPalette)
    } else if elements.len() < 4 {
        Err(ExtrapolateError::TooFewElements)
    } else {
        Ok(palette_of(accessibility, palette, elements))
    }
}

/// Picks the first colour closest in hue to the target of `slot`.
fn signal(slot: MainSlot, palette: &Vec<Rgba>) -> (found: Rgba)
    requires
        palette.len() > 0,
    ensures
        found == signal_of(slot, palette@),
{
    let target: Rgba = slot.target();
    let at: usize = closest_by(Channel::Hue, target, palette).unwrap();
    proof {
        lemma_first_least_unique(delta_keys(Channel::Hue, target, palette@), at as int);
    }
    palette[at]
}

/// Derives the interface palette.
pub fn palette_from(
    accessibility: AccessibilityConfig,
    palette: &Vec<Rgba>,
    elements: &Vec<Rgba>,
) -> (derived: Result<Palette, ExtrapolateError>)
    ensures
        derived == derivation_of(accessibility, palette@, elements@),
{
    let background: Rgba = match lowest_by(Channel::Lightness, palette) {
        None => {
            return Err(ExtrapolateError::EmptyPalette);
        },
        Some(darkest) => {
            proof {
                lemma_first_least_unique(
                    discrete_keys(Channel::Lightness, palette@),
                    darkest as int,
                );
            }
            palette[darkest]
        },
    };
    if elements.len() < 4 {
        return Err(ExtrapolateError::TooFewElements);
    }
    let brightest: usize = highest_by(Channel::Lightness, palette).unwrap();
    proof {
        lemma_first_greatest_unique(discrete_keys(Channel::Lightness, palette@), brightest as int);
    }
    let text: Requirement = text_requirement(accessibility);
    let graphics: Requirement = graphics_requirement(accessibility);
    Ok(
        Palette {
            background,
            foreground: correct_contrast(text, background, palette[brightest]),
            primary: correct_contrast(graphics, background, elements[0]),
            secondary: correct_contrast(graphics, background, elements[1]),
            ternary: correct_contrast(graphics, background, elements[2]),
            accent: correct_contrast(graphics, background, elements[3]),
            debug: correct_contrast(text, background, signal(MainSlot::Cyan, palette)),
            info: correct_contrast(text, background, signal(MainSlot::Green, palette)),
            warning: correct_contrast(text, background, signal(MainSlot::Yellow, palette)),
            error: correct_contrast(text, background, signal(MainSlot::Red, palette)),
        },
    )
}

/// Derives interface palettes from what an extractor found in an image.
#[derive(Debug, Clone, Copy)]
pub struct Extrapolator {
    pub accessibility: AccessibilityConfig,
}

impl Extrapolator {
    pub fn new(accessibility: AccessibilityConfig) -> (extrapolator: Self)
        ensures
            extrapolator.accessibility == accessibility,
    {
        Self { accessibility }
    }

    /// Derives the palette from the `PROMINENT_COUNT` and the
    /// `ELEMENT_COUNT` most prominent colours of an image.
    pub fn extrapolate(&self, prominent: &Vec<Rgba>, elements: &Vec<Rgba>) -> (derived: Result<
        Palette,
        ExtrapolateError,
    >)
        ensures
            derived == derivation_of(self.accessibility, prominent@, elements@),
    {
        palette_from(self.accessibility, prominent, elements)
    }
}

} // verus!
