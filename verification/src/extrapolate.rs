//! Derivation of palettes from the colours extracted from an image.

pub mod ansi;
pub mod blend;
pub mod bootstrap;

use vstd::prelude::*;
use crate::color::Rgba;
use crate::config::{AccessibilityConfig, AnsiConfig, ConfigError};

verus! {

/// Why a palette could not be derived.
#[derive(Debug, Clone, Copy, PartialEq, Eq, Structural)]
pub enum ExtrapolateError {
    /// The configuration has the given fault.
    Config(ConfigError),
    /// There is no colour to derive the palette from.
    EmptyPalette,
    /// There are fewer than four colours to take the elements from.
    TooFewElements,
}

/// The interface palette and the terminal palette of one image.
#[derive(Debug, Clone)]
pub struct Palette {
    pub bootstrap: bootstrap::Palette,
    pub ansi: ansi::Palette,
}

/// The colours that an extractor found, by the counts that the derivations
/// ask for.
#[derive(Debug, Clone)]
pub struct Extracted {
    /// The colours found for `ansi::PROMINENT_COUNT`.
    pub terminal: Vec<Rgba>,
    /// The colours found for `bootstrap::PROMINENT_COUNT`.
    pub interface: Vec<Rgba>,
    /// The colours found for `bootstrap::ELEMENT_COUNT`.
    pub elements: Vec<Rgba>,
}

/// What a pair of palettes holds.
pub struct PaletteModel {
    pub bootstrap: bootstrap::Palette,
    pub ansi: ansi::PaletteModel,
}

/// What a derivation ended in, its palettes taken as what they hold.
pub open spec fn both_of(derived: Result<Palette, ExtrapolateError>) -> Result<
    PaletteModel,
    ExtrapolateError,
> {
    match derived {
        Ok(palette) => Ok(PaletteModel { bootstrap: palette.bootstrap, ansi: palette.ansi@ }),
        Err(error) => Err(error),
    }
}

/// What deriving both palettes gives. The interface palette is derived
/// first: where it fails, its error is the result; else where the terminal
/// palette fails, the error of that one.
pub open spec fn derivation_of(
    config: AnsiConfig,
    accessibility: AccessibilityConfig,
    extracted: Extracted,
) -> Result<PaletteModel, ExtrapolateError> {
    match bootstrap::derivation_of(accessibility, extracted.interface@, extracted.elements@) {
        Err(error) => Err(error),
        Ok(interface) => match ansi::derivation_of(
            config,
            accessibility,
            ansi::participants_of(extracted.terminal@),
        ) {
            Err(error) => Err(error),
            Ok(terminal) => Ok(PaletteModel { bootstrap: interface, ansi: terminal }),
        },
    }
}

/// Derives both palettes from what an extractor found.
pub fn extrapolate(
    config: &AnsiConfig,
    accessibility: AccessibilityConfig,
    extracted: &Extracted,
) -> (derived: Result<Palette, ExtrapolateError>)
    ensures
        both_of(derived) == derivation_of(*config, accessibility, *extracted),
{
    let interface = match bootstrap::Extrapolator::new(accessibility).extrapolate(
        &extracted.interface,
        &extracted.elements,
    ) {
        Ok(palette) => palette,
        Err(error) => {
            return Err(error);
        },
    };
    match ansi::Extrapolator::new(*config, accessibility).extrapolate(&extracted.terminal) {
        Ok(terminal) => Ok(Palette { bootstrap: interface, ansi: terminal }),
        Err(error) => Err(error),
    }
}

} // verus!
